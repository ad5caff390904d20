pub mod action;
pub mod app;
pub mod help;
pub mod laws;
pub mod model;
pub mod select_list;
pub mod user_input;
