//! The core of a terminal file browser: the current location, the lists the
//! user moves through, the text prompt, and the modal controller that turns
//! key presses into changes of state and requests to the filesystem.
//!
//! Nothing here touches a terminal or a disk. The controller takes an event
//! and says what it wants done; whoever drives it does that on disk, hands
//! back what came of it, and lists the current directory anew at the end of
//! each turn. What the controller does with each of these is stated over a
//! mathematical model of its state, and the laws that hold of that model are
//! proved next to it.

pub mod directory;
pub mod events;
pub mod my_errors;
mod text;
pub mod ui;
