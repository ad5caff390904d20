use vstd::prelude::*;
use vstd::string::*;

verus! {

/// The one kind of failure the browser knows: a filesystem operation that did
/// not go through, with the reason as text.
#[derive(Debug, PartialEq, Eq)]
pub enum MyError {
    FileError(String),
}

impl View for MyError {
    type V = Seq<char>;

    /// The reason carried by the error.
    open spec fn view(&self) -> Seq<char> {
        match self {
            MyError::FileError(msg) => msg@,
        }
    }
}

/// What every rendered error starts with.
pub open spec fn error_prefix() -> Seq<char> {
    "File Error: "@
}

impl MyError {
    /// The text shown to the user: the fixed prefix followed by the reason.
    pub fn to_string(&self) -> (text: String)
        ensures
            text@ == error_prefix() + self@,
    {
        let mut text = String::from_str("File Error: ");
        match self {
            MyError::FileError(msg) => {
                text.append(msg.as_str());
            },
        }
        text
    }
}

} // verus!
