use vstd::prelude::*;
use vstd::string::*;

verus! {

/// What can be done to the highlighted file.
#[derive(Debug, Clone, Copy, PartialEq, Eq, Structural)]
pub enum FileAction {
    Delete,
    Rename,
    Bookmark,
}

impl FileAction {
    /// The action's name as mathematics.
    pub open spec fn label(self) -> Seq<char> {
        match self {
            FileAction::Delete => "Delete"@,
            FileAction::Rename => "Rename"@,
            FileAction::Bookmark => "Bookmark"@,
        }
    }

    /// The action at a position of the menu.
    pub open spec fn at(index: nat) -> Option<FileAction> {
        if index == 0 {
            Some(FileAction::Delete)
        } else if index == 1 {
            Some(FileAction::Rename)
        } else if index == 2 {
            Some(FileAction::Bookmark)
        } else {
            None
        }
    }

    /// The menu: the names of all actions, in their fixed order.
    pub open spec fn menu() -> Seq<Seq<char>> {
        seq![FileAction::Delete.label(), FileAction::Rename.label(), FileAction::Bookmark.label()]
    }

    /// The action called `name`, if there is one.
    pub open spec fn named(name: Seq<char>) -> Option<FileAction> {
        if name == FileAction::Delete.label() {
            Some(FileAction::Delete)
        } else if name == FileAction::Rename.label() {
            Some(FileAction::Rename)
        } else if name == FileAction::Bookmark.label() {
            Some(FileAction::Bookmark)
        } else {
            None
        }
    }

    /// The action's name, for display.
    pub fn to_string(&self) -> (text: String)
        ensures
            text@ == self.label(),
    {
        match self {
            FileAction::Delete => String::from_str("Delete"),
            FileAction::Rename => String::from_str("Rename"),
            FileAction::Bookmark => String::from_str("Bookmark"),
        }
    }

    /// The action at position `index` of the menu.
    pub fn from_index(index: usize) -> (action: Option<FileAction>)
        ensures
            action == Self::at(index as nat),
    {
        if index == 0 {
            Some(FileAction::Delete)
        } else if index == 1 {
            Some(FileAction::Rename)
        } else if index == 2 {
            Some(FileAction::Bookmark)
        } else {
            None
        }
    }

    /// Reads an action's name back.
    pub fn from_str(s: &str) -> (action: Result<FileAction, ()>)
        ensures
            match action {
                Ok(a) => Self::named(s@) == Some(a),
                Err(_) => Self::named(s@).is_none(),
            },
    {
        let name = String::from_str(s);
        if name == String::from_str("Delete") {
            Ok(FileAction::Delete)
        } else if name == String::from_str("Rename") {
            Ok(FileAction::Rename)
        } else if name == String::from_str("Bookmark") {
            Ok(FileAction::Bookmark)
        } else {
            Err(())
        }
    }

    /// The names of all actions, in the order of the menu.
    pub fn labels() -> (names: Vec<String>)
        ensures
            names.deep_view() == Self::menu(),
    {
        let mut names: Vec<String> = Vec::new();
        names.push(FileAction::Delete.to_string());
        names.push(FileAction::Rename.to_string());
        names.push(FileAction::Bookmark.to_string());
        names
    }
}

/// No two actions share a name: reading back the name of an action gives that
/// action, and the menu shows at each position the name of the action there.
pub proof fn lemma_action_names(action: FileAction)
    ensures
        FileAction::named(action.label()) == Some(action),
        forall|i: nat| #![trigger FileAction::at(i)]
            FileAction::at(i) matches Some(a) ==> FileAction::menu()[i as int] == a.label(),
        FileAction::menu().len() == 3,
{
    reveal_strlit("Delete");
    reveal_strlit("Rename");
    reveal_strlit("Bookmark");
    assert("Delete"@[0] == 'D');
    assert("Rename"@[0] == 'R');
    assert("Bookmark"@[0] == 'B');
}

} // verus!
