use vstd::prelude::*;

use crate::directory::{
    create_failure, delete_failure, kind_of, names_in, path_failure, rename_failure, FileStat,
    FileTypeEnum, PathView,
};
use crate::events::{Event, KeyCode};
use crate::my_errors::error_prefix;
use crate::ui::action::FileAction;
use crate::ui::select_list::SelectListView;
use crate::ui::user_input::UserInputView;

verus! {

/// What the browser is doing: which keys mean what depends on it.
#[derive(Debug, Clone, Copy, PartialEq, Eq, Structural)]
pub enum AppMode {
    Exit,
    Files,
    Select,
    Rename,
    Delete,
    Create,
    Help,
}

/// The remembered file as mathematics: its full path and its name.
pub struct BookmarkView {
    pub full_path: Seq<char>,
    pub file_name: Seq<char>,
}

impl BookmarkView {
    /// Path and name are there together or not at all.
    pub open spec fn wf(self) -> bool {
        (self.full_path.len() == 0) == (self.file_name.len() == 0)
    }

    /// Whether a file is remembered.
    pub open spec fn is_set(self) -> bool {
        self.full_path.len() > 0
    }

    /// No file remembered.
    pub open spec fn unset() -> BookmarkView {
        BookmarkView { full_path: Seq::empty(), file_name: Seq::empty() }
    }
}

/// What the browser asks of the filesystem, as mathematics.
pub enum RequestView {
    Nothing,
    Rename { from: Seq<char>, to: Seq<char> },
    Create { path: Seq<char> },
    Inspect { name: Seq<char>, path: Seq<char> },
    RemoveFile { path: Seq<char> },
    RemoveTree { path: Seq<char> },
}

/// What the filesystem answered, as mathematics. A failed operation carries
/// the system's reason.
pub enum ReplyView {
    Renamed(Result<(), Seq<char>>),
    Created(Result<(), Seq<char>>),
    Removed(Result<(), Seq<char>>),
    Inspected { name: Seq<char>, path: Seq<char>, stat: Option<FileStat> },
}

/// The whole state of the browser as mathematics.
pub struct AppView {
    pub dir: PathView,
    pub files: SelectListView,
    pub actions: SelectListView,
    pub input: UserInputView,
    pub bookmark: BookmarkView,
    pub mode: AppMode,
    pub error: Seq<char>,
}

/// A state together with what is asked of the filesystem on reaching it.
pub struct Turn {
    pub state: AppView,
    pub request: RequestView,
}

/// What the file list shows when the current directory cannot be listed.
pub open spec fn unlisted() -> Seq<Seq<char>> {
    seq!["No such directory"@]
}

/// The names to show for what reading the directory gave.
pub open spec fn shown(read: Option<Seq<Option<Seq<char>>>>) -> Seq<Seq<char>> {
    match read {
        Some(entries) => names_in(entries),
        None => unlisted(),
    }
}

/// The error text left when a path cannot be written out.
pub open spec fn path_error() -> Seq<char> {
    error_prefix() + path_failure()
}

/// The answer that confirms a deletion.
pub open spec fn yes() -> Seq<char> {
    seq!['y']
}

/// The error text for an operation whose outcome is `outcome`, given how a
/// failure of that operation is worded: empty after a success.
pub open spec fn error_after(
    outcome: Result<(), Seq<char>>,
    wording: spec_fn(Seq<char>) -> Seq<char>,
) -> Seq<char> {
    match outcome {
        Ok(_) => Seq::empty(),
        Err(cause) => error_prefix() + wording(cause),
    }
}

impl AppView {
    /// Every part is well-formed, no listed file has an empty name, and the
    /// menu offers the actions in their fixed order.
    pub open spec fn wf(self) -> bool {
        &&& self.dir.wf()
        &&& self.files.wf()
        &&& self.actions.wf()
        &&& self.input.wf()
        &&& self.bookmark.wf()
        &&& forall|i: int| 0 <= i < self.files.items.len() ==> #[trigger] self.files.items[i].len() > 0
        &&& self.actions.items == FileAction::menu()
    }

    /// The state the browser starts in: the files of the directory with the
    /// first one highlighted, the menu closed, nothing typed or remembered.
    pub open spec fn start(dir: PathView, read: Option<Seq<Option<Seq<char>>>>) -> AppView {
        AppView {
            dir,
            files: (SelectListView { items: shown(read), selected: None }).with_highlight(Some(0)),
            actions: SelectListView { items: FileAction::menu(), selected: None },
            input: UserInputView::seeded(Seq::empty()),
            bookmark: BookmarkView::unset(),
            mode: AppMode::Files,
            error: Seq::empty(),
        }
    }

    /// This state, with nothing asked.
    pub open spec fn idle(self) -> Turn {
        Turn { state: self, request: RequestView::Nothing }
    }

    /// The same state in another mode.
    pub open spec fn in_mode(self, mode: AppMode) -> AppView {
        AppView { mode, ..self }
    }

    /// Descending into the highlighted entry; without one, nothing changes.
    pub open spec fn move_into(self) -> AppView {
        match self.files.chosen() {
            Some(name) => AppView { dir: self.dir.descend(name), ..self },
            None => self,
        }
    }

    /// Moving the remembered file into the current directory. Without a
    /// bookmark nothing happens. If the file's new path cannot be written
    /// out, that is the error and nothing is attempted; otherwise the move is
    /// asked for, and the bookmark is spent on the attempt, however it ends.
    pub open spec fn move_bookmarked(self) -> Turn {
        if self.bookmark.is_set() {
            match self.dir.resolve(self.bookmark.file_name) {
                Some(to) => Turn {
                    state: AppView { bookmark: BookmarkView::unset(), ..self },
                    request: RequestView::Rename { from: self.bookmark.full_path, to },
                },
                None => self.with_error(path_error()).idle(),
            }
        } else {
            self.idle()
        }
    }

    /// What a key does while the files are browsed.
    pub open spec fn files_key(self, key: KeyCode) -> Turn {
        match key {
            KeyCode::Up => (AppView { files: self.files.moved_up(), ..self }).idle(),
            KeyCode::Down => (AppView { files: self.files.moved_down(), ..self }).idle(),
            KeyCode::Enter => (AppView {
                mode: AppMode::Select,
                actions: self.actions.with_highlight(Some(0)),
                ..self
            }).idle(),
            KeyCode::Char(c) => if c == 'k' {
                (AppView { files: self.files.moved_up(), ..self }).idle()
            } else if c == 'j' {
                (AppView { files: self.files.moved_down(), ..self }).idle()
            } else if c == 'a' {
                (AppView {
                    mode: AppMode::Create,
                    input: UserInputView::seeded(Seq::empty()),
                    ..self
                }).idle()
            } else if c == 'm' {
                self.move_into().idle()
            } else if c == '-' {
                (AppView { dir: self.dir.ascend(), ..self }).idle()
            } else if c == 'b' {
                self.move_bookmarked()
            } else {
                self.idle()
            },
            _ => self.idle(),
        }
    }

    /// Carrying out the highlighted action on the highlighted file. Without
    /// both highlights nothing happens. Deleting and renaming open their
    /// prompts. Bookmarking remembers the file and goes back to the files,
    /// unless the file's path cannot be written out: then that is the error,
    /// and the menu stays open.
    pub open spec fn select_menu(self) -> AppView {
        match (self.files.chosen(), self.actions.selected) {
            (Some(name), Some(at)) => match FileAction::at(at) {
                Some(FileAction::Delete) => AppView {
                    mode: AppMode::Delete,
                    input: UserInputView::seeded(Seq::empty()),
                    ..self
                },
                Some(FileAction::Rename) => AppView {
                    mode: AppMode::Rename,
                    input: UserInputView::seeded(name),
                    ..self
                },
                Some(FileAction::Bookmark) => match self.dir.resolve(name) {
                    Some(full_path) => AppView {
                        mode: AppMode::Files,
                        bookmark: BookmarkView { full_path, file_name: name },
                        error: Seq::empty(),
                        ..self
                    },
                    None => self.with_error(path_error()),
                },
                None => self,
            },
            _ => self,
        }
    }

    /// What a key does while the menu is open.
    pub open spec fn select_key(self, key: KeyCode) -> AppView {
        match key {
            KeyCode::Up => AppView { actions: self.actions.moved_up(), ..self },
            KeyCode::Down => AppView { actions: self.actions.moved_down(), ..self },
            KeyCode::Enter => self.select_menu(),
            KeyCode::Esc => AppView {
                mode: AppMode::Files,
                actions: self.actions.with_highlight(None),
                ..self
            },
            KeyCode::Char(c) => if c == 'k' {
                AppView { actions: self.actions.moved_up(), ..self }
            } else if c == 'j' {
                AppView { actions: self.actions.moved_down(), ..self }
            } else {
                self
            },
            _ => self,
        }
    }

    /// Confirming a new name for the highlighted file: the rename is asked
    /// for, from the file's path to the path of the typed name. Without a
    /// highlighted file nothing happens; if a path cannot be written out,
    /// that is the error and nothing is asked.
    pub open spec fn rename_file(self) -> Turn {
        match self.files.chosen() {
            Some(name) => match (self.dir.resolve(name), self.dir.resolve(self.input.value)) {
                (Some(from), Some(to)) => Turn {
                    state: self,
                    request: RequestView::Rename { from, to },
                },
                _ => self.with_error(path_error()).idle(),
            },
            None => self.idle(),
        }
    }

    /// Confirming a deletion: the highlighted file is looked up first, so
    /// that it can be removed as what it is. Without a highlighted file
    /// nothing happens; if its path cannot be written out, that is the error
    /// and nothing is asked.
    pub open spec fn delete_file(self) -> Turn {
        match self.files.chosen() {
            Some(name) => match self.dir.resolve(name) {
                Some(path) => Turn { state: self, request: RequestView::Inspect { name, path } },
                None => self.with_error(path_error()).idle(),
            },
            None => self.idle(),
        }
    }

    /// Answering the prompt for a deletion: only the answer `y` confirms it.
    pub open spec fn answer_delete(self) -> Turn {
        if self.input.value == yes() {
            self.delete_file()
        } else {
            self.idle()
        }
    }

    /// Confirming the name of a new file: the file is asked for at the path
    /// of the typed name. If that path cannot be written out, that is the
    /// error and nothing is asked.
    pub open spec fn create_file(self) -> Turn {
        match self.dir.resolve(self.input.value) {
            Some(path) => Turn { state: self, request: RequestView::Create { path } },
            None => self.with_error(path_error()).idle(),
        }
    }

    /// What a key does in a prompt, where `confirmed` is what Enter comes
    /// to: after it the files are browsed again, whatever it came to.
    pub open spec fn prompt_key(self, key: KeyCode, confirmed: Turn) -> Turn {
        match key {
            KeyCode::Enter => Turn {
                state: confirmed.state.in_mode(AppMode::Files),
                request: confirmed.request,
            },
            KeyCode::Char(c) => (AppView { input: self.input.typed(c), ..self }).idle(),
            KeyCode::Backspace => (AppView { input: self.input.erased(), ..self }).idle(),
            KeyCode::Esc => self.in_mode(AppMode::Select).idle(),
            _ => self.idle(),
        }
    }

    /// What a key does while the help is shown.
    pub open spec fn help_key(self, key: KeyCode) -> AppView {
        match key {
            KeyCode::Esc => self.in_mode(AppMode::Files),
            _ => self,
        }
    }

    /// What a key does. Once the browser has been left, nothing; before
    /// that `q` leaves and `?` shows the help, whatever the mode, and every
    /// other key goes to the mode.
    pub open spec fn on_key(self, key: KeyCode) -> Turn {
        if self.mode == AppMode::Exit {
            self.idle()
        } else if key == KeyCode::Char('q') {
            self.in_mode(AppMode::Exit).idle()
        } else if key == KeyCode::Char('?') {
            self.in_mode(AppMode::Help).idle()
        } else {
            match self.mode {
                AppMode::Files => self.files_key(key),
                AppMode::Select => self.select_key(key).idle(),
                AppMode::Rename => self.prompt_key(key, self.rename_file()),
                AppMode::Delete => self.prompt_key(key, self.answer_delete()),
                AppMode::Create => self.prompt_key(key, self.create_file()),
                AppMode::Help => self.help_key(key).idle(),
                AppMode::Exit => self.idle(),
            }
        }
    }

    /// What an event of the terminal does: the press of a key is taken as
    /// that key, and nothing else is taken at all.
    pub open spec fn on_event(self, event: Event) -> Turn {
        match event.pressed() {
            Some(code) => self.on_key(code),
            None => self.idle(),
        }
    }

    /// The same state with the error text left by an operation.
    pub open spec fn with_error(self, error: Seq<char>) -> AppView {
        AppView { error, ..self }
    }

    /// What an answer of the filesystem does. The outcome of an operation
    /// replaces the error text. A file that was looked up for deletion is
    /// removed as what it was found to be; one that was not found is left.
    pub open spec fn on_reply(self, reply: ReplyView) -> Turn {
        match reply {
            ReplyView::Renamed(outcome) => self.with_error(
                error_after(outcome, |cause: Seq<char>| rename_failure(cause)),
            ).idle(),
            ReplyView::Created(outcome) => self.with_error(
                error_after(outcome, |cause: Seq<char>| create_failure(cause)),
            ).idle(),
            ReplyView::Removed(outcome) => self.with_error(
                error_after(outcome, |cause: Seq<char>| delete_failure(cause)),
            ).idle(),
            ReplyView::Inspected { name, path, stat } => match stat {
                Some(seen) => Turn {
                    state: self,
                    request: if kind_of(seen) == FileTypeEnum::Directory {
                        RequestView::RemoveTree { path }
                    } else {
                        RequestView::RemoveFile { path }
                    },
                },
                None => self.idle(),
            },
        }
    }

    /// What a fresh listing of the current directory does: the files shown
    /// are replaced, and the highlight is kept in range. Once the browser
    /// has been left, nothing.
    pub open spec fn on_listing(self, read: Option<Seq<Option<Seq<char>>>>) -> AppView {
        if self.mode == AppMode::Exit {
            self
        } else {
            AppView { files: self.files.relisted(shown(read)), ..self }
        }
    }
}

} // verus!
