use vstd::prelude::*;
use vstd::string::*;

use crate::directory::{
    lemma_names_in_not_empty, lemma_resolve, FileManager, FileStat, FileTypeEnum,
};
use crate::events::{Event, KeyCode, KeyEvent, KeyEventKind};
use crate::my_errors::{error_prefix, MyError};
use crate::ui::action::FileAction;
pub use crate::ui::model::AppMode;
use crate::ui::model::{shown, unlisted, yes, AppView, BookmarkView, ReplyView, RequestView};
use crate::ui::select_list::SelectList;
use crate::ui::user_input::UserInput;

verus! {

/// What the browser asks of the filesystem. Whoever drives the browser does
/// it and hands the matching `Reply` back.
#[derive(Debug, PartialEq, Eq)]
pub enum Request {
    /// Nothing is asked.
    Nothing,
    /// Rename the entry at `from` to `to`.
    Rename { from: String, to: String },
    /// Create an empty file at `path`.
    Create { path: String },
    /// Look up the entry called `name`, which is at `path`.
    Inspect { name: String, path: String },
    /// Remove the single file at `path`.
    RemoveFile { path: String },
    /// Remove the directory at `path` and all that is in it.
    RemoveTree { path: String },
}

/// What the filesystem answered to a `Request`. A failed operation carries
/// the system's reason as text.
#[derive(Debug, PartialEq, Eq)]
pub enum Reply {
    Renamed(Result<(), String>),
    Created(Result<(), String>),
    Removed(Result<(), String>),
    /// The answer to `Inspect`: the name and path asked about, and what was
    /// found there, if anything.
    Inspected { name: String, path: String, stat: Option<FileStat> },
}

/// An outcome as mathematics.
pub open spec fn told(outcome: Result<(), String>) -> Result<(), Seq<char>> {
    match outcome {
        Ok(_) => Ok(()),
        Err(cause) => Err(cause@),
    }
}

impl View for Request {
    type V = RequestView;

    open spec fn view(&self) -> RequestView {
        match self {
            Request::Nothing => RequestView::Nothing,
            Request::Rename { from, to } => RequestView::Rename { from: from@, to: to@ },
            Request::Create { path } => RequestView::Create { path: path@ },
            Request::Inspect { name, path } => RequestView::Inspect { name: name@, path: path@ },
            Request::RemoveFile { path } => RequestView::RemoveFile { path: path@ },
            Request::RemoveTree { path } => RequestView::RemoveTree { path: path@ },
        }
    }
}

impl View for Reply {
    type V = ReplyView;

    open spec fn view(&self) -> ReplyView {
        match self {
            Reply::Renamed(outcome) => ReplyView::Renamed(told(*outcome)),
            Reply::Created(outcome) => ReplyView::Created(told(*outcome)),
            Reply::Removed(outcome) => ReplyView::Removed(told(*outcome)),
            Reply::Inspected { name, path, stat } => ReplyView::Inspected {
                name: name@,
                path: path@,
                stat: *stat,
            },
        }
    }
}

impl AppMode {
    /// Whether the browser has been left.
    pub fn is_terminal(&self) -> (left: bool)
        ensures
            left == (*self == AppMode::Exit),
    {
        match self {
            AppMode::Exit => true,
            _ => false,
        }
    }
}

/// The file remembered for a later move, if any.
#[derive(Debug)]
pub struct Bookmarked {
    full_path: String,
    file_name: String,
}

impl View for Bookmarked {
    type V = BookmarkView;

    closed spec fn view(&self) -> BookmarkView {
        BookmarkView { full_path: self.full_path@, file_name: self.file_name@ }
    }
}

impl Default for Bookmarked {
    /// No file remembered.
    fn default() -> (bookmark: Self)
        ensures
            bookmark@ == BookmarkView::unset(),
    {
        Self { full_path: String::new(), file_name: String::new() }
    }
}

impl Bookmarked {
    /// The remembered file's full path; empty if none is remembered.
    pub fn full_path(&self) -> (path: &String)
        ensures
            path@ == self@.full_path,
    {
        &self.full_path
    }

    /// The remembered file's name; empty if none is remembered.
    pub fn file_name(&self) -> (name: &String)
        ensures
            name@ == self@.file_name,
    {
        &self.file_name
    }

    /// Whether a file is remembered.
    pub fn is_set(&self) -> (set: bool)
        ensures
            set == self@.is_set(),
    {
        !self.full_path.as_str().is_empty()
    }
}

/// The browser: where it is, what it shows, and what it is doing.
#[derive(Debug)]
pub struct App {
    dir: FileManager,
    file_list: SelectList,
    select_list: SelectList,
    user_input: UserInput,
    bookmarked: Bookmarked,
    app_mode: AppMode,
    error_msg: String,
}

impl View for App {
    type V = AppView;

    closed spec fn view(&self) -> AppView {
        AppView {
            dir: self.dir@,
            files: self.file_list@,
            actions: self.select_list@,
            input: self.user_input@,
            bookmark: self.bookmarked@,
            mode: self.app_mode,
            error: self.error_msg@,
        }
    }
}

/// The names to show for what reading the directory gave.
fn listing(dir: &FileManager, read: Option<Vec<Option<String>>>) -> (names: Vec<String>)
    ensures
        names.deep_view() == shown(read.deep_view()),
        forall|i: int| 0 <= i < names.deep_view().len() ==> #[trigger] names.deep_view()[i].len() > 0,
{
    proof {
        reveal_strlit("No such directory");
        if read.deep_view().is_some() {
            lemma_names_in_not_empty(read.deep_view().unwrap());
        }
    }
    match dir.dir_contents(read) {
        Ok(contents) => contents,
        Err(_) => {
            let mut names: Vec<String> = Vec::new();
            names.push(String::from_str("No such directory"));
            names
        },
    }
}

impl App {
    /// Whether the state is one the browser can be in.
    pub open spec fn wf(&self) -> bool {
        self@.wf()
    }

    /// The browser as it starts in `dir`, given what reading that directory
    /// gave.
    pub fn new(dir: FileManager, read: Option<Vec<Option<String>>>) -> (app: Self)
        requires
            dir.wf(),
        ensures
            app@ == AppView::start(dir@, read.deep_view()),
            app.wf(),
    {
        let mut file_list = SelectList::new(listing(&dir, read));
        file_list.select(Some(0));
        let select_list = SelectList::new(FileAction::labels());
        Self {
            dir,
            file_list,
            select_list,
            user_input: UserInput::default(),
            bookmarked: Bookmarked::default(),
            app_mode: AppMode::Files,
            error_msg: String::new(),
        }
    }

    /// The mode the browser is in.
    pub fn mode(&self) -> (mode: AppMode)
        ensures
            mode == self@.mode,
    {
        self.app_mode
    }

    /// What went wrong last; empty if nothing did.
    pub fn error_msg(&self) -> (text: &String)
        ensures
            text@ == self@.error,
    {
        &self.error_msg
    }

    /// Where the browser is.
    pub fn dir(&self) -> (dir: &FileManager)
        ensures
            dir@ == self@.dir,
    {
        &self.dir
    }

    /// The files of the current directory.
    pub fn file_list(&self) -> (list: &SelectList)
        ensures
            list@ == self@.files,
    {
        &self.file_list
    }

    /// The menu of actions.
    pub fn select_list(&self) -> (list: &SelectList)
        ensures
            list@ == self@.actions,
    {
        &self.select_list
    }

    /// The prompt.
    pub fn user_input(&self) -> (input: &UserInput)
        ensures
            input@ == self@.input,
    {
        &self.user_input
    }

    /// The remembered file.
    pub fn bookmarked(&self) -> (bookmark: &Bookmarked)
        ensures
            bookmark@ == self@.bookmark,
    {
        &self.bookmarked
    }

    /// Takes one event of the terminal. Only the press of a key does
    /// anything: the new state and what is asked of the filesystem are those
    /// the model gives for this state and event.
    pub fn handle_events(&mut self, event: Event) -> (request: Request)
        requires
            old(self).wf(),
        ensures
            final(self)@ == old(self)@.on_event(event).state,
            request@ == old(self)@.on_event(event).request,
            final(self)@.mode == AppMode::Exit <==> old(self)@.mode == AppMode::Exit
                || event.pressed() == Some(KeyCode::Char('q')),
            final(self).wf(),
    {
        match event {
            Event::Key(key_event) => match key_event.kind {
                KeyEventKind::Press => self.handle_key_event(key_event),
                _ => Request::Nothing,
            },
            _ => Request::Nothing,
        }
    }

    /// Takes one key press. The new state and what is asked of the
    /// filesystem are those the model gives for this state and key. The
    /// browser is left by `q` and by nothing else, and once left it stays so.
    pub fn handle_key_event(&mut self, key_event: KeyEvent) -> (request: Request)
        requires
            old(self).wf(),
        ensures
            final(self)@ == old(self)@.on_key(key_event.code).state,
            request@ == old(self)@.on_key(key_event.code).request,
            final(self)@.mode == AppMode::Exit <==> old(self)@.mode == AppMode::Exit
                || key_event.code == KeyCode::Char('q'),
            final(self).wf(),
    {
        if self.app_mode.is_terminal() {
            return Request::Nothing;
        }
        match key_event.code {
            KeyCode::Char('q') => {
                self.app_mode = AppMode::Exit;
                Request::Nothing
            },
            KeyCode::Char('?') => {
                self.app_mode = AppMode::Help;
                Request::Nothing
            },
            code => {
                match self.app_mode {
                    AppMode::Files => {
                        match code {
                            KeyCode::Up | KeyCode::Char('k') => self.select_previous_file(),
                            KeyCode::Down | KeyCode::Char('j') => self.select_next_file(),
                            KeyCode::Char('a') => {
                                self.user_input = UserInput::default();
                                self.app_mode = AppMode::Create;
                            },
                            KeyCode::Char('m') => self.move_into(),
                            KeyCode::Char('-') => self.move_out(),
                            KeyCode::Char('b') => {
                                return self.move_bookmarked();
                            },
                            KeyCode::Enter => self.enter_select_menu(),
                            _ => {},
                        }
                        Request::Nothing
                    },
                    AppMode::Select => {
                        match code {
                            KeyCode::Up | KeyCode::Char('k') => self.select_previous_action(),
                            KeyCode::Down | KeyCode::Char('j') => self.select_next_action(),
                            KeyCode::Enter => self.select_menu(),
                            KeyCode::Esc => self.exit_select_menu(),
                            _ => {},
                        }
                        Request::Nothing
                    },
                    AppMode::Rename => {
                        match code {
                            KeyCode::Enter => {
                                let request = self.rename_file();
                                self.app_mode = AppMode::Files;
                                request
                            },
                            other => {
                                self.edit_prompt(other);
                                Request::Nothing
                            },
                        }
                    },
                    AppMode::Delete => {
                        match code {
                            KeyCode::Enter => {
                                let request = if self.delete_confirmed() {
                                    self.delete_file()
                                } else {
                                    Request::Nothing
                                };
                                self.app_mode = AppMode::Files;
                                request
                            },
                            other => {
                                self.edit_prompt(other);
                                Request::Nothing
                            },
                        }
                    },
                    AppMode::Help => {
                        match code {
                            KeyCode::Esc => self.app_mode = AppMode::Files,
                            _ => {},
                        }
                        Request::Nothing
                    },
                    AppMode::Create => {
                        match code {
                            KeyCode::Enter => {
                                let request = self.create_file();
                                self.app_mode = AppMode::Files;
                                request
                            },
                            other => {
                                self.edit_prompt(other);
                                Request::Nothing
                            },
                        }
                    },
                    AppMode::Exit => Request::Nothing,
                }
            },
        }
    }

    /// Takes a key that is not Enter in a prompt: typing, deleting, or
    /// giving the prompt up for the menu.
    fn edit_prompt(&mut self, key: KeyCode)
        requires
            old(self).wf(),
            key != KeyCode::Enter,
        ensures
            final(self)@ == old(self)@.prompt_key(key, old(self)@.idle()).state,
            final(self).wf(),
    {
        match key {
            KeyCode::Char(to_insert) => self.user_input.enter_char(to_insert),
            KeyCode::Backspace => self.user_input.delete_char(),
            KeyCode::Esc => self.app_mode = AppMode::Select,
            _ => {},
        }
    }

    /// Whether the prompt holds the answer that confirms a deletion.
    fn delete_confirmed(&self) -> (confirmed: bool)
        ensures
            confirmed == (self@.input.value == yes()),
    {
        proof {
            reveal_strlit("y");
        }
        let answer = self.user_input.get_input_value();
        let confirmed = answer == String::from_str("y");
        assert("y"@ =~= yes());
        confirmed
    }

    /// Moves the highlight of the files one up.
    fn select_previous_file(&mut self)
        requires
            old(self).wf(),
        ensures
            final(self)@ == (AppView { files: old(self)@.files.moved_up(), ..old(self)@ }),
            final(self).wf(),
    {
        self.file_list.select_previous();
    }

    /// Moves the highlight of the files one down.
    fn select_next_file(&mut self)
        requires
            old(self).wf(),
        ensures
            final(self)@ == (AppView { files: old(self)@.files.moved_down(), ..old(self)@ }),
            final(self).wf(),
    {
        self.file_list.select_next();
    }

    /// Moves the highlight of the menu one up.
    fn select_previous_action(&mut self)
        requires
            old(self).wf(),
        ensures
            final(self)@ == (AppView { actions: old(self)@.actions.moved_up(), ..old(self)@ }),
            final(self).wf(),
    {
        self.select_list.select_previous();
    }

    /// Moves the highlight of the menu one down.
    fn select_next_action(&mut self)
        requires
            old(self).wf(),
        ensures
            final(self)@ == (AppView { actions: old(self)@.actions.moved_down(), ..old(self)@ }),
            final(self).wf(),
    {
        self.select_list.select_next();
    }

    /// Descends into the highlighted entry, if there is one.
    fn move_into(&mut self)
        requires
            old(self).wf(),
        ensures
            final(self)@ == old(self)@.move_into(),
            final(self).wf(),
    {
        match self.file_list.selected_item() {
            Some(name) => {
                let folder = name.clone();
                self.dir.next_path(folder);
            },
            None => {},
        };
    }

    /// Ascends to the parent directory.
    fn move_out(&mut self)
        requires
            old(self).wf(),
        ensures
            final(self)@ == (AppView { dir: old(self)@.dir.ascend(), ..old(self)@ }),
            final(self).wf(),
    {
        self.dir.previous_path();
    }

    /// Opens the menu with its first action highlighted.
    fn enter_select_menu(&mut self)
        requires
            old(self).wf(),
        ensures
            final(self)@ == (AppView {
                mode: AppMode::Select,
                actions: old(self)@.actions.with_highlight(Some(0)),
                ..old(self)@
            }),
            final(self).wf(),
    {
        self.app_mode = AppMode::Select;
        self.select_list.select(Some(0));
    }

    /// Closes the menu and takes its highlight away.
    fn exit_select_menu(&mut self)
        requires
            old(self).wf(),
        ensures
            final(self)@ == (AppView {
                mode: AppMode::Files,
                actions: old(self)@.actions.with_highlight(None),
                ..old(self)@
            }),
            final(self).wf(),
    {
        self.app_mode = AppMode::Files;
        self.select_list.select(None);
    }

    /// Carries out the highlighted action on the highlighted file.
    fn select_menu(&mut self)
        requires
            old(self).wf(),
        ensures
            final(self)@ == old(self)@.select_menu(),
            final(self).wf(),
    {
        let file_name = match self.file_list.selected_item() {
            Some(name) => name.clone(),
            None => {
                return ;
            },
        };
        let index = match self.select_list.selected() {
            Some(index) => index,
            None => {
                return ;
            },
        };
        let action = match FileAction::from_index(index) {
            Some(action) => action,
            None => {
                return ;
            },
        };
        match action {
            FileAction::Delete => {
                self.user_input = UserInput::default();
                self.app_mode = AppMode::Delete;
            },
            FileAction::Rename => {
                self.user_input = UserInput::new(file_name);
                self.app_mode = AppMode::Rename;
            },
            FileAction::Bookmark => {
                let file_path = match self.dir.get_file_path(file_name.clone()) {
                    Ok(path) => path,
                    Err(e) => {
                        self.error_msg = e.to_string();
                        return ;
                    },
                };
                proof {
                    lemma_resolve(self@.dir, file_name@);
                }
                self.bookmarked = Bookmarked { full_path: file_path, file_name };
                self.error_msg = String::new();
                self.app_mode = AppMode::Files;
            },
        }
    }

    /// Asks for the highlighted file to be looked up, so that it can be
    /// deleted as what it is.
    fn delete_file(&mut self) -> (request: Request)
        requires
            old(self).wf(),
        ensures
            final(self)@ == old(self)@.delete_file().state,
            request@ == old(self)@.delete_file().request,
            final(self).wf(),
    {
        let file_name = match self.file_list.selected_item() {
            Some(name) => name.clone(),
            None => {
                return Request::Nothing;
            },
        };
        let file_path = match self.dir.get_file_path(file_name.clone()) {
            Ok(path) => path,
            Err(e) => {
                self.error_msg = e.to_string();
                return Request::Nothing;
            },
        };
        Request::Inspect { name: file_name, path: file_path }
    }

    /// Asks for the highlighted file to get the name in the prompt.
    fn rename_file(&mut self) -> (request: Request)
        requires
            old(self).wf(),
        ensures
            final(self)@ == old(self)@.rename_file().state,
            request@ == old(self)@.rename_file().request,
            final(self).wf(),
    {
        let file_name = match self.file_list.selected_item() {
            Some(name) => name.clone(),
            None => {
                return Request::Nothing;
            },
        };
        proof {
            lemma_resolve(self@.dir, file_name@);
            lemma_resolve(self@.dir, self@.input.value);
        }
        let file_path = match self.dir.get_file_path(file_name) {
            Ok(path) => path,
            Err(e) => {
                self.error_msg = e.to_string();
                return Request::Nothing;
            },
        };
        let new_file_path = match self.dir.get_file_path(self.user_input.get_input_value()) {
            Ok(path) => path,
            Err(e) => {
                self.error_msg = e.to_string();
                return Request::Nothing;
            },
        };
        Request::Rename { from: file_path, to: new_file_path }
    }

    /// Asks for the remembered file to be moved into the current directory,
    /// and spends the bookmark on it.
    fn move_bookmarked(&mut self) -> (request: Request)
        requires
            old(self).wf(),
        ensures
            final(self)@ == old(self)@.move_bookmarked().state,
            request@ == old(self)@.move_bookmarked().request,
            final(self).wf(),
    {
        if !self.bookmarked.is_set() {
            return Request::Nothing;
        }
        let new_path = match self.dir.get_file_path(self.bookmarked.file_name.clone()) {
            Ok(path) => path,
            Err(e) => {
                self.error_msg = e.to_string();
                return Request::Nothing;
            },
        };
        let request = Request::Rename { from: self.bookmarked.full_path.clone(), to: new_path };
        self.bookmarked = Bookmarked::default();
        request
    }

    /// Asks for a file with the name in the prompt to be created.
    fn create_file(&mut self) -> (request: Request)
        requires
            old(self).wf(),
        ensures
            final(self)@ == old(self)@.create_file().state,
            request@ == old(self)@.create_file().request,
            final(self).wf(),
    {
        let file_path = match self.dir.get_file_path(self.user_input.get_input_value()) {
            Ok(path) => path,
            Err(e) => {
                self.error_msg = e.to_string();
                return Request::Nothing;
            },
        };
        Request::Create { path: file_path }
    }

    /// Keeps what an operation came to: no error text after a success, the
    /// error's text after a failure.
    fn settle(&mut self, done: Result<(), MyError>)
        requires
            old(self).wf(),
        ensures
            final(self)@ == old(self)@.with_error(
                match done {
                    Ok(_) => Seq::empty(),
                    Err(e) => error_prefix() + e@,
                },
            ),
            final(self).wf(),
    {
        match done {
            Ok(_) => self.error_msg = String::new(),
            Err(e) => self.error_msg = e.to_string(),
        }
    }

    /// Takes the filesystem's answer to the last request. The new state and
    /// what is asked next are those the model gives for this state and answer.
    pub fn handle_reply(&mut self, reply: Reply) -> (request: Request)
        requires
            old(self).wf(),
        ensures
            final(self)@ == old(self)@.on_reply(reply@).state,
            request@ == old(self)@.on_reply(reply@).request,
            final(self)@.mode == old(self)@.mode,
            final(self).wf(),
    {
        match reply {
            Reply::Renamed(outcome) => {
                let done = self.dir.rename(outcome);
                self.settle(done);
                Request::Nothing
            },
            Reply::Created(outcome) => {
                let done = self.dir.create(outcome);
                self.settle(done);
                Request::Nothing
            },
            Reply::Removed(outcome) => {
                let done = self.dir.delete(outcome);
                self.settle(done);
                Request::Nothing
            },
            Reply::Inspected { name, path, stat } => {
                match self.dir.get_metadata(name, stat) {
                    Some(metadata) => match metadata.filetype {
                        FileTypeEnum::Directory => Request::RemoveTree { path },
                        _ => Request::RemoveFile { path },
                    },
                    None => Request::Nothing,
                }
            },
        }
    }

    /// Takes a fresh listing of the current directory, given what reading it
    /// gave. Does nothing once the browser has been left.
    pub fn refresh(&mut self, read: Option<Vec<Option<String>>>)
        requires
            old(self).wf(),
        ensures
            final(self)@ == old(self)@.on_listing(read.deep_view()),
            final(self)@.mode == old(self)@.mode,
            final(self).wf(),
    {
        if self.app_mode.is_terminal() {
            return ;
        }
        let names = listing(&self.dir, read);
        self.file_list.replace_items(names);
    }
}

} // verus!
