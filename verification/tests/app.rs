use directory_manager::directory::{FileManager, FileStat, Segment};
use directory_manager::events::{Event, KeyCode, KeyEvent, KeyEventKind};
use directory_manager::ui::app::{App, AppMode, Reply, Request};

fn below_root(segments: Vec<Segment>) -> FileManager {
    match FileManager::new(Segment::Text("/".to_string()), segments) {
        Some(dir) => dir,
        None => panic!("a location needs a root"),
    }
}

fn home() -> FileManager {
    below_root(vec![Segment::Text("home".to_string()), Segment::Text("u".to_string())])
}

/// A browser in a directory whose name is not text, below `/srv`.
fn lost(names: &[&str]) -> App {
    let dir = below_root(vec![Segment::Text("srv".to_string()), Segment::Raw(vec![0x66, 0xff])]);
    App::new(dir, read(names))
}

fn read(names: &[&str]) -> Option<Vec<Option<String>>> {
    Some(names.iter().map(|s| Some(s.to_string())).collect())
}

fn browser(names: &[&str]) -> App {
    App::new(home(), read(names))
}

fn press(app: &mut App, code: KeyCode) -> Request {
    app.handle_key_event(KeyEvent { code, kind: KeyEventKind::Press })
}

fn type_text(app: &mut App, text: &str) {
    for c in text.chars() {
        assert_eq!(press(app, KeyCode::Char(c)), Request::Nothing);
    }
}

fn files(app: &App) -> Vec<String> {
    app.file_list().items().clone()
}

fn a_file() -> Option<FileStat> {
    Some(FileStat { is_file: true, is_dir: false, size: 3 })
}

fn a_directory() -> Option<FileStat> {
    Some(FileStat { is_file: false, is_dir: true, size: 4096 })
}

/// Opens the menu on the highlighted file and carries out the action at `position`.
fn pick_action(app: &mut App, position: usize) -> Request {
    assert_eq!(press(app, KeyCode::Enter), Request::Nothing);
    for _ in 0..position {
        assert_eq!(press(app, KeyCode::Down), Request::Nothing);
    }
    press(app, KeyCode::Enter)
}

#[test]
fn the_browser_starts_on_the_first_file() {
    let app = browser(&["a.txt", "b"]);
    assert_eq!(app.mode(), AppMode::Files);
    assert_eq!(files(&app), vec!["a.txt".to_string(), "b".to_string()]);
    assert_eq!(app.file_list().selected(), Some(0));
    assert_eq!(app.select_list().selected(), None);
    assert_eq!(
        app.select_list().items(),
        &vec!["Delete".to_string(), "Rename".to_string(), "Bookmark".to_string()]
    );
    assert_eq!(app.user_input().get_input_value(), "");
    assert!(!app.bookmarked().is_set());
    assert_eq!(app.bookmarked().full_path(), "");
    assert_eq!(app.bookmarked().file_name(), "");
    assert_eq!(app.error_msg(), "");
    assert_eq!(app.dir().get_current_path(), "/home/u");
}

#[test]
fn an_empty_directory_has_no_highlight() {
    let app = browser(&[]);
    assert_eq!(files(&app), Vec::<String>::new());
    assert_eq!(app.file_list().selected(), None);
}

#[test]
fn a_directory_that_cannot_be_listed_shows_a_placeholder() {
    let app = App::new(home(), None);
    assert_eq!(files(&app), vec!["No such directory".to_string()]);
    assert_eq!(app.file_list().selected(), Some(0));
    assert_eq!(app.error_msg(), "");
}

#[test]
fn browsing_leads_to_the_rename_prompt() {
    let mut app = browser(&["a.txt", "b"]);
    assert_eq!(press(&mut app, KeyCode::Down), Request::Nothing);
    assert_eq!(app.file_list().selected(), Some(1));
    assert_eq!(app.file_list().selected_item(), Some(&"b".to_string()));

    assert_eq!(press(&mut app, KeyCode::Enter), Request::Nothing);
    assert_eq!(app.mode(), AppMode::Select);
    assert_eq!(app.select_list().selected(), Some(0));
    assert_eq!(app.select_list().selected_item(), Some(&"Delete".to_string()));

    assert_eq!(press(&mut app, KeyCode::Down), Request::Nothing);
    assert_eq!(app.select_list().selected(), Some(1));
    assert_eq!(app.select_list().selected_item(), Some(&"Rename".to_string()));

    assert_eq!(press(&mut app, KeyCode::Enter), Request::Nothing);
    assert_eq!(app.mode(), AppMode::Rename);
    assert_eq!(app.user_input().get_input_value(), "b");
}

#[test]
fn renaming_b_to_c_txt() {
    let mut app = browser(&["a.txt", "b"]);
    press(&mut app, KeyCode::Down);
    assert_eq!(pick_action(&mut app, 1), Request::Nothing);
    assert_eq!(app.mode(), AppMode::Rename);
    assert_eq!(app.user_input().get_input_value(), "b");

    assert_eq!(press(&mut app, KeyCode::Backspace), Request::Nothing);
    assert_eq!(app.user_input().get_input_value(), "");
    type_text(&mut app, "c");
    type_text(&mut app, ".txt");
    assert_eq!(app.user_input().get_input_value(), "c.txt");

    let request = press(&mut app, KeyCode::Enter);
    assert_eq!(
        request,
        Request::Rename { from: "/home/u/b".to_string(), to: "/home/u/c.txt".to_string() }
    );
    assert_eq!(app.mode(), AppMode::Files);

    assert_eq!(app.handle_reply(Reply::Renamed(Ok(()))), Request::Nothing);
    app.refresh(read(&["a.txt", "c.txt"]));
    assert_eq!(files(&app), vec!["a.txt".to_string(), "c.txt".to_string()]);
    assert_eq!(app.file_list().selected(), Some(1));
    assert_eq!(app.error_msg(), "");
    assert_eq!(app.mode(), AppMode::Files);
}

#[test]
fn moving_into_nothing_changes_nothing() {
    let mut app = browser(&[]);
    assert_eq!(press(&mut app, KeyCode::Char('m')), Request::Nothing);
    assert_eq!(app.mode(), AppMode::Files);
    assert_eq!(app.dir().get_current_path(), "/home/u");
    assert_eq!(app.file_list().selected(), None);
    assert_eq!(files(&app), Vec::<String>::new());
    assert_eq!(app.error_msg(), "");
}

#[test]
fn deleting_needs_a_yes() {
    let mut app = browser(&["a.txt", "b"]);
    assert_eq!(pick_action(&mut app, 0), Request::Nothing);
    assert_eq!(app.mode(), AppMode::Delete);
    assert_eq!(app.user_input().get_input_value(), "");
    type_text(&mut app, "n");
    assert_eq!(press(&mut app, KeyCode::Enter), Request::Nothing);
    assert_eq!(app.mode(), AppMode::Files);
    app.refresh(read(&["a.txt", "b"]));
    assert_eq!(files(&app), vec!["a.txt".to_string(), "b".to_string()]);

    assert_eq!(pick_action(&mut app, 0), Request::Nothing);
    assert_eq!(app.mode(), AppMode::Delete);
    assert_eq!(app.user_input().get_input_value(), "");
    type_text(&mut app, "y");
    let request = press(&mut app, KeyCode::Enter);
    assert_eq!(
        request,
        Request::Inspect { name: "a.txt".to_string(), path: "/home/u/a.txt".to_string() }
    );
    assert_eq!(app.mode(), AppMode::Files);
    let request = app.handle_reply(Reply::Inspected {
        name: "a.txt".to_string(),
        path: "/home/u/a.txt".to_string(),
        stat: a_file(),
    });
    assert_eq!(request, Request::RemoveFile { path: "/home/u/a.txt".to_string() });
    assert_eq!(app.handle_reply(Reply::Removed(Ok(()))), Request::Nothing);
    app.refresh(read(&["b"]));
    assert_eq!(files(&app), vec!["b".to_string()]);
    assert_eq!(app.mode(), AppMode::Files);
    assert_eq!(app.error_msg(), "");
}

#[test]
fn a_failed_rename_is_reported() {
    let mut app = browser(&["a.txt", "b"]);
    assert_eq!(pick_action(&mut app, 1), Request::Nothing);
    type_text(&mut app, "2");
    let request = press(&mut app, KeyCode::Enter);
    assert_eq!(
        request,
        Request::Rename { from: "/home/u/a.txt".to_string(), to: "/home/u/a.txt2".to_string() }
    );
    assert_eq!(app.mode(), AppMode::Files);
    let cause = "Permission denied (os error 13)";
    assert_eq!(app.handle_reply(Reply::Renamed(Err(cause.to_string()))), Request::Nothing);
    assert!(!app.error_msg().is_empty());
    assert!(app.error_msg().contains(cause));
    assert_eq!(
        app.error_msg(),
        "File Error: Insufficient privilages: Permission denied (os error 13)"
    );
    assert_eq!(app.mode(), AppMode::Files);
    app.refresh(read(&["a.txt", "b"]));
    assert_eq!(files(&app), vec!["a.txt".to_string(), "b".to_string()]);
    assert_eq!(app.file_list().selected(), Some(0));
    assert_eq!(app.dir().get_current_path(), "/home/u");
}

#[test]
fn only_a_lone_y_confirms_a_deletion() {
    for answer in ["", "Y", "yy", "ye", " y", "n"] {
        let mut app = browser(&["a.txt"]);
        pick_action(&mut app, 0);
        type_text(&mut app, answer);
        assert_eq!(press(&mut app, KeyCode::Enter), Request::Nothing);
        assert_eq!(app.mode(), AppMode::Files);
    }
}

#[test]
fn a_directory_is_removed_with_all_that_is_in_it() {
    let mut app = browser(&["docs"]);
    let request = app.handle_reply(Reply::Inspected {
        name: "docs".to_string(),
        path: "/home/u/docs".to_string(),
        stat: a_directory(),
    });
    assert_eq!(request, Request::RemoveTree { path: "/home/u/docs".to_string() });
}

#[test]
fn what_is_neither_file_nor_directory_is_removed_as_a_file() {
    let mut app = browser(&["link"]);
    let request = app.handle_reply(Reply::Inspected {
        name: "link".to_string(),
        path: "/home/u/link".to_string(),
        stat: Some(FileStat { is_file: false, is_dir: false, size: 0 }),
    });
    assert_eq!(request, Request::RemoveFile { path: "/home/u/link".to_string() });
}

#[test]
fn a_file_that_is_gone_is_not_deleted_and_is_no_error() {
    let mut app = browser(&["a.txt"]);
    let request = app.handle_reply(Reply::Inspected {
        name: "a.txt".to_string(),
        path: "/home/u/a.txt".to_string(),
        stat: None,
    });
    assert_eq!(request, Request::Nothing);
    assert_eq!(app.error_msg(), "");
}

#[test]
fn a_failed_removal_is_reported() {
    let mut app = browser(&["a.txt"]);
    assert_eq!(app.handle_reply(Reply::Removed(Err("busy".to_string()))), Request::Nothing);
    assert_eq!(app.error_msg(), "File Error: Couldn't delete: busy");
}

#[test]
fn a_failed_creation_is_reported() {
    let mut app = browser(&["a.txt"]);
    assert_eq!(app.handle_reply(Reply::Created(Err("exists".to_string()))), Request::Nothing);
    assert_eq!(app.error_msg(), "File Error: Couldn't create: exists");
}

#[test]
fn a_success_clears_the_error() {
    let mut app = browser(&["a.txt"]);
    app.handle_reply(Reply::Renamed(Err("denied".to_string())));
    assert_eq!(app.error_msg(), "File Error: Insufficient privilages: denied");
    press(&mut app, KeyCode::Down);
    app.refresh(read(&["a.txt"]));
    assert_eq!(app.error_msg(), "File Error: Insufficient privilages: denied");
    app.handle_reply(Reply::Created(Ok(())));
    assert_eq!(app.error_msg(), "");
}

#[test]
fn a_later_failure_replaces_the_error() {
    let mut app = browser(&["a.txt"]);
    app.handle_reply(Reply::Renamed(Err("denied".to_string())));
    app.handle_reply(Reply::Removed(Err("busy".to_string())));
    assert_eq!(app.error_msg(), "File Error: Couldn't delete: busy");
}

#[test]
fn q_leaves_from_every_mode() {
    let ways: [&[KeyCode]; 6] = [
        &[],
        &[KeyCode::Enter],
        &[KeyCode::Enter, KeyCode::Enter],
        &[KeyCode::Enter, KeyCode::Down, KeyCode::Enter],
        &[KeyCode::Char('a')],
        &[KeyCode::Char('?')],
    ];
    let modes = [
        AppMode::Files,
        AppMode::Select,
        AppMode::Delete,
        AppMode::Rename,
        AppMode::Create,
        AppMode::Help,
    ];
    for (way, mode) in ways.iter().zip(modes.iter()) {
        let mut app = browser(&["a.txt"]);
        for code in way.iter() {
            press(&mut app, *code);
        }
        assert_eq!(app.mode(), *mode);
        assert_eq!(press(&mut app, KeyCode::Char('q')), Request::Nothing);
        assert_eq!(app.mode(), AppMode::Exit);
        assert!(app.mode().is_terminal());
    }
}

#[test]
fn nothing_happens_after_leaving() {
    let mut app = browser(&["a.txt", "b"]);
    press(&mut app, KeyCode::Char('q'));
    assert_eq!(app.mode(), AppMode::Exit);
    for code in [
        KeyCode::Char('?'),
        KeyCode::Char('q'),
        KeyCode::Down,
        KeyCode::Enter,
        KeyCode::Esc,
        KeyCode::Char('m'),
        KeyCode::Char('-'),
        KeyCode::Char('a'),
        KeyCode::Backspace,
    ] {
        assert_eq!(press(&mut app, code), Request::Nothing);
        assert_eq!(app.mode(), AppMode::Exit);
    }
    app.refresh(read(&["z"]));
    assert_eq!(files(&app), vec!["a.txt".to_string(), "b".to_string()]);
    assert_eq!(app.file_list().selected(), Some(0));
    assert_eq!(app.dir().get_current_path(), "/home/u");
}

#[test]
fn only_q_leaves() {
    let keys = [
        KeyCode::Down,
        KeyCode::Enter,
        KeyCode::Down,
        KeyCode::Enter,
        KeyCode::Char('x'),
        KeyCode::Backspace,
        KeyCode::Esc,
        KeyCode::Esc,
        KeyCode::Char('?'),
        KeyCode::Char('Q'),
        KeyCode::Esc,
        KeyCode::Char('a'),
        KeyCode::Enter,
        KeyCode::Char('b'),
        KeyCode::Char('-'),
        KeyCode::Char('m'),
        KeyCode::Other,
        KeyCode::Up,
        KeyCode::Char('k'),
        KeyCode::Char('j'),
    ];
    let mut app = browser(&["a.txt", "b"]);
    for code in keys {
        press(&mut app, code);
        assert_ne!(app.mode(), AppMode::Exit);
        app.refresh(read(&["a.txt", "b"]));
        assert_ne!(app.mode(), AppMode::Exit);
    }
    app.handle_reply(Reply::Renamed(Ok(())));
    assert_ne!(app.mode(), AppMode::Exit);
}

#[test]
fn the_help_opens_from_anywhere_and_closes_with_escape() {
    let mut app = browser(&["a.txt"]);
    press(&mut app, KeyCode::Enter);
    assert_eq!(press(&mut app, KeyCode::Char('?')), Request::Nothing);
    assert_eq!(app.mode(), AppMode::Help);
    assert_eq!(press(&mut app, KeyCode::Char('?')), Request::Nothing);
    assert_eq!(app.mode(), AppMode::Help);
    for code in [KeyCode::Down, KeyCode::Enter, KeyCode::Char('m'), KeyCode::Backspace] {
        press(&mut app, code);
        assert_eq!(app.mode(), AppMode::Help);
    }
    assert_eq!(app.file_list().selected(), Some(0));
    assert_eq!(press(&mut app, KeyCode::Esc), Request::Nothing);
    assert_eq!(app.mode(), AppMode::Files);
}

#[test]
fn letters_move_like_arrows() {
    let mut app = browser(&["a", "b", "c"]);
    press(&mut app, KeyCode::Char('j'));
    assert_eq!(app.file_list().selected(), Some(1));
    press(&mut app, KeyCode::Char('j'));
    press(&mut app, KeyCode::Char('j'));
    assert_eq!(app.file_list().selected(), Some(2));
    press(&mut app, KeyCode::Char('k'));
    assert_eq!(app.file_list().selected(), Some(1));
    press(&mut app, KeyCode::Up);
    press(&mut app, KeyCode::Up);
    assert_eq!(app.file_list().selected(), Some(0));

    press(&mut app, KeyCode::Enter);
    press(&mut app, KeyCode::Char('j'));
    press(&mut app, KeyCode::Char('j'));
    press(&mut app, KeyCode::Char('j'));
    assert_eq!(app.select_list().selected(), Some(2));
    press(&mut app, KeyCode::Char('k'));
    assert_eq!(app.select_list().selected(), Some(1));
    assert_eq!(app.file_list().selected(), Some(0));
}

#[test]
fn escape_closes_the_menu_and_clears_its_highlight() {
    let mut app = browser(&["a.txt"]);
    press(&mut app, KeyCode::Enter);
    press(&mut app, KeyCode::Down);
    assert_eq!(app.select_list().selected(), Some(1));
    assert_eq!(press(&mut app, KeyCode::Esc), Request::Nothing);
    assert_eq!(app.mode(), AppMode::Files);
    assert_eq!(app.select_list().selected(), None);
    press(&mut app, KeyCode::Enter);
    assert_eq!(app.select_list().selected(), Some(0));
}

#[test]
fn the_menu_does_nothing_without_a_file() {
    let mut app = browser(&[]);
    press(&mut app, KeyCode::Enter);
    assert_eq!(app.mode(), AppMode::Select);
    for position in 0..3 {
        for _ in 0..position {
            press(&mut app, KeyCode::Down);
        }
        assert_eq!(press(&mut app, KeyCode::Enter), Request::Nothing);
        assert_eq!(app.mode(), AppMode::Select);
        assert!(!app.bookmarked().is_set());
        press(&mut app, KeyCode::Up);
        press(&mut app, KeyCode::Up);
    }
}

#[test]
fn escape_leaves_a_prompt_for_the_menu() {
    for position in 0..2 {
        let mut app = browser(&["a.txt"]);
        pick_action(&mut app, position);
        type_text(&mut app, "x");
        assert_eq!(press(&mut app, KeyCode::Esc), Request::Nothing);
        assert_eq!(app.mode(), AppMode::Select);
    }
    let mut app = browser(&["a.txt"]);
    press(&mut app, KeyCode::Char('a'));
    assert_eq!(press(&mut app, KeyCode::Esc), Request::Nothing);
    assert_eq!(app.mode(), AppMode::Select);
}

#[test]
fn creating_asks_for_a_file_of_the_typed_name() {
    let mut app = browser(&["a.txt"]);
    assert_eq!(press(&mut app, KeyCode::Char('a')), Request::Nothing);
    assert_eq!(app.mode(), AppMode::Create);
    assert_eq!(app.user_input().get_input_value(), "");
    type_text(&mut app, "new.md");
    press(&mut app, KeyCode::Char('x'));
    press(&mut app, KeyCode::Backspace);
    assert_eq!(app.user_input().get_input_value(), "new.md");
    assert_eq!(
        press(&mut app, KeyCode::Enter),
        Request::Create { path: "/home/u/new.md".to_string() }
    );
    assert_eq!(app.mode(), AppMode::Files);
    assert_eq!(app.handle_reply(Reply::Created(Ok(()))), Request::Nothing);
    app.refresh(read(&["a.txt", "new.md"]));
    assert_eq!(files(&app), vec!["a.txt".to_string(), "new.md".to_string()]);
}

#[test]
fn the_create_prompt_starts_empty_each_time() {
    let mut app = browser(&["a.txt"]);
    pick_action(&mut app, 1);
    assert_eq!(app.user_input().get_input_value(), "a.txt");
    press(&mut app, KeyCode::Esc);
    press(&mut app, KeyCode::Esc);
    assert_eq!(app.mode(), AppMode::Files);
    press(&mut app, KeyCode::Char('a'));
    assert_eq!(app.user_input().get_input_value(), "");
}

#[test]
fn moving_in_and_out_changes_the_path() {
    let mut app = browser(&["docs", "b"]);
    assert_eq!(press(&mut app, KeyCode::Char('m')), Request::Nothing);
    assert_eq!(app.dir().get_current_path(), "/home/u/docs");
    app.refresh(read(&["x", "y", "z"]));
    assert_eq!(files(&app), vec!["x".to_string(), "y".to_string(), "z".to_string()]);
    assert_eq!(press(&mut app, KeyCode::Char('-')), Request::Nothing);
    assert_eq!(app.dir().get_current_path(), "/home/u");
    press(&mut app, KeyCode::Char('-'));
    press(&mut app, KeyCode::Char('-'));
    assert_eq!(app.dir().get_current_path(), "/");
    press(&mut app, KeyCode::Char('-'));
    assert_eq!(app.dir().get_current_path(), "/");
    assert_eq!(app.mode(), AppMode::Files);
}

#[test]
fn a_bookmarked_file_is_moved_into_the_current_directory() {
    let mut app = browser(&["a.txt", "docs"]);
    assert_eq!(pick_action(&mut app, 2), Request::Nothing);
    assert_eq!(app.mode(), AppMode::Files);
    assert!(app.bookmarked().is_set());
    assert_eq!(app.bookmarked().full_path(), "/home/u/a.txt");
    assert_eq!(app.bookmarked().file_name(), "a.txt");

    press(&mut app, KeyCode::Down);
    press(&mut app, KeyCode::Char('m'));
    app.refresh(read(&[]));
    assert_eq!(app.dir().get_current_path(), "/home/u/docs");

    let request = press(&mut app, KeyCode::Char('b'));
    assert_eq!(
        request,
        Request::Rename { from: "/home/u/a.txt".to_string(), to: "/home/u/docs/a.txt".to_string() }
    );
    assert!(!app.bookmarked().is_set());
    assert_eq!(app.bookmarked().full_path(), "");
    assert_eq!(app.bookmarked().file_name(), "");
    assert_eq!(app.handle_reply(Reply::Renamed(Ok(()))), Request::Nothing);
    app.refresh(read(&["a.txt"]));
    assert_eq!(files(&app), vec!["a.txt".to_string()]);
}

#[test]
fn the_bookmark_is_spent_even_if_the_move_fails() {
    let mut app = browser(&["a.txt"]);
    pick_action(&mut app, 2);
    let request = press(&mut app, KeyCode::Char('b'));
    assert_eq!(
        request,
        Request::Rename { from: "/home/u/a.txt".to_string(), to: "/home/u/a.txt".to_string() }
    );
    app.handle_reply(Reply::Renamed(Err("denied".to_string())));
    assert!(!app.bookmarked().is_set());
    assert_eq!(app.error_msg(), "File Error: Insufficient privilages: denied");
}

#[test]
fn moving_without_a_bookmark_does_nothing() {
    let mut app = browser(&["a.txt"]);
    assert_eq!(press(&mut app, KeyCode::Char('b')), Request::Nothing);
    assert_eq!(app.mode(), AppMode::Files);
    assert_eq!(app.error_msg(), "");
}

#[test]
fn bookmarking_clears_an_old_error() {
    let mut app = browser(&["a.txt"]);
    app.handle_reply(Reply::Removed(Err("busy".to_string())));
    pick_action(&mut app, 2);
    assert!(app.bookmarked().is_set());
    assert_eq!(app.error_msg(), "");
}

#[test]
fn renaming_without_a_file_asks_nothing() {
    let mut app = browser(&["a.txt"]);
    pick_action(&mut app, 1);
    app.refresh(read(&[]));
    assert_eq!(app.file_list().selected(), None);
    assert_eq!(press(&mut app, KeyCode::Enter), Request::Nothing);
    assert_eq!(app.mode(), AppMode::Files);
}

#[test]
fn a_listing_that_shrank_pulls_the_highlight_back() {
    let mut app = browser(&["a", "b", "c"]);
    press(&mut app, KeyCode::Down);
    press(&mut app, KeyCode::Down);
    assert_eq!(app.file_list().selected(), Some(2));
    app.refresh(read(&["a"]));
    assert_eq!(app.file_list().selected(), Some(0));
    app.refresh(read(&[]));
    assert_eq!(app.file_list().selected(), None);
    app.refresh(read(&["a", "b"]));
    assert_eq!(app.file_list().selected(), None);
    press(&mut app, KeyCode::Up);
    assert_eq!(app.file_list().selected(), Some(1));
}

#[test]
fn a_failed_listing_shows_the_placeholder() {
    let mut app = browser(&["a", "b"]);
    press(&mut app, KeyCode::Down);
    app.refresh(None);
    assert_eq!(files(&app), vec!["No such directory".to_string()]);
    assert_eq!(app.file_list().selected(), Some(0));
    assert_eq!(app.error_msg(), "");
}

#[test]
fn only_a_press_counts() {
    let mut app = browser(&["a", "b"]);
    for kind in [KeyEventKind::Repeat, KeyEventKind::Release] {
        let event = Event::Key(KeyEvent { code: KeyCode::Down, kind });
        assert_eq!(app.handle_events(event), Request::Nothing);
        assert_eq!(app.file_list().selected(), Some(0));
        let event = Event::Key(KeyEvent { code: KeyCode::Char('q'), kind });
        assert_eq!(app.handle_events(event), Request::Nothing);
        assert_eq!(app.mode(), AppMode::Files);
    }
    assert_eq!(app.handle_events(Event::Other), Request::Nothing);
    assert_eq!(app.file_list().selected(), Some(0));
    let down = Event::Key(KeyEvent { code: KeyCode::Down, kind: KeyEventKind::Press });
    assert_eq!(app.handle_events(down), Request::Nothing);
    assert_eq!(app.file_list().selected(), Some(1));
    let quit = Event::Key(KeyEvent { code: KeyCode::Char('q'), kind: KeyEventKind::Press });
    assert_eq!(app.handle_events(quit), Request::Nothing);
    assert_eq!(app.mode(), AppMode::Exit);
}

#[test]
fn the_highlights_stay_in_range_whatever_is_pressed() {
    let keys = [
        KeyCode::Down,
        KeyCode::Down,
        KeyCode::Down,
        KeyCode::Enter,
        KeyCode::Up,
        KeyCode::Down,
        KeyCode::Down,
        KeyCode::Down,
        KeyCode::Down,
        KeyCode::Esc,
        KeyCode::Up,
        KeyCode::Char('m'),
        KeyCode::Char('-'),
        KeyCode::Enter,
        KeyCode::Enter,
        KeyCode::Char('y'),
        KeyCode::Enter,
    ];
    let listings: [&[&str]; 4] = [&["a", "b", "c"], &["a"], &[], &["a", "b"]];
    let mut app = browser(&["a", "b", "c"]);
    for (turn, code) in keys.iter().enumerate() {
        press(&mut app, *code);
        app.refresh(read(listings[turn % 4]));
        if let Some(i) = app.file_list().selected() {
            assert!(i < app.file_list().items().len());
        }
        if let Some(i) = app.select_list().selected() {
            assert!(i < 3);
        }
    }
}

#[test]
fn renaming_where_the_path_is_not_text_is_an_error() {
    let mut app = lost(&["a.txt"]);
    assert_eq!(app.dir().get_current_path(), "Error: Incorrect Path");
    pick_action(&mut app, 1);
    assert_eq!(app.mode(), AppMode::Rename);
    type_text(&mut app, "2");
    assert_eq!(press(&mut app, KeyCode::Enter), Request::Nothing);
    assert_eq!(app.error_msg(), "File Error: Incorrect path");
    assert_eq!(app.mode(), AppMode::Files);
}

#[test]
fn deleting_where_the_path_is_not_text_is_an_error() {
    let mut app = lost(&["a.txt"]);
    pick_action(&mut app, 0);
    type_text(&mut app, "y");
    assert_eq!(press(&mut app, KeyCode::Enter), Request::Nothing);
    assert_eq!(app.error_msg(), "File Error: Incorrect path");
    assert_eq!(app.mode(), AppMode::Files);
}

#[test]
fn creating_where_the_path_is_not_text_is_an_error() {
    let mut app = lost(&[]);
    press(&mut app, KeyCode::Char('a'));
    type_text(&mut app, "new");
    assert_eq!(press(&mut app, KeyCode::Enter), Request::Nothing);
    assert_eq!(app.error_msg(), "File Error: Incorrect path");
    assert_eq!(app.mode(), AppMode::Files);
}

#[test]
fn bookmarking_where_the_path_is_not_text_is_an_error_and_the_menu_stays() {
    let mut app = lost(&["a.txt"]);
    assert_eq!(pick_action(&mut app, 2), Request::Nothing);
    assert_eq!(app.error_msg(), "File Error: Incorrect path");
    assert_eq!(app.mode(), AppMode::Select);
    assert_eq!(app.select_list().selected(), Some(2));
    assert!(!app.bookmarked().is_set());
}

#[test]
fn above_the_part_that_is_not_text_everything_works_again() {
    let mut app = lost(&["a.txt"]);
    press(&mut app, KeyCode::Char('-'));
    app.refresh(read(&["b"]));
    assert_eq!(app.dir().get_current_path(), "/srv");
    assert_eq!(pick_action(&mut app, 2), Request::Nothing);
    assert_eq!(app.bookmarked().full_path(), "/srv/b");
    assert_eq!(app.error_msg(), "");
    assert_eq!(app.mode(), AppMode::Files);
}

#[test]
fn a_deletion_not_confirmed_where_the_path_is_not_text_is_no_error() {
    let mut app = lost(&["a.txt"]);
    pick_action(&mut app, 0);
    type_text(&mut app, "n");
    assert_eq!(press(&mut app, KeyCode::Enter), Request::Nothing);
    assert_eq!(app.error_msg(), "");
    assert_eq!(app.mode(), AppMode::Files);
}
