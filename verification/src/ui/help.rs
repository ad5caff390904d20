use vstd::prelude::*;
use vstd::string::*;

verus! {

/// The help: what can be done, and with which key.
#[derive(Debug)]
pub struct HelpWindow {
    commands: Vec<Command>,
}

/// One line of the help.
#[derive(Debug)]
pub struct Command {
    name: String,
    keybind: String,
}

/// One line of the help as mathematics: what is done, and the key for it.
pub struct CommandView {
    pub name: Seq<char>,
    pub keybind: Seq<char>,
}

impl View for Command {
    type V = CommandView;

    closed spec fn view(&self) -> CommandView {
        CommandView { name: self.name@, keybind: self.keybind@ }
    }
}

impl DeepView for Command {
    type V = CommandView;

    open spec fn deep_view(&self) -> CommandView {
        self@
    }
}

impl Command {
    /// The line saying that `name` is done with `keybind`.
    pub fn new(name: &str, keybind: &str) -> (command: Self)
        ensures
            command@ == (CommandView { name: name@, keybind: keybind@ }),
    {
        Self { name: String::from_str(name), keybind: String::from_str(keybind) }
    }

    /// What is done.
    pub fn name(&self) -> (name: &String)
        ensures
            name@ == self@.name,
    {
        &self.name
    }

    /// The key for it.
    pub fn keybind(&self) -> (keybind: &String)
        ensures
            keybind@ == self@.keybind,
    {
        &self.keybind
    }
}

/// The lines of the help, in the order they are shown.
pub open spec fn help_lines() -> Seq<CommandView> {
    seq![
        CommandView { name: "Move"@, keybind: "<↓↑>"@ },
        CommandView { name: "Move Into"@, keybind: "<m>"@ },
        CommandView { name: "Move Out"@, keybind: "<->"@ },
        CommandView { name: "Select"@, keybind: "<Enter>"@ },
        CommandView { name: "Move Bookmarked"@, keybind: "<b>"@ },
        CommandView { name: "Quit"@, keybind: "<q>"@ },
        CommandView { name: "Create"@, keybind: "<a>"@ },
    ]
}

impl View for HelpWindow {
    type V = Seq<CommandView>;

    closed spec fn view(&self) -> Seq<CommandView> {
        self.commands.deep_view()
    }
}

impl Default for HelpWindow {
    /// The help of the browser.
    fn default() -> (help: Self)
        ensures
            help@ == help_lines(),
    {
        let mut commands: Vec<Command> = Vec::new();
        commands.push(Command::new("Move", "<↓↑>"));
        commands.push(Command::new("Move Into", "<m>"));
        commands.push(Command::new("Move Out", "<->"));
        commands.push(Command::new("Select", "<Enter>"));
        commands.push(Command::new("Move Bookmarked", "<b>"));
        commands.push(Command::new("Quit", "<q>"));
        commands.push(Command::new("Create", "<a>"));
        Self { commands }
    }
}

impl HelpWindow {
    /// The lines, in the order they are shown.
    pub fn commands(&self) -> (commands: &Vec<Command>)
        ensures
            commands.deep_view() == self@,
    {
        &self.commands
    }
}

} // verus!
