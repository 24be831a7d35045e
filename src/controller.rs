//! What each command of the tool does, as a value: the caller performs the
//! step (prints, renders the log, starts a program, runs the interactive save).

use vstd::prelude::*;

verus! {

/// A command of the tool; `Save` is also what runs when none is given.
pub enum Command {
    List,
    Open,
    View,
    Save,
    Obsidian { path: Option<String>, neovim: bool },
    Help,
    Author,
}

/// The mathematical model of a command.
pub enum CommandModel {
    List,
    Open,
    View,
    Save,
    Obsidian { path: Option<Seq<char>>, neovim: bool },
    Help,
    Author,
}

impl View for Command {
    type V = CommandModel;

    open spec fn view(&self) -> CommandModel {
        match self {
            Command::List => CommandModel::List,
            Command::Open => CommandModel::Open,
            Command::View => CommandModel::View,
            Command::Save => CommandModel::Save,
            Command::Obsidian { path, neovim } => CommandModel::Obsidian {
                path: match path {
                    Some(p) => Some(p@),
                    None => None,
                },
                neovim: *neovim,
            },
            Command::Help => CommandModel::Help,
            Command::Author => CommandModel::Author,
        }
    }
}

/// A program to start: its name, its arguments, and whether to wait for it
/// to exit (otherwise it runs on, detached), and the message with which the
/// run stops when the program cannot be started.
pub struct Launch {
    pub program: String,
    pub args: Vec<String>,
    pub wait: bool,
    pub on_failure: String,
}

pub struct LaunchModel {
    pub program: Seq<char>,
    pub args: Seq<Seq<char>>,
    pub wait: bool,
    pub on_failure: Seq<char>,
}

impl View for Launch {
    type V = LaunchModel;

    open spec fn view(&self) -> LaunchModel {
        LaunchModel {
            program: self.program@,
            args: self.args@.map_values(|a: String| a@),
            wait: self.wait,
            on_failure: self.on_failure@,
        }
    }
}

/// What one invocation does.
pub enum Step {
    /// Report on the error stream; the run still ends normally.
    Notice(String),
    /// Print on standard output.
    Print(String),
    /// Read the log and render it as markdown on the terminal.
    RenderLog,
    /// Start a program.
    Start(Launch),
    /// Ask for a body and a title and append them to the log.
    SaveEntry,
}

pub enum StepModel {
    Notice(Seq<char>),
    Print(Seq<char>),
    RenderLog,
    Start(LaunchModel),
    SaveEntry,
}

impl View for Step {
    type V = StepModel;

    open spec fn view(&self) -> StepModel {
        match self {
            Step::Notice(m) => StepModel::Notice(m@),
            Step::Print(m) => StepModel::Print(m@),
            Step::RenderLog => StepModel::RenderLog,
            Step::Start(l) => StepModel::Start(l@),
            Step::SaveEntry => StepModel::SaveEntry,
        }
    }
}

pub open spec fn missing_log_notice() -> Seq<char> {
    "🤖 (Giru): No memories found. Please save a memory first."@
}

pub open spec fn viewer_failed_notice() -> Seq<char> {
    "🤖 (Giru): Failed to view file with Frogmouth."@
}

pub open spec fn author_text() -> Seq<char> {
    "🤖 Author: WMouton"@
}

pub open spec fn help_text_of() -> Seq<char> {
    "🤖 Giru Help Menu:
  giru list           - List all saved memories
  giru open           - Open the memory file with Neovim in Alacritty
  giru view           - View the memory file with Frogmouth
  giru save           - Save a new memory
  giru obsidian [path] - Open the specified path or file with Obsidian
  giru obsidian [path] --neovim - Open the specified path or file with Neovim in Alacritty
  giru help           - Display this help menu
  giru author         - Display the author of the tool"@
}

pub open spec fn list_banner_text() -> Seq<char> {
    "🤖 Giru Contents Below 🤖"@
}

/// The terminal editor: a terminal emulator running a modal editor on
/// `target`, detached.
pub open spec fn editor_launch_of(target: Seq<char>, on_failure: Seq<char>) -> LaunchModel {
    LaunchModel {
        program: "alacritty"@,
        args: seq!["-e"@, "nvim"@, target],
        wait: false,
        on_failure,
    }
}

/// The markdown viewer on the log, waited for.
pub open spec fn viewer_launch_of(log_path: Seq<char>) -> LaunchModel {
    LaunchModel {
        program: "frogmouth"@,
        args: seq![log_path],
        wait: true,
        on_failure: "Failed to view file with Frogmouth"@,
    }
}

/// The path given to the notes application or the editor: the home marker
/// `~` when none is given.
pub open spec fn target_of(path: Option<Seq<char>>) -> Seq<char> {
    match path {
        Some(p) => p,
        None => "~"@,
    }
}

/// The notes application, or the terminal editor when `neovim` is set, on a path.
pub open spec fn external_launch_of(path: Option<Seq<char>>, neovim: bool) -> LaunchModel {
    if neovim {
        editor_launch_of(target_of(path), "Failed to open path with Neovim in Alacritty"@)
    } else {
        LaunchModel {
            program: "obsidian"@,
            args: seq![target_of(path)],
            wait: false,
            on_failure: "Failed to open path with Obsidian"@,
        }
    }
}

/// What a command does, given whether the log file exists and its path.
pub open spec fn planned(cmd: CommandModel, log_exists: bool, log_path: Seq<char>) -> StepModel {
    match cmd {
        CommandModel::List => if log_exists {
            StepModel::RenderLog
        } else {
            StepModel::Notice(missing_log_notice())
        },
        CommandModel::Open => if log_exists {
            StepModel::Start(
                editor_launch_of(log_path, "Failed to open file with Neovim in Alacritty"@),
            )
        } else {
            StepModel::Notice(missing_log_notice())
        },
        CommandModel::View => if log_exists {
            StepModel::Start(viewer_launch_of(log_path))
        } else {
            StepModel::Notice(missing_log_notice())
        },
        CommandModel::Save => StepModel::SaveEntry,
        CommandModel::Obsidian { path, neovim } => StepModel::Start(
            external_launch_of(path, neovim),
        ),
        CommandModel::Help => StepModel::Print(help_text_of()),
        CommandModel::Author => StepModel::Print(author_text()),
    }
}

/// The diagnostic for a read of a log that does not exist.
pub fn missing_log_message() -> (r: String)
    ensures
        r@ == missing_log_notice(),
{
    String::from_str("🤖 (Giru): No memories found. Please save a memory first.")
}

/// The line printed above the rendered log.
pub fn list_banner() -> (r: String)
    ensures
        r@ == list_banner_text(),
{
    String::from_str("🤖 Giru Contents Below 🤖")
}

/// The command to run: the one given, or `Save` when none is.
pub fn command_or_default(given: Option<Command>) -> (r: Command)
    ensures
        r@ == match given {
            Some(c) => c@,
            None => CommandModel::Save,
        },
{
    match given {
        Some(c) => c,
        None => Command::Save,
    }
}

/// The usage summary of all commands.
pub fn help_text() -> (r: String)
    ensures
        r@ == help_text_of(),
{
    String::from_str(
        "🤖 Giru Help Menu:
  giru list           - List all saved memories
  giru open           - Open the memory file with Neovim in Alacritty
  giru view           - View the memory file with Frogmouth
  giru save           - Save a new memory
  giru obsidian [path] - Open the specified path or file with Obsidian
  giru obsidian [path] --neovim - Open the specified path or file with Neovim in Alacritty
  giru help           - Display this help menu
  giru author         - Display the author of the tool",
    )
}

/// The author line.
pub fn author_line() -> (r: String)
    ensures
        r@ == author_text(),
{
    String::from_str("🤖 Author: WMouton")
}

/// The terminal editor on `target`, detached; `on_failure` is the message
/// for when it cannot be started.
pub fn editor_launch(target: &str, on_failure: &str) -> (r: Launch)
    ensures
        r@ == editor_launch_of(target@, on_failure@),
{
    let mut args: Vec<String> = Vec::new();
    args.push(String::from_str("-e"));
    args.push(String::from_str("nvim"));
    args.push(String::from_str(target));
    let r = Launch {
        program: String::from_str("alacritty"),
        args,
        wait: false,
        on_failure: String::from_str(on_failure),
    };
    assert(r@.args =~= seq!["-e"@, "nvim"@, target@]);
    r
}

/// The markdown viewer on the log, waited for.
pub fn viewer_launch(log_path: &str) -> (r: Launch)
    ensures
        r@ == viewer_launch_of(log_path@),
{
    let mut args: Vec<String> = Vec::new();
    args.push(String::from_str(log_path));
    let r = Launch {
        program: String::from_str("frogmouth"),
        args,
        wait: true,
        on_failure: String::from_str("Failed to view file with Frogmouth"),
    };
    assert(r@.args =~= seq![log_path@]);
    r
}

/// The notes application on `path` (home marker `~` when absent), or the
/// terminal editor on it when `neovim` is set; detached either way.
pub fn open_with_obsidian_or_neovim(path: &Option<String>, neovim: bool) -> (r: Launch)
    ensures
        r@ == external_launch_of(
            match path {
                Some(p) => Some(p@),
                None => None,
            },
            neovim,
        ),
{
    let target: &str = match path {
        Some(p) => p.as_str(),
        None => "~",
    };
    if neovim {
        editor_launch(target, "Failed to open path with Neovim in Alacritty")
    } else {
        let mut args: Vec<String> = Vec::new();
        args.push(String::from_str(target));
        let r = Launch {
            program: String::from_str("obsidian"),
            args,
            wait: false,
            on_failure: String::from_str("Failed to open path with Obsidian"),
        };
        assert(r@.args =~= seq![target@]);
        r
    }
}

/// What `cmd` does, given whether the log exists and its path.
pub fn plan(cmd: &Command, log_exists: bool, log_path: &str) -> (r: Step)
    ensures
        r@ == planned(cmd@, log_exists, log_path@),
{
    match cmd {
        Command::List => if log_exists {
            Step::RenderLog
        } else {
            Step::Notice(missing_log_message())
        },
        Command::Open => if log_exists {
            Step::Start(editor_launch(log_path, "Failed to open file with Neovim in Alacritty"))
        } else {
            Step::Notice(missing_log_message())
        },
        Command::View => if log_exists {
            Step::Start(viewer_launch(log_path))
        } else {
            Step::Notice(missing_log_message())
        },
        Command::Save => Step::SaveEntry,
        Command::Obsidian { path, neovim } => Step::Start(open_with_obsidian_or_neovim(path, *neovim)),
        Command::Help => Step::Print(help_text()),
        Command::Author => Step::Print(author_line()),
    }
}

/// With no log file, `list`, `open` and `view` only report that no memories
/// were found: nothing is read, created or started.
pub proof fn missing_log_is_only_reported(cmd: CommandModel, log_path: Seq<char>)
    requires
        cmd is List || cmd is Open || cmd is View,
    ensures
        planned(cmd, false, log_path) == StepModel::Notice(missing_log_notice()),
{
}

/// `obsidian` with no path and no `--neovim` starts the notes application,
/// detached, with the home marker `~` as its only argument.
pub proof fn obsidian_defaults_to_home(log_exists: bool, log_path: Seq<char>)
    ensures
        planned(CommandModel::Obsidian { path: None, neovim: false }, log_exists, log_path)
            == StepModel::Start(
            LaunchModel {
                program: "obsidian"@,
                args: seq!["~"@],
                wait: false,
                on_failure: "Failed to open path with Obsidian"@,
            },
        ),
{
}

/// `obsidian <path> --neovim` starts the terminal editor on that path, not the
/// notes application.
pub proof fn obsidian_with_neovim_uses_editor(path: Seq<char>, log_exists: bool, log_path: Seq<char>)
    ensures
        planned(CommandModel::Obsidian { path: Some(path), neovim: true }, log_exists, log_path)
            == StepModel::Start(
            editor_launch_of(path, "Failed to open path with Neovim in Alacritty"@),
        ),
        editor_launch_of(path, "Failed to open path with Neovim in Alacritty"@).program
            != "obsidian"@,
{
    reveal_strlit("alacritty");
    reveal_strlit("obsidian");
    assert("alacritty"@[0] != "obsidian"@[0]);
}

/// `help` and `author` print fixed text, the same whether or not the log
/// exists and wherever it is, and do nothing else.
pub proof fn help_and_author_are_fixed(
    exists1: bool,
    path1: Seq<char>,
    exists2: bool,
    path2: Seq<char>,
)
    ensures
        planned(CommandModel::Help, exists1, path1) == planned(CommandModel::Help, exists2, path2),
        planned(CommandModel::Help, exists1, path1) == StepModel::Print(help_text_of()),
        planned(CommandModel::Author, exists1, path1) == planned(CommandModel::Author, exists2, path2),
        planned(CommandModel::Author, exists1, path1) == StepModel::Print(author_text()),
{
}

/// What follows the viewer's exit: a notice when it did not succeed, nothing otherwise.
pub fn viewer_exit_notice(success: bool) -> (r: Option<String>)
    ensures
        success ==> r is None,
        !success ==> (r matches Some(m) && m@ == viewer_failed_notice()),
{
    if success {
        None
    } else {
        Some(String::from_str("🤖 (Giru): Failed to view file with Frogmouth."))
    }
}

} // verus!
