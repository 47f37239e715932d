//! The command dispatcher: maps the fixed CLI vocabulary onto document
//! session operations, without ever reading ambient process state.
use vstd::prelude::*;

use crate::text::str_eq;

verus! {

/// What one process run was asked to do, decoded from its arguments.
pub enum Command {
    Help,
    Version,
    New { identifier: String, initial_content: String },
    Edit { identifier: String },
    EditConfig,
    ShowConfig,
    MissingEditPath,
    Unknown { action: String },
}

/// The verb of an invocation: the first argument after the program name.
pub open spec fn action_of(args: Seq<String>) -> Seq<char> {
    if args.len() > 1 {
        args[1]@
    } else {
        Seq::<char>::empty()
    }
}

/// The argument at position `i`, or `default` when it was not given.
pub open spec fn arg_or(args: Seq<String>, i: int, default: Seq<char>) -> Seq<char> {
    if args.len() > i {
        args[i]@
    } else {
        default
    }
}

/// The verbs the dispatcher knows.
pub open spec fn known_action(a: Seq<char>) -> bool {
    a == "--help"@ || a == "--version"@ || a == "config"@ || a == "new"@ || a == "edit"@
}

/// Decodes the process arguments (program name first) into a command.
/// A missing `new` identifier falls back to `text.txt` with empty initial
/// content; `edit` demands an identifier, and `edit config` is the
/// reserved alias for opening the configuration file itself.
pub fn dispatch(args: &Vec<String>) -> (c: Command)
    ensures
        action_of(args@) == "--help"@ ==> c is Help,
        action_of(args@) == "--version"@ ==> c is Version,
        action_of(args@) == "config"@ ==> c is ShowConfig,
        action_of(args@) == "new"@ ==> (c matches Command::New { identifier, initial_content }
            && identifier@ == arg_or(args@, 2, "text.txt"@) && initial_content@ == arg_or(
            args@,
            3,
            Seq::<char>::empty(),
        )),
        action_of(args@) == "edit"@ && arg_or(args@, 2, Seq::<char>::empty()).len() == 0 ==> c
            is MissingEditPath,
        action_of(args@) == "edit"@ && arg_or(args@, 2, Seq::<char>::empty()) == "config"@ ==> c
            is EditConfig,
        action_of(args@) == "edit"@ && arg_or(args@, 2, Seq::<char>::empty()).len() > 0 && arg_or(
            args@,
            2,
            Seq::<char>::empty(),
        ) != "config"@ ==> (c matches Command::Edit { identifier } && identifier@ == arg_or(
            args@,
            2,
            Seq::<char>::empty(),
        )),
        !known_action(action_of(args@)) ==> (c matches Command::Unknown { action } && action@
            == action_of(args@)),
{
    proof {
        reveal_strlit("");
        assert(""@ =~= Seq::<char>::empty());
        reveal_strlit("--help");
        reveal_strlit("--version");
        reveal_strlit("config");
        reveal_strlit("new");
        reveal_strlit("edit");
        assert("--help"@[0] == '-' && "config"@[0] == 'c');
        assert("--help"@ != "config"@);
    }
    let action: &str = if args.len() > 1 {
        args[1].as_str()
    } else {
        ""
    };
    proof {
        assert(action@ == action_of(args@));
    }
    if str_eq(action, "--help") {
        Command::Help
    } else if str_eq(action, "--version") {
        Command::Version
    } else if str_eq(action, "config") {
        Command::ShowConfig
    } else if str_eq(action, "new") {
        let identifier = if args.len() > 2 {
            args[2].clone()
        } else {
            String::from_str("text.txt")
        };
        let initial_content = if args.len() > 3 {
            args[3].clone()
        } else {
            String::new()
        };
        Command::New { identifier, initial_content }
    } else if str_eq(action, "edit") {
        let identifier: &str = if args.len() > 2 {
            args[2].as_str()
        } else {
            ""
        };
        if identifier.unicode_len() == 0 {
            Command::MissingEditPath
        } else if str_eq(identifier, "config") {
            Command::EditConfig
        } else {
            Command::Edit { identifier: String::from_str(identifier) }
        }
    } else {
        Command::Unknown { action: String::from_str(action) }
    }
}

/// Only the commands that load a document enter the presentation event
/// loop; help, version, configuration display and errors never do.
pub open spec fn spec_enters_event_loop(c: Command) -> bool {
    c is New || c is Edit || c is EditConfig
}

pub fn enters_event_loop(c: &Command) -> (b: bool)
    ensures
        b == spec_enters_event_loop(*c),
{
    match c {
        Command::New { .. } => true,
        Command::Edit { .. } => true,
        Command::EditConfig => true,
        _ => false,
    }
}

/// The tool's version.
pub fn version_str() -> (r: &'static str)
    ensures
        r@ == "0.0.1"@,
{
    "0.0.1"
}

/// The version banner shown by the presentation surface.
pub fn seth_version(version: &str) -> (r: String)
    ensures
        r@ == "Seth v"@ + version@,
{
    let mut s = String::from_str("Seth v");
    s.append(version);
    s
}

/// The usage text printed for `--help` and for unknown verbs.
pub fn help_text() -> (r: String)
    ensures
        r@
            == "Usage: 'Seth' <action> <optional identifier/path> <optional initial_content>\nActions:\n  --help        Prints this help message\n  --version     Prints the Seth version\n  new           Creates a new file\n  edit          Edits an existing file\n  config        Prints the current configuration"@,
{
    String::from_str(
        "Usage: 'Seth' <action> <optional identifier/path> <optional initial_content>\nActions:\n  --help        Prints this help message\n  --version     Prints the Seth version\n  new           Creates a new file\n  edit          Edits an existing file\n  config        Prints the current configuration",
    )
}

} // verus!
