use vstd::prelude::*;
use crate::engine::Mode;
use crate::strutil::str_eq;

verus! {

/// What the command line asks for: run in one of the two modes, print the
/// usage line (wrong argument count), or report an unrecognized mode word.
pub enum CliCommand {
    Usage,
    UnrecognizedMode(String),
    Run { api_key: String, username: String, password: String, mode: Mode },
}

/// The mathematical model of a `CliCommand`.
#[verifier::ext_equal]
pub enum CliCommandView {
    Usage,
    UnrecognizedMode(Seq<char>),
    Run { api_key: Seq<char>, username: Seq<char>, password: Seq<char>, mode: Mode },
}

impl View for CliCommand {
    type V = CliCommandView;

    open spec fn view(&self) -> CliCommandView {
        match self {
            CliCommand::Usage => CliCommandView::Usage,
            CliCommand::UnrecognizedMode(m) => CliCommandView::UnrecognizedMode(m@),
            CliCommand::Run { api_key, username, password, mode } => CliCommandView::Run {
                api_key: api_key@,
                username: username@,
                password: password@,
                mode: *mode,
            },
        }
    }
}

/// Anything but exactly the program name and four arguments asks for the
/// usage line; the fourth argument picks the mode.
pub open spec fn spec_parse_args(args: Seq<Seq<char>>) -> CliCommandView {
    if args.len() != 5 {
        CliCommandView::Usage
    } else if args[4] == "accept"@ {
        CliCommandView::Run {
            api_key: args[1],
            username: args[2],
            password: args[3],
            mode: Mode::Accept,
        }
    } else if args[4] == "invite"@ {
        CliCommandView::Run {
            api_key: args[1],
            username: args[2],
            password: args[3],
            mode: Mode::Invite,
        }
    } else {
        CliCommandView::UnrecognizedMode(args[4])
    }
}

/// Read the command line: argument count first, then the mode word.
pub fn parse_args(args: &Vec<String>) -> (r: CliCommand)
    ensures
        r@ == spec_parse_args(args@.map_values(|s: String| s@)),
{
    if args.len() != 5 {
        CliCommand::Usage
    } else if str_eq(args[4].as_str(), "accept") {
        CliCommand::Run {
            api_key: args[1].clone(),
            username: args[2].clone(),
            password: args[3].clone(),
            mode: Mode::Accept,
        }
    } else if str_eq(args[4].as_str(), "invite") {
        CliCommand::Run {
            api_key: args[1].clone(),
            username: args[2].clone(),
            password: args[3].clone(),
            mode: Mode::Invite,
        }
    } else {
        CliCommand::UnrecognizedMode(args[4].clone())
    }
}

/// The usage line printed on a wrong argument count.
pub open spec fn spec_usage_message(program: Seq<char>) -> Seq<char> {
    "Usage "@ + program + " <api_key> <username> <password> <mode>"@
}

/// Build the usage line for one program name.
pub fn usage_message(program: &str) -> (r: String)
    ensures
        r@ == spec_usage_message(program@),
{
    let mut s = String::from_str("Usage ");
    s.append(program);
    s.append(" <api_key> <username> <password> <mode>");
    s
}

/// The message printed for a mode word outside the supported two.
pub open spec fn spec_unrecognized_mode_message(mode: Seq<char>) -> Seq<char> {
    "unrecognized mode "@ + mode + ", supported modes: accept, invite"@
}

/// Build the unrecognized-mode message for one mode word.
pub fn unrecognized_mode_message(mode: &str) -> (r: String)
    ensures
        r@ == spec_unrecognized_mode_message(mode@),
{
    let mut s = String::from_str("unrecognized mode ");
    s.append(mode);
    s.append(", supported modes: accept, invite");
    s
}

} // verus!
