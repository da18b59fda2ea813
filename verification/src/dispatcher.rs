//! From the arguments of one invocation to what the process writes and how
//! it ends.

use crate::command::{
    lemma_named_finds_the_owner, Command, BUILD_TEXT, DEPLOY_TEXT, HELP_TEXT, TEST_TEXT,
    VERSION_TEXT,
};
use crate::text::occurs_in;
use vstd::prelude::*;
use vstd::string::*;

verus! {

/// Written first on every invocation, whatever follows.
pub const BANNER: &'static str = "OMEGA Compiler v1.1.0
Universal Blockchain Programming Language

";

/// Stands before the offending token in the message for an unrecognized
/// command.
pub const UNRECOGNIZED_LEAD: &'static str = "Unknown command: ";

/// Ends the line of the offending token and points to `help`.
pub const UNRECOGNIZED_HINT: &'static str = "
Use 'omega help' for available commands
";

/// Exit status of every recognized command, and of an invocation without
/// arguments.
pub const EXIT_SUCCESS: i32 = 0;

/// Exit status when the first argument names no command.
pub const EXIT_UNRECOGNIZED: i32 = 1;

/// Why an invocation selects no command.
#[derive(Debug, PartialEq, Eq)]
pub enum DispatchError {
    /// The first argument, held here, is not the name of any command.
    UnrecognizedCommand(String),
}

impl DispatchError {
    /// The message for this error: it names the offending token.
    pub open spec fn report(self) -> Seq<char> {
        match self {
            DispatchError::UnrecognizedCommand(token) => unrecognized_report(token@),
        }
    }

    /// The message for this error.
    pub fn render(&self) -> (text: String)
        ensures
            text@ == self.report(),
    {
        match self {
            DispatchError::UnrecognizedCommand(token) => {
                let mut text = UNRECOGNIZED_LEAD.to_owned();
                text.append(token.as_str());
                text.append(UNRECOGNIZED_HINT);
                text
            },
        }
    }

    /// The status with which the process ends on this error.
    pub fn exit_code(&self) -> (code: i32)
        ensures
            code == EXIT_UNRECOGNIZED,
    {
        EXIT_UNRECOGNIZED
    }
}

/// The message written when `token` names no command.
pub open spec fn unrecognized_report(token: Seq<char>) -> Seq<char> {
    UNRECOGNIZED_LEAD@ + token + UNRECOGNIZED_HINT@
}

/// The command that an argument list selects: `help` for an empty list,
/// else whatever the first argument names. A first argument that names
/// nothing is handed back as the error. Later arguments play no part.
pub open spec fn selection(args: Seq<Seq<char>>) -> Result<Command, Seq<char>> {
    if args.len() == 0 {
        Ok(Command::Help)
    } else {
        match Command::named(args[0]) {
            Some(command) => Ok(command),
            None => Err(args[0]),
        }
    }
}

/// Selects the command for `args`, the arguments after the program name.
pub fn select(args: &[String]) -> (selected: Result<Command, DispatchError>)
    ensures
        match selection(args.deep_view()) {
            Ok(command) => selected == Ok::<Command, DispatchError>(command),
            Err(token) => selected matches Err(DispatchError::UnrecognizedCommand(held))
                && held@ == token,
        },
{
    if args.len() == 0 {
        return Ok(Command::Help);
    }
    let first = &args[0];
    match Command::parse(first.as_str()) {
        Some(command) => Ok(command),
        None => Err(DispatchError::UnrecognizedCommand(first.clone())),
    }
}

/// What one invocation produces.
#[derive(Debug, PartialEq, Eq)]
pub struct Outcome {
    /// Everything written to standard output, in order.
    pub output: String,
    /// The status with which the process ends.
    pub exit_code: i32,
}

/// An [`Outcome`] as plain values.
pub struct OutcomeView {
    pub output: Seq<char>,
    pub exit_code: int,
}

impl View for Outcome {
    type V = OutcomeView;

    open spec fn view(&self) -> OutcomeView {
        OutcomeView { output: self.output@, exit_code: self.exit_code as int }
    }
}

/// What an invocation with `args` produces: the banner, then the report of
/// the selected command with status 0, or the message for an unrecognized
/// command with status 1.
pub open spec fn outcome_of(args: Seq<Seq<char>>) -> OutcomeView {
    match selection(args) {
        Ok(command) => OutcomeView {
            output: BANNER@ + command.report(),
            exit_code: EXIT_SUCCESS as int,
        },
        Err(token) => OutcomeView {
            output: BANNER@ + unrecognized_report(token),
            exit_code: EXIT_UNRECOGNIZED as int,
        },
    }
}

/// Runs one invocation on `args`, the arguments after the program name.
pub fn dispatch(args: &[String]) -> (outcome: Outcome)
    ensures
        outcome@ == outcome_of(args.deep_view()),
{
    let mut output = BANNER.to_owned();
    match select(args) {
        Ok(command) => {
            output.append(command.render());
            Outcome { output, exit_code: EXIT_SUCCESS }
        },
        Err(error) => {
            let message = error.render();
            output.append(message.as_str());
            Outcome { output, exit_code: error.exit_code() }
        },
    }
}

/// Only the first argument is looked at.
pub proof fn lemma_later_arguments_are_ignored(a: Seq<Seq<char>>, b: Seq<Seq<char>>)
    requires
        a.len() > 0,
        b.len() > 0,
        a[0] == b[0],
    ensures
        outcome_of(a) == outcome_of(b),
{
}

/// The exit status is 0 or 1, and it is 0 exactly when there is no first
/// argument or the first argument names a command.
pub proof fn lemma_status_tells_recognition(args: Seq<Seq<char>>)
    ensures
        outcome_of(args).exit_code == 0 || outcome_of(args).exit_code == 1,
        outcome_of(args).exit_code == 0 <==> (args.len() == 0 || exists|command: Command|
            command.is_named(args[0])),
{
    if args.len() > 0 {
        match Command::named(args[0]) {
            Some(found) => {
                lemma_named_finds_the_owner(args[0], found);
            },
            None => {
                assert forall|command: Command| !command.is_named(args[0]) by {
                    lemma_named_finds_the_owner(args[0], command);
                }
            },
        }
    }
}

/// A first argument that is none of the nine command names ends the
/// invocation with status 1, and what is written contains that argument.
pub proof fn lemma_unrecognized_is_reported(args: Seq<Seq<char>>)
    requires
        args.len() > 0,
        args[0] != "build"@,
        args[0] != "test"@,
        args[0] != "deploy"@,
        args[0] != "version"@,
        args[0] != "--version"@,
        args[0] != "-v"@,
        args[0] != "help"@,
        args[0] != "--help"@,
        args[0] != "-h"@,
    ensures
        outcome_of(args).exit_code == 1,
        outcome_of(args).output == BANNER@ + unrecognized_report(args[0]),
        occurs_in(args[0], outcome_of(args).output),
{
    let before = BANNER@ + UNRECOGNIZED_LEAD@;
    let after = UNRECOGNIZED_HINT@;
    assert(outcome_of(args).output =~= before + args[0] + after);
}

/// An invocation without arguments produces what `help`, `--help` and `-h`
/// produce, and that ends with status 0.
pub proof fn lemma_no_arguments_is_help(args: Seq<Seq<char>>)
    requires
        args.len() > 0,
        args[0] == "help"@ || args[0] == "--help"@ || args[0] == "-h"@,
    ensures
        outcome_of(Seq::empty()) == outcome_of(args),
        outcome_of(Seq::empty()).output == BANNER@ + HELP_TEXT@,
        outcome_of(Seq::empty()).exit_code == 0,
{
    lemma_named_finds_the_owner(args[0], Command::Help);
}

/// `version`, `--version` and `-v` produce the same output, and each ends
/// with status 0.
pub proof fn lemma_version_spellings_agree(a: Seq<Seq<char>>, b: Seq<Seq<char>>)
    requires
        a.len() > 0,
        b.len() > 0,
        a[0] == "version"@ || a[0] == "--version"@ || a[0] == "-v"@,
        b[0] == "version"@ || b[0] == "--version"@ || b[0] == "-v"@,
    ensures
        outcome_of(a) == outcome_of(b),
        outcome_of(a).output == BANNER@ + VERSION_TEXT@,
        outcome_of(a).exit_code == 0,
{
    lemma_named_finds_the_owner(a[0], Command::Version);
    lemma_named_finds_the_owner(b[0], Command::Version);
}

/// `build`, `test` and `deploy` end with status 0, each after the banner
/// and its own two lines.
pub proof fn lemma_work_commands_succeed(args: Seq<Seq<char>>)
    requires
        args.len() > 0,
        args[0] == "build"@ || args[0] == "test"@ || args[0] == "deploy"@,
    ensures
        outcome_of(args).exit_code == 0,
        args[0] == "build"@ ==> outcome_of(args).output == BANNER@ + BUILD_TEXT@,
        args[0] == "test"@ ==> outcome_of(args).output == BANNER@ + TEST_TEXT@,
        args[0] == "deploy"@ ==> outcome_of(args).output == BANNER@ + DEPLOY_TEXT@,
{
    lemma_named_finds_the_owner(args[0], Command::Build);
    lemma_named_finds_the_owner(args[0], Command::Test);
    lemma_named_finds_the_owner(args[0], Command::Deploy);
}

/// Whatever the arguments, the output begins with the banner.
pub proof fn lemma_banner_comes_first(args: Seq<Seq<char>>)
    ensures
        BANNER@.is_prefix_of(outcome_of(args).output),
{
}

} // verus!
