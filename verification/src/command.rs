//! The commands of the `omega` command line, the names that select them and
//! the text that each one writes.

use crate::text::same_text;
use vstd::prelude::*;

verus! {

/// Written by `build`.
pub const BUILD_TEXT: &'static str = "Building OMEGA project...
✅ Build completed successfully
";

/// Written by `test`.
pub const TEST_TEXT: &'static str = "Running OMEGA tests...
✅ All tests passed
";

/// Written by `deploy`.
pub const DEPLOY_TEXT: &'static str = "Deploying OMEGA contracts...
✅ Deployment completed
";

/// Written by `version`: the release and the targets it supports.
pub const VERSION_TEXT: &'static str = "OMEGA Compiler v1.1.0
Blockchain targets: EVM ✅, Solana ✅
";

/// Written by `help`, and when no command is given.
pub const HELP_TEXT: &'static str = "OMEGA Compiler - Universal Blockchain Programming Language

USAGE:
    omega <COMMAND> [OPTIONS]

COMMANDS:
    build      Build OMEGA project
    test       Run test suite
    deploy     Deploy contracts to blockchain
    version    Show version information
    help       Show this help message

EXAMPLES:
    omega build
    omega test
    omega deploy --target evm --network sepolia

For more information, visit: https://github.com/Rafael2022-prog/omega-lang
";

/// One of the things the command line can be asked to do.
#[derive(Clone, Copy, Debug, PartialEq, Eq, Structural)]
pub enum Command {
    /// `build`
    Build,
    /// `test`
    Test,
    /// `deploy`
    Deploy,
    /// `version`, `--version` or `-v`
    Version,
    /// `help`, `--help` or `-h`; also what runs when no command is given
    Help,
}

impl Command {
    /// Whether `token` is a name of this command. Names are matched exactly:
    /// no trimming, no case folding.
    pub open spec fn is_named(self, token: Seq<char>) -> bool {
        match self {
            Command::Build => token == "build"@,
            Command::Test => token == "test"@,
            Command::Deploy => token == "deploy"@,
            Command::Version => token == "version"@ || token == "--version"@ || token == "-v"@,
            Command::Help => token == "help"@ || token == "--help"@ || token == "-h"@,
        }
    }

    /// The command that `token` names, if it names one.
    pub open spec fn named(token: Seq<char>) -> Option<Command> {
        if Command::Build.is_named(token) {
            Some(Command::Build)
        } else if Command::Test.is_named(token) {
            Some(Command::Test)
        } else if Command::Deploy.is_named(token) {
            Some(Command::Deploy)
        } else if Command::Version.is_named(token) {
            Some(Command::Version)
        } else if Command::Help.is_named(token) {
            Some(Command::Help)
        } else {
            None
        }
    }

    /// The text this command writes to standard output.
    pub open spec fn report(self) -> Seq<char> {
        match self {
            Command::Build => BUILD_TEXT@,
            Command::Test => TEST_TEXT@,
            Command::Deploy => DEPLOY_TEXT@,
            Command::Version => VERSION_TEXT@,
            Command::Help => HELP_TEXT@,
        }
    }

    /// Looks `token` up among the command names.
    pub fn parse(token: &str) -> (found: Option<Command>)
        ensures
            found == Command::named(token@),
    {
        if same_text(token, "build") {
            Some(Command::Build)
        } else if same_text(token, "test") {
            Some(Command::Test)
        } else if same_text(token, "deploy") {
            Some(Command::Deploy)
        } else if same_text(token, "version") || same_text(token, "--version") || same_text(
            token,
            "-v",
        ) {
            Some(Command::Version)
        } else if same_text(token, "help") || same_text(token, "--help") || same_text(token, "-h") {
            Some(Command::Help)
        } else {
            None
        }
    }

    /// The text this command writes to standard output.
    pub fn render(self) -> (text: &'static str)
        ensures
            text@ == self.report(),
    {
        match self {
            Command::Build => BUILD_TEXT,
            Command::Test => TEST_TEXT,
            Command::Deploy => DEPLOY_TEXT,
            Command::Version => VERSION_TEXT,
            Command::Help => HELP_TEXT,
        }
    }
}

/// No name belongs to two commands.
pub proof fn lemma_names_are_unambiguous(token: Seq<char>, a: Command, b: Command)
    requires
        a.is_named(token),
        b.is_named(token),
    ensures
        a == b,
{
    reveal_strlit("build");
    reveal_strlit("test");
    reveal_strlit("deploy");
    reveal_strlit("version");
    reveal_strlit("--version");
    reveal_strlit("-v");
    reveal_strlit("help");
    reveal_strlit("--help");
    reveal_strlit("-h");
    // Names of different lengths differ; the three pairs of equal length
    // differ in the character compared here.
    assert("build"@.len() == 5 && "version"@.len() == 7 && "--version"@.len() == 9);
    assert("test"@.len() == 4 && "help"@.len() == 4 && "test"@[0] != "help"@[0]);
    assert("deploy"@.len() == 6 && "--help"@.len() == 6 && "deploy"@[0] != "--help"@[0]);
    assert("-v"@.len() == 2 && "-h"@.len() == 2 && "-v"@[1] != "-h"@[1]);
}

/// The lookup finds a command exactly when the token is one of its names.
pub proof fn lemma_named_finds_the_owner(token: Seq<char>, command: Command)
    ensures
        Command::named(token) == Some(command) <==> command.is_named(token),
{
    if command.is_named(token) {
        match Command::named(token) {
            Some(found) => lemma_names_are_unambiguous(token, found, command),
            None => {},
        }
    }
}

} // verus!
