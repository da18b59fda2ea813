use omega_cli::command::{
    Command, BUILD_TEXT, DEPLOY_TEXT, HELP_TEXT, TEST_TEXT, VERSION_TEXT,
};

const ALL: [Command; 5] = [
    Command::Build,
    Command::Test,
    Command::Deploy,
    Command::Version,
    Command::Help,
];

#[test]
fn parse_knows_the_nine_names() {
    assert_eq!(Command::parse("build"), Some(Command::Build));
    assert_eq!(Command::parse("test"), Some(Command::Test));
    assert_eq!(Command::parse("deploy"), Some(Command::Deploy));
    assert_eq!(Command::parse("version"), Some(Command::Version));
    assert_eq!(Command::parse("--version"), Some(Command::Version));
    assert_eq!(Command::parse("-v"), Some(Command::Version));
    assert_eq!(Command::parse("help"), Some(Command::Help));
    assert_eq!(Command::parse("--help"), Some(Command::Help));
    assert_eq!(Command::parse("-h"), Some(Command::Help));
}

#[test]
fn parse_matches_names_exactly() {
    for token in [
        "", "foo", "BUILD", "Test", " deploy", "deploy ", "versio", "versions", "---version",
        "-v ", "-vv", "-H", "--Help", "helpme", "build\ttest", "test\n",
    ] {
        assert_eq!(Command::parse(token), None, "token {:?}", token);
    }
}

#[test]
fn build_text_is_exact() {
    assert_eq!(
        Command::Build.render(),
        "Building OMEGA project...\n\u{2705} Build completed successfully\n"
    );
    assert_eq!(Command::Build.render(), BUILD_TEXT);
}

#[test]
fn test_text_is_exact() {
    assert_eq!(
        Command::Test.render(),
        "Running OMEGA tests...\n\u{2705} All tests passed\n"
    );
    assert_eq!(Command::Test.render(), TEST_TEXT);
}

#[test]
fn deploy_text_is_exact() {
    assert_eq!(
        Command::Deploy.render(),
        "Deploying OMEGA contracts...\n\u{2705} Deployment completed\n"
    );
    assert_eq!(Command::Deploy.render(), DEPLOY_TEXT);
}

#[test]
fn version_text_is_exact() {
    assert_eq!(
        Command::Version.render(),
        "OMEGA Compiler v1.1.0\nBlockchain targets: EVM \u{2705}, Solana \u{2705}\n"
    );
    assert_eq!(Command::Version.render(), VERSION_TEXT);
}

#[test]
fn help_text_is_exact_line_by_line() {
    let expected = [
        "OMEGA Compiler - Universal Blockchain Programming Language",
        "",
        "USAGE:",
        "    omega <COMMAND> [OPTIONS]",
        "",
        "COMMANDS:",
        "    build      Build OMEGA project",
        "    test       Run test suite",
        "    deploy     Deploy contracts to blockchain",
        "    version    Show version information",
        "    help       Show this help message",
        "",
        "EXAMPLES:",
        "    omega build",
        "    omega test",
        "    omega deploy --target evm --network sepolia",
        "",
        "For more information, visit: https://github.com/Rafael2022-prog/omega-lang",
    ];
    let text = Command::Help.render();
    assert_eq!(text, HELP_TEXT);
    assert!(text.ends_with('\n'));
    let lines: Vec<&str> = text.lines().collect();
    assert_eq!(lines, expected);
    assert_eq!(text.len(), expected.iter().map(|line| line.len() + 1).sum::<usize>());
}

#[test]
fn every_text_ends_its_last_line() {
    for command in ALL {
        assert!(command.render().ends_with('\n'), "{:?}", command);
        assert!(!command.render().contains('\r'), "{:?}", command);
    }
}

#[test]
fn no_name_selects_two_commands() {
    let names = [
        "build", "test", "deploy", "version", "--version", "-v", "help", "--help", "-h",
    ];
    for (i, a) in names.iter().enumerate() {
        for (j, b) in names.iter().enumerate() {
            if i != j {
                assert_ne!(a, b);
            }
        }
        let owners = ALL.iter().filter(|command| Command::parse(a) == Some(**command)).count();
        assert_eq!(owners, 1, "name {:?}", a);
    }
}
