use gitstatus::changes::UntrackedPolicy;
use gitstatus::cli::{
    parse_args, parse_untracked_value, resolve_untracked_policy, ArgError, Args, Invocation,
    UntrackedArg,
};

fn argv(words: &[&str]) -> Vec<String> {
    words.iter().map(|w| w.to_string()).collect()
}

fn defaults() -> Args {
    Args {
        path: ".".to_string(),
        verbose: false,
        untracked: None,
        all: false,
        no_staged: false,
        direct_upstream: false,
    }
}

#[test]
fn empty_command_line_runs_with_defaults() {
    assert_eq!(parse_args(&argv(&[])), Invocation::Run(defaults()));
}

#[test]
fn every_switch_is_read() {
    let parsed = parse_args(&argv(&["-v", "--all", "-S", "-U", "-u", "normal", "-p", "/repo"]));
    let expected = Args {
        path: "/repo".to_string(),
        verbose: true,
        untracked: Some(UntrackedArg::Normal),
        all: true,
        no_staged: true,
        direct_upstream: true,
    };
    assert_eq!(parsed, Invocation::Run(expected));
    let long = parse_args(&argv(&[
        "--verbose",
        "--no-staged",
        "--direct-upstream",
        "--untracked",
        "all",
        "--path",
        "dir",
    ]));
    let expected_long = Args {
        path: "dir".to_string(),
        verbose: true,
        untracked: Some(UntrackedArg::All),
        all: false,
        no_staged: true,
        direct_upstream: true,
    };
    assert_eq!(long, Invocation::Run(expected_long));
}

#[test]
fn positional_argument_is_the_path_and_the_last_one_counts() {
    let parsed = parse_args(&argv(&["first", "-v", "second"]));
    assert_eq!(parsed, Invocation::Run(Args { path: "second".to_string(), verbose: true, ..defaults() }));
    let empty = parse_args(&argv(&[""]));
    assert_eq!(empty, Invocation::Run(Args { path: String::new(), ..defaults() }));
}

#[test]
fn path_option_takes_the_next_argument_whatever_it_is() {
    let parsed = parse_args(&argv(&["-p", "--version"]));
    assert_eq!(parsed, Invocation::Run(Args { path: "--version".to_string(), ..defaults() }));
}

#[test]
fn version_and_help_stop_the_reading() {
    assert_eq!(parse_args(&argv(&["--version", "--bogus"])), Invocation::ShowVersion);
    assert_eq!(parse_args(&argv(&["-h", "--bogus"])), Invocation::ShowHelp);
    assert_eq!(parse_args(&argv(&["-v", "--help"])), Invocation::ShowHelp);
    assert_eq!(parse_args(&argv(&["--bogus", "--version"])), Invocation::Reject(ArgError::UnknownOption("--bogus".to_string())));
}

#[test]
fn each_error_has_its_input() {
    assert_eq!(parse_args(&argv(&["-p"])), Invocation::Reject(ArgError::MissingPathValue));
    assert_eq!(parse_args(&argv(&["-v", "--path"])), Invocation::Reject(ArgError::MissingPathValue));
    assert_eq!(parse_args(&argv(&["-u"])), Invocation::Reject(ArgError::MissingUntrackedValue));
    assert_eq!(parse_args(&argv(&["--untracked"])), Invocation::Reject(ArgError::MissingUntrackedValue));
    assert_eq!(
        parse_args(&argv(&["-u", "some"])),
        Invocation::Reject(ArgError::InvalidUntrackedValue("some".to_string()))
    );
    assert_eq!(
        parse_args(&argv(&["-x"])),
        Invocation::Reject(ArgError::UnknownOption("-x".to_string()))
    );
    assert_eq!(
        parse_args(&argv(&["-"])),
        Invocation::Reject(ArgError::UnknownOption("-".to_string()))
    );
}

#[test]
fn untracked_values() {
    assert_eq!(parse_untracked_value("no"), Some(UntrackedArg::No));
    assert_eq!(parse_untracked_value("normal"), Some(UntrackedArg::Normal));
    assert_eq!(parse_untracked_value("all"), Some(UntrackedArg::All));
    assert_eq!(parse_untracked_value("All"), None);
    assert_eq!(parse_untracked_value(""), None);
}

#[test]
fn untracked_policy_precedence_for_every_combination() {
    let table = [
        (None, false, UntrackedPolicy::Exclude),
        (None, true, UntrackedPolicy::Enumerate),
        (Some(UntrackedArg::No), false, UntrackedPolicy::Exclude),
        (Some(UntrackedArg::No), true, UntrackedPolicy::Exclude),
        (Some(UntrackedArg::Normal), false, UntrackedPolicy::Collapse),
        (Some(UntrackedArg::Normal), true, UntrackedPolicy::Collapse),
        (Some(UntrackedArg::All), false, UntrackedPolicy::Enumerate),
        (Some(UntrackedArg::All), true, UntrackedPolicy::Enumerate),
    ];
    for (untracked, all, expected) in table {
        assert_eq!(resolve_untracked_policy(untracked, all), expected);
    }
}
