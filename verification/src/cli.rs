//! The command line, as a list of arguments already taken from the process.

use vstd::prelude::*;
use crate::changes::UntrackedPolicy;
use crate::text::{chars_of, range_equals};

verus! {

/// The value of the option for unknown files.
#[derive(Clone, Copy, Debug, PartialEq, Eq, Structural)]
pub enum UntrackedArg {
    /// `no`
    No,
    /// `normal`
    Normal,
    /// `all`
    All,
}

/// The policy for unknown files that the command line asks for. The option
/// decides where it is given; without it the flag for everything decides;
/// without either, unknown files are excluded.
pub open spec fn untracked_policy(untracked: Option<UntrackedArg>, all: bool) -> UntrackedPolicy {
    match (untracked, all) {
        (Some(UntrackedArg::No), _) => UntrackedPolicy::Exclude,
        (Some(UntrackedArg::Normal), _) => UntrackedPolicy::Collapse,
        (Some(UntrackedArg::All), _) => UntrackedPolicy::Enumerate,
        (None, true) => UntrackedPolicy::Enumerate,
        (None, false) => UntrackedPolicy::Exclude,
    }
}

/// The policy for unknown files that the command line asks for.
pub fn resolve_untracked_policy(untracked: Option<UntrackedArg>, all: bool) -> (policy:
    UntrackedPolicy)
    ensures
        policy == untracked_policy(untracked, all),
{
    match (untracked, all) {
        (Some(UntrackedArg::No), _) => UntrackedPolicy::Exclude,
        (Some(UntrackedArg::Normal), _) => UntrackedPolicy::Collapse,
        (Some(UntrackedArg::All), _) => UntrackedPolicy::Enumerate,
        (None, true) => UntrackedPolicy::Enumerate,
        (None, false) => UntrackedPolicy::Exclude,
    }
}

/// What a command line asks for.
#[derive(Clone, Debug, PartialEq, Eq)]
pub struct Args {
    pub path: String,
    pub verbose: bool,
    pub untracked: Option<UntrackedArg>,
    pub all: bool,
    pub no_staged: bool,
    pub direct_upstream: bool,
}

/// The mathematical content of [`Args`].
pub struct ArgsModel {
    pub path: Seq<char>,
    pub verbose: bool,
    pub untracked: Option<UntrackedArg>,
    pub all: bool,
    pub no_staged: bool,
    pub direct_upstream: bool,
}

impl ArgsModel {
    /// What an empty command line asks for: the current directory, and
    /// nothing switched on.
    pub open spec fn start() -> ArgsModel {
        ArgsModel {
            path: "."@,
            verbose: false,
            untracked: None,
            all: false,
            no_staged: false,
            direct_upstream: false,
        }
    }
}

impl View for Args {
    type V = ArgsModel;

    open spec fn view(&self) -> ArgsModel {
        ArgsModel {
            path: self.path@,
            verbose: self.verbose,
            untracked: self.untracked,
            all: self.all,
            no_staged: self.no_staged,
            direct_upstream: self.direct_upstream,
        }
    }
}

/// What is wrong with a command line.
#[derive(Clone, Debug, PartialEq, Eq)]
pub enum ArgError {
    /// The option for the path is the last argument.
    MissingPathValue,
    /// The option for unknown files is the last argument.
    MissingUntrackedValue,
    /// The option for unknown files has this value, which is none of `no`,
    /// `normal` and `all`.
    InvalidUntrackedValue(String),
    /// This argument starts with a dash and is no known option.
    UnknownOption(String),
}

/// The mathematical content of an [`ArgError`].
pub enum ArgErrorModel {
    MissingPathValue,
    MissingUntrackedValue,
    InvalidUntrackedValue(Seq<char>),
    UnknownOption(Seq<char>),
}

impl View for ArgError {
    type V = ArgErrorModel;

    open spec fn view(&self) -> ArgErrorModel {
        match self {
            ArgError::MissingPathValue => ArgErrorModel::MissingPathValue,
            ArgError::MissingUntrackedValue => ArgErrorModel::MissingUntrackedValue,
            ArgError::InvalidUntrackedValue(value) => ArgErrorModel::InvalidUntrackedValue(value@),
            ArgError::UnknownOption(option) => ArgErrorModel::UnknownOption(option@),
        }
    }
}

/// What to do for a command line.
#[derive(Clone, Debug, PartialEq, Eq)]
pub enum Invocation {
    /// Report the status as these arguments ask.
    Run(Args),
    /// Print the version and stop.
    ShowVersion,
    /// Print the usage and stop.
    ShowHelp,
    /// Refuse the command line.
    Reject(ArgError),
}

/// The mathematical content of an [`Invocation`].
pub enum InvocationModel {
    Run(ArgsModel),
    ShowVersion,
    ShowHelp,
    Reject(ArgErrorModel),
}

impl View for Invocation {
    type V = InvocationModel;

    open spec fn view(&self) -> InvocationModel {
        match self {
            Invocation::Run(args) => InvocationModel::Run(args@),
            Invocation::ShowVersion => InvocationModel::ShowVersion,
            Invocation::ShowHelp => InvocationModel::ShowHelp,
            Invocation::Reject(error) => InvocationModel::Reject(error@),
        }
    }
}

/// The value that the option for unknown files names, if it names one.
pub open spec fn untracked_value(value: Seq<char>) -> Option<UntrackedArg> {
    if value == "no"@ {
        Some(UntrackedArg::No)
    } else if value == "normal"@ {
        Some(UntrackedArg::Normal)
    } else if value == "all"@ {
        Some(UntrackedArg::All)
    } else {
        None
    }
}

/// What the arguments from `at` on ask for, after those before `at` have
/// asked for `so_far`. The arguments are read from left to right. An option
/// with a value takes the next argument as its value, whatever that looks
/// like. The first argument that asks for the version or the usage, or that
/// is wrong, decides, and what follows it is not read. An argument that
/// does not start with a dash is the path; where several name the path, the
/// last one counts.
pub open spec fn parse_from(argv: Seq<Seq<char>>, at: int, so_far: ArgsModel) -> InvocationModel
    decreases argv.len() - at,
{
    if at < 0 || at >= argv.len() {
        InvocationModel::Run(so_far)
    } else {
        let arg = argv[at];
        if arg == "--version"@ {
            InvocationModel::ShowVersion
        } else if arg == "-p"@ || arg == "--path"@ {
            if at + 1 < argv.len() {
                parse_from(argv, at + 2, ArgsModel { path: argv[at + 1], ..so_far })
            } else {
                InvocationModel::Reject(ArgErrorModel::MissingPathValue)
            }
        } else if arg == "-v"@ || arg == "--verbose"@ {
            parse_from(argv, at + 1, ArgsModel { verbose: true, ..so_far })
        } else if arg == "-u"@ || arg == "--untracked"@ {
            if at + 1 < argv.len() {
                match untracked_value(argv[at + 1]) {
                    Some(value) => parse_from(
                        argv,
                        at + 2,
                        ArgsModel { untracked: Some(value), ..so_far },
                    ),
                    None => InvocationModel::Reject(
                        ArgErrorModel::InvalidUntrackedValue(argv[at + 1]),
                    ),
                }
            } else {
                InvocationModel::Reject(ArgErrorModel::MissingUntrackedValue)
            }
        } else if arg == "--all"@ {
            parse_from(argv, at + 1, ArgsModel { all: true, ..so_far })
        } else if arg == "-S"@ || arg == "--no-staged"@ {
            parse_from(argv, at + 1, ArgsModel { no_staged: true, ..so_far })
        } else if arg == "-U"@ || arg == "--direct-upstream"@ {
            parse_from(argv, at + 1, ArgsModel { direct_upstream: true, ..so_far })
        } else if arg == "-h"@ || arg == "--help"@ {
            InvocationModel::ShowHelp
        } else if arg.len() > 0 && arg[0] == '-' {
            InvocationModel::Reject(ArgErrorModel::UnknownOption(arg))
        } else {
            parse_from(argv, at + 1, ArgsModel { path: arg, ..so_far })
        }
    }
}

/// What a whole command line asks for, without the name of the program.
pub open spec fn parse(argv: Seq<Seq<char>>) -> InvocationModel {
    parse_from(argv, 0, ArgsModel::start())
}

/// The arguments as character sequences.
pub open spec fn argv_view(argv: Seq<String>) -> Seq<Seq<char>> {
    argv.map_values(|arg: String| arg@)
}

/// Whether the characters `arg` spell `word`.
fn spells(arg: &Vec<char>, word: &str) -> (same: bool)
    ensures
        same == (arg@ == word@),
{
    let letters = chars_of(word);
    assert(arg@.subrange(0, arg@.len() as int) == arg@);
    range_equals(arg, 0, arg.len(), &letters)
}

/// The value that the option for unknown files names, if it names one.
pub fn parse_untracked_value(value: &str) -> (parsed: Option<UntrackedArg>)
    ensures
        parsed == untracked_value(value@),
{
    let letters = chars_of(value);
    if spells(&letters, "no") {
        Some(UntrackedArg::No)
    } else if spells(&letters, "normal") {
        Some(UntrackedArg::Normal)
    } else if spells(&letters, "all") {
        Some(UntrackedArg::All)
    } else {
        None
    }
}

/// What the command line `argv` asks for. `argv` holds the arguments
/// without the name of the program.
pub fn parse_args(argv: &Vec<String>) -> (invocation: Invocation)
    ensures
        invocation@ == parse(argv_view(argv@)),
{
    let ghost model = argv_view(argv@);
    let mut args = Args {
        path: ".".to_string(),
        verbose: false,
        untracked: None,
        all: false,
        no_staged: false,
        direct_upstream: false,
    };
    let mut at: usize = 0;
    while at < argv.len()
        invariant
            at <= argv.len(),
            model == argv_view(argv@),
            parse_from(model, at as int, args@) == parse(model),
        decreases argv.len() - at,
    {
        let arg = chars_of(argv[at].as_str());
        assert(model[at as int] == arg@);
        if spells(&arg, "--version") {
            return Invocation::ShowVersion;
        } else if spells(&arg, "-p") || spells(&arg, "--path") {
            if at + 1 < argv.len() {
                assert(model[at + 1] == argv@[at + 1]@);
                args.path = argv[at + 1].clone();
                at += 2;
            } else {
                return Invocation::Reject(ArgError::MissingPathValue);
            }
        } else if spells(&arg, "-v") || spells(&arg, "--verbose") {
            args.verbose = true;
            at += 1;
        } else if spells(&arg, "-u") || spells(&arg, "--untracked") {
            if at + 1 < argv.len() {
                assert(model[at + 1] == argv@[at + 1]@);
                match parse_untracked_value(argv[at + 1].as_str()) {
                    Some(value) => {
                        args.untracked = Some(value);
                        at += 2;
                    },
                    None => {
                        return Invocation::Reject(
                            ArgError::InvalidUntrackedValue(argv[at + 1].clone()),
                        );
                    },
                }
            } else {
                return Invocation::Reject(ArgError::MissingUntrackedValue);
            }
        } else if spells(&arg, "--all") {
            args.all = true;
            at += 1;
        } else if spells(&arg, "-S") || spells(&arg, "--no-staged") {
            args.no_staged = true;
            at += 1;
        } else if spells(&arg, "-U") || spells(&arg, "--direct-upstream") {
            args.direct_upstream = true;
            at += 1;
        } else if spells(&arg, "-h") || spells(&arg, "--help") {
            return Invocation::ShowHelp;
        } else if arg.len() > 0 && arg[0] == '-' {
            return Invocation::Reject(ArgError::UnknownOption(argv[at].clone()));
        } else {
            args.path = argv[at].clone();
            at += 1;
        }
    }
    Invocation::Run(args)
}

} // verus!
