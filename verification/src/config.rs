//! The build-tool subcommands that a compile run consists of.

use vstd::prelude::*;

verus! {

/// The two steps that are run when no subcommand is configured: a build,
/// then a test.
pub open spec fn default_commands() -> Seq<Seq<char>> {
    seq!["build"@, "test"@]
}

/// The steps of a compile run for the configured subcommands `args`: the
/// subcommands themselves, or the default sequence when there are none.
pub open spec fn commands_of(args: Seq<Seq<char>>) -> Seq<Seq<char>> {
    if args.len() > 0 {
        args
    } else {
        default_commands()
    }
}

/// The usage text against which the command line is matched.
pub const USAGE: &'static str = "
Usage: cargo-watch [watch] [options]
       cargo watch [options]
       cargo-watch [watch] [<args>...]
       cargo watch [<args>...]

Options:
  -h, --help      Display this message

`cargo watch` can take one or more arguments to pass to cargo. For example,
`cargo watch \"test ex_ --release\"` will run `cargo test ex_ --release`

If no arguments are provided, then cargo will run `build` and `test`
";

/// The key under which the usage text collects the subcommands.
pub const ARGS_KEY: &'static str = "<args>";

#[verifier::external_type_specification]
#[verifier::external_body]
pub struct ExDocoptError(docopt::Error);

/// The values that docopt collects under `key` when it matches the command
/// line `argv`, program name first, against the usage text `usage`; `None`
/// where docopt reports an error, a request for help included.
pub uninterp spec fn docopt_values(usage: Seq<char>, argv: Seq<Seq<char>>, key: Seq<char>) -> Option<Seq<Seq<char>>>;

/// Builds a parser with `docopt::Docopt::new`, hands it `argv` and runs
/// `docopt::Docopt::parse`; on a match the values under `key` are read with
/// `docopt::ArgvMap::get_vec`. The contract only names the result: docopt
/// works on the texts alone, so equal texts give equal results. Only
/// `USAGE` is admitted as the usage text: docopt is not known to take every
/// text without a panic.
#[verifier::external_body]
fn docopt_parse(usage: &str, argv: &Vec<String>, key: &str) -> (parsed: Result<Vec<String>, docopt::Error>)
    requires
        usage@ == USAGE@,
    ensures
        parsed is Ok ==> docopt_values(usage@, argv.deep_view(), key@) == Some(
            parsed->Ok_0.deep_view(),
        ),
        parsed is Err ==> docopt_values(usage@, argv.deep_view(), key@) is None,
{
    let matched = match docopt::Docopt::new(usage) {
        Ok(parser) => parser.argv(argv).parse(),
        Err(e) => Err(e),
    };
    match matched {
        Ok(map) => Ok(map.get_vec(key).into_iter().map(String::from).collect()),
        Err(e) => Err(e),
    }
}

/// Asks `docopt::Error::fatal` whether the error is a failure rather than a
/// request for help. Nothing is claimed of the answer.
#[verifier::external_body]
fn docopt_fatal(e: &docopt::Error) -> (fatal: bool)
{
    e.fatal()
}

/// The text that docopt's `Display` impl for `docopt::Error` prints.
/// Nothing is claimed of the text.
#[verifier::external_body]
fn docopt_message(e: &docopt::Error) -> (message: String)
{
    e.to_string()
}

/// Why a command line gave no configuration.
pub struct ArgsError {
    /// Whether the command line was wrong; `false` where it asked for help.
    pub fatal: bool,
    /// What is to be shown to the user.
    pub message: String,
}

/// The exit status after a command line that gave no configuration.
pub open spec fn status_of(fatal: bool) -> int {
    if fatal {
        1
    } else {
        0
    }
}

impl ArgsError {
    /// The exit status with which the process ends: 1 after a wrong
    /// command line, 0 after a request for help.
    pub fn exit_code(&self) -> (code: i32)
        ensures
            code == status_of(self.fatal),
    {
        if self.fatal {
            1
        } else {
            0
        }
    }
}

/// The configured subcommands; never changed once made.
#[derive(Clone)]
pub struct Config {
    args: Vec<String>,
}

impl View for Config {
    type V = Seq<Seq<char>>;

    closed spec fn view(&self) -> Seq<Seq<char>> {
        self.args.deep_view()
    }
}

/// A copy of `items`, string by string.
fn copy_strings(items: &Vec<String>) -> (copy: Vec<String>)
    ensures
        copy.deep_view() == items.deep_view(),
{
    let mut copy: Vec<String> = Vec::new();
    let mut i: usize = 0;
    while i < items.len()
        invariant
            i <= items.len(),
            copy.len() == i,
            forall|k: int| 0 <= k < i ==> copy@[k]@ == items@[k]@,
        decreases items.len() - i,
    {
        copy.push(items[i].clone());
        i += 1;
    }
    assert(copy.deep_view() =~= items.deep_view());
    copy
}

impl Config {
    /// The configuration that the command line `argv` asks for, program
    /// name first: the subcommands that docopt collects when it matches
    /// `argv` against `USAGE`. Where docopt reports an error there is no
    /// configuration.
    pub fn new(argv: &Vec<String>) -> (parsed: Result<Config, ArgsError>)
        ensures
            parsed is Ok ==> docopt_values(USAGE@, argv.deep_view(), ARGS_KEY@) == Some(
                parsed->Ok_0@,
            ),
            parsed is Err ==> docopt_values(USAGE@, argv.deep_view(), ARGS_KEY@) is None,
    {
        match docopt_parse(USAGE, argv, ARGS_KEY) {
            Ok(args) => Ok(Config::from_args(args)),
            Err(e) => Err(ArgsError { fatal: docopt_fatal(&e), message: docopt_message(&e) }),
        }
    }

    /// A configuration that runs `args`, one subcommand after the other.
    pub fn from_args(args: Vec<String>) -> (config: Config)
        ensures
            config@ == args.deep_view(),
    {
        Config { args }
    }

    /// The configured subcommands, as given.
    pub fn args(&self) -> (args: &Vec<String>)
        ensures
            args.deep_view() == self@,
    {
        &self.args
    }

    /// The steps of a compile run, in the order in which they are run.
    pub fn commands(&self) -> (steps: Vec<String>)
        ensures
            steps.deep_view() == commands_of(self@),
    {
        if self.args.len() > 0 {
            copy_strings(&self.args)
        } else {
            let mut steps: Vec<String> = Vec::new();
            steps.push("build".to_owned());
            steps.push("test".to_owned());
            assert(steps.deep_view() =~= default_commands());
            steps
        }
    }
}

/// With no subcommand configured a run has exactly two steps: first a
/// build, then a test.
pub proof fn lemma_default_sequence(args: Seq<Seq<char>>)
    requires
        args.len() == 0,
    ensures
        commands_of(args).len() == 2,
        commands_of(args)[0] == "build"@,
        commands_of(args)[1] == "test"@,
{
}

} // verus!
