use crate::json::codec::{decode, decode_error_text, decoded};
use crate::text::{
    blank, decimal, decimal_string, is_blank, parse_u64, str_eq, strip_prefix, stripped, text_of,
    unsigned_decimal,
};
use vstd::prelude::*;

verus! {

/// The delay between two lines where the arguments name none, in
/// milliseconds.
pub const DEFAULT_DELAY_MS: u64 = 20;

/// What the stand-in prints for `--version`: a version that the runtime
/// accepts, and a note that it is a stand-in.
pub const VERSION: &'static str = "2.0.0 (Mock Backend)";

/// What the stand-in prints for `--help`.
pub const HELP_TEXT: &'static str =
    "mock_cli - a stand-in for the backend\n\nUSAGE:\n    mock_cli [OPTIONS]\n\nOPTIONS:\n    --fixture=<PATH>     Path to the file of lines (required)\n    --delay=<MS>         Delay between lines in milliseconds (default: 20)\n    --version            Print version and exit\n    --help               Print this help text and exit\n";

/// The arguments of a replay: the file of lines, and the delay between two
/// lines in milliseconds.
#[derive(Debug)]
pub struct CliArgs {
    pub fixture_path: Option<String>,
    pub delay_ms: u64,
}

/// What the arguments of the stand-in ask for.
#[derive(Debug)]
pub enum Invocation {
    /// Print the version and exit.
    Version,
    /// Print the help text and exit.
    Help,
    /// Replay a file of lines.
    Replay(CliArgs),
}

/// The arguments of a replay as mathematical values.
pub struct ReplayModel {
    pub fixture_path: Option<Seq<char>>,
    pub delay_ms: u64,
}

/// What the arguments ask for, as a mathematical value.
pub enum InvocationModel {
    Version,
    Help,
    Replay(ReplayModel),
}

impl View for CliArgs {
    type V = ReplayModel;

    open spec fn view(&self) -> ReplayModel {
        ReplayModel { fixture_path: text_of(self.fixture_path), delay_ms: self.delay_ms }
    }
}

impl View for Invocation {
    type V = InvocationModel;

    open spec fn view(&self) -> InvocationModel {
        match self {
            Invocation::Version => InvocationModel::Version,
            Invocation::Help => InvocationModel::Help,
            Invocation::Replay(args) => InvocationModel::Replay(args@),
        }
    }
}

/// What one argument means.
pub enum ArgMeaning {
    /// `--version`.
    Version,
    /// `--help`.
    Help,
    /// `--fixture=` and a path.
    Fixture(Seq<char>),
    /// `--delay=` and a number of milliseconds.
    Delay(u64),
    /// An argument of the backend that the stand-in passes over.
    Ignored,
    /// An argument that is refused, with the message that says so.
    Refused(Seq<char>),
}

/// The meaning of one argument. A delay must be a decimal number that fits
/// in 64 bits. `--output-format=` and `--model=`, with any value, are passed
/// over. Anything else is refused.
pub open spec fn meaning(arg: Seq<char>) -> ArgMeaning {
    if arg == "--version"@ {
        ArgMeaning::Version
    } else if arg == "--help"@ {
        ArgMeaning::Help
    } else if stripped(arg, "--fixture="@) is Some {
        ArgMeaning::Fixture(stripped(arg, "--fixture="@)->0)
    } else if stripped(arg, "--delay="@) is Some {
        let value = stripped(arg, "--delay="@)->0;
        match unsigned_decimal(value) {
            Some(number) => if number <= u64::MAX {
                ArgMeaning::Delay(number as u64)
            } else {
                ArgMeaning::Refused("Invalid delay value: "@ + value)
            },
            None => ArgMeaning::Refused("Invalid delay value: "@ + value),
        }
    } else if stripped(arg, "--output-format="@) is Some || stripped(arg, "--model="@) is Some {
        ArgMeaning::Ignored
    } else {
        ArgMeaning::Refused("Unknown argument: "@ + arg)
    }
}

/// What a run of arguments asks for, read first to last from the state
/// `so_far`: `--version` and `--help` end the reading at once, and so does an
/// argument that is refused; a later path or delay replaces an earlier one.
pub open spec fn read_from(args: Seq<Seq<char>>, so_far: ReplayModel) -> Result<
    InvocationModel,
    Seq<char>,
>
    decreases args.len(),
{
    if args.len() == 0 {
        Ok(InvocationModel::Replay(so_far))
    } else {
        match meaning(args[0]) {
            ArgMeaning::Version => Ok(InvocationModel::Version),
            ArgMeaning::Help => Ok(InvocationModel::Help),
            ArgMeaning::Fixture(path) => read_from(
                args.drop_first(),
                ReplayModel { fixture_path: Some(path), ..so_far },
            ),
            ArgMeaning::Delay(delay_ms) => read_from(
                args.drop_first(),
                ReplayModel { delay_ms, ..so_far },
            ),
            ArgMeaning::Ignored => read_from(args.drop_first(), so_far),
            ArgMeaning::Refused(message) => Err(message),
        }
    }
}

/// What the arguments of the program ask for; the first of them is the name
/// of the program and does not count.
pub open spec fn invocation_of(args: Seq<Seq<char>>) -> Result<InvocationModel, Seq<char>> {
    read_from(
        if args.len() > 0 {
            args.drop_first()
        } else {
            args
        },
        ReplayModel { fixture_path: None, delay_ms: DEFAULT_DELAY_MS },
    )
}

impl CliArgs {
    /// Reads the arguments of the program.
    pub fn parse(args: &Vec<String>) -> (parsed: Result<Invocation, String>)
        ensures
            match invocation_of(args.deep_view()) {
                Ok(model) => parsed matches Ok(invocation) && invocation@ == model,
                Err(message) => parsed matches Err(text) && text@ == message,
            },
    {
        let mut found = CliArgs { fixture_path: None, delay_ms: DEFAULT_DELAY_MS };
        if args.len() == 0 {
            return Ok(Invocation::Replay(found));
        }
        let mut i: usize = 1;
        proof {
            assert(args.deep_view().skip(1) =~= args.deep_view().drop_first());
        }
        while i < args.len()
            invariant
                1 <= i <= args@.len(),
                invocation_of(args.deep_view()) == read_from(args.deep_view().skip(i as int), found@),
            decreases args@.len() - i,
        {
            proof {
                assert(args.deep_view().skip(i as int).drop_first() =~= args.deep_view().skip(
                    i + 1,
                ));
                assert(args.deep_view().skip(i as int)[0] == args@[i as int]@);
            }
            let arg = args[i].as_str();
            if str_eq(arg, "--version") {
                return Ok(Invocation::Version);
            } else if str_eq(arg, "--help") {
                return Ok(Invocation::Help);
            } else if let Some(path) = strip_prefix(arg, "--fixture=") {
                found = CliArgs { fixture_path: Some(String::from_str(path)), delay_ms: found.delay_ms };
            } else if let Some(value) = strip_prefix(arg, "--delay=") {
                match parse_u64(value) {
                    Some(delay_ms) => {
                        found = CliArgs { fixture_path: found.fixture_path, delay_ms };
                    },
                    None => {
                        return Err(String::from_str("Invalid delay value: ").concat(value));
                    },
                }
            } else if strip_prefix(arg, "--output-format=").is_some() || strip_prefix(
                arg,
                "--model=",
            ).is_some() {
            } else {
                return Err(String::from_str("Unknown argument: ").concat(arg));
            }
            i += 1;
        }
        Ok(Invocation::Replay(found))
    }
}

/// The lines that are replayed: those that are not blank, in their order.
pub open spec fn replayed_lines(lines: Seq<Seq<char>>) -> Seq<Seq<char>> {
    lines.filter(|line: Seq<char>| !is_blank(line))
}

/// The number of the first line that is neither blank nor JSON; the lines
/// count from 1.
pub open spec fn first_invalid(lines: Seq<Seq<char>>) -> Option<nat>
    decreases lines.len(),
{
    if lines.len() == 0 {
        None
    } else {
        match first_invalid(lines.drop_last()) {
            Some(number) => Some(number),
            None => if !is_blank(lines.last()) && decoded(lines.last()) is None {
                Some(lines.len())
            } else {
                None
            },
        }
    }
}

proof fn lemma_invalid_stays(lines: Seq<Seq<char>>, n: int)
    requires
        0 <= n <= lines.len(),
        first_invalid(lines.take(n)) is Some,
    ensures
        first_invalid(lines) == first_invalid(lines.take(n)),
    decreases lines.len() - n,
{
    if n < lines.len() {
        assert(lines.take(n + 1).drop_last() =~= lines.take(n));
        lemma_invalid_stays(lines, n + 1);
    } else {
        assert(lines.take(n) =~= lines);
    }
}

/// Why a file cannot be replayed.
#[derive(Debug)]
pub struct FixtureError {
    /// The number of the line that is no JSON; the lines count from 1.
    pub line: usize,
    /// The refusal: it names the line.
    pub message: String,
    /// What the parser says of the line.
    pub detail: String,
}

/// Checks the lines of a file that is to be replayed: blank lines are passed
/// over, and every other line must be JSON. Returns the lines to replay, in
/// their order; the first line that is no JSON is refused by its number, with
/// what the parser says of it.
pub fn load_fixture(lines: Vec<String>) -> (loaded: Result<Vec<String>, FixtureError>)
    ensures
        match first_invalid(lines.deep_view()) {
            Some(number) => loaded matches Err(error) && error.line == number && error.message@
                == "Invalid JSON at line "@ + decimal(number),
            None => loaded matches Ok(kept) && kept.deep_view() == replayed_lines(lines.deep_view()),
        },
{
    let mut kept: Vec<String> = Vec::new();
    let ghost all = lines.deep_view();
    let mut i: usize = 0;
    proof {
        assert(all.take(0) =~= Seq::<Seq<char>>::empty());
        reveal(Seq::filter);
    }
    while i < lines.len()
        invariant
            i <= lines@.len(),
            all == lines.deep_view(),
            first_invalid(all.take(i as int)) is None,
            kept.deep_view() == replayed_lines(all.take(i as int)),
        decreases lines@.len() - i,
    {
        proof {
            let before = all.take(i as int);
            let after = all.take(i + 1);
            assert(after.drop_last() =~= before);
            assert(after.last() == lines@[i as int]@);
            reveal(Seq::filter);
            assert(replayed_lines(after) == if is_blank(after.last()) {
                replayed_lines(before)
            } else {
                replayed_lines(before).push(after.last())
            });
        }
        let line = lines[i].as_str();
        if !blank(line) {
            match decode(line) {
                Ok(_) => {
                    let ghost before = kept.deep_view();
                    kept.push(String::from_str(line));
                    assert(kept.deep_view() =~= before.push(line@));
                },
                Err(problem) => {
                    proof {
                        lemma_invalid_stays(all, i + 1);
                    }
                    return Err(
                        FixtureError {
                            line: i + 1,
                            message: String::from_str("Invalid JSON at line ").concat(
                                decimal_string((i + 1) as u64).as_str(),
                            ),
                            detail: decode_error_text(&problem),
                        },
                    );
                },
            }
        }
        i += 1;
    }
    proof {
        assert(all.take(lines@.len() as int) =~= all);
    }
    Ok(kept)
}

} // verus!
