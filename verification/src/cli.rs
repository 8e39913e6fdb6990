//! The command line: the flags that the program declares, and the request
//! that a parsed command line gives.

use vstd::prelude::*;
use vstd::string::StringExecFns;
use clap::{Arg, Command};
use crate::document::optional_text;
use crate::todos::Todos;

verus! {

/// A flag whose value is a number from `first` to `last`: its long name,
/// its one-letter name, and whether the command line must hold it.
struct NumberFlag {
    long: &'static str,
    short: char,
    required: bool,
    first: i64,
    last: i64,
}

/// A flag whose value is a text.
struct TextFlag {
    long: &'static str,
    short: char,
    required: bool,
}

/// A program: its name, its version, and what it is for.
struct Program {
    name: &'static str,
    version: &'static str,
    about: &'static str,
}

/// Whether these are the program and its three flags: `--year` or `-y`, a
/// required year; `--month` or `-m`, a required month from 1 to 12; `--path`
/// or `-p`, a directory that may be left out.
spec fn is_declared(program: Program, year: NumberFlag, month: NumberFlag, path: TextFlag) -> bool {
    &&& program.name@ == "todos-cli"@
    &&& program.version@ == "0.1.0"@
    &&& program.about@ == "This CLI creates a TODO file for a given month."@
    &&& year.long@ == "year"@
    &&& year.short == 'y'
    &&& year.required
    &&& year.first == i32::MIN
    &&& year.last == i32::MAX
    &&& month.long@ == "month"@
    &&& month.short == 'm'
    &&& month.required
    &&& month.first == 1
    &&& month.last == 12
    &&& path.long@ == "path"@
    &&& path.short == 'p'
    &&& !path.required
}

/// Why a command line gave no request: the message for the user, and the
/// status that the program ends with, 0 after a request for help or for the
/// version and 2 after a mistake.
pub struct UsageError {
    pub message: String,
    pub exit_code: i32,
}

/// What clap makes of a command line under the program's flags: nothing
/// where it refuses the command line or answers a request for help or for
/// the version; else the value that it found for the year, for the month and
/// for the directory, each absent where the command line holds no such flag.
pub uninterp spec fn clap_outcome(arguments: Seq<Seq<char>>) -> Option<
    (Option<int>, Option<int>, Option<Seq<char>>),
>;

/// The text of each word of a command line.
pub open spec fn words_view(words: Seq<String>) -> Seq<Seq<char>> {
    words.map_values(|word: String| word@)
}

/// A number that may be absent, as an integer.
pub open spec fn optional_number(number: Option<i64>) -> Option<int> {
    match number {
        Some(n) => Some(n as int),
        None => None,
    }
}

/// Declares the command line to clap and parses `arguments` with it: a
/// `Command` with the name, version and description of `program`, an `Arg`
/// for each flag, the two numbers with a value parser over their range,
/// `Command::try_get_matches_from`, which takes the first word for the
/// program's name, and `ArgMatches::remove_one` for the value of each flag.
/// The contract is for the program's own flags, whose declaration clap
/// accepts and whose names and value types are the ones asked for
/// afterwards. With them clap's answer depends on the words alone, so it has
/// a name. A failure carries the text of clap's error and its `exit_code`,
/// which clap documents as 0 or 2.
#[verifier::external_body]
fn clap_parse(
    program: &Program,
    year: &NumberFlag,
    month: &NumberFlag,
    path: &TextFlag,
    arguments: &Vec<String>,
) -> (values: Result<(Option<i64>, Option<i64>, Option<String>), UsageError>)
    requires
        is_declared(*program, *year, *month, *path),
    ensures
        values matches Ok(found) ==> clap_outcome(words_view(arguments@)) == Some(
            (optional_number(found.0), optional_number(found.1), optional_text(found.2)),
        ),
        values is Err ==> clap_outcome(words_view(arguments@)).is_none(),
        values matches Err(error) ==> error.exit_code == 0 || error.exit_code == 2,
{
    let numbers = [year, month].map(|flag| {
        Arg::new(flag.long).long(flag.long).short(flag.short).required(flag.required)
            .value_parser(flag.first..=flag.last)
    });
    let text = Arg::new(path.long).long(path.long).short(path.short).required(path.required);
    let command = Command::new(program.name).version(program.version).about(program.about);
    let mut found = command.args(numbers).arg(text).try_get_matches_from(arguments)
        .map_err(|error| UsageError { message: error.to_string(), exit_code: error.exit_code() })?;
    Ok((found.remove_one(year.long), found.remove_one(month.long), found.remove_one(path.long)))
}

/// What a command line asks for: the year, the month from 1 to 12, and the
/// directory for the file, if one was named.
pub struct Args {
    pub year: i32,
    pub month: u32,
    pub path: Option<String>,
}

impl Args {
    /// The request that the values of the three flags give. There is one
    /// where the year is there and fits 32 bits, and the month is there and
    /// is from 1 to 12.
    pub fn from_values(year: Option<i64>, month: Option<i64>, path: Option<String>) -> (args:
        Option<Args>)
        ensures
            args.is_some() <==> {
                &&& year matches Some(y) && i32::MIN <= y <= i32::MAX
                &&& month matches Some(m) && 1 <= m <= 12
            },
            args matches Some(a) ==> {
                &&& year == Some(a.year as i64)
                &&& month == Some(a.month as i64)
                &&& a.path == path
            },
    {
        match (year, month) {
            (Some(y), Some(m)) => {
                if -2147483648 <= y && y <= 2147483647 && 1 <= m && m <= 12 {
                    Some(Args { year: y as i32, month: m as u32, path })
                } else {
                    None
                }
            },
            _ => None,
        }
    }

    /// The request for the month that the command line asks for.
    pub fn into_todos(self) -> (todos: Todos)
        ensures
            todos.year == self.year,
            todos.month == self.month,
            todos.path == self.path,
    {
        Todos::new(self.year, self.month, self.path)
    }
}

/// Whether the values that clap found give a request: a year that fits 32
/// bits and a month from 1 to 12.
pub open spec fn gives_request(
    outcome: Option<(Option<int>, Option<int>, Option<Seq<char>>)>,
) -> bool {
    outcome matches Some((Some(year), Some(month), _)) && i32::MIN <= year <= i32::MAX && 1
        <= month <= 12
}

/// Parses a command line, the program's name first: `--year` or `-y` and
/// `--month` or `-m` with a number each, and `--path` or `-p` with a
/// directory, which may be left out. The command line is accepted where clap
/// finds a year of 32 bits and a month from 1 to 12 in it, and the request
/// holds what clap found. What is refused ends the program with status 2, or
/// with 0 where the command line asked for help or for the version.
pub fn parse_args(arguments: &Vec<String>) -> (parsed: Result<Args, UsageError>)
    ensures
        parsed.is_ok() <==> gives_request(clap_outcome(words_view(arguments@))),
        parsed matches Ok(args) ==> clap_outcome(words_view(arguments@)) == Some(
            (Some(args.year as int), Some(args.month as int), optional_text(args.path)),
        ),
        parsed matches Err(error) ==> error.exit_code == 0 || error.exit_code == 2,
{
    let program = Program {
        name: "todos-cli",
        version: "0.1.0",
        about: "This CLI creates a TODO file for a given month.",
    };
    let year = NumberFlag {
        long: "year",
        short: 'y',
        required: true,
        first: -2147483648,
        last: 2147483647,
    };
    let month = NumberFlag { long: "month", short: 'm', required: true, first: 1, last: 12 };
    let path = TextFlag { long: "path", short: 'p', required: false };
    match clap_parse(&program, &year, &month, &path, arguments) {
        Ok((year, month, path)) => match Args::from_values(year, month, path) {
            Some(args) => Ok(args),
            None => Err(
                UsageError {
                    message: String::from_str(
                        "error: the year or the month is not a number in its range\n",
                    ),
                    exit_code: 2,
                },
            ),
        },
        Err(error) => Err(error),
    }
}

} // verus!
