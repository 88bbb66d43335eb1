//! The command-line client's decisions: parsing an argument list into a
//! command, reading the server's status codes, and shaping the result table.
//! The network itself stays outside; these functions work on plain values.

use vstd::prelude::*;
use vstd::string::StringExecFns;
use crate::strutil::str_eq;

verus! {

/// The commands the command-line client understands.
#[derive(Debug, PartialEq, Eq, Clone, Copy)]
pub enum Command {
    Upload,
    Remove,
    List,
    Unknown,
}

/// A parsed invocation: the chosen command and the file names after it.
pub struct Config {
    pub command: Command,
    pub file_names: Vec<String>,
}

impl Config {
    /// An empty invocation: no command chosen, no file names.
    pub fn new() -> (c: Self)
        ensures
            c.command is Unknown,
            c.file_names@.len() == 0,
    {
        Self { command: Command::Unknown, file_names: Vec::new() }
    }
}

/// The command a first argument selects; each command has a long and a
/// one-letter form.
pub open spec fn command_of(arg: Seq<char>) -> Command {
    if arg == "upload"@ || arg == "u"@ {
        Command::Upload
    } else if arg == "remove"@ || arg == "r"@ {
        Command::Remove
    } else if arg == "list"@ || arg == "l"@ {
        Command::List
    } else {
        Command::Unknown
    }
}

/// Parses an argument list, the program name first, into an invocation: the
/// second argument selects the command and everything after it is a file
/// name.
pub fn parse_args(args: &Vec<String>) -> (c: Config)
    ensures
        args@.len() <= 1 ==> c.command is Unknown && c.file_names@.len() == 0,
        args@.len() >= 2 ==> c.command == command_of(args@[1]@),
        args@.len() >= 2 ==> c.file_names@.map_values(|s: String| s@) == args@.skip(
            2,
        ).map_values(|s: String| s@),
{
    if args.len() <= 1 {
        return Config::new();
    }
    let a = &args[1];
    let command = if str_eq(a.as_str(), "upload") || str_eq(a.as_str(), "u") {
        Command::Upload
    } else if str_eq(a.as_str(), "remove") || str_eq(a.as_str(), "r") {
        Command::Remove
    } else if str_eq(a.as_str(), "list") || str_eq(a.as_str(), "l") {
        Command::List
    } else {
        Command::Unknown
    };
    let n = args.len();
    let mut file_names: Vec<String> = Vec::new();
    let mut i: usize = 2;
    while i < n
        invariant
            2 <= i <= n,
            n == args@.len(),
            file_names@.len() == i - 2,
            forall|j: int| 0 <= j < i - 2 ==> file_names@[j]@ == args@[j + 2]@,
        decreases n - i,
    {
        file_names.push(args[i].clone());
        i = i + 1;
    }
    proof {
        assert(file_names@.map_values(|s: String| s@) =~= args@.skip(2).map_values(
            |s: String| s@,
        ));
    }
    Config { command, file_names }
}

/// The outcome the client reports for one file in its result table.
#[derive(Debug, PartialEq, Eq, Clone, Copy)]
pub enum Status {
    Success,
    Unprocessable,
    FileNotFound,
    NetworkError,
}

impl Status {
    /// The label shown for this outcome in the result table, letter for
    /// letter as the table prints it.
    pub fn label(&self) -> (r: String)
        ensures
            self is Success ==> r@ == "Success"@,
            self is Unprocessable ==> r@ == "Unporcessable"@,
            self is FileNotFound ==> r@ == "FileNotFound"@,
            self is NetworkError ==> r@ == "NetworkError"@,
    {
        match self {
            Status::Success => String::from_str("Success"),
            Status::Unprocessable => String::from_str("Unporcessable"),
            Status::FileNotFound => String::from_str("FileNotFound"),
            Status::NetworkError => String::from_str("NetworkError"),
        }
    }
}

/// The client's reading of a server status code: 200 is success, 422 means
/// the server refused the request, and anything else counts as a network
/// error.
pub open spec fn status_class_of(code: u16) -> Status {
    if code == 200 {
        Status::Success
    } else if code == 422 {
        Status::Unprocessable
    } else {
        Status::NetworkError
    }
}

/// Classifies a server status code for the result table.
pub fn classify_status(code: u16) -> (s: Status)
    ensures
        s == status_class_of(code),
{
    if code == 200 {
        Status::Success
    } else if code == 422 {
        Status::Unprocessable
    } else {
        Status::NetworkError
    }
}

/// One row of the client's result table.
pub struct FileStatus {
    pub file_name: String,
    pub status: Status,
}

/// The rows reported for a listing response: every listed name is shown as a
/// success.
pub fn list_rows(names: Vec<String>) -> (r: Vec<FileStatus>)
    ensures
        r@.len() == names@.len(),
        forall|i: int|
            0 <= i < r@.len() ==> (#[trigger] r@[i]).file_name@ == names@[i]@ && r@[i].status
                is Success,
{
    let n = names.len();
    let mut rows: Vec<FileStatus> = Vec::new();
    let mut i: usize = 0;
    while i < n
        invariant
            0 <= i <= n,
            n == names@.len(),
            rows@.len() == i,
            forall|j: int|
                0 <= j < i ==> (#[trigger] rows@[j]).file_name@ == names@[j]@ && rows@[j].status
                    is Success,
        decreases n - i,
    {
        rows.push(FileStatus { file_name: names[i].clone(), status: Status::Success });
        i = i + 1;
    }
    rows
}

} // verus!
