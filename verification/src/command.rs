//! Running a container from an image name and one shell-style command line.

use crate::gateway::{captured_text, stream_text, ExecError, ProcessOutput};
use crate::model::{blank_singularity, exec_argv, exec_flags, Bind, SingularityView};
use crate::singularity::Singularity;
use vstd::prelude::*;
use vstd::string::StringExecFns;

verus! {

/// The words that a POSIX shell would split `line` into, with quotes and
/// backslash escapes resolved; `None` where the line ends inside a quotation
/// or right after a backslash.
pub uninterp spec fn shell_words(line: Seq<char>) -> Option<Seq<Seq<char>>>;

/// `shlex::split`: splits a line into words as a POSIX shell does.
#[verifier::external_body]
fn split_words(line: &str) -> (words: Option<Vec<String>>)
    ensures
        words.deep_view() == shell_words(line@),
{
    shlex::split(line)
}

/// Why a command line names no command.
#[derive(Debug)]
pub enum CommandError {
    /// The line cannot be split into words; holds the line.
    Invalid(String),
    /// The line holds no word at all, so there is no program to run.
    Empty,
}

impl CommandError {
    /// The text of [`CommandError::message`].
    pub open spec fn message_text(&self) -> Seq<char> {
        match self {
            CommandError::Invalid(line) => "invalid command `"@ + line@ + "`"@,
            CommandError::Empty => "empty command"@,
        }
    }

    /// The error as a line for the user.
    pub fn message(&self) -> (text: String)
        ensures
            text@ == self.message_text(),
    {
        match self {
            CommandError::Invalid(line) => {
                let mut text = String::from_str("invalid command `");
                text.append(line.as_str());
                text.append("`");
                text
            },
            CommandError::Empty => String::from_str("empty command"),
        }
    }
}

/// Divides the words of a command line into the program, which is the first
/// word, and its arguments, which are the rest. `words` is what splitting
/// `command` gave; `None` stands for a line that cannot be split.
pub fn command_from_words(command: &str, words: Option<Vec<String>>) -> (result: Result<
    (String, Vec<String>),
    CommandError,
>)
    ensures
        match words.deep_view() {
            None => result matches Err(CommandError::Invalid(line)) && line@ == command@,
            Some(w) => if w.len() == 0 {
                result matches Err(CommandError::Empty)
            } else {
                result matches Ok(parts) && parts.0@ == w[0] && parts.1.deep_view() == w.skip(1)
            },
        },
{
    match words {
        None => Err(CommandError::Invalid(String::from_str(command))),
        Some(words) => {
            if words.len() == 0 {
                Err(CommandError::Empty)
            } else {
                let mut words = words;
                let args = words.split_off(1);
                let program = words.remove(0);
                Ok((program, args))
            }
        },
    }
}

/// Splits a shell-style command line into the program and its arguments,
/// by the quoting rules of a POSIX shell.
pub fn parse_command(command: &str) -> (result: Result<(String, Vec<String>), CommandError>)
    ensures
        match shell_words(command@) {
            None => result matches Err(CommandError::Invalid(line)) && line@ == command@,
            Some(w) => if w.len() == 0 {
                result matches Err(CommandError::Empty)
            } else {
                result matches Ok(parts) && parts.0@ == w[0] && parts.1.deep_view() == w.skip(1)
            },
        },
{
    command_from_words(command, split_words(command))
}

/// Why a container could not be run from a command line.
#[derive(Debug)]
pub enum RunError {
    /// The command line names no command.
    Command(CommandError),
    /// The description cannot be executed.
    Exec(ExecError),
}

/// The description of running `program` with `args` in `image`, with
/// nothing else set.
pub open spec fn plain_run(
    image: Seq<char>,
    program: Seq<char>,
    args: Seq<Seq<char>>,
) -> SingularityView {
    SingularityView { image, program, args, ..blank_singularity() }
}

/// The argument vector of a run with nothing else set: the subcommand, the
/// image, the program, the program's arguments.
pub open spec fn plain_argv(image: Seq<char>, program: Seq<char>, args: Seq<Seq<char>>) -> Seq<
    Seq<char>,
> {
    seq!["exec"@, image, program] + args
}

/// A description with nothing set but image, program and arguments, run
/// without binds and extra arguments, gives no flag at all.
pub proof fn lemma_plain_run_has_no_flags(
    image: Seq<char>,
    program: Seq<char>,
    args: Seq<Seq<char>>,
)
    ensures
        exec_argv(plain_run(image, program, args), Seq::empty(), Seq::empty()) == plain_argv(
            image,
            program,
            args,
        ),
{
    let s = plain_run(image, program, args);
}

/// The argument vector that runs `program` with `args` in `image`, with no
/// flags, no binds and no extra arguments. Fails where the image or the
/// program is empty.
pub fn run_words(image: &str, program: String, args: Vec<String>) -> (result: Result<
    Vec<String>,
    ExecError,
>)
    ensures
        match result {
            Ok(argv) => image@.len() > 0 && program@.len() > 0 && argv.deep_view() == plain_argv(
                image@,
                program@,
                args.deep_view(),
            ),
            Err(e) => if image@.len() == 0 {
                e == ExecError::MissingImage
            } else {
                program@.len() == 0 && e == ExecError::MissingProgram
            },
        },
{
    let container = Singularity::new().image(image).program(program.as_str()).args(args);
    let binds: Vec<(String, String)> = Vec::new();
    let extra: Vec<String> = Vec::new();
    proof {
        lemma_plain_run_has_no_flags(image@, program@, args.deep_view());
    }
    container.exec(binds, extra)
}

/// Runs a container with a particular command: splits `command` as a shell
/// would, takes the first word as the program and the rest as its
/// arguments, and hands out the argument vector to run the runtime with.
pub fn run_container(image: &str, command: &str) -> (result: Result<Vec<String>, RunError>)
    ensures
        match shell_words(command@) {
            None => result matches Err(RunError::Command(CommandError::Invalid(line))) && line@
                == command@,
            Some(w) => if w.len() == 0 {
                result matches Err(RunError::Command(CommandError::Empty))
            } else if image@.len() == 0 {
                result matches Err(RunError::Exec(ExecError::MissingImage))
            } else if w[0].len() == 0 {
                result matches Err(RunError::Exec(ExecError::MissingProgram))
            } else {
                result matches Ok(argv) && argv.deep_view() == plain_argv(image@, w[0], w.skip(1))
            },
        },
{
    match parse_command(command) {
        Err(e) => Err(RunError::Command(e)),
        Ok(parts) => {
            let (program, args) = parts;
            match run_words(image, program, args) {
                Ok(argv) => Ok(argv),
                Err(e) => Err(RunError::Exec(e)),
            }
        },
    }
}

/// The line that reports a run that went well: what the program printed.
pub fn success_report(output: &ProcessOutput) -> (text: String)
    ensures
        text@ == "Success: "@ + captured_text(output.stdout@),
{
    let mut text = String::from_str("Success: ");
    let printed = stream_text(&output.stdout);
    text.append(printed.as_str());
    text
}

/// The line that reports a run that failed.
pub fn failure_report(error: &ExecError) -> (text: String)
    ensures
        text@ == "Failed to execute command: "@ + error.message_text(),
{
    let mut text = String::from_str("Failed to execute command: ");
    let why = error.message();
    text.append(why.as_str());
    text
}

} // verus!
