//! What the runtime reports back, and what each operation makes of it.
//!
//! The library starts no process. Its caller runs the runtime with an
//! argument vector that the library built, and hands back either the reason
//! why the runtime could not be started or the exit code with the captured
//! streams. The functions here turn that into the operation's result.

use vstd::prelude::*;
use vstd::string::StringExecFns;
use vstd::utf8::{decode_utf8, valid_utf8};

verus! {

/// What a finished process leaves behind.
#[derive(Debug)]
pub struct ProcessOutput {
    /// The exit code; `None` when the process was ended by a signal.
    pub code: Option<i32>,
    /// Everything the process wrote to its standard output.
    pub stdout: Vec<u8>,
    /// Everything the process wrote to its standard error.
    pub stderr: Vec<u8>,
}

impl ProcessOutput {
    /// A process has succeeded when it exited with code zero.
    pub open spec fn succeeded(&self) -> bool {
        self.code == Some(0i32)
    }

    /// Whether the process exited with code zero.
    pub fn success(&self) -> (ok: bool)
        ensures
            ok == self.succeeded(),
    {
        match self.code {
            Some(code) => code == 0,
            None => false,
        }
    }
}

/// What came of starting the runtime: its output once it has exited, or the
/// reason why it could not be started.
pub type Spawned = Result<ProcessOutput, String>;

/// What lossy decoding makes of `bytes`: the text that they encode as
/// UTF-8, with each invalid sequence replaced by U+FFFD.
pub uninterp spec fn utf8_lossy(bytes: Seq<u8>) -> Seq<char>;

/// The text of a captured stream: the characters that the bytes encode
/// where they are valid UTF-8, and what lossy decoding makes of them where
/// they are not.
pub open spec fn captured_text(bytes: Seq<u8>) -> Seq<char> {
    if valid_utf8(bytes) {
        decode_utf8(bytes)
    } else {
        utf8_lossy(bytes)
    }
}

/// `String::from_utf8_lossy`: decodes `bytes` as UTF-8, replacing what is
/// not. Valid UTF-8 comes out as the text that it encodes.
#[verifier::external_body]
fn lossy_text(bytes: &Vec<u8>) -> (text: String)
    ensures
        text@ == utf8_lossy(bytes@),
        valid_utf8(bytes@) ==> text@ == decode_utf8(bytes@),
{
    String::from_utf8_lossy(bytes).into_owned()
}

/// The text of a captured stream.
pub(crate) fn stream_text(bytes: &Vec<u8>) -> (text: String)
    ensures
        text@ == captured_text(bytes@),
{
    lossy_text(bytes)
}

/// `prefix` followed by `rest`.
fn prefixed(prefix: &str, rest: &String) -> (text: String)
    ensures
        text@ == prefix@ + rest@,
{
    let mut text = String::from_str(prefix);
    text.append(rest.as_str());
    text
}

/// Why pulling an image failed.
#[derive(Debug)]
pub enum PullError {
    /// The runtime could not be started; holds the reason.
    SpawnFailed(String),
    /// The runtime exited with a failure; holds what it wrote to stderr.
    NonZeroExit(String),
}

impl PullError {
    /// The text of [`PullError::message`].
    pub open spec fn message_text(&self) -> Seq<char> {
        match self {
            PullError::SpawnFailed(reason) => "Failed to execute Singularity: "@ + reason@,
            PullError::NonZeroExit(stderr) => "Failed to pull image: "@ + stderr@,
        }
    }

    /// The error as a line for the user.
    pub fn message(&self) -> (text: String)
        ensures
            text@ == self.message_text(),
    {
        match self {
            PullError::SpawnFailed(reason) => prefixed("Failed to execute Singularity: ", reason),
            PullError::NonZeroExit(stderr) => prefixed("Failed to pull image: ", stderr),
        }
    }
}

/// Why running a program in a container failed.
#[derive(Debug)]
pub enum ExecError {
    /// The description names no image; nothing was started.
    MissingImage,
    /// The description names no program; nothing was started.
    MissingProgram,
    /// The runtime could not be started; holds the reason.
    SpawnFailed(String),
    /// The runtime exited with a failure; holds what it wrote to stderr.
    NonZeroExit(String),
}

impl ExecError {
    /// The text of [`ExecError::message`].
    pub open spec fn message_text(&self) -> Seq<char> {
        match self {
            ExecError::MissingImage => "No image to execute in"@,
            ExecError::MissingProgram => "No program to execute"@,
            ExecError::SpawnFailed(reason) => "Failed to execute Singularity: "@ + reason@,
            ExecError::NonZeroExit(stderr) => "Failed to execute command: "@ + stderr@,
        }
    }

    /// The error as a line for the user.
    pub fn message(&self) -> (text: String)
        ensures
            text@ == self.message_text(),
    {
        match self {
            ExecError::MissingImage => String::from_str("No image to execute in"),
            ExecError::MissingProgram => String::from_str("No program to execute"),
            ExecError::SpawnFailed(reason) => prefixed("Failed to execute Singularity: ", reason),
            ExecError::NonZeroExit(stderr) => prefixed("Failed to execute command: ", stderr),
        }
    }
}

/// Why asking the runtime for its version failed.
#[derive(Debug)]
pub enum VersionError {
    /// The runtime could not be started; holds the reason.
    SpawnFailed(String),
    /// The runtime exited with a failure; holds what it wrote to stderr.
    NonZeroExit(String),
}

impl VersionError {
    /// The text of [`VersionError::message`].
    pub open spec fn message_text(&self) -> Seq<char> {
        match self {
            VersionError::SpawnFailed(reason) => reason@,
            VersionError::NonZeroExit(stderr) => "Failed to get Singularity version: "@ + stderr@,
        }
    }

    /// The error as a line for the user.
    pub fn message(&self) -> (text: String)
        ensures
            text@ == self.message_text(),
    {
        match self {
            VersionError::SpawnFailed(reason) => reason.clone(),
            VersionError::NonZeroExit(stderr) => prefixed(
                "Failed to get Singularity version: ",
                stderr,
            ),
        }
    }
}

/// The result of a pull, given what came of running the runtime: success
/// when it exited with code zero, else an error that says why.
pub fn pull_outcome(spawned: Spawned) -> (result: Result<(), PullError>)
    ensures
        match spawned {
            Ok(output) => if output.succeeded() {
                result is Ok
            } else {
                result matches Err(PullError::NonZeroExit(stderr)) && stderr@ == captured_text(
                    output.stderr@,
                )
            },
            Err(reason) => result matches Err(PullError::SpawnFailed(why)) && why@ == reason@,
        },
{
    match spawned {
        Ok(output) => {
            if output.success() {
                Ok(())
            } else {
                Err(PullError::NonZeroExit(stream_text(&output.stderr)))
            }
        },
        Err(reason) => Err(PullError::SpawnFailed(reason)),
    }
}

/// The result of an exec, given what came of running the runtime: the
/// process's output when it exited with code zero, else an error that says
/// why.
pub fn exec_outcome(spawned: Spawned) -> (result: Result<ProcessOutput, ExecError>)
    ensures
        match spawned {
            Ok(output) => if output.succeeded() {
                result == Ok::<ProcessOutput, ExecError>(output)
            } else {
                result matches Err(ExecError::NonZeroExit(stderr)) && stderr@ == captured_text(
                    output.stderr@,
                )
            },
            Err(reason) => result matches Err(ExecError::SpawnFailed(why)) && why@ == reason@,
        },
{
    match spawned {
        Ok(output) => {
            if output.success() {
                Ok(output)
            } else {
                Err(ExecError::NonZeroExit(stream_text(&output.stderr)))
            }
        },
        Err(reason) => Err(ExecError::SpawnFailed(reason)),
    }
}

/// The notice that shows what a successful run printed.
pub fn output_notice(output: &ProcessOutput) -> (text: String)
    ensures
        text@ == "Output: "@ + captured_text(output.stdout@),
{
    let printed = stream_text(&output.stdout);
    prefixed("Output: ", &printed)
}

/// The result of a version query, given what came of running the runtime:
/// the text of its standard output when it exited with code zero, else an
/// error that says why.
pub fn version_outcome(spawned: Spawned) -> (result: Result<String, VersionError>)
    ensures
        match spawned {
            Ok(output) => if output.succeeded() {
                result matches Ok(version) && version@ == captured_text(output.stdout@)
            } else {
                result matches Err(VersionError::NonZeroExit(stderr)) && stderr@ == captured_text(
                    output.stderr@,
                )
            },
            Err(reason) => result matches Err(VersionError::SpawnFailed(why)) && why@ == reason@,
        },
{
    match spawned {
        Ok(output) => {
            if output.success() {
                Ok(stream_text(&output.stdout))
            } else {
                Err(VersionError::NonZeroExit(stream_text(&output.stderr)))
            }
        },
        Err(reason) => Err(VersionError::SpawnFailed(reason)),
    }
}

} // verus!
