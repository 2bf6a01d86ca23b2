//! Errors, and the policies that classify how an external program finished.

use vstd::prelude::*;
use vstd::utf8::{decode_utf8, valid_utf8};
use core::time::Duration;
use crate::text::{decimal_of, decimal_string};

verus! {

/// What can go wrong in a cycle. Failures of the operating system are carried
/// as the text that describes them.
#[derive(Debug, Clone, PartialEq, Eq)]
pub enum Error {
    CommandNonZeroExitCode { code: i32, stdout: String, stderr: String },
    CommandTerminatedBySignal,
    CommandOther(String),
    StdoutNotUtf8(Vec<u8>),
    Partition1NotFound(String),
    PartitionFieldsNotFound(String),
    PartitionFreeNotFound(String),
    PartitionFreeFieldsNotFound(String),
    LedSysfs(String),
    StatWritesNotFound(String),
    StatWritesParse(String),
    StatWritesSysfs(String),
    IteratingDirectory(String),
    LvsMinorParse(String),
}

/// A signed number in decimal.
pub open spec fn signed_decimal(n: int) -> Seq<char> {
    if n < 0 {
        seq!['-'] + decimal_of((-n) as nat)
    } else {
        decimal_of(n as nat)
    }
}

fn signed_decimal_string(n: i32) -> (r: String)
    ensures
        r@ == signed_decimal(n as int),
{
    proof {
        reveal_strlit("-");
    }
    if n < 0 {
        let mut r = String::from_str("-");
        let m = (-(n as i64)) as u64;
        r.append(decimal_string(m).as_str());
        r
    } else {
        decimal_string(n as u64)
    }
}

/// The text that tells an operator what went wrong.
pub open spec fn message_of(e: Error) -> Seq<char> {
    match e {
        Error::CommandNonZeroExitCode { code, stdout, stderr } => "Command terminated with exit code "@
            + signed_decimal(code as int) + "\nstdout from failed command:\n"@ + stdout@
            + "\nstderr from failed command:\n"@ + stderr@,
        Error::CommandTerminatedBySignal => "Command terminated by signal"@,
        Error::CommandOther(m) => "I/O error executing command: "@ + m@,
        Error::StdoutNotUtf8(_) => "Could not parse stdout as UTF-8"@,
        Error::Partition1NotFound(o) => "Could not find partition 1 in output: "@ + o@,
        Error::PartitionFieldsNotFound(l) => "Could not find required partition fields: "@ + l@,
        Error::PartitionFreeNotFound(o) => "Could not find space for partition in output: "@ + o@,
        Error::PartitionFreeFieldsNotFound(l) => "Could not find required free space fields: "@
            + l@,
        Error::LedSysfs(m) => "I/O error controlling LEDs over sysfs: "@ + m@,
        Error::StatWritesNotFound(l) => "Could not find writes field in stat output: "@ + l@,
        Error::StatWritesParse(f) => "Could not parse stat writes field: "@ + f@,
        Error::StatWritesSysfs(m) => "I/O error watching stat writes over sysfs: "@ + m@,
        Error::IteratingDirectory(m) => "I/O error iterating over directory: "@ + m@,
        Error::LvsMinorParse(f) => "Could not parse device minor number from lvs: "@ + f@,
    }
}

fn prefixed(prefix: &str, rest: &String) -> (r: String)
    ensures
        r@ == prefix@ + rest@,
{
    let mut r = String::from_str(prefix);
    r.append(rest.as_str());
    r
}

impl Error {
    /// Describes the error for an operator.
    pub fn message(&self) -> (r: String)
        ensures
            r@ == message_of(*self),
    {
        match self {
            Error::CommandNonZeroExitCode { code, stdout, stderr } => {
                let mut r = String::from_str("Command terminated with exit code ");
                r.append(signed_decimal_string(*code).as_str());
                r.append("\nstdout from failed command:\n");
                r.append(stdout.as_str());
                r.append("\nstderr from failed command:\n");
                r.append(stderr.as_str());
                r
            },
            Error::CommandTerminatedBySignal => String::from_str("Command terminated by signal"),
            Error::CommandOther(m) => prefixed("I/O error executing command: ", m),
            Error::StdoutNotUtf8(_) => String::from_str("Could not parse stdout as UTF-8"),
            Error::Partition1NotFound(o) => prefixed("Could not find partition 1 in output: ", o),
            Error::PartitionFieldsNotFound(l) => prefixed(
                "Could not find required partition fields: ",
                l,
            ),
            Error::PartitionFreeNotFound(o) => prefixed(
                "Could not find space for partition in output: ",
                o,
            ),
            Error::PartitionFreeFieldsNotFound(l) => prefixed(
                "Could not find required free space fields: ",
                l,
            ),
            Error::LedSysfs(m) => prefixed("I/O error controlling LEDs over sysfs: ", m),
            Error::StatWritesNotFound(l) => prefixed(
                "Could not find writes field in stat output: ",
                l,
            ),
            Error::StatWritesParse(f) => prefixed("Could not parse stat writes field: ", f),
            Error::StatWritesSysfs(m) => prefixed("I/O error watching stat writes over sysfs: ", m),
            Error::IteratingDirectory(m) => prefixed("I/O error iterating over directory: ", m),
            Error::LvsMinorParse(f) => prefixed(
                "Could not parse device minor number from lvs: ",
                f,
            ),
        }
    }
}

pub type Result<T> = core::result::Result<T, Error>;

/// Whether a mapping may be written through.
#[derive(Debug, Clone, Copy, PartialEq, Eq, Structural)]
pub enum MapMode {
    ReadOnly,
    ReadWrite,
}

/// How an external program ended: its exit code (none where a signal ended it)
/// and what it wrote.
pub struct ProcessOutput {
    pub code: Option<i32>,
    pub stdout: Vec<u8>,
    pub stderr: String,
}

/// Relies on `String::from_utf8`: it accepts exactly the valid UTF-8 byte
/// sequences, and the string then holds the characters they encode.
#[verifier::external_body]
fn utf8_text(bytes: &Vec<u8>) -> (r: Option<String>)
    ensures
        r is Some <==> valid_utf8(bytes@),
        r matches Some(s) ==> s@ == decode_utf8(bytes@),
{
    String::from_utf8(bytes.clone()).ok()
}

/// The program exited with code zero and wrote text.
pub open spec fn exited_cleanly(output: ProcessOutput) -> bool {
    valid_utf8(output.stdout@) && output.code == Some(0i32)
}

/// `e` is the error that a program's ending gives: output that is not text
/// first, then the exit code or the signal.
pub open spec fn command_error(output: ProcessOutput, e: Error) -> bool {
    if !valid_utf8(output.stdout@) {
        e matches Error::StdoutNotUtf8(b) && b@ == output.stdout@
    } else {
        match output.code {
            Some(c) => c != 0 && (e matches Error::CommandNonZeroExitCode { code, stdout, stderr }
                && code == c && stdout@ == decode_utf8(output.stdout@) && stderr@
                == output.stderr@),
            None => e is CommandTerminatedBySignal,
        }
    }
}

/// What a program's ending means to its caller: its standard output where it
/// exited with code zero, an error otherwise.
pub fn command_result(output: ProcessOutput) -> (r: Result<String>)
    ensures
        exited_cleanly(output) ==> (r matches Ok(s) && s@ == decode_utf8(output.stdout@)),
        !exited_cleanly(output) ==> (r matches Err(e) && command_error(output, e)),
{
    let stdout = match utf8_text(&output.stdout) {
        Some(s) => s,
        None => {
            return Err(Error::StdoutNotUtf8(output.stdout));
        },
    };
    match output.code {
        Some(0) => Ok(stdout),
        Some(code) => Err(Error::CommandNonZeroExitCode { code, stdout, stderr: output.stderr }),
        None => Err(Error::CommandTerminatedBySignal),
    }
}

/// The best-effort reading of a run (or of a failure to start it): only a
/// death by signal is a failure, whatever the program wrote.
pub open spec fn ignoring_output(run: Result<ProcessOutput>) -> Result<()> {
    match run {
        Ok(output) => if output.code is None {
            Err(Error::CommandTerminatedBySignal)
        } else {
            Ok(())
        },
        Err(_) => Ok(()),
    }
}

/// Treats every ending of a program but its death by a signal as success.
pub fn ignore_output(run: &Result<ProcessOutput>) -> (r: Result<()>)
    ensures
        r == ignoring_output(*run),
{
    match run {
        Ok(output) => if output.code.is_none() {
            Err(Error::CommandTerminatedBySignal)
        } else {
            Ok(())
        },
        Err(_) => Ok(()),
    }
}

/// How the outcome of a program is judged.
#[derive(Debug, Clone, Copy)]
pub enum CommandCheck {
    /// Only a death by signal is a failure.
    IgnoreOutput,
    /// Anything but exit code zero is a failure.
    ExpectZeroExitCode,
    /// Up to `count` attempts, at least one, `interval` apart, until one exits
    /// with code zero; the last attempt's error is the outcome.
    Retry { count: u32, interval: Duration },
}

impl CommandCheck {
    /// At least one attempt is allowed.
    pub open spec fn wf(&self) -> bool {
        match *self {
            CommandCheck::Retry { count, .. } => count >= 1,
            _ => true,
        }
    }
}

/// What follows an attempt to run a program.
#[derive(Debug)]
pub enum CheckStep {
    /// The run is over, with this outcome.
    Finish(Result<()>),
    /// Wait this long, then run the program again.
    RetryAfter(Duration),
}

/// `step` ends the run with the error of `run`: the error that kept the
/// program from starting, or that its ending gives.
pub open spec fn finishes_with_error_of(step: CheckStep, run: Result<ProcessOutput>) -> bool {
    step matches CheckStep::Finish(Err(e)) && match run {
        Ok(output) => command_error(output, e),
        Err(start) => e == start,
    }
}

/// The program started and exited with code zero.
pub open spec fn run_succeeded(run: Result<ProcessOutput>) -> bool {
    run matches Ok(output) && exited_cleanly(output)
}

fn judge(run: Result<ProcessOutput>) -> (r: Result<()>)
    ensures
        run_succeeded(run) ==> r == Ok::<(), Error>(()),
        !run_succeeded(run) ==> finishes_with_error_of(CheckStep::Finish(r), run),
{
    match run {
        Ok(output) => match command_result(output) {
            Ok(_) => Ok(()),
            Err(e) => Err(e),
        },
        Err(e) => Err(e),
    }
}

impl CommandCheck {
    /// Decides what follows the `attempt`-th run of a program (counted from
    /// one): `run` is how it ended, or the error that kept it from starting.
    pub fn after_attempt(&self, attempt: u32, run: Result<ProcessOutput>) -> (step: CheckStep)
        requires
            attempt >= 1,
            self.wf(),
        ensures
            match *self {
                CommandCheck::IgnoreOutput => step == CheckStep::Finish(ignoring_output(run)),
                CommandCheck::ExpectZeroExitCode => if run_succeeded(run) {
                    step == CheckStep::Finish(Ok(()))
                } else {
                    finishes_with_error_of(step, run)
                },
                CommandCheck::Retry { count, interval } => if run_succeeded(run) {
                    step == CheckStep::Finish(Ok(()))
                } else if attempt < count {
                    step == CheckStep::RetryAfter(interval)
                } else {
                    finishes_with_error_of(step, run)
                },
            },
    {
        match *self {
            CommandCheck::IgnoreOutput => CheckStep::Finish(ignore_output(&run)),
            CommandCheck::ExpectZeroExitCode => CheckStep::Finish(judge(run)),
            CommandCheck::Retry { count, interval } => {
                let ok = match &run {
                    Ok(output) => output.code == Some(0i32) && utf8_text(&output.stdout).is_some(),
                    Err(_) => false,
                };
                if ok {
                    CheckStep::Finish(Ok(()))
                } else if attempt < count {
                    CheckStep::RetryAfter(interval)
                } else {
                    CheckStep::Finish(judge(run))
                }
            },
        }
    }
}

} // verus!
