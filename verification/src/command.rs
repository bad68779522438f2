//! What programs that were run have come to.

use vstd::prelude::*;

use crate::text;

verus! {

/// What a program that ran to its end has come to.
#[derive(Debug, Clone)]
pub struct CommandOutput {
    pub success: bool,
    pub stdout: Vec<u8>,
    pub stderr: Vec<u8>,
}

/// The trimmed text of what a program wrote.
pub open spec fn output_text(bytes: Seq<u8>) -> Seq<char> {
    text::trimmed(text::lossy(bytes))
}

/// The trimmed text of what a program wrote.
pub fn trimmed_output(bytes: &Vec<u8>) -> (r: String)
    ensures
        r@ == output_text(bytes@),
{
    let written: String = text::lossy_text(bytes.as_slice());
    text::trim(written.as_str()).to_string()
}

/// Why a program did not do its work, if it did not: it could not be run, or it ran and failed.
pub open spec fn run_error(program: Seq<char>, outcome: Result<CommandOutput, String>) -> Option<
    Seq<char>,
> {
    match outcome {
        Err(err) => Some("Failed to run "@ + program + ": "@ + err@),
        Ok(output) => if output.success {
            None
        } else {
            Some(output_text(output.stderr@))
        },
    }
}

/// Takes over the outcome of running a program, for its success alone.
pub fn run_command(program: &str, outcome: &Result<CommandOutput, String>) -> (r: Result<
    (),
    String,
>)
    ensures
        match r {
            Ok(_) => run_error(program@, *outcome) is None,
            Err(e) => run_error(program@, *outcome) == Some(e@),
        },
{
    match outcome {
        Err(err) => {
            let mut message: String = text::concat3("Failed to run ", program, ": ");
            message.append(err.as_str());
            Err(message)
        },
        Ok(output) => if output.success {
            Ok(())
        } else {
            Err(trimmed_output(&output.stderr))
        },
    }
}

/// What running a program within a time limit has come to.
#[derive(Debug, Clone)]
pub enum TimedOutcome {
    Finished(CommandOutput),
    /// It could not be run, for this reason.
    Failed(String),
    /// The time limit passed.
    TimedOut,
}

/// Why a program did not run to its end within `seconds`, if it did not.
pub open spec fn capture_error(
    program: Seq<char>,
    args: Seq<String>,
    seconds: u64,
    outcome: TimedOutcome,
) -> Option<Seq<char>> {
    match outcome {
        TimedOutcome::Finished(_) => None,
        TimedOutcome::Failed(err) => Some("Failed to run "@ + program + ": "@ + err@),
        TimedOutcome::TimedOut => Some(
            program + " timed out after "@ + text::decimal(seconds as nat) + "s (args: "@
                + text::joined(text::views(args), " "@) + ")"@,
        ),
    }
}

/// Takes over the outcome of running a program with these arguments within `seconds`.
pub fn run_command_capture(
    program: &str,
    args: &Vec<String>,
    seconds: u64,
    outcome: TimedOutcome,
) -> (r: Result<CommandOutput, String>)
    ensures
        match r {
            Ok(output) => outcome == TimedOutcome::Finished(output),
            Err(e) => capture_error(program@, args@, seconds, outcome) == Some(e@),
        },
{
    match outcome {
        TimedOutcome::Finished(output) => Ok(output),
        TimedOutcome::Failed(err) => {
            let mut message: String = text::concat3("Failed to run ", program, ": ");
            message.append(err.as_str());
            Err(message)
        },
        TimedOutcome::TimedOut => {
            let mut message: String = text::concat3(
                program,
                " timed out after ",
                text::decimal_text(seconds).as_str(),
            );
            message.append("s (args: ");
            message.append(text::join(args.as_slice(), " ").as_str());
            message.append(")");
            Err(message)
        },
    }
}

/// Why a program did not do its work within `seconds`, if it did not.
pub open spec fn timed_error(
    program: Seq<char>,
    args: Seq<String>,
    seconds: u64,
    outcome: TimedOutcome,
) -> Option<Seq<char>> {
    match outcome {
        TimedOutcome::Finished(output) => if output.success {
            None
        } else {
            Some(output_text(output.stderr@))
        },
        _ => capture_error(program, args, seconds, outcome),
    }
}

/// Takes over the outcome of running a program with these arguments within `seconds`, for its
/// success alone.
pub fn run_command_within(
    program: &str,
    args: &Vec<String>,
    seconds: u64,
    outcome: TimedOutcome,
) -> (r: Result<(), String>)
    ensures
        match r {
            Ok(_) => timed_error(program@, args@, seconds, outcome) is None,
            Err(e) => timed_error(program@, args@, seconds, outcome) == Some(e@),
        },
{
    match run_command_capture(program, args, seconds, outcome) {
        Ok(output) => if output.success {
            Ok(())
        } else {
            Err(trimmed_output(&output.stderr))
        },
        Err(e) => Err(e),
    }
}

/// A program did its work exactly where it ran and succeeded. One that failed is told by what it
/// complained of, one that did not run by its name and the reason.
pub proof fn law_program_succeeds_or_tells(
    program: &str,
    outcome: Result<CommandOutput, String>,
    r: Result<(), String>,
)
    requires
        call_ensures(run_command, (program, &outcome), r),
    ensures
        r is Ok <==> (outcome matches Ok(output) && output.success),
        outcome matches Ok(output) ==> (output.success || r->Err_0@ == text::trimmed(
            text::lossy(output.stderr@),
        )),
        outcome matches Err(err) ==> r->Err_0@ == "Failed to run "@ + program@ + ": "@ + err@,
{
}

/// Within a time limit too a program did its work exactly where it ended and succeeded. One that
/// took too long is told by its name, the limit and its arguments.
pub proof fn law_timed_program_succeeds_or_tells(
    program: &str,
    args: Vec<String>,
    seconds: u64,
    outcome: TimedOutcome,
    r: Result<(), String>,
    captured: Result<CommandOutput, String>,
)
    requires
        call_ensures(run_command_within, (program, &args, seconds, outcome), r),
        call_ensures(run_command_capture, (program, &args, seconds, outcome), captured),
    ensures
        r is Ok <==> (outcome matches TimedOutcome::Finished(output) && output.success),
        captured is Ok <==> outcome is Finished,
        outcome matches TimedOutcome::Finished(output) ==> {
            &&& captured->Ok_0 == output
            &&& output.success || r->Err_0@ == text::trimmed(text::lossy(output.stderr@))
        },
        outcome matches TimedOutcome::Failed(err) ==> {
            &&& r->Err_0@ == "Failed to run "@ + program@ + ": "@ + err@
            &&& captured->Err_0@ == r->Err_0@
        },
        outcome is TimedOut ==> {
            &&& r->Err_0@ == program@ + " timed out after "@ + text::decimal(seconds as nat)
                + "s (args: "@ + text::joined(text::views(args@), " "@) + ")"@
            &&& captured->Err_0@ == r->Err_0@
        },
{
}

/// What a program wrote is read without the white space around it.
pub proof fn law_output_is_trimmed(bytes: Vec<u8>, r: String)
    requires
        call_ensures(trimmed_output, (&bytes,), r),
    ensures
        r@ == text::trimmed(text::lossy(bytes@)),
{
}

}
