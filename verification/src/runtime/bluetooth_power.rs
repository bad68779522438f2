//! Powering the Bluetooth controller, so that a detached keyboard can reconnect.

use vstd::prelude::*;

use crate::command::{output_text, trimmed_output, CommandOutput};
use crate::text;

verus! {

/// The number of times that the controller is told to power on.
pub const POWER_ON_ATTEMPTS: usize = 3;

/// How long to wait between two attempts, in milliseconds.
pub const POWER_ON_RETRY_MILLIS: u64 = 500;

/// Why the radio could not be unblocked, if it could not.
pub open spec fn unblock_error(outcome: Result<CommandOutput, String>) -> Option<Seq<char>> {
    match outcome {
        Err(err) => Some("Failed to run rfkill: "@ + err@),
        Ok(output) => if output.success {
            None
        } else {
            Some("rfkill unblock bluetooth failed: "@ + output_text(output.stderr@))
        },
    }
}

/// What a program complained of: what it wrote as an error, or else what it wrote at all.
pub open spec fn complaint(output: CommandOutput) -> Seq<char> {
    if output_text(output.stderr@).len() == 0 {
        output_text(output.stdout@)
    } else {
        output_text(output.stderr@)
    }
}

/// How a failed attempt is told.
pub open spec fn attempt_text(number: nat, output: CommandOutput) -> Seq<char> {
    "attempt "@ + text::decimal(number) + ": "@ + complaint(output)
}

/// The controller did not come up.
pub open spec fn not_powered_text(failures: Seq<Seq<char>>) -> Seq<char> {
    "BlueZ controller did not reach Powered: yes after rfkill unblock ("@ + text::joined(
        failures,
        "; "@,
    ) + ")"@
}

/// What follows an attempt to power the controller on.
#[derive(Debug, Clone)]
pub enum PowerOnStep {
    /// The controller is powered.
    Done,
    /// Wait, and try once more.
    TryAgain,
    Failed(String),
}

/// What follows an attempt, with the characters of the error.
pub enum PowerOnNext {
    Done,
    TryAgain,
    Failed(Seq<char>),
}

impl View for PowerOnStep {
    type V = PowerOnNext;

    open spec fn view(&self) -> PowerOnNext {
        match self {
            PowerOnStep::Done => PowerOnNext::Done,
            PowerOnStep::TryAgain => PowerOnNext::TryAgain,
            PowerOnStep::Failed(e) => PowerOnNext::Failed(e@),
        }
    }
}

/// What follows an attempt after `failures`: the command's outcome, and whether the controller
/// says that it is powered.
pub open spec fn after_power_on(
    failures: Seq<Seq<char>>,
    outcome: Result<CommandOutput, String>,
    powered: bool,
) -> (Seq<Seq<char>>, PowerOnNext) {
    match outcome {
        Err(err) => (failures, PowerOnNext::Failed("Failed to run bluetoothctl: "@ + err@)),
        Ok(output) => if output.success && powered {
            (failures, PowerOnNext::Done)
        } else {
            let told = failures.push(attempt_text(failures.len() + 1, output));
            if told.len() < POWER_ON_ATTEMPTS {
                (told, PowerOnNext::TryAgain)
            } else {
                (told, PowerOnNext::Failed(not_powered_text(told)))
            }
        },
    }
}

/// Attempts to power the controller on.
#[derive(Debug)]
pub struct PowerOnAttempts {
    failures: Vec<String>,
}

impl View for PowerOnAttempts {
    type V = Seq<Seq<char>>;

    /// The attempts that have failed.
    closed spec fn view(&self) -> Seq<Seq<char>> {
        text::views(self.failures@)
    }
}

/// Takes over the outcome of unblocking the radio. That only removes a block: the controller
/// still has to be powered, which is then attempted.
pub fn ensure_bluetooth_enabled(unblocked: &Result<CommandOutput, String>) -> (r: Result<
    PowerOnAttempts,
    String,
>)
    ensures
        match r {
            Ok(attempts) => unblock_error(*unblocked) is None && attempts@.len() == 0,
            Err(e) => unblock_error(*unblocked) == Some(e@),
        },
{
    match unblocked {
        Err(err) => Err(text::concat2("Failed to run rfkill: ", err.as_str())),
        Ok(output) => if output.success {
            Ok(PowerOnAttempts { failures: Vec::new() })
        } else {
            Err(
                text::concat2(
                    "rfkill unblock bluetooth failed: ",
                    trimmed_output(&output.stderr).as_str(),
                ),
            )
        },
    }
}

impl PowerOnAttempts {
    /// Whether an attempt may still be made.
    pub fn may_try(&self) -> (r: bool)
        ensures
            r == (self@.len() < POWER_ON_ATTEMPTS),
    {
        self.failures.len() < POWER_ON_ATTEMPTS
    }

    /// Takes over the outcome of an attempt: that of the command, and whether the controller says
    /// that it is powered.
    pub fn attempted(&mut self, outcome: &Result<CommandOutput, String>, powered: bool) -> (r:
        PowerOnStep)
        requires
            old(self)@.len() < POWER_ON_ATTEMPTS,
        ensures
            (final(self)@, r@) == after_power_on(old(self)@, *outcome, powered),
    {
        match outcome {
            Err(err) => PowerOnStep::Failed(
                text::concat2("Failed to run bluetoothctl: ", err.as_str()),
            ),
            Ok(output) => {
                if output.success && powered {
                    return PowerOnStep::Done;
                }
                let complained: String = trimmed_output(&output.stderr);
                let detail: String = if complained.as_str().is_empty() {
                    trimmed_output(&output.stdout)
                } else {
                    complained
                };
                let number: u64 = self.failures.len() as u64 + 1;
                let mut told: String = text::concat3(
                    "attempt ",
                    text::decimal_text(number).as_str(),
                    ": ",
                );
                told.append(detail.as_str());
                let ghost before = text::views(self.failures@);
                self.failures.push(told);
                assert(text::views(self.failures@) =~= before.push(told@));
                if self.failures.len() < POWER_ON_ATTEMPTS {
                    PowerOnStep::TryAgain
                } else {
                    PowerOnStep::Failed(
                        text::concat3(
                            "BlueZ controller did not reach Powered: yes after rfkill unblock (",
                            text::join(self.failures.as_slice(), "; ").as_str(),
                            ")",
                        ),
                    )
                }
            },
        }
    }
}

/// Success is told exactly where the command succeeded and the controller says that it is
/// powered; a command that merely succeeds is not enough.
pub proof fn law_bluetooth_counts_only_when_powered(
    failures: Seq<Seq<char>>,
    output: CommandOutput,
    powered: bool,
)
    ensures
        after_power_on(failures, Ok(output), powered).1 is Done <==> output.success && powered,
{
}

/// Three attempts that bring nothing end it, with what each of them complained of.
pub proof fn law_power_on_gives_up_after_three_attempts(
    first: CommandOutput,
    second: CommandOutput,
    third: CommandOutput,
)
    ensures
        ({
            let (a, after_first) = after_power_on(Seq::empty(), Ok(first), false);
            let (b, after_second) = after_power_on(a, Ok(second), false);
            let (c, after_third) = after_power_on(b, Ok(third), false);
            &&& after_first is TryAgain
            &&& after_second is TryAgain
            &&& after_third == PowerOnNext::Failed(
                not_powered_text(
                    seq![attempt_text(1, first), attempt_text(2, second), attempt_text(3, third)],
                ),
            )
        }),
{
    let (a, _) = after_power_on(Seq::empty(), Ok(first), false);
    let (b, _) = after_power_on(a, Ok(second), false);
    let (c, _) = after_power_on(b, Ok(third), false);
    assert(c =~= seq![attempt_text(1, first), attempt_text(2, second), attempt_text(3, third)]);
}

/// Powering begins exactly where the radio was unblocked; otherwise it is told why not.
pub proof fn law_powering_begins_once_unblocked(
    unblocked: Result<CommandOutput, String>,
    r: Result<PowerOnAttempts, String>,
)
    requires
        call_ensures(ensure_bluetooth_enabled, (&unblocked,), r),
    ensures
        r is Ok <==> (unblocked matches Ok(output) && output.success),
        r matches Ok(attempts) ==> attempts@.len() == 0,
        unblocked matches Err(err) ==> r->Err_0@ == "Failed to run rfkill: "@ + err@,
        unblocked matches Ok(output) ==> (output.success || r->Err_0@
            == "rfkill unblock bluetooth failed: "@ + text::trimmed(text::lossy(output.stderr@))),
{
}

/// The controller is powered exactly where the command succeeded and the controller says so. A
/// command that cannot be run ends it. Otherwise it is tried again, up to three times, and each
/// attempt is remembered with what it complained of: its error, or else what it printed.
pub proof fn law_three_attempts_to_power_on(
    attempts: &mut PowerOnAttempts,
    outcome: Result<CommandOutput, String>,
    powered: bool,
    r: PowerOnStep,
    may_try: bool,
)
    requires
        call_ensures(PowerOnAttempts::may_try, (&*attempts,), may_try),
        old(attempts)@.len() < 3,
        call_ensures(PowerOnAttempts::attempted, (attempts, &outcome, powered), r),
    ensures
        may_try,
        r is Done <==> powered && (outcome matches Ok(output) && output.success),
        r is TryAgain <==> outcome is Ok && !(r is Done) && old(attempts)@.len() < 2,
        r is Done || outcome is Err ==> final(attempts)@ == old(attempts)@,
        outcome matches Err(err) ==> (r matches PowerOnStep::Failed(e) && e@
            == "Failed to run bluetoothctl: "@ + err@),
        outcome matches Ok(output) ==> (!(r is Done) ==> {
            let error = text::trimmed(text::lossy(output.stderr@));
            let printed = text::trimmed(text::lossy(output.stdout@));
            let told = if error.len() > 0 {
                error
            } else {
                printed
            };
            &&& final(attempts)@ == old(attempts)@.push(
                "attempt "@ + text::decimal((old(attempts)@.len() + 1) as nat) + ": "@ + told,
            )
            &&& r matches PowerOnStep::Failed(e) ==> e@
                == "BlueZ controller did not reach Powered: yes after rfkill unblock ("@
                + text::joined(final(attempts)@, "; "@) + ")"@
        }),
        POWER_ON_RETRY_MILLIS == 500,
{
}

/// An attempt may be made exactly until three have failed.
pub proof fn law_fourth_attempt_is_not_made(attempts: PowerOnAttempts, r: bool)
    requires
        call_ensures(PowerOnAttempts::may_try, (&attempts,), r),
    ensures
        r <==> attempts@.len() < 3,
{
}

}
