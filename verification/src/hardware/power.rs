//! The power profile of the machine: which one, and within which limits.

use vstd::prelude::*;

use crate::models::settings::{PerformanceMode, PowerLimits};
use crate::text;

verus! {

/// The power limits lie in their ranges.
pub open spec fn limits_in_range(limits: PowerLimits) -> bool {
    &&& 5 <= limits.pl1_watts <= 100
    &&& limits.pl2_watts <= 150
    &&& limits.pl3_watts <= 200
}

/// No limit is above the next.
pub open spec fn limits_ordered(limits: PowerLimits) -> bool {
    limits.pl1_watts <= limits.pl2_watts <= limits.pl3_watts
}

/// Why power limits are refused, if they are.
pub open spec fn limits_error(limits: PowerLimits) -> Option<Seq<char>> {
    if !limits_in_range(limits) {
        Some("Power limits must be within PL1 5-100 W, PL2 5-150 W, PL3 5-200 W"@)
    } else if !limits_ordered(limits) {
        Some("Power limits must satisfy PL1 ≤ PL2 ≤ PL3"@)
    } else {
        None
    }
}

/// Accepts power limits that lie in their ranges and are ordered.
pub fn validate_limits(limits: &PowerLimits) -> (r: Result<(), String>)
    ensures
        match r {
            Ok(_) => limits_error(*limits) is None,
            Err(e) => limits_error(*limits) == Some(e@),
        },
{
    if limits.pl1_watts < 5 || limits.pl1_watts > 100 || limits.pl2_watts > 150
        || limits.pl3_watts > 200 {
        return Err(
            "Power limits must be within PL1 5-100 W, PL2 5-150 W, PL3 5-200 W".to_string(),
        );
    }
    if limits.pl1_watts > limits.pl2_watts || limits.pl2_watts > limits.pl3_watts {
        return Err("Power limits must satisfy PL1 ≤ PL2 ≤ PL3".to_string());
    }
    Ok(())
}

/// An entry of the list of CPU policies.
#[derive(Debug, Clone)]
pub struct PolicyEntry {
    /// The path of the entry.
    pub path: String,
    /// Its last part, where that is text.
    pub name: Option<String>,
    /// Whether it has an `energy_performance_preference` file.
    pub has_preference: bool,
}

/// One step of a change of the power profile.
#[derive(Debug, Clone)]
pub enum PowerStep {
    /// Run `powerprofilesctl set` with this profile.
    SelectProfile { profile: String },
    /// Write a file. `failure` is what is told, before the reason, where that fails.
    Write { path: String, text: String, failure: String },
    /// List the CPU policies.
    ListPolicies,
    /// End with this error.
    Stop { error: String },
}

/// One step, with the characters of its texts.
pub enum PowerStepView {
    SelectProfile { profile: Seq<char> },
    Write { path: Seq<char>, text: Seq<char>, failure: Seq<char> },
    ListPolicies,
    Stop { error: Seq<char> },
}

impl View for PowerStep {
    type V = PowerStepView;

    open spec fn view(&self) -> PowerStepView {
        match self {
            PowerStep::SelectProfile { profile } => PowerStepView::SelectProfile {
                profile: profile@,
            },
            PowerStep::Write { path, text, failure } => PowerStepView::Write {
                path: path@,
                text: text@,
                failure: failure@,
            },
            PowerStep::ListPolicies => PowerStepView::ListPolicies,
            PowerStep::Stop { error } => PowerStepView::Stop { error: error@ },
        }
    }
}

/// The profile's name at the ASUS platform interface.
pub open spec fn asus_profile(mode: PerformanceMode) -> Seq<char> {
    match mode {
        PerformanceMode::Quiet => "quiet"@,
        PerformanceMode::Balanced => "balanced"@,
        PerformanceMode::Performance => "performance"@,
    }
}

/// The energy-performance preference that goes with the profile.
pub open spec fn preference(mode: PerformanceMode) -> Seq<char> {
    match mode {
        PerformanceMode::Quiet => "power"@,
        PerformanceMode::Balanced => "balance_performance"@,
        PerformanceMode::Performance => "performance"@,
    }
}

/// The profile's name at the power-profiles daemon.
pub open spec fn daemon_profile(mode: PerformanceMode) -> Seq<char> {
    match mode {
        PerformanceMode::Quiet => "power-saver"@,
        PerformanceMode::Balanced => "balanced"@,
        PerformanceMode::Performance => "performance"@,
    }
}

/// The steps up to the list of CPU policies.
pub open spec fn opening_steps(mode: PerformanceMode) -> Seq<PowerStepView> {
    seq![
        PowerStepView::SelectProfile { profile: daemon_profile(mode) },
        PowerStepView::Write {
            path: "/sys/devices/platform/asus-nb-wmi/platform-profile/platform-profile-0/profile"@,
            text: asus_profile(mode),
            failure: "Failed to select ASUS "@ + asus_profile(mode) + " profile: "@,
        },
        PowerStepView::ListPolicies,
    ]
}

/// The entry is a CPU policy that takes a preference.
pub open spec fn takes_preference(entry: PolicyEntry) -> bool {
    &&& entry.name is Some
    &&& text::matches_at(entry.name->0@, "policy"@, 0)
    &&& entry.has_preference
}

/// The file of an entry's preference.
pub open spec fn preference_path(entry: PolicyEntry) -> Seq<char> {
    entry.path@ + "/energy_performance_preference"@
}

/// The steps that give each CPU policy its preference, in order. An entry that could not be
/// read ends the change.
pub open spec fn policy_steps(
    mode: PerformanceMode,
    entries: Seq<Result<PolicyEntry, String>>,
) -> Seq<PowerStepView>
    decreases entries.len(),
{
    if entries.len() == 0 {
        Seq::empty()
    } else {
        let before = policy_steps(mode, entries.drop_last());
        match entries.last() {
            Err(error) => before.push(PowerStepView::Stop { error: error@ }),
            Ok(entry) => if takes_preference(entry) {
                before.push(
                    PowerStepView::Write {
                        path: preference_path(entry),
                        text: preference(mode),
                        failure: "Failed to set "@ + preference_path(entry) + ": "@,
                    },
                )
            } else {
                before
            },
        }
    }
}

/// The step that sets the power limit number `index`, counted from zero.
pub open spec fn limit_step(index: nat, watts: u16) -> PowerStepView {
    PowerStepView::Write {
        path: "/sys/devices/virtual/powercap/intel-rapl-mmio/intel-rapl-mmio:0/constraint_"@
            + text::decimal(index) + "_power_limit_uw"@,
        text: text::decimal((watts * 1_000_000) as nat),
        failure: "Failed to set PL"@ + text::decimal(index + 1) + " to "@ + text::decimal(
            watts as nat,
        ) + " W: "@,
    }
}

/// The steps that set the power limits.
pub open spec fn limit_steps(limits: PowerLimits) -> Seq<PowerStepView> {
    seq![
        limit_step(0, limits.pl1_watts),
        limit_step(1, limits.pl2_watts),
        limit_step(2, limits.pl3_watts),
    ]
}

/// What the steps of a list say.
pub open spec fn step_views(steps: Seq<PowerStep>) -> Seq<PowerStepView> {
    steps.map_values(|step: PowerStep| step@)
}

/// How far a change of the power profile has come.
pub struct ChangeProgress {
    pub mode: PerformanceMode,
    pub limits: PowerLimits,
    /// The steps that are known.
    pub steps: Seq<PowerStepView>,
    /// The number of steps that are done.
    pub done: int,
}

/// A change of the power profile, step by step.
#[derive(Debug)]
pub struct PerformanceChange {
    mode: PerformanceMode,
    limits: PowerLimits,
    steps: Vec<PowerStep>,
    done: usize,
}

impl View for PerformanceChange {
    type V = ChangeProgress;

    closed spec fn view(&self) -> ChangeProgress {
        ChangeProgress {
            mode: self.mode,
            limits: self.limits,
            steps: step_views(self.steps@),
            done: self.done as int,
        }
    }
}

/// What came of a step.
#[derive(Debug)]
pub enum StepOutcome {
    /// It was done.
    Done,
    /// `powerprofilesctl` ran and refused.
    Refused,
    /// It failed for this reason.
    Failed(String),
    /// The CPU policies were listed.
    Policies(Vec<Result<PolicyEntry, String>>),
}

/// What follows a step.
#[derive(Debug, Clone)]
pub enum ChangeStatus {
    /// Another step.
    Continue,
    /// The change is complete.
    Complete,
    /// It failed with this error.
    Failed(String),
}

/// An outcome that this step can have. A step that stops the change is done as it is.
pub open spec fn outcome_fits(step: PowerStepView, outcome: StepOutcome) -> bool {
    match step {
        PowerStepView::SelectProfile { .. } => !(outcome is Policies),
        PowerStepView::Write { .. } => outcome is Done || outcome is Failed,
        PowerStepView::ListPolicies => outcome is Policies || outcome is Failed,
        PowerStepView::Stop { .. } => outcome is Done,
    }
}

/// What is told where a step fails.
pub open spec fn step_error(step: PowerStepView, outcome: StepOutcome) -> Option<Seq<char>> {
    match step {
        PowerStepView::SelectProfile { profile } => match outcome {
            StepOutcome::Failed(reason) => Some("Failed to run powerprofilesctl: "@ + reason@),
            StepOutcome::Refused => Some("powerprofilesctl rejected "@ + profile + " mode"@),
            _ => None,
        },
        PowerStepView::Write { path, text, failure } => match outcome {
            StepOutcome::Failed(reason) => Some(failure + reason@),
            _ => None,
        },
        PowerStepView::ListPolicies => match outcome {
            StepOutcome::Failed(reason) => Some("Failed to enumerate CPU policies: "@ + reason@),
            _ => None,
        },
        PowerStepView::Stop { error } => Some(error),
    }
}

/// The steps that are known once a step is done: listing the CPU policies brings the rest.
pub open spec fn steps_after(p: ChangeProgress, outcome: StepOutcome) -> Seq<PowerStepView> {
    if p.steps[p.done] is ListPolicies {
        match outcome {
            StepOutcome::Policies(entries) => p.steps + policy_steps(p.mode, entries@)
                + limit_steps(p.limits),
            _ => p.steps,
        }
    } else {
        p.steps
    }
}

/// Begins a change to the profile `mode` with these limits.
pub fn apply_performance_mode(mode: &PerformanceMode, limits: &PowerLimits) -> (r: Result<
    PerformanceChange,
    String,
>)
    ensures
        match r {
            Ok(change) => {
                &&& limits_error(*limits) is None
                &&& change@ == (ChangeProgress {
                    mode: *mode,
                    limits: *limits,
                    steps: opening_steps(*mode),
                    done: 0,
                })
                &&& change.under_way()
            },
            Err(e) => limits_error(*limits) == Some(e@),
        },
{
    match validate_limits(limits) {
        Ok(()) => {},
        Err(e) => {
            return Err(e);
        },
    }
    let mut steps: Vec<PowerStep> = Vec::new();
    steps.push(PowerStep::SelectProfile { profile: mode.powerprofiles_mode().to_string() });
    steps.push(
        PowerStep::Write {
            path:
                "/sys/devices/platform/asus-nb-wmi/platform-profile/platform-profile-0/profile".to_string(),
            text: mode.as_asus_profile().to_string(),
            failure: text::concat3("Failed to select ASUS ", mode.as_asus_profile(), " profile: "),
        },
    );
    steps.push(PowerStep::ListPolicies);
    assert(step_views(steps@) =~= opening_steps(*mode));
    Ok(PerformanceChange { mode: *mode, limits: *limits, steps, done: 0 })
}

fn push_limit_step(steps: &mut Vec<PowerStep>, index: u64, watts: u16)
    requires
        index < 3,
    ensures
        step_views(final(steps)@) == step_views(old(steps)@).push(limit_step(index as nat, watts)),
{
    let path: String = text::concat3(
        "/sys/devices/virtual/powercap/intel-rapl-mmio/intel-rapl-mmio:0/constraint_",
        text::decimal_text(index).as_str(),
        "_power_limit_uw",
    );
    let mut failure: String = text::concat3(
        "Failed to set PL",
        text::decimal_text(index + 1).as_str(),
        " to ",
    );
    failure.append(text::decimal_text(watts as u64).as_str());
    failure.append(" W: ");
    let step: PowerStep = PowerStep::Write {
        path,
        text: text::decimal_text(watts as u64 * 1_000_000),
        failure,
    };
    steps.push(step);
    assert(step@ == limit_step(index as nat, watts));
    assert(step_views(steps@) =~= step_views(old(steps)@).push(step@));
}

fn push_limit_steps(steps: &mut Vec<PowerStep>, limits: &PowerLimits)
    ensures
        step_views(final(steps)@) == step_views(old(steps)@) + limit_steps(*limits),
{
    push_limit_step(steps, 0, limits.pl1_watts);
    push_limit_step(steps, 1, limits.pl2_watts);
    push_limit_step(steps, 2, limits.pl3_watts);
    assert(step_views(steps@) =~= step_views(old(steps)@) + limit_steps(*limits));
}

fn push_policy_steps(
    steps: &mut Vec<PowerStep>,
    mode: &PerformanceMode,
    entries: &Vec<Result<PolicyEntry, String>>,
)
    ensures
        step_views(final(steps)@) == step_views(old(steps)@) + policy_steps(*mode, entries@),
{
    let ghost before = step_views(steps@);
    let mut i: usize = 0;
    assert(step_views(steps@) =~= before + policy_steps(*mode, entries@.take(0)));
    while i < entries.len()
        invariant
            i <= entries@.len(),
            before == step_views(old(steps)@),
            step_views(steps@) == before + policy_steps(*mode, entries@.take(i as int)),
        decreases entries@.len() - i,
    {
        let ghost so_far = step_views(steps@);
        assert(entries@.take(i + 1).drop_last() =~= entries@.take(i as int));
        match &entries[i] {
            Err(error) => {
                let step: PowerStep = PowerStep::Stop { error: error.as_str().to_string() };
                steps.push(step);
                assert(step_views(steps@) =~= so_far.push(step@));
            },
            Ok(entry) => {
                let policy: bool = match &entry.name {
                    Some(name) => text::starts_with(name.as_str(), "policy"),
                    None => false,
                };
                if policy && entry.has_preference {
                    let path: String = text::concat2(
                        entry.path.as_str(),
                        "/energy_performance_preference",
                    );
                    let failure: String = text::concat3("Failed to set ", path.as_str(), ": ");
                    let step: PowerStep = PowerStep::Write {
                        path,
                        text: mode.epp().to_string(),
                        failure,
                    };
                    steps.push(step);
                    assert(step_views(steps@) =~= so_far.push(step@));
                }
            },
        }
        assert(step_views(steps@) =~= before + policy_steps(*mode, entries@.take(i + 1)));
        i += 1;
    }
    assert(entries@.take(i as int) =~= entries@);
}

impl PerformanceChange {
    /// A step is under way.
    pub open spec fn under_way(&self) -> bool {
        0 <= self@.done < self@.steps.len()
    }

    /// Whether a step is under way.
    pub fn is_under_way(&self) -> (r: bool)
        ensures
            r == self.under_way(),
    {
        self.done < self.steps.len()
    }

    /// The step that is under way.
    pub fn step(&self) -> (r: &PowerStep)
        requires
            self.under_way(),
        ensures
            r@ == self@.steps[self@.done],
    {
        &self.steps[self.done]
    }

    /// Whether the step that is under way can have this outcome.
    pub fn can_end_as(&self, outcome: &StepOutcome) -> (r: bool)
        requires
            self.under_way(),
        ensures
            r == outcome_fits(self@.steps[self@.done], *outcome),
    {
        match (&self.steps[self.done], outcome) {
            (PowerStep::SelectProfile { .. }, StepOutcome::Policies(_)) => false,
            (PowerStep::SelectProfile { .. }, _) => true,
            (PowerStep::Write { .. }, StepOutcome::Done) => true,
            (PowerStep::Write { .. }, StepOutcome::Failed(_)) => true,
            (PowerStep::ListPolicies, StepOutcome::Policies(_)) => true,
            (PowerStep::ListPolicies, StepOutcome::Failed(_)) => true,
            (PowerStep::Stop { .. }, StepOutcome::Done) => true,
            _ => false,
        }
    }

    /// Takes over what came of the step that is under way. A step that failed ends the change.
    pub fn finished(&mut self, outcome: StepOutcome) -> (r: ChangeStatus)
        requires
            old(self).under_way(),
            outcome_fits(old(self)@.steps[old(self)@.done], outcome),
        ensures
            final(self)@.mode == old(self)@.mode,
            final(self)@.limits == old(self)@.limits,
            match step_error(old(self)@.steps[old(self)@.done], outcome) {
                Some(error) => {
                    &&& r matches ChangeStatus::Failed(e)
                    &&& e@ == error
                    &&& final(self)@ == old(self)@
                },
                None => {
                    &&& final(self)@.steps == steps_after(old(self)@, outcome)
                    &&& final(self)@.done == old(self)@.done + 1
                    &&& if final(self).under_way() {
                        r is Continue
                    } else {
                        r is Complete
                    }
                },
            },
    {
        let known: usize = self.steps.len();
        assert(self.done < known);
        let next: usize = self.done + 1;
        let error: Option<String> = step_failure(&self.steps[self.done], &outcome);
        if let Some(error) = error {
            return ChangeStatus::Failed(error);
        }
        if let StepOutcome::Policies(entries) = &outcome {
            push_policy_steps(&mut self.steps, &self.mode, entries);
            push_limit_steps(&mut self.steps, &self.limits);
        }
        self.done = next;
        if self.done < self.steps.len() {
            ChangeStatus::Continue
        } else {
            ChangeStatus::Complete
        }
    }
}

fn step_failure(step: &PowerStep, outcome: &StepOutcome) -> (r: Option<String>)
    ensures
        match r {
            Some(e) => step_error(step@, *outcome) == Some(e@),
            None => step_error(step@, *outcome) is None,
        },
{
    match step {
        PowerStep::SelectProfile { profile } => match outcome {
            StepOutcome::Failed(reason) => Some(
                text::concat2("Failed to run powerprofilesctl: ", reason.as_str()),
            ),
            StepOutcome::Refused => Some(
                text::concat3("powerprofilesctl rejected ", profile.as_str(), " mode"),
            ),
            _ => None,
        },
        PowerStep::Write { path: _, text: _, failure } => match outcome {
            StepOutcome::Failed(reason) => Some(text::concat2(failure.as_str(), reason.as_str())),
            _ => None,
        },
        PowerStep::ListPolicies => match outcome {
            StepOutcome::Failed(reason) => Some(
                text::concat2("Failed to enumerate CPU policies: ", reason.as_str()),
            ),
            _ => None,
        },
        PowerStep::Stop { error } => Some(error.as_str().to_string()),
    }
}

/// The limits that the profiles have by default are accepted.
pub proof fn law_default_limits_are_accepted(mode: PerformanceMode)
    ensures
        limits_error(crate::models::settings::default_profiles().limits_of(mode)) is None,
{
}

/// Limits that are accepted are all at least 5 W.
pub proof fn law_accepted_limits_have_a_floor(limits: PowerLimits)
    requires
        limits_error(limits) is None,
    ensures
        5 <= limits.pl1_watts <= 100,
        5 <= limits.pl2_watts <= 150,
        5 <= limits.pl3_watts <= 200,
{
}

/// The power limits are set last, after the profile and every CPU policy, and in their order.
pub proof fn law_limits_are_set_last(p: ChangeProgress, entries: Vec<Result<PolicyEntry, String>>)
    requires
        0 <= p.done < p.steps.len(),
        p.steps[p.done] is ListPolicies,
    ensures
        ({
            let steps = steps_after(p, StepOutcome::Policies(entries));
            let n = steps.len();
            &&& n >= 3
            &&& steps[n - 3] == limit_step(0, p.limits.pl1_watts)
            &&& steps[n - 2] == limit_step(1, p.limits.pl2_watts)
            &&& steps[n - 1] == limit_step(2, p.limits.pl3_watts)
            &&& p.steps.is_prefix_of(steps)
        }),
{
    let steps = steps_after(p, StepOutcome::Policies(entries));
    assert(p.steps =~= steps.subrange(0, p.steps.len() as int));
}

/// What is written as a power limit reads back as its watts, in microwatts.
pub proof fn law_limits_are_written_in_microwatts(index: nat, watts: u16)
    ensures
        text::digits_value(limit_step(index, watts)->Write_text) == watts * 1_000_000,
{
    text::lemma_decimal_reads_back((watts * 1_000_000) as nat);
}

/// Limits are accepted exactly where PL1 lies between 5 and 100 W, PL2 is at most 150 W and PL3 at
/// most 200 W, and none is above the next. A range that is missed is told first.
pub proof fn law_limits_are_accepted_in_range_and_order(limits: PowerLimits, r: Result<(), String>)
    requires
        call_ensures(validate_limits, (&limits,), r),
    ensures
        ({
            let (a, b, c) = (limits.pl1_watts, limits.pl2_watts, limits.pl3_watts);
            let in_range = 5 <= a <= 100 && b <= 150 && c <= 200;
            &&& r is Ok <==> in_range && a <= b <= c
            &&& !in_range ==> r->Err_0@
                == "Power limits must be within PL1 5-100 W, PL2 5-150 W, PL3 5-200 W"@
            &&& in_range && !(a <= b <= c) ==> r->Err_0@
                == "Power limits must satisfy PL1 ≤ PL2 ≤ PL3"@
        }),
{
}

/// A change begins exactly with limits that are accepted. It first selects the profile at the
/// power-profiles daemon, then at the ASUS interface, each by its own name for the mode, and then
/// lists the CPU policies.
pub proof fn law_change_begins_with_the_profile(
    mode: PerformanceMode,
    limits: PowerLimits,
    r: Result<PerformanceChange, String>,
    accepted: Result<(), String>,
)
    requires
        call_ensures(apply_performance_mode, (&mode, &limits), r),
        call_ensures(validate_limits, (&limits,), accepted),
    ensures
        r is Ok <==> accepted is Ok,
        r matches Err(e) ==> e@ == accepted->Err_0@,
        r matches Ok(change) ==> {
            let profile = match mode {
                PerformanceMode::Quiet => "power-saver"@,
                PerformanceMode::Balanced => "balanced"@,
                PerformanceMode::Performance => "performance"@,
            };
            let asus = match mode {
                PerformanceMode::Quiet => "quiet"@,
                PerformanceMode::Balanced => "balanced"@,
                PerformanceMode::Performance => "performance"@,
            };
            &&& change@.mode == mode
            &&& change@.limits == limits
            &&& change@.done == 0
            &&& change@.steps.len() == 3
            &&& change@.steps[0] == PowerStepView::SelectProfile { profile }
            &&& change@.steps[1] == PowerStepView::Write {
                path:
                    "/sys/devices/platform/asus-nb-wmi/platform-profile/platform-profile-0/profile"@,
                text: asus,
                failure: "Failed to select ASUS "@ + asus + " profile: "@,
            }
            &&& change@.steps[2] == PowerStepView::ListPolicies
        },
{
}

/// Whatever the CPU policies are, each step that they bring writes the preference of the chosen
/// mode, or stops the change.
pub proof fn law_cpus_get_the_preference_of_the_mode(
    mode: PerformanceMode,
    entries: Seq<Result<PolicyEntry, String>>,
    i: int,
)
    requires
        0 <= i < policy_steps(mode, entries).len(),
    ensures
        policy_steps(mode, entries)[i] is Write || policy_steps(mode, entries)[i] is Stop,
        policy_steps(mode, entries)[i] matches PowerStepView::Write { path, text, failure } ==> text
            == (match mode {
            PerformanceMode::Quiet => "power"@,
            PerformanceMode::Balanced => "balance_performance"@,
            PerformanceMode::Performance => "performance"@,
        }),
    decreases entries.len(),
{
    if entries.len() > 0 {
        let before = policy_steps(mode, entries.drop_last());
        if i < before.len() {
            law_cpus_get_the_preference_of_the_mode(mode, entries.drop_last(), i);
        }
    }
}

/// One more entry brings one more step, after those of the others: a policy that takes a
/// preference is written it, in its own file; an entry that could not be read stops the change,
/// in its own words. Any other entry brings none.
pub proof fn law_every_cpu_policy_is_written_once(
    mode: PerformanceMode,
    entries: Seq<Result<PolicyEntry, String>>,
    entry: PolicyEntry,
    error: String,
)
    ensures
        policy_steps(mode, Seq::empty()) == Seq::<PowerStepView>::empty(),
        policy_steps(mode, entries.push(Err(error))) == policy_steps(mode, entries).push(
            PowerStepView::Stop { error: error@ },
        ),
        ({
            let path = entry.path@ + "/energy_performance_preference"@;
            let with = policy_steps(mode, entries.push(Ok(entry)));
            let without = policy_steps(mode, entries);
            if entry.name is Some && text::matches_at(entry.name->0@, "policy"@, 0)
                && entry.has_preference {
                &&& with.len() == without.len() + 1
                &&& with.drop_last() == without
                &&& with.last() matches PowerStepView::Write { path: to, text, failure }
                &&& to == path
                &&& failure == "Failed to set "@ + path + ": "@
            } else {
                with == without
            }
        }),
{
    assert(entries.push(Ok(entry)).drop_last() =~= entries);
    assert(entries.push(Err(error)).drop_last() =~= entries);
}

/// Once the CPU policies are listed, the rest of the change is known: what was known, then the
/// steps of the policies in the chosen mode, then PL1, PL2 and PL3 in microwatts, each in the file
/// with its number.
pub proof fn law_limits_follow_the_policies(
    change: &mut PerformanceChange,
    entries: Vec<Result<PolicyEntry, String>>,
    r: ChangeStatus,
)
    requires
        old(change).under_way(),
        old(change)@.steps[old(change)@.done] is ListPolicies,
        call_ensures(PerformanceChange::finished, (change, StepOutcome::Policies(entries)), r),
    ensures
        ({
            let known = old(change)@.steps;
            let policies = policy_steps(old(change)@.mode, entries@);
            let steps = final(change)@.steps;
            let limits = old(change)@.limits;
            let n = known.len() + policies.len();
            let file = "/sys/devices/virtual/powercap/intel-rapl-mmio/intel-rapl-mmio:0/constraint_"@;
            &&& steps.len() == n + 3
            &&& steps.take(known.len() as int) == known
            &&& steps.subrange(known.len() as int, n as int) == policies
            &&& forall|k: int|
                0 <= k < 3 ==> {
                    let watts = if k == 0 {
                        limits.pl1_watts
                    } else if k == 1 {
                        limits.pl2_watts
                    } else {
                        limits.pl3_watts
                    };
                    &&& #[trigger] steps[n + k] matches PowerStepView::Write { path, text, failure }
                    &&& path == file + text::decimal(k as nat) + "_power_limit_uw"@
                    &&& text::unsigned_number(text, u64::MAX as int) == Some(watts * 1_000_000)
                    &&& failure == "Failed to set PL"@ + text::decimal((k + 1) as nat) + " to "@
                        + text::decimal(watts as nat) + " W: "@
                }
            &&& r is Continue
        }),
{
    let known = old(change)@.steps;
    let policies = policy_steps(old(change)@.mode, entries@);
    let steps = known + policies + limit_steps(old(change)@.limits);
    let n = known.len() + policies.len();
    assert(steps.take(known.len() as int) =~= known);
    assert(steps.subrange(known.len() as int, n as int) =~= policies);
    let limits = old(change)@.limits;
    text::law_signed_decimal_reads_back(limits.pl1_watts * 1_000_000, u64::MAX as int);
    text::law_signed_decimal_reads_back(limits.pl2_watts * 1_000_000, u64::MAX as int);
    text::law_signed_decimal_reads_back(limits.pl3_watts * 1_000_000, u64::MAX as int);
}

/// A step that is done leads to the next one, and the last one completes the change. A step that
/// failed, was refused or stops the change ends it with its own words, and leaves it where it
/// was.
pub proof fn law_change_moves_on_or_fails(
    change: &mut PerformanceChange,
    outcome: StepOutcome,
    r: ChangeStatus,
)
    requires
        old(change).under_way(),
        outcome_fits(old(change)@.steps[old(change)@.done], outcome),
        call_ensures(PerformanceChange::finished, (change, outcome), r),
    ensures
        ({
            let step = old(change)@.steps[old(change)@.done];
            &&& r is Failed <==> step is Stop || outcome is Failed || outcome is Refused
            &&& r is Failed ==> final(change)@ == old(change)@
            &&& !(r is Failed) ==> final(change)@.done == old(change)@.done + 1
            &&& !(r is Failed) ==> (r is Complete <==> final(change)@.done
                == final(change)@.steps.len())
            &&& !(r is Failed) && !(step is ListPolicies) ==> final(change)@.steps
                == old(change)@.steps
            &&& final(change)@.mode == old(change)@.mode
            &&& final(change)@.limits == old(change)@.limits
            &&& r matches ChangeStatus::Failed(e) ==> match (step, outcome) {
                (PowerStepView::Stop { error }, _) => e@ == error,
                (PowerStepView::SelectProfile { profile }, StepOutcome::Refused) => e@
                    == "powerprofilesctl rejected "@ + profile + " mode"@,
                (PowerStepView::SelectProfile { profile }, StepOutcome::Failed(reason)) => e@
                    == "Failed to run powerprofilesctl: "@ + reason@,
                (
                    PowerStepView::Write { path, text, failure },
                    StepOutcome::Failed(reason),
                ) => e@ == failure + reason@,
                (PowerStepView::ListPolicies, StepOutcome::Failed(reason)) => e@
                    == "Failed to enumerate CPU policies: "@ + reason@,
                _ => true,
            }
        }),
{
}

/// The step under way is the one whose number is that of the steps done, and a profile is only
/// ever selected or refused, a file written or not, and policies listed or not.
pub proof fn law_step_under_way_is_the_next(
    change: PerformanceChange,
    r: &PowerStep,
    under_way: bool,
    outcome: StepOutcome,
    fits: bool,
)
    requires
        change.under_way(),
        call_ensures(PerformanceChange::step, (&change,), r),
        call_ensures(PerformanceChange::is_under_way, (&change,), under_way),
        call_ensures(PerformanceChange::can_end_as, (&change, &outcome), fits),
    ensures
        r@ == change@.steps[change@.done],
        under_way <==> 0 <= change@.done < change@.steps.len(),
        fits <==> (match change@.steps[change@.done] {
            PowerStepView::SelectProfile { profile } => outcome is Done || outcome is Refused
                || outcome is Failed,
            PowerStepView::Write { path, text, failure } => outcome is Done || outcome is Failed,
            PowerStepView::ListPolicies => outcome is Policies || outcome is Failed,
            PowerStepView::Stop { error } => outcome is Done,
        }),
{
}

}
