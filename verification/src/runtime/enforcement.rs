//! Carrying out what the policy asks for.

use vstd::prelude::*;

use crate::models::event::{
    appended, daemon_info, push_daemon_info, EventCategory, EventRecord, EventSeverity,
};
use crate::models::settings::Real;
use crate::models::status::DuoStatus;
use crate::runtime::policy::PolicyAction;
use crate::runtime::state::RuntimeState;
use crate::text;

verus! {

/// Turning the lower panel on is left out: the keyboard is gone and the panel is off, and that
/// is not the runtime's doing, so the driver has lost it.
pub open spec fn recovery_skipped(
    attached: bool,
    secondary_panel_enabled: bool,
    secondary_panel_disabled_by_runtime: bool,
) -> bool {
    !attached && !secondary_panel_enabled && !secondary_panel_disabled_by_runtime
}

/// Whether turning the lower panel on is left out.
pub fn should_skip_detached_secondary_recovery(
    attached: bool,
    secondary_panel_enabled: bool,
    secondary_panel_disabled_by_runtime: bool,
) -> (r: bool)
    ensures
        r == recovery_skipped(
            attached,
            secondary_panel_enabled,
            secondary_panel_disabled_by_runtime,
        ),
{
    !attached && !secondary_panel_enabled && !secondary_panel_disabled_by_runtime
}

/// What an action comes to, with the lower panel as it is.
#[derive(Debug, Clone, Copy, PartialEq, Eq, Structural)]
pub enum PolicyEffect {
    EnableBluetooth,
    SetBacklight(u8),
    SetBluetoothBacklight(u8),
    ApplyDockMode { attached: bool, scale: Real },
    /// The dock mode is left as it is, and the user is told.
    ProtectDisplay,
}

/// What an action comes to.
pub open spec fn effect_of(
    action: PolicyAction,
    secondary_panel_enabled: bool,
    secondary_panel_disabled_by_runtime: bool,
) -> PolicyEffect {
    match action {
        PolicyAction::EnsureBluetoothEnabled => PolicyEffect::EnableBluetooth,
        PolicyAction::SetBacklight(level) => PolicyEffect::SetBacklight(level),
        PolicyAction::SetBluetoothBacklight(level) => PolicyEffect::SetBluetoothBacklight(level),
        PolicyAction::SetDockMode { attached, scale } => if recovery_skipped(
            attached,
            secondary_panel_enabled,
            secondary_panel_disabled_by_runtime,
        ) {
            PolicyEffect::ProtectDisplay
        } else {
            PolicyEffect::ApplyDockMode { attached, scale }
        },
    }
}

/// Decides what an action comes to.
pub fn policy_effect(
    state: &RuntimeState,
    action: &PolicyAction,
    secondary_panel_enabled: bool,
) -> (r: PolicyEffect)
    ensures
        r == effect_of(
            *action,
            secondary_panel_enabled,
            state.secondary_panel_disabled_by_runtime,
        ),
{
    match action {
        PolicyAction::EnsureBluetoothEnabled => PolicyEffect::EnableBluetooth,
        PolicyAction::SetBacklight(level) => PolicyEffect::SetBacklight(*level),
        PolicyAction::SetBluetoothBacklight(level) => PolicyEffect::SetBluetoothBacklight(*level),
        PolicyAction::SetDockMode { attached, scale } => if should_skip_detached_secondary_recovery(
            *attached,
            secondary_panel_enabled,
            state.secondary_panel_disabled_by_runtime,
        ) {
            PolicyEffect::ProtectDisplay
        } else {
            PolicyEffect::ApplyDockMode { attached: *attached, scale: *scale }
        },
    }
}

/// What remains to be done after an effect.
#[derive(Debug, Clone)]
pub enum PolicyFollowUp {
    Nothing,
    /// The state has changed and is to be saved.
    Save,
    /// No session agent is there yet; the dock mode is replayed when one registers.
    AwaitReplay,
    /// The user is to be told.
    Notify { title: String, message: String },
}

/// What remains to be done after an effect, with the characters of what the user is told.
pub enum FollowUp {
    Nothing,
    Save,
    AwaitReplay,
    Notify { title: Seq<char>, message: Seq<char> },
}

impl View for PolicyFollowUp {
    type V = FollowUp;

    open spec fn view(&self) -> FollowUp {
        match self {
            PolicyFollowUp::Nothing => FollowUp::Nothing,
            PolicyFollowUp::Save => FollowUp::Save,
            PolicyFollowUp::AwaitReplay => FollowUp::AwaitReplay,
            PolicyFollowUp::Notify { title, message } => FollowUp::Notify {
                title: title@,
                message: message@,
            },
        }
    }
}

/// The user is told of a failure.
pub open spec fn told_of_failure(message: Seq<char>) -> FollowUp {
    FollowUp::Notify { title: "Zenbook Duo Runtime Error"@, message }
}

/// What remains to be done after an effect with the outcome `failure`.
pub open spec fn follow_up(effect: PolicyEffect, failure: Option<Seq<char>>) -> FollowUp {
    match effect {
        PolicyEffect::ProtectDisplay => FollowUp::Notify {
            title: "Zenbook Duo Display Protection"@,
            message: "The xe driver has disabled eDP-2. Automatic dual-screen recovery was skipped to avoid a compositor freeze; reconnect the keyboard or reboot before retrying."@,
        },
        PolicyEffect::EnableBluetooth => match failure {
            None => FollowUp::Nothing,
            Some(err) => told_of_failure(
                "Could not enable Bluetooth for detached keyboard: "@ + err,
            ),
        },
        PolicyEffect::SetBacklight(level) => match failure {
            None => FollowUp::Save,
            Some(err) => told_of_failure("Backlight policy action failed: "@ + err),
        },
        PolicyEffect::SetBluetoothBacklight(level) => match failure {
            None => FollowUp::Save,
            Some(err) => told_of_failure("Bluetooth keyboard backlight restore failed: "@ + err),
        },
        PolicyEffect::ApplyDockMode { attached, scale } => match failure {
            None => FollowUp::Save,
            Some(err) => if err == "No session agent registered"@ {
                FollowUp::AwaitReplay
            } else {
                told_of_failure("Dock-mode policy action failed: "@ + err)
            },
        },
    }
}

/// The entry that setting the backlight adds to the log.
pub open spec fn backlight_set_entry(effect: PolicyEffect) -> EventRecord {
    daemon_info(
        EventCategory::Keyboard,
        match effect {
            PolicyEffect::SetBluetoothBacklight(level) => "Backlight restored to "@ + text::decimal(
                level as nat,
            ) + " over Bluetooth"@,
            PolicyEffect::SetBacklight(level) => "Backlight set to "@ + text::decimal(level as nat),
            _ => Seq::empty(),
        },
    )
}

/// How an effect that succeeded changes the state.
pub open spec fn effect_recorded(
    before: RuntimeState,
    after: RuntimeState,
    effect: PolicyEffect,
    secondary_panel_was_enabled: bool,
    boot_id: Option<String>,
) -> bool {
    match effect {
        PolicyEffect::EnableBluetooth => after == before,
        PolicyEffect::ProtectDisplay => after == before,
        PolicyEffect::ApplyDockMode { attached, scale } => {
            &&& after == (RuntimeState {
                last_updated: after.last_updated,
                ..before.with_dock_mode_recorded(attached, secondary_panel_was_enabled, boot_id)
            })
            &&& after.last_updated.is_clock_time()
        },
        PolicyEffect::SetBacklight(level) => backlight_recorded(before, after, effect, level),
        PolicyEffect::SetBluetoothBacklight(level) => backlight_recorded(
            before,
            after,
            effect,
            level,
        ),
    }
}

/// How setting the backlight changes the state.
pub open spec fn backlight_recorded(
    before: RuntimeState,
    after: RuntimeState,
    effect: PolicyEffect,
    level: u8,
) -> bool {
    &&& after == (RuntimeState {
        status: (DuoStatus { backlight_level: level, ..before.status }),
        recent_events: after.recent_events,
        last_updated: after.last_updated,
        ..before
    })
    &&& after.last_updated.is_clock_time()
    &&& appended(
        before.recent_events@,
        after.recent_events@,
        seq![backlight_set_entry(effect)],
    )
}

/// Records a backlight level that the keyboard has taken.
fn record_backlight(
    state: &mut RuntimeState,
    level: u8,
    message: &str,
    Ghost(effect): Ghost<PolicyEffect>,
)
    requires
        daemon_info(EventCategory::Keyboard, message@) == backlight_set_entry(effect),
    ensures
        backlight_recorded(*old(state), *final(state), effect, level),
{
    state.status.backlight_level = level;
    push_daemon_info(&mut state.recent_events, EventCategory::Keyboard, message);
    state.touch();
}

fn failure_notice(what: &str, err: &str) -> (r: PolicyFollowUp)
    ensures
        r@ == told_of_failure(what@ + err@),
{
    PolicyFollowUp::Notify {
        title: "Zenbook Duo Runtime Error".to_string(),
        message: text::concat2(what, err),
    }
}

/// The error of an outcome, by its characters.
pub open spec fn failure_of(outcome: Result<(), String>) -> Option<Seq<char>> {
    match outcome {
        Ok(_) => None,
        Err(err) => Some(err@),
    }
}

/// Takes over the outcome of an effect. `secondary_panel_was_enabled` tells how the lower panel
/// was before it, and `boot_id` identifies the running boot. An effect that failed leaves the
/// state as it was.
pub fn finish_policy_effect(
    state: &mut RuntimeState,
    effect: PolicyEffect,
    outcome: Result<(), String>,
    secondary_panel_was_enabled: bool,
    boot_id: Option<String>,
) -> (r: PolicyFollowUp)
    ensures
        r@ == follow_up(effect, failure_of(outcome)),
        outcome is Ok ==> effect_recorded(
            *old(state),
            *final(state),
            effect,
            secondary_panel_was_enabled,
            boot_id,
        ),
        outcome is Err ==> *final(state) == *old(state),
{
    match effect {
        PolicyEffect::ProtectDisplay => PolicyFollowUp::Notify {
            title: "Zenbook Duo Display Protection".to_string(),
            message:
                "The xe driver has disabled eDP-2. Automatic dual-screen recovery was skipped to avoid a compositor freeze; reconnect the keyboard or reboot before retrying.".to_string(),
        },
        PolicyEffect::EnableBluetooth => match outcome {
            Ok(()) => PolicyFollowUp::Nothing,
            Err(err) => failure_notice(
                "Could not enable Bluetooth for detached keyboard: ",
                err.as_str(),
            ),
        },
        PolicyEffect::SetBacklight(level) => match outcome {
            Ok(()) => {
                let message: String = text::concat2(
                    "Backlight set to ",
                    text::decimal_text(level as u64).as_str(),
                );
                record_backlight(state, level, message.as_str(), Ghost(effect));
                PolicyFollowUp::Save
            },
            Err(err) => failure_notice("Backlight policy action failed: ", err.as_str()),
        },
        PolicyEffect::SetBluetoothBacklight(level) => match outcome {
            Ok(()) => {
                let message: String = text::concat3(
                    "Backlight restored to ",
                    text::decimal_text(level as u64).as_str(),
                    " over Bluetooth",
                );
                record_backlight(state, level, message.as_str(), Ghost(effect));
                PolicyFollowUp::Save
            },
            Err(err) => failure_notice(
                "Bluetooth keyboard backlight restore failed: ",
                err.as_str(),
            ),
        },
        PolicyEffect::ApplyDockMode { attached, scale: _ } => match outcome {
            Ok(()) => {
                state.record_successful_dock_mode(attached, secondary_panel_was_enabled, boot_id);
                state.touch();
                PolicyFollowUp::Save
            },
            Err(err) => if text::same(err.as_str(), "No session agent registered") {
                PolicyFollowUp::AwaitReplay
            } else {
                failure_notice("Dock-mode policy action failed: ", err.as_str())
            },
        },
    }
}

/// An action that has begun.
#[derive(Debug, Clone, Copy, PartialEq, Eq, Structural)]
pub struct BegunAction {
    /// What it came to.
    pub effect: PolicyEffect,
    /// Whether the lower panel was on then.
    pub secondary_panel_enabled: bool,
}

/// How far a list of actions has been carried out.
pub struct PolicyProgress {
    pub actions: Seq<PolicyAction>,
    /// The number of actions that are over.
    pub done: int,
    /// The next action, where it has begun.
    pub begun: Option<BegunAction>,
}

/// Nothing of a list of actions has been carried out.
pub open spec fn policy_start(actions: Seq<PolicyAction>) -> PolicyProgress {
    PolicyProgress { actions, done: 0, begun: None }
}

/// The next action begins, if there is one, and comes to this.
pub open spec fn action_begun(
    p: PolicyProgress,
    secondary_panel_enabled: bool,
    secondary_panel_disabled_by_runtime: bool,
) -> (PolicyProgress, Option<PolicyEffect>) {
    if 0 <= p.done < p.actions.len() {
        let effect = effect_of(
            p.actions[p.done],
            secondary_panel_enabled,
            secondary_panel_disabled_by_runtime,
        );
        (
            PolicyProgress { begun: Some(BegunAction { effect, secondary_panel_enabled }), ..p },
            Some(effect),
        )
    } else {
        (PolicyProgress { begun: None, ..p }, None)
    }
}

/// The action that has begun is over, whatever the outcome.
pub open spec fn action_over(p: PolicyProgress, outcome: Result<(), String>) -> PolicyProgress {
    PolicyProgress { done: p.done + 1, begun: None, ..p }
}

/// A list of actions that is carried out one by one.
#[derive(Debug)]
pub struct PolicyRun {
    actions: Vec<PolicyAction>,
    done: usize,
    begun: Option<BegunAction>,
}

impl View for PolicyRun {
    type V = PolicyProgress;

    closed spec fn view(&self) -> PolicyProgress {
        PolicyProgress { actions: self.actions@, done: self.done as int, begun: self.begun }
    }
}

/// Begins to carry out a list of actions.
pub fn apply_policy_actions(actions: Vec<PolicyAction>) -> (r: PolicyRun)
    ensures
        r@ == policy_start(actions@),
{
    PolicyRun { actions, done: 0, begun: None }
}

impl PolicyRun {
    #[verifier::type_invariant]
    spec fn wf(self) -> bool {
        self.begun is Some ==> self.done < self.actions@.len()
    }

    /// The action that is next or under way.
    pub fn action(&self) -> (r: Option<PolicyAction>)
        ensures
            r == (if 0 <= self@.done < self@.actions.len() {
                Some(self@.actions[self@.done])
            } else {
                None
            }),
    {
        if self.done < self.actions.len() {
            Some(self.actions[self.done])
        } else {
            None
        }
    }

    /// Begins the next action. The result is what it comes to, or `None` where all are over.
    pub fn begin(&mut self, state: &RuntimeState, secondary_panel_enabled: bool) -> (r: Option<
        PolicyEffect,
    >)
        ensures
            (final(self)@, r) == action_begun(
                old(self)@,
                secondary_panel_enabled,
                state.secondary_panel_disabled_by_runtime,
            ),
    {
        if self.done < self.actions.len() {
            let effect: PolicyEffect = policy_effect(
                state,
                &self.actions[self.done],
                secondary_panel_enabled,
            );
            self.begun = Some(BegunAction { effect, secondary_panel_enabled });
            Some(effect)
        } else {
            self.begun = None;
            None
        }
    }

    /// Whether an action has begun and is not over.
    pub fn has_begun(&self) -> (r: bool)
        ensures
            r == self@.begun is Some,
    {
        self.begun.is_some()
    }

    /// Takes over the outcome of the action that has begun, and moves on to the next one whatever
    /// it is.
    pub fn finished(
        &mut self,
        state: &mut RuntimeState,
        outcome: Result<(), String>,
        boot_id: Option<String>,
    ) -> (r: PolicyFollowUp)
        requires
            old(self)@.begun is Some,
        ensures
            final(self)@ == action_over(old(self)@, outcome),
            r@ == follow_up(old(self)@.begun->0.effect, failure_of(outcome)),
            outcome is Ok ==> effect_recorded(
                *old(state),
                *final(state),
                old(self)@.begun->0.effect,
                old(self)@.begun->0.secondary_panel_enabled,
                boot_id,
            ),
            outcome is Err ==> *final(state) == *old(state),
    {
        proof {
            use_type_invariant(&*self);
        }
        let known: usize = self.actions.len();
        assert(self.done < known);
        let begun: BegunAction = self.begun.unwrap();
        self.begun = None;
        self.done = self.done + 1;
        finish_policy_effect(
            state,
            begun.effect,
            outcome,
            begun.secondary_panel_enabled,
            boot_id,
        )
    }
}

/// What decides on an action in a run, and what came of it.
pub struct PolicyRound {
    pub secondary_panel_enabled: bool,
    pub secondary_panel_disabled_by_runtime: bool,
    pub outcome: Result<(), String>,
}

/// The effects that are carried out from `p` on, with these rounds.
pub open spec fn effects_carried_out(p: PolicyProgress, rounds: Seq<PolicyRound>) -> Seq<
    PolicyEffect,
>
    decreases rounds.len(),
{
    if rounds.len() == 0 {
        Seq::empty()
    } else {
        let round = rounds.first();
        let (begun, effect) = action_begun(
            p,
            round.secondary_panel_enabled,
            round.secondary_panel_disabled_by_runtime,
        );
        match effect {
            Some(effect) => seq![effect] + effects_carried_out(
                action_over(begun, round.outcome),
                rounds.skip(1),
            ),
            None => Seq::empty(),
        }
    }
}

/// Every action of a list is carried out once, in its order, whatever the earlier ones came to:
/// effect number `i` is that of action number `i`, and after the last there is no more.
pub proof fn law_every_action_is_carried_out_in_order(
    actions: Seq<PolicyAction>,
    rounds: Seq<PolicyRound>,
)
    requires
        rounds.len() >= actions.len(),
    ensures
        effects_carried_out(policy_start(actions), rounds).len() == actions.len(),
        forall|i: int|
            0 <= i < actions.len() ==> #[trigger] effects_carried_out(
                policy_start(actions),
                rounds,
            )[i] == effect_of(
                actions[i],
                rounds[i].secondary_panel_enabled,
                rounds[i].secondary_panel_disabled_by_runtime,
            ),
{
    lemma_effects_carried_out(policy_start(actions), rounds);
}

proof fn lemma_effects_carried_out(p: PolicyProgress, rounds: Seq<PolicyRound>)
    requires
        0 <= p.done <= p.actions.len() <= p.done + rounds.len(),
    ensures
        effects_carried_out(p, rounds).len() == p.actions.len() - p.done,
        forall|i: int|
            0 <= i < p.actions.len() - p.done ==> #[trigger] effects_carried_out(p, rounds)[i]
                == effect_of(
                p.actions[p.done + i],
                rounds[i].secondary_panel_enabled,
                rounds[i].secondary_panel_disabled_by_runtime,
            ),
    decreases rounds.len(),
{
    if p.done < p.actions.len() {
        let round = rounds.first();
        let (begun, _) = action_begun(
            p,
            round.secondary_panel_enabled,
            round.secondary_panel_disabled_by_runtime,
        );
        let next = action_over(begun, round.outcome);
        let rest = rounds.skip(1);
        lemma_effects_carried_out(next, rest);
        assert forall|i: int| 0 <= i < p.actions.len() - p.done implies #[trigger]
        effects_carried_out(p, rounds)[i] == effect_of(
            p.actions[p.done + i],
            rounds[i].secondary_panel_enabled,
            rounds[i].secondary_panel_disabled_by_runtime,
        ) by {
            if i > 0 {
                assert(effects_carried_out(p, rounds)[i] == effects_carried_out(next, rest)[i - 1]);
                assert(rest[i - 1] == rounds[i]);
            }
        }
    }
}

/// The lower display is turned on after a detach only where it is already on, or where it was
/// the runtime that turned it off.
pub proof fn law_lower_display_reopens_only_when_owned(
    action: PolicyAction,
    scale: Real,
    secondary_panel_enabled: bool,
    secondary_panel_disabled_by_runtime: bool,
)
    ensures
        effect_of(action, secondary_panel_enabled, secondary_panel_disabled_by_runtime) == (
        PolicyEffect::ApplyDockMode { attached: false, scale }) ==> secondary_panel_enabled
            || secondary_panel_disabled_by_runtime,
{
}

/// Attaching the keyboard to a machine whose lower display is on, and detaching it again in the
/// same boot, turns the lower display off and on again, whatever the driver reports in between.
pub proof fn law_dock_round_trip_reopens_the_display(
    before: RuntimeState,
    docked: RuntimeState,
    scale: Real,
    boot_id: Option<String>,
    secondary_panel_enabled: bool,
)
    requires
        effect_recorded(
            before,
            docked,
            (PolicyEffect::ApplyDockMode { attached: true, scale }),
            true,
            boot_id,
        ),
    ensures
        effect_of(
            (PolicyAction::SetDockMode { attached: false, scale }),
            secondary_panel_enabled,
            docked.secondary_panel_disabled_by_runtime,
        ) == (PolicyEffect::ApplyDockMode { attached: false, scale }),
{
}

/// Turning the lower display off is never left out.
pub proof fn law_attached_dock_mode_is_always_applied(
    scale: Real,
    secondary_panel_enabled: bool,
    secondary_panel_disabled_by_runtime: bool,
)
    ensures
        effect_of(
            (PolicyAction::SetDockMode { attached: true, scale }),
            secondary_panel_enabled,
            secondary_panel_disabled_by_runtime,
        ) == (PolicyEffect::ApplyDockMode { attached: true, scale }),
{
}

/// How an action is written in a summary; `scale` is how its scale is written.
pub open spec fn action_text(action: PolicyAction, scale: Seq<char>) -> Seq<char> {
    match action {
        PolicyAction::EnsureBluetoothEnabled => "bluetooth:ensure-enabled"@,
        PolicyAction::SetBacklight(level) => "backlight:"@ + text::decimal(level as nat),
        PolicyAction::SetBluetoothBacklight(level) => "bluetooth-backlight:"@ + text::decimal(
            level as nat,
        ),
        PolicyAction::SetDockMode { attached, scale: _ } => "dock:attached="@ + (if attached {
            "true"@
        } else {
            "false"@
        }) + ":scale="@ + scale,
    }
}

/// How actions are written in a summary.
pub open spec fn actions_text(actions: Seq<PolicyAction>, scales: Seq<String>) -> Seq<char> {
    if actions.len() == 0 {
        "none"@
    } else {
        text::joined(
            Seq::new(actions.len(), |i: int| action_text(actions[i], scales[i]@)),
            ","@,
        )
    }
}

fn action_label(action: &PolicyAction, scale: &str) -> (r: String)
    ensures
        r@ == action_text(*action, scale@),
{
    match action {
        PolicyAction::EnsureBluetoothEnabled => "bluetooth:ensure-enabled".to_string(),
        PolicyAction::SetBacklight(level) => text::concat2(
            "backlight:",
            text::decimal_text(*level as u64).as_str(),
        ),
        PolicyAction::SetBluetoothBacklight(level) => text::concat2(
            "bluetooth-backlight:",
            text::decimal_text(*level as u64).as_str(),
        ),
        PolicyAction::SetDockMode { attached, scale: _ } => {
            let mut label: String = text::concat3(
                "dock:attached=",
                if *attached {
                    "true"
                } else {
                    "false"
                },
                ":scale=",
            );
            label.append(scale);
            label
        },
    }
}

/// Writes actions for a log; `scales` holds, for each action, how its scale is written.
pub fn summarize_actions(actions: &Vec<PolicyAction>, scales: &Vec<String>) -> (r: String)
    requires
        scales@.len() == actions@.len(),
    ensures
        r@ == actions_text(actions@, scales@),
{
    if actions.len() == 0 {
        return "none".to_string();
    }
    let mut labels: Vec<String> = Vec::new();
    let mut i: usize = 0;
    while i < actions.len()
        invariant
            i <= actions@.len() == scales@.len(),
            labels@.len() == i,
            forall|k: int|
                0 <= k < i ==> (#[trigger] labels@[k])@ == action_text(actions@[k], scales@[k]@),
        decreases actions@.len() - i,
    {
        labels.push(action_label(&actions[i], scales[i].as_str()));
        i += 1;
    }
    assert(text::views(labels@) =~= Seq::new(
        actions@.len(),
        |k: int| action_text(actions@[k], scales@[k]@),
    ));
    text::join(labels.as_slice(), ",")
}

/// The number of times that the Bluetooth keyboard is tried.
pub const BLUETOOTH_BACKLIGHT_MAX_ATTEMPTS: usize = 12;

/// How long to wait between two attempts, in milliseconds.
pub const BLUETOOTH_BACKLIGHT_RETRY_MILLIS: u64 = 500;

/// How an attempt to set the Bluetooth keyboard's backlight ended.
#[derive(Debug, Clone)]
pub enum AttemptOutcome {
    Done,
    /// The keyboard refused, for this reason.
    Failed(String),
    /// The attempt itself broke off, for this reason.
    Crashed(String),
}

/// Why an attempt failed, if it did.
pub open spec fn attempt_error(outcome: AttemptOutcome) -> Option<Seq<char>> {
    match outcome {
        AttemptOutcome::Done => None,
        AttemptOutcome::Failed(err) => Some(err@),
        AttemptOutcome::Crashed(err) => Some("Bluetooth backlight worker failed: "@ + err@),
    }
}

/// What follows an attempt.
#[derive(Debug, Clone)]
pub enum AttemptStep {
    /// The backlight is set.
    Finished,
    /// Wait, and try once more.
    TryAgain,
    /// Give up, with this error.
    GiveUp(String),
}

/// Attempts to set the Bluetooth keyboard's backlight while the keyboard comes up.
#[derive(Debug)]
pub struct BacklightAttempts {
    attempt: usize,
}

impl BacklightAttempts {
    /// The number of the attempt that is under way, counted from one.
    pub closed spec fn number(self) -> int {
        self.attempt as int
    }

    #[verifier::type_invariant]
    spec fn wf(self) -> bool {
        1 <= self.attempt <= BLUETOOTH_BACKLIGHT_MAX_ATTEMPTS
    }

    /// The first attempt.
    pub fn first() -> (r: BacklightAttempts)
        ensures
            r.number() == 1,
    {
        BacklightAttempts { attempt: 1 }
    }

    /// Takes over the outcome of the attempt that is under way.
    pub fn finished(&mut self, outcome: AttemptOutcome) -> (r: AttemptStep)
        ensures
            1 <= old(self).number() <= BLUETOOTH_BACKLIGHT_MAX_ATTEMPTS,
            match attempt_error(outcome) {
                None => r is Finished && final(self).number() == old(self).number(),
                Some(err) => if old(self).number() < BLUETOOTH_BACKLIGHT_MAX_ATTEMPTS {
                    r is TryAgain && final(self).number() == old(self).number() + 1
                } else {
                    &&& r matches AttemptStep::GiveUp(report)
                    &&& report@ == "after 12 attempts: "@ + err
                    &&& final(self).number() == old(self).number()
                },
            },
    {
        proof {
            use_type_invariant(&*self);
        }
        let error: String = match outcome {
            AttemptOutcome::Done => {
                return AttemptStep::Finished;
            },
            AttemptOutcome::Failed(err) => err,
            AttemptOutcome::Crashed(err) => text::concat2(
                "Bluetooth backlight worker failed: ",
                err.as_str(),
            ),
        };
        if self.attempt < BLUETOOTH_BACKLIGHT_MAX_ATTEMPTS {
            self.attempt = self.attempt + 1;
            AttemptStep::TryAgain
        } else {
            AttemptStep::GiveUp(text::concat2("after 12 attempts: ", error.as_str()))
        }
    }
}

/// What a run of attempts from number `attempt` on has come to once they ended as in `outcomes`:
/// success, an error, or nothing yet.
pub open spec fn attempts_result(attempt: int, outcomes: Seq<AttemptOutcome>) -> Option<
    Result<(), Seq<char>>,
>
    decreases outcomes.len(),
{
    if outcomes.len() == 0 {
        None
    } else {
        match attempt_error(outcomes.first()) {
            None => Some(Ok(())),
            Some(err) => if attempt < BLUETOOTH_BACKLIGHT_MAX_ATTEMPTS {
                attempts_result(attempt + 1, outcomes.skip(1))
            } else {
                Some(Err("after 12 attempts: "@ + err))
            },
        }
    }
}

/// The keyboard is tried at most as often as the limit allows; the first success ends it, and
/// where none of the attempts succeeds the error is that of the last one.
pub proof fn law_backlight_attempts_are_bounded(outcomes: Seq<AttemptOutcome>)
    requires
        outcomes.len() == BLUETOOTH_BACKLIGHT_MAX_ATTEMPTS,
    ensures
        match attempts_result(1, outcomes) {
            Some(Ok(_)) => exists|i: int|
                0 <= i < outcomes.len() && attempt_error(#[trigger] outcomes[i]) is None,
            Some(Err(report)) => {
                &&& forall|i: int|
                    0 <= i < outcomes.len() ==> attempt_error(#[trigger] outcomes[i]) is Some
                &&& report == "after 12 attempts: "@ + attempt_error(outcomes.last())->0
            },
            None => false,
        },
{
    lemma_attempts_result(1, outcomes);
}

proof fn lemma_attempts_result(attempt: int, outcomes: Seq<AttemptOutcome>)
    requires
        1 <= attempt <= BLUETOOTH_BACKLIGHT_MAX_ATTEMPTS,
        outcomes.len() == BLUETOOTH_BACKLIGHT_MAX_ATTEMPTS - attempt + 1,
    ensures
        attempts_result(attempt, outcomes) is Some,
        attempts_result(attempt, outcomes)->0 is Ok ==> exists|i: int|
            0 <= i < outcomes.len() && attempt_error(#[trigger] outcomes[i]) is None,
        attempts_result(attempt, outcomes) matches Some(Err(report)) ==> {
            &&& forall|i: int|
                0 <= i < outcomes.len() ==> attempt_error(#[trigger] outcomes[i]) is Some
            &&& report == "after 12 attempts: "@ + attempt_error(outcomes.last())->0
        },
    decreases outcomes.len(),
{
    if attempt_error(outcomes.first()) is None {
        assert(attempt_error(outcomes[0]) is None);
    } else if attempt < BLUETOOTH_BACKLIGHT_MAX_ATTEMPTS {
        let rest = outcomes.skip(1);
        lemma_attempts_result(attempt + 1, rest);
        if attempts_result(attempt, outcomes)->0 is Ok {
            let i = choose|i: int| 0 <= i < rest.len() && attempt_error(#[trigger] rest[i]) is None;
            assert(attempt_error(outcomes[i + 1]) is None);
        } else {
            assert forall|i: int| 0 <= i < outcomes.len() implies attempt_error(
                #[trigger] outcomes[i],
            ) is Some by {
                if i > 0 {
                    assert(outcomes[i] == rest[i - 1]);
                }
            }
        }
    }
}

/// Each action is carried out as it stands, with its own level or scale. Only a dock mode may be
/// left out: the one that would turn on a lower panel that is off, by no doing of the runtime.
pub proof fn law_actions_are_carried_out_as_they_stand(
    state: RuntimeState,
    action: PolicyAction,
    panel_enabled: bool,
    r: PolicyEffect,
)
    requires
        call_ensures(policy_effect, (&state, &action, panel_enabled), r),
    ensures
        action is EnsureBluetoothEnabled <==> r is EnableBluetooth,
        action matches PolicyAction::SetBacklight(level) ==> r == PolicyEffect::SetBacklight(level),
        action matches PolicyAction::SetBluetoothBacklight(level) ==> r
            == PolicyEffect::SetBluetoothBacklight(level),
        action matches PolicyAction::SetDockMode { attached, scale } ==> (if !attached
            && !panel_enabled && !state.secondary_panel_disabled_by_runtime {
            r is ProtectDisplay
        } else {
            r == (PolicyEffect::ApplyDockMode { attached, scale })
        }),
{
}

/// Turning the lower panel on is left out exactly where the keyboard is gone, the panel is off,
/// and that is not the runtime's doing.
pub proof fn law_lost_panel_is_left_alone(attached: bool, enabled: bool, owned: bool, r: bool)
    requires
        call_ensures(should_skip_detached_secondary_recovery, (attached, enabled, owned), r),
    ensures
        r <==> !(attached || enabled || owned),
{
}

/// An effect that failed leaves the state as it was. The user is told, in the words of the
/// failure, except where a dock mode waits for a session agent to register.
pub proof fn law_failed_effect_is_told(
    state: &mut RuntimeState,
    effect: PolicyEffect,
    err: String,
    panel_was_enabled: bool,
    boot_id: Option<String>,
    r: PolicyFollowUp,
)
    requires
        call_ensures(
            finish_policy_effect,
            (state, effect, Err(err), panel_was_enabled, boot_id),
            r,
        ),
        !(effect is ProtectDisplay),
    ensures
        *final(state) == *old(state),
        r is AwaitReplay <==> effect is ApplyDockMode && err@ == "No session agent registered"@,
        r is AwaitReplay || r is Notify,
        r matches PolicyFollowUp::Notify { title, message } ==> {
            &&& title@ == "Zenbook Duo Runtime Error"@
            &&& message@ == (match effect {
                PolicyEffect::EnableBluetooth =>
                    "Could not enable Bluetooth for detached keyboard: "@,
                PolicyEffect::SetBacklight(_) => "Backlight policy action failed: "@,
                PolicyEffect::SetBluetoothBacklight(_) =>
                    "Bluetooth keyboard backlight restore failed: "@,
                _ => "Dock-mode policy action failed: "@,
            }) + err@
        },
{
}

/// A backlight that was set is recorded at its level, with one entry in the log that tells it,
/// and the state is saved. Nothing else changes.
pub proof fn law_backlight_that_was_set_is_recorded(
    state: &mut RuntimeState,
    effect: PolicyEffect,
    level: u8,
    panel_was_enabled: bool,
    boot_id: Option<String>,
    r: PolicyFollowUp,
)
    requires
        effect == PolicyEffect::SetBacklight(level) || effect
            == PolicyEffect::SetBluetoothBacklight(level),
        call_ensures(
            finish_policy_effect,
            (state, effect, Ok(()), panel_was_enabled, boot_id),
            r,
        ),
    ensures
        r is Save,
        final(state).status == (DuoStatus { backlight_level: level, ..old(state).status }),
        final(state).last_updated.second() >= 0,
        final(state).last_updated.nanosecond() < 1_000_000_000,
        final(state).recent_events@.len() == old(state).recent_events@.len() + 1,
        final(state).recent_events@.drop_last() == old(state).recent_events@,
        ({
            let entry = final(state).recent_events@.last();
            &&& entry.category == EventCategory::Keyboard
            &&& entry.severity == EventSeverity::Info
            &&& entry.source@ == "rust-daemon"@
            &&& entry.message@ == (if effect is SetBacklight {
                "Backlight set to "@ + text::decimal(level as nat)
            } else {
                "Backlight restored to "@ + text::decimal(level as nat) + " over Bluetooth"@
            })
        }),
        *final(state) == (RuntimeState {
            status: final(state).status,
            recent_events: final(state).recent_events,
            last_updated: final(state).last_updated,
            ..*old(state)
        }),
{
}

/// A dock mode that was applied is recorded: the runtime owns the panel's being off exactly where
/// the keyboard is attached and the panel was on, or was owned already; with it the boot is
/// recorded. Nothing else but the time changes, and the state is saved.
pub proof fn law_dock_mode_that_was_applied_is_recorded(
    state: &mut RuntimeState,
    attached: bool,
    scale: Real,
    panel_was_enabled: bool,
    boot_id: Option<String>,
    r: PolicyFollowUp,
)
    requires
        call_ensures(
            finish_policy_effect,
            (
                state,
                PolicyEffect::ApplyDockMode { attached, scale },
                Ok(()),
                panel_was_enabled,
                boot_id,
            ),
            r,
        ),
    ensures
        r is Save,
        final(state).secondary_panel_disabled_by_runtime <==> attached && (panel_was_enabled
            || old(state).secondary_panel_disabled_by_runtime),
        final(state).secondary_panel_disabled_by_runtime
            ==> final(state).secondary_panel_disabled_by_runtime_boot_id == boot_id,
        !final(state).secondary_panel_disabled_by_runtime
            ==> final(state).secondary_panel_disabled_by_runtime_boot_id is None,
        *final(state) == (RuntimeState {
            secondary_panel_disabled_by_runtime: final(state).secondary_panel_disabled_by_runtime,
            secondary_panel_disabled_by_runtime_boot_id:
                final(state).secondary_panel_disabled_by_runtime_boot_id,
            last_updated: final(state).last_updated,
            ..*old(state)
        }),
{
}

/// Powering Bluetooth changes nothing of the state and asks for nothing more; a lower display
/// that is protected changes nothing either, and the user is told.
pub proof fn law_other_effects_leave_the_state_alone(
    state: &mut RuntimeState,
    effect: PolicyEffect,
    panel_was_enabled: bool,
    boot_id: Option<String>,
    r: PolicyFollowUp,
)
    requires
        effect is EnableBluetooth || effect is ProtectDisplay,
        call_ensures(
            finish_policy_effect,
            (state, effect, Ok(()), panel_was_enabled, boot_id),
            r,
        ),
    ensures
        *final(state) == *old(state),
        effect is EnableBluetooth ==> r is Nothing,
        effect is ProtectDisplay ==> (r matches PolicyFollowUp::Notify { title, message } && title@
            == "Zenbook Duo Display Protection"@ && message@
            == "The xe driver has disabled eDP-2. Automatic dual-screen recovery was skipped to avoid a compositor freeze; reconnect the keyboard or reboot before retrying."@),
{
}

/// A run takes its actions one by one: it begins with none done, the action under way is the one
/// whose number is that of the actions done, and it is done whatever it came to.
pub proof fn law_run_takes_its_actions_one_by_one(
    actions: Vec<PolicyAction>,
    fresh: PolicyRun,
    run: &mut PolicyRun,
    next: Option<PolicyAction>,
    state: RuntimeState,
    panel_enabled: bool,
    begun: Option<PolicyEffect>,
    effect: PolicyEffect,
)
    requires
        call_ensures(apply_policy_actions, (actions,), fresh),
        old(run)@.done >= 0,
        call_ensures(PolicyRun::action, (&*run,), next),
        call_ensures(PolicyRun::begin, (run, &state, panel_enabled), begun),
        next is Some ==> call_ensures(policy_effect, (&state, &next->0, panel_enabled), effect),
    ensures
        fresh@.actions == actions@,
        fresh@.done == 0,
        fresh@.begun is None,
        next is Some <==> old(run)@.done < old(run)@.actions.len(),
        next is Some ==> next->0 == old(run)@.actions[old(run)@.done],
        begun is Some <==> next is Some,
        next is Some ==> begun == Some(effect),
        final(run)@.actions == old(run)@.actions,
        final(run)@.done == old(run)@.done,
        final(run)@.begun is Some <==> next is Some,
        next is Some ==> final(run)@.begun->0.effect == effect
            && final(run)@.begun->0.secondary_panel_enabled == panel_enabled,
{
}

/// A run that finishes an action does with the state what that action's effect does, and moves on
/// by one.
pub proof fn law_run_finishes_as_its_effect_does(
    run: &mut PolicyRun,
    state: &mut RuntimeState,
    outcome: Result<(), String>,
    boot_id: Option<String>,
    r: PolicyFollowUp,
    has_begun: bool,
)
    requires
        old(run)@.begun is Some,
        call_ensures(PolicyRun::has_begun, (&*run,), has_begun),
        call_ensures(PolicyRun::finished, (run, state, outcome, boot_id), r),
    ensures
        has_begun,
        final(run)@.actions == old(run)@.actions,
        final(run)@.done == old(run)@.done + 1,
        final(run)@.begun is None,
        outcome is Err ==> *final(state) == *old(state),
        r@ == follow_up(old(run)@.begun->0.effect, failure_of(outcome)),
        outcome is Ok ==> effect_recorded(
            *old(state),
            *final(state),
            old(run)@.begun->0.effect,
            old(run)@.begun->0.secondary_panel_enabled,
            boot_id,
        ),
{
}

/// In a summary the actions stand in their order, between commas, each with its own level, or
/// with its keyboard and its scale; no action is written as none.
pub proof fn law_summary_names_every_action(
    actions: Seq<PolicyAction>,
    scales: Seq<String>,
    action: PolicyAction,
    scale: String,
)
    requires
        actions.len() == scales.len(),
    ensures
        ({
            let label = match action {
                PolicyAction::EnsureBluetoothEnabled => "bluetooth:ensure-enabled"@,
                PolicyAction::SetBacklight(level) => "backlight:"@ + text::decimal(level as nat),
                PolicyAction::SetBluetoothBacklight(level) => "bluetooth-backlight:"@
                    + text::decimal(level as nat),
                PolicyAction::SetDockMode { attached, scale: _ } => "dock:attached="@ + (
                if attached {
                    "true"@
                } else {
                    "false"@
                }) + ":scale="@ + scale@,
            };
            actions_text(actions.push(action), scales.push(scale)) == (if actions.len() == 0 {
                label
            } else {
                actions_text(actions, scales) + ","@ + label
            })
        }),
        actions_text(Seq::empty(), Seq::empty()) == "none"@,
{
    let more = actions.push(action);
    let wider = scales.push(scale);
    let labels = Seq::new(more.len(), |i: int| action_text(more[i], wider[i]@));
    let fewer = Seq::new(actions.len(), |i: int| action_text(actions[i], scales[i]@));
    assert(labels.drop_last() =~= fewer);
    assert(labels.last() == action_text(action, scale@));
}

/// The summary that is written is that of the actions.
pub proof fn law_summary_is_that_of_the_actions(
    actions: Vec<PolicyAction>,
    scales: Vec<String>,
    r: String,
)
    requires
        scales@.len() == actions@.len(),
        call_ensures(summarize_actions, (&actions, &scales), r),
    ensures
        r@ == actions_text(actions@, scales@),
{
}

/// The keyboard is tried twelve times: an attempt that failed leads to the next, the first success
/// ends it, and the twelfth failure is told.
pub proof fn law_keyboard_is_tried_twelve_times(
    attempts: &mut BacklightAttempts,
    fresh: BacklightAttempts,
    outcome: AttemptOutcome,
    r: AttemptStep,
)
    requires
        call_ensures(BacklightAttempts::first, (), fresh),
        call_ensures(BacklightAttempts::finished, (attempts, outcome), r),
    ensures
        fresh.number() == 1,
        r is Finished <==> outcome is Done,
        r is TryAgain <==> !(outcome is Done) && old(attempts).number() < 12,
        r is TryAgain ==> final(attempts).number() == old(attempts).number() + 1,
        outcome matches AttemptOutcome::Failed(err) ==> (r matches AttemptStep::GiveUp(report)
            ==> report@ == "after 12 attempts: "@ + err@),
        outcome matches AttemptOutcome::Crashed(err) ==> (r matches AttemptStep::GiveUp(report)
            ==> report@ == "after 12 attempts: "@ + ("Bluetooth backlight worker failed: "@
            + err@)),
        BLUETOOTH_BACKLIGHT_RETRY_MILLIS == 500,
{
}

}
