//! Bringing the displays into the mode that goes with the keyboard.

use vstd::prelude::*;

use crate::command::{
    output_text, run_command_capture, run_command_within, trimmed_output, CommandOutput,
    TimedOutcome,
};
use crate::ipc::SessionBackend;
use crate::session::backend::{ensure_gui_session_env, gui_ready, GuiEnvironment};
use crate::text;

verus! {

/// How long a program that changes the displays may take, in seconds.
pub const DOCK_COMMAND_TIMEOUT_SECS: u64 = 6;

/// How long a program that reports the displays may take, in seconds.
pub const DOCK_VERIFY_TIMEOUT_SECS: u64 = 2;

/// Which compositor a dock mode is asked of.
#[derive(Debug, Clone)]
pub enum BackendStep {
    /// This one.
    Ask(SessionBackend),
    /// The one that is found ready, which is to be looked for.
    FindReady,
    /// None.
    Failed(String),
}

/// Decides which compositor a dock mode is asked of: the one that the environment names, or else
/// the one that is found ready. `ready` is what looking for one has come to, where it was looked
/// for. Without either there is nobody to ask.
pub fn dock_mode_backend(hinted: SessionBackend, ready: Option<SessionBackend>) -> (r: BackendStep)
    ensures
        if hinted != SessionBackend::Unknown {
            r == BackendStep::Ask(hinted)
        } else {
            match ready {
                None => r is FindReady,
                Some(found) => if found != SessionBackend::Unknown {
                    r == BackendStep::Ask(found)
                } else {
                    &&& r matches BackendStep::Failed(e)
                    &&& e@ == "Unsupported session backend for dock mode"@
                },
            }
        },
{
    if hinted != SessionBackend::Unknown {
        return BackendStep::Ask(hinted);
    }
    match ready {
        None => BackendStep::FindReady,
        Some(found) => if found != SessionBackend::Unknown {
            BackendStep::Ask(found)
        } else {
            BackendStep::Failed("Unsupported session backend for dock mode".to_string())
        },
    }
}

/// The arguments that keep the main display, upside down as it is mounted.
pub open spec fn main_display_args(scale: Seq<char>) -> Seq<Seq<char>> {
    seq![
        "set"@,
        "--logical-monitor"@,
        "--primary"@,
        "--scale"@,
        scale,
        "--monitor"@,
        "eDP-1"@,
        "--transform"@,
        "180"@,
    ]
}

/// The arguments of `gdctl` for a dock mode: with the keyboard attached the lower display is off,
/// with it detached the lower display stands below the main one.
pub open spec fn gnome_dock_args(attached: bool, scale: Seq<char>) -> Seq<Seq<char>> {
    if attached {
        main_display_args(scale) + seq!["--monitor"@, "eDP-2"@, "--mode"@, "off"@]
    } else {
        main_display_args(scale) + seq![
            "--logical-monitor"@,
            "--scale"@,
            scale,
            "--monitor"@,
            "eDP-2"@,
            "--below"@,
            "eDP-1"@,
            "--transform"@,
            "normal"@,
        ]
    }
}

/// The arguments of `gdctl` for a dock mode. `scale` is the scale, written with six decimals.
pub fn build_gnome_dock_mode_args(attached: bool, scale: &str) -> (r: Vec<String>)
    ensures
        text::views(r@) == gnome_dock_args(attached, scale@),
{
    let args: Vec<String> = if attached {
        text::texts(
            &[
                "set",
                "--logical-monitor",
                "--primary",
                "--scale",
                scale,
                "--monitor",
                "eDP-1",
                "--transform",
                "180",
                "--monitor",
                "eDP-2",
                "--mode",
                "off",
            ],
        )
    } else {
        text::texts(
            &[
                "set",
                "--logical-monitor",
                "--primary",
                "--scale",
                scale,
                "--monitor",
                "eDP-1",
                "--transform",
                "180",
                "--logical-monitor",
                "--scale",
                scale,
                "--monitor",
                "eDP-2",
                "--below",
                "eDP-1",
                "--transform",
                "normal",
            ],
        )
    };
    assert(text::views(args@) =~= gnome_dock_args(attached, scale@));
    args
}

/// The arguments of `gdctl` that an older `gdctl` takes, which refuses to be told that the lower
/// display is off: the main display alone. `scale` is the scale, written with six decimals.
pub fn build_gnome_attached_fallback_args(scale: &str) -> (r: Vec<String>)
    ensures
        text::views(r@) == main_display_args(scale@),
{
    let args: Vec<String> = text::texts(
        &[
            "set",
            "--logical-monitor",
            "--primary",
            "--scale",
            scale,
            "--monitor",
            "eDP-1",
            "--transform",
            "180",
        ],
    );
    assert(text::views(args@) =~= main_display_args(scale@));
    args
}

/// The part of `s` after the first `mark` and before the next, if there is one.
pub open spec fn section_after(s: Seq<char>, mark: Seq<char>) -> Seq<char> {
    if text::contains_text(s, mark) {
        let at = choose|at: int| text::first_match(s, mark, at);
        let rest = s.skip(at + mark.len());
        if text::contains_text(rest, mark) {
            rest.take(choose|end: int| text::first_match(rest, mark, end))
        } else {
            rest
        }
    } else {
        Seq::empty()
    }
}

proof fn lemma_first_match_unique(s: Seq<char>, mark: Seq<char>, at: int)
    requires
        text::first_match(s, mark, at),
    ensures
        text::contains_text(s, mark),
        (choose|x: int| text::first_match(s, mark, x)) == at,
{
    assert(text::matches_at(s, mark, at));
    let x = choose|x: int| text::first_match(s, mark, x);
    assert(text::first_match(s, mark, x));
    assert(text::matches_at(s, mark, x));
    if x < at {
        assert(!text::matches_at(s, mark, x));
    } else if at < x {
        assert(!text::matches_at(s, mark, at));
    }
}

fn find_section(s: &Vec<char>, mark: &Vec<char>) -> (r: Vec<char>)
    ensures
        r@ == section_after(s@, mark@),
{
    match text::find_text(s.as_slice(), mark.as_slice()) {
        Some(at) => {
            proof {
                lemma_first_match_unique(s@, mark@, at as int);
            }
            let n: usize = s.len();
            let start: usize = at + mark.len();
            let rest: &[char] = vstd::slice::slice_subrange(s.as_slice(), start, n);
            assert(rest@ =~= s@.skip(start as int));
            match text::find_text(rest, mark.as_slice()) {
                Some(end) => {
                    proof {
                        lemma_first_match_unique(rest@, mark@, end as int);
                    }
                    copy_chars(vstd::slice::slice_subrange(rest, 0, end))
                },
                None => copy_chars(rest),
            }
        },
        None => Vec::new(),
    }
}

fn copy_chars(s: &[char]) -> (r: Vec<char>)
    ensures
        r@ == s@,
{
    let mut out: Vec<char> = Vec::new();
    let mut i: usize = 0;
    while i < s.len()
        invariant
            i <= s@.len(),
            out@ == s@.take(i as int),
        decreases s@.len() - i,
    {
        out.push(s[i]);
        assert(s@.take(i + 1) =~= s@.take(i as int).push(s@[i as int]));
        i += 1;
    }
    assert(s@.take(i as int) =~= s@);
    out
}

/// The logical monitors of a report of `gdctl show`.
pub open spec fn logical_monitors(show: Seq<char>) -> Seq<char> {
    section_after(show, "Logical monitors:"@)
}

/// A built-in display is among the logical monitors of a report of `gdctl show`.
pub open spec fn is_logical(show: Seq<char>, display: Seq<char>) -> bool {
    text::contains_text(logical_monitors(show), display)
}

/// Whether each of the two displays is among the logical monitors of a report of `gdctl show`.
pub fn gnome_logical_snapshot_from_show(show_output: &str) -> (r: (bool, bool))
    ensures
        r.0 == is_logical(show_output@, "eDP-1 (Built-in display)"@),
        r.1 == is_logical(show_output@, "eDP-2 (Built-in display)"@),
{
    let show: Vec<char> = text::chars_of(show_output);
    let mark: Vec<char> = text::chars_of("Logical monitors:");
    let logical: Vec<char> = find_section(&show, &mark);
    let main: Vec<char> = text::chars_of("eDP-1 (Built-in display)");
    let lower: Vec<char> = text::chars_of("eDP-2 (Built-in display)");
    (
        text::find_text(logical.as_slice(), main.as_slice()).is_some(),
        text::find_text(logical.as_slice(), lower.as_slice()).is_some(),
    )
}

/// The displays are as the dock mode wants them.
pub open spec fn as_expected(attached: bool, logical_edp1: bool, logical_edp2: bool) -> bool {
    logical_edp1 && logical_edp2 == !attached
}

/// Whether the displays are as the dock mode wants them: the main one on, the lower one on
/// exactly with the keyboard detached.
pub fn gnome_snapshot_matches_expected(
    attached: bool,
    logical_edp1: bool,
    logical_edp2: bool,
) -> (r: bool)
    ensures
        r == as_expected(attached, logical_edp1, logical_edp2),
{
    if attached {
        logical_edp1 && !logical_edp2
    } else {
        logical_edp1 && logical_edp2
    }
}

/// A truth value in words.
pub open spec fn truth(b: bool) -> Seq<char> {
    if b {
        "true"@
    } else {
        "false"@
    }
}

fn truth_text(b: bool) -> (r: &'static str)
    ensures
        r@ == truth(b),
{
    if b {
        "true"
    } else {
        "false"
    }
}

/// Why a report of the displays does not confirm a dock mode, if it does not.
pub open spec fn report_error(attached: bool, show: Seq<char>) -> Option<Seq<char>> {
    let main = is_logical(show, "eDP-1 (Built-in display)"@);
    let lower = is_logical(show, "eDP-2 (Built-in display)"@);
    if as_expected(attached, main, lower) {
        None
    } else {
        Some(
            "GNOME dock-mode verify failed (attached="@ + truth(attached) + ", logical_edp1="@
                + truth(main) + ", logical_edp2="@ + truth(lower) + ")"@,
        )
    }
}

/// Holds a report of `gdctl show` against a dock mode.
pub fn verify_gnome_report(attached: bool, show: &str) -> (r: Result<(), String>)
    ensures
        match r {
            Ok(_) => report_error(attached, show@) is None,
            Err(e) => report_error(attached, show@) == Some(e@),
        },
{
    let (main, lower) = gnome_logical_snapshot_from_show(show);
    if gnome_snapshot_matches_expected(attached, main, lower) {
        Ok(())
    } else {
        let mut message: String = text::concat3(
            "GNOME dock-mode verify failed (attached=",
            truth_text(attached),
            ", logical_edp1=",
        );
        message.append(truth_text(main));
        message.append(", logical_edp2=");
        message.append(truth_text(lower));
        message.append(")");
        Err(message)
    }
}

/// Why a dock mode is not confirmed, if it is not, with what `gdctl show` came to.
pub open spec fn verify_error(attached: bool, outcome: TimedOutcome) -> Option<Seq<char>> {
    match outcome {
        TimedOutcome::Finished(output) => if output.success {
            report_error(attached, text::lossy(output.stdout@))
        } else {
            Some("gdctl verification failed: "@ + output_text(output.stderr@))
        },
        TimedOutcome::Failed(err) => Some(
            "Failed to run gdctl verification: "@ + ("Failed to run "@ + "gdctl"@ + ": "@ + err@),
        ),
        TimedOutcome::TimedOut => Some(
            "Failed to run gdctl verification: "@ + ("gdctl"@ + " timed out after "@
                + text::decimal(DOCK_VERIFY_TIMEOUT_SECS as nat) + "s (args: "@ + "show"@ + ")"@),
        ),
    }
}

/// Holds what `gdctl show` came to against a dock mode.
pub fn verify_gnome_dock_mode(attached: bool, outcome: TimedOutcome) -> (r: Result<(), String>)
    ensures
        match r {
            Ok(_) => verify_error(attached, outcome) is None,
            Err(e) => verify_error(attached, outcome) == Some(e@),
        },
{
    let args: Vec<String> = text::texts(&["show"]);
    proof {
        assert(text::views(args@) =~= seq!["show"@]);
        assert(text::joined(text::views(args@), " "@) == "show"@);
    }
    match run_command_capture("gdctl", &args, DOCK_VERIFY_TIMEOUT_SECS, outcome) {
        Err(e) => Err(text::concat2("Failed to run gdctl verification: ", e.as_str())),
        Ok(output) => if output.success {
            let show: String = text::lossy_text(output.stdout.as_slice());
            verify_gnome_report(attached, show.as_str())
        } else {
            Err(
                text::concat2(
                    "gdctl verification failed: ",
                    trimmed_output(&output.stderr).as_str(),
                ),
            )
        },
    }
}

/// What is awaited while GNOME is brought into a dock mode.
#[derive(Debug, Clone, Copy, PartialEq, Eq, Structural)]
pub enum GnomePhase {
    /// The outcome of the layout that the mode asks for.
    Primary,
    /// The outcome of the layout that an older `gdctl` takes.
    Fallback,
    /// The report of the displays.
    Verify,
    Ended,
}

/// What is to be done next.
#[derive(Debug, Clone)]
pub enum DockStep {
    /// Run `gdctl` with these arguments.
    Run(Vec<String>),
    /// Run `gdctl show`.
    Verify,
    Done,
    Failed(String),
}

/// What is to be done next, with the characters of the texts.
pub enum DockNext {
    Run(Seq<Seq<char>>),
    Verify,
    Done,
    Failed(Seq<char>),
}

impl View for DockStep {
    type V = DockNext;

    open spec fn view(&self) -> DockNext {
        match self {
            DockStep::Run(args) => DockNext::Run(text::views(args@)),
            DockStep::Verify => DockNext::Verify,
            DockStep::Done => DockNext::Done,
            DockStep::Failed(e) => DockNext::Failed(e@),
        }
    }
}

/// What follows the run of `gdctl` with `args` in a phase.
pub open spec fn after_run(
    attached: bool,
    scale: Seq<char>,
    phase: GnomePhase,
    error: Option<Seq<char>>,
) -> (GnomePhase, DockNext) {
    match error {
        None => (GnomePhase::Verify, DockNext::Verify),
        Some(err) => if attached && phase == GnomePhase::Primary {
            (GnomePhase::Fallback, DockNext::Run(main_display_args(scale)))
        } else {
            (GnomePhase::Ended, DockNext::Failed(err))
        },
    }
}

/// What follows the report of the displays.
pub open spec fn after_verify(error: Option<Seq<char>>) -> (GnomePhase, DockNext) {
    match error {
        None => (GnomePhase::Ended, DockNext::Done),
        Some(err) => (GnomePhase::Ended, DockNext::Failed(err)),
    }
}

/// GNOME on its way into a dock mode.
#[derive(Debug)]
pub struct GnomeDockMode {
    pub attached: bool,
    /// The scale, written with six decimals.
    pub scale: String,
    pub phase: GnomePhase,
}

/// The arguments with which `gdctl` is run in a phase.
pub open spec fn phase_args(attached: bool, scale: Seq<char>, phase: GnomePhase) -> Seq<Seq<char>> {
    if phase == GnomePhase::Fallback {
        main_display_args(scale)
    } else {
        gnome_dock_args(attached, scale)
    }
}

/// Begins to bring GNOME into a dock mode. `scale` is the scale, written with six decimals.
pub fn apply_gnome_dock_mode(attached: bool, scale: String) -> (r: (GnomeDockMode, DockStep))
    ensures
        r.0.attached == attached,
        r.0.scale == scale,
        r.0.phase == GnomePhase::Primary,
        r.1@ == DockNext::Run(gnome_dock_args(attached, scale@)),
{
    let args: Vec<String> = build_gnome_dock_mode_args(attached, scale.as_str());
    (GnomeDockMode { attached, scale, phase: GnomePhase::Primary }, DockStep::Run(args))
}

/// What a run of `gdctl` that is to change the displays has to say against it, by the arguments
/// with which it was run.
pub open spec fn change_error(args: Seq<Seq<char>>, outcome: TimedOutcome) -> Option<Seq<char>> {
    match outcome {
        TimedOutcome::Finished(output) => if output.success {
            None
        } else {
            Some(output_text(output.stderr@))
        },
        TimedOutcome::Failed(err) => Some("Failed to run "@ + "gdctl"@ + ": "@ + err@),
        TimedOutcome::TimedOut => Some(
            "gdctl"@ + " timed out after "@ + text::decimal(DOCK_COMMAND_TIMEOUT_SECS as nat)
                + "s (args: "@ + text::joined(args, " "@) + ")"@,
        ),
    }
}

impl GnomeDockMode {
    /// Takes over what the run of `gdctl` that is under way came to.
    pub fn finished_run(&mut self, outcome: TimedOutcome) -> (r: DockStep)
        requires
            old(self).phase == GnomePhase::Primary || old(self).phase == GnomePhase::Fallback,
        ensures
            final(self).attached == old(self).attached,
            final(self).scale == old(self).scale,
            (final(self).phase, r@) == after_run(
                old(self).attached,
                old(self).scale@,
                old(self).phase,
                change_error(
                    phase_args(old(self).attached, old(self).scale@, old(self).phase),
                    outcome,
                ),
            ),
    {
        let args: Vec<String> = if self.phase == GnomePhase::Fallback {
            build_gnome_attached_fallback_args(self.scale.as_str())
        } else {
            build_gnome_dock_mode_args(self.attached, self.scale.as_str())
        };
        match run_command_within("gdctl", &args, DOCK_COMMAND_TIMEOUT_SECS, outcome) {
            Ok(()) => {
                self.phase = GnomePhase::Verify;
                DockStep::Verify
            },
            Err(e) => if self.attached && self.phase == GnomePhase::Primary {
                self.phase = GnomePhase::Fallback;
                DockStep::Run(build_gnome_attached_fallback_args(self.scale.as_str()))
            } else {
                self.phase = GnomePhase::Ended;
                DockStep::Failed(e)
            },
        }
    }

    /// Takes over what `gdctl show` came to.
    pub fn finished_verify(&mut self, outcome: TimedOutcome) -> (r: DockStep)
        requires
            old(self).phase == GnomePhase::Verify,
        ensures
            final(self).attached == old(self).attached,
            final(self).scale == old(self).scale,
            (final(self).phase, r@) == after_verify(verify_error(old(self).attached, outcome)),
    {
        self.phase = GnomePhase::Ended;
        match verify_gnome_dock_mode(self.attached, outcome) {
            Ok(()) => DockStep::Done,
            Err(e) => DockStep::Failed(e),
        }
    }
}

/// The arguments of `kscreen-doctor` for a dock mode: with the keyboard detached the lower
/// display stands `height` below the top.
pub open spec fn kde_dock_args(attached: bool, height: i64) -> Seq<Seq<char>> {
    if attached {
        seq!["output.eDP-1.enable"@, "output.eDP-2.disable"@]
    } else {
        seq![
            "output.eDP-1.enable"@,
            "output.eDP-2.enable"@,
            "output.eDP-1.position.0,0"@,
            "output.eDP-2.position.0,"@ + text::signed_decimal(height as int),
        ]
    }
}

/// What is to be done next to bring KDE or niri into a dock mode.
#[derive(Debug, Clone)]
pub enum PlaceStep {
    /// Run the compositor's program with these arguments.
    Run(Vec<String>),
    /// Find out the logical height of the main display.
    AskHeight,
    Done,
}

/// What is to be done next, with the characters of the arguments.
pub enum PlaceNext {
    Run(Seq<Seq<char>>),
    AskHeight,
    Done,
}

impl View for PlaceStep {
    type V = PlaceNext;

    open spec fn view(&self) -> PlaceNext {
        match self {
            PlaceStep::Run(args) => PlaceNext::Run(text::views(args@)),
            PlaceStep::AskHeight => PlaceNext::AskHeight,
            PlaceStep::Done => PlaceNext::Done,
        }
    }
}

/// The height under which the lower display is put: that of the main display, or zero where it
/// could not be found out.
pub fn height_or_zero(size: &Result<(i64, i64), String>) -> (r: i64)
    ensures
        r == (match *size {
            Ok((_, height)) => height,
            Err(_) => 0,
        }),
{
    match size {
        Ok((_, height)) => *height,
        Err(_) => 0,
    }
}

/// What is to be done next to bring KDE into a dock mode: one run, before which the height of the
/// main display is needed where the keyboard is detached.
pub open spec fn kde_next(attached: bool, done: bool, height: Option<i64>) -> PlaceNext {
    if done {
        PlaceNext::Done
    } else if attached {
        PlaceNext::Run(kde_dock_args(true, 0))
    } else {
        match height {
            None => PlaceNext::AskHeight,
            Some(height) => PlaceNext::Run(kde_dock_args(false, height)),
        }
    }
}

/// Decides what is to be done next to bring KDE into a dock mode. `done` tells whether
/// `kscreen-doctor` has been run, and `height` is what is known of the main display's height.
pub fn apply_kde_dock_mode(
    attached: bool,
    env: &GuiEnvironment,
    done: bool,
    height: Option<i64>,
) -> (r: Result<PlaceStep, String>)
    ensures
        match r {
            Ok(step) => gui_ready(*env) && step@ == kde_next(attached, done, height),
            Err(e) => {
                &&& !gui_ready(*env)
                &&& e@ == "KDE display control"@
                    + " requires XDG_RUNTIME_DIR and either WAYLAND_DISPLAY or DISPLAY"@
            },
        },
{
    match ensure_gui_session_env("KDE display control", env) {
        Ok(()) => {},
        Err(e) => {
            return Err(e);
        },
    }
    if done {
        return Ok(PlaceStep::Done);
    }
    if attached {
        let args: Vec<String> = text::texts(&["output.eDP-1.enable", "output.eDP-2.disable"]);
        assert(text::views(args@) =~= kde_dock_args(true, 0));
        return Ok(PlaceStep::Run(args));
    }
    match height {
        None => Ok(PlaceStep::AskHeight),
        Some(height) => {
            let position: String = text::concat2(
                "output.eDP-2.position.0,",
                text::signed_decimal_text(height).as_str(),
            );
            let args: Vec<String> = text::texts(
                &[
                    "output.eDP-1.enable",
                    "output.eDP-2.enable",
                    "output.eDP-1.position.0,0",
                    position.as_str(),
                ],
            );
            assert(text::views(args@) =~= kde_dock_args(false, height));
            Ok(PlaceStep::Run(args))
        },
    }
}

/// The commands that bring niri into a dock mode, in order.
pub open spec fn niri_dock_commands(attached: bool, height: i64) -> Seq<Seq<Seq<char>>> {
    if attached {
        seq![
            seq!["msg"@, "output"@, "eDP-1"@, "on"@],
            seq!["msg"@, "output"@, "eDP-2"@, "off"@],
        ]
    } else {
        seq![
            seq!["msg"@, "output"@, "eDP-1"@, "on"@],
            seq!["msg"@, "output"@, "eDP-2"@, "on"@],
            seq!["msg"@, "output"@, "eDP-1"@, "position"@, "set"@, "0"@, "0"@],
            seq![
                "msg"@,
                "output"@,
                "eDP-2"@,
                "position"@,
                "set"@,
                "0"@,
                text::signed_decimal(height as int),
            ],
        ]
    }
}

/// What is to be done next to bring niri into a dock mode, once `done` of its commands have
/// succeeded: with the keyboard detached, the height of the main display is needed once both
/// displays are on.
pub open spec fn niri_next(attached: bool, done: int, height: Option<i64>) -> PlaceNext {
    if attached || done < 2 {
        let commands = niri_dock_commands(attached, 0);
        if done < commands.len() {
            PlaceNext::Run(commands[done])
        } else {
            PlaceNext::Done
        }
    } else {
        match height {
            None => PlaceNext::AskHeight,
            Some(height) => {
                let commands = niri_dock_commands(attached, height);
                if done < commands.len() {
                    PlaceNext::Run(commands[done])
                } else {
                    PlaceNext::Done
                }
            },
        }
    }
}

/// Decides what is to be done next to bring niri into a dock mode, once `done` of its commands
/// have succeeded. `height` is what is known of the main display's height.
pub fn apply_niri_dock_mode(attached: bool, done: usize, height: Option<i64>) -> (r: PlaceStep)
    ensures
        r@ == niri_next(attached, done as int, height),
{
    if done == 0 {
        let args: Vec<String> = text::texts(&["msg", "output", "eDP-1", "on"]);
        assert(text::views(args@) =~= niri_dock_commands(attached, 0)[0]);
        return PlaceStep::Run(args);
    }
    if done == 1 {
        let args: Vec<String> = text::texts(
            &[
                "msg",
                "output",
                "eDP-2",
                if attached {
                    "off"
                } else {
                    "on"
                },
            ],
        );
        assert(text::views(args@) =~= niri_dock_commands(attached, 0)[1]);
        return PlaceStep::Run(args);
    }
    if attached {
        return PlaceStep::Done;
    }
    match height {
        None => PlaceStep::AskHeight,
        Some(height) => if done == 2 {
            let args: Vec<String> = text::texts(
                &["msg", "output", "eDP-1", "position", "set", "0", "0"],
            );
            assert(text::views(args@) =~= niri_dock_commands(attached, height)[2]);
            PlaceStep::Run(args)
        } else if done == 3 {
            let below: String = text::signed_decimal_text(height);
            let args: Vec<String> = text::texts(
                &["msg", "output", "eDP-2", "position", "set", "0", below.as_str()],
            );
            assert(text::views(args@) =~= niri_dock_commands(attached, height)[3]);
            PlaceStep::Run(args)
        } else {
            PlaceStep::Done
        },
    }
}

/// Takes over what a command of niri came to, for its success alone.
pub fn run_niri_command(outcome: &Result<CommandOutput, String>) -> (r: Result<(), String>)
    ensures
        match *outcome {
            Err(err) => r is Err && r->Err_0@ == "Failed to run niri msg: "@ + err@,
            Ok(output) => if output.success {
                r is Ok
            } else {
                r is Err && r->Err_0@ == output_text(output.stderr@)
            },
        },
{
    match outcome {
        Err(err) => Err(text::concat2("Failed to run niri msg: ", err.as_str())),
        Ok(output) => if output.success {
            Ok(())
        } else {
            Err(trimmed_output(&output.stderr))
        },
    }
}

/// GNOME is asked for a layout at most twice, and only a report of the displays that confirms
/// the mode ends in success.
pub proof fn law_gnome_dock_mode_is_confirmed(
    attached: bool,
    scale: Seq<char>,
    phase: GnomePhase,
    error: Option<Seq<char>>,
)
    ensures
        !(after_run(attached, scale, phase, error).1 is Done),
        after_run(attached, scale, phase, error).1 is Run ==> attached && phase
            == GnomePhase::Primary && after_run(attached, scale, phase, error).0
            == GnomePhase::Fallback,
        after_verify(error).1 is Done <==> error is None,
{
}

/// The height of the main display is asked for only with the keyboard detached, only where it is
/// not known, and of niri only once both displays are on.
pub proof fn law_height_is_asked_for_only_when_needed(
    attached: bool,
    done: int,
    ran: bool,
    height: Option<i64>,
)
    ensures
        niri_next(attached, done, height) is AskHeight ==> !attached && done >= 2 && height is None,
        kde_next(attached, ran, height) is AskHeight ==> !attached && !ran && height is None,
{
}

/// Every compositor is told that the lower display is off with the keyboard attached, and that it
/// is on with the keyboard detached.
pub proof fn law_lower_display_follows_the_keyboard(scale: Seq<char>, height: i64)
    ensures
        seq!["--monitor"@, "eDP-2"@, "--mode"@, "off"@].is_suffix_of(gnome_dock_args(true, scale)),
        seq!["--monitor"@, "eDP-2"@, "--below"@, "eDP-1"@, "--transform"@, "normal"@].is_suffix_of(
            gnome_dock_args(false, scale),
        ),
        kde_dock_args(true, height).last() == "output.eDP-2.disable"@,
        kde_dock_args(false, height)[1] == "output.eDP-2.enable"@,
        niri_dock_commands(true, height).last() == seq!["msg"@, "output"@, "eDP-2"@, "off"@],
        niri_dock_commands(false, height)[1] == seq!["msg"@, "output"@, "eDP-2"@, "on"@],
{
    let on = gnome_dock_args(true, scale);
    assert(on.subrange(9, 13) =~= seq!["--monitor"@, "eDP-2"@, "--mode"@, "off"@]);
    let off = gnome_dock_args(false, scale);
    assert(off.subrange(12, 18) =~= seq![
        "--monitor"@,
        "eDP-2"@,
        "--below"@,
        "eDP-1"@,
        "--transform"@,
        "normal"@,
    ]);
}

/// In every mode of GNOME the main display is kept, upside down as it is mounted, with the scale
/// that was asked for.
pub proof fn law_main_display_is_always_kept(attached: bool, scale: Seq<char>)
    ensures
        main_display_args(scale).is_prefix_of(gnome_dock_args(attached, scale)),
{
    let args = gnome_dock_args(attached, scale);
    assert(args.subrange(0, 9) =~= main_display_args(scale));
}

/// A report that shows the lower display as a logical monitor never confirms the mode with the
/// keyboard attached, and one that does not show it never confirms the other.
pub proof fn law_a_report_confirms_one_mode(show: Seq<char>)
    ensures
        report_error(true, show) is Some || report_error(false, show) is Some,
        is_logical(show, "eDP-2 (Built-in display)"@) ==> report_error(true, show) is Some,
        !is_logical(show, "eDP-2 (Built-in display)"@) ==> report_error(false, show) is Some,
        !is_logical(show, "eDP-1 (Built-in display)"@) ==> report_error(true, show) is Some
            && report_error(false, show) is Some,
{
}

/// niri is told, one command after another: the main display on, the lower one off with the
/// keyboard attached and on with it detached. With it detached the main display is then put at
/// the origin and the lower one below it: at the height that was found out, which the last
/// argument reads back as.
pub proof fn law_niri_puts_the_lower_display_below(
    attached: bool,
    done: usize,
    height: Option<i64>,
    r: PlaceStep,
)
    requires
        call_ensures(apply_niri_dock_mode, (attached, done, height), r),
    ensures
        match r {
            PlaceStep::Run(args) => {
                &&& done == 0 ==> text::views(args@) == seq!["msg"@, "output"@, "eDP-1"@, "on"@]
                &&& done == 1 && attached ==> text::views(args@) == seq![
                    "msg"@,
                    "output"@,
                    "eDP-2"@,
                    "off"@,
                ]
                &&& done == 1 && !attached ==> text::views(args@) == seq![
                    "msg"@,
                    "output"@,
                    "eDP-2"@,
                    "on"@,
                ]
                &&& done >= 2 ==> !attached && height is Some && done <= 3
                &&& done == 2 ==> text::views(args@) == seq![
                    "msg"@,
                    "output"@,
                    "eDP-1"@,
                    "position"@,
                    "set"@,
                    "0"@,
                    "0"@,
                ]
                &&& done == 3 ==> {
                    &&& text::views(args@).len() == 7
                    &&& text::views(args@).take(6) == seq![
                        "msg"@,
                        "output"@,
                        "eDP-2"@,
                        "position"@,
                        "set"@,
                        "0"@,
                    ]
                    &&& text::signed_number(text::views(args@)[6], i64::MAX as int) == Some(
                        height->0 as int,
                    )
                }
            },
            PlaceStep::AskHeight => !attached && done >= 2 && height is None,
            PlaceStep::Done => done >= 2 && (attached || (height is Some && done >= 4)),
        },
{
    if let Some(h) = height {
        text::law_signed_decimal_reads_back(h as int, i64::MAX as int);
        assert(niri_dock_commands(false, h)[3].take(6) =~= seq![
            "msg"@,
            "output"@,
            "eDP-2"@,
            "position"@,
            "set"@,
            "0"@,
        ]);
    }
}

/// KDE is told in one run: the main display on, and the lower one off with the keyboard attached.
/// With it detached both are on, the main one at the origin and the lower one below it: at the
/// height that was found out, which the end of the last argument reads back as.
pub proof fn law_kde_puts_the_lower_display_below(
    attached: bool,
    env: GuiEnvironment,
    done: bool,
    height: Option<i64>,
    r: Result<PlaceStep, String>,
)
    requires
        call_ensures(apply_kde_dock_mode, (attached, &env, done, height), r),
    ensures
        r is Ok <==> env.xdg_runtime_dir && (env.wayland_display || env.display),
        r matches Ok(PlaceStep::Run(args)) ==> {
            &&& !done
            &&& attached ==> text::views(args@) == seq![
                "output.eDP-1.enable"@,
                "output.eDP-2.disable"@,
            ]
            &&& !attached ==> {
                let last = text::views(args@)[3];
                let prefix = "output.eDP-2.position.0,"@;
                &&& height is Some
                &&& text::views(args@).len() == 4
                &&& text::views(args@)[0] == "output.eDP-1.enable"@
                &&& text::views(args@)[1] == "output.eDP-2.enable"@
                &&& text::views(args@)[2] == "output.eDP-1.position.0,0"@
                &&& prefix.is_prefix_of(last)
                &&& text::signed_number(last.skip(prefix.len() as int), i64::MAX as int) == Some(
                    height->0 as int,
                )
            }
        },
        r matches Ok(PlaceStep::AskHeight) ==> !attached && !done && height is None,
        r matches Ok(PlaceStep::Done) ==> done,
{
    if let Some(h) = height {
        let prefix = "output.eDP-2.position.0,"@;
        let written = text::signed_decimal(h as int);
        text::law_signed_decimal_reads_back(h as int, i64::MAX as int);
        assert((prefix + written).skip(prefix.len() as int) =~= written);
        assert((prefix + written).subrange(0, prefix.len() as int) =~= prefix);
    }
}

/// The height under which the lower display is put is the second part of the size, or zero.
pub proof fn law_height_is_that_of_the_display(size: Result<(i64, i64), String>, r: i64)
    requires
        call_ensures(height_or_zero, (&size,), r),
    ensures
        size matches Ok((_, height)) ==> r == height,
        size is Err ==> r == 0,
{
}

/// GNOME is told the whole layout at once: the main display first, with the scale and upside
/// down; then the lower one, off with the keyboard attached, and below the main one with the same
/// scale and upright with it detached.
pub proof fn law_gnome_is_told_the_whole_layout(
    attached: bool,
    scale: &str,
    r: Vec<String>,
    fallback: Vec<String>,
)
    requires
        call_ensures(build_gnome_dock_mode_args, (attached, scale), r),
        call_ensures(build_gnome_attached_fallback_args, (scale,), fallback),
    ensures
        text::views(fallback@) == seq![
            "set"@,
            "--logical-monitor"@,
            "--primary"@,
            "--scale"@,
            scale@,
            "--monitor"@,
            "eDP-1"@,
            "--transform"@,
            "180"@,
        ],
        attached ==> text::views(r@) == text::views(fallback@) + seq![
            "--monitor"@,
            "eDP-2"@,
            "--mode"@,
            "off"@,
        ],
        !attached ==> text::views(r@) == text::views(fallback@) + seq![
            "--logical-monitor"@,
            "--scale"@,
            scale@,
            "--monitor"@,
            "eDP-2"@,
            "--below"@,
            "eDP-1"@,
            "--transform"@,
            "normal"@,
        ],
{
}

/// GNOME is first told the layout of the mode, with the scale that was asked for.
pub proof fn law_gnome_begins_with_the_layout(
    attached: bool,
    scale: String,
    r: (GnomeDockMode, DockStep),
    written: &str,
    args: Vec<String>,
)
    requires
        call_ensures(apply_gnome_dock_mode, (attached, scale), r),
        written@ == scale@,
        call_ensures(build_gnome_dock_mode_args, (attached, written), args),
    ensures
        r.0.attached == attached,
        r.0.scale == scale,
        r.0.phase == GnomePhase::Primary,
        r.1 matches DockStep::Run(told) && text::views(told@) == text::views(args@),
{
}

/// A layout that GNOME took is checked. One that it refused is tried once more, as the main
/// display alone with the same scale, where the keyboard is attached; otherwise the mode has
/// failed.
pub proof fn law_gnome_falls_back_once(
    mode: &mut GnomeDockMode,
    outcome: TimedOutcome,
    r: DockStep,
)
    requires
        old(mode).phase == GnomePhase::Primary || old(mode).phase == GnomePhase::Fallback,
        call_ensures(GnomeDockMode::finished_run, (mode, outcome), r),
    ensures
        final(mode).attached == old(mode).attached,
        final(mode).scale == old(mode).scale,
        r is Verify <==> (outcome matches TimedOutcome::Finished(output) && output.success),
        r is Verify ==> final(mode).phase == GnomePhase::Verify,
        r is Run <==> !(r is Verify) && old(mode).attached && old(mode).phase
            == GnomePhase::Primary,
        r matches DockStep::Run(args) ==> {
            &&& final(mode).phase == GnomePhase::Fallback
            &&& text::views(args@) == seq![
                "set"@,
                "--logical-monitor"@,
                "--primary"@,
                "--scale"@,
                old(mode).scale@,
                "--monitor"@,
                "eDP-1"@,
                "--transform"@,
                "180"@,
            ]
        },
        !(r is Done),
        r matches DockStep::Failed(e) ==> {
            &&& final(mode).phase == GnomePhase::Ended
            &&& outcome matches TimedOutcome::Finished(output) ==> e@ == text::trimmed(
                text::lossy(output.stderr@),
            )
            &&& outcome matches TimedOutcome::Failed(err) ==> e@ == "Failed to run "@ + "gdctl"@
                + ": "@ + err@
        },
{
}

/// A mode is in force exactly where the report of the displays shows the main one as a logical
/// monitor, and the lower one exactly with the keyboard detached.
pub proof fn law_mode_is_in_force_when_shown(
    mode: &mut GnomeDockMode,
    outcome: TimedOutcome,
    r: DockStep,
    shown: &str,
    displays: (bool, bool),
)
    requires
        old(mode).phase == GnomePhase::Verify,
        call_ensures(GnomeDockMode::finished_verify, (mode, outcome), r),
        outcome matches TimedOutcome::Finished(output) ==> shown@ == text::lossy(output.stdout@),
        call_ensures(gnome_logical_snapshot_from_show, (shown,), displays),
    ensures
        final(mode).attached == old(mode).attached,
        final(mode).scale == old(mode).scale,
        final(mode).phase == GnomePhase::Ended,
        r is Done <==> (outcome matches TimedOutcome::Finished(output) && output.success)
            && displays.0 && (displays.1 <==> !old(mode).attached),
        r is Done || r is Failed,
{
}

/// The report has a part that begins after the words "Logical monitors:" and ends where they come
/// again. A display counts exactly where its name stands in that part.
pub proof fn law_logical_monitors_are_read_from_their_part(
    show: &str,
    at: int,
    end: int,
    r: (bool, bool),
)
    requires
        call_ensures(gnome_logical_snapshot_from_show, (show,), r),
        text::first_match(show@, "Logical monitors:"@, at),
        ({
            let rest = show@.skip(at + "Logical monitors:"@.len());
            if text::contains_text(rest, "Logical monitors:"@) {
                text::first_match(rest, "Logical monitors:"@, end)
            } else {
                end == rest.len()
            }
        }),
    ensures
        ({
            let part = show@.skip(at + "Logical monitors:"@.len()).take(end);
            &&& r.0 <==> text::contains_text(part, "eDP-1 (Built-in display)"@)
            &&& r.1 <==> text::contains_text(part, "eDP-2 (Built-in display)"@)
        }),
{
    let mark = "Logical monitors:"@;
    let rest = show@.skip(at + mark.len());
    lemma_first_match_unique(show@, mark, at);
    if text::contains_text(rest, mark) {
        lemma_first_match_unique(rest, mark, end);
    } else {
        assert(rest.take(end) =~= rest);
    }
}

/// A report without logical monitors shows neither display.
pub proof fn law_no_logical_monitors_no_displays(show: &str, r: (bool, bool))
    requires
        call_ensures(gnome_logical_snapshot_from_show, (show,), r),
        !text::contains_text(show@, "Logical monitors:"@),
    ensures
        !r.0,
        !r.1,
{
    reveal_strlit("eDP-1 (Built-in display)");
    reveal_strlit("eDP-2 (Built-in display)");
}

/// The displays are as wanted exactly where the main one is on, and the lower one is on or off as
/// the keyboard is detached or attached.
pub proof fn law_expected_displays(attached: bool, main: bool, lower: bool, r: bool)
    requires
        call_ensures(gnome_snapshot_matches_expected, (attached, main, lower), r),
    ensures
        r <==> main && lower != attached,
{
}

/// A report that does not confirm the mode is told with what it shows.
pub proof fn law_unconfirmed_mode_is_told(
    attached: bool,
    show: &str,
    r: Result<(), String>,
    displays: (bool, bool),
)
    requires
        call_ensures(verify_gnome_report, (attached, show), r),
        call_ensures(gnome_logical_snapshot_from_show, (show,), displays),
    ensures
        r is Ok <==> displays.0 && displays.1 != attached,
        r matches Err(e) ==> e@ == "GNOME dock-mode verify failed (attached="@ + (if attached {
            "true"@
        } else {
            "false"@
        }) + ", logical_edp1="@ + (if displays.0 {
            "true"@
        } else {
            "false"@
        }) + ", logical_edp2="@ + (if displays.1 {
            "true"@
        } else {
            "false"@
        }) + ")"@,
{
}

/// The compositor that the environment names is asked; only without one is a ready one looked
/// for, and without either the mode has failed.
pub proof fn law_named_compositor_is_asked(
    hinted: SessionBackend,
    ready: Option<SessionBackend>,
    r: BackendStep,
)
    requires
        call_ensures(dock_mode_backend, (hinted, ready), r),
    ensures
        r matches BackendStep::Ask(asked) ==> {
            &&& asked != SessionBackend::Unknown
            &&& asked == hinted || (hinted == SessionBackend::Unknown && ready == Some(asked))
        },
        r is FindReady <==> hinted == SessionBackend::Unknown && ready is None,
        r is Failed <==> hinted == SessionBackend::Unknown && ready == Some(
            SessionBackend::Unknown,
        ),
        r matches BackendStep::Failed(e) ==> e@ == "Unsupported session backend for dock mode"@,
{
}

/// A command of niri has done its work exactly where it ran and succeeded; otherwise it is told
/// what it complained of, or why it did not run.
pub proof fn law_niri_command_succeeds_or_tells(
    outcome: Result<CommandOutput, String>,
    r: Result<(), String>,
)
    requires
        call_ensures(run_niri_command, (&outcome,), r),
    ensures
        r is Ok <==> (outcome matches Ok(output) && output.success),
        outcome matches Ok(output) ==> (output.success || r->Err_0@ == text::trimmed(
            text::lossy(output.stderr@),
        )),
        outcome matches Err(err) ==> r->Err_0@ == "Failed to run niri msg: "@ + err@,
{
}

/// A change of the displays may take six seconds, a report of them two.
pub proof fn law_changes_take_longer_than_reports()
    ensures
        DOCK_COMMAND_TIMEOUT_SECS == 6,
        DOCK_VERIFY_TIMEOUT_SECS == 2,
{
}

/// KDE is told the layout in one run: at once with the keyboard attached, and otherwise as soon
/// as the height of the main display is known, which is asked for before.
pub proof fn law_kde_is_told_once(
    attached: bool,
    env: GuiEnvironment,
    done: bool,
    height: Option<i64>,
    r: Result<PlaceStep, String>,
)
    requires
        call_ensures(apply_kde_dock_mode, (attached, &env, done, height), r),
    ensures
        r matches Ok(step) ==> {
            &&& step is Done <==> done
            &&& step is Run <==> !done && (attached || height is Some)
            &&& step is AskHeight <==> !done && !attached && height is None
        },
        r matches Err(e) ==> e@ == "KDE display control"@
            + " requires XDG_RUNTIME_DIR and either WAYLAND_DISPLAY or DISPLAY"@,
{
}

/// A run of `gdctl` that does not end in time is told by the seconds it was given, six, and by the
/// arguments it had: those of the fallback after it, and those of the whole layout before.
pub proof fn law_late_change_is_told_with_its_arguments(
    mode: &mut GnomeDockMode,
    r: DockStep,
    scale: &str,
    layout: Vec<String>,
    fallback: Vec<String>,
)
    requires
        old(mode).phase == GnomePhase::Primary || old(mode).phase == GnomePhase::Fallback,
        scale@ == old(mode).scale@,
        call_ensures(build_gnome_dock_mode_args, (old(mode).attached, scale), layout),
        call_ensures(build_gnome_attached_fallback_args, (scale,), fallback),
        call_ensures(GnomeDockMode::finished_run, (mode, TimedOutcome::TimedOut), r),
    ensures
        r matches DockStep::Failed(e) ==> e@ == "gdctl"@ + " timed out after "@ + text::decimal(6)
            + "s (args: "@ + text::joined(
            text::views(
                if old(mode).phase == GnomePhase::Fallback {
                    fallback@
                } else {
                    layout@
                },
            ),
            " "@,
        ) + ")"@,
{
}

/// A report that could not be had is told by what stopped it: `gdctl` could not be run, ran for
/// more than its two seconds, or failed.
pub proof fn law_missing_report_is_told(
    attached: bool,
    outcome: TimedOutcome,
    r: Result<(), String>,
)
    requires
        call_ensures(verify_gnome_dock_mode, (attached, outcome), r),
    ensures
        outcome matches TimedOutcome::Failed(err) ==> r is Err && r->Err_0@
            == "Failed to run gdctl verification: "@ + ("Failed to run "@ + "gdctl"@ + ": "@
            + err@),
        outcome is TimedOut ==> r is Err && r->Err_0@ == "Failed to run gdctl verification: "@ + (
        "gdctl"@ + " timed out after "@ + text::decimal(2) + "s (args: "@ + "show"@ + ")"@),
        outcome matches TimedOutcome::Finished(output) ==> (!output.success ==> r is Err
            && r->Err_0@ == "gdctl verification failed: "@ + text::trimmed(
            text::lossy(output.stderr@),
        )),
{
}

/// A change of the displays ends with what the check of it came to.
pub proof fn law_change_ends_with_its_check(
    mode: &mut GnomeDockMode,
    outcome: TimedOutcome,
    r: DockStep,
    check: Result<(), String>,
)
    requires
        old(mode).phase == GnomePhase::Verify,
        call_ensures(verify_gnome_dock_mode, (old(mode).attached, outcome), check),
        call_ensures(GnomeDockMode::finished_verify, (mode, outcome), r),
    ensures
        final(mode).phase == GnomePhase::Ended,
        r is Done <==> check is Ok,
        r is Failed <==> check is Err,
        r matches DockStep::Failed(e) ==> e@ == check->Err_0@,
{
}

}
