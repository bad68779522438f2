//! Setting the keyboard's backlight over Bluetooth, device file by device file.

use vstd::prelude::*;

use crate::text;

verus! {

/// What is awaited.
#[derive(Debug, Clone, Copy, PartialEq, Eq, Structural)]
pub enum HidPhase {
    /// The list of the keyboard's device files.
    Listing,
    /// The outcome of an attempt on a device file.
    Trying,
    /// The outcome of resetting the keyboard.
    Resetting,
    /// Nothing more.
    Ended,
}

/// How far setting the backlight has come.
pub struct HidProgress {
    pub level: u8,
    pub phase: HidPhase,
    /// The keyboard has been reset.
    pub was_reset: bool,
    /// The device files of this round.
    pub paths: Seq<Seq<char>>,
    /// What has failed in this round, device file by device file.
    pub errors: Seq<Seq<char>>,
}

/// What is to be done.
#[derive(Debug, Clone)]
pub enum HidAction {
    ListPaths,
    TryPath { path: String, level: u8 },
    ResetKeyboard,
    Done,
    Failed(String),
}

/// What is to be done, with the characters of the texts.
pub enum HidNext {
    ListPaths,
    TryPath { path: Seq<char>, level: u8 },
    ResetKeyboard,
    Done,
    Failed(Seq<char>),
}

impl View for HidAction {
    type V = HidNext;

    open spec fn view(&self) -> HidNext {
        match self {
            HidAction::ListPaths => HidNext::ListPaths,
            HidAction::TryPath { path, level } => HidNext::TryPath { path: path@, level: *level },
            HidAction::ResetKeyboard => HidNext::ResetKeyboard,
            HidAction::Done => HidNext::Done,
            HidAction::Failed(e) => HidNext::Failed(e@),
        }
    }
}

/// The state before anything has been done.
pub open spec fn started(level: u8) -> HidProgress {
    HidProgress {
        level,
        phase: HidPhase::Listing,
        was_reset: false,
        paths: Seq::empty(),
        errors: Seq::empty(),
    }
}

/// What follows once the device files are known: the first of them is tried.
pub open spec fn after_listing(p: HidProgress, paths: Seq<Seq<char>>) -> (HidProgress, HidNext) {
    if paths.len() == 0 {
        (
            HidProgress { phase: HidPhase::Ended, ..p },
            HidNext::Failed("Bluetooth hidraw device not found"@),
        )
    } else {
        (
            HidProgress { phase: HidPhase::Trying, paths, errors: Seq::empty(), ..p },
            HidNext::TryPath { path: paths[0], level: p.level },
        )
    }
}

/// No device file took the level.
pub open spec fn all_failed_text(errors: Seq<Seq<char>>) -> Seq<char> {
    "bluetooth hidraw failed ("@ + text::joined(errors, "; "@) + ")"@
}

/// What follows an attempt: success ends it; a failure leads to the next device file, then once
/// to a reset of the keyboard, and then to the end.
pub open spec fn after_attempt(p: HidProgress, failure: Option<Seq<char>>) -> (
    HidProgress,
    HidNext,
) {
    match failure {
        None => (HidProgress { phase: HidPhase::Ended, ..p }, HidNext::Done),
        Some(err) => {
            let errors = p.errors.push(p.paths[p.errors.len() as int] + ": "@ + err);
            if errors.len() < p.paths.len() {
                (
                    HidProgress { errors, ..p },
                    HidNext::TryPath { path: p.paths[errors.len() as int], level: p.level },
                )
            } else if !p.was_reset {
                (HidProgress { phase: HidPhase::Resetting, errors, ..p }, HidNext::ResetKeyboard)
            } else {
                (
                    HidProgress { phase: HidPhase::Ended, errors, ..p },
                    HidNext::Failed(all_failed_text(errors)),
                )
            }
        },
    }
}

/// What follows a reset: a second round, unless the reset failed.
pub open spec fn after_reset(p: HidProgress, ok: bool) -> (HidProgress, HidNext) {
    if ok {
        (
            HidProgress { phase: HidPhase::Listing, was_reset: true, ..p },
            HidNext::ListPaths,
        )
    } else {
        (HidProgress { phase: HidPhase::Ended, ..p }, HidNext::Failed(all_failed_text(p.errors)))
    }
}

/// Setting the keyboard's backlight over Bluetooth.
#[derive(Debug)]
pub struct BluetoothBacklight {
    level: u8,
    phase: HidPhase,
    was_reset: bool,
    paths: Vec<String>,
    errors: Vec<String>,
}

impl View for BluetoothBacklight {
    type V = HidProgress;

    closed spec fn view(&self) -> HidProgress {
        HidProgress {
            level: self.level,
            phase: self.phase,
            was_reset: self.was_reset,
            paths: text::views(self.paths@),
            errors: text::views(self.errors@),
        }
    }
}

/// Begins to set the keyboard's backlight over Bluetooth: its device files are to be listed.
pub fn set_backlight_bluetooth(level: u8) -> (r: BluetoothBacklight)
    ensures
        r@ == started(level),
{
    let progress: BluetoothBacklight = BluetoothBacklight {
        level,
        phase: HidPhase::Listing,
        was_reset: false,
        paths: Vec::new(),
        errors: Vec::new(),
    };
    assert(text::views(progress.paths@) =~= Seq::empty());
    assert(text::views(progress.errors@) =~= Seq::empty());
    progress
}

impl BluetoothBacklight {
    /// In the middle of a round there is a device file under way.
    pub open spec fn wf(&self) -> bool {
        self@.phase == HidPhase::Trying ==> self@.errors.len() < self@.paths.len()
    }

    /// Whether this is what is awaited.
    pub fn awaits(&self, phase: HidPhase) -> (r: bool)
        ensures
            r == (self@.phase == phase && self.wf()),
    {
        self.phase == phase && (phase != HidPhase::Trying || self.errors.len() < self.paths.len())
    }

    /// Takes over the list of the keyboard's device files.
    pub fn listed(&mut self, paths: Vec<String>) -> (r: HidAction)
        requires
            old(self)@.phase == HidPhase::Listing,
        ensures
            (final(self)@, r@) == after_listing(old(self)@, text::views(paths@)),
            final(self).wf(),
    {
        if paths.len() == 0 {
            self.phase = HidPhase::Ended;
            return HidAction::Failed("Bluetooth hidraw device not found".to_string());
        }
        let first: String = paths[0].as_str().to_string();
        self.phase = HidPhase::Trying;
        self.paths = paths;
        self.errors = Vec::new();
        assert(text::views(self.errors@) =~= Seq::empty());
        HidAction::TryPath { path: first, level: self.level }
    }

    /// Takes over the outcome of the attempt that is under way.
    pub fn tried(&mut self, outcome: Result<(), String>) -> (r: HidAction)
        requires
            old(self).wf(),
            old(self)@.phase == HidPhase::Trying,
        ensures
            (final(self)@, r@) == after_attempt(
                old(self)@,
                match outcome {
                    Ok(_) => None,
                    Err(err) => Some(err@),
                },
            ),
            final(self).wf(),
    {
        match outcome {
            Ok(()) => {
                self.phase = HidPhase::Ended;
                HidAction::Done
            },
            Err(err) => {
                let at: usize = self.errors.len();
                let mut message: String = text::concat2(self.paths[at].as_str(), ": ");
                message.append(err.as_str());
                let ghost before = text::views(self.errors@);
                self.errors.push(message);
                assert(text::views(self.errors@) =~= before.push(message@));
                if self.errors.len() < self.paths.len() {
                    let path: String = self.paths[at + 1].as_str().to_string();
                    HidAction::TryPath { path, level: self.level }
                } else if !self.was_reset {
                    self.phase = HidPhase::Resetting;
                    HidAction::ResetKeyboard
                } else {
                    self.phase = HidPhase::Ended;
                    HidAction::Failed(self.all_failed())
                }
            },
        }
    }

    fn all_failed(&self) -> (r: String)
        ensures
            r@ == all_failed_text(self@.errors),
    {
        text::concat3(
            "bluetooth hidraw failed (",
            text::join(self.errors.as_slice(), "; ").as_str(),
            ")",
        )
    }

    /// Takes over the outcome of resetting the keyboard.
    pub fn reset(&mut self, outcome: Result<(), String>) -> (r: HidAction)
        requires
            old(self)@.phase == HidPhase::Resetting,
        ensures
            (final(self)@, r@) == after_reset(old(self)@, outcome is Ok),
            final(self).wf(),
    {
        match outcome {
            Ok(()) => {
                self.phase = HidPhase::Listing;
                self.was_reset = true;
                HidAction::ListPaths
            },
            Err(_) => {
                self.phase = HidPhase::Ended;
                HidAction::Failed(self.all_failed())
            },
        }
    }
}

/// The keyboard is reset at most once: what has been reset stays so, and is not reset again.
pub proof fn law_keyboard_is_reset_at_most_once(
    p: HidProgress,
    paths: Seq<Seq<char>>,
    failure: Option<Seq<char>>,
    ok: bool,
)
    requires
        p.was_reset,
    ensures
        after_listing(p, paths).0.was_reset,
        after_attempt(p, failure).0.was_reset,
        after_reset(p, ok).0.was_reset,
        !(after_listing(p, paths).1 is ResetKeyboard),
        !(after_attempt(p, failure).1 is ResetKeyboard),
        !(after_reset(p, ok).1 is ResetKeyboard),
{
}

/// How much is left: the rounds, what is awaited in this round, and the device files of it.
pub open spec fn left(p: HidProgress) -> (int, int, int) {
    (
        if p.was_reset {
            0
        } else {
            1
        },
        match p.phase {
            HidPhase::Listing => 3,
            HidPhase::Trying => 2,
            HidPhase::Resetting => 1,
            HidPhase::Ended => 0,
        },
        p.paths.len() - p.errors.len(),
    )
}

/// Less is left.
pub open spec fn less(a: (int, int, int), b: (int, int, int)) -> bool {
    ||| a.0 < b.0
    ||| a.0 == b.0 && a.1 < b.1
    ||| a.0 == b.0 && a.1 == b.1 && 0 <= a.2 < b.2
}

/// It comes to an end: every outcome leaves less to be done.
pub proof fn law_bluetooth_attempts_end(
    p: HidProgress,
    paths: Seq<Seq<char>>,
    failure: Option<Seq<char>>,
    ok: bool,
)
    ensures
        p.phase == HidPhase::Listing ==> less(left(after_listing(p, paths).0), left(p)),
        p.phase == HidPhase::Trying && p.errors.len() < p.paths.len() ==> less(
            left(after_attempt(p, failure).0),
            left(p),
        ),
        p.phase == HidPhase::Resetting && !p.was_reset ==> less(left(after_reset(p, ok).0), left(p)),
{
}

/// Every attempt is made with the level that was asked for.
pub proof fn law_every_attempt_sends_the_level(
    p: HidProgress,
    paths: Seq<Seq<char>>,
    failure: Option<Seq<char>>,
    ok: bool,
)
    ensures
        after_listing(p, paths).0.level == p.level,
        after_attempt(p, failure).0.level == p.level,
        after_reset(p, ok).0.level == p.level,
        after_listing(p, paths).1 is TryPath ==> after_listing(p, paths).1->level == p.level,
        after_attempt(p, failure).1 is TryPath ==> after_attempt(p, failure).1->level == p.level,
        !(after_reset(p, ok).1 is TryPath),
{
}

/// It begins with nothing tried, and asks for the device files. The first of them is tried at the
/// level that was asked for; without any it has failed.
pub proof fn law_first_file_is_tried_at_the_level(
    level: u8,
    fresh: BluetoothBacklight,
    run: &mut BluetoothBacklight,
    paths: Vec<String>,
    r: HidAction,
)
    requires
        call_ensures(set_backlight_bluetooth, (level,), fresh),
        old(run)@.phase == HidPhase::Listing,
        call_ensures(BluetoothBacklight::listed, (run, paths), r),
    ensures
        fresh@.level == level,
        fresh@.phase == HidPhase::Listing,
        !fresh@.was_reset,
        fresh@.errors.len() == 0,
        final(run)@.level == old(run)@.level,
        final(run)@.was_reset == old(run)@.was_reset,
        paths@.len() == 0 ==> {
            &&& r matches HidAction::Failed(e)
            &&& e@ == "Bluetooth hidraw device not found"@
            &&& final(run)@.phase == HidPhase::Ended
        },
        paths@.len() > 0 ==> {
            &&& r matches HidAction::TryPath { path, level: sent }
            &&& path@ == paths@[0]@
            &&& sent == old(run)@.level
            &&& final(run)@.phase == HidPhase::Trying
            &&& final(run)@.errors.len() == 0
            &&& final(run)@.paths == text::views(paths@)
        },
{
}

/// A file that takes the level ends it. One that does not is remembered with its error, and the
/// next one is tried at the same level. After the last one the keyboard is reset, once; after
/// that all the errors of the round are told.
pub proof fn law_files_are_tried_in_turn(
    run: &mut BluetoothBacklight,
    outcome: Result<(), String>,
    r: HidAction,
)
    requires
        old(run).wf(),
        old(run)@.phase == HidPhase::Trying,
        call_ensures(BluetoothBacklight::tried, (run, outcome), r),
    ensures
        ({
            let failed = old(run)@.errors.len() as int;
            let last = failed + 1 == old(run)@.paths.len();
            &&& r is Done <==> outcome is Ok
            &&& r is TryPath <==> outcome is Err && !last
            &&& r is ResetKeyboard <==> outcome is Err && last && !old(run)@.was_reset
            &&& r is Failed <==> outcome is Err && last && old(run)@.was_reset
            &&& r matches HidAction::TryPath { path, level } ==> path@ == old(run)@.paths[failed
                + 1] && level == old(run)@.level
            &&& final(run)@.level == old(run)@.level
            &&& final(run)@.was_reset == old(run)@.was_reset
            &&& final(run)@.paths == old(run)@.paths
            &&& outcome matches Err(err) ==> final(run)@.errors == old(run)@.errors.push(
                old(run)@.paths[failed] + ": "@ + err@,
            )
            &&& r matches HidAction::Failed(e) ==> e@ == "bluetooth hidraw failed ("@
                + text::joined(final(run)@.errors, "; "@) + ")"@
            &&& final(run)@.phase == (if r is TryPath {
                HidPhase::Trying
            } else if r is ResetKeyboard {
                HidPhase::Resetting
            } else {
                HidPhase::Ended
            })
        }),
{
}

/// A keyboard that was reset is tried once more from the start; where that failed the errors so
/// far are told.
pub proof fn law_reset_keyboard_is_tried_once_more(
    run: &mut BluetoothBacklight,
    outcome: Result<(), String>,
    r: HidAction,
    phase: HidPhase,
    awaited: bool,
)
    requires
        old(run)@.phase == HidPhase::Resetting,
        call_ensures(BluetoothBacklight::awaits, (&*run, phase), awaited),
        call_ensures(BluetoothBacklight::reset, (run, outcome), r),
    ensures
        awaited <==> phase == HidPhase::Resetting,
        r is ListPaths <==> outcome is Ok,
        outcome is Ok ==> final(run)@.was_reset && final(run)@.phase == HidPhase::Listing,
        outcome is Err ==> {
            &&& r matches HidAction::Failed(e)
            &&& e@ == "bluetooth hidraw failed ("@ + text::joined(old(run)@.errors, "; "@) + ")"@
            &&& final(run)@.phase == HidPhase::Ended
        },
        final(run)@.level == old(run)@.level,
{
}

}
