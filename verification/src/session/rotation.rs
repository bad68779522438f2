//! Turning the picture with the device.

use vstd::prelude::*;

use crate::command::CommandOutput;
use crate::models::status::Orientation;
use crate::text;

verus! {

/// The absolute value.
pub open spec fn magnitude(n: int) -> int {
    if n < 0 {
        -n
    } else {
        n
    }
}

/// Which way up the device is held, out of the acceleration along its three axes: along the
/// axis that dominates, the sign decides. Lying flat tells nothing.
pub open spec fn orientation_of(x: int, y: int, z: int) -> Option<Orientation> {
    if magnitude(z) >= magnitude(x) && magnitude(z) >= magnitude(y) {
        None
    } else if magnitude(x) > magnitude(y) {
        if x >= 0 {
            Some(Orientation::Right)
        } else {
            Some(Orientation::Left)
        }
    } else if y >= 0 {
        Some(Orientation::Inverted)
    } else {
        Some(Orientation::Normal)
    }
}

fn abs(n: i64) -> (r: i64)
    requires
        n > i64::MIN,
    ensures
        r == magnitude(n as int),
{
    if n < 0 {
        -n
    } else {
        n
    }
}

/// Which way up the device is held.
pub fn accelerometer_orientation(x: i64, y: i64, z: i64) -> (r: Option<Orientation>)
    requires
        x > i64::MIN,
        y > i64::MIN,
        z > i64::MIN,
    ensures
        r == orientation_of(x as int, y as int, z as int),
{
    let abs_x: i64 = abs(x);
    let abs_y: i64 = abs(y);
    let abs_z: i64 = abs(z);
    if abs_z >= abs_x && abs_z >= abs_y {
        return None;
    }
    if abs_x > abs_y {
        if x >= 0 {
            Some(Orientation::Right)
        } else {
            Some(Orientation::Left)
        }
    } else if y >= 0 {
        Some(Orientation::Inverted)
    } else {
        Some(Orientation::Normal)
    }
}

/// Finds the accelerometer among the sensors, by the text of each one's `name` file.
pub fn find_accelerometer(names: &Vec<Option<String>>) -> (r: Option<usize>)
    ensures
        match r {
            Some(at) => {
                &&& at < names@.len()
                &&& is_accelerometer(names@[at as int])
                &&& forall|j: int| 0 <= j < at ==> !is_accelerometer(#[trigger] names@[j])
            },
            None => forall|j: int|
                0 <= j < names@.len() ==> !is_accelerometer(#[trigger] names@[j]),
        },
{
    let mut i: usize = 0;
    while i < names.len()
        invariant
            i <= names@.len(),
            forall|j: int| 0 <= j < i ==> !is_accelerometer(#[trigger] names@[j]),
        decreases names@.len() - i,
    {
        let found: bool = match &names[i] {
            Some(name) => text::same(name.as_str(), "accel_3d\n"),
            None => false,
        };
        if found {
            return Some(i);
        }
        i += 1;
    }
    None
}

/// The text of a `name` file is that of the accelerometer.
pub open spec fn is_accelerometer(name: Option<String>) -> bool {
    name is Some && name->0@ == "accel_3d\n"@
}

/// The acceleration that a file holds, if it holds one.
pub open spec fn axis_reading(raw: Option<String>) -> Option<int> {
    match raw {
        Some(t) => text::signed_number(text::trimmed(t@), i64::MAX as int),
        None => None,
    }
}

fn read_axis(raw: &Option<String>) -> (r: Option<i64>)
    ensures
        match r {
            Some(n) => axis_reading(*raw) == Some(n as int),
            None => axis_reading(*raw) is None,
        },
{
    match raw {
        Some(t) => text::parse_i64(text::trim(t.as_str())),
        None => None,
    }
}

/// Where all three files hold an acceleration, each has an absolute value within 64 bits.
pub open spec fn axes_have_magnitudes(
    x: Option<String>,
    y: Option<String>,
    z: Option<String>,
) -> bool {
    match (axis_reading(x), axis_reading(y), axis_reading(z)) {
        (Some(x), Some(y), Some(z)) => x > i64::MIN && y > i64::MIN && z > i64::MIN,
        _ => true,
    }
}

/// Whether, where all three files hold an acceleration, each has an absolute value within 64
/// bits.
pub fn axes_in_range(x: &Option<String>, y: &Option<String>, z: &Option<String>) -> (r: bool)
    ensures
        r == axes_have_magnitudes(*x, *y, *z),
{
    match (read_axis(x), read_axis(y), read_axis(z)) {
        (Some(x), Some(y), Some(z)) => x > i64::MIN && y > i64::MIN && z > i64::MIN,
        _ => true,
    }
}

/// Which way up the device is held, out of the texts of the accelerometer's three files.
pub fn read_accelerometer_orientation(
    x: &Option<String>,
    y: &Option<String>,
    z: &Option<String>,
) -> (r: Option<Orientation>)
    requires
        axes_have_magnitudes(*x, *y, *z),
    ensures
        r == (match (axis_reading(*x), axis_reading(*y), axis_reading(*z)) {
            (Some(x), Some(y), Some(z)) => orientation_of(x, y, z),
            _ => None,
        }),
{
    match (read_axis(x), read_axis(y), read_axis(z)) {
        (Some(x), Some(y), Some(z)) => accelerometer_orientation(x, y, z),
        _ => None,
    }
}

/// The number of lines that hold `mark`.
pub open spec fn lines_with(lines: Seq<Seq<char>>, mark: Seq<char>) -> nat
    decreases lines.len(),
{
    if lines.len() == 0 {
        0
    } else {
        lines_with(lines.drop_last(), mark) + if text::contains_text(lines.last(), mark) {
            1nat
        } else {
            0nat
        }
    }
}

/// A report of `gdctl show` lists at least two logical monitors.
pub open spec fn shows_two_monitors(show: Seq<char>) -> bool {
    lines_with(text::lines_of(show), "Logical monitor #"@) >= 2
}

/// Whether a report of `gdctl show` lists at least two logical monitors.
pub fn two_logical_monitors(show: &str) -> (r: bool)
    ensures
        r == shows_two_monitors(show@),
{
    let chars: Vec<char> = text::chars_of(show);
    let mark: Vec<char> = text::chars_of("Logical monitor #");
    let lines: Vec<&[char]> = text::lines(chars.as_slice());
    let ghost all = text::lines_of(show@);
    let mut count: usize = 0;
    let mut i: usize = 0;
    while i < lines.len()
        invariant
            i <= lines@.len(),
            count <= i,
            mark@ == "Logical monitor #"@,
            all == lines@.map_values(|line: &[char]| line@),
            count == lines_with(all.take(i as int), "Logical monitor #"@),
        decreases lines@.len() - i,
    {
        assert(all.take(i + 1).drop_last() =~= all.take(i as int));
        assert(all.take(i + 1).last() == lines@[i as int]@);
        if text::find_text(lines[i], mark.as_slice()).is_some() {
            count += 1;
        }
        i += 1;
    }
    assert(all.take(i as int) =~= all);
    count >= 2
}

/// Whether both displays are in use, with what `gdctl show` came to.
pub fn dual_screen_is_active(outcome: &Result<CommandOutput, String>) -> (r: bool)
    ensures
        r == (match *outcome {
            Ok(output) => output.success && shows_two_monitors(text::lossy(output.stdout@)),
            Err(_) => false,
        }),
{
    match outcome {
        Ok(output) => if output.success {
            let show: String = text::lossy_text(output.stdout.as_slice());
            two_logical_monitors(show.as_str())
        } else {
            false
        },
        Err(_) => false,
    }
}

/// How often the orientation is looked at, in milliseconds.
pub const ROTATION_POLL_MILLIS: u64 = 250;

/// The watch over the device's orientation.
#[derive(Debug, Clone, Copy, PartialEq, Eq, Structural)]
pub struct RotationWatch {
    /// The orientation that was last seen.
    pub last_orientation: Option<Orientation>,
}

impl RotationWatch {
    /// The watch before anything has been seen.
    pub fn new() -> (r: RotationWatch)
        ensures
            r.last_orientation is None,
    {
        RotationWatch { last_orientation: None }
    }

    /// Takes over an observation. The result is the orientation, where it is a new one.
    pub fn observed(&mut self, orientation: Option<Orientation>) -> (r: Option<Orientation>)
        ensures
            r == new_orientation(*old(self), orientation),
            *final(self) == after_observation(*old(self), orientation),
    {
        match orientation {
            None => None,
            Some(seen) => {
                let same: bool = match self.last_orientation {
                    Some(last) => last == seen,
                    None => false,
                };
                if same {
                    None
                } else {
                    self.last_orientation = Some(seen);
                    Some(seen)
                }
            },
        }
    }
}

/// The orientation that an observation brings, where it is a new one.
pub open spec fn new_orientation(watch: RotationWatch, seen: Option<Orientation>) -> Option<
    Orientation,
> {
    if seen is None || watch.last_orientation == seen {
        None
    } else {
        seen
    }
}

/// The watch after an observation.
pub open spec fn after_observation(
    watch: RotationWatch,
    seen: Option<Orientation>,
) -> RotationWatch {
    if seen is None {
        watch
    } else {
        RotationWatch { last_orientation: seen }
    }
}

/// Whether the picture is turned to a new orientation: where the user wants that, and both
/// displays are in use.
pub fn rotation_applies(auto_rotate: bool, dual_screen: bool) -> (r: bool)
    ensures
        r == (auto_rotate && dual_screen),
{
    auto_rotate && dual_screen
}

/// Holding the device still turns the picture at most once.
pub proof fn law_steady_device_turns_once(watch: RotationWatch, seen: Option<Orientation>)
    ensures
        new_orientation(after_observation(watch, seen), seen) is None,
{
}

/// Lying flat changes nothing, and is not remembered.
pub proof fn law_flat_device_keeps_its_orientation(
    watch: RotationWatch,
    seen: Option<Orientation>,
)
    ensures
        new_orientation(watch, None) is None,
        after_observation(after_observation(watch, seen), None) == after_observation(watch, seen),
{
}

/// Turning the device half way round, in the plane of the picture, turns the orientation half way
/// round.
pub proof fn law_half_a_turn_is_opposite(x: int, y: int, z: int)
    ensures
        match (orientation_of(x, y, z), orientation_of(-x, -y, z)) {
            (Some(Orientation::Right), other) => other == Some(Orientation::Left),
            (Some(Orientation::Left), other) => other == Some(Orientation::Right),
            (Some(Orientation::Normal), other) => other == Some(Orientation::Inverted),
            (Some(Orientation::Inverted), other) => other == Some(Orientation::Normal),
            (None, other) => other is None,
        },
{
}

/// An orientation is told exactly where gravity does not act mostly across the displays.
pub proof fn law_orientation_is_told_unless_flat(x: int, y: int, z: int)
    ensures
        orientation_of(x, y, z) is None <==> magnitude(z) >= magnitude(x) && magnitude(z)
            >= magnitude(y),
        orientation_of(x, y, -z) == orientation_of(x, y, z),
{
}

/// An observation is reported exactly where something is seen that differs from what was last
/// seen, and it is reported as it is. What is seen is remembered.
pub proof fn law_observation_is_reported_as_it_is(
    watch: &mut RotationWatch,
    seen: Option<Orientation>,
    r: Option<Orientation>,
    orientation: Orientation,
)
    requires
        call_ensures(RotationWatch::observed, (watch, seen), r),
    ensures
        r == Some(orientation) <==> seen == Some(orientation) && old(watch).last_orientation
            != Some(orientation),
        final(watch).last_orientation == (if seen is Some {
            seen
        } else {
            old(watch).last_orientation
        }),
{
}

/// The watch starts with nothing seen, and looks four times a second.
pub proof fn law_watch_starts_with_nothing_seen(fresh: RotationWatch)
    requires
        call_ensures(RotationWatch::new, (), fresh),
    ensures
        fresh.last_orientation is None,
        4 * ROTATION_POLL_MILLIS == 1_000,
{
}

/// The accelerometer is the first device whose name file says so; both displays are in use where
/// `gdctl show` succeeds and two of its lines show a logical monitor.
pub proof fn law_devices_are_found_by_their_reports(
    names: Vec<Option<String>>,
    found: Option<usize>,
    outcome: Result<CommandOutput, String>,
    dual: bool,
)
    requires
        call_ensures(find_accelerometer, (&names,), found),
        call_ensures(dual_screen_is_active, (&outcome,), dual),
    ensures
        found matches Some(at) ==> {
            &&& at < names@.len()
            &&& names@[at as int] is Some
            &&& names@[at as int]->0@ == "accel_3d\n"@
            &&& forall|j: int|
                0 <= j < at && #[trigger] names@[j] is Some ==> names@[j]->0@ != "accel_3d\n"@
        },
        found is None ==> forall|j: int|
            0 <= j < names@.len() && #[trigger] names@[j] is Some ==> names@[j]->0@
                != "accel_3d\n"@,
        dual <==> (outcome matches Ok(output) && output.success && lines_with(
            text::lines_of(text::lossy(output.stdout@)),
            "Logical monitor #"@,
        ) >= 2),
{
}

/// A line counts exactly where it holds the mark.
pub proof fn law_lines_are_counted_by_their_mark(
    lines: Seq<Seq<char>>,
    line: Seq<char>,
    mark: Seq<char>,
)
    ensures
        lines_with(Seq::empty(), mark) == 0,
        lines_with(lines.push(line), mark) == lines_with(lines, mark) + (if text::contains_text(
            line,
            mark,
        ) {
            1nat
        } else {
            0nat
        }),
{
    assert(lines.push(line).drop_last() =~= lines);
}

/// Every orientation that is seen and is not the one last seen is reported as it is, and nothing
/// else is reported: whatever was seen before.
pub proof fn law_every_turn_is_reported(
    watch: RotationWatch,
    first: Orientation,
    then: Option<Orientation>,
)
    ensures
        new_orientation(after_observation(watch, Some(first)), then) == (match then {
            Some(seen) if seen != first => Some(seen),
            _ => None,
        }),
        new_orientation(RotationWatch { last_orientation: None }, Some(first)) == Some(first),
        after_observation(watch, Some(first)).last_orientation == Some(first),
        after_observation(watch, None) == watch,
{
}

/// Gravity pulls along an axis, one way or the other: the orientation is the one in which that
/// axis points down. The values that are left out lie flat, or between two orientations.
pub proof fn law_gravity_tells_the_orientation(x: int, y: int, z: int)
    ensures
        x > y && x > -y && x > z && x > -z ==> orientation_of(x, y, z) == Some(Orientation::Right),
        -x > y && -x > -y && -x > z && -x > -z ==> orientation_of(x, y, z) == Some(
            Orientation::Left,
        ),
        y >= x && y >= -x && y > z && y > -z ==> orientation_of(x, y, z) == Some(
            Orientation::Inverted,
        ),
        -y >= x && -y >= -x && -y > z && -y > -z ==> orientation_of(x, y, z) == Some(
            Orientation::Normal,
        ),
        (z >= x && z >= -x && z >= y && z >= -y) || (-z >= x && -z >= -x && -z >= y && -z >= -y)
            ==> orientation_of(x, y, z) is None,
{
}

/// An exact reading of the three files decides; without one of them nothing is told.
pub proof fn law_orientation_needs_all_three_axes(
    x: Option<String>,
    y: Option<String>,
    z: Option<String>,
    r: Option<Orientation>,
)
    requires
        call_ensures(read_accelerometer_orientation, (&x, &y, &z), r),
    ensures
        x is None || y is None || z is None ==> r is None,
        x is Some && y is Some && z is Some ==> r == (match (
            text::signed_number(text::trimmed(x->0@), 0x7fff_ffff_ffff_ffff),
            text::signed_number(text::trimmed(y->0@), 0x7fff_ffff_ffff_ffff),
            text::signed_number(text::trimmed(z->0@), 0x7fff_ffff_ffff_ffff),
        ) {
            (Some(a), Some(b), Some(c)) => orientation_of(a, b, c),
            _ => None,
        }),
{
}

/// The picture is turned exactly where the user wants that and both displays are in use.
pub proof fn law_rotation_needs_the_user_and_both_displays(
    auto_rotate: bool,
    dual_screen: bool,
    r: bool,
)
    requires
        call_ensures(rotation_applies, (auto_rotate, dual_screen), r),
    ensures
        r <==> auto_rotate && dual_screen,
{
}

/// Three accelerations are refused exactly where one of them is as small as 64 bits hold: that one
/// has no absolute value within 64 bits.
pub proof fn law_smallest_number_has_no_magnitude(
    x: Option<String>,
    y: Option<String>,
    z: Option<String>,
    r: bool,
)
    requires
        call_ensures(axes_in_range, (&x, &y, &z), r),
    ensures
        !r <==> {
            &&& axis_reading(x) is Some
            &&& axis_reading(y) is Some
            &&& axis_reading(z) is Some
            &&& axis_reading(x)->0 <= i64::MIN || axis_reading(y)->0 <= i64::MIN || axis_reading(
                z,
            )->0 <= i64::MIN
        },
{
}

/// The axis that gravity pulls along most tells which way up the device is held, and its sign
/// which of the two ways; a device that lies flat tells nothing.
pub proof fn law_strongest_axis_decides(x: i64, y: i64, z: i64, r: Option<Orientation>)
    requires
        x > i64::MIN,
        y > i64::MIN,
        z > i64::MIN,
        call_ensures(accelerometer_orientation, (x, y, z), r),
    ensures
        ({
            let along_x = if x < 0 {
                -x
            } else {
                x as int
            };
            let along_y = if y < 0 {
                -y
            } else {
                y as int
            };
            let along_z = if z < 0 {
                -z
            } else {
                z as int
            };
            let flat = along_z >= along_x && along_z >= along_y;
            &&& r is None <==> flat
            &&& r == Some(Orientation::Right) <==> !flat && along_x > along_y && x > 0
            &&& r == Some(Orientation::Left) <==> !flat && along_x > along_y && x < 0
            &&& r == Some(Orientation::Inverted) <==> !flat && along_x <= along_y && y > 0
            &&& r == Some(Orientation::Normal) <==> !flat && along_x <= along_y && y < 0
        }),
{
}

/// Two logical monitors are shown exactly where two lines of the report name one.
pub proof fn law_two_lines_show_two_monitors(show: &str, r: bool)
    requires
        call_ensures(two_logical_monitors, (show,), r),
    ensures
        r <==> exists|i: int, j: int|
            {
                &&& 0 <= i < j < text::lines_of(show@).len()
                &&& #[trigger] text::contains_text(
                    text::lines_of(show@)[i],
                    "Logical monitor #"@,
                )
                &&& #[trigger] text::contains_text(
                    text::lines_of(show@)[j],
                    "Logical monitor #"@,
                )
            },
{
    lemma_lines_with(text::lines_of(show@), "Logical monitor #"@);
}

proof fn lemma_lines_with(lines: Seq<Seq<char>>, mark: Seq<char>)
    ensures
        lines_with(lines, mark) >= 1 <==> exists|i: int|
            0 <= i < lines.len() && #[trigger] text::contains_text(lines[i], mark),
        lines_with(lines, mark) >= 2 <==> exists|i: int, j: int|
            0 <= i < j < lines.len() && #[trigger] text::contains_text(lines[i], mark)
                && #[trigger] text::contains_text(lines[j], mark),
    decreases lines.len(),
{
    if lines.len() > 0 {
        let before = lines.drop_last();
        let last = lines.len() - 1;
        lemma_lines_with(before, mark);
        assert(forall|i: int| 0 <= i < last ==> before[i] == lines[i]);
        let now = text::contains_text(lines[last], mark);
        if lines_with(before, mark) >= 1 {
            let i = choose|i: int|
                0 <= i < before.len() && #[trigger] text::contains_text(before[i], mark);
            assert(text::contains_text(lines[i], mark));
        }
        if lines_with(before, mark) >= 2 {
            let (i, j) = choose|i: int, j: int|
                0 <= i < j < before.len() && #[trigger] text::contains_text(before[i], mark)
                    && #[trigger] text::contains_text(before[j], mark);
            assert(text::contains_text(lines[i], mark) && text::contains_text(lines[j], mark));
        }
        if exists|i: int| 0 <= i < lines.len() && #[trigger] text::contains_text(lines[i], mark) {
            let i = choose|i: int|
                0 <= i < lines.len() && #[trigger] text::contains_text(lines[i], mark);
            assert(i < last ==> text::contains_text(before[i], mark));
        }
        if exists|i: int, j: int|
            0 <= i < j < lines.len() && #[trigger] text::contains_text(lines[i], mark)
                && #[trigger] text::contains_text(lines[j], mark) {
            let (i, j) = choose|i: int, j: int|
                0 <= i < j < lines.len() && #[trigger] text::contains_text(lines[i], mark)
                    && #[trigger] text::contains_text(lines[j], mark);
            assert(text::contains_text(before[i], mark));
            assert(j < last ==> text::contains_text(before[j], mark));
        }
    }
}

}
