//! The keyboard's special keys, and its backlight while nobody types.

use vstd::prelude::*;

use crate::session::brightness::{
    brightness_percent, percent, percent_defined, percent_is_defined,
};
use crate::text;

verus! {

/// Reads `evdev::AbsoluteAxisType::ABS_VOLUME`: the axis has the code 0x20.
#[verifier::external_body]
fn abs_volume_code() -> (r: u16)
    ensures
        r == 0x20,
{
    evdev::AbsoluteAxisType::ABS_VOLUME.0
}

/// Calls `evdev::Key::code` on `evdev::Key::KEY_F12`: the key has the code 88.
#[verifier::external_body]
fn key_f12_code() -> (r: u16)
    ensures
        r == 88,
{
    evdev::Key::KEY_F12.code()
}

/// Reads `evdev::EventType::KEY`: events of keys have the type 1.
#[verifier::external_body]
fn key_event_type() -> (r: u16)
    ensures
        r == 1,
{
    evdev::EventType::KEY.0
}

/// Reads `evdev::EventType::ABSOLUTE`: events of absolute axes have the type 3.
#[verifier::external_body]
fn absolute_event_type() -> (r: u16)
    ensures
        r == 3,
{
    evdev::EventType::ABSOLUTE.0
}

/// The axes on which the keyboard reports its special keys.
pub fn supported_hotkey_abs_codes() -> (r: [u16; 2])
    ensures
        r@ == seq![0x28u16, 0x20u16],
{
    let codes: [u16; 2] = [0x28, abs_volume_code()];
    assert(codes@ =~= seq![0x28u16, 0x20u16]);
    codes
}

/// The axis is one on which the keyboard reports its special keys.
pub open spec fn is_hotkey_axis(code: u16) -> bool {
    code == 0x28 || code == 0x20
}

/// Whether the axis is one on which the keyboard reports its special keys.
pub fn is_hotkey_abs_code(code: u16) -> (r: bool)
    ensures
        r == is_hotkey_axis(code),
{
    let codes: [u16; 2] = supported_hotkey_abs_codes();
    codes[0] == code || codes[1] == code
}

/// An input device that may be the keyboard's.
#[derive(Debug, Clone)]
pub struct InputDevice {
    /// The name of its file, where that is text.
    pub file_name: Option<String>,
    /// The name that it gives itself, where it can be opened; empty where it gives none.
    pub name: Option<String>,
    /// The codes of its absolute axes, where it has any.
    pub axes: Option<Vec<u16>>,
    /// Whether it has keys.
    pub has_keys: bool,
}

/// A device's name, in lower case, is that of the keyboard.
pub open spec fn names_keyboard(lower: Seq<char>) -> bool {
    text::contains_text(lower, "zenbook duo keyboard"@) || text::contains_text(lower, "asus_duo"@)
}

/// The device reports special keys.
pub open spec fn has_hotkeys(device: InputDevice) -> bool {
    &&& device.axes is Some
    &&& exists|i: int|
        0 <= i < device.axes->0@.len() && is_hotkey_axis(#[trigger] device.axes->0@[i])
}

/// The device is watched.
pub open spec fn is_watched(device: InputDevice) -> bool {
    &&& device.file_name is Some
    &&& text::matches_at(device.file_name->0@, "event"@, 0)
    &&& device.name is Some
    &&& names_keyboard(text::lowercase(device.name->0@))
    &&& has_hotkeys(device) || device.has_keys
}

fn any_hotkey_axis(axes: &Vec<u16>) -> (r: bool)
    ensures
        r == exists|i: int| 0 <= i < axes@.len() && is_hotkey_axis(#[trigger] axes@[i]),
{
    let mut i: usize = 0;
    while i < axes.len()
        invariant
            i <= axes@.len(),
            forall|k: int| 0 <= k < i ==> !is_hotkey_axis(#[trigger] axes@[k]),
        decreases axes@.len() - i,
    {
        if is_hotkey_abs_code(axes[i]) {
            return true;
        }
        i += 1;
    }
    false
}

/// Whether the name of a device's file is that of an event device. Only such a device is opened.
pub fn is_event_file(file_name: &Option<String>) -> (r: bool)
    ensures
        r == (file_name is Some && text::matches_at(file_name->0@, "event"@, 0)),
{
    match file_name {
        Some(name) => text::starts_with(name.as_str(), "event"),
        None => false,
    }
}

/// Whether a device's name, in lower case, is that of the keyboard.
pub fn is_keyboard_name(lower: &str) -> (r: bool)
    ensures
        r == names_keyboard(lower@),
{
    text::contains(lower, "zenbook duo keyboard") || text::contains(lower, "asus_duo")
}

/// Whether a device is watched: one of the keyboard's that reports special keys or keys.
pub fn watches_device(device: &InputDevice) -> (r: bool)
    ensures
        r == is_watched(*device),
{
    if !is_event_file(&device.file_name) {
        return false;
    }
    let keyboard: bool = match &device.name {
        Some(name) => is_keyboard_name(text::to_lowercase(name.as_str()).as_str()),
        None => false,
    };
    let hotkeys: bool = match &device.axes {
        Some(axes) => any_hotkey_axis(axes),
        None => false,
    };
    keyboard && (hotkeys || device.has_keys)
}

/// The places of the devices that are watched, in order.
pub open spec fn watched_places(devices: Seq<InputDevice>) -> Seq<usize>
    decreases devices.len(),
{
    if devices.len() == 0 {
        Seq::empty()
    } else {
        let before = watched_places(devices.drop_last());
        if is_watched(devices.last()) {
            before.push((devices.len() - 1) as usize)
        } else {
            before
        }
    }
}

/// Finds the devices that are watched. `devices` holds those of the input directory, or why it
/// could not be listed.
pub fn find_keyboard_abs_devices(devices: &Result<Vec<InputDevice>, String>) -> (r: Result<
    Vec<usize>,
    String,
>)
    ensures
        match *devices {
            Ok(list) => r is Ok && r->Ok_0@ == watched_places(list@),
            Err(err) => r is Err && r->Err_0@ == "Failed to read /dev/input: "@ + err@,
        },
{
    let list: &Vec<InputDevice> = match devices {
        Ok(list) => list,
        Err(err) => {
            return Err(text::concat2("Failed to read /dev/input: ", err.as_str()));
        },
    };
    let mut places: Vec<usize> = Vec::new();
    let mut i: usize = 0;
    while i < list.len()
        invariant
            i <= list@.len(),
            *devices == Ok::<Vec<InputDevice>, String>(*list),
            places@ == watched_places(list@.take(i as int)),
        decreases list@.len() - i,
    {
        assert(list@.take(i + 1).drop_last() =~= list@.take(i as int));
        if watches_device(&list[i]) {
            places.push(i);
        }
        i += 1;
    }
    assert(list@.take(i as int) =~= list@);
    Ok(places)
}

/// How long the keyboard's devices are left alone once one of them is lost, in seconds.
pub const DEVICE_LOST_PAUSE_SECS: u64 = 2;

/// How long to wait before the keyboard's devices are looked for again, in seconds, where `found`
/// of them were found and `opened` of those could be opened; none where they can be watched.
pub fn rescan_pause_secs(found: usize, opened: usize) -> (r: Option<u64>)
    ensures
        r == (if found == 0 {
            Some(5u64)
        } else if opened == 0 {
            Some(2u64)
        } else {
            None
        }),
{
    if found == 0 {
        Some(5)
    } else if opened == 0 {
        Some(2)
    } else {
        None
    }
}

/// What a special key asks for.
#[derive(Debug, Clone, Copy, PartialEq, Eq, Structural)]
pub enum HotkeyAction {
    Nothing,
    CycleBacklight,
    BrightnessDown,
    BrightnessUp,
}

/// What a special key asks for, by the value that it reports.
pub open spec fn hotkey_action(value: i32) -> HotkeyAction {
    if value == 199 {
        HotkeyAction::CycleBacklight
    } else if value == 16 {
        HotkeyAction::BrightnessDown
    } else if value == 32 {
        HotkeyAction::BrightnessUp
    } else {
        HotkeyAction::Nothing
    }
}

/// What a special key asks for, by the value that it reports.
pub fn handle_abs_misc_value(value: i32) -> (r: HotkeyAction)
    ensures
        r == hotkey_action(value),
{
    match value {
        199 => HotkeyAction::CycleBacklight,
        16 => HotkeyAction::BrightnessDown,
        32 => HotkeyAction::BrightnessUp,
        _ => HotkeyAction::Nothing,
    }
}

/// The backlight level after `current` in the cycle.
pub open spec fn next_level(current: u8) -> u8 {
    if current < 3 {
        (current + 1) as u8
    } else {
        0
    }
}

/// The backlight level after `current` in the cycle.
pub fn cycle_backlight(current: u8) -> (r: u8)
    ensures
        r == next_level(current),
{
    match current {
        0 => 1,
        1 => 2,
        2 => 3,
        _ => 0,
    }
}

/// The number that a file holds, or zero.
pub open spec fn file_number(raw: Option<String>) -> int {
    match raw {
        Some(t) => match text::signed_number(text::trimmed(t@), i32::MAX as int) {
            Some(n) => n,
            None => 0,
        },
        None => 0,
    }
}

/// The number that a file holds, or zero; zero for a negative one too.
pub open spec fn raw_level(raw: Option<String>) -> u32 {
    if file_number(raw) > 0 {
        file_number(raw) as u32
    } else {
        0
    }
}

fn read_level(raw: &Option<String>) -> (r: u32)
    ensures
        r == raw_level(*raw),
{
    let n: i32 = match raw {
        Some(t) => match text::parse_i32(text::trim(t.as_str())) {
            Some(n) => n,
            None => 0,
        },
        None => 0,
    };
    if n > 0 {
        n as u32
    } else {
        0
    }
}

/// The percentage one step up or down from `current`: five percent, within the range.
pub open spec fn stepped(current: int, up: bool) -> int {
    if up {
        if current + 5 < 100 {
            current + 5
        } else {
            100
        }
    } else if current > 5 {
        current - 5
    } else {
        0
    }
}

/// Whether the texts of the backlight device's files give a percentage.
pub fn step_is_defined(max_brightness: &Option<String>, brightness: &Option<String>) -> (r: bool)
    ensures
        r == percent_defined(raw_level(*brightness), raw_level(*max_brightness)),
{
    percent_is_defined(read_level(brightness), read_level(max_brightness))
}

/// The brightness, as a percentage, one step up or down from the present one. `present` tells
/// whether there is a backlight device; the texts are those of its files.
pub fn step_brightness(
    up: bool,
    present: bool,
    max_brightness: &Option<String>,
    brightness: &Option<String>,
) -> (r: Result<u8, String>)
    requires
        present ==> percent_defined(raw_level(*brightness), raw_level(*max_brightness)),
    ensures
        match r {
            Ok(next) => {
                &&& present
                &&& next == stepped(percent(raw_level(*brightness), raw_level(*max_brightness)), up)
                &&& next <= 100
            },
            Err(e) => !present && e@ == "no intel_backlight device found"@,
        },
{
    if !present {
        return Err("no intel_backlight device found".to_string());
    }
    let current: u8 = brightness_percent(read_level(brightness), read_level(max_brightness));
    let next: u8 = if up {
        if current < 95 {
            current + 5
        } else {
            100
        }
    } else if current > 5 {
        current - 5
    } else {
        0
    };
    Ok(next)
}

/// An event of an input device.
#[derive(Debug, Clone, Copy, PartialEq, Eq, Structural)]
pub struct InputEvent {
    pub event_type: u16,
    pub code: u16,
    pub value: i32,
}

/// A key went down or repeats.
pub open spec fn is_key_input(event: InputEvent) -> bool {
    event.event_type == 1 && event.value != 0
}

/// A special key was pressed or let go.
pub open spec fn is_hotkey(event: InputEvent) -> bool {
    event.event_type == 3 && is_hotkey_axis(event.code)
}

/// The key that opens the control panel went down.
pub open spec fn is_control_key(event: InputEvent) -> bool {
    event.event_type == 1 && event.code == 88 && event.value == 1
}

/// What an event asks for.
#[derive(Debug, Clone, Copy, PartialEq, Eq, Structural)]
pub struct EventEffects {
    /// The backlight is to be brought back to the default level, where that is not zero.
    pub restore_backlight: bool,
    pub hotkey: HotkeyAction,
    /// The control panel is to be opened.
    pub open_control_window: bool,
}

/// The watch over the keyboard. Times are in milliseconds on one steady clock.
#[derive(Debug, Clone, Copy, PartialEq, Eq, Structural)]
pub struct HotkeyWatch {
    /// When something was last typed.
    pub last_input: u64,
    /// When the backlight was last looked at.
    pub last_power_save_check: u64,
    /// Whether the watch has turned the backlight off.
    pub backlight_disabled_for_idle: bool,
}

/// What an event asks for.
pub open spec fn event_effects(watch: HotkeyWatch, event: InputEvent) -> EventEffects {
    EventEffects {
        restore_backlight: (is_key_input(event) || is_hotkey(event))
            && watch.backlight_disabled_for_idle,
        hotkey: if is_hotkey(event) {
            hotkey_action(event.value)
        } else {
            HotkeyAction::Nothing
        },
        open_control_window: is_control_key(event),
    }
}

/// The watch after an event.
pub open spec fn after_event(watch: HotkeyWatch, event: InputEvent, now: u64) -> HotkeyWatch {
    if is_key_input(event) || is_hotkey(event) {
        HotkeyWatch { last_input: now, backlight_disabled_for_idle: false, ..watch }
    } else {
        watch
    }
}

/// How often the devices are asked for events, in milliseconds.
pub const EVENT_POLL_MILLIS: u64 = 50;

/// How often the backlight is looked at, in milliseconds.
pub const POWER_SAVE_CHECK_MILLIS: u64 = 1_000;

/// How long nobody types before the backlight of a detached keyboard goes off, in milliseconds.
pub const KEYBOARD_BACKLIGHT_IDLE_MILLIS: u64 = 120_000;

/// The milliseconds from `earlier` to `now`; none where `earlier` lies ahead.
pub open spec fn elapsed(earlier: u64, now: u64) -> int {
    if now > earlier {
        now - earlier
    } else {
        0
    }
}

fn millis_since(earlier: u64, now: u64) -> (r: u64)
    ensures
        r == elapsed(earlier, now),
{
    if now > earlier {
        now - earlier
    } else {
        0
    }
}

/// What the backlight depends on.
#[derive(Debug, Clone, Copy, PartialEq, Eq, Structural)]
pub struct PowerSaveInputs {
    /// The user wants the backlight to go off.
    pub enabled: bool,
    pub main_screen_off: bool,
    pub keyboard_attached: bool,
    pub backlight_level: u8,
}

/// The backlight is to be turned off: the main display is off, or a detached keyboard has been
/// left alone for long enough; and it is on, and has not been turned off already.
pub open spec fn turns_off(watch: HotkeyWatch, inputs: PowerSaveInputs, now: u64) -> bool {
    &&& inputs.enabled
    &&& !watch.backlight_disabled_for_idle
    &&& inputs.backlight_level > 0
    &&& inputs.main_screen_off || (!inputs.keyboard_attached && elapsed(watch.last_input, now)
        >= KEYBOARD_BACKLIGHT_IDLE_MILLIS)
}

/// The watch after a look at the backlight. Where the user does not want it to go off, or the
/// keyboard is docked with the display on, the time of idleness starts afresh.
pub open spec fn after_look(watch: HotkeyWatch, inputs: PowerSaveInputs, now: u64) -> HotkeyWatch {
    if !inputs.enabled {
        HotkeyWatch { last_input: now, backlight_disabled_for_idle: false, ..watch }
    } else if !inputs.main_screen_off && inputs.keyboard_attached {
        HotkeyWatch { last_input: now, ..watch }
    } else {
        watch
    }
}

impl HotkeyWatch {
    /// The watch over a keyboard that has just been opened.
    pub fn new(now: u64) -> (r: HotkeyWatch)
        ensures
            r == (HotkeyWatch {
                last_input: now,
                last_power_save_check: now,
                backlight_disabled_for_idle: false,
            }),
    {
        HotkeyWatch {
            last_input: now,
            last_power_save_check: now,
            backlight_disabled_for_idle: false,
        }
    }

    /// Takes over an event of the keyboard.
    pub fn event(&mut self, event: InputEvent, now: u64) -> (r: EventEffects)
        ensures
            r == event_effects(*old(self), event),
            *final(self) == after_event(*old(self), event, now),
    {
        let key: bool = event.event_type == key_event_type();
        let key_input: bool = key && event.value != 0;
        let hotkey: bool = event.event_type == absolute_event_type() && is_hotkey_abs_code(
            event.code,
        );
        let mut restore_backlight: bool = false;
        if key_input || hotkey {
            self.last_input = now;
            restore_backlight = self.backlight_disabled_for_idle;
            self.backlight_disabled_for_idle = false;
        }
        let action: HotkeyAction = if hotkey {
            handle_abs_misc_value(event.value)
        } else {
            HotkeyAction::Nothing
        };
        EventEffects {
            restore_backlight,
            hotkey: action,
            open_control_window: key && event.code == key_f12_code() && event.value == 1,
        }
    }

    /// Whether it is time to look at the backlight.
    pub fn look_is_due(&mut self, now: u64) -> (r: bool)
        ensures
            r == (elapsed(old(self).last_power_save_check, now) >= POWER_SAVE_CHECK_MILLIS),
            *final(self) == (if r {
                HotkeyWatch { last_power_save_check: now, ..*old(self) }
            } else {
                *old(self)
            }),
    {
        if millis_since(self.last_power_save_check, now) >= POWER_SAVE_CHECK_MILLIS {
            self.last_power_save_check = now;
            true
        } else {
            false
        }
    }

    /// Takes over a look at the backlight, and decides whether it is to be turned off.
    pub fn look(&mut self, inputs: PowerSaveInputs, now: u64) -> (r: bool)
        ensures
            r == turns_off(*old(self), inputs, now),
            *final(self) == after_look(*old(self), inputs, now),
    {
        if !inputs.enabled {
            self.last_input = now;
            self.backlight_disabled_for_idle = false;
            false
        } else if inputs.main_screen_off {
            !self.backlight_disabled_for_idle && inputs.backlight_level > 0
        } else if inputs.keyboard_attached {
            self.last_input = now;
            false
        } else {
            !self.backlight_disabled_for_idle && millis_since(self.last_input, now)
                >= KEYBOARD_BACKLIGHT_IDLE_MILLIS && inputs.backlight_level > 0
        }
    }

    /// Takes over whether the backlight went off.
    pub fn turned_off(&mut self, succeeded: bool)
        ensures
            *final(self) == (HotkeyWatch {
                backlight_disabled_for_idle: succeeded || old(self).backlight_disabled_for_idle,
                ..*old(self)
            }),
    {
        if succeeded {
            self.backlight_disabled_for_idle = true;
        }
    }
}

/// The level to which the backlight is brought back, if any.
pub fn restore_level(default_backlight: u8) -> (r: Option<u8>)
    ensures
        r == (if default_backlight > 0 {
            Some(default_backlight)
        } else {
            None
        }),
{
    if default_backlight > 0 {
        Some(default_backlight)
    } else {
        None
    }
}

/// A run of the control panel's launcher, which brings up the panel that runs already, or starts
/// one.
#[derive(Debug, Clone)]
pub struct ControlWindowCommand {
    pub program: String,
    /// The Wayland display that it is given, if any.
    pub wayland_display: Option<String>,
}

/// Decides how the control panel is opened. `has_wayland_socket` tells whether the runtime
/// directory is known and holds the socket `wayland-0`.
pub fn open_control_window(has_wayland_socket: bool) -> (r: ControlWindowCommand)
    ensures
        r.program@ == "/usr/bin/zenbook-duo-control"@,
        match r.wayland_display {
            Some(display) => has_wayland_socket && display@ == "wayland-0"@,
            None => !has_wayland_socket,
        },
{
    ControlWindowCommand {
        program: "/usr/bin/zenbook-duo-control".to_string(),
        wayland_display: if has_wayland_socket {
            Some("wayland-0".to_string())
        } else {
            None
        },
    }
}

/// A backlight that the watch turned off comes back with the next key, and with no later one.
pub proof fn law_next_key_restores_the_backlight(watch: HotkeyWatch, event: InputEvent, now: u64)
    requires
        watch.backlight_disabled_for_idle,
        is_key_input(event) || is_hotkey(event),
    ensures
        event_effects(watch, event).restore_backlight,
        !event_effects(after_event(watch, event, now), event).restore_backlight,
{
}

/// Typing keeps the backlight on: it does not go off for idleness before the whole time has
/// passed since the last key.
pub proof fn law_typing_keeps_the_backlight_on(
    watch: HotkeyWatch,
    event: InputEvent,
    inputs: PowerSaveInputs,
    now: u64,
    later: u64,
)
    requires
        is_key_input(event) || is_hotkey(event),
        later < now + KEYBOARD_BACKLIGHT_IDLE_MILLIS,
        !inputs.main_screen_off,
    ensures
        !turns_off(after_event(watch, event, now), inputs, later),
{
}

/// While the keyboard is docked and the display is on, the backlight never goes off, and the time
/// of idleness starts only when it is taken off.
pub proof fn law_docking_pauses_the_idle_timer(
    watch: HotkeyWatch,
    docked: PowerSaveInputs,
    detached: PowerSaveInputs,
    now: u64,
    later: u64,
)
    requires
        docked.keyboard_attached,
        !docked.main_screen_off,
        !detached.main_screen_off,
        later < now + KEYBOARD_BACKLIGHT_IDLE_MILLIS,
    ensures
        !turns_off(watch, docked, now),
        !turns_off(after_look(watch, docked, now), detached, later),
{
}

/// A backlight that is off is not turned off again.
pub proof fn law_backlight_is_turned_off_once(
    watch: HotkeyWatch,
    inputs: PowerSaveInputs,
    now: u64,
)
    ensures
        inputs.backlight_level == 0 ==> !turns_off(watch, inputs, now),
        watch.backlight_disabled_for_idle ==> !turns_off(watch, inputs, now),
{
}

/// Four presses of the backlight key come back to the level from which they started.
pub proof fn law_backlight_cycle_has_four_levels(level: u8)
    requires
        level <= 3,
    ensures
        next_level(next_level(next_level(next_level(level)))) == level,
        next_level(level) <= 3,
        next_level(level) != level,
{
}

/// Steps of brightness stay within the range, and one down undoes one up where neither end is
/// reached.
pub proof fn law_brightness_steps_undo_each_other(current: int)
    requires
        0 <= current <= 100,
    ensures
        0 <= stepped(current, true) <= 100,
        0 <= stepped(current, false) <= 100,
        current <= 95 ==> stepped(stepped(current, true), false) == current,
        current >= 5 ==> stepped(stepped(current, false), true) == current,
{
}

/// The special keys come over two axes.
pub proof fn law_special_keys_come_over_two_axes(code: u16, r: bool, codes: [u16; 2])
    requires
        call_ensures(is_hotkey_abs_code, (code,), r),
        call_ensures(supported_hotkey_abs_codes, (), codes),
    ensures
        r <==> code == 0x28 || code == 0x20,
        codes@.len() == 2,
        codes@[0] == 0x28,
        codes@[1] == 0x20,
{
}

/// A device is watched exactly where its file is an event file, its name in lower case is that of
/// the keyboard, and it has keys or one of the two axes.
pub proof fn law_watched_devices_are_the_keyboards(device: InputDevice, r: bool, file: bool)
    requires
        call_ensures(watches_device, (&device,), r),
        call_ensures(is_event_file, (&device.file_name,), file),
    ensures
        file <==> device.file_name is Some && text::matches_at(
            device.file_name->0@,
            "event"@,
            0,
        ),
        r <==> {
            &&& file
            &&& device.name is Some
            &&& text::contains_text(text::lowercase(device.name->0@), "zenbook duo keyboard"@)
                || text::contains_text(text::lowercase(device.name->0@), "asus_duo"@)
            &&& device.has_keys || (device.axes is Some && exists|i: int|
                0 <= i < device.axes->0@.len() && ((#[trigger] device.axes->0@[i]) == 0x28
                    || device.axes->0@[i] == 0x20))
        },
{
    if device.axes is Some {
        assert(forall|i: int|
            is_hotkey_axis(#[trigger] device.axes->0@[i]) <==> device.axes->0@[i] == 0x28
                || device.axes->0@[i] == 0x20);
    }
}

/// A name in lower case is that of the keyboard exactly where it holds one of its two names.
pub proof fn law_keyboard_has_two_names(lower: &str, r: bool)
    requires
        call_ensures(is_keyboard_name, (lower,), r),
    ensures
        r <==> text::contains_text(lower@, "zenbook duo keyboard"@) || text::contains_text(
            lower@,
            "asus_duo"@,
        ),
{
}

/// One more device that is watched adds its place at the end; any other adds none.
pub proof fn law_each_watched_device_adds_its_place(
    devices: Seq<InputDevice>,
    device: InputDevice,
)
    ensures
        watched_places(Seq::empty()) == Seq::<usize>::empty(),
        watched_places(devices.push(device)) == (if is_watched(device) {
            watched_places(devices).push(devices.len() as usize)
        } else {
            watched_places(devices)
        }),
{
    assert(devices.push(device).drop_last() =~= devices);
}

/// The devices are found by their places; where they cannot be listed it is told why.
pub proof fn law_devices_are_found_by_their_places(
    devices: Result<Vec<InputDevice>, String>,
    r: Result<Vec<usize>, String>,
)
    requires
        call_ensures(find_keyboard_abs_devices, (&devices,), r),
    ensures
        r is Ok <==> devices is Ok,
        devices matches Ok(list) ==> r->Ok_0@ == watched_places(list@),
        devices matches Err(err) ==> r->Err_0@ == "Failed to read /dev/input: "@ + err@,
{
}

/// Devices are looked for again after five seconds where none was found, after two where none
/// could be opened or one was lost, and not at all while one is watched.
pub proof fn law_devices_are_looked_for_again(found: usize, opened: usize, r: Option<u64>)
    requires
        call_ensures(rescan_pause_secs, (found, opened), r),
    ensures
        found == 0 ==> r == Some(5u64),
        found != 0 && opened == 0 ==> r == Some(2u64),
        found != 0 && opened != 0 ==> r is None,
        DEVICE_LOST_PAUSE_SECS == 2,
        EVENT_POLL_MILLIS == 50,
{
}

/// Three values of a special key ask for something, and no other.
pub proof fn law_special_keys_have_their_values(value: i32, r: HotkeyAction)
    requires
        call_ensures(handle_abs_misc_value, (value,), r),
    ensures
        r == HotkeyAction::CycleBacklight <==> value == 199,
        r == HotkeyAction::BrightnessDown <==> value == 16,
        r == HotkeyAction::BrightnessUp <==> value == 32,
{
}

/// The backlight key goes up by one, and from the highest level, or from any above it, to off.
pub proof fn law_backlight_key_goes_up_by_one(current: u8, r: u8)
    requires
        call_ensures(cycle_backlight, (current,), r),
    ensures
        current <= 2 ==> r == current + 1,
        current >= 3 ==> r == 0,
{
}

/// A step of brightness is five percent of the range, from the percentage of the present level,
/// and stops at its ends. Without a backlight device there is none.
pub proof fn law_step_is_five_percent(
    up: bool,
    present: bool,
    max: Option<String>,
    level: Option<String>,
    r: Result<u8, String>,
)
    requires
        call_ensures(step_brightness, (up, present, &max, &level), r),
    ensures
        r is Ok <==> present,
        r matches Ok(next) ==> {
            let now = percent(raw_level(level), raw_level(max));
            &&& up && now <= 95 ==> next == now + 5
            &&& up && now > 95 ==> next == 100
            &&& !up && now >= 5 ==> next == now - 5
            &&& !up && now < 5 ==> next == 0
        },
        r matches Err(e) ==> e@ == "no intel_backlight device found"@,
{
}

/// A level is the number that its file holds, within 32 bits; without one, or with a negative one,
/// it is zero.
pub proof fn law_level_is_what_its_file_holds(
    raw: Option<String>,
    other: Option<String>,
    defined: bool,
)
    requires
        call_ensures(step_is_defined, (&other, &raw), defined),
    ensures
        raw is None ==> raw_level(raw) == 0,
        raw matches Some(t) ==> (match text::signed_number(text::trimmed(t@), 0x7fff_ffff) {
            Some(n) if 0 < n <= u32::MAX => raw_level(raw) == n,
            Some(n) if n <= 0 => raw_level(raw) == 0,
            None => raw_level(raw) == 0,
            _ => true,
        }),
        defined <==> percent_defined(raw_level(raw), raw_level(other)),
{
}

/// An event of a key that is pressed or repeats, or of a special key, counts as typing: it brings
/// back a backlight that the watch turned off, and the time of idleness starts afresh. A special
/// key asks for what its value says, and F12 going down opens the control panel. Any other event
/// does nothing.
pub proof fn law_events_are_told_apart(
    watch: &mut HotkeyWatch,
    event: InputEvent,
    now: u64,
    r: EventEffects,
    action: HotkeyAction,
)
    requires
        call_ensures(HotkeyWatch::event, (watch, event, now), r),
        call_ensures(handle_abs_misc_value, (event.value,), action),
    ensures
        ({
            let special = event.event_type == 3 && (event.code == 0x28 || event.code == 0x20);
            let typed = special || (event.event_type == 1 && event.value != 0);
            &&& r.restore_backlight <==> typed && old(watch).backlight_disabled_for_idle
            &&& special ==> r.hotkey == action
            &&& !special ==> r.hotkey == HotkeyAction::Nothing
            &&& r.open_control_window <==> event.event_type == 1 && event.code == 88 && event.value
                == 1
            &&& typed ==> final(watch).last_input == now
            &&& typed ==> !final(watch).backlight_disabled_for_idle
            &&& !typed ==> *final(watch) == *old(watch)
            &&& final(watch).last_power_save_check == old(watch).last_power_save_check
        }),
{
}

/// The backlight is looked at once a second.
pub proof fn law_backlight_is_looked_at_every_second(
    watch: &mut HotkeyWatch,
    now: u64,
    r: bool,
)
    requires
        call_ensures(HotkeyWatch::look_is_due, (watch, now), r),
    ensures
        r <==> now >= old(watch).last_power_save_check + 1_000,
        final(watch).last_power_save_check == (if r {
            now
        } else {
            old(watch).last_power_save_check
        }),
        final(watch).last_input == old(watch).last_input,
        final(watch).backlight_disabled_for_idle == old(watch).backlight_disabled_for_idle,
{
}

/// A backlight that is on and was not turned off already is turned off exactly where the user
/// wants that and the main display is off, or nobody has typed on a detached keyboard for two
/// minutes.
pub proof fn law_backlight_goes_off_after_two_minutes(
    watch: &mut HotkeyWatch,
    inputs: PowerSaveInputs,
    now: u64,
    r: bool,
)
    requires
        call_ensures(HotkeyWatch::look, (watch, inputs, now), r),
    ensures
        r <==> {
            &&& inputs.enabled
            &&& inputs.backlight_level != 0
            &&& !old(watch).backlight_disabled_for_idle
            &&& inputs.main_screen_off || (!inputs.keyboard_attached && now >= old(
                watch,
            ).last_input + 120_000)
        },
        final(watch).last_input == (if !inputs.enabled || (inputs.keyboard_attached
            && !inputs.main_screen_off) {
            now
        } else {
            old(watch).last_input
        }),
        final(watch).backlight_disabled_for_idle <==> inputs.enabled && old(
            watch,
        ).backlight_disabled_for_idle,
        final(watch).last_power_save_check == old(watch).last_power_save_check,
{
}

/// That the backlight was turned off is remembered exactly where it succeeded, or was so before.
pub proof fn law_turned_off_is_remembered(watch: &mut HotkeyWatch, succeeded: bool)
    requires
        call_ensures(HotkeyWatch::turned_off, (watch, succeeded), ()),
    ensures
        final(watch).backlight_disabled_for_idle <==> succeeded || old(
            watch,
        ).backlight_disabled_for_idle,
        final(watch).last_input == old(watch).last_input,
        final(watch).last_power_save_check == old(watch).last_power_save_check,
{
}

/// A keyboard that was just opened counts as just typed on. The backlight comes back at the user's
/// level, and stays off where that is zero.
pub proof fn law_backlight_comes_back_at_the_default_level(
    now: u64,
    fresh: HotkeyWatch,
    default_backlight: u8,
    r: Option<u8>,
)
    requires
        call_ensures(HotkeyWatch::new, (now,), fresh),
        call_ensures(restore_level, (default_backlight,), r),
    ensures
        fresh.last_input == now,
        fresh.last_power_save_check == now,
        !fresh.backlight_disabled_for_idle,
        default_backlight == 0 ==> r is None,
        default_backlight != 0 ==> r == Some(default_backlight),
{
}

/// The control panel is opened by its launcher, which is given a Wayland display exactly where
/// there is one.
pub proof fn law_panel_is_opened_on_wayland(socket: bool, r: ControlWindowCommand)
    requires
        call_ensures(open_control_window, (socket,), r),
    ensures
        r.program@ == "/usr/bin/zenbook-duo-control"@,
        socket ==> r.wayland_display is Some && r.wayland_display->0@ == "wayland-0"@,
        !socket ==> r.wayland_display is None,
{
}

}
