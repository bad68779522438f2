use evdev::AbsoluteAxisType;
use zenbook_duo_control::command::CommandOutput;
use zenbook_duo_control::ipc::DaemonResponse;
use zenbook_duo_control::models::settings::DuoSettings;
use zenbook_duo_control::models::status::Orientation;
use zenbook_duo_control::session::brightness::{
    brightness_percent, percent_is_defined, restore_percent, set_display_brightness,
    BrightnessStep, BrightnessWatch,
};
use zenbook_duo_control::session::hotkeys::{
    cycle_backlight, find_keyboard_abs_devices, handle_abs_misc_value, is_hotkey_abs_code,
    open_control_window, rescan_pause_secs, restore_level, step_brightness, step_is_defined, supported_hotkey_abs_codes,
    watches_device, HotkeyAction, HotkeyWatch, InputDevice, InputEvent, PowerSaveInputs,
};
use zenbook_duo_control::session::idle::{
    backlight_is_off, dpms_is_off, gnome_idle_time_ms, gnome_idle_timeout_ms, idle_is_over,
    main_screen_is_off, parse_first_number, screen_saver_is_active, IdleDelay, ScreenSign,
    ScreenStep,
};
use zenbook_duo_control::session::rotation::{
    accelerometer_orientation, axes_in_range, dual_screen_is_active, find_accelerometer,
    read_accelerometer_orientation, rotation_applies, two_logical_monitors, RotationWatch,
};

#[test]
fn watches_both_known_hotkey_abs_codes() {
    assert!(is_hotkey_abs_code(0x28));
    assert!(is_hotkey_abs_code(AbsoluteAxisType::ABS_VOLUME.0));
    assert!(!is_hotkey_abs_code(0x27));
}

fn text(s: &str) -> Option<String> {
    Some(s.to_string())
}

fn device(file: Option<&str>, name: Option<&str>, axes: Option<Vec<u16>>, keys: bool) -> InputDevice {
    InputDevice {
        file_name: file.map(|f| f.to_string()),
        name: name.map(|n| n.to_string()),
        axes,
        has_keys: keys,
    }
}

#[test]
fn keyboard_devices_are_found() {
    let keyboard = "ASUS Zenbook Duo KEYBOARD";
    let devices = vec![
        device(Some("event0"), Some(keyboard), None, true),
        device(Some("mouse0"), Some(keyboard), None, true),
        device(Some("event1"), Some("Mouse"), None, true),
        device(Some("event2"), None, None, true),
        device(Some("event3"), Some("ASUS_DUO touch"), Some(vec![0, 0x28]), false),
        device(Some("event4"), Some(keyboard), Some(vec![0, 1]), false),
        device(Some("event5"), Some(keyboard), Some(vec![0x20]), false),
        device(None, Some(keyboard), None, true),
    ];
    assert_eq!(find_keyboard_abs_devices(&Ok(devices)), Ok(vec![0, 4, 6]));
    assert_eq!(
        find_keyboard_abs_devices(&Err("x".to_string())),
        Err("Failed to read /dev/input: x".to_string())
    );
    assert!(!watches_device(&device(Some("event0"), Some(""), None, true)));
    assert_eq!(supported_hotkey_abs_codes(), [0x28, 0x20]);
}

#[test]
fn devices_are_looked_for_again() {
    assert_eq!(rescan_pause_secs(0, 0), Some(5));
    assert_eq!(rescan_pause_secs(3, 0), Some(2));
    assert_eq!(rescan_pause_secs(3, 1), None);
}

#[test]
fn hotkeys_have_their_values() {
    assert_eq!(handle_abs_misc_value(199), HotkeyAction::CycleBacklight);
    assert_eq!(handle_abs_misc_value(16), HotkeyAction::BrightnessDown);
    assert_eq!(handle_abs_misc_value(32), HotkeyAction::BrightnessUp);
    assert_eq!(handle_abs_misc_value(0), HotkeyAction::Nothing);
    assert_eq!(handle_abs_misc_value(-199), HotkeyAction::Nothing);
}

#[test]
fn backlight_cycles_through_four_levels() {
    assert_eq!([0, 1, 2, 3, 9].map(cycle_backlight), [1, 2, 3, 0, 0]);
}

#[test]
fn brightness_steps_by_five_percent() {
    let step = |up, now: &str| step_brightness(up, true, &text("400\n"), &text(now));
    assert_eq!(step(true, "200\n"), Ok(55));
    assert_eq!(step(false, "200\n"), Ok(45));
    assert_eq!(step(true, "390"), Ok(100));
    assert_eq!(step(false, "8"), Ok(0));
    assert_eq!(step(true, "-5"), Ok(5));
    assert_eq!(step(true, "junk"), Ok(5));
    assert_eq!(
        step_brightness(true, false, &None, &None),
        Err("no intel_backlight device found".to_string())
    );
}

fn event(event_type: u16, code: u16, value: i32) -> InputEvent {
    InputEvent { event_type, code, value }
}

fn inputs(off: bool, attached: bool, level: u8) -> PowerSaveInputs {
    PowerSaveInputs {
        enabled: true,
        main_screen_off: off,
        keyboard_attached: attached,
        backlight_level: level,
    }
}

#[test]
fn idle_backlight_goes_off_and_comes_back_with_a_key() {
    let mut watch = HotkeyWatch::new(1_000);
    assert!(!watch.look(inputs(false, false, 2), 120_999));
    assert!(watch.look(inputs(false, false, 2), 121_000));
    watch.turned_off(false);
    assert!(watch.look(inputs(false, false, 2), 121_000));
    watch.turned_off(true);
    assert!(!watch.look(inputs(false, false, 2), 130_000));
    let key = event(evdev::EventType::KEY.0, 30, 1);
    let effects = watch.event(key, 131_000);
    assert!(effects.restore_backlight);
    assert!(!watch.event(key, 131_001).restore_backlight);
    assert_eq!(watch.last_input, 131_001);
    assert_eq!(restore_level(2), Some(2));
    assert_eq!(restore_level(0), None);
}

#[test]
fn display_off_turns_the_docked_backlight_off() {
    let mut watch = HotkeyWatch::new(0);
    assert!(watch.look(inputs(true, true, 1), 5));
    assert!(!watch.look(inputs(true, true, 0), 5));
    assert!(!watch.look(inputs(false, true, 1), 500_000));
    assert_eq!(watch.last_input, 500_000);
    watch.turned_off(true);
    let off = PowerSaveInputs { enabled: false, ..inputs(true, false, 3) };
    assert!(!watch.look(off, 600_000));
    assert!(!watch.backlight_disabled_for_idle);
}

#[test]
fn events_are_told_apart() {
    let mut watch = HotkeyWatch::new(0);
    let f12 = watch.event(event(1, evdev::Key::KEY_F12.code(), 1), 7);
    assert!(f12.open_control_window);
    assert!(!watch.event(event(1, 88, 2), 8).open_control_window);
    assert!(!watch.event(event(3, 88, 1), 8).open_control_window);
    let released = watch.event(event(1, 30, 0), 9);
    assert!(!released.restore_backlight);
    assert_eq!(watch.last_input, 8);
    let hotkey = watch.event(event(evdev::EventType::ABSOLUTE.0, 0x20, 199), 10);
    assert_eq!(hotkey.hotkey, HotkeyAction::CycleBacklight);
    assert_eq!(watch.last_input, 10);
    assert_eq!(watch.event(event(1, 0x20, 199), 11).hotkey, HotkeyAction::Nothing);
    assert_eq!(watch.event(event(3, 0x27, 199), 12).hotkey, HotkeyAction::Nothing);
    assert_eq!(watch.last_input, 11);
}

#[test]
fn backlight_is_looked_at_every_second() {
    let mut watch = HotkeyWatch::new(100);
    assert!(!watch.look_is_due(1_099));
    assert!(watch.look_is_due(1_100));
    assert!(!watch.look_is_due(2_099));
    assert!(watch.look_is_due(2_100));
}

#[test]
fn control_window_gets_the_wayland_display() {
    let command = open_control_window(true);
    assert_eq!(command.program, "/usr/bin/zenbook-duo-control");
    assert_eq!(command.wayland_display, text("wayland-0"));
    assert_eq!(open_control_window(false).wayland_display, None);
}

#[test]
fn brightness_is_rounded_to_a_percentage() {
    assert_eq!(brightness_percent(0, 400), 0);
    assert_eq!(brightness_percent(2, 400), 1);
    assert_eq!(brightness_percent(1, 400), 0);
    assert_eq!(brightness_percent(200, 400), 50);
    assert_eq!(brightness_percent(400, 400), 100);
    assert_eq!(brightness_percent(900, 400), 100);
    assert_eq!(brightness_percent(u32::MAX, 1), 100);
    assert_eq!(brightness_percent(1, 3), 33);
    assert_eq!(brightness_percent(2, 3), 67);
}

#[test]
fn brightness_waits_for_the_displays_to_settle() {
    let mut watch = BrightnessWatch::new();
    assert_eq!(watch.tick(true, false, 0), BrightnessStep::Nothing);
    assert_eq!(watch.tick(true, false, 2_999), BrightnessStep::Nothing);
    assert_eq!(watch.tick(true, false, 3_000), BrightnessStep::Restore);
    watch.restored(100);
    assert_eq!(watch.tick(true, false, 4_000), BrightnessStep::Look);
    assert_eq!(watch.look(100, 400), None);
    assert_eq!(watch.look(200, 400), Some(50));
    assert_eq!(watch.look(200, 400), None);
    assert_eq!(watch.look(0, 400), None);
    assert_eq!(watch.look(300, 0), None);
    assert_eq!(watch.tick(true, true, 5_000), BrightnessStep::Nothing);
    assert_eq!(watch.last_seen, None);
    assert_eq!(watch.tick(false, true, 6_000), BrightnessStep::Nothing);
    assert_eq!(watch, BrightnessWatch::new());
}

fn ticks_to(
    watch: &mut BrightnessWatch,
    percent: Option<u8>,
    attached: bool,
    now: u64,
    level: u32,
) -> Option<u8> {
    let mut settings = DuoSettings::default();
    settings.last_display_brightness_percent = percent;
    match watch.tick(true, attached, now) {
        BrightnessStep::Nothing => None,
        BrightnessStep::Restore => {
            watch.restored(level);
            restore_percent(&settings)
        }
        BrightnessStep::Look => watch.look(level, 400),
    }
}

#[test]
fn recorded_brightness_outlives_a_keyboard_transition() {
    let mut watch = BrightnessWatch::new();
    ticks_to(&mut watch, Some(30), false, 0, 120);
    ticks_to(&mut watch, Some(30), false, 3_000, 120);
    assert_eq!(ticks_to(&mut watch, Some(30), false, 9_000, 120), None);
    assert_eq!(ticks_to(&mut watch, Some(30), true, 10_000, 400), None);
    assert_eq!(ticks_to(&mut watch, Some(30), true, 11_000, 400), None);
    assert_eq!(ticks_to(&mut watch, Some(30), true, 12_999, 400), None);
    assert_eq!(ticks_to(&mut watch, Some(35), true, 13_000, 400), Some(35));
    assert_eq!(ticks_to(&mut watch, Some(35), true, 14_000, 400), None);
    assert_eq!(ticks_to(&mut watch, Some(35), true, 15_000, 200), Some(50));
    assert_eq!(ticks_to(&mut watch, None, false, 20_000, 400), None);
    assert_eq!(ticks_to(&mut watch, None, false, 23_001, 400), None);
}

#[test]
fn recorded_brightness_is_what_is_restored() {
    let mut settings = DuoSettings::default();
    assert_eq!(restore_percent(&settings), settings.last_display_brightness_percent);
    settings.last_display_brightness_percent = Some(42);
    assert_eq!(restore_percent(&settings), Some(42));
}

#[test]
fn first_look_only_remembers() {
    let mut watch = BrightnessWatch::new();
    assert_eq!(watch.look(200, 400), None);
    assert_eq!(watch.last_seen, Some(200));
}

#[test]
fn brightness_answers_are_told_apart() {
    assert_eq!(set_display_brightness(Ok(DaemonResponse::Ack), ""), Ok(()));
    assert_eq!(
        set_display_brightness(Ok(DaemonResponse::Error { message: "x".to_string() }), ""),
        Err("x".to_string())
    );
    assert_eq!(
        set_display_brightness(Ok(DaemonResponse::Other), "R"),
        Err("Unexpected daemon response while setting display brightness: R".to_string())
    );
    assert_eq!(set_display_brightness(Err("x".to_string()), ""), Err("x".to_string()));
}

fn output(success: bool, stdout: &str) -> Result<CommandOutput, String> {
    Ok(CommandOutput { success, stdout: stdout.as_bytes().to_vec(), stderr: vec![] })
}

#[test]
fn screen_signs_are_read() {
    assert!(backlight_is_off(&text("4\n"), &text("100")));
    assert!(backlight_is_off(&text("0\n"), &text(" 0\n")));
    assert!(!backlight_is_off(&text("0\n"), &text("5")));
    assert!(!backlight_is_off(&None, &None));
    assert!(dpms_is_off(&text("Off\n")));
    assert!(!dpms_is_off(&text("On\n")));
    assert!(!dpms_is_off(&None));
    assert!(screen_saver_is_active(&output(true, "(true,)\n")));
    assert!(!screen_saver_is_active(&output(false, "(true,)\n")));
    assert!(!screen_saver_is_active(&output(true, "(false,)\n")));
    assert!(!screen_saver_is_active(&Err("x".to_string())));
}

#[test]
fn first_sign_that_says_so_decides() {
    assert_eq!(main_screen_is_off(ScreenSign::Backlight, true), ScreenStep::Known(true));
    assert_eq!(
        main_screen_is_off(ScreenSign::Backlight, false),
        ScreenStep::Ask(ScreenSign::Dpms)
    );
    assert_eq!(
        main_screen_is_off(ScreenSign::Dpms, false),
        ScreenStep::Ask(ScreenSign::ScreenSaver)
    );
    assert_eq!(
        main_screen_is_off(ScreenSign::ScreenSaver, false),
        ScreenStep::Ask(ScreenSign::Idle)
    );
    assert_eq!(main_screen_is_off(ScreenSign::Idle, false), ScreenStep::Known(false));
    assert_eq!(main_screen_is_off(ScreenSign::Idle, true), ScreenStep::Known(true));
}

#[test]
fn idle_times_are_the_first_numbers() {
    assert_eq!(gnome_idle_timeout_ms(&output(true, "uint32 300\n")), IdleDelay::Millis(32_000));
    assert_eq!(gnome_idle_timeout_ms(&output(true, "300")), IdleDelay::Millis(300_000));
    assert_eq!(gnome_idle_timeout_ms(&output(true, "none")), IdleDelay::Unknown);
    assert_eq!(gnome_idle_timeout_ms(&output(false, "300")), IdleDelay::Unknown);
    assert_eq!(gnome_idle_timeout_ms(&Err("x".to_string())), IdleDelay::Unknown);
    assert_eq!(
        gnome_idle_timeout_ms(&output(true, "18446744073709551615")),
        IdleDelay::OutOfRange
    );
    assert_eq!(
        gnome_idle_timeout_ms(&output(true, "99999999999999999999")),
        IdleDelay::Unknown
    );
    assert_eq!(gnome_idle_time_ms(&output(true, "(uint64 1234,)")), Some(64));
    assert_eq!(gnome_idle_time_ms(&output(true, "(1234,)")), Some(1234));
    assert_eq!(gnome_idle_time_ms(&output(false, "(1234,)")), None);
    assert_eq!(parse_first_number("a12b34"), Some(12));
    assert_eq!(parse_first_number(""), None);
    assert!(idle_is_over(Some(5), Some(5)));
    assert!(!idle_is_over(Some(5), Some(4)));
    assert!(!idle_is_over(Some(0), Some(4)));
    assert!(!idle_is_over(None, Some(4)));
}

#[test]
fn gravity_tells_the_orientation() {
    assert_eq!(accelerometer_orientation(9, 1, 2), Some(Orientation::Right));
    assert_eq!(accelerometer_orientation(-9, 1, 2), Some(Orientation::Left));
    assert_eq!(accelerometer_orientation(1, 9, 2), Some(Orientation::Inverted));
    assert_eq!(accelerometer_orientation(1, -9, 2), Some(Orientation::Normal));
    assert_eq!(accelerometer_orientation(1, 2, -9), None);
    assert_eq!(accelerometer_orientation(5, 5, 5), None);
    assert_eq!(accelerometer_orientation(5, -5, 4), Some(Orientation::Normal));
    let read = |x: &str, y: &str, z: &str| {
        read_accelerometer_orientation(&text(x), &text(y), &text(z))
    };
    assert_eq!(read(" -900\n", "3", "4"), Some(Orientation::Left));
    assert_eq!(read("x", "3", "4"), None);
    assert_eq!(read_accelerometer_orientation(&None, &text("3"), &text("4")), None);
    assert_eq!(
        find_accelerometer(&vec![None, text("accel_3d"), text("accel_3d\n"), text("accel_3d\n")]),
        Some(2)
    );
    assert_eq!(find_accelerometer(&vec![text("gyro\n")]), None);
}

#[test]
fn steady_device_turns_once() {
    let mut watch = RotationWatch::new();
    assert_eq!(watch.observed(Some(Orientation::Left)), Some(Orientation::Left));
    assert_eq!(watch.observed(Some(Orientation::Left)), None);
    assert_eq!(watch.observed(None), None);
    assert_eq!(watch.observed(Some(Orientation::Left)), None);
    assert_eq!(watch.observed(Some(Orientation::Right)), Some(Orientation::Right));
    assert!(rotation_applies(true, true));
    assert!(!rotation_applies(true, false));
    assert!(!rotation_applies(false, true));
}

#[test]
fn dual_screen_needs_two_logical_monitors() {
    let two = "├──Logical monitor #1\n└──Logical monitor #2\n";
    assert!(two_logical_monitors(two));
    assert!(!two_logical_monitors("Logical monitor #1 Logical monitor #2\n"));
    assert!(dual_screen_is_active(&output(true, two)));
    assert!(!dual_screen_is_active(&output(false, two)));
    assert!(!dual_screen_is_active(&Err("x".to_string())));
}

#[test]
fn ranges_are_told() {
    assert!(percent_is_defined(400, 400));
    assert!(!percent_is_defined(1, 0));
    assert!(!percent_is_defined(u32::MAX, 2));
    assert!(percent_is_defined(u32::MAX, 1));
    assert!(step_is_defined(&text("400"), &text("1")));
    assert!(!step_is_defined(&None, &text("1")));
    let least = text("-9223372036854775808");
    let one = text("1");
    assert!(axes_in_range(&text("-9223372036854775807"), &one, &one));
    assert!(!axes_in_range(&least, &one, &one));
    assert!(!axes_in_range(&one, &least, &one));
    assert!(!axes_in_range(&one, &one, &least));
    assert!(axes_in_range(&least, &None, &one));
    assert_eq!(read_accelerometer_orientation(&least, &None, &one), None);
    assert_eq!(read_accelerometer_orientation(&least, &one, &text("x")), None);
}
