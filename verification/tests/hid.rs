use zenbook_duo_control::hardware::hid::{
    build_backlight_report, build_probe_report, find_bluetooth_hid_device_id,
    hidraw_failure_text, hidraw_priority, is_zenbook_bluetooth_uevent,
    list_bluetooth_hidraw_paths, rebind_failure_text, reset_bluetooth_keyboard_hid,
    set_backlight, set_backlight_usb, usb_failure_text, BacklightStep, HidDevice, HidrawEntry,
    HidrawFailure, Transport, UsbDevice, UsbFailure,
};
use zenbook_duo_control::hardware::hid_bluetooth::{set_backlight_bluetooth, HidAction, HidPhase};
use zenbook_duo_control::models::status::ConnectionType;

const GENERIC: &str = "DRIVER=hid-generic\nHID_ID=0005:00000B05\nHID_NAME=ASUS Zenbook Duo Keyboard\n";
const MULTITOUCH: &str = "DRIVER=hid-multitouch\nHID_ID=0005:00000B05\nHID_NAME=ASUS_DUO\n";
const PLAIN: &str = "HID_ID=0005:00000B05\nHID_NAME=ASUS_DUO\n";

#[test]
fn prefers_generic_hidraw_over_multitouch() {
    let generic = "DRIVER=hid-generic\nMODALIAS=hid:b0005g0001v00000B05p00001CD8\n";
    let multitouch = "DRIVER=hid-multitouch\nMODALIAS=hid:b0005g0004v00000B05p00001CD8\n";
    assert!(hidraw_priority(generic) < hidraw_priority(multitouch));
}

#[test]
fn priorities_are_exact() {
    assert_eq!(hidraw_priority("DRIVER=hid-generic"), 0);
    assert_eq!(hidraw_priority("g0001"), 0);
    assert_eq!(hidraw_priority("nothing"), 50);
    assert_eq!(hidraw_priority("g0004 g0001"), 100);
}

#[test]
fn backlight_report_holds_the_level() {
    let report = build_backlight_report(2);
    assert_eq!(report, [0x5A, 0xBA, 0xC5, 0xC4, 2, 0, 0, 0, 0, 0, 0, 0, 0, 0, 0, 0]);
    assert_eq!(build_backlight_report(3)[4], 3);
    assert_eq!(build_backlight_report(200)[4], 3);
    assert_eq!(build_probe_report()[0], 0x5A);
    assert_eq!(build_probe_report()[1], 0);
}

#[test]
fn uevent_needs_name_and_bus() {
    assert!(is_zenbook_bluetooth_uevent(GENERIC));
    assert!(is_zenbook_bluetooth_uevent(MULTITOUCH));
    assert!(!is_zenbook_bluetooth_uevent("HID_ID=0005:00000B05\nHID_NAME=Mouse\n"));
    assert!(!is_zenbook_bluetooth_uevent("HID_ID=0003:00000B05\nHID_NAME=ASUS_DUO\n"));
}

fn entry(name: &str, uevent: Option<&str>) -> HidrawEntry {
    HidrawEntry { name: name.to_string(), uevent: uevent.map(|u| u.to_string()) }
}

#[test]
fn device_files_are_ordered_and_stable() {
    let entries = Some(vec![
        entry("hidraw0", Some(MULTITOUCH)),
        entry("hidraw1", Some(PLAIN)),
        entry("hidraw2", None),
        entry("hidraw3", Some(GENERIC)),
        entry("hidraw4", Some("other")),
        entry("hidraw5", Some(GENERIC)),
    ]);
    assert_eq!(
        list_bluetooth_hidraw_paths(&entries),
        vec!["/dev/hidraw3", "/dev/hidraw5", "/dev/hidraw1", "/dev/hidraw0"]
    );
    assert!(list_bluetooth_hidraw_paths(&None).is_empty());
}

fn usb(vendor: Option<u16>, product: Option<&str>) -> UsbDevice {
    UsbDevice { vendor_id: vendor, product: product.map(|p| p.to_string()) }
}

#[test]
fn first_usb_keyboard_gets_the_transfer() {
    let devices = vec![
        usb(None, Some("ASUS_DUO")),
        usb(Some(0x046d), Some("ASUS_DUO")),
        usb(Some(0x0B05), None),
        usb(Some(0x0B05), Some("Aura")),
        usb(Some(0x0B05), Some("ASUS Zenbook Duo Keyboard")),
        usb(Some(0x0B05), Some("ASUS_DUO")),
    ];
    let transfer = set_backlight_usb(1, &devices).unwrap();
    assert_eq!(transfer.device, 4);
    assert_eq!(transfer.interface, 4);
    assert_eq!(transfer.request_type, 0x21);
    assert_eq!(transfer.request, 0x09);
    assert_eq!(transfer.value, 0x035A);
    assert_eq!(transfer.index, 4);
    assert_eq!(transfer.data[4], 1);
    assert_eq!(transfer.timeout_secs, 2);
}

#[test]
fn usb_failures_are_told_apart() {
    assert_eq!(
        set_backlight_usb(1, &vec![]).err(),
        Some("Zenbook Duo keyboard not found via USB".to_string())
    );
    assert_eq!(
        usb_failure_text(&UsbFailure::Context("x".to_string())),
        "USB context error: x"
    );
    assert_eq!(
        usb_failure_text(&UsbFailure::DeviceList("x".to_string())),
        "USB device list error: x"
    );
    assert_eq!(usb_failure_text(&UsbFailure::Write("x".to_string())), "USB write error: x");
}

#[test]
fn hidraw_failures_are_told_apart() {
    assert_eq!(
        hidraw_failure_text("/dev/h", &HidrawFailure::Open("x".to_string())),
        "Failed to open /dev/h: x"
    );
    assert_eq!(
        hidraw_failure_text("/dev/h", &HidrawFailure::Probe("x".to_string())),
        "HIDIOCGFEATURE probe failed: x"
    );
    assert_eq!(
        hidraw_failure_text("/dev/h", &HidrawFailure::Send("x".to_string())),
        "ioctl HIDIOCSFEATURE failed: x"
    );
    assert_eq!(rebind_failure_text("id", false, "x"), "Failed to unbind id: x");
    assert_eq!(rebind_failure_text("id", true, "x"), "Failed to rebind id: x");
}

fn hid(name: &str, uevent: Option<&str>, driver: Option<&str>) -> HidDevice {
    HidDevice {
        name: name.to_string(),
        uevent: uevent.map(|u| u.to_string()),
        driver: driver.map(|d| d.to_string()),
    }
}

#[test]
fn device_is_found_by_its_driver() {
    let devices = Some(vec![
        hid("a", Some("other"), None),
        hid("b", Some(MULTITOUCH), Some("hid-multitouch")),
        hid("c", Some(GENERIC), Some("hid-generic")),
    ]);
    assert_eq!(find_bluetooth_hid_device_id("hid-generic", &devices), Some("c".to_string()));
    assert_eq!(reset_bluetooth_keyboard_hid(&devices), Ok("c".to_string()));
    assert_eq!(find_bluetooth_hid_device_id("none", &devices), None);
}

#[test]
fn unreadable_device_ends_the_search() {
    let missing_uevent = Some(vec![
        hid("a", None, Some("hid-generic")),
        hid("c", Some(GENERIC), Some("hid-generic")),
    ]);
    assert_eq!(find_bluetooth_hid_device_id("hid-generic", &missing_uevent), None);
    let missing_driver = Some(vec![
        hid("b", Some(MULTITOUCH), None),
        hid("c", Some(GENERIC), Some("hid-generic")),
    ]);
    assert_eq!(find_bluetooth_hid_device_id("hid-generic", &missing_driver), None);
    assert_eq!(
        reset_bluetooth_keyboard_hid(&None),
        Err("bluetooth keyboard hid device not found".to_string())
    );
}

#[test]
fn active_transport_is_tried_first() {
    assert!(matches!(
        set_backlight(2, ConnectionType::Usb, &None, &None),
        BacklightStep::Attempt(Transport::Usb, 2)
    ));
    assert!(matches!(
        set_backlight(2, ConnectionType::Bluetooth, &None, &None),
        BacklightStep::Attempt(Transport::Bluetooth, 2)
    ));
    assert!(matches!(
        set_backlight(2, ConnectionType::Disconnected, &None, &None),
        BacklightStep::Attempt(Transport::Bluetooth, 2)
    ));
}

#[test]
fn other_transport_is_the_fallback() {
    let usb_err = Some(Err("u".to_string()));
    let bt_err = Some(Err("b".to_string()));
    assert!(matches!(
        set_backlight(1, ConnectionType::Usb, &usb_err, &None),
        BacklightStep::Attempt(Transport::Bluetooth, 1)
    ));
    assert!(matches!(
        set_backlight(1, ConnectionType::Bluetooth, &None, &bt_err),
        BacklightStep::Attempt(Transport::Usb, 1)
    ));
    assert!(matches!(
        set_backlight(1, ConnectionType::Bluetooth, &Some(Ok(())), &bt_err),
        BacklightStep::Done
    ));
    let expected = "Failed to set keyboard backlight natively (usb: u; bt: b)";
    match set_backlight(1, ConnectionType::Bluetooth, &usb_err, &bt_err) {
        BacklightStep::Failed(e) => assert_eq!(e, expected),
        other => panic!("{other:?}"),
    }
    match set_backlight(1, ConnectionType::Usb, &usb_err, &bt_err) {
        BacklightStep::Failed(e) => assert_eq!(e, expected),
        other => panic!("{other:?}"),
    }
}

fn try_of(action: HidAction) -> (String, u8) {
    match action {
        HidAction::TryPath { path, level } => (path, level),
        other => panic!("{other:?}"),
    }
}

fn error_of(action: HidAction) -> String {
    match action {
        HidAction::Failed(e) => e,
        other => panic!("{other:?}"),
    }
}

#[test]
fn bluetooth_backlight_resets_once_and_reports_the_second_round() {
    let mut run = set_backlight_bluetooth(2);
    let paths = vec!["/dev/a".to_string(), "/dev/b".to_string()];
    assert_eq!(try_of(run.listed(paths)), ("/dev/a".to_string(), 2));
    assert_eq!(try_of(run.tried(Err("x".to_string()))), ("/dev/b".to_string(), 2));
    assert!(matches!(run.tried(Err("y".to_string())), HidAction::ResetKeyboard));
    assert!(matches!(run.reset(Ok(())), HidAction::ListPaths));
    assert_eq!(try_of(run.listed(vec!["/dev/c".to_string()])), ("/dev/c".to_string(), 2));
    assert_eq!(
        error_of(run.tried(Err("z".to_string()))),
        "bluetooth hidraw failed (/dev/c: z)"
    );
}

#[test]
fn bluetooth_backlight_tells_what_it_awaits() {
    let mut run = set_backlight_bluetooth(2);
    assert!(run.awaits(HidPhase::Listing));
    assert!(!run.awaits(HidPhase::Trying));
    run.listed(vec!["/dev/a".to_string()]);
    assert!(run.awaits(HidPhase::Trying));
    run.tried(Err("x".to_string()));
    assert!(run.awaits(HidPhase::Resetting));
    run.reset(Ok(()));
    assert!(run.awaits(HidPhase::Listing));
    run.listed(vec![]);
    assert!(run.awaits(HidPhase::Ended));
}

#[test]
fn failed_reset_reports_the_first_round() {
    let mut run = set_backlight_bluetooth(0);
    run.listed(vec!["/dev/a".to_string(), "/dev/b".to_string()]);
    run.tried(Err("x".to_string()));
    run.tried(Err("y".to_string()));
    assert_eq!(
        error_of(run.reset(Err("no".to_string()))),
        "bluetooth hidraw failed (/dev/a: x; /dev/b: y)"
    );
}

#[test]
fn bluetooth_backlight_needs_a_device_file() {
    let mut run = set_backlight_bluetooth(1);
    assert_eq!(error_of(run.listed(vec![])), "Bluetooth hidraw device not found");
    let mut run = set_backlight_bluetooth(1);
    run.listed(vec!["/dev/a".to_string()]);
    assert!(matches!(run.tried(Ok(())), HidAction::Done));
}
