//! The keyboard's backlight, over USB and over Bluetooth.

use vstd::prelude::*;

use crate::models::status::ConnectionType;
use crate::text;

pub use crate::hardware::hid_bluetooth::set_backlight_bluetooth;

verus! {

/// The length of a feature report.
pub const FEATURE_REPORT_LEN: usize = 16;

/// The request number that sends a feature report to a hidraw device.
pub const HIDIOCSFEATURE_16: u64 = 0xC010_4806;

/// The request number that fetches a feature report from a hidraw device.
pub const HIDIOCGFEATURE_16: u64 = 0xC010_4807;

/// The vendor of the keyboard.
pub const KEYBOARD_VENDOR_ID: u16 = 0x0B05;

/// The backlight level that the keyboard is sent: no more than 3.
pub open spec fn sent_level(level: u8) -> u8 {
    if level < 3 {
        level
    } else {
        3
    }
}

/// The feature report that sets the backlight.
pub open spec fn backlight_report(level: u8) -> Seq<u8> {
    seq![
        0x5Au8,
        0xBA,
        0xC5,
        0xC4,
        sent_level(level),
        0,
        0,
        0,
        0,
        0,
        0,
        0,
        0,
        0,
        0,
        0,
    ]
}

/// The feature report that sets the backlight.
pub fn build_backlight_report(level: u8) -> (r: [u8; 16])
    ensures
        r@ == backlight_report(level),
        r@.len() == FEATURE_REPORT_LEN,
{
    let sent: u8 = if level < 3 {
        level
    } else {
        3
    };
    let report: [u8; 16] = [0x5A, 0xBA, 0xC5, 0xC4, sent, 0, 0, 0, 0, 0, 0, 0, 0, 0, 0, 0];
    assert(report@ =~= backlight_report(level));
    report
}

/// The keyboard is never sent a level above 3, and a level up to 3 is sent as it is.
pub proof fn law_sent_level_is_bounded(level: u8)
    ensures
        backlight_report(level)[4] <= 3,
        level <= 3 ==> backlight_report(level)[4] == level,
{
}

/// The feature report with which a device is probed.
pub fn build_probe_report() -> (r: [u8; 16])
    ensures
        r@.len() == FEATURE_REPORT_LEN,
        r@[0] == 0x5A,
        forall|i: int| 1 <= i < FEATURE_REPORT_LEN ==> r@[i] == 0,
{
    [0x5A, 0, 0, 0, 0, 0, 0, 0, 0, 0, 0, 0, 0, 0, 0, 0]
}

/// A device on the USB bus.
#[derive(Debug, Clone)]
pub struct UsbDevice {
    /// The vendor, where the descriptor can be read.
    pub vendor_id: Option<u16>,
    /// The product string, where the device can be opened and the string be read.
    pub product: Option<String>,
}

/// The text names the keyboard.
pub open spec fn names_keyboard(t: Seq<char>) -> bool {
    text::contains_text(t, "Zenbook Duo Keyboard"@) || text::contains_text(t, "ASUS_DUO"@)
}

fn is_keyboard_name(t: &str) -> (r: bool)
    ensures
        r == names_keyboard(t@),
{
    text::contains(t, "Zenbook Duo Keyboard") || text::contains(t, "ASUS_DUO")
}

/// The device is the keyboard.
pub open spec fn is_usb_keyboard(device: UsbDevice) -> bool {
    &&& device.vendor_id == Some(KEYBOARD_VENDOR_ID)
    &&& device.product is Some
    &&& names_keyboard(device.product->0@)
}

/// Whether the device is the keyboard.
pub fn usb_keyboard(device: &UsbDevice) -> (r: bool)
    ensures
        r == is_usb_keyboard(*device),
{
    let asus: bool = match device.vendor_id {
        Some(vendor) => vendor == KEYBOARD_VENDOR_ID,
        None => false,
    };
    match &device.product {
        Some(product) => asus && is_keyboard_name(product.as_str()),
        None => false,
    }
}

/// The keyboard is among the devices.
pub open spec fn lists_usb_keyboard(devices: Seq<UsbDevice>) -> bool {
    exists|i: int| 0 <= i < devices.len() && is_usb_keyboard(#[trigger] devices[i])
}

/// A control transfer to a device.
#[derive(Debug, Clone, Copy)]
pub struct ControlTransfer {
    /// The device, by its place in the listing.
    pub device: usize,
    /// The interface that is claimed first.
    pub interface: u8,
    pub request_type: u8,
    pub request: u8,
    pub value: u16,
    pub index: u16,
    pub data: [u8; 16],
    pub timeout_secs: u64,
}

/// Decides which device is sent what, so that the keyboard on USB gets this backlight level: the
/// first keyboard among the devices gets a class request to its interface 4 that sets the
/// feature report 0x5A.
pub fn set_backlight_usb(level: u8, devices: &Vec<UsbDevice>) -> (r: Result<
    ControlTransfer,
    String,
>)
    ensures
        match r {
            Ok(transfer) => {
                &&& transfer.device < devices@.len()
                &&& is_usb_keyboard(devices@[transfer.device as int])
                &&& forall|i: int|
                    0 <= i < transfer.device ==> !is_usb_keyboard(#[trigger] devices@[i])
                &&& transfer.interface == 4
                &&& transfer.request_type == 0x21
                &&& transfer.request == 0x09
                &&& transfer.value == 0x035A
                &&& transfer.index == 4
                &&& transfer.data@ == backlight_report(level)
                &&& transfer.timeout_secs == 2
            },
            Err(e) => {
                &&& !lists_usb_keyboard(devices@)
                &&& e@ == "Zenbook Duo keyboard not found via USB"@
            },
        },
{
    let mut i: usize = 0;
    while i < devices.len()
        invariant
            i <= devices@.len(),
            forall|k: int| 0 <= k < i ==> !is_usb_keyboard(#[trigger] devices@[k]),
        decreases devices@.len() - i,
    {
        if usb_keyboard(&devices[i]) {
            return Ok(
                ControlTransfer {
                    device: i,
                    interface: 4,
                    request_type: 0x21,
                    request: 0x09,
                    value: 0x035A,
                    index: 4,
                    data: build_backlight_report(level),
                    timeout_secs: 2,
                },
            );
        }
        i += 1;
    }
    Err("Zenbook Duo keyboard not found via USB".to_string())
}

/// Where talking to the USB bus failed, with the reason.
#[derive(Debug, Clone)]
pub enum UsbFailure {
    Context(String),
    DeviceList(String),
    Write(String),
}

/// Says where talking to the USB bus failed.
pub fn usb_failure_text(failure: &UsbFailure) -> (r: String)
    ensures
        r@ == (match *failure {
            UsbFailure::Context(err) => "USB context error: "@ + err@,
            UsbFailure::DeviceList(err) => "USB device list error: "@ + err@,
            UsbFailure::Write(err) => "USB write error: "@ + err@,
        }),
{
    match failure {
        UsbFailure::Context(err) => text::concat2("USB context error: ", err.as_str()),
        UsbFailure::DeviceList(err) => text::concat2("USB device list error: ", err.as_str()),
        UsbFailure::Write(err) => text::concat2("USB write error: ", err.as_str()),
    }
}

/// The description of a HID device is that of the keyboard on Bluetooth.
pub open spec fn zenbook_bluetooth_uevent(contents: Seq<char>) -> bool {
    names_keyboard(contents) && text::contains_text(contents, "HID_ID=0005:"@)
}

/// Whether the description of a HID device is that of the keyboard on Bluetooth.
pub fn is_zenbook_bluetooth_uevent(contents: &str) -> (r: bool)
    ensures
        r == zenbook_bluetooth_uevent(contents@),
{
    is_keyboard_name(contents) && text::contains(contents, "HID_ID=0005:")
}

/// The place of a hidraw device among those of the keyboard: the generic one first, the
/// multitouch one last.
pub open spec fn priority(contents: Seq<char>) -> u32 {
    if text::contains_text(contents, "DRIVER=hid-multitouch"@) || text::contains_text(
        contents,
        "g0004"@,
    ) {
        100
    } else if text::contains_text(contents, "DRIVER=hid-generic"@) || text::contains_text(
        contents,
        "g0001"@,
    ) {
        0
    } else {
        50
    }
}

/// The place of a hidraw device among those of the keyboard; the lowest is tried first.
pub fn hidraw_priority(contents: &str) -> (r: u32)
    ensures
        r == priority(contents@),
{
    if text::contains(contents, "DRIVER=hid-multitouch") || text::contains(contents, "g0004") {
        100
    } else if text::contains(contents, "DRIVER=hid-generic") || text::contains(contents, "g0001") {
        0
    } else {
        50
    }
}

/// An entry of the hidraw class.
#[derive(Debug, Clone)]
pub struct HidrawEntry {
    pub name: String,
    /// The description of its device, where it can be read.
    pub uevent: Option<String>,
}

/// The entry is one of the keyboard's, with this priority.
pub open spec fn has_priority(entry: HidrawEntry, p: u32) -> bool {
    &&& entry.uevent is Some
    &&& zenbook_bluetooth_uevent(entry.uevent->0@)
    &&& priority(entry.uevent->0@) == p
}

/// The device files of the keyboard's entries with this priority, in the order of the entries.
pub open spec fn paths_with_priority(entries: Seq<HidrawEntry>, p: u32) -> Seq<Seq<char>>
    decreases entries.len(),
{
    if entries.len() == 0 {
        Seq::empty()
    } else {
        let before = paths_with_priority(entries.drop_last(), p);
        if has_priority(entries.last(), p) {
            before.push("/dev/"@ + entries.last().name@)
        } else {
            before
        }
    }
}

/// The device files of the keyboard, in the order in which they are tried.
pub open spec fn ordered_paths(entries: Option<Vec<HidrawEntry>>) -> Seq<Seq<char>> {
    match entries {
        Some(list) => paths_with_priority(list@, 0) + paths_with_priority(list@, 50)
            + paths_with_priority(list@, 100),
        None => Seq::empty(),
    }
}

fn push_paths(paths: &mut Vec<String>, entries: &Vec<HidrawEntry>, p: u32)
    ensures
        text::views(final(paths)@) == text::views(old(paths)@) + paths_with_priority(entries@, p),
{
    let mut i: usize = 0;
    assert(text::views(paths@) =~= text::views(old(paths)@) + paths_with_priority(
        entries@.take(0),
        p,
    ));
    while i < entries.len()
        invariant
            i <= entries@.len(),
            text::views(paths@) == text::views(old(paths)@) + paths_with_priority(
                entries@.take(i as int),
                p,
            ),
        decreases entries@.len() - i,
    {
        let ghost before = paths@;
        proof {
            assert(entries@.take(i + 1).drop_last() =~= entries@.take(i as int));
        }
        match &entries[i].uevent {
            Some(contents) => if is_zenbook_bluetooth_uevent(contents.as_str()) && hidraw_priority(
                contents.as_str(),
            ) == p {
                let path: String = text::concat2("/dev/", entries[i].name.as_str());
                paths.push(path);
                assert(text::views(paths@) =~= text::views(before).push(path@));
            },
            None => {},
        }
        assert(text::views(paths@) =~= text::views(old(paths)@) + paths_with_priority(
            entries@.take(i + 1),
            p,
        ));
        i += 1;
    }
    assert(entries@.take(i as int) =~= entries@);
}

/// The device files of the keyboard on Bluetooth, which has a generic one and a multitouch one:
/// the generic one comes first. `entries` holds the entries of the hidraw class, or nothing
/// where they cannot be listed.
pub fn list_bluetooth_hidraw_paths(entries: &Option<Vec<HidrawEntry>>) -> (r: Vec<String>)
    ensures
        text::views(r@) == ordered_paths(*entries),
{
    let mut paths: Vec<String> = Vec::new();
    match entries {
        Some(list) => {
            push_paths(&mut paths, list, 0);
            push_paths(&mut paths, list, 50);
            push_paths(&mut paths, list, 100);
        },
        None => {},
    }
    assert(text::views(paths@) =~= ordered_paths(*entries));
    paths
}

/// Every entry of the keyboard is tried: its device file is among the ordered ones.
pub proof fn law_every_keyboard_entry_is_listed(entries: Vec<HidrawEntry>, i: int)
    requires
        0 <= i < entries@.len(),
        entries@[i].uevent is Some,
        zenbook_bluetooth_uevent(entries@[i].uevent->0@),
    ensures
        ordered_paths(Some(entries)).contains("/dev/"@ + entries@[i].name@),
{
    let p = priority(entries@[i].uevent->0@);
    lemma_listed_with_priority(entries@, p, i);
    let generic = paths_with_priority(entries@, 0);
    let other = paths_with_priority(entries@, 50);
    let multitouch = paths_with_priority(entries@, 100);
    let path = "/dev/"@ + entries@[i].name@;
    let all = generic + other + multitouch;
    let own = paths_with_priority(entries@, p);
    let k = choose|k: int| 0 <= k < own.len() && own[k] == path;
    let at = if p == 0 {
        k
    } else if p == 50 {
        generic.len() + k
    } else {
        generic.len() + other.len() + k
    };
    assert(all[at] == path);
}

proof fn lemma_listed_with_priority(entries: Seq<HidrawEntry>, p: u32, i: int)
    requires
        0 <= i < entries.len(),
        has_priority(entries[i], p),
    ensures
        paths_with_priority(entries, p).contains("/dev/"@ + entries[i].name@),
    decreases entries.len(),
{
    let path = "/dev/"@ + entries[i].name@;
    let before = paths_with_priority(entries.drop_last(), p);
    if i == entries.len() - 1 {
        assert(paths_with_priority(entries, p)[before.len() as int] == path);
    } else {
        lemma_listed_with_priority(entries.drop_last(), p, i);
        let k = choose|k: int| 0 <= k < before.len() && before[k] == path;
        assert(paths_with_priority(entries, p)[k] == path);
    }
}

/// The generic device files are tried before all others, and the multitouch ones after.
pub proof fn law_lower_priority_is_tried_first(entries: Vec<HidrawEntry>)
    ensures
        paths_with_priority(entries@, 0).is_prefix_of(ordered_paths(Some(entries))),
        paths_with_priority(entries@, 100).is_suffix_of(ordered_paths(Some(entries))),
{
    let all = ordered_paths(Some(entries));
    let generic = paths_with_priority(entries@, 0);
    let multitouch = paths_with_priority(entries@, 100);
    assert(generic =~= all.subrange(0, generic.len() as int));
    assert(multitouch =~= all.subrange(all.len() - multitouch.len(), all.len() as int));
}

/// A device of the HID bus.
#[derive(Debug, Clone)]
pub struct HidDevice {
    pub name: String,
    /// Its description, where it can be read.
    pub uevent: Option<String>,
    /// The name of its driver, where it has one.
    pub driver: Option<String>,
}

/// The first of the devices that is the keyboard and has this driver. A device without a
/// readable description ends the search, and so does a keyboard without a driver.
pub open spec fn device_with_driver(devices: Seq<HidDevice>, driver: Seq<char>) -> Option<Seq<char>>
    decreases devices.len(),
{
    if devices.len() == 0 {
        None
    } else {
        let device = devices.first();
        match device.uevent {
            None => None,
            Some(uevent) => if !zenbook_bluetooth_uevent(uevent@) {
                device_with_driver(devices.skip(1), driver)
            } else {
                match device.driver {
                    None => None,
                    Some(linked) => if linked@ == driver {
                        Some(device.name@)
                    } else {
                        device_with_driver(devices.skip(1), driver)
                    },
                }
            },
        }
    }
}

/// Finds the keyboard on the HID bus by its driver. `devices` holds the devices of the bus, or
/// nothing where they cannot be listed.
pub fn find_bluetooth_hid_device_id(driver: &str, devices: &Option<Vec<HidDevice>>) -> (r: Option<
    String,
>)
    ensures
        match *devices {
            Some(list) => match r {
                Some(id) => device_with_driver(list@, driver@) == Some(id@),
                None => device_with_driver(list@, driver@) is None,
            },
            None => r is None,
        },
{
    let list: &Vec<HidDevice> = match devices {
        Some(list) => list,
        None => {
            return None;
        },
    };
    let mut i: usize = 0;
    assert(list@.skip(0) =~= list@);
    while i < list.len()
        invariant
            i <= list@.len(),
            device_with_driver(list@, driver@) == device_with_driver(list@.skip(i as int), driver@),
            *devices == Some(*list),
        decreases list@.len() - i,
    {
        assert(list@.skip(i as int).skip(1) =~= list@.skip(i + 1));
        match &list[i].uevent {
            None => {
                return None;
            },
            Some(uevent) => if is_zenbook_bluetooth_uevent(uevent.as_str()) {
                match &list[i].driver {
                    None => {
                        return None;
                    },
                    Some(linked) => if text::same(linked.as_str(), driver) {
                        return Some(list[i].name.as_str().to_string());
                    },
                }
            },
        }
        i += 1;
    }
    None
}

/// How long to wait once the keyboard is taken off its driver, in milliseconds.
pub const UNBIND_PAUSE_MILLIS: u64 = 250;

/// How long to wait once the keyboard is put back on its driver, in milliseconds.
pub const BIND_PAUSE_MILLIS: u64 = 500;

/// Decides which device is taken off its driver and put back, so that the keyboard on Bluetooth
/// starts afresh.
pub fn reset_bluetooth_keyboard_hid(devices: &Option<Vec<HidDevice>>) -> (r: Result<String, String>)
    ensures
        match r {
            Ok(id) => devices is Some && device_with_driver(devices->0@, "hid-generic"@) == Some(
                id@,
            ),
            Err(e) => {
                &&& devices is Some ==> device_with_driver(devices->0@, "hid-generic"@) is None
                &&& e@ == "bluetooth keyboard hid device not found"@
            },
        },
{
    match find_bluetooth_hid_device_id("hid-generic", devices) {
        Some(id) => Ok(id),
        None => Err("bluetooth keyboard hid device not found".to_string()),
    }
}

/// Says that taking the keyboard off its driver (`bound` is false) or putting it back (`bound` is
/// true) failed.
pub fn rebind_failure_text(device_id: &str, bound: bool, err: &str) -> (r: String)
    ensures
        r@ == (if bound {
            "Failed to rebind "@
        } else {
            "Failed to unbind "@
        }) + device_id@ + ": "@ + err@,
{
    let mut message: String = text::concat3(
        if bound {
            "Failed to rebind "
        } else {
            "Failed to unbind "
        },
        device_id,
        ": ",
    );
    message.append(err);
    message
}

/// Where setting the backlight through a hidraw device failed, with the reason.
#[derive(Debug, Clone)]
pub enum HidrawFailure {
    Open(String),
    Probe(String),
    Send(String),
}

/// Says where setting the backlight through the hidraw device `path` failed.
pub fn hidraw_failure_text(path: &str, failure: &HidrawFailure) -> (r: String)
    ensures
        r@ == (match *failure {
            HidrawFailure::Open(err) => "Failed to open "@ + path@ + ": "@ + err@,
            HidrawFailure::Probe(err) => "HIDIOCGFEATURE probe failed: "@ + err@,
            HidrawFailure::Send(err) => "ioctl HIDIOCSFEATURE failed: "@ + err@,
        }),
{
    match failure {
        HidrawFailure::Open(err) => {
            let mut message: String = text::concat3("Failed to open ", path, ": ");
            message.append(err.as_str());
            message
        },
        HidrawFailure::Probe(err) => text::concat2("HIDIOCGFEATURE probe failed: ", err.as_str()),
        HidrawFailure::Send(err) => text::concat2("ioctl HIDIOCSFEATURE failed: ", err.as_str()),
    }
}

/// One of the keyboard's two transports.
#[derive(Debug, Clone, Copy, PartialEq, Eq, Structural)]
pub enum Transport {
    Usb,
    Bluetooth,
}

/// What is to be done next to set the backlight.
#[derive(Debug, Clone)]
pub enum BacklightStep {
    /// Set this level over this transport.
    Attempt(Transport, u8),
    /// The backlight is set.
    Done,
    /// It is not, for this reason.
    Failed(String),
}

/// What is to be done next to set the backlight, with the characters of the error.
pub enum NextStep {
    Attempt(Transport, u8),
    Done,
    Failed(Seq<char>),
}

impl View for BacklightStep {
    type V = NextStep;

    open spec fn view(&self) -> NextStep {
        match self {
            BacklightStep::Attempt(transport, level) => NextStep::Attempt(*transport, *level),
            BacklightStep::Done => NextStep::Done,
            BacklightStep::Failed(e) => NextStep::Failed(e@),
        }
    }
}

/// Both transports failed.
pub open spec fn both_failed_text(usb_err: Seq<char>, bt_err: Seq<char>) -> Seq<char> {
    "Failed to set keyboard backlight natively (usb: "@ + usb_err + "; bt: "@ + bt_err + ")"@
}

fn both_failed(usb_err: &str, bt_err: &str) -> (r: String)
    ensures
        r@ == both_failed_text(usb_err@, bt_err@),
{
    let mut message: String = text::concat3(
        "Failed to set keyboard backlight natively (usb: ",
        usb_err,
        "; bt: ",
    );
    message.append(bt_err);
    message.append(")");
    message
}

/// The transport that is tried first: USB only where the keyboard is on USB.
pub open spec fn preferred_transport(connection: ConnectionType) -> Transport {
    if connection == ConnectionType::Usb {
        Transport::Usb
    } else {
        Transport::Bluetooth
    }
}

/// What is to be done next, with what the transports have come to so far: the preferred one is
/// tried first, the other where that failed, and both errors are told where both failed.
pub open spec fn next_step(
    level: u8,
    connection: ConnectionType,
    usb: Option<Result<(), String>>,
    bluetooth: Option<Result<(), String>>,
) -> NextStep {
    let (first, second, other) = if preferred_transport(connection) == Transport::Usb {
        (usb, bluetooth, Transport::Bluetooth)
    } else {
        (bluetooth, usb, Transport::Usb)
    };
    match first {
        None => NextStep::Attempt(preferred_transport(connection), level),
        Some(Ok(_)) => NextStep::Done,
        Some(Err(_)) => match second {
            None => NextStep::Attempt(other, level),
            Some(Ok(_)) => NextStep::Done,
            Some(Err(_)) => NextStep::Failed(
                both_failed_text(usb->0->Err_0@, bluetooth->0->Err_0@),
            ),
        },
    }
}

/// Decides what is to be done next, with what the transports have come to so far.
pub fn set_backlight(
    level: u8,
    connection: ConnectionType,
    usb: &Option<Result<(), String>>,
    bluetooth: &Option<Result<(), String>>,
) -> (r: BacklightStep)
    ensures
        r@ == next_step(level, connection, *usb, *bluetooth),
{
    let usb_first: bool = connection == ConnectionType::Usb;
    let first: &Option<Result<(), String>> = if usb_first {
        usb
    } else {
        bluetooth
    };
    match first {
        None => {
            return BacklightStep::Attempt(
                if usb_first {
                    Transport::Usb
                } else {
                    Transport::Bluetooth
                },
                level,
            );
        },
        Some(Ok(())) => {
            return BacklightStep::Done;
        },
        Some(Err(_)) => {},
    }
    let second: &Option<Result<(), String>> = if usb_first {
        bluetooth
    } else {
        usb
    };
    match second {
        None => BacklightStep::Attempt(
            if usb_first {
                Transport::Bluetooth
            } else {
                Transport::Usb
            },
            level,
        ),
        Some(Ok(())) => BacklightStep::Done,
        Some(Err(_)) => match (usb, bluetooth) {
            (Some(Err(usb_err)), Some(Err(bt_err))) => BacklightStep::Failed(
                both_failed(usb_err.as_str(), bt_err.as_str()),
            ),
            _ => BacklightStep::Done,
        },
    }
}

/// What a transport comes to, if the step is an attempt over it.
pub open spec fn attempted(
    step: NextStep,
    transport: Transport,
    outcome: Result<(), String>,
) -> Option<Result<(), String>> {
    if step is Attempt && step->Attempt_0 == transport {
        Some(outcome)
    } else {
        None
    }
}

/// Following the steps, with transports that come to `usb` and `bluetooth`, ends after at most
/// two attempts, and sets the backlight exactly where one of the two takes it.
pub proof fn law_backlight_needs_one_transport(
    level: u8,
    connection: ConnectionType,
    usb: Result<(), String>,
    bluetooth: Result<(), String>,
)
    ensures
        ({
            let step = next_step(level, connection, None, None);
            let after = next_step(
                level,
                connection,
                attempted(step, Transport::Usb, usb),
                attempted(step, Transport::Bluetooth, bluetooth),
            );
            let last = next_step(level, connection, Some(usb), Some(bluetooth));
            &&& step == NextStep::Attempt(preferred_transport(connection), level)
            &&& after is Attempt || after == last
            &&& after is Attempt ==> after->Attempt_0 != preferred_transport(connection)
            &&& last == (if usb is Ok || bluetooth is Ok {
                NextStep::Done
            } else {
                NextStep::Failed(both_failed_text(usb->Err_0@, bluetooth->Err_0@))
            })
        }),
{
}

/// The report that sets the backlight has sixteen bytes: four that say what it is, the level, no
/// more than 3, and zeros. The one that probes a device has only its number.
pub proof fn law_reports_have_their_bytes(
    level: u8,
    report: [u8; 16],
    probe: [u8; 16],
    i: int,
)
    requires
        call_ensures(build_backlight_report, (level,), report),
        call_ensures(build_probe_report, (), probe),
        5 <= i < 16,
    ensures
        report@.len() == 16,
        report@[0] == 0x5A,
        report@[1] == 0xBA,
        report@[2] == 0xC5,
        report@[3] == 0xC4,
        level <= 3 ==> report@[4] == level,
        level > 3 ==> report@[4] == 3,
        report@[i] == 0,
        probe@.len() == 16,
        probe@[0] == 0x5A,
        probe@[i] == 0,
        probe@[1] == 0,
{
}

/// A USB device is the keyboard exactly where its vendor is ASUS and its product string names the
/// keyboard.
pub proof fn law_usb_keyboard_is_known_by_vendor_and_name(device: UsbDevice, r: bool)
    requires
        call_ensures(usb_keyboard, (&device,), r),
    ensures
        r <==> {
            &&& device.vendor_id == Some(0x0B05u16)
            &&& device.product is Some
            &&& text::contains_text(device.product->0@, "Zenbook Duo Keyboard"@)
                || text::contains_text(device.product->0@, "ASUS_DUO"@)
        },
{
}

/// The first keyboard on USB is sent the report for the level, as a class request to its interface
/// 4 that sets the feature report 0x5A. Without one nothing is sent.
pub proof fn law_first_usb_keyboard_is_sent_the_level(
    level: u8,
    devices: Vec<UsbDevice>,
    r: Result<ControlTransfer, String>,
    report: [u8; 16],
    i: int,
    keyboard: bool,
)
    requires
        call_ensures(set_backlight_usb, (level, &devices), r),
        call_ensures(build_backlight_report, (level,), report),
        0 <= i < devices@.len(),
        call_ensures(usb_keyboard, (&devices@[i],), keyboard),
    ensures
        keyboard ==> r is Ok && r->Ok_0.device <= i,
        !keyboard ==> !(r is Ok && r->Ok_0.device == i),
        r matches Ok(transfer) ==> {
            &&& transfer.device < devices@.len()
            &&& transfer.data@ == report@
            &&& transfer.interface == 4
            &&& transfer.index == 4
            &&& transfer.request_type == 0x21
            &&& transfer.request == 0x09
            &&& transfer.value == 0x035A
            &&& transfer.timeout_secs == 2
        },
        r matches Err(e) ==> e@ == "Zenbook Duo keyboard not found via USB"@,
{
    let device = devices@[i];
    assert(keyboard == is_usb_keyboard(device));
    if keyboard && r is Ok {
        assert(i < r->Ok_0.device ==> !is_usb_keyboard(devices@[i]));
    } else if r is Ok {
        assert(is_usb_keyboard(devices@[r->Ok_0.device as int]));
    } else if keyboard {
        assert(lists_usb_keyboard(devices@));
    }
}

/// A description is that of the keyboard on Bluetooth exactly where it names the keyboard and the
/// Bluetooth bus.
pub proof fn law_bluetooth_keyboard_is_known_by_name_and_bus(contents: &str, r: bool)
    requires
        call_ensures(is_zenbook_bluetooth_uevent, (contents,), r),
    ensures
        r <==> text::contains_text(contents@, "HID_ID=0005:"@) && (text::contains_text(
            contents@,
            "Zenbook Duo Keyboard"@,
        ) || text::contains_text(contents@, "ASUS_DUO"@)),
{
}

/// The multitouch device comes last, the generic one first, and any other between them.
pub proof fn law_generic_device_comes_first(contents: &str, r: u32)
    requires
        call_ensures(hidraw_priority, (contents,), r),
    ensures
        ({
            let touch = text::contains_text(contents@, "DRIVER=hid-multitouch"@)
                || text::contains_text(contents@, "g0004"@);
            let generic = text::contains_text(contents@, "DRIVER=hid-generic"@)
                || text::contains_text(contents@, "g0001"@);
            &&& touch ==> r == 100
            &&& generic && !touch ==> r == 0
            &&& !generic && !touch ==> r == 50
        }),
{
}

/// One more entry of the keyboard adds its device file, after those of the same priority; any
/// other entry adds none.
pub proof fn law_each_keyboard_entry_adds_its_file(
    entries: Seq<HidrawEntry>,
    entry: HidrawEntry,
    p: u32,
)
    ensures
        paths_with_priority(Seq::empty(), p) == Seq::<Seq<char>>::empty(),
        paths_with_priority(entries.push(entry), p) == (if entry.uevent is Some
            && zenbook_bluetooth_uevent(entry.uevent->0@) && priority(entry.uevent->0@) == p {
            paths_with_priority(entries, p).push("/dev/"@ + entry.name@)
        } else {
            paths_with_priority(entries, p)
        }),
{
    assert(entries.push(entry).drop_last() =~= entries);
}

/// The device files are tried by priority: the generic ones, the others, the multitouch ones.
pub proof fn law_files_are_tried_by_priority(
    entries: Option<Vec<HidrawEntry>>,
    r: Vec<String>,
)
    requires
        call_ensures(list_bluetooth_hidraw_paths, (&entries,), r),
    ensures
        entries is None ==> r@.len() == 0,
        entries is Some ==> text::views(r@) == paths_with_priority(entries->0@, 0)
            + paths_with_priority(entries->0@, 50) + paths_with_priority(entries->0@, 100),
{
    if entries is None {
        assert(text::views(r@).len() == 0);
    }
}

/// The keyboard is found by its driver: the first device that is the keyboard and has that driver,
/// where every device before it can be read and every keyboard before it has another driver.
pub proof fn law_keyboard_is_found_by_its_driver(
    devices: Seq<HidDevice>,
    driver: Seq<char>,
    at: int,
)
    requires
        0 <= at < devices.len(),
        devices[at].uevent is Some,
        zenbook_bluetooth_uevent(devices[at].uevent->0@),
        devices[at].driver is Some,
        devices[at].driver->0@ == driver,
        forall|j: int|
            0 <= j < at ==> (#[trigger] devices[j]).uevent is Some && (zenbook_bluetooth_uevent(
                devices[j].uevent->0@,
            ) ==> devices[j].driver is Some && devices[j].driver->0@ != driver),
    ensures
        device_with_driver(devices, driver) == Some(devices[at].name@),
    decreases devices.len(),
{
    if at > 0 {
        assert(devices[0].uevent is Some);
        let rest = devices.skip(1);
        assert(rest[at - 1] == devices[at]);
        assert forall|j: int| 0 <= j < at - 1 implies (#[trigger] rest[j]).uevent is Some && (
        zenbook_bluetooth_uevent(rest[j].uevent->0@) ==> rest[j].driver is Some
            && rest[j].driver->0@ != driver) by {
            assert(rest[j] == devices[j + 1]);
        }
        law_keyboard_is_found_by_its_driver(rest, driver, at - 1);
    }
}

/// What is found is a keyboard with that driver.
pub proof fn law_what_is_found_is_the_keyboard(devices: Seq<HidDevice>, driver: Seq<char>)
    ensures
        device_with_driver(devices, driver) matches Some(name) ==> exists|i: int|
            {
                &&& 0 <= i < devices.len()
                &&& (#[trigger] devices[i]).name@ == name
                &&& devices[i].uevent is Some
                &&& zenbook_bluetooth_uevent(devices[i].uevent->0@)
                &&& devices[i].driver is Some
                &&& devices[i].driver->0@ == driver
            },
    decreases devices.len(),
{
    if devices.len() > 0 {
        let rest = devices.skip(1);
        law_what_is_found_is_the_keyboard(rest, driver);
        if let Some(name) = device_with_driver(devices, driver) {
            let device = devices[0];
            if device.uevent is Some && zenbook_bluetooth_uevent(device.uevent->0@)
                && device.driver is Some && device.driver->0@ == driver {
                assert(devices[0].name@ == name);
            } else {
                let i = choose|i: int|
                    {
                        &&& 0 <= i < rest.len()
                        &&& (#[trigger] rest[i]).name@ == name
                        &&& rest[i].uevent is Some
                        &&& zenbook_bluetooth_uevent(rest[i].uevent->0@)
                        &&& rest[i].driver is Some
                        &&& rest[i].driver->0@ == driver
                    };
                assert(rest[i] == devices[i + 1]);
            }
        }
    }
}

/// The keyboard that is reset is the one on the generic driver; without one there is an error.
pub proof fn law_generic_keyboard_is_reset(
    devices: Option<Vec<HidDevice>>,
    driver: &str,
    found: Option<String>,
    r: Result<String, String>,
)
    requires
        driver@ == "hid-generic"@,
        call_ensures(find_bluetooth_hid_device_id, (driver, &devices), found),
        call_ensures(reset_bluetooth_keyboard_hid, (&devices,), r),
    ensures
        r is Ok <==> found is Some,
        r matches Ok(id) ==> id@ == found->0@,
        found matches Some(id) ==> devices is Some && device_with_driver(devices->0@, driver@)
            == Some(id@),
        found is None && devices is Some ==> device_with_driver(devices->0@, driver@) is None,
        r matches Err(e) ==> e@ == "bluetooth keyboard hid device not found"@,
        UNBIND_PAUSE_MILLIS == 250,
        BIND_PAUSE_MILLIS == 500,
        HIDIOCSFEATURE_16 == 0xC010_4806u64,
        HIDIOCGFEATURE_16 == 0xC010_4807u64,
{
}

/// The backlight is first sent over USB where the keyboard is on USB, and over Bluetooth
/// otherwise; over the other one only where that failed; always at the level that was asked for.
/// One success is enough, and two failures are told together.
pub proof fn law_backlight_goes_over_the_connection_first(
    level: u8,
    connection: ConnectionType,
    usb: Option<Result<(), String>>,
    bluetooth: Option<Result<(), String>>,
    r: BacklightStep,
)
    requires
        call_ensures(set_backlight, (level, connection, &usb, &bluetooth), r),
    ensures
        ({
            let on_usb = connection == ConnectionType::Usb;
            let first = if on_usb {
                usb
            } else {
                bluetooth
            };
            let second = if on_usb {
                bluetooth
            } else {
                usb
            };
            &&& r is Done <==> (first is Some && first->0 is Ok) || (first is Some && first->0 is Err
                && second is Some && second->0 is Ok)
            &&& r matches BacklightStep::Attempt(transport, sent) ==> {
                &&& sent == level
                &&& first is None || (first->0 is Err && second is None)
                &&& first is None ==> (transport == Transport::Usb <==> on_usb)
                &&& first is Some ==> (transport == Transport::Usb <==> !on_usb)
            }
            &&& r matches BacklightStep::Failed(e) ==> {
                &&& usb is Some && usb->0 is Err
                &&& bluetooth is Some && bluetooth->0 is Err
                &&& e@ == "Failed to set keyboard backlight natively (usb: "@ + usb->0->Err_0@
                    + "; bt: "@ + bluetooth->0->Err_0@ + ")"@
            }
        }),
{
}

/// Failures are told apart by where they happened, with the reason at the end.
pub proof fn law_hid_failures_are_told_apart(
    usb: UsbFailure,
    usb_text: String,
    path: &str,
    hidraw: HidrawFailure,
    hidraw_text: String,
    id: &str,
    bound: bool,
    err: &str,
    rebind: String,
)
    requires
        call_ensures(usb_failure_text, (&usb,), usb_text),
        call_ensures(hidraw_failure_text, (path, &hidraw), hidraw_text),
        call_ensures(rebind_failure_text, (id, bound, err), rebind),
    ensures
        usb matches UsbFailure::Context(e) ==> usb_text@ == "USB context error: "@ + e@,
        usb matches UsbFailure::DeviceList(e) ==> usb_text@ == "USB device list error: "@ + e@,
        usb matches UsbFailure::Write(e) ==> usb_text@ == "USB write error: "@ + e@,
        hidraw matches HidrawFailure::Open(e) ==> hidraw_text@ == "Failed to open "@ + path@ + ": "@
            + e@,
        hidraw matches HidrawFailure::Probe(e) ==> hidraw_text@ == "HIDIOCGFEATURE probe failed: "@
            + e@,
        hidraw matches HidrawFailure::Send(e) ==> hidraw_text@ == "ioctl HIDIOCSFEATURE failed: "@
            + e@,
        bound ==> rebind@ == "Failed to rebind "@ + id@ + ": "@ + err@,
        !bound ==> rebind@ == "Failed to unbind "@ + id@ + ": "@ + err@,
{
}

}
