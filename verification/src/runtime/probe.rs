//! What the readings of the machine say.

use vstd::prelude::*;

use crate::hardware::display_config::{
    lower_panel_orientation, main_panel_orientation, zenbook_duo_primary_orientation,
};
use crate::models::display::{DisplayInfo, DisplayLayout};
use crate::models::status::{ConnectionType, DuoStatus, Orientation};
use crate::text;

verus! {

/// The text of `idVendor` and `idProduct` of a USB device, where they can be read.
#[derive(Debug, Clone)]
pub struct UsbIdentity {
    pub vendor: Option<String>,
    pub product: Option<String>,
}

/// The text of an identifier, without white space around it and whatever its case, is
/// `expected`.
pub open spec fn id_matches(raw: Option<Seq<char>>, expected: Seq<char>) -> bool {
    match raw {
        Some(value) => text::same_but_for_ascii_case(text::trimmed(value), expected),
        None => false,
    }
}

/// The characters of a text that may be missing.
pub open spec fn text_of(raw: Option<String>) -> Option<Seq<char>> {
    match raw {
        Some(value) => Some(value@),
        None => None,
    }
}

/// Whether the text of an identifier is `expected`.
pub fn usb_id_matches(raw: &Option<String>, expected: &str) -> (r: bool)
    ensures
        r == id_matches(text_of(*raw), expected@),
{
    match raw {
        Some(value) => text::eq_ignore_ascii_case(
            text::trim_chars(text::chars_of(value.as_str()).as_slice()),
            text::chars_of(expected).as_slice(),
        ),
        None => false,
    }
}

/// A USB device has the given identifiers.
pub open spec fn device_matches(device: UsbIdentity, vendor: Seq<char>, product: Seq<char>) -> bool {
    id_matches(text_of(device.vendor), vendor) && id_matches(text_of(device.product), product)
}

/// One of the devices has the given identifiers.
pub open spec fn has_device(list: Seq<UsbIdentity>, vendor: Seq<char>, product: Seq<char>) -> bool {
    exists|i: int| 0 <= i < list.len() && #[trigger] device_matches(list[i], vendor, product)
}

/// One of the devices, where they can be listed, has the given identifiers.
pub open spec fn device_among(
    devices: Option<Seq<UsbIdentity>>,
    vendor: Seq<char>,
    product: Seq<char>,
) -> bool {
    match devices {
        Some(list) => has_device(list, vendor, product),
        None => false,
    }
}

/// The devices of a list that may be missing.
pub open spec fn listed(devices: Option<&Vec<UsbIdentity>>) -> Option<Seq<UsbIdentity>> {
    match devices {
        Some(list) => Some(list@),
        None => None,
    }
}

/// Whether one of the devices, where they can be listed, has the given identifiers.
pub fn usb_device_present(
    devices: Option<&Vec<UsbIdentity>>,
    vendor_id: &str,
    product_id: &str,
) -> (r: bool)
    ensures
        r == device_among(listed(devices), vendor_id@, product_id@),
{
    match devices {
        Some(list) => {
            let mut i: usize = 0;
            while i < list.len()
                invariant
                    i <= list@.len(),
                    listed(devices) == Some(list@),
                    forall|k: int|
                        0 <= k < i ==> !#[trigger] device_matches(
                            list@[k],
                            vendor_id@,
                            product_id@,
                        ),
                decreases list@.len() - i,
            {
                if usb_id_matches(&list[i].vendor, vendor_id) && usb_id_matches(
                    &list[i].product,
                    product_id,
                ) {
                    assert(device_matches(list@[i as int], vendor_id@, product_id@));
                    return true;
                }
                i += 1;
            }
            false
        },
        None => false,
    }
}

/// The keyboard, USB device `0b05:1cd7`, is among the devices.
pub open spec fn keyboard_among(devices: Option<Seq<UsbIdentity>>) -> bool {
    device_among(devices, "0b05"@, "1cd7"@)
}

/// Whether the keyboard is in the dock.
pub fn keyboard_attached(devices: Option<&Vec<UsbIdentity>>) -> (r: bool)
    ensures
        r == keyboard_among(listed(devices)),
{
    usb_device_present(devices, "0b05", "1cd7")
}

/// The first line of `nmcli radio wifi` says that Wi-Fi is on.
pub open spec fn wifi_reported_on(stdout: Option<Seq<u8>>) -> bool {
    match stdout {
        Some(bytes) => {
            let lines = text::lines_of(vstd::utf8::decode_utf8(bytes));
            vstd::utf8::valid_utf8(bytes) && text::trimmed(
                if lines.len() > 0 {
                    lines[0]
                } else {
                    Seq::empty()
                },
            ) == "enabled"@
        },
        None => false,
    }
}

/// The bytes of an output that may be missing.
pub open spec fn bytes_of(stdout: Option<&Vec<u8>>) -> Option<Seq<u8>> {
    match stdout {
        Some(bytes) => Some(bytes@),
        None => None,
    }
}

/// Whether Wi-Fi is on, out of what `nmcli radio wifi` prints.
pub fn wifi_enabled(stdout: Option<&Vec<u8>>) -> (r: bool)
    ensures
        r == wifi_reported_on(bytes_of(stdout)),
{
    match stdout {
        Some(bytes) => match text::utf8_text(bytes.as_slice()) {
            Some(output) => {
                let chars: Vec<char> = text::chars_of(output);
                let lines: Vec<&[char]> = text::lines(chars.as_slice());
                let wanted: Vec<char> = text::chars_of("enabled");
                let ghost views = lines@.map_values(|line: &[char]| line@);
                if lines.len() > 0 {
                    assert(views[0] == lines@[0]@);
                    text::same_chars(text::trim_chars(lines[0]), wanted.as_slice())
                } else {
                    let empty: Vec<char> = Vec::new();
                    assert(views.len() == 0);
                    assert(empty@ =~= Seq::<char>::empty());
                    text::same_chars(text::trim_chars(empty.as_slice()), wanted.as_slice())
                }
            },
            None => false,
        },
        None => false,
    }
}

/// One line of what `bluetoothctl show` prints says that the controller is powered.
pub open spec fn reports_powered(show_output: Seq<char>) -> bool {
    exists|i: int|
        0 <= i < text::lines_of(show_output).len() && text::trimmed(
            #[trigger] text::lines_of(show_output)[i],
        ) == "Powered: yes"@
}

/// Whether the controller is powered, out of the text that `bluetoothctl show` prints.
pub fn bluetooth_controller_powered(show_output: &str) -> (r: bool)
    ensures
        r == reports_powered(show_output@),
{
    let chars: Vec<char> = text::chars_of(show_output);
    let lines: Vec<&[char]> = text::lines(chars.as_slice());
    let wanted: Vec<char> = text::chars_of("Powered: yes");
    let ghost views = lines@.map_values(|line: &[char]| line@);
    let mut i: usize = 0;
    while i < lines.len()
        invariant
            i <= lines@.len(),
            views == lines@.map_values(|line: &[char]| line@),
            views == text::lines_of(show_output@),
            wanted@ == "Powered: yes"@,
            forall|k: int| 0 <= k < i ==> text::trimmed(#[trigger] views[k]) != wanted@,
        decreases lines@.len() - i,
    {
        assert(views[i as int] == lines@[i as int]@);
        if text::same_chars(text::trim_chars(lines[i]), wanted.as_slice()) {
            return true;
        }
        i += 1;
    }
    false
}

/// What `bluetoothctl show` prints says that the controller is powered.
pub open spec fn bluetooth_reported_on(stdout: Option<Seq<u8>>) -> bool {
    match stdout {
        Some(bytes) => vstd::utf8::valid_utf8(bytes) && reports_powered(
            vstd::utf8::decode_utf8(bytes),
        ),
        None => false,
    }
}

/// Whether Bluetooth is on, out of what `bluetoothctl show` prints.
pub fn bluetooth_enabled(stdout: Option<&Vec<u8>>) -> (r: bool)
    ensures
        r == bluetooth_reported_on(bytes_of(stdout)),
{
    match stdout {
        Some(bytes) => match text::utf8_text(bytes.as_slice()) {
            Some(output) => bluetooth_controller_powered(output),
            None => false,
        },
        None => false,
    }
}

/// The number of displays in a layout, or `current` where there is no layout or an empty one.
pub open spec fn displays_counted(layout: Option<&DisplayLayout>, current: u32) -> u32 {
    match layout {
        Some(l) => if l.displays.len() as u32 > 0 {
            l.displays.len() as u32
        } else {
            current
        },
        None => current,
    }
}

/// The number of displays in a layout, or `current` where that is none.
pub fn monitor_count(layout: Option<&DisplayLayout>, current: u32) -> (r: u32)
    ensures
        r == displays_counted(layout, current),
{
    match layout {
        Some(l) => {
            let count: u32 = l.displays.len() as u32;
            if count > 0 {
                count
            } else {
                current
            }
        },
        None => current,
    }
}

/// A way to look for a display.
#[derive(Debug, Clone, Copy, PartialEq, Eq, Structural)]
pub enum DisplaySought {
    /// The lower panel, while it is on.
    LowerPanelOn,
    /// The main panel.
    MainPanel,
    /// The display that the compositor marks as primary.
    Primary,
}

/// `display` is what is sought.
pub open spec fn is_sought(display: DisplayInfo, sought: DisplaySought) -> bool {
    match sought {
        DisplaySought::LowerPanelOn => display.connector@ == "eDP-2"@ && display.enabled,
        DisplaySought::MainPanel => display.connector@ == "eDP-1"@,
        DisplaySought::Primary => display.primary,
    }
}

/// The first display that is what is sought.
pub open spec fn first_sought(displays: Seq<DisplayInfo>, sought: DisplaySought) -> Option<
    DisplayInfo,
>
    decreases displays.len(),
{
    if displays.len() == 0 {
        None
    } else if is_sought(displays.first(), sought) {
        Some(displays.first())
    } else {
        first_sought(displays.skip(1), sought)
    }
}

/// The orientation that a transform stands for on a panel mounted upright.
pub open spec fn upright_panel_orientation(transform: u32) -> Orientation {
    if transform == 90 {
        Orientation::Left
    } else if transform == 180 {
        Orientation::Inverted
    } else if transform == 270 {
        Orientation::Right
    } else {
        Orientation::Normal
    }
}

/// The orientation of the device that a layout shows: by the lower panel while it is on, since
/// the main panel's transform is not reliable while a layout of two is rebuilt; else by the main
/// panel; else by the primary display; else by the first one.
pub open spec fn layout_orientation(layout: Option<&DisplayLayout>) -> Option<Orientation> {
    match layout {
        None => None,
        Some(l) => match first_sought(l.displays@, DisplaySought::LowerPanelOn) {
            Some(lower) => Some(lower_panel_orientation(lower.transform)),
            None => match first_sought(l.displays@, DisplaySought::MainPanel) {
                Some(main) => Some(main_panel_orientation(main.transform)),
                None => match first_sought(l.displays@, DisplaySought::Primary) {
                    Some(primary) => Some(upright_panel_orientation(primary.transform)),
                    None => if l.displays@.len() > 0 {
                        Some(upright_panel_orientation(l.displays@[0].transform))
                    } else {
                        None
                    },
                },
            },
        },
    }
}

/// The transform of the first display that is what is sought.
fn sought_transform(displays: &Vec<DisplayInfo>, sought: DisplaySought) -> (r: Option<u32>)
    ensures
        match first_sought(displays@, sought) {
            Some(display) => r == Some(display.transform),
            None => r is None,
        },
{
    assert(displays@.skip(0) =~= displays@);
    let mut i: usize = 0;
    while i < displays.len()
        invariant
            i <= displays@.len(),
            first_sought(displays@, sought) == first_sought(displays@.skip(i as int), sought),
        decreases displays@.len() - i,
    {
        let display: &DisplayInfo = &displays[i];
        let found: bool = match sought {
            DisplaySought::LowerPanelOn => text::same(display.connector.as_str(), "eDP-2")
                && display.enabled,
            DisplaySought::MainPanel => text::same(display.connector.as_str(), "eDP-1"),
            DisplaySought::Primary => display.primary,
        };
        if found {
            return Some(display.transform);
        }
        assert(displays@.skip(i as int).skip(1) =~= displays@.skip(i + 1));
        i += 1;
    }
    None
}

fn upright_orientation(transform: u32) -> (r: Orientation)
    ensures
        r == upright_panel_orientation(transform),
{
    match transform {
        90 => Orientation::Left,
        180 => Orientation::Inverted,
        270 => Orientation::Right,
        _ => Orientation::Normal,
    }
}

/// The orientation of the device that a layout shows.
pub fn inferred_orientation(layout: Option<&DisplayLayout>) -> (r: Option<Orientation>)
    ensures
        r == layout_orientation(layout),
{
    match layout {
        None => None,
        Some(l) => {
            match sought_transform(&l.displays, DisplaySought::LowerPanelOn) {
                Some(transform) => {
                    return Some(
                        match transform {
                            90 => Orientation::Right,
                            180 => Orientation::Inverted,
                            270 => Orientation::Left,
                            _ => Orientation::Normal,
                        },
                    );
                },
                None => {},
            }
            match sought_transform(&l.displays, DisplaySought::MainPanel) {
                Some(transform) => Some(zenbook_duo_primary_orientation(transform)),
                None => match sought_transform(&l.displays, DisplaySought::Primary) {
                    Some(transform) => Some(upright_orientation(transform)),
                    None => if l.displays.len() > 0 {
                        Some(upright_orientation(l.displays[0].transform))
                    } else {
                        None
                    },
                },
            }
        },
    }
}

/// `status` with what a layout shows of the displays; what it does not show stays.
pub open spec fn with_layout(status: DuoStatus, layout: Option<&DisplayLayout>) -> DuoStatus {
    DuoStatus {
        monitor_count: displays_counted(layout, status.monitor_count),
        orientation: match layout_orientation(layout) {
            Some(orientation) => orientation,
            None => status.orientation,
        },
        ..status
    }
}

/// Takes what a layout shows of the displays into `status`.
pub fn apply_layout_to_status(status: &mut DuoStatus, layout: Option<&DisplayLayout>)
    ensures
        *final(status) == with_layout(*old(status), layout),
{
    status.monitor_count = monitor_count(layout, status.monitor_count);
    status.orientation = inferred_orientation(layout).unwrap_or(status.orientation);
}

/// The status of the machine: `base`, with what the devices, the radios and the layout show.
pub fn current_status(
    base: DuoStatus,
    devices: Option<&Vec<UsbIdentity>>,
    connection_type: ConnectionType,
    wifi_stdout: Option<&Vec<u8>>,
    bluetooth_stdout: Option<&Vec<u8>>,
    layout: Option<&DisplayLayout>,
) -> (r: DuoStatus)
    ensures
        r == with_layout(
            (DuoStatus {
                keyboard_attached: keyboard_among(listed(devices)),
                connection_type,
                wifi_enabled: wifi_reported_on(bytes_of(wifi_stdout)),
                bluetooth_enabled: bluetooth_reported_on(bytes_of(bluetooth_stdout)),
                ..base
            }),
            layout,
        ),
{
    let mut status: DuoStatus = base;
    status.keyboard_attached = keyboard_attached(devices);
    status.connection_type = connection_type;
    status.wifi_enabled = wifi_enabled(wifi_stdout);
    status.bluetooth_enabled = bluetooth_enabled(bluetooth_stdout);
    apply_layout_to_status(&mut status, layout);
    status
}

/// The case of an identifier's letters, and white space around it, do not matter.
pub proof fn law_identifiers_ignore_case(a: Seq<char>, b: Seq<char>, expected: Seq<char>)
    requires
        text::same_but_for_ascii_case(text::trimmed(a), text::trimmed(b)),
    ensures
        id_matches(Some(a), expected) == id_matches(Some(b), expected),
{
}

/// While the lower panel is on, nothing but its transform decides the orientation.
pub proof fn law_lower_panel_decides_orientation(
    one: DisplayLayout,
    other: DisplayLayout,
)
    requires
        first_sought(one.displays@, DisplaySought::LowerPanelOn) matches Some(a)
            && first_sought(other.displays@, DisplaySought::LowerPanelOn) matches Some(b)
            && a.transform == b.transform,
    ensures
        layout_orientation(Some(&one)) == layout_orientation(Some(&other)),
        layout_orientation(Some(&one)) is Some,
{
}

/// Taking in the same layout twice is the same as taking it in once.
pub proof fn law_layout_is_taken_in_once(status: DuoStatus, layout: Option<&DisplayLayout>)
    ensures
        with_layout(with_layout(status, layout), layout) == with_layout(status, layout),
{
}

/// A layout that shows no display changes nothing.
pub proof fn law_empty_layout_changes_nothing(status: DuoStatus, layout: DisplayLayout)
    requires
        layout.displays@.len() == 0,
    ensures
        with_layout(status, Some(&layout)) == status,
        with_layout(status, None) == status,
{
}

/// An identifier matches exactly where its text, without white space around it, is the expected
/// one letter by letter, whatever their case.
pub proof fn law_identifier_matches_letter_by_letter(
    raw: Option<String>,
    expected: &str,
    r: bool,
)
    requires
        call_ensures(usb_id_matches, (&raw, expected), r),
    ensures
        r <==> raw is Some && text::same_but_for_ascii_case(text::trimmed(raw->0@), expected@),
{
}

/// The keyboard is in the dock exactly where the devices can be listed and one of them has both
/// its identifiers, `0b05` and `1cd7`.
pub proof fn law_keyboard_is_known_by_its_identifiers(
    devices: Option<&Vec<UsbIdentity>>,
    r: bool,
)
    requires
        call_ensures(keyboard_attached, (devices,), r),
    ensures
        r <==> devices is Some && exists|i: int|
            #![trigger devices->0@[i]]
            {
                let device = devices->0@[i];
                &&& 0 <= i < devices->0@.len()
                &&& device.vendor is Some
                &&& device.product is Some
                &&& text::same_but_for_ascii_case(text::trimmed(device.vendor->0@), "0b05"@)
                &&& text::same_but_for_ascii_case(text::trimmed(device.product->0@), "1cd7"@)
            },
{
    if let Some(list) = devices {
        if has_device(list@, "0b05"@, "1cd7"@) {
            let i = choose|i: int|
                0 <= i < list@.len() && #[trigger] device_matches(list@[i], "0b05"@, "1cd7"@);
            assert(devices->0@[i] == list@[i]);
        }
        assert(forall|i: int|
            0 <= i < list@.len() && #[trigger] list@[i].vendor is Some && list@[i].product is Some
                && text::same_but_for_ascii_case(text::trimmed(list@[i].vendor->0@), "0b05"@)
                && text::same_but_for_ascii_case(text::trimmed(list@[i].product->0@), "1cd7"@)
                ==> device_matches(list@[i], "0b05"@, "1cd7"@));
    }
}

/// A device is present exactly where one of the listed ones has both identifiers.
pub proof fn law_device_is_present_when_listed(
    devices: Option<&Vec<UsbIdentity>>,
    vendor: &str,
    product: &str,
    r: bool,
    i: int,
)
    requires
        call_ensures(usb_device_present, (devices, vendor, product), r),
        devices is Some,
        0 <= i < devices->0@.len(),
        ({
            let device = devices->0@[i];
            &&& device.vendor is Some
            &&& device.product is Some
            &&& text::same_but_for_ascii_case(text::trimmed(device.vendor->0@), vendor@)
            &&& text::same_but_for_ascii_case(text::trimmed(device.product->0@), product@)
        }),
    ensures
        r,
{
    assert(device_matches(devices->0@[i], vendor@, product@));
}

/// Wi-Fi is on exactly where the text of `nmcli` is valid and its first line, trimmed, says
/// "enabled". Bluetooth is on exactly where the text of `bluetoothctl` is valid and one of its
/// lines, trimmed, says "Powered: yes".
pub proof fn law_radios_are_on_when_reported(
    wifi: Option<&Vec<u8>>,
    wifi_on: bool,
    bluetooth: Option<&Vec<u8>>,
    bluetooth_on: bool,
)
    requires
        call_ensures(wifi_enabled, (wifi,), wifi_on),
        call_ensures(bluetooth_enabled, (bluetooth,), bluetooth_on),
    ensures
        wifi is None ==> !wifi_on,
        wifi matches Some(bytes) ==> (wifi_on <==> {
            let lines = text::lines_of(vstd::utf8::decode_utf8(bytes@));
            &&& vstd::utf8::valid_utf8(bytes@)
            &&& lines.len() > 0
            &&& text::trimmed(lines[0]) == "enabled"@
        }),
        bluetooth is None ==> !bluetooth_on,
        bluetooth matches Some(bytes) ==> (bluetooth_on <==> {
            &&& vstd::utf8::valid_utf8(bytes@)
            &&& exists|i: int|
                {
                    &&& 0 <= i < text::lines_of(vstd::utf8::decode_utf8(bytes@)).len()
                    &&& text::trimmed(
                        #[trigger] text::lines_of(vstd::utf8::decode_utf8(bytes@))[i],
                    ) == "Powered: yes"@
                }
        }),
{
    reveal_strlit("enabled");
    assert(text::trimmed(Seq::empty()).len() == 0);
}

/// A controller is powered exactly where a line says so.
pub proof fn law_powered_is_a_line_of_its_own(show: &str, r: bool)
    requires
        call_ensures(bluetooth_controller_powered, (show,), r),
    ensures
        r <==> exists|i: int|
            0 <= i < text::lines_of(show@).len() && text::trimmed(
                #[trigger] text::lines_of(show@)[i],
            ) == "Powered: yes"@,
{
}

/// The number of monitors is that of the displays in the layout; without any, the known number
/// stays.
pub proof fn law_monitors_are_counted(layout: Option<&DisplayLayout>, current: u32, r: u32)
    requires
        call_ensures(monitor_count, (layout, current), r),
        layout is Some ==> layout->0.displays@.len() <= u32::MAX,
    ensures
        r == (if layout is Some && layout->0.displays@.len() > 0 {
            layout->0.displays@.len() as int
        } else {
            current as int
        }),
{
}

/// The first display of a kind is the one before which there is no other of it.
pub proof fn law_first_display_of_a_kind(
    displays: Seq<DisplayInfo>,
    sought: DisplaySought,
    at: int,
)
    requires
        0 <= at < displays.len(),
        is_sought(displays[at], sought),
        forall|j: int| 0 <= j < at ==> !is_sought(#[trigger] displays[j], sought),
    ensures
        first_sought(displays, sought) == Some(displays[at]),
    decreases displays.len(),
{
    if at > 0 {
        assert(!is_sought(displays[0], sought));
        let rest = displays.skip(1);
        assert(rest[at - 1] == displays[at]);
        assert forall|j: int| 0 <= j < at - 1 implies !is_sought(#[trigger] rest[j], sought) by {
            assert(rest[j] == displays[j + 1]);
        }
        law_first_display_of_a_kind(rest, sought, at - 1);
    }
}

/// Where there is no display of a kind, none is found.
pub proof fn law_no_display_of_a_kind(displays: Seq<DisplayInfo>, sought: DisplaySought)
    requires
        forall|j: int| 0 <= j < displays.len() ==> !is_sought(#[trigger] displays[j], sought),
    ensures
        first_sought(displays, sought) is None,
    decreases displays.len(),
{
    if displays.len() > 0 {
        assert(!is_sought(displays[0], sought));
        let rest = displays.skip(1);
        assert forall|j: int| 0 <= j < rest.len() implies !is_sought(#[trigger] rest[j], sought) by {
            assert(rest[j] == displays[j + 1]);
        }
        law_no_display_of_a_kind(rest, sought);
    }
}

/// The orientation is read off the lower panel where one is on: upright at no turn, and turned
/// right, over or left at the quarters.
pub proof fn law_orientation_is_read_off_the_lower_panel(
    layout: DisplayLayout,
    at: int,
    r: Option<Orientation>,
)
    requires
        call_ensures(inferred_orientation, (Some(&layout),), r),
        0 <= at < layout.displays@.len(),
        layout.displays@[at].connector@ == "eDP-2"@,
        layout.displays@[at].enabled,
        forall|j: int|
            0 <= j < at ==> !((#[trigger] layout.displays@[j]).connector@ == "eDP-2"@
                && layout.displays@[j].enabled),
    ensures
        r == Some(
            if layout.displays@[at].transform == 90 {
                Orientation::Right
            } else if layout.displays@[at].transform == 180 {
                Orientation::Inverted
            } else if layout.displays@[at].transform == 270 {
                Orientation::Left
            } else {
                Orientation::Normal
            },
        ),
{
    law_first_display_of_a_kind(layout.displays@, DisplaySought::LowerPanelOn, at);
}

/// Where no lower panel is on, the orientation is read off the main panel, which is mounted upside
/// down.
pub proof fn law_orientation_is_else_read_off_the_main_panel(
    layout: DisplayLayout,
    at: int,
    r: Option<Orientation>,
)
    requires
        call_ensures(inferred_orientation, (Some(&layout),), r),
        forall|j: int|
            0 <= j < layout.displays@.len() ==> !((#[trigger] layout.displays@[j]).connector@
                == "eDP-2"@ && layout.displays@[j].enabled),
        0 <= at < layout.displays@.len(),
        layout.displays@[at].connector@ == "eDP-1"@,
        forall|j: int|
            0 <= j < at ==> (#[trigger] layout.displays@[j]).connector@ != "eDP-1"@,
    ensures
        r == Some(
            if layout.displays@[at].transform == 180 {
                Orientation::Normal
            } else if layout.displays@[at].transform == 90 {
                Orientation::Left
            } else if layout.displays@[at].transform == 270 {
                Orientation::Right
            } else {
                Orientation::Inverted
            },
        ),
{
    law_no_display_of_a_kind(layout.displays@, DisplaySought::LowerPanelOn);
    law_first_display_of_a_kind(layout.displays@, DisplaySought::MainPanel, at);
}

/// Where neither panel is there, the orientation is read off the primary display, or else off the
/// first one, as off a display that stands upright; without a display there is none.
pub proof fn law_orientation_is_last_read_off_any_display(
    layout: DisplayLayout,
    at: int,
    r: Option<Orientation>,
)
    requires
        call_ensures(inferred_orientation, (Some(&layout),), r),
        forall|j: int|
            0 <= j < layout.displays@.len() ==> (#[trigger] layout.displays@[j]).connector@
                != "eDP-1"@ && !(layout.displays@[j].connector@ == "eDP-2"@
                && layout.displays@[j].enabled),
        layout.displays@.len() > 0 ==> {
            ||| {
                &&& 0 <= at < layout.displays@.len()
                &&& layout.displays@[at].primary
                &&& forall|j: int| 0 <= j < at ==> !(#[trigger] layout.displays@[j]).primary
            }
            ||| {
                &&& at == 0
                &&& forall|j: int|
                    0 <= j < layout.displays@.len() ==> !(#[trigger] layout.displays@[j]).primary
            }
        },
    ensures
        layout.displays@.len() == 0 ==> r is None,
        layout.displays@.len() > 0 ==> r == Some(
            if layout.displays@[at].transform == 90 {
                Orientation::Left
            } else if layout.displays@[at].transform == 180 {
                Orientation::Inverted
            } else if layout.displays@[at].transform == 270 {
                Orientation::Right
            } else {
                Orientation::Normal
            },
        ),
{
    law_no_display_of_a_kind(layout.displays@, DisplaySought::LowerPanelOn);
    law_no_display_of_a_kind(layout.displays@, DisplaySought::MainPanel);
    if layout.displays@.len() > 0 {
        if layout.displays@[at].primary {
            law_first_display_of_a_kind(layout.displays@, DisplaySought::Primary, at);
        } else {
            law_no_display_of_a_kind(layout.displays@, DisplaySought::Primary);
        }
    }
}

/// The status has what the devices, the connection and the radios show, and what the layout shows
/// of the displays; everything else stays as it was found.
pub proof fn law_status_has_what_is_shown(
    base: DuoStatus,
    devices: Option<&Vec<UsbIdentity>>,
    connection: ConnectionType,
    wifi: Option<&Vec<u8>>,
    bluetooth: Option<&Vec<u8>>,
    layout: Option<&DisplayLayout>,
    r: DuoStatus,
    attached: bool,
    wifi_on: bool,
    bluetooth_on: bool,
    monitors: u32,
    orientation: Option<Orientation>,
)
    requires
        call_ensures(current_status, (base, devices, connection, wifi, bluetooth, layout), r),
        call_ensures(keyboard_attached, (devices,), attached),
        call_ensures(wifi_enabled, (wifi,), wifi_on),
        call_ensures(bluetooth_enabled, (bluetooth,), bluetooth_on),
        call_ensures(monitor_count, (layout, base.monitor_count), monitors),
        call_ensures(inferred_orientation, (layout,), orientation),
    ensures
        r.keyboard_attached == attached,
        r.connection_type == connection,
        r.wifi_enabled == wifi_on,
        r.bluetooth_enabled == bluetooth_on,
        r.monitor_count == monitors,
        r.orientation == (match orientation {
            Some(o) => o,
            None => base.orientation,
        }),
        r.backlight_level == base.backlight_level,
        r.display_brightness == base.display_brightness,
        r.max_brightness == base.max_brightness,
        r.service_active == base.service_active,
{
}

/// A layout changes the number of monitors and the orientation, and nothing else.
pub proof fn law_layout_changes_the_displays_alone(
    status: &mut DuoStatus,
    layout: Option<&DisplayLayout>,
    monitors: u32,
    orientation: Option<Orientation>,
)
    requires
        call_ensures(apply_layout_to_status, (status, layout), ()),
        call_ensures(monitor_count, (layout, old(status).monitor_count), monitors),
        call_ensures(inferred_orientation, (layout,), orientation),
    ensures
        *final(status) == (DuoStatus {
            monitor_count: monitors,
            orientation: match orientation {
                Some(o) => o,
                None => old(status).orientation,
            },
            ..*old(status)
        }),
{
}

}
