//! The battery: what the kernel reports of it, and its charge limit.

use vstd::prelude::*;

use crate::models::battery::{BatteryStatus, Quantity};
use crate::text;

verus! {

/// The charge limits that can be chosen.
pub open spec fn is_charge_limit(limit: u8) -> bool {
    limit == 80 || limit == 90 || limit == 100
}

/// Accepts the charge limits that can be chosen.
pub fn validate_charge_limit(limit: u8) -> (r: Result<(), String>)
    ensures
        r is Ok <==> is_charge_limit(limit),
        r matches Err(e) ==> e@ == "Unsupported charge limit "@ + text::decimal(limit as nat)
            + "%; choose 80%, 90%, or 100%"@,
{
    if limit == 80 || limit == 90 || limit == 100 {
        Ok(())
    } else {
        Err(
            text::concat3(
                "Unsupported charge limit ",
                text::decimal_text(limit as u64).as_str(),
                "%; choose 80%, 90%, or 100%",
            ),
        )
    }
}

/// What a file holds, trimmed; nothing where it cannot be read or holds only white space.
pub open spec fn trimmed_reading(raw: Option<String>) -> Option<Seq<char>> {
    match raw {
        Some(t) => if text::trimmed(t@).len() > 0 {
            Some(text::trimmed(t@))
        } else {
            None
        },
        None => None,
    }
}

/// The number that a file holds, if it holds one.
pub open spec fn number_reading(raw: Option<String>) -> Option<int> {
    match trimmed_reading(raw) {
        Some(t) => text::unsigned_number(t, u64::MAX as int),
        None => None,
    }
}

/// The number that a file holds, if it holds one below 256.
pub open spec fn byte_reading(raw: Option<String>) -> Option<u8> {
    match number_reading(raw) {
        Some(n) => if n <= u8::MAX {
            Some(n as u8)
        } else {
            None
        },
        None => None,
    }
}

/// What a file holds, trimmed. `raw` is its text, where it can be read.
pub fn read_trimmed(raw: &Option<String>) -> (r: Option<String>)
    ensures
        match r {
            Some(t) => trimmed_reading(*raw) == Some(t@),
            None => trimmed_reading(*raw) is None,
        },
{
    match raw {
        Some(t) => text::nonempty_trimmed(Some(t.as_str())),
        None => None,
    }
}

/// The number that a file holds.
pub fn read_number(raw: &Option<String>) -> (r: Option<u64>)
    ensures
        match r {
            Some(n) => number_reading(*raw) == Some(n as int),
            None => number_reading(*raw) is None,
        },
{
    match read_trimmed(raw) {
        Some(t) => text::parse_u64(t.as_str()),
        None => None,
    }
}

fn read_byte(raw: &Option<String>) -> (r: Option<u8>)
    ensures
        r == byte_reading(*raw),
{
    match read_number(raw) {
        Some(n) => if n <= u8::MAX as u64 {
            Some(n as u8)
        } else {
            None
        },
        None => None,
    }
}

/// The number of millionths that a file holds.
pub fn read_micro_value(raw: &Option<String>) -> (r: Option<Quantity>)
    ensures
        match r {
            Some(q) => q is Micro && number_reading(*raw) == Some(q->Micro_0 as int),
            None => number_reading(*raw) is None,
        },
{
    match read_number(raw) {
        Some(n) => Some(Quantity::Micro(n)),
        None => None,
    }
}

/// A device of the power supply class.
#[derive(Debug, Clone)]
pub struct PowerSupply {
    /// The bytes of its name.
    pub name: Vec<u8>,
    /// The text of its `type` file, where it can be read.
    pub kind: Option<String>,
    /// Whether it has a `charge_control_end_threshold` file.
    pub has_threshold: bool,
}

/// The device says that it is a battery.
pub open spec fn is_battery(supply: PowerSupply) -> bool {
    trimmed_reading(supply.kind) == Some("Battery"@)
}

/// `a` stands before `b` in the order of the bytes.
pub open spec fn name_before(a: Seq<u8>, b: Seq<u8>) -> bool
    decreases a.len(),
{
    if b.len() == 0 {
        false
    } else if a.len() == 0 {
        true
    } else if a[0] != b[0] {
        a[0] < b[0]
    } else {
        name_before(a.skip(1), b.skip(1))
    }
}

/// `at` is the battery among `supplies` whose name comes first.
pub open spec fn first_battery(supplies: Seq<PowerSupply>, at: int) -> bool {
    &&& 0 <= at < supplies.len()
    &&& is_battery(supplies[at])
    &&& forall|j: int|
        0 <= j < supplies.len() && is_battery(#[trigger] supplies[j]) ==> !name_before(
            supplies[j].name@,
            supplies[at].name@,
        )
    &&& forall|j: int|
        0 <= j < at && is_battery(#[trigger] supplies[j]) ==> name_before(
            supplies[at].name@,
            supplies[j].name@,
        )
}

/// There is a battery among `supplies`.
pub open spec fn has_battery(supplies: Seq<PowerSupply>) -> bool {
    exists|j: int| 0 <= j < supplies.len() && is_battery(#[trigger] supplies[j])
}

/// The devices of a listing; none where it failed.
pub open spec fn supplies_of(supplies: Option<Vec<PowerSupply>>) -> Seq<PowerSupply> {
    match supplies {
        Some(list) => list@,
        None => Seq::empty(),
    }
}

proof fn lemma_name_order(a: Seq<u8>, b: Seq<u8>, c: Seq<u8>)
    ensures
        !name_before(a, a),
        name_before(a, b) ==> !name_before(b, a),
        name_before(a, b) && name_before(b, c) ==> name_before(a, c),
        name_before(a, b) && !name_before(c, b) ==> name_before(a, c),
    decreases a.len(),
{
    if a.len() > 0 && b.len() > 0 && c.len() > 0 {
        lemma_name_order(a.skip(1), b.skip(1), c.skip(1));
    } else if a.len() > 0 && b.len() > 0 {
        lemma_name_order(a.skip(1), b.skip(1), c);
    } else if a.len() > 0 {
        lemma_name_order(a.skip(1), b, c);
    }
}

fn comes_before(a: &Vec<u8>, b: &Vec<u8>) -> (r: bool)
    ensures
        r == name_before(a@, b@),
{
    let mut i: usize = 0;
    assert(a@.skip(0) =~= a@);
    assert(b@.skip(0) =~= b@);
    loop
        invariant
            i <= a@.len(),
            i <= b@.len(),
            name_before(a@, b@) == name_before(a@.skip(i as int), b@.skip(i as int)),
        decreases a@.len() - i,
    {
        if i >= b.len() {
            return false;
        }
        if i >= a.len() {
            return true;
        }
        if a[i] != b[i] {
            return a[i] < b[i];
        }
        assert(a@.skip(i as int).skip(1) =~= a@.skip(i + 1));
        assert(b@.skip(i as int).skip(1) =~= b@.skip(i + 1));
        i += 1;
    }
}

/// Finds the battery whose name comes first. `supplies` holds the devices of the power supply
/// class, or nothing where they cannot be listed.
pub fn find_battery_path(supplies: &Option<Vec<PowerSupply>>) -> (r: Option<usize>)
    ensures
        match r {
            Some(at) => first_battery(supplies_of(*supplies), at as int),
            None => !has_battery(supplies_of(*supplies)),
        },
{
    let list: &Vec<PowerSupply> = match supplies {
        Some(list) => list,
        None => {
            return None;
        },
    };
    let ghost all = list@;
    let mut found: Option<usize> = None;
    let mut i: usize = 0;
    while i < list.len()
        invariant
            i <= list@.len(),
            all == list@,
            match found {
                Some(at) => at < i && first_battery(all.take(i as int), at as int),
                None => !has_battery(all.take(i as int)),
            },
        decreases list@.len() - i,
    {
        let ghost seen = all.take(i as int);
        let ghost next = all.take(i + 1);
        proof {
            assert(forall|j: int| 0 <= j < i ==> next[j] == seen[j]);
            assert(next[i as int] == all[i as int]);
        }
        let battery: bool = match read_trimmed(&list[i].kind) {
            Some(kind) => text::same(kind.as_str(), "Battery"),
            None => false,
        };
        let ghost was = found;
        if battery {
            let better: bool = match found {
                Some(at) => comes_before(&list[i].name, &list[at].name),
                None => true,
            };
            if better {
                found = Some(i);
            }
        }
        proof {
            assert(battery == is_battery(next[i as int]));
            if let Some(at) = was {
                assert(is_battery(next[at as int]));
                assert forall|j: int| 0 <= j < next.len() && is_battery(#[trigger] next[j]) implies {
                    found matches Some(best) && !name_before(next[j].name@, next[best as int].name@)
                        && (j < best ==> name_before(next[best as int].name@, next[j].name@))
                } by {
                    if j < i {
                        assert(is_battery(seen[j]));
                    }
                    lemma_name_order(
                        next[i as int].name@,
                        next[at as int].name@,
                        next[j].name@,
                    );
                    lemma_name_order(next[j].name@, next[i as int].name@, next[at as int].name@);
                }
            } else {
                assert(forall|j: int| 0 <= j < i && is_battery(#[trigger] next[j]) ==> is_battery(
                    seen[j],
                ));
                if battery {
                    lemma_name_order(
                        next[i as int].name@,
                        next[i as int].name@,
                        next[i as int].name@,
                    );
                }
            }
        }
        i += 1;
    }
    assert(all.take(i as int) =~= all);
    found
}

/// The texts of a battery's files; nothing for one that cannot be read.
#[derive(Debug, Clone)]
pub struct BatteryFiles {
    pub status: Option<String>,
    pub present: Option<String>,
    pub capacity: Option<String>,
    pub energy_now: Option<String>,
    pub charge_now: Option<String>,
    pub voltage_now: Option<String>,
    pub power_now: Option<String>,
    pub current_now: Option<String>,
    pub charge_control_end_threshold: Option<String>,
    /// Whether there is a `charge_control_end_threshold` file, readable or not.
    pub has_threshold: bool,
}

/// A quantity that the kernel gives directly, or else as the product of two.
pub open spec fn quantity_reading(
    direct: Option<String>,
    factor: Option<String>,
    voltage: Option<String>,
) -> Option<Quantity> {
    match number_reading(direct) {
        Some(n) => Some(Quantity::Micro(n as u64)),
        None => match (number_reading(factor), number_reading(voltage)) {
            (Some(a), Some(b)) => Some(Quantity::Product(a as u64, b as u64)),
            _ => None,
        },
    }
}

/// The state that a battery reports.
pub open spec fn state_reading(files: BatteryFiles) -> Seq<char> {
    match trimmed_reading(files.status) {
        Some(state) => state,
        None => "Unknown"@,
    }
}

/// `status` says what the files of a battery say.
pub open spec fn tells(files: BatteryFiles, configured: u8, status: BatteryStatus) -> bool {
    &&& status.present == (trimmed_reading(files.present) != Some("0"@))
    &&& status.capacity_percent == byte_reading(files.capacity)
    &&& status.energy_wh == quantity_reading(
        files.energy_now,
        files.charge_now,
        files.voltage_now,
    )
    &&& status.discharge_power_w == if reports_discharging(files.status) {
        quantity_reading(files.power_now, files.current_now, files.voltage_now)
    } else {
        None
    }
    &&& status.state@ == state_reading(files)
    &&& status.charge_limit_supported == files.has_threshold
    &&& status.configured_charge_limit_percent == configured
    &&& status.active_charge_limit_percent == byte_reading(files.charge_control_end_threshold)
}

fn read_quantity(
    direct: &Option<String>,
    factor: &Option<String>,
    voltage: &Option<String>,
) -> (r: Option<Quantity>)
    ensures
        r == quantity_reading(*direct, *factor, *voltage),
{
    match read_micro_value(direct) {
        Some(q) => Some(q),
        None => match (read_number(factor), read_number(voltage)) {
            (Some(a), Some(b)) => Some(Quantity::Product(a, b)),
            _ => None,
        },
    }
}

/// The status of a battery, out of its files.
pub fn read_status_from(files: &BatteryFiles, configured_charge_limit_percent: u8) -> (r:
    BatteryStatus)
    ensures
        tells(*files, configured_charge_limit_percent, r),
{
    let state: String = match read_trimmed(&files.status) {
        Some(state) => state,
        None => "Unknown".to_string(),
    };
    let present: bool = match read_trimmed(&files.present) {
        Some(present) => !text::same(present.as_str(), "0"),
        None => true,
    };
    let discharging: bool = is_discharging(&files.status);
    let power: Option<Quantity> = read_quantity(
        &files.power_now,
        &files.current_now,
        &files.voltage_now,
    );
    BatteryStatus {
        present,
        capacity_percent: read_byte(&files.capacity),
        energy_wh: read_quantity(&files.energy_now, &files.charge_now, &files.voltage_now),
        discharge_power_w: if discharging {
            power
        } else {
            None
        },
        state,
        charge_limit_supported: files.has_threshold,
        configured_charge_limit_percent,
        active_charge_limit_percent: read_byte(&files.charge_control_end_threshold),
    }
}

/// The status of the machine's battery. `files` holds its files, or nothing where there is no
/// battery.
pub fn read_status(files: &Option<BatteryFiles>, configured_charge_limit_percent: u8) -> (r:
    BatteryStatus)
    ensures
        match *files {
            Some(files) => tells(files, configured_charge_limit_percent, r),
            None => {
                &&& !r.present
                &&& r.capacity_percent is None
                &&& r.energy_wh is None
                &&& r.discharge_power_w is None
                &&& r.state@ == "Unknown"@
                &&& !r.charge_limit_supported
                &&& r.configured_charge_limit_percent == configured_charge_limit_percent
                &&& r.active_charge_limit_percent is None
            },
        },
{
    match files {
        Some(files) => read_status_from(files, configured_charge_limit_percent),
        None => BatteryStatus {
            present: false,
            capacity_percent: None,
            energy_wh: None,
            discharge_power_w: None,
            state: "Unknown".to_string(),
            charge_limit_supported: false,
            configured_charge_limit_percent,
            active_charge_limit_percent: None,
        },
    }
}

/// The text of a battery's `status` file says that the battery is discharging, whatever the case
/// of its letters.
pub open spec fn reports_discharging(status: Option<String>) -> bool {
    trimmed_reading(status) matches Some(state) && text::same_but_for_ascii_case(
        state,
        "discharging"@,
    )
}

/// Whether the machine runs on its battery, out of the text of the battery's `status` file. A
/// battery that is full or not charging does not count, nor one that cannot be read.
pub fn is_discharging(status: &Option<String>) -> (r: bool)
    ensures
        r == reports_discharging(*status),
{
    match read_trimmed(status) {
        Some(state) => text::eq_ignore_ascii_case(
            text::chars_of(state.as_str()).as_slice(),
            text::chars_of("discharging").as_slice(),
        ),
        None => false,
    }
}

/// A charge limit that is to be written to a battery's `charge_control_end_threshold`.
#[derive(Debug, Clone)]
pub struct ThresholdWrite {
    /// The battery, by its place in the listing.
    pub battery: usize,
    pub text: String,
}

/// How a charge limit is written.
pub open spec fn threshold_text(limit: u8) -> Seq<char> {
    text::decimal(limit as nat) + "\n"@
}

/// Decides what is to be written where, so that the battery gets this charge limit.
pub fn set_charge_limit(limit: u8, supplies: &Option<Vec<PowerSupply>>) -> (r: Result<
    ThresholdWrite,
    String,
>)
    ensures
        match r {
            Ok(write) => {
                &&& is_charge_limit(limit)
                &&& first_battery(supplies_of(*supplies), write.battery as int)
                &&& supplies_of(*supplies)[write.battery as int].has_threshold
                &&& write.text@ == threshold_text(limit)
            },
            Err(e) => if !is_charge_limit(limit) {
                e@ == "Unsupported charge limit "@ + text::decimal(limit as nat)
                    + "%; choose 80%, 90%, or 100%"@
            } else if !has_battery(supplies_of(*supplies)) {
                e@ == "No system battery was found"@
            } else {
                &&& e@ == "The kernel does not expose an ASUS charge-limit interface"@
                &&& lacks_threshold(supplies_of(*supplies))
            },
        },
{
    match validate_charge_limit(limit) {
        Ok(()) => {},
        Err(e) => {
            return Err(e);
        },
    }
    let battery: usize = match find_battery_path(supplies) {
        Some(battery) => battery,
        None => {
            return Err("No system battery was found".to_string());
        },
    };
    match supplies {
        Some(list) => if list[battery].has_threshold {
            Ok(
                ThresholdWrite {
                    battery,
                    text: text::concat2(text::decimal_text(limit as u64).as_str(), "\n"),
                },
            )
        } else {
            proof {
                assert(is_battery(list@[battery as int]));
            }
            Err("The kernel does not expose an ASUS charge-limit interface".to_string())
        },
        None => Err("No system battery was found".to_string()),
    }
}

/// The first battery has no file for a charge limit.
pub open spec fn lacks_threshold(supplies: Seq<PowerSupply>) -> bool {
    exists|at: int| #[trigger] first_battery(supplies, at) && !supplies[at].has_threshold
}

/// Why a charge limit could not be written.
#[derive(Debug, Clone)]
pub enum ThresholdError {
    PermissionDenied,
    /// Any other reason, as the system words it.
    Other(String),
}

/// The reason in words.
pub open spec fn threshold_reason(error: ThresholdError) -> Seq<char> {
    match error {
        ThresholdError::PermissionDenied =>
            "permission denied; reinstall or restart the root system daemon"@,
        ThresholdError::Other(reason) => reason@,
    }
}

/// The reason in words.
pub fn explain_threshold_error(error: ThresholdError) -> (r: String)
    ensures
        r@ == threshold_reason(error),
{
    match error {
        ThresholdError::PermissionDenied =>
            "permission denied; reinstall or restart the root system daemon".to_string(),
        ThresholdError::Other(reason) => reason,
    }
}

/// Takes over the outcome of writing a charge limit to the file `threshold_path`: the files of
/// the battery as they were read afterwards, or why the write failed. The limit is in force
/// where the kernel reports it.
pub fn finish_charge_limit(
    limit: u8,
    threshold_path: &str,
    outcome: Result<BatteryFiles, ThresholdError>,
) -> (r: Result<BatteryStatus, String>)
    ensures
        match outcome {
            Ok(files) => if byte_reading(files.charge_control_end_threshold) == Some(limit) {
                r is Ok && tells(files, limit, r->Ok_0)
            } else {
                r is Err && r->Err_0@ == "The firmware accepted "@ + text::decimal(limit as nat)
                    + "% but the kernel did not confirm the new limit"@
            },
            Err(error) => r is Err && r->Err_0@
                == "Failed to set the battery charge limit through "@ + threshold_path@ + ": "@
                + threshold_reason(error),
        },
{
    match outcome {
        Ok(files) => {
            let status: BatteryStatus = read_status_from(&files, limit);
            let confirmed: bool = match status.active_charge_limit_percent {
                Some(active) => active == limit,
                None => false,
            };
            if confirmed {
                Ok(status)
            } else {
                Err(
                    text::concat3(
                        "The firmware accepted ",
                        text::decimal_text(limit as u64).as_str(),
                        "% but the kernel did not confirm the new limit",
                    ),
                )
            }
        },
        Err(error) => {
            let mut message: String = text::concat3(
                "Failed to set the battery charge limit through ",
                threshold_path,
                ": ",
            );
            message.append(explain_threshold_error(error).as_str());
            Err(message)
        },
    }
}

/// A kernel that reports back what is written to it confirms every charge limit.
pub proof fn law_written_limit_reads_back(limit: u8, file: String)
    requires
        file@ == threshold_text(limit),
    ensures
        byte_reading(Some(file)) == Some(limit),
{
    let digits = text::decimal(limit as nat);
    text::lemma_decimal_reads_back(limit as nat);
    reveal_strlit("\n");
    assert(file@.last() == '\n');
    assert(file@.drop_last() =~= digits);
    text::lemma_digits_are_trimmed(digits);
    assert(file@.first() == digits.first());
    assert(text::is_digit(digits[0]));
    assert(digits.first() != '+');
}

/// A power reading counts as drawn from the battery only while the battery says that it is
/// discharging.
pub proof fn law_power_is_drawn_only_when_discharging(
    files: BatteryFiles,
    configured: u8,
    status: BatteryStatus,
)
    requires
        tells(files, configured, status),
        status.discharge_power_w is Some,
    ensures
        text::same_but_for_ascii_case(status.state@, "discharging"@),
{
}

/// Three charge limits can be chosen, and a refused one is named.
pub proof fn law_three_charge_limits(limit: u8, r: Result<(), String>)
    requires
        call_ensures(validate_charge_limit, (limit,), r),
    ensures
        r is Ok <==> limit == 80 || limit == 90 || limit == 100,
        r matches Err(e) ==> e@ == "Unsupported charge limit "@ + text::decimal(limit as nat)
            + "%; choose 80%, 90%, or 100%"@,
{
}

/// A file is read trimmed, and only where anything is left of it; a number is what its digits say,
/// up to 64 bits.
pub proof fn law_files_are_read_trimmed(
    raw: Option<String>,
    trimmed: Option<String>,
    number: Option<u64>,
    micro: Option<Quantity>,
)
    requires
        call_ensures(read_trimmed, (&raw,), trimmed),
        call_ensures(read_number, (&raw,), number),
        call_ensures(read_micro_value, (&raw,), micro),
    ensures
        trimmed is Some <==> raw is Some && text::trimmed(raw->0@).len() > 0,
        trimmed matches Some(t) ==> t@ == text::trimmed(raw->0@),
        number matches Some(n) ==> raw is Some && text::unsigned_number(
            text::trimmed(raw->0@),
            0xffff_ffff_ffff_ffff,
        ) == Some(n as int),
        number is None && raw is Some ==> text::unsigned_number(
            text::trimmed(raw->0@),
            0xffff_ffff_ffff_ffff,
        ) is None,
        micro == (match number {
            Some(n) => Some(Quantity::Micro(n)),
            None => None,
        }),
{
}

/// A byte is read exactly where the number is no more than 255.
pub proof fn law_bytes_are_small_numbers(raw: Option<String>, number: Option<u64>)
    requires
        call_ensures(read_number, (&raw,), number),
    ensures
        number matches Some(n) ==> (n <= 255 ==> byte_reading(raw) == Some(n as u8)),
        number matches Some(n) ==> (n > 255 ==> byte_reading(raw) is None),
        number is None ==> byte_reading(raw) is None,
{
}

/// The battery is the device of that type whose name comes first, byte by byte; of several with
/// the same name, the first.
pub proof fn law_battery_is_the_first_by_name(
    supplies: Vec<PowerSupply>,
    r: Option<usize>,
    j: int,
)
    requires
        call_ensures(find_battery_path, (&Some(supplies),), r),
        0 <= j < supplies@.len(),
        supplies@[j].kind is Some,
        text::trimmed(supplies@[j].kind->0@) == "Battery"@,
    ensures
        r is Some,
        r->0 < supplies@.len(),
        supplies@[r->0 as int].kind is Some,
        text::trimmed(supplies@[r->0 as int].kind->0@) == "Battery"@,
        !name_before(supplies@[j].name@, supplies@[r->0 as int].name@),
        j < r->0 ==> name_before(supplies@[r->0 as int].name@, supplies@[j].name@),
{
    reveal_strlit("Battery");
    assert(is_battery(supplies@[j]));
}

/// Names are ordered as in a dictionary: by the first byte in which they differ, and a name that
/// goes on comes after the one that ends.
pub proof fn law_names_are_ordered_as_in_a_dictionary(
    common: Seq<u8>,
    a: u8,
    b: u8,
    rest: Seq<u8>,
    other: Seq<u8>,
)
    ensures
        a < b ==> name_before(common + seq![a] + rest, common + seq![b] + other),
        a > b ==> !name_before(common + seq![a] + rest, common + seq![b] + other),
        name_before(common, common + seq![a] + rest),
        !name_before(common + seq![a] + rest, common),
        !name_before(common, common),
    decreases common.len(),
{
    let x = common + seq![a] + rest;
    let y = common + seq![b] + other;
    if common.len() > 0 {
        law_names_are_ordered_as_in_a_dictionary(common.skip(1), a, b, rest, other);
        assert(x.skip(1) =~= common.skip(1) + seq![a] + rest);
        assert(y.skip(1) =~= common.skip(1) + seq![b] + other);
        assert(x[0] == common[0]);
        assert(y[0] == common[0]);
    } else {
        assert(x[0] == a);
        assert(y[0] == b);
    }
}

/// Without a device of that type there is no battery, and none where they cannot be listed.
pub proof fn law_no_battery_is_found_where_there_is_none(
    supplies: Option<Vec<PowerSupply>>,
    r: Option<usize>,
)
    requires
        call_ensures(find_battery_path, (&supplies,), r),
        supplies is Some ==> forall|j: int|
            0 <= j < supplies->0@.len() && (#[trigger] supplies->0@[j]).kind is Some
                ==> text::trimmed(supplies->0@[j].kind->0@) != "Battery"@,
    ensures
        r is None,
{
}

/// The status tells what the files say. Energy is what the kernel gives directly, or else the
/// product of charge and voltage; power in the same way, and only while the battery discharges.
pub proof fn law_status_tells_what_the_files_say(
    files: BatteryFiles,
    configured: u8,
    r: BatteryStatus,
    discharging: bool,
    energy: Option<u64>,
    charge: Option<u64>,
    voltage: Option<u64>,
    power: Option<u64>,
    current: Option<u64>,
)
    requires
        call_ensures(read_status_from, (&files, configured), r),
        call_ensures(is_discharging, (&files.status,), discharging),
        call_ensures(read_number, (&files.energy_now,), energy),
        call_ensures(read_number, (&files.charge_now,), charge),
        call_ensures(read_number, (&files.voltage_now,), voltage),
        call_ensures(read_number, (&files.power_now,), power),
        call_ensures(read_number, (&files.current_now,), current),
    ensures
        r.present <==> !(files.present is Some && text::trimmed(files.present->0@) == "0"@),
        r.capacity_percent == byte_reading(files.capacity),
        r.energy_wh == (match (energy, charge, voltage) {
            (Some(e), _, _) => Some(Quantity::Micro(e)),
            (None, Some(c), Some(v)) => Some(Quantity::Product(c, v)),
            _ => None,
        }),
        r.discharge_power_w == (match (power, current, voltage) {
            (Some(p), _, _) if discharging => Some(Quantity::Micro(p)),
            (None, Some(c), Some(v)) if discharging => Some(Quantity::Product(c, v)),
            _ => None,
        }),
        files.status is None ==> r.state@ == "Unknown"@,
        files.status is Some && text::trimmed(files.status->0@).len() == 0 ==> r.state@
            == "Unknown"@,
        files.status is Some && text::trimmed(files.status->0@).len() > 0 ==> r.state@
            == text::trimmed(files.status->0@),
        r.charge_limit_supported == files.has_threshold,
        r.configured_charge_limit_percent == configured,
        r.active_charge_limit_percent == byte_reading(files.charge_control_end_threshold),
{
    reveal_strlit("0");
}

/// Without a battery the status says so, and keeps the limit that was chosen; with one it is that
/// of its files.
pub proof fn law_machine_without_a_battery(
    files: Option<BatteryFiles>,
    configured: u8,
    r: BatteryStatus,
)
    requires
        call_ensures(read_status, (&files, configured), r),
    ensures
        r.configured_charge_limit_percent == configured,
        files is Some ==> tells(files->0, configured, r),
        files is None ==> {
            &&& !r.present
            &&& r.capacity_percent is None
            &&& r.energy_wh is None
            &&& r.discharge_power_w is None
            &&& r.state@ == "Unknown"@
            &&& !r.charge_limit_supported
            &&& r.active_charge_limit_percent is None
        },
{
}

/// The machine runs on its battery exactly where the status file says "discharging", whatever the
/// case of its letters.
pub proof fn law_discharging_is_what_the_file_says(status: Option<String>, r: bool)
    requires
        call_ensures(is_discharging, (&status,), r),
    ensures
        r <==> status is Some && text::same_but_for_ascii_case(
            text::trimmed(status->0@),
            "discharging"@,
        ),
{
    reveal_strlit("discharging");
    if status is Some {
        text::law_case_is_ignored_throughout(text::trimmed(status->0@), "discharging"@);
    }
}

/// A charge limit is written exactly where it can be chosen and the battery takes one: as its
/// digits and a line feed, which read back as the limit.
pub proof fn law_charge_limit_is_written_to_the_battery(
    limit: u8,
    supplies: Option<Vec<PowerSupply>>,
    r: Result<ThresholdWrite, String>,
    battery: Option<usize>,
)
    requires
        call_ensures(set_charge_limit, (limit, &supplies), r),
        call_ensures(find_battery_path, (&supplies,), battery),
    ensures
        r matches Ok(write) ==> {
            &&& limit == 80 || limit == 90 || limit == 100
            &&& battery == Some(write.battery)
            &&& supplies is Some
            &&& supplies->0@[write.battery as int].has_threshold
            &&& byte_reading(Some(write.text)) == Some(limit)
            &&& write.text@.last() == '\n'
        },
        (limit == 80 || limit == 90 || limit == 100) && battery is Some && supplies is Some
            && supplies->0@[battery->0 as int].has_threshold ==> r is Ok,
        r matches Err(e) ==> (if !(limit == 80 || limit == 90 || limit == 100) {
            e@ == "Unsupported charge limit "@ + text::decimal(limit as nat)
                + "%; choose 80%, 90%, or 100%"@
        } else if battery is None {
            e@ == "No system battery was found"@
        } else {
            e@ == "The kernel does not expose an ASUS charge-limit interface"@
        }),
{
    let all = supplies_of(supplies);
    reveal_strlit("\n");
    if let Some(at) = battery {
        assert(is_battery(all[at as int]));
        lemma_first_battery_is_one(all, at as int);
    }
    if let Ok(write) = r {
        law_written_limit_reads_back(limit, write.text);
        assert(is_battery(all[write.battery as int]));
        assert(has_battery(all));
    }
}

proof fn lemma_first_battery_is_one(supplies: Seq<PowerSupply>, at: int)
    requires
        first_battery(supplies, at),
    ensures
        forall|other: int| #[trigger] first_battery(supplies, other) ==> other == at,
{
    assert forall|other: int| #[trigger] first_battery(supplies, other) implies other == at by {
        assert(is_battery(supplies[at]));
        assert(is_battery(supplies[other]));
    }
}

/// A limit counts as set exactly where the kernel reports it afterwards; a write that failed is
/// told with its file and its reason.
pub proof fn law_charge_limit_needs_confirmation(
    limit: u8,
    path: &str,
    outcome: Result<BatteryFiles, ThresholdError>,
    r: Result<BatteryStatus, String>,
)
    requires
        call_ensures(finish_charge_limit, (limit, path, outcome), r),
    ensures
        r is Ok <==> (outcome matches Ok(files) && byte_reading(
            files.charge_control_end_threshold,
        ) == Some(limit)),
        outcome matches Ok(files) ==> {
            &&& r is Ok ==> tells(files, limit, r->Ok_0)
            &&& r is Err ==> r->Err_0@ == "The firmware accepted "@ + text::decimal(limit as nat)
                + "% but the kernel did not confirm the new limit"@
        },
        outcome matches Err(error) ==> r->Err_0@
            == "Failed to set the battery charge limit through "@ + path@ + ": "@ + (match error {
            ThresholdError::PermissionDenied =>
                "permission denied; reinstall or restart the root system daemon"@,
            ThresholdError::Other(reason) => reason@,
        }),
{
}

/// A refused write is explained by what to do about it; any other failure is told as it is.
pub proof fn law_refused_write_is_explained(error: ThresholdError, r: String)
    requires
        call_ensures(explain_threshold_error, (error,), r),
    ensures
        error is PermissionDenied ==> r@
            == "permission denied; reinstall or restart the root system daemon"@,
        error matches ThresholdError::Other(reason) ==> r@ == reason@,
{
}

}
