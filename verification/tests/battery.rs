use zenbook_duo_control::hardware::battery::{
    explain_threshold_error, find_battery_path, finish_charge_limit, is_discharging, read_micro_value,
    read_number, read_status, read_status_from, read_trimmed, set_charge_limit,
    validate_charge_limit, BatteryFiles, PowerSupply, ThresholdError,
};
use zenbook_duo_control::models::battery::Quantity;

fn files() -> BatteryFiles {
    BatteryFiles {
        status: None,
        present: None,
        capacity: None,
        energy_now: None,
        charge_now: None,
        voltage_now: None,
        power_now: None,
        current_now: None,
        charge_control_end_threshold: None,
        has_threshold: false,
    }
}

fn supply(name: &str, kind: Option<&str>, has_threshold: bool) -> PowerSupply {
    PowerSupply {
        name: name.as_bytes().to_vec(),
        kind: kind.map(|k| k.to_string()),
        has_threshold,
    }
}

fn si(q: Quantity) -> f64 {
    match q {
        Quantity::Micro(n) => n as f64 / 1_000_000.0,
        Quantity::Product(a, b) => (a as f64 * b as f64) / 1_000_000_000_000.0,
        Quantity::Units(x) => f64::from_bits(x.bits),
    }
}

#[test]
fn reads_energy_and_discharge_power_in_si_units() {
    let supplies = Some(vec![supply("BAT0", Some("Battery\n"), true)]);
    let battery = BatteryFiles {
        present: Some("1\n".to_string()),
        capacity: Some("83\n".to_string()),
        status: Some("Discharging\n".to_string()),
        energy_now: Some("79236000\n".to_string()),
        power_now: Some("10950000\n".to_string()),
        charge_control_end_threshold: Some("80\n".to_string()),
        has_threshold: true,
        ..files()
    };

    assert_eq!(find_battery_path(&supplies), Some(0));
    let status = read_status_from(&battery, 80);

    assert_eq!(status.capacity_percent, Some(83));
    assert_eq!(status.energy_wh.map(si), Some(79.236));
    assert_eq!(status.discharge_power_w.map(si), Some(10.95));
    assert_eq!(status.active_charge_limit_percent, Some(80));
    assert!(status.present);
    assert!(status.charge_limit_supported);
    assert_eq!(status.state, "Discharging");
}

#[test]
fn charging_power_is_not_reported_as_discharge() {
    let battery = BatteryFiles {
        status: Some("Charging\n".to_string()),
        power_now: Some("20000000\n".to_string()),
        ..files()
    };

    let status = read_status_from(&battery, 100);

    assert_eq!(status.discharge_power_w, None);
}

#[test]
fn accepts_only_product_charge_limit_choices() {
    assert!(validate_charge_limit(80).is_ok());
    assert!(validate_charge_limit(90).is_ok());
    assert!(validate_charge_limit(100).is_ok());
    assert!(validate_charge_limit(79).is_err());
}

#[test]
fn refused_limit_is_named() {
    assert_eq!(
        validate_charge_limit(79),
        Err("Unsupported charge limit 79%; choose 80%, 90%, or 100%".to_string())
    );
}

#[test]
fn product_of_charge_and_voltage_stands_in_for_energy() {
    let battery = BatteryFiles {
        status: Some("DISCHARGING".to_string()),
        charge_now: Some("5000000".to_string()),
        current_now: Some(" 1000000 ".to_string()),
        voltage_now: Some("15000000".to_string()),
        ..files()
    };
    let status = read_status_from(&battery, 90);
    assert_eq!(status.energy_wh, Some(Quantity::Product(5_000_000, 15_000_000)));
    assert_eq!(status.energy_wh.map(si), Some(75.0));
    assert_eq!(status.discharge_power_w.map(si), Some(15.0));
}

#[test]
fn energy_needs_both_factors() {
    let battery = BatteryFiles { charge_now: Some("5000000".to_string()), ..files() };
    assert_eq!(read_status_from(&battery, 90).energy_wh, None);
}

#[test]
fn unreadable_battery_counts_as_present_and_unknown() {
    let status = read_status_from(&files(), 100);
    assert!(status.present);
    assert_eq!(status.state, "Unknown");
    assert_eq!(status.capacity_percent, None);
    let absent = BatteryFiles { present: Some("0\n".to_string()), ..files() };
    assert!(!read_status_from(&absent, 100).present);
}

#[test]
fn capacity_beyond_a_byte_is_dropped() {
    let battery = BatteryFiles { capacity: Some("256".to_string()), ..files() };
    assert_eq!(read_status_from(&battery, 100).capacity_percent, None);
    let battery = BatteryFiles { capacity: Some("255".to_string()), ..files() };
    assert_eq!(read_status_from(&battery, 100).capacity_percent, Some(255));
}

#[test]
fn readings_are_trimmed_and_parsed() {
    assert_eq!(read_trimmed(&Some(" \n".to_string())), None);
    assert_eq!(read_trimmed(&Some(" a b\n".to_string())), Some("a b".to_string()));
    assert_eq!(read_trimmed(&None), None);
    assert_eq!(read_number(&Some("+7\n".to_string())), Some(7));
    assert_eq!(read_number(&Some("-7".to_string())), None);
    assert_eq!(read_number(&Some("18446744073709551615".to_string())), Some(u64::MAX));
    assert_eq!(read_number(&Some("18446744073709551616".to_string())), None);
    assert_eq!(read_micro_value(&Some("5".to_string())), Some(Quantity::Micro(5)));
}

#[test]
fn first_battery_by_name_is_taken() {
    let supplies = Some(vec![
        supply("BAT1", Some("Battery"), true),
        supply("AC", Some("Mains"), false),
        supply("BAT0", Some("Battery\n"), true),
        supply("BAT", Some("Battery"), true),
        supply("AAA", None, false),
    ]);
    assert_eq!(find_battery_path(&supplies), Some(3));
    assert_eq!(find_battery_path(&None), None);
    assert_eq!(find_battery_path(&Some(vec![supply("AC", Some("Mains"), false)])), None);
}

#[test]
fn missing_battery_has_the_configured_limit() {
    let status = read_status(&None, 80);
    assert!(!status.present);
    assert_eq!(status.state, "Unknown");
    assert_eq!(status.configured_charge_limit_percent, 80);
    assert_eq!(status.active_charge_limit_percent, None);
    let found = read_status(&Some(BatteryFiles { capacity: Some("5".to_string()), ..files() }), 80);
    assert_eq!(found.capacity_percent, Some(5));
}

#[test]
fn charge_limit_is_written_and_confirmed() {
    let supplies = Some(vec![supply("BAT0", Some("Battery"), true)]);
    let write = set_charge_limit(80, &supplies).unwrap();
    assert_eq!(write.battery, 0);
    assert_eq!(write.text, "80\n");
    let echoed = BatteryFiles {
        charge_control_end_threshold: Some(write.text),
        has_threshold: true,
        ..files()
    };
    let status = finish_charge_limit(80, "/t", Ok(echoed)).unwrap();
    assert_eq!(status.active_charge_limit_percent, Some(80));
    assert_eq!(status.configured_charge_limit_percent, 80);
}

#[test]
fn unconfirmed_limit_is_an_error() {
    let stale = BatteryFiles {
        charge_control_end_threshold: Some("100\n".to_string()),
        ..files()
    };
    assert_eq!(
        finish_charge_limit(80, "/t", Ok(stale)).err(),
        Some("The firmware accepted 80% but the kernel did not confirm the new limit".to_string())
    );
}

#[test]
fn charge_limit_errors_are_told_apart() {
    let bare = Some(vec![supply("BAT0", Some("Battery"), false)]);
    assert_eq!(
        set_charge_limit(70, &bare).err(),
        Some("Unsupported charge limit 70%; choose 80%, 90%, or 100%".to_string())
    );
    assert_eq!(
        set_charge_limit(80, &Some(vec![])).err(),
        Some("No system battery was found".to_string())
    );
    assert_eq!(
        set_charge_limit(80, &None).err(),
        Some("No system battery was found".to_string())
    );
    assert_eq!(
        set_charge_limit(80, &bare).err(),
        Some("The kernel does not expose an ASUS charge-limit interface".to_string())
    );
    assert_eq!(
        finish_charge_limit(80, "/t", Err(ThresholdError::PermissionDenied)).err(),
        Some(
            "Failed to set the battery charge limit through /t: permission denied; reinstall or restart the root system daemon"
                .to_string()
        )
    );
    assert_eq!(
        explain_threshold_error(ThresholdError::Other("busy".to_string())),
        "busy".to_string()
    );
}

#[test]
fn only_a_discharging_battery_counts_as_battery_power() {
    assert!(is_discharging(&Some("Discharging\n".to_string())));
    assert!(!is_discharging(&Some("Not charging\n".to_string())));
    assert!(!is_discharging(&Some("Full\n".to_string())));
    assert!(!is_discharging(&None));
}
