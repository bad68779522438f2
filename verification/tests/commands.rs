use zenbook_duo_control::commands::battery::{get_battery_status, set_charge_limit, BatteryAnswer};
use zenbook_duo_control::commands::power::apply_performance_mode;
use zenbook_duo_control::hardware::battery::read_status;
use zenbook_duo_control::ipc::DaemonResponse;

fn error(message: &str) -> Result<DaemonResponse, String> {
    Ok(DaemonResponse::Error { message: message.to_string() })
}

fn status() -> Result<DaemonResponse, String> {
    Ok(DaemonResponse::BatteryStatus { status: read_status(&None, 90) })
}

#[test]
fn battery_status_answers_are_told_apart() {
    match get_battery_status(status()) {
        BatteryAnswer::Status(s) => assert_eq!(s.configured_charge_limit_percent, 90),
        other => panic!("{other:?}"),
    }
    match get_battery_status(error("x")) {
        BatteryAnswer::Failed(e) => assert_eq!(e, "x"),
        other => panic!("{other:?}"),
    }
    match get_battery_status(Ok(DaemonResponse::Ack)) {
        BatteryAnswer::Failed(e) => {
            assert_eq!(e, "Unexpected daemon response while reading battery status")
        }
        other => panic!("{other:?}"),
    }
    assert!(matches!(get_battery_status(Err("x".to_string())), BatteryAnswer::ReadHere));
}

#[test]
fn charge_limit_answers_are_told_apart() {
    assert_eq!(set_charge_limit(status()).unwrap().configured_charge_limit_percent, 90);
    assert_eq!(set_charge_limit(error("x")).err(), Some("x".to_string()));
    assert_eq!(
        set_charge_limit(Ok(DaemonResponse::Other)).err(),
        Some("Unexpected daemon response while setting charge limit".to_string())
    );
    assert_eq!(
        set_charge_limit(Err("x".to_string())).err(),
        Some("The system daemon is required to set the charge limit: x".to_string())
    );
}

#[test]
fn performance_mode_answers_are_told_apart() {
    assert_eq!(apply_performance_mode(Ok(DaemonResponse::Ack)), Ok(()));
    assert_eq!(apply_performance_mode(error("x")), Err("x".to_string()));
    assert_eq!(
        apply_performance_mode(status()),
        Err("Unexpected daemon response while applying performance mode".to_string())
    );
    assert_eq!(
        apply_performance_mode(Err("x".to_string())),
        Err("The system daemon is required to set performance mode: x".to_string())
    );
}
