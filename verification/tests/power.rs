use zenbook_duo_control::hardware::power::{
    apply_performance_mode, validate_limits, ChangeStatus, PolicyEntry, PowerStep, StepOutcome,
};
use zenbook_duo_control::models::settings::{PerformanceMode, PerformanceProfiles, PowerLimits};

const RANGE: &str = "Power limits must be within PL1 5-100 W, PL2 5-150 W, PL3 5-200 W";
const ORDER: &str = "Power limits must satisfy PL1 ≤ PL2 ≤ PL3";

fn limits(a: u16, b: u16, c: u16) -> PowerLimits {
    PowerLimits { pl1_watts: a, pl2_watts: b, pl3_watts: c }
}

#[test]
fn limits_are_checked_for_range_and_order() {
    assert_eq!(validate_limits(&limits(5, 5, 5)), Ok(()));
    assert_eq!(validate_limits(&limits(100, 150, 200)), Ok(()));
    assert_eq!(validate_limits(&limits(4, 5, 5)), Err(RANGE.to_string()));
    assert_eq!(validate_limits(&limits(101, 150, 200)), Err(RANGE.to_string()));
    assert_eq!(validate_limits(&limits(5, 151, 200)), Err(RANGE.to_string()));
    assert_eq!(validate_limits(&limits(5, 5, 201)), Err(RANGE.to_string()));
    assert_eq!(validate_limits(&limits(6, 5, 5)), Err(ORDER.to_string()));
    assert_eq!(validate_limits(&limits(5, 7, 6)), Err(ORDER.to_string()));
}

#[test]
fn default_profiles_are_accepted() {
    let profiles = PerformanceProfiles::default();
    for mode in [PerformanceMode::Quiet, PerformanceMode::Balanced, PerformanceMode::Performance] {
        assert_eq!(validate_limits(profiles.for_mode(&mode)), Ok(()));
    }
    assert_eq!(profiles.for_mode(&PerformanceMode::Quiet).pl1_watts, 12);
    assert_eq!(profiles.for_mode(&PerformanceMode::Performance).pl3_watts, 65);
}

#[test]
fn profiles_have_their_names() {
    assert_eq!(PerformanceMode::Quiet.as_asus_profile(), "quiet");
    assert_eq!(PerformanceMode::Quiet.epp(), "power");
    assert_eq!(PerformanceMode::Quiet.powerprofiles_mode(), "power-saver");
    assert_eq!(PerformanceMode::Balanced.as_asus_profile(), "balanced");
    assert_eq!(PerformanceMode::Balanced.epp(), "balance_performance");
    assert_eq!(PerformanceMode::Balanced.powerprofiles_mode(), "balanced");
    assert_eq!(PerformanceMode::Performance.as_asus_profile(), "performance");
    assert_eq!(PerformanceMode::Performance.epp(), "performance");
    assert_eq!(PerformanceMode::Performance.powerprofiles_mode(), "performance");
    assert_eq!(PerformanceMode::default(), PerformanceMode::Balanced);
}

fn policy(name: &str, has_preference: bool) -> Result<PolicyEntry, String> {
    Ok(PolicyEntry {
        path: format!("/cpufreq/{name}"),
        name: Some(name.to_string()),
        has_preference,
    })
}

fn write_of(step: &PowerStep) -> (String, String) {
    match step {
        PowerStep::Write { path, text, .. } => (path.clone(), text.clone()),
        other => panic!("{other:?}"),
    }
}

#[test]
fn change_runs_through_all_steps() {
    let mut change = apply_performance_mode(&PerformanceMode::Quiet, &limits(12, 15, 20)).unwrap();
    assert!(matches!(change.step(), PowerStep::SelectProfile { profile } if profile == "power-saver"));
    assert!(matches!(change.finished(StepOutcome::Done), ChangeStatus::Continue));
    assert_eq!(
        write_of(change.step()),
        (
            "/sys/devices/platform/asus-nb-wmi/platform-profile/platform-profile-0/profile".to_string(),
            "quiet".to_string()
        )
    );
    assert!(matches!(change.finished(StepOutcome::Done), ChangeStatus::Continue));
    assert!(matches!(change.step(), PowerStep::ListPolicies));
    let entries = vec![
        policy("policy0", true),
        policy("boost", true),
        policy("policy1", false),
        Ok(PolicyEntry { path: "/x".to_string(), name: None, has_preference: true }),
        policy("policy2", true),
    ];
    assert!(matches!(change.finished(StepOutcome::Policies(entries)), ChangeStatus::Continue));
    let mut written = Vec::new();
    loop {
        assert!(change.is_under_way());
        written.push(write_of(change.step()));
        match change.finished(StepOutcome::Done) {
            ChangeStatus::Continue => {}
            ChangeStatus::Complete => break,
            ChangeStatus::Failed(e) => panic!("{e}"),
        }
    }
    assert!(!change.is_under_way());
    let rapl = "/sys/devices/virtual/powercap/intel-rapl-mmio/intel-rapl-mmio:0";
    let expected = vec![
        ("/cpufreq/policy0/energy_performance_preference".to_string(), "power".to_string()),
        ("/cpufreq/policy2/energy_performance_preference".to_string(), "power".to_string()),
        (format!("{rapl}/constraint_0_power_limit_uw"), "12000000".to_string()),
        (format!("{rapl}/constraint_1_power_limit_uw"), "15000000".to_string()),
        (format!("{rapl}/constraint_2_power_limit_uw"), "20000000".to_string()),
    ];
    assert_eq!(written, expected);
}

fn failed(status: ChangeStatus) -> String {
    match status {
        ChangeStatus::Failed(e) => e,
        other => panic!("{other:?}"),
    }
}

#[test]
fn change_stops_at_the_first_failure() {
    let mode = PerformanceMode::Balanced;
    let fail = || StepOutcome::Failed("x".to_string());
    let mut change = apply_performance_mode(&mode, &limits(5, 6, 7)).unwrap();
    assert_eq!(failed(change.finished(fail())), "Failed to run powerprofilesctl: x");
    assert_eq!(
        failed(change.finished(StepOutcome::Refused)),
        "powerprofilesctl rejected balanced mode"
    );
    change.finished(StepOutcome::Done);
    assert_eq!(failed(change.finished(fail())), "Failed to select ASUS balanced profile: x");
    change.finished(StepOutcome::Done);
    assert_eq!(failed(change.finished(fail())), "Failed to enumerate CPU policies: x");
    change.finished(StepOutcome::Policies(vec![policy("policy0", true), Err("gone".to_string())]));
    assert_eq!(
        failed(change.finished(fail())),
        "Failed to set /cpufreq/policy0/energy_performance_preference: x"
    );
    change.finished(StepOutcome::Done);
    assert_eq!(failed(change.finished(StepOutcome::Done)), "gone");
}

#[test]
fn outcomes_fit_their_steps() {
    let failed = StepOutcome::Failed("x".to_string());
    let listed = || StepOutcome::Policies(vec![Err("gone".to_string())]);
    let mut change = apply_performance_mode(&PerformanceMode::Quiet, &limits(5, 6, 7)).unwrap();
    assert!(change.can_end_as(&StepOutcome::Done) && change.can_end_as(&StepOutcome::Refused));
    assert!(change.can_end_as(&failed) && !change.can_end_as(&listed()));
    change.finished(StepOutcome::Done);
    assert!(change.can_end_as(&StepOutcome::Done) && !change.can_end_as(&StepOutcome::Refused));
    assert!(change.can_end_as(&failed) && !change.can_end_as(&listed()));
    change.finished(StepOutcome::Done);
    assert!(!change.can_end_as(&StepOutcome::Done) && !change.can_end_as(&StepOutcome::Refused));
    assert!(change.can_end_as(&failed) && change.can_end_as(&listed()));
    change.finished(listed());
    assert!(matches!(change.step(), PowerStep::Stop { .. }));
    assert!(change.can_end_as(&StepOutcome::Done) && !change.can_end_as(&failed));
}

#[test]
fn failed_power_limit_is_named() {
    let mut change = apply_performance_mode(&PerformanceMode::Quiet, &limits(5, 6, 7)).unwrap();
    change.finished(StepOutcome::Done);
    change.finished(StepOutcome::Done);
    change.finished(StepOutcome::Policies(vec![]));
    change.finished(StepOutcome::Done);
    assert_eq!(
        failed(change.finished(StepOutcome::Failed("x".to_string()))),
        "Failed to set PL2 to 6 W: x"
    );
}

#[test]
fn change_with_bad_limits_does_not_begin() {
    assert_eq!(
        apply_performance_mode(&PerformanceMode::Quiet, &limits(0, 0, 0)).err(),
        Some(RANGE.to_string())
    );
}
