use zenbook_duo_control::command::{
    run_command, run_command_capture, run_command_within, CommandOutput, TimedOutcome,
};
use zenbook_duo_control::ipc::{DaemonResponse, SessionBackend, SessionCommand, SessionResponse};
use zenbook_duo_control::models::display::DisplayLayout;
use zenbook_duo_control::models::settings::Real;
use zenbook_duo_control::runtime::state::RuntimeState;
use zenbook_duo_control::session::agent::{
    handle_session_command, keyboard_attached_from_runtime, register_with_daemon,
    serve_failure_text, session_response, EffectOutcome, RegistrationOutcome, ServeFailure,
    SessionEffect,
};
use zenbook_duo_control::session::backend::{
    backend_is_ready, backend_probe_order, detect_backend, detect_backend_from,
    detect_ready_backend_from, detect_session_id, ensure_gui_session_env, gui_session_env_ready,
    readiness_probe, resolve_niri_socket_from, wait_for_ready_backend, DesktopVariables,
    GuiEnvironment, NiriSocket, RuntimeEntry, WaitStep,
};
use zenbook_duo_control::session::dock::{
    apply_gnome_dock_mode, apply_kde_dock_mode, apply_niri_dock_mode,
    build_gnome_attached_fallback_args, build_gnome_dock_mode_args, dock_mode_backend,
    gnome_logical_snapshot_from_show, gnome_snapshot_matches_expected, height_or_zero,
    run_niri_command, verify_gnome_dock_mode, BackendStep, DockStep, PlaceStep,
};
use zenbook_duo_control::session::notify::{
    dock_mode_notification_message, notification_failure, send_dock_mode_notification,
    send_runtime_notification, watcher_failure, Watcher,
};
use zenbook_duo_control::session::outputs::{
    kde_output_logical_size, kde_pixel_size, niri_logical_size, niri_output_logical_size, KdeOutput,
};

#[test]
fn dock_mode_notification_mentions_bottom_screen_enabled_on_detach() {
    assert_eq!(
        dock_mode_notification_message(false),
        "Keyboard detached: bottom screen enabled"
    );
}

#[test]
fn dock_mode_notification_mentions_bottom_screen_disabled_on_attach() {
    assert_eq!(
        dock_mode_notification_message(true),
        "Keyboard attached: bottom screen disabled"
    );
}

fn scale_text(scale: f64) -> String {
    format!("{scale:.6}")
}

#[test]
fn gnome_dock_mode_detached_sets_flipped_secondary_transform() {
    let args = build_gnome_dock_mode_args(false, &scale_text(1.66));
    let joined = args.join(" ");
    assert!(joined.contains("--monitor eDP-1 --transform 180"));
    assert!(joined.contains("--monitor eDP-2 --below eDP-1 --transform normal"));
    assert!(joined.contains("--below eDP-1"));
}

#[test]
fn gnome_dock_mode_attached_explicitly_turns_off_secondary_panel() {
    let args = build_gnome_dock_mode_args(true, &scale_text(1.66));
    let joined = args.join(" ");
    assert!(joined.contains("--monitor eDP-1 --transform 180"));
    assert!(joined.contains("--monitor eDP-2 --mode off"));
}

#[test]
fn gnome_attached_fallback_targets_primary_panel_only() {
    let args = build_gnome_attached_fallback_args(&scale_text(1.66));
    let joined = args.join(" ");
    assert!(joined.contains("--monitor eDP-1 --transform 180"));
    assert!(!joined.contains("eDP-2"));
}

#[test]
fn gnome_verify_snapshot_parser_reads_logical_section_only() {
    let sample = r#"
Monitors:
└──Monitor eDP-2 (Built-in display)
Logical monitors:
├──Logical monitor #1
│  └──eDP-1 (Built-in display)
└──Logical monitor #2
   └──eDP-2 (Built-in display)
"#;
    let (has_edp1, has_edp2) = gnome_logical_snapshot_from_show(sample);
    assert!(has_edp1);
    assert!(has_edp2);
}

#[test]
fn gnome_verify_expectations_differ_for_attached_and_detached() {
    assert!(gnome_snapshot_matches_expected(true, true, false));
    assert!(!gnome_snapshot_matches_expected(true, true, true));
    assert!(gnome_snapshot_matches_expected(false, true, true));
    assert!(!gnome_snapshot_matches_expected(false, true, false));
}

fn entry(name: &str, modified: i128) -> Option<RuntimeEntry> {
    Some(RuntimeEntry { name: Some(name.to_string()), modified: Some(Some(modified)) })
}

#[test]
fn resolve_niri_socket_prefers_existing_env_socket() {
    let entries = Some(vec![entry("niri.wayland-1.env.sock", 1)]);

    let resolved = resolve_niri_socket_from(true, &entries).expect("resolve niri socket");

    assert_eq!(resolved, NiriSocket::FromEnvironment);
}

#[test]
fn resolve_niri_socket_falls_back_to_latest_runtime_socket() {
    let entries = Some(vec![
        entry("niri.wayland-1.older.sock", 0),
        entry("niri.wayland-1.newer.sock", 10_000_000),
    ]);

    let resolved = resolve_niri_socket_from(false, &entries).expect("resolve niri socket");

    assert_eq!(resolved, NiriSocket::Entry(1));
}

#[test]
fn detect_backend_falls_back_to_niri_when_socket_is_available() {
    assert_eq!(
        detect_backend_from("".to_string(), true),
        SessionBackend::Niri
    );
}

#[test]
fn detect_backend_remains_unknown_without_desktop_hint_or_socket() {
    assert_eq!(
        detect_backend_from("".to_string(), false),
        SessionBackend::Unknown
    );
}

#[test]
fn detect_ready_backend_prefers_hint_when_ready() {
    let ready = detect_ready_backend_from(SessionBackend::Kde, |backend| {
        backend == SessionBackend::Kde
    });
    assert_eq!(ready, SessionBackend::Kde);
}

#[test]
fn detect_ready_backend_falls_through_to_other_ready_backend() {
    let ready = detect_ready_backend_from(SessionBackend::Unknown, |backend| {
        backend == SessionBackend::Niri
    });
    assert_eq!(ready, SessionBackend::Niri);
}

#[test]
fn detect_ready_backend_returns_unknown_when_nothing_is_ready() {
    let ready = detect_ready_backend_from(SessionBackend::Gnome, |_| false);
    assert_eq!(ready, SessionBackend::Unknown);
}

#[test]
fn niri_sockets_are_told_by_name_and_age() {
    let entries = Some(vec![
        entry("niri.a.sock", 5),
        entry("niri.b.sock", 7),
        entry("niri.c.sock", 7),
        entry("niri.d.lock", 9),
        entry("sway.e.sock", 9),
    ]);
    assert_eq!(resolve_niri_socket_from(false, &entries), Some(NiriSocket::Entry(1)));
    assert_eq!(resolve_niri_socket_from(false, &Some(vec![entry("bus", 1)])), None);
    assert_eq!(resolve_niri_socket_from(false, &None), None);
    let unknown_age = Some(vec![
        Some(RuntimeEntry { name: Some("niri.a.sock".to_string()), modified: Some(None) }),
        entry("niri.b.sock", -1),
    ]);
    assert_eq!(resolve_niri_socket_from(false, &unknown_age), Some(NiriSocket::Entry(0)));
}

#[test]
fn unreadable_runtime_entry_ends_the_search() {
    let broken = Some(vec![entry("niri.a.sock", 5), None]);
    assert_eq!(resolve_niri_socket_from(false, &broken), None);
    let nameless =
        Some(vec![entry("niri.a.sock", 5), Some(RuntimeEntry { name: None, modified: None })]);
    assert_eq!(resolve_niri_socket_from(false, &nameless), None);
    let no_metadata = Some(vec![
        entry("niri.a.sock", 5),
        Some(RuntimeEntry { name: Some("niri.b.sock".to_string()), modified: None }),
    ]);
    assert_eq!(resolve_niri_socket_from(false, &no_metadata), None);
    let irrelevant = Some(vec![
        entry("niri.a.sock", 5),
        Some(RuntimeEntry { name: Some("bus".to_string()), modified: None }),
    ]);
    assert_eq!(resolve_niri_socket_from(false, &irrelevant), Some(NiriSocket::Entry(0)));
}

fn variables(a: Option<&str>, b: Option<&str>, c: Option<&str>) -> DesktopVariables {
    let owned = |s: Option<&str>| s.map(|s| s.to_string());
    DesktopVariables {
        xdg_current_desktop: owned(a),
        xdg_session_desktop: owned(b),
        desktop_session: owned(c),
    }
}

#[test]
fn desktop_is_named_by_the_first_variable() {
    assert_eq!(
        detect_backend(variables(Some("ubuntu:GNOME"), Some("kde"), None), true),
        SessionBackend::Gnome
    );
    assert_eq!(
        detect_backend(variables(None, Some("KDE"), Some("gnome")), false),
        SessionBackend::Kde
    );
    assert_eq!(
        detect_backend(variables(None, None, Some("Plasma")), false),
        SessionBackend::Kde
    );
    assert_eq!(
        detect_backend(variables(Some("Niri"), None, None), false),
        SessionBackend::Niri
    );
    assert_eq!(
        detect_backend(variables(Some("sway"), Some("gnome"), None), false),
        SessionBackend::Unknown
    );
    assert_eq!(detect_backend(variables(None, None, None), true), SessionBackend::Niri);
    assert_eq!(detect_session_id(Some("3".to_string())), "3");
    assert_eq!(detect_session_id(None), "unknown-session");
}

#[test]
fn hinted_backend_is_probed_first() {
    assert_eq!(backend_probe_order(SessionBackend::Gnome), vec![SessionBackend::Gnome, SessionBackend::Niri, SessionBackend::Kde]);
    assert_eq!(backend_probe_order(SessionBackend::Kde), vec![SessionBackend::Kde, SessionBackend::Niri, SessionBackend::Gnome]);
    assert_eq!(backend_probe_order(SessionBackend::Niri), vec![SessionBackend::Niri, SessionBackend::Gnome, SessionBackend::Kde]);
    assert_eq!(backend_probe_order(SessionBackend::Unknown), vec![SessionBackend::Niri, SessionBackend::Gnome, SessionBackend::Kde]);
    assert_eq!(detect_ready_backend_from(SessionBackend::Gnome, |_| true), SessionBackend::Gnome);
    assert_eq!(detect_ready_backend_from(SessionBackend::Gnome, |b| b != SessionBackend::Gnome), SessionBackend::Niri);
}

const GUI: GuiEnvironment =
    GuiEnvironment { xdg_runtime_dir: true, wayland_display: true, display: false };
const NO_GUI: GuiEnvironment =
    GuiEnvironment { xdg_runtime_dir: false, wayland_display: true, display: true };

#[test]
fn graphical_session_needs_a_display() {
    assert!(gui_session_env_ready(&GUI));
    assert!(!gui_session_env_ready(&NO_GUI));
    let bare = GuiEnvironment { xdg_runtime_dir: true, wayland_display: false, display: false };
    assert!(!gui_session_env_ready(&bare));
    assert_eq!(
        ensure_gui_session_env("Work", &bare),
        Err("Work requires XDG_RUNTIME_DIR and either WAYLAND_DISPLAY or DISPLAY".to_string())
    );
    assert_eq!(ensure_gui_session_env("Work", &GUI), Ok(()));
}

#[test]
fn readiness_is_probed_with_the_compositors_program() {
    let probe = readiness_probe(SessionBackend::Gnome, &GUI).unwrap();
    assert_eq!((probe.program.as_str(), probe.args.join(" ")), ("gdctl", "show".to_string()));
    let probe = readiness_probe(SessionBackend::Kde, &GUI).unwrap();
    assert_eq!((probe.program.as_str(), probe.args.join(" ")), ("kscreen-doctor", "-j".to_string()));
    let probe = readiness_probe(SessionBackend::Niri, &NO_GUI).unwrap();
    assert_eq!(
        (probe.program.as_str(), probe.args.join(" ")),
        ("niri", "msg --json outputs".to_string())
    );
    assert!(readiness_probe(SessionBackend::Gnome, &NO_GUI).is_none());
    assert!(readiness_probe(SessionBackend::Kde, &NO_GUI).is_none());
    assert!(readiness_probe(SessionBackend::Unknown, &GUI).is_none());
    assert!(backend_is_ready(&Some(Ok(output(true, "", "")))));
    assert!(!backend_is_ready(&Some(Ok(output(false, "", "")))));
    assert!(!backend_is_ready(&Some(Err("x".to_string()))));
    assert!(!backend_is_ready(&None));
}

#[test]
fn backend_is_awaited_for_fifteen_seconds() {
    assert!(matches!(
        wait_for_ready_backend(SessionBackend::Kde, 20_000),
        WaitStep::Ready(SessionBackend::Kde)
    ));
    assert!(matches!(wait_for_ready_backend(SessionBackend::Unknown, 14_999), WaitStep::Wait));
    match wait_for_ready_backend(SessionBackend::Unknown, 15_000) {
        WaitStep::Failed(e) => {
            assert_eq!(e, "No supported session backend became ready before timeout")
        }
        other => panic!("{other:?}"),
    }
}

fn output(success: bool, stdout: &str, stderr: &str) -> CommandOutput {
    CommandOutput {
        success,
        stdout: stdout.as_bytes().to_vec(),
        stderr: stderr.as_bytes().to_vec(),
    }
}

#[test]
fn dock_mode_is_asked_of_the_named_backend() {
    assert!(matches!(
        dock_mode_backend(SessionBackend::Kde, None),
        BackendStep::Ask(SessionBackend::Kde)
    ));
    assert!(matches!(
        dock_mode_backend(SessionBackend::Unknown, None),
        BackendStep::FindReady
    ));
    assert!(matches!(
        dock_mode_backend(SessionBackend::Unknown, Some(SessionBackend::Niri)),
        BackendStep::Ask(SessionBackend::Niri)
    ));
    match dock_mode_backend(SessionBackend::Unknown, Some(SessionBackend::Unknown)) {
        BackendStep::Failed(e) => assert_eq!(e, "Unsupported session backend for dock mode"),
        other => panic!("{other:?}"),
    }
}

const BOTH: &str = "Monitors:\nLogical monitors:\n eDP-1 (Built-in display)\n eDP-2 (Built-in display)\n";
const MAIN: &str = "Monitors: eDP-2 (Built-in display)\nLogical monitors:\n eDP-1 (Built-in display)\n";

#[test]
fn snapshot_ends_at_a_second_heading() {
    assert_eq!(gnome_logical_snapshot_from_show(BOTH), (true, true));
    assert_eq!(gnome_logical_snapshot_from_show(MAIN), (true, false));
    assert_eq!(gnome_logical_snapshot_from_show("eDP-1 (Built-in display)"), (false, false));
    let twice = "Logical monitors:\neDP-1 (Built-in display)\nLogical monitors:\neDP-2 (Built-in display)";
    assert_eq!(gnome_logical_snapshot_from_show(twice), (true, false));
}

fn ran(out: CommandOutput) -> TimedOutcome {
    TimedOutcome::Finished(out)
}

fn step_error(step: DockStep) -> String {
    match step {
        DockStep::Failed(e) => e,
        other => panic!("{other:?}"),
    }
}

#[test]
fn gnome_dock_mode_is_verified() {
    let (mut run, step) = apply_gnome_dock_mode(false, "1.670000".to_string());
    match step {
        DockStep::Run(args) => assert_eq!(
            args.join(" "),
            "set --logical-monitor --primary --scale 1.670000 --monitor eDP-1 --transform 180 --logical-monitor --scale 1.670000 --monitor eDP-2 --below eDP-1 --transform normal"
        ),
        other => panic!("{other:?}"),
    }
    assert!(matches!(run.finished_run(ran(output(true, "", ""))), DockStep::Verify));
    assert!(matches!(run.finished_verify(ran(output(true, BOTH, ""))), DockStep::Done));
}

#[test]
fn attached_gnome_falls_back_once() {
    let (mut run, _) = apply_gnome_dock_mode(true, "2.000000".to_string());
    match run.finished_run(ran(output(false, "", "no off"))) {
        DockStep::Run(args) => assert_eq!(
            args.join(" "),
            "set --logical-monitor --primary --scale 2.000000 --monitor eDP-1 --transform 180"
        ),
        other => panic!("{other:?}"),
    }
    assert_eq!(
        step_error(run.finished_run(TimedOutcome::TimedOut)),
        "gdctl timed out after 6s (args: set --logical-monitor --primary --scale 2.000000 --monitor eDP-1 --transform 180)"
    );
    let (mut run, _) = apply_gnome_dock_mode(true, "2.000000".to_string());
    run.finished_run(ran(output(true, "", "")));
    assert_eq!(
        step_error(run.finished_verify(ran(output(true, BOTH, "")))),
        "GNOME dock-mode verify failed (attached=true, logical_edp1=true, logical_edp2=true)"
    );
}

#[test]
fn detached_gnome_does_not_fall_back() {
    let (mut run, _) = apply_gnome_dock_mode(false, "2.000000".to_string());
    assert_eq!(step_error(run.finished_run(ran(output(false, "", " no \n")))), "no");
    let (mut run, _) = apply_gnome_dock_mode(false, "2.000000".to_string());
    assert_eq!(
        step_error(run.finished_run(TimedOutcome::Failed("gone".to_string()))),
        "Failed to run gdctl: gone"
    );
}

#[test]
fn gnome_verification_failures_are_told_apart() {
    assert_eq!(verify_gnome_dock_mode(true, ran(output(true, MAIN, ""))), Ok(()));
    assert_eq!(
        verify_gnome_dock_mode(false, ran(output(true, MAIN, ""))),
        Err("GNOME dock-mode verify failed (attached=false, logical_edp1=true, logical_edp2=false)"
            .to_string())
    );
    assert_eq!(
        verify_gnome_dock_mode(true, ran(output(false, MAIN, " bad \n"))),
        Err("gdctl verification failed: bad".to_string())
    );
    assert_eq!(
        verify_gnome_dock_mode(true, TimedOutcome::TimedOut),
        Err("Failed to run gdctl verification: gdctl timed out after 2s (args: show)".to_string())
    );
    assert_eq!(
        verify_gnome_dock_mode(true, TimedOutcome::Failed("x".to_string())),
        Err("Failed to run gdctl verification: Failed to run gdctl: x".to_string())
    );
}

#[test]
fn invalid_utf8_in_a_report_is_replaced() {
    let mut broken = BOTH.as_bytes().to_vec();
    broken.push(0xff);
    let out = CommandOutput { success: true, stdout: broken, stderr: vec![] };
    assert_eq!(verify_gnome_dock_mode(false, ran(out)), Ok(()));
    let out = CommandOutput { success: false, stdout: vec![], stderr: vec![b'a', 0xff, b'\n'] };
    assert_eq!(run_command("p", &Ok(out)), Err("a\u{fffd}".to_string()));
}

fn args_of(step: PlaceStep) -> String {
    match step {
        PlaceStep::Run(args) => args.join(" "),
        other => panic!("{other:?}"),
    }
}

#[test]
fn kde_dock_mode_places_the_lower_display() {
    assert_eq!(
        args_of(apply_kde_dock_mode(true, &GUI, false, None).unwrap()),
        "output.eDP-1.enable output.eDP-2.disable"
    );
    assert!(matches!(
        apply_kde_dock_mode(false, &GUI, false, None),
        Ok(PlaceStep::AskHeight)
    ));
    assert_eq!(
        args_of(apply_kde_dock_mode(false, &GUI, false, Some(1078)).unwrap()),
        "output.eDP-1.enable output.eDP-2.enable output.eDP-1.position.0,0 output.eDP-2.position.0,1078"
    );
    assert!(matches!(apply_kde_dock_mode(false, &GUI, true, Some(1)), Ok(PlaceStep::Done)));
    assert_eq!(
        apply_kde_dock_mode(false, &NO_GUI, false, None).err(),
        Some("KDE display control requires XDG_RUNTIME_DIR and either WAYLAND_DISPLAY or DISPLAY"
            .to_string())
    );
    assert_eq!(height_or_zero(&Ok((3, 4))), 4);
    assert_eq!(height_or_zero(&Err("x".to_string())), 0);
}

fn niri_commands(attached: bool, found: i64) -> (Vec<String>, Vec<usize>) {
    let mut height = None;
    let mut commands = Vec::new();
    let mut asked = Vec::new();
    loop {
        match apply_niri_dock_mode(attached, commands.len(), height) {
            PlaceStep::Run(args) => commands.push(args.join(" ")),
            PlaceStep::AskHeight => {
                asked.push(commands.len());
                height = Some(found);
            }
            PlaceStep::Done => return (commands, asked),
        }
    }
}

#[test]
fn niri_dock_mode_is_a_list_of_commands() {
    let (commands, asked) = niri_commands(true, 9);
    assert_eq!(commands, vec!["msg output eDP-1 on", "msg output eDP-2 off"]);
    assert!(asked.is_empty());
    let (commands, asked) = niri_commands(false, -9);
    assert_eq!(
        commands,
        vec![
            "msg output eDP-1 on",
            "msg output eDP-2 on",
            "msg output eDP-1 position set 0 0",
            "msg output eDP-2 position set 0 -9"
        ]
    );
    assert_eq!(asked, vec![2]);
    assert_eq!(run_niri_command(&Ok(output(true, "", "x"))), Ok(()));
    assert_eq!(run_niri_command(&Ok(output(false, "", " x "))), Err("x".to_string()));
    assert_eq!(
        run_niri_command(&Err("x".to_string())),
        Err("Failed to run niri msg: x".to_string())
    );
}

#[test]
fn program_failures_are_told_apart() {
    assert_eq!(run_command("p", &Ok(output(true, "", "x"))), Ok(()));
    assert_eq!(run_command("p", &Err("x".to_string())), Err("Failed to run p: x".to_string()));
    let args = vec!["a".to_string(), "b".to_string()];
    assert_eq!(
        run_command_within("p", &args, 6, TimedOutcome::TimedOut),
        Err("p timed out after 6s (args: a b)".to_string())
    );
    assert_eq!(run_command_within("p", &args, 6, ran(output(true, "", ""))), Ok(()));
    let captured = run_command_capture("p", &args, 6, ran(output(false, "o", ""))).unwrap();
    assert_eq!(captured.stdout, b"o".to_vec());
}

#[test]
fn niri_size_is_read_from_both_shapes() {
    let array = r#"[{"name":"HDMI"},{"name":"eDP-1","logical":{"width":1724,"height":1078}}]"#;
    let object = r#"{"z":{"name":"eDP-1","logical":{"width":1,"height":2}},"a":{"name":"eDP-1","logical":{"width":3}}}"#;
    let size = |json: &str| niri_output_logical_size("eDP-1", &Ok(output(true, json, "")));
    assert_eq!(size(array), Ok((1724, 1078)));
    assert_eq!(size(object), Ok((3, 0)));
    assert_eq!(size("[]"), Err("Niri output eDP-1 not found".to_string()));
    assert_eq!(size(r#"[{"name":"eDP-1"}]"#), Err("Missing niri logical size".to_string()));
    assert_eq!(
        size(r#"[{"name":"eDP-1","logical":[1]}]"#),
        Err("Missing niri logical size".to_string())
    );
    assert_eq!(size("3"), Err("Unexpected niri outputs shape".to_string()));
    let invalid = size("{").unwrap_err();
    assert!(invalid.starts_with("Invalid niri JSON: EOF"), "{invalid}");
}

#[test]
fn niri_failures_are_told_apart() {
    assert_eq!(
        niri_output_logical_size("eDP-1", &Err("x".to_string())),
        Err("Failed to run niri msg: x".to_string())
    );
    assert_eq!(
        niri_output_logical_size("eDP-1", &Ok(output(false, "[]", " bad "))),
        Err("bad".to_string())
    );
    let document: serde_json::Value = serde_json::from_str(r#"[{"name":"n","logical":{"width":1.5,"height":"2"}}]"#).unwrap();
    assert_eq!(niri_logical_size(&document, "n"), Ok((0, 0)));
}

#[test]
fn kde_size_is_read_with_its_scale() {
    let json = r#"{"outputs":[{"name":"eDP-1","size":{"width":2880,"height":1800},"scale":1.67},{"name":"eDP-2","size":{}}]}"#;
    let size = |name: &str, json: &str| kde_output_logical_size(name, &GUI, &Ok(output(true, json, "")));
    assert_eq!(
        size("eDP-1", json),
        Ok(KdeOutput { width: 2880, height: 1800, scale: Some(Real { bits: 1.67f64.to_bits() }) })
    );
    assert_eq!(size("eDP-2", json), Ok(KdeOutput { width: 0, height: 0, scale: None }));
    assert_eq!(size("DP-1", json), Err("KDE output DP-1 not found".to_string()));
    assert_eq!(size("DP-1", "{}"), Err("Missing KDE outputs array".to_string()));
    assert_eq!(
        size("a", r#"{"outputs":[{"name":"a"}]}"#),
        Err("Missing KDE output size".to_string())
    );
    let integer: serde_json::Value =
        serde_json::from_str(r#"{"outputs":[{"name":"a","size":{"width":4},"scale":2}]}"#).unwrap();
    assert_eq!(
        kde_pixel_size(&integer, "a"),
        Ok(KdeOutput { width: 4, height: 0, scale: Some(Real { bits: 2.0f64.to_bits() }) })
    );
    assert_eq!(
        kde_output_logical_size("a", &NO_GUI, &Ok(output(true, json, ""))),
        Err("KDE display query requires XDG_RUNTIME_DIR and either WAYLAND_DISPLAY or DISPLAY"
            .to_string())
    );
    assert_eq!(
        kde_output_logical_size("a", &GUI, &Err("x".to_string())),
        Err("Failed to run kscreen-doctor: x".to_string())
    );
    assert!(size("a", "x").unwrap_err().starts_with("Invalid kscreen JSON: "));
}

#[test]
fn notifications_name_their_urgency_and_bus() {
    let command = send_runtime_notification("T", "M", true, Some("/run/1".to_string()), None).unwrap();
    assert_eq!(
        command.args,
        vec!["-a", "Zenbook Duo Control", "-u", "critical", "-i", "input-keyboard", "T", "M"]
    );
    assert_eq!(command.xdg_runtime_dir, "/run/1");
    assert_eq!(command.dbus_session_bus_address, "unix:path=/run/1/bus");
    let command =
        send_dock_mode_notification(true, Some("/r".to_string()), Some("bus".to_string())).unwrap();
    assert_eq!(command.args[3], "normal");
    assert_eq!(command.args[6], "Zenbook Duo Control");
    assert_eq!(command.args[7], "Keyboard attached: bottom screen disabled");
    assert_eq!(command.dbus_session_bus_address, "bus");
    assert_eq!(
        send_dock_mode_notification(true, None, None).err(),
        Some("XDG_RUNTIME_DIR is not set for runtime notifications".to_string())
    );
    assert_eq!(notification_failure("x"), "Failed to launch runtime notification: x");
    assert_eq!(watcher_failure(Watcher::Rotation, "x"), "Rotation watcher failed: x");
    assert_eq!(watcher_failure(Watcher::Brightness, "x"), "Brightness sync watcher failed: x");
    assert_eq!(watcher_failure(Watcher::Hotkeys, "x"), "Keyboard hotkey watcher failed: x");
}

#[test]
fn requests_become_effects_and_answers() {
    assert!(matches!(
        handle_session_command(SessionCommand::GetDisplayLayout),
        SessionEffect::QueryLayout
    ));
    assert!(matches!(
        handle_session_command(SessionCommand::OpenEmojiPicker),
        SessionEffect::Acknowledge
    ));
    assert!(matches!(
        handle_session_command(SessionCommand::SetDockMode { attached: true, scale: Real { bits: 5 } }),
        SessionEffect::ApplyDockMode { attached: true, scale: Real { bits: 5 } }
    ));
    assert!(matches!(session_response(EffectOutcome::Done(Ok(()))), SessionResponse::Ack));
    assert!(matches!(
        session_response(EffectOutcome::Layout(Ok(DisplayLayout { displays: vec![] }))),
        SessionResponse::DisplayLayout { .. }
    ));
    for outcome in [
        EffectOutcome::Done(Err("x".to_string())),
        EffectOutcome::Layout(Err("x".to_string())),
    ] {
        match session_response(outcome) {
            SessionResponse::Error { message } => assert_eq!(message, "x"),
            other => panic!("{other:?}"),
        }
    }
}

#[test]
fn answers_fit_their_requests() {
    let layout = || DisplayLayout { displays: vec![] };
    let asked = [
        SessionCommand::GetDisplayLayout,
        SessionCommand::SetDockMode { attached: true, scale: Real { bits: 5 } },
        SessionCommand::ApplyDisplayLayout { layout: layout() },
        SessionCommand::OpenEmojiPicker,
    ];
    for command in asked {
        let for_layout = matches!(command, SessionCommand::GetDisplayLayout);
        let outcome = match handle_session_command(command) {
            SessionEffect::QueryLayout => EffectOutcome::Layout(Ok(layout())),
            _ => EffectOutcome::Done(Ok(())),
        };
        match session_response(outcome) {
            SessionResponse::DisplayLayout { .. } => assert!(for_layout),
            SessionResponse::Ack => assert!(!for_layout),
            other => panic!("{other:?}"),
        }
    }
}

#[test]
fn serving_failures_are_told_apart() {
    let x = || "x".to_string();
    let cases = [
        (ServeFailure::Accept(x()), "Failed to accept session-agent client: x"),
        (ServeFailure::Bind(x()), "Failed to bind session agent socket: x"),
        (ServeFailure::Read(x()), "Failed to read session command: x"),
        (ServeFailure::Decode(x()), "Invalid session command JSON: x"),
        (ServeFailure::Encode(x()), "Failed to encode session response: x"),
        (ServeFailure::Write(x()), "Failed to write session response: x"),
        (ServeFailure::Terminate(x()), "Failed to terminate session response: x"),
    ];
    for (failure, expected) in cases {
        assert_eq!(serve_failure_text(&failure), expected);
    }
}

#[test]
fn registration_failures_are_told_apart() {
    let x = || "x".to_string();
    let answered = |response: DaemonResponse| RegistrationOutcome::Answered {
        response,
        rendered: "R".to_string(),
    };
    assert_eq!(register_with_daemon(answered(DaemonResponse::Ack)), Ok(()));
    let cases = [
        (answered(DaemonResponse::Error { message: x() }), "x"),
        (answered(DaemonResponse::Other), "Unexpected daemon registration response: R"),
        (RegistrationOutcome::ConnectFailed(x()), "Failed to connect to daemon socket: x"),
        (RegistrationOutcome::EncodeFailed(x()), "Failed to encode registration: x"),
        (RegistrationOutcome::SendFailed(x()), "Failed to send registration: x"),
        (RegistrationOutcome::TerminateFailed(x()), "Failed to terminate registration: x"),
        (RegistrationOutcome::ReadFailed(x()), "Failed reading daemon registration reply: x"),
        (RegistrationOutcome::Closed, "Daemon closed before replying to session registration"),
        (RegistrationOutcome::DecodeFailed(x()), "Invalid daemon registration response: x"),
    ];
    for (outcome, expected) in cases {
        assert_eq!(register_with_daemon(outcome), Err(expected.to_string()));
    }
}

#[test]
fn unknown_state_counts_as_detached() {
    assert!(!keyboard_attached_from_runtime(&None));
    let mut state = RuntimeState::default();
    state.status.keyboard_attached = true;
    assert!(keyboard_attached_from_runtime(&Some(state)));
}
