use jetsonscope::collector::{synthesize_from, SyntheticDraws};
use jetsonscope::control::{HostAction, HostOutcome, HostProbe};
use jetsonscope::server::finish_set_control;
use jetsonscope::collector::{
    select_source, synthesize_stats, CollectorMode, RetryDecision, SocketRetry, SourceEnv, SourceKind,
};
use jetsonscope::control::ControlManager;
use jetsonscope::hardware::JetsonHardware;
use jetsonscope::health::HealthTracker;
use jetsonscope::history::{HistoryWindow, ViewMode};
use jetsonscope::protocol::Response;
use jetsonscope::server::{
    auth_ok, check_authorization, response_encoding, set_control_step, ControlReply, Encoding,
};

fn mock_manager() -> ControlManager {
    let mut hw = JetsonHardware::default();
    hw.is_jetson = true;
    ControlManager::mock(hw)
}

fn empty_env() -> SourceEnv {
    SourceEnv {
        socket_path: None,
        default_socket_exists: false,
        legacy_socket_exists: false,
        stats_cmd: None,
        tui_mode: None,
        is_jetson: false,
    }
}

#[test]
fn health_counters_only_go_up() {
    let mut h = HealthTracker::new();
    let first = h.get_health(0);
    assert_eq!((first.total_requests, first.errors, first.stats_collected), (0, 0, 0));
    h.record_request();
    h.record_request();
    h.record_error("boom".to_string());
    h.record_stats_collection();
    let second = h.get_health(3);
    assert_eq!(second.total_requests, 2);
    assert_eq!(second.errors, 1);
    assert_eq!(second.stats_collected, 1);
    assert_eq!(second.connected_clients, 3);
    assert_eq!(second.last_error.as_deref(), Some("boom"));
    assert!(second.total_requests >= first.total_requests);
    assert!(second.errors >= first.errors);
    assert!(second.stats_collected >= first.stats_collected);
}

#[test]
fn auth_token_rules() {
    assert!(auth_ok(&None, &None));
    assert!(auth_ok(&Some(String::new()), &None));
    assert!(auth_ok(&Some("s3".into()), &Some("s3".into())));
    assert!(!auth_ok(&Some("s3".into()), &None));
    assert!(!auth_ok(&Some("s3".into()), &Some("s4".into())));
}

#[test]
fn unauthorized_set_control_is_refused_and_counted() {
    let mut h = HealthTracker::new();
    let resp = check_authorization(&mut h, &Some("s3".into()), &Some("nope".into()));
    match resp {
        Some(Response::Error(e)) => assert_eq!(e.code, "auth_failed"),
        _ => panic!("expected auth_failed"),
    }
    assert_eq!(h.get_health(0).errors, 1);
    assert!(check_authorization(&mut h, &Some("s3".into()), &Some("s3".into())).is_none());
    assert!(check_authorization(&mut h, &None, &None).is_none());
    assert_eq!(h.get_health(0).errors, 1);
}

#[test]
fn response_encoding_mirrors_the_request() {
    assert_eq!(response_encoding(true, false), Encoding::Text);
    assert_eq!(response_encoding(true, true), Encoding::Text);
    assert_eq!(response_encoding(false, true), Encoding::Binary);
    assert_eq!(response_encoding(false, false), Encoding::Text);
}

#[test]
fn set_control_replies_with_codes() {
    let mut ctrl = mock_manager();
    match set_control_step(&mut ctrl, "fan", "150") {
        ControlReply::Ready(Response::Error(e)) => {
            assert_eq!(e.code, "invalid_control");
            assert!(e.message.contains("0-100"));
        }
        _ => panic!("expected invalid_control"),
    }
    assert_eq!(ctrl.status().fan.as_deref(), Some("0%"));
    match set_control_step(&mut ctrl, "warp", "9") {
        ControlReply::Ready(Response::Error(e)) => assert_eq!(e.code, "invalid_control"),
        _ => panic!("expected invalid_control"),
    }
    match set_control_step(&mut ctrl, "fan", "60") {
        ControlReply::Ready(Response::ControlState(info)) => assert_eq!(info.value, "60%"),
        _ => panic!("expected the new state"),
    }
    let mut demo = ControlManager::new();
    match set_control_step(&mut demo, "fan", "60") {
        ControlReply::Ready(Response::Error(e)) => assert_eq!(e.code, "control_error"),
        _ => panic!("expected control_error"),
    }
}

#[test]
fn socket_retries_back_off_then_fall_back() {
    let mut retry = SocketRetry::new(CollectorMode::AutoCommand);
    let mut waits = Vec::new();
    loop {
        match retry.on_failure() {
            RetryDecision::Wait(ms) => waits.push(ms),
            RetryDecision::FallBack => break,
        }
    }
    assert_eq!(waits, [1000, 2000, 4000, 8000, 10000]);
}

#[test]
fn socket_success_resets_the_backoff() {
    let mut retry = SocketRetry::new(CollectorMode::PreferSocket);
    retry.on_failure();
    retry.on_failure();
    retry.on_success();
    assert_eq!(retry.retry_count, 0);
    assert_eq!(retry.on_failure(), RetryDecision::Wait(1000));
    let mut forever = SocketRetry::new(CollectorMode::SocketOnly);
    for _ in 0..50 {
        assert!(matches!(forever.on_failure(), RetryDecision::Wait(ms) if ms <= 10000));
    }
}

#[test]
fn source_selection_order() {
    let mut env = empty_env();
    env.socket_path = Some("/run/x.sock".into());
    env.default_socket_exists = true;
    let c = select_source(CollectorMode::AutoCommand, &env);
    assert!(matches!(c.kind, SourceKind::Socket(ref p) if p == "/run/x.sock"));
    assert_eq!(c.label, "socket /run/x.sock");

    let mut env = empty_env();
    env.legacy_socket_exists = true;
    let c = select_source(CollectorMode::AutoCommand, &env);
    assert_eq!(c.label, "socket /tmp/tegrastats.sock (legacy)");

    let env = empty_env();
    assert!(matches!(select_source(CollectorMode::SocketOnly, &env).kind, SourceKind::Synthetic));
    assert!(matches!(select_source(CollectorMode::PreferSocket, &env).kind, SourceKind::Synthetic));
    let c = select_source(CollectorMode::AutoCommand, &env);
    assert_eq!(c.label, "python emulator");

    let mut env = empty_env();
    env.stats_cmd = Some("  my-stats  --fast ".into());
    let c = select_source(CollectorMode::AutoCommand, &env);
    match c.kind {
        SourceKind::Command(args) => assert_eq!(args, ["my-stats", "--fast"]),
        _ => panic!("expected the custom command"),
    }

    let mut env = empty_env();
    env.is_jetson = true;
    let c = select_source(CollectorMode::AutoCommand, &env);
    assert_eq!(c.label, "tegrastats real");
    env.tui_mode = Some("Fake".into());
    let c = select_source(CollectorMode::AutoCommand, &env);
    assert_eq!(c.label, "python emulator");
}

#[test]
fn synthetic_snapshot_is_plausible() {
    let s = synthesize_stats();
    assert_eq!(s.cpus.len(), 8);
    assert!(s.cpus.iter().all(|c| c.load_percent.unwrap() < 100));
    assert!(s.engines.contains_key("GR3D"));
    assert!(s.power.contains_key("VDD_IN"));
    let t = s.temps.get("CPU").unwrap();
    assert!((35_000..75_000).contains(&t));
    let ram = s.ram.unwrap();
    assert_eq!(ram.total_bytes, 16_000 * 1_048_576);
    assert_eq!(s.raw, "synthetic");
    assert_eq!(s.timestamp.unwrap().len(), 19);
}

#[test]
fn history_windows_cycle() {
    let mut w = HistoryWindow::OneMinute;
    let mut labels = Vec::new();
    for _ in 0..5 {
        labels.push(w.label());
        w = w.next();
    }
    assert_eq!(labels, ["1m", "5m", "1h", "6h", "24h"]);
    assert_eq!(w, HistoryWindow::OneMinute);
    assert_eq!(HistoryWindow::SixHours.duration_secs(), 21_600);
    assert_eq!(HistoryWindow::OneHour.max_points(), 360);
    assert_eq!(HistoryWindow::TwentyFourHours.max_points(), 288);
    assert_eq!(ViewMode::Clocks.next(), ViewMode::Dashboard);
}

#[test]
fn synthetic_snapshot_from_draws() {
    let d = SyntheticDraws {
        cpu_loads: vec![1, 2, 3, 4, 5, 6, 7, 99],
        cpu_freq_picks: vec![0, 1, 2, 3, 0, 1, 2, 3],
        gpu_load: 42,
        emc_load: 7,
        temp_offsets: vec![6375, 0],
        vdd_in_current: 100,
        vdd_in_average: 200,
        vdd_cpu_current: 5,
        vdd_cpu_average: 6,
        ram_extra: 10,
        swap_extra: 20,
        timestamp: "01-02-2024 03:04:05".to_string(),
    };
    let s = synthesize_from(&d);
    assert_eq!(s.cpus[3].freq_mhz, Some(1497));
    assert_eq!(s.cpus[7].load_percent, Some(99));
    assert_eq!(s.engines.len(), 3);
    assert_eq!(s.engines.get("GR3D").and_then(|e| e.usage_percent), Some(42));
    assert_eq!(s.engines.get("NVENC").and_then(|e| e.raw_value), Some(716));
    assert_eq!(s.temps.len(), 2);
    assert_eq!(s.temps.get("CPU"), Some(41_375));
    assert_eq!(s.temps.get("GPU"), Some(35_000));
    let rail = s.power.get("VDD_IN").unwrap();
    assert_eq!((rail.current_mw, rail.average_mw), (7100, 7200));
    assert_eq!(s.power.get("VDD_CPU").map(|p| p.average_mw), Some(1006));
    assert_eq!(s.ram.unwrap().used_bytes, 16_000 * 1_048_576 / 2 + 10);
    assert_eq!(s.swap.unwrap().used_bytes, 8_000 * 1_048_576 / 4 + 20);
    assert_eq!(s.timestamp.as_deref(), Some("01-02-2024 03:04:05"));
}

#[test]
fn host_outcomes_give_replies() {
    let mut hw = JetsonHardware::default();
    hw.is_jetson = true;
    let mut probe = HostProbe::none();
    probe.jetson_clocks_installed = true;
    probe.jetson_clocks = Some(false);
    probe.fan_present = true;
    let mut ctrl = ControlManager::with_hardware(hw, probe);
    let action = match set_control_step(&mut ctrl, "fan", "40") {
        ControlReply::Perform(a) => a,
        _ => panic!("expected a host action"),
    };
    assert_eq!(action, HostAction::SetFan(40));
    match finish_set_control(&mut ctrl, "fan", action, HostOutcome::Done) {
        Response::ControlState(info) => assert_eq!(info.value, "40%"),
        _ => panic!("expected the new state"),
    }
    match finish_set_control(&mut ctrl, "jetson_clocks", HostAction::ToggleJetsonClocks, HostOutcome::Done) {
        Response::Error(e) => {
            assert_eq!(e.code, "control_error");
            assert_eq!(e.message, "No se pudo leer estado jetson_clocks");
        }
        _ => panic!("expected control_error"),
    }
    match finish_set_control(&mut ctrl, "jetson_clocks", HostAction::ToggleJetsonClocks, HostOutcome::ClocksNow(true)) {
        Response::ControlState(info) => assert_eq!(info.value, "on"),
        _ => panic!("expected the new state"),
    }
    match finish_set_control(&mut ctrl, "fan", HostAction::SetFan(70), HostOutcome::Failed("boom".into())) {
        Response::Error(e) => assert_eq!((e.code.as_str(), e.message.as_str()), ("control_error", "boom")),
        _ => panic!("expected control_error"),
    }
    assert_eq!(ctrl.status().fan.as_deref(), Some("40%"));
}

#[test]
fn auth_failure_is_kept_as_last_error() {
    let mut h = HealthTracker::new();
    check_authorization(&mut h, &Some("s3".into()), &None);
    assert_eq!(h.get_health(0).last_error.as_deref(), Some("Auth failed (set JETSONSCOPE_AUTH_TOKEN)"));
}
