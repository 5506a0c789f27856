use jetsonscope::control::ControlManager;
use jetsonscope::hardware::JetsonHardware;
use jetsonscope::health::DaemonHealth;
use jetsonscope::metrics::{control_metrics, health_metrics, milli_string, stats_metrics};
use jetsonscope::parser::TegraStats;
use jetsonscope::server::{authorize_request, http_reply, HttpReply};

#[test]
fn health_metrics_text() {
    let h = DaemonHealth {
        uptime_secs: 12,
        total_requests: 7,
        errors: 1,
        last_error: None,
        connected_clients: 0,
        stats_collected: 5,
    };
    let text = health_metrics(&h);
    assert!(text.starts_with("# HELP jetsonscope_uptime_seconds Daemon uptime in seconds\n# TYPE jetsonscope_uptime_seconds gauge\njetsonscope_uptime_seconds 12\n"));
    assert!(text.contains("jetsonscope_requests_total 7\n"));
    assert!(text.contains("# TYPE jetsonscope_errors_total counter\njetsonscope_errors_total 1\n"));
    assert!(text.contains("jetsonscope_stats_collected_total 5\n"));
    assert!(text.ends_with("jetsonscope_connected_clients 0\n"));
}

#[test]
fn stats_metrics_text() {
    let stats = TegraStats::parse("RAM 2257/30536MB (lfb 5392x4MB) CPU [10%@729,off] GR3D_FREQ 0%@[305] CPU@41.375C CV0@-256C VDD_IN 5704mW/5600mW MTS fg 3% bg 9%").unwrap();
    let text = stats_metrics(&stats);
    assert!(text.contains(&format!("jetsonscope_ram_bytes_total {}\n", 30536u64 * 1_048_576)));
    assert!(text.contains("jetsonscope_ram_lfb_blocks 5392\n"));
    assert!(text.contains("jetsonscope_cpu_core_load_percent{core=\"0\"} 10\n"));
    assert!(text.contains("jetsonscope_cpu_core_freq_mhz{core=\"0\"} 729\n"));
    assert!(!text.contains("{core=\"1\"}"));
    assert!(text.contains("jetsonscope_engine_usage_percent{engine=\"GR3D\"} 0\n"));
    assert!(text.contains("jetsonscope_engine_freq_mhz{engine=\"GR3D\"} 305\n"));
    assert!(text.contains("jetsonscope_temp_celsius{sensor=\"CPU\"} 41.375\n"));
    assert!(text.contains("jetsonscope_temp_celsius{sensor=\"CV0\"} -256\n"));
    assert!(text.contains("jetsonscope_power_mw_current{rail=\"VDD_IN\"} 5704\n"));
    assert!(text.contains("jetsonscope_power_mw_average{rail=\"VDD_IN\"} 5600\n"));
    assert!(text.ends_with("jetsonscope_mts_usage_bg_percent 9\n"));
    assert!(!text.contains("swap"));
}

#[test]
fn control_metrics_text() {
    let mut hw = JetsonHardware::default();
    hw.is_jetson = true;
    let mut ctrl = ControlManager::mock(hw);
    ctrl.set_fan(80);
    ctrl.set_cpu_governor("performance").unwrap();
    let text = control_metrics(ctrl.status());
    assert!(text.starts_with("# HELP jetsonscope_control_supported Control supported flag\n"));
    assert!(text.contains("jetsonscope_control_supported{control=\"fan\"} 1\n"));
    assert!(text.contains("jetsonscope_control_jetson_clocks_on 0\n"));
    assert!(text.contains("jetsonscope_control_fan_percent 80\n"));
    assert!(text.contains("jetsonscope_control_nvpmodel_mode{mode=\"MODE_0\"} 1\n"));
    assert!(text.contains("jetsonscope_control_nvpmodel_supported_modes{mode=\"MODE_1\"} 1\n"));
    assert!(text.contains("jetsonscope_control_cpu_governor{governor=\"performance\"} 1\n"));
    assert!(text.contains("jetsonscope_control_gpu_railgate 1\n"));
    assert!(!text.contains("last_error"));
    ctrl.set_fan(200);
    let text = control_metrics(ctrl.status());
    assert!(text.contains("jetsonscope_control_last_error{message=\"Valor de fan inválido: 200. Rango válido: 0-100\"} 1\n"));
}

#[test]
fn thousandths_are_written_as_decimals() {
    assert_eq!(milli_string(41_375), "41.375");
    assert_eq!(milli_string(46_400), "46.4");
    assert_eq!(milli_string(-256_000), "-256");
    assert_eq!(milli_string(0), "0");
    assert_eq!(milli_string(5), "0.005");
    assert_eq!(milli_string(-1_050), "-1.05");
}

#[test]
fn bearer_tokens_gate_http() {
    let values = vec!["Basic abc".to_string(), "Bearer s3cr3t".to_string()];
    assert!(authorize_request(&None, &Vec::new()));
    assert!(authorize_request(&Some(String::new()), &Vec::new()));
    assert!(authorize_request(&Some("s3cr3t".into()), &values));
    assert!(authorize_request(&Some("s3cr3t".into()), &vec!["bearer s3cr3t".to_string()]));
    assert!(!authorize_request(&Some("other".into()), &values));
    assert!(!authorize_request(&Some("s3cr3t".into()), &vec!["s3cr3t".to_string()]));
}

#[test]
fn http_routes() {
    assert_eq!(http_reply("/metrics", true, false), HttpReply::Metrics);
    assert_eq!(http_reply("/metrics", false, true), HttpReply::Unauthorized);
    assert_eq!(http_reply("/debug/snapshot", false, true), HttpReply::DebugSnapshot);
    assert_eq!(http_reply("/debug/processes", true, true), HttpReply::DebugProcesses);
    assert_eq!(http_reply("/debug/other", true, true), HttpReply::NotFound);
    assert_eq!(http_reply("/debug/snapshot", true, false), HttpReply::Unauthorized);
    assert_eq!(http_reply("/", true, true), HttpReply::NotFound);
}
