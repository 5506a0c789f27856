use jetsonscope::client::{request_for, wants_binary};
use jetsonscope::control::{
    clocks_state_from, fan_from_output, gpu_devfreq_path, gpu_power_control_path, is_cpu_dir,
    nvpmodel_from_query, preset_settings, ControlManager,
};
use jetsonscope::hardware::{
    board_from_dts, clean_device_text, cuda_arch_for, detect_hw_meta, l4t_version_from,
    soc_from_compatible, unique_names, BoardFiles, JetsonHardware,
};
use jetsonscope::parser::{bytes_to_mb, unit_label, SizeUnit};
use jetsonscope::protocol::Request;
use jetsonscope::server::sanitize_label;

const CONF: &str = "< PARAM TYPE=FILE NAME=CPU_ONLINE >\n< MODEL ID=0 NAME=MAXN >\nCPU_ONLINE CORE_0 1\n< POWER_MODEL ID=1 NAME=15W >\n< MODEL ID=1 NAME=15W >\nVDD_IN 1 VDD_CPU_GPU_CV 2\n  < MODEL ID=2 NAME=30W >\nVDD_IN again VDD_SOC\n";

#[test]
fn l4t_version_from_release_file() {
    let content = "# R35 (release), REVISION: 4.1, GCID: 33958178, BOARD: t186ref, EABI: aarch64, DATE: Tue Aug  1 19:57:35 UTC 2023";
    assert_eq!(l4t_version_from(content), "35.4.1");
    assert_eq!(l4t_version_from("no commas here"), "Unknown");
}

#[test]
fn nvpmodel_modes_and_rails_from_conf() {
    assert_eq!(JetsonHardware::detect_nvpmodel_modes(CONF), ["MAXN", "15W", "30W"]);
    assert_eq!(JetsonHardware::detect_power_rails(CONF), ["VDD_IN", "VDD_CPU_GPU_CV", "VDD_SOC"]);
    assert_eq!(JetsonHardware::detect_power_rails(""), ["VDD_IN", "VDD_CPU", "VDD_GPU", "VDD_SOC", "VDD_WIFI"]);
    assert!(JetsonHardware::detect_nvpmodel_modes("").is_empty());
}

#[test]
fn soc_cuda_and_board_identity() {
    assert_eq!(soc_from_compatible("nvidia,p3737-0000+p3701-0000\0nvidia,tegra234\0\0").as_deref(), Some("tegra234"));
    assert_eq!(soc_from_compatible("\0\0"), None);
    assert_eq!(cuda_arch_for("tegra234").as_deref(), Some("8.7"));
    assert_eq!(cuda_arch_for("tegra999"), None);
    let dts = "/dvs/git/hardware/nvidia/platform/t23x/p3768/kernel-dts/tegra234-p3767-0003-p3768-0000-a0.dts";
    assert_eq!(
        board_from_dts(dts),
        Some(("p3767-0003".to_string(), "NVIDIA Jetson Orin Nano (8GB)".to_string()))
    );
    assert_eq!(board_from_dts("/p3767-0003/other.dts"), None);
    assert_eq!(clean_device_text("\0 Jetson AGX Orin \0\0"), "Jetson AGX Orin");
    assert_eq!(unique_names(&vec![" schedutil\n".into(), "".into(), "schedutil".into(), "performance".into()]), ["schedutil", "performance"]);
}

#[test]
fn hardware_from_files() {
    let files = BoardFiles {
        nv_tegra_release: Some("# R35 (release), REVISION: 4.1, GCID: 1".into()),
        model: Some("NVIDIA Jetson AGX Orin Developer Kit\0".into()),
        compatible: Some("nvidia,p3737-0000+p3701-0000\0nvidia,tegra234\0".into()),
        serial_number: Some("1421022001234\0".into()),
        dts_filename: Some("/x/tegra234-p3701-0000-p3737-0000.dts".into()),
        nvpmodel_conf: Some(CONF.into()),
        cpu_governors: vec!["schedutil\n".into(), "schedutil\n".into()],
        thermal_types: vec!["cpu-thermal\n".into(), "gpu-thermal\n".into()],
    };
    let hw = JetsonHardware::detect(&files);
    assert!(hw.is_jetson);
    assert_eq!(hw.l4t_version, "35.4.1");
    assert_eq!(hw.jetpack_version, "5.1.2");
    assert_eq!(hw.model, "NVIDIA Jetson AGX Orin Developer Kit");
    assert_eq!(hw.soc, "tegra234");
    assert_eq!(hw.cuda_arch, "8.7");
    assert_eq!(hw.board_id, "p3701-0000");
    assert_eq!(hw.module, "NVIDIA Jetson AGX Orin");
    assert_eq!(hw.serial_number, "1421022001234");
    assert_eq!(hw.governors, ["schedutil"]);
    assert_eq!(hw.sensors, ["cpu-thermal", "gpu-thermal"]);
    assert_eq!(hw.nvpmodel_modes, ["MAXN", "15W", "30W"]);
    assert_eq!(hw.engines.len(), 6);

    let none = BoardFiles {
        nv_tegra_release: None,
        model: None,
        compatible: None,
        serial_number: None,
        dts_filename: None,
        nvpmodel_conf: None,
        cpu_governors: Vec::new(),
        thermal_types: Vec::new(),
    };
    let hw = JetsonHardware::detect(&none);
    assert!(!hw.is_jetson);
    assert_eq!(hw.model, "Generic Host (Emulator Mode)");
    assert!(hw.governors.is_empty() && hw.power_rails.is_empty());
}

#[test]
fn fan_and_host_meta() {
    assert!(JetsonHardware::detect_fan(&vec!["coretemp\n".into(), "pwm-fan\n".into()]));
    assert!(!JetsonHardware::detect_fan(&vec!["coretemp\n".into()]));
    let meta = detect_hw_meta(Some("# R35 (release)\n".into()), false, Some("orin\n".into()));
    assert!(meta.is_jetson);
    assert_eq!(meta.nv_tegra_release.as_deref(), Some("# R35 (release)"));
    assert_eq!(meta.hostname.as_deref(), Some("orin"));
    assert!(detect_hw_meta(None, true, None).is_jetson);
    assert!(!detect_hw_meta(None, false, None).is_jetson);
}

#[test]
fn host_paths_and_cpu_directories() {
    assert_eq!(gpu_devfreq_path(false, true).as_deref(), Some("/sys/devices/17000000.gp10b/devfreq/17000000.gp10b"));
    assert_eq!(gpu_devfreq_path(true, true).as_deref(), Some("/sys/devices/17000000.gv11b/devfreq/17000000.gv11b"));
    assert_eq!(gpu_devfreq_path(false, false), None);
    assert_eq!(gpu_power_control_path(true, false).as_deref(), Some("/sys/devices/17000000.gv11b/power/control"));
    assert!(is_cpu_dir("cpu0"));
    assert!(is_cpu_dir("cpu11"));
    assert!(!is_cpu_dir("cpufreq"));
    assert!(!is_cpu_dir("gpu0"));
}

#[test]
fn utility_output_is_read() {
    assert_eq!(clocks_state_from("SOC family:tegra234\nCPU Cluster Switching: Disabled\n"), Some(false));
    assert_eq!(clocks_state_from("jetson_clocks ENABLED"), Some(true));
    assert_eq!(clocks_state_from("nothing"), None);
    assert_eq!(nvpmodel_from_query("NV Power Mode: MAXN\n0\n").as_deref(), Some("NV Power Mode: MAXN"));
    assert_eq!(nvpmodel_from_query("nothing\n"), None);
    assert_eq!(fan_from_output("  42 \nrest").as_deref(), Some("42"));
    assert_eq!(fan_from_output("\n"), None);
}

#[test]
fn presets_touch_only_listed_controls() {
    let mut hw = JetsonHardware::default();
    hw.is_jetson = true;
    let controls = ControlManager::mock(hw).list_controls();
    let perf = preset_settings("performance", &controls).unwrap();
    assert_eq!(
        perf,
        [
            ("jetson_clocks".to_string(), "on".to_string()),
            ("cpu_governor".to_string(), "performance".to_string()),
            ("gpu_governor".to_string(), "performance".to_string()),
        ]
    );
    let balanced = preset_settings("balanced", &controls[1..].to_vec()).unwrap();
    assert_eq!(
        balanced,
        [
            ("cpu_governor".to_string(), "ondemand".to_string()),
            ("gpu_governor".to_string(), "nvhost_podgov".to_string()),
        ]
    );
    assert!(preset_settings("turbo", &controls).is_none());
}

#[test]
fn client_requests_and_encoding() {
    let args = |v: &[&str]| v.iter().map(|s| s.to_string()).collect::<Vec<String>>();
    assert!(matches!(request_for(&args(&["ctl"]), None), Ok(Request::GetStats)));
    assert!(matches!(request_for(&args(&["ctl", "meta"]), None), Ok(Request::GetMeta)));
    assert!(matches!(request_for(&args(&["ctl", "list"]), None), Ok(Request::ListControls)));
    assert!(matches!(request_for(&args(&["ctl", "set", "fan"]), None), Err(_)));
    match request_for(&args(&["ctl", "set", "fan", "80"]), Some("t".into())) {
        Ok(Request::SetControl { control, value, token }) => {
            assert_eq!((control.as_str(), value.as_str(), token.as_deref()), ("fan", "80", Some("t")));
        }
        _ => panic!("expected a SetControl"),
    }
    assert!(wants_binary(&Some("CBOR".into())));
    assert!(!wants_binary(&Some("json".into())));
    assert!(!wants_binary(&None));
}

#[test]
fn small_helpers() {
    assert_eq!(sanitize_label("say \"hi\""), "say 'hi'");
    assert_eq!(bytes_to_mb(3 * 1_048_576 + 5), 3);
    assert_eq!(unit_label(SizeUnit::KB), "KB");
    assert_eq!(unit_label(SizeUnit::MB), "MB");
}

#[test]
fn line_endings_and_small_limits() {
    assert_eq!(nvpmodel_from_query("a\r\nNV Power Mode: 15W\r\n").as_deref(), Some("NV Power Mode: 15W"));
    assert_eq!(JetsonHardware::detect_nvpmodel_modes("< MODEL ID=0 NAME=A >\r\n< MODEL ID=1 NAME=B >"), ["A", "B"]);
    let digits = |s: &str| s.chars().collect::<Vec<char>>();
    assert_eq!(jetsonscope::text::parse_unsigned(&digits("5"), 5), Some(5));
    assert_eq!(jetsonscope::text::parse_unsigned(&digits("6"), 5), None);
    assert_eq!(jetsonscope::text::parse_unsigned(&digits("+0"), 0), Some(0));
}
