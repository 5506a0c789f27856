use jetsonscope::control::{ControlError, ControlManager, ControlStep, HostAction, HostOutcome, HostProbe};
use jetsonscope::hardware::JetsonHardware;

// Helpers to create ControlManager with mocked hardware detection.
fn mock_hw(is_jetson: bool) -> JetsonHardware {
    let mut hw = JetsonHardware::default();
    hw.is_jetson = is_jetson;
    hw.nvpmodel_modes = vec!["MODE_0".into(), "MODE_1".into()];
    hw
}

fn jetson_probe() -> HostProbe {
    let mut probe = HostProbe::none();
    probe.nvpmodel_modes = vec!["MAXN".into(), "15W".into()];
    probe.nvpmodel = Some("MAXN".into());
    probe.cpu_governor_modes = vec!["schedutil".into(), "performance".into()];
    probe.cpu_governor = Some("schedutil".into());
    probe.fan_present = true;
    probe.fan = Some("30%".into());
    probe.jetson_clocks_installed = true;
    probe.jetson_clocks = Some(false);
    probe
}

#[test]
fn test_apply_control_fan_valid() {
    let mut mgr = ControlManager::new();
    let result = mgr.apply_control("fan", "50");
    if mgr.status().available && mgr.status().supports_fan {
        assert!(result.is_ok() || result.is_err());
    } else {
        assert!(result.is_err());
    }
}

#[test]
fn test_apply_control_fan_invalid_range() {
    let mut mgr = ControlManager::new();
    let result = mgr.apply_control("fan", "150");
    assert!(result.is_err());
}

#[test]
fn test_apply_control_fan_invalid_format() {
    let mut mgr = ControlManager::new();
    let result = mgr.apply_control("fan", "invalid");
    assert!(result.is_err());
}

#[test]
fn test_apply_control_nvpmodel_invalid_mode() {
    let mut mgr = ControlManager::new();
    let result = mgr.apply_control("nvpmodel", "INVALID_MODE_XYZ");
    if mgr.status().available && mgr.status().supports_nvpmodel {
        assert!(result.is_err());
    }
}

#[test]
fn test_apply_control_jetson_clocks_on() {
    let mut mgr = ControlManager::new();
    let result = mgr.apply_control("jetson_clocks", "on");
    if mgr.status().available && mgr.status().supports_jetson_clocks {
        assert!(result.is_ok() || result.is_err());
    } else {
        assert!(result.is_err());
    }
}

#[test]
fn test_apply_control_jetson_clocks_invalid() {
    let mut mgr = ControlManager::new();
    let result = mgr.apply_control("jetson_clocks", "invalid");
    assert!(result.is_err());
}

#[test]
fn test_apply_control_unknown() {
    let mut mgr = ControlManager::new();
    let result = mgr.apply_control("unknown_control", "value");
    assert!(result.is_err());
}

#[test]
fn test_no_op_on_non_jetson() {
    let mgr = ControlManager::new();
    if !mgr.status().available {
        assert_eq!(mgr.status().note, "Host no Jetson: modo demo");
        assert!(!mgr.status().supports_jetson_clocks);
        assert!(!mgr.status().supports_nvpmodel);
        assert!(!mgr.status().supports_fan);
    }
}

#[test]
fn test_list_controls_structure() {
    let mgr = ControlManager::new();
    let controls = mgr.list_controls();
    for ctrl in controls {
        assert!(!ctrl.name.is_empty());
        assert!(!ctrl.description.is_empty());
        match ctrl.name.as_str() {
            "fan" => {
                assert_eq!(ctrl.min, Some(0));
                assert_eq!(ctrl.max, Some(100));
                assert_eq!(ctrl.unit, Some("%".to_string()));
                assert!(ctrl.requires_sudo);
            }
            "jetson_clocks" | "nvpmodel" => {
                assert!(ctrl.requires_sudo);
            }
            _ => {}
        }
    }
}

#[test]
fn test_validation_fan_boundary() {
    let mut mgr = ControlManager::new();
    let _result_0 = mgr.apply_control("fan", "0");
    let _result_100 = mgr.apply_control("fan", "100");
    let result_101 = mgr.apply_control("fan", "101");
    assert!(result_101.is_err());
}

#[test]
fn fan_set_out_of_range_returns_error() {
    let hw = mock_hw(true);
    let mut ctrl = ControlManager::mock(hw);
    ctrl.set_fan(150);
    let status = ctrl.status();
    assert!(status.last_error.as_deref().unwrap_or("").contains("0-100"));
}

#[test]
fn fan_set_valid_range_ok() {
    let hw = mock_hw(true);
    let mut ctrl = ControlManager::mock(hw);
    ctrl.set_fan(80);
    assert!(ctrl.status().last_error.is_none());
    let info = ctrl.control_info("fan");
    assert_eq!(info.value, "80%");
}

#[test]
fn nvpmodel_invalid_mode_errors() {
    let hw = mock_hw(true);
    let mut ctrl = ControlManager::mock(hw);
    ctrl.set_nvpmodel_mode(Some("INVALID".into()));
    let status = ctrl.status();
    assert!(status
        .last_error
        .as_deref()
        .unwrap_or("")
        .to_ascii_lowercase()
        .contains("modo inválido"));
}

#[test]
fn nvpmodel_valid_mode_ok() {
    let hw = mock_hw(true);
    let mut ctrl = ControlManager::mock(hw);
    ctrl.set_nvpmodel_mode(Some("MODE_1".into()));
    assert!(ctrl.status().last_error.is_none());
    let info = ctrl.control_info("nvpmodel");
    assert_eq!(info.value, "MODE_1");
}

#[test]
fn jetson_clocks_toggle_on_non_jetson_is_noop() {
    let hw = mock_hw(false);
    let mut ctrl = ControlManager::mock(hw);
    ctrl.toggle_jetson_clocks();
    assert!(ctrl.status().last_error.is_none());
    let info = ctrl.control_info("jetson_clocks");
    assert!(matches!(info.value.as_str(), "on" | "off" | "unknown"));
}

#[test]
fn fan_out_of_range_is_invalid_and_keeps_state() {
    let mut ctrl = ControlManager::mock(mock_hw(true));
    let before = ctrl.status_cloned();
    match ctrl.apply_control("fan", "150") {
        Err(ControlError::Invalid(m)) => assert!(m.contains("0-100")),
        _ => panic!("expected an invalid value"),
    }
    let after = ctrl.status();
    assert!(after.last_error.as_deref().unwrap().contains("0-100"));
    assert_eq!(after.fan, before.fan);
    assert_eq!(after.nvpmodel, before.nvpmodel);
    assert_eq!(after.jetson_clocks, before.jetson_clocks);
}

#[test]
fn invalid_values_change_only_the_last_error() {
    let mut ctrl = ControlManager::mock(mock_hw(true));
    for (name, value) in [
        ("jetson_clocks", "maybe"),
        ("nvpmodel", "MODE_9"),
        ("fan", "-1"),
        ("cpu_governor", "turbo"),
        ("gpu_governor", "turbo"),
        ("gpu_railgate", "off"),
    ] {
        let before = ctrl.status_cloned();
        assert!(matches!(ctrl.apply_control(name, value), Err(ControlError::Invalid(_))), "{name}");
        let after = ctrl.status();
        assert!(after.last_error.is_some());
        assert_eq!(after.fan, before.fan);
        assert_eq!(after.nvpmodel, before.nvpmodel);
        assert_eq!(after.cpu_governor, before.cpu_governor);
        assert_eq!(after.gpu_governor, before.gpu_governor);
        assert_eq!(after.gpu_railgate, before.gpu_railgate);
        assert_eq!(after.jetson_clocks, before.jetson_clocks);
    }
    assert!(matches!(ctrl.apply_control("volume", "3"), Err(ControlError::Unknown)));
}

#[test]
fn mock_changes_apply_in_memory() {
    let mut ctrl = ControlManager::mock(mock_hw(true));
    match ctrl.apply_control("fan", "100") {
        Ok(ControlStep::Done(info)) => assert_eq!(info.value, "100%"),
        _ => panic!("expected the change to be made"),
    }
    match ctrl.apply_control("gpu_railgate", "on") {
        Ok(ControlStep::Done(info)) => assert_eq!(info.value, "on"),
        _ => panic!("expected the change to be made"),
    }
    match ctrl.apply_control("jetson_clocks", "on") {
        Ok(ControlStep::Done(info)) => assert_eq!(info.value, "on"),
        _ => panic!("expected the change to be made"),
    }
    assert!(ctrl.status().last_error.is_none());
}

#[test]
fn host_actions_are_returned_then_completed() {
    let mut ctrl = ControlManager::with_hardware(mock_hw(true), jetson_probe());
    let action = match ctrl.apply_control("nvpmodel", "15W") {
        Ok(ControlStep::Pending(a)) => a,
        _ => panic!("expected a host action"),
    };
    assert_eq!(action, HostAction::SetNvpmodel("15W".into()));
    assert_eq!(ctrl.status().nvpmodel.as_deref(), Some("MAXN"));
    assert!(ctrl.complete(action, HostOutcome::Done).is_ok());
    assert_eq!(ctrl.control_info("nvpmodel").value, "15W");

    let action = ctrl.set_fan(40).unwrap();
    assert_eq!(action, HostAction::SetFan(40));
    let result = ctrl.complete(action, HostOutcome::Failed("jetson_fan failed".into()));
    assert_eq!(result, Err("jetson_fan failed".to_string()));
    assert_eq!(ctrl.status().fan.as_deref(), Some("30%"));
    assert_eq!(ctrl.status().last_error.as_deref(), Some("jetson_fan failed"));

    let action = ctrl.toggle_jetson_clocks().unwrap();
    assert!(ctrl.complete(action, HostOutcome::ClocksNow(true)).is_ok());
    assert_eq!(ctrl.status().jetson_clocks, Some(true));
    assert!(ctrl.status().last_error.is_none());
}

#[test]
fn unsupported_controls_fail_on_the_host() {
    let mut ctrl = ControlManager::with_hardware(mock_hw(true), jetson_probe());
    assert!(matches!(ctrl.apply_control("gpu_railgate", "auto"), Err(ControlError::Failed(_))));
    assert_eq!(ctrl.status().last_error.as_deref(), Some("Control de GPU railgate no soportado"));
}

#[test]
fn non_jetson_mutators_fail_fast() {
    let mut ctrl = ControlManager::new();
    assert!(ctrl.set_nvpmodel_mode(Some("MODE_0".into())).is_none());
    assert_eq!(ctrl.status().last_error.as_deref(), Some("No es Jetson (demo)"));
    assert_eq!(ctrl.set_cpu_governor("performance"), Err("No es Jetson (demo)".to_string()));
    assert!(ctrl.list_controls().is_empty());
}

#[test]
fn cycling_the_power_mode_wraps() {
    let mut ctrl = ControlManager::mock(mock_hw(true));
    assert_eq!(ctrl.status().nvpmodel.as_deref(), Some("MODE_0"));
    ctrl.cycle_nvpmodel();
    assert_eq!(ctrl.status().nvpmodel.as_deref(), Some("MODE_1"));
    ctrl.cycle_nvpmodel();
    assert_eq!(ctrl.status().nvpmodel.as_deref(), Some("MODE_0"));
}

#[test]
fn mock_lists_every_control() {
    let ctrl = ControlManager::mock(JetsonHardware::default());
    let names: Vec<String> = ctrl.list_controls().into_iter().map(|c| c.name).collect();
    assert_eq!(names, ["jetson_clocks", "nvpmodel", "fan", "cpu_governor", "gpu_governor", "gpu_railgate"]);
    let info = ctrl.control_info("nvpmodel");
    assert_eq!(info.options, ["MODE_0", "MODE_1"]);
    let missing = ctrl.control_info("volume");
    assert!(missing.readonly);
    assert!(!missing.supported);
    assert_eq!(missing.value, "unknown");
}

#[test]
fn jetpack_table_lookup() {
    assert_eq!(JetsonHardware::map_l4t_to_jetpack("35.4.1"), "5.1.2");
    assert_eq!(JetsonHardware::map_l4t_to_jetpack("36.2.0"), "6.0 DP");
    assert_eq!(JetsonHardware::map_l4t_to_jetpack("1.0"), "Unknown");
    assert_eq!(JetsonHardware::detect_engines(), ["GR3D", "EMC", "NVENC", "NVDEC", "VIC", "NVJPG"]);
}

#[test]
fn mock_and_demo_start_states() {
    let ctrl = ControlManager::mock(JetsonHardware::default());
    let s = ctrl.status();
    assert!(s.available && s.supports_fan && s.supports_gpu_railgate);
    assert_eq!(s.fan.as_deref(), Some("0%"));
    assert_eq!(s.nvpmodel.as_deref(), Some("MODE_0"));
    assert_eq!(s.gpu_railgate, Some(true));
    assert_eq!(s.note, "Mock mode (no real commands)");
    let demo = ControlManager::new();
    let s = demo.status();
    assert!(s.cpu_governor_modes.is_empty() && s.gpu_governor_modes.is_empty());
    assert_eq!(s.gpu_railgate, None);
    assert_eq!(s.note, "Host no Jetson: modo demo");
}

#[test]
fn invalid_mode_message_lists_the_modes() {
    let mut ctrl = ControlManager::mock(mock_hw(true));
    match ctrl.apply_control("nvpmodel", "TURBO") {
        Err(ControlError::Invalid(m)) => assert_eq!(m, "Modo inválido: TURBO. Modos disponibles: MODE_0, MODE_1"),
        _ => panic!("expected an invalid value"),
    }
    assert_eq!(ctrl.status().nvpmodel.as_deref(), Some("MODE_0"));
}
