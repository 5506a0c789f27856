use jetsonscope::parser::{ram_from_groups, mts_from_groups, parse_val_freq};
use jetsonscope::parser::{parse_cpus, parse_engines, SizeUnit, TegraStats};

fn parse(line: &str) -> TegraStats {
    TegraStats::parse(line).expect("failed to parse sample")
}

#[test]
fn parses_orin_sample_with_timestamp() {
    let line = "01-03-2023 16:10:22 RAM 2257/30536MB (lfb 5392x4MB) SWAP 0/15268MB (cached 0MB) CPU [10%@729,20%@729,30%@729,40%@729,50%@729,0%@729,60%@729,70%@729,80%@729,90%@729,100%@729,0%@729] EMC_FREQ 0% GR3D_FREQ 75% CV0@-256C CPU@41.375C Tboard@29C SOC2@39C Tdiode@30.75C SOC0@38.906C CV1@-256C GPU@-256C tj@41.468C SOC1@38.843C CV2@-256C";
    let stats = TegraStats::parse(line).unwrap();

    assert_eq!(stats.timestamp.as_deref(), Some("01-03-2023 16:10:22"));
    let ram = stats.ram.as_ref().unwrap();
    assert_eq!(ram.total_bytes, SizeUnit::MB.to_bytes(30_536));
    assert_eq!(ram.used_bytes, SizeUnit::MB.to_bytes(2_257));
    assert!(stats.swap.is_some());
    assert_eq!(stats.cpus.len(), 12);
    assert_eq!(stats.cpus[0].load_percent, Some(10));
    assert_eq!(stats.cpus[0].freq_mhz, Some(729));
    assert_eq!(stats.cpus[10].load_percent, Some(100));
    assert_eq!(stats.gpu_usage(), Some(75));
    assert!(stats.temps.contains_key("CPU"));
    assert!(stats.temps.contains_key("tj"));
}

#[test]
fn parses_power_and_engines() {
    let line = "RAM 4722/7844MB (lfb 1x512kB) CPU [12%@2035,34%@2034,56%@2034,78%@2035,90%@2035,99%@2035] SWAP 149/1024MB (cached 7MB) EMC_FREQ 2%@1866 GR3D_FREQ 59%@1300 APE 150 MTS fg 3% bg 9% BCPU@-45C MCPU@-45C GPU@-51C PLL@45C AO@47.5C Tboard@37C Tdiode@46.75C PMIC@100C thermal@46.4C VDD_IN 14025/14416 VDD_CPU 2209/2538 VDD_GPU 6854/6903 VDD_SOC 1371/1370 VDD_WIFI 19/19 NVENC 716 NVDEC 716 VDD_DDR 2702/2702";
    let stats = TegraStats::parse(line).unwrap();

    assert_eq!(stats.cpus.len(), 6);
    assert_eq!(stats.cpus[1].load_percent, Some(34));
    assert_eq!(stats.cpus[1].freq_mhz, Some(2034));
    assert_eq!(stats.engines.get("EMC").and_then(|e| e.freq_mhz), Some(1866));
    assert_eq!(stats.engines.get("GR3D").and_then(|e| e.usage_percent), Some(59));
    assert_eq!(stats.engines.get("NVDEC").and_then(|e| e.raw_value), Some(716));
    assert_eq!(stats.mts.as_ref().map(|m| m.fg_percent), Some(3));
    let power = stats.power.get("VDD_IN").unwrap();
    assert_eq!(power.current_mw, 14025);
    assert_eq!(power.average_mw, 14416);
}

#[test]
fn parses_verbose_off_and_bracket_freqs() {
    let line = "11-30-2025 13:26:01 RAM 2461/7620MB (lfb 3x2MB) SWAP 1243/3810MB (cached 5MB) CPU [19%@729,14%@729,22%@729,8%@729,15%@729,17%@729] EMC_FREQ 4%@2133 GR3D_FREQ 0%@[305] NVDEC off NVJPG off NVJPG1 off VIC off OFA off APE 200 cpu@46.531C soc2@47.312C soc0@46.593C gpu@48.218C tj@48.843C soc1@48.843C VDD_IN 5704mW/5704mW VDD_CPU_GPU_CV 831mW/831mW VDD_SOC 1624mW/1624mW";
    let stats = TegraStats::parse(line).unwrap();

    assert_eq!(stats.engines.get("EMC").and_then(|e| e.usage_percent), Some(4));
    assert_eq!(stats.engines.get("EMC").and_then(|e| e.freq_mhz), Some(2133));
    assert_eq!(stats.engines.get("GR3D").and_then(|e| e.freq_mhz), Some(305));
    assert_eq!(stats.engines.get("GR3D").and_then(|e| e.usage_percent), Some(0));
    assert_eq!(stats.engines.get("NVDEC").and_then(|e| e.usage_percent), Some(0));
    assert_eq!(stats.engines.get("NVJPG1").and_then(|e| e.usage_percent), Some(0));
    assert_eq!(stats.engines.get("VIC").and_then(|e| e.usage_percent), Some(0));
    assert_eq!(stats.engines.get("APE").and_then(|e| e.raw_value), Some(200));
}

#[test]
fn parses_extended_engines_from_reference() {
    let line = "RAM 1024/4096MB (lfb 1x1MB) SWAP 0/1024MB (cached 0MB) CPU [10%@1200,20%@1200] EMC_FREQ 25%@1600 MC_FREQ 800 AXI_FREQ 600 GR3D_FREQ 50%@900 NVENC 30%@700 NVDEC 15%@650 NVJPG off NVJPG1 5%@300 VIC 12%@400 OFA 7%@350 ISP 9%@500 NVCSI 3%@250 PCIE 1%@125 NVLINK 2%@400 ISP_UTIL 4% NVCSI_UTIL 6% VDD_IN 5000/5200";
    let stats = TegraStats::parse(line).unwrap();

    assert_eq!(stats.engines.get("EMC").and_then(|e| e.usage_percent), Some(25));
    assert_eq!(stats.engines.get("EMC").and_then(|e| e.freq_mhz), Some(1600));
    assert_eq!(stats.engines.get("MC").and_then(|e| e.freq_mhz), Some(800));
    assert_eq!(stats.engines.get("AXI").and_then(|e| e.freq_mhz), Some(600));
    assert_eq!(stats.engines.get("GR3D").and_then(|e| e.usage_percent), Some(50));
    assert_eq!(stats.engines.get("GR3D").and_then(|e| e.freq_mhz), Some(900));
    assert_eq!(stats.engines.get("NVENC").and_then(|e| e.usage_percent), Some(30));
    assert_eq!(stats.engines.get("NVENC").and_then(|e| e.freq_mhz), Some(700));
    assert_eq!(stats.engines.get("NVDEC").and_then(|e| e.usage_percent), Some(15));
    assert_eq!(stats.engines.get("NVDEC").and_then(|e| e.freq_mhz), Some(650));
    assert_eq!(stats.engines.get("NVJPG").and_then(|e| e.usage_percent), Some(0));
    assert_eq!(stats.engines.get("NVJPG1").and_then(|e| e.usage_percent), Some(5));
    assert_eq!(stats.engines.get("VIC").and_then(|e| e.usage_percent), Some(12));
    assert_eq!(stats.engines.get("OFA").and_then(|e| e.usage_percent), Some(7));
    assert_eq!(stats.engines.get("ISP").and_then(|e| e.usage_percent), Some(9));
    assert_eq!(stats.engines.get("NVCSI").and_then(|e| e.usage_percent), Some(3));
    assert_eq!(stats.engines.get("PCIE").and_then(|e| e.usage_percent), Some(1));
    assert_eq!(stats.engines.get("NVLINK").and_then(|e| e.usage_percent), Some(2));
    assert_eq!(stats.engines.get("NVCSI_UTIL").and_then(|e| e.usage_percent), Some(6));
    assert_eq!(stats.engines.get("ISP_UTIL").and_then(|e| e.usage_percent), Some(4));
}

#[test]
fn parses_orin_timestamp_and_ram() {
    let line = "01-03-2023 16:10:22 RAM 2257/30536MB (lfb 5392x4MB) SWAP 0/15268MB (cached 0MB) CPU [10%@729,20%@729,30%@729,40%@729,50%@729,0%@729,60%@729,70%@729,80%@729,90%@729,100%@729,0%@729] EMC_FREQ 0% GR3D_FREQ 75% CV0@-256C CPU@41.375C Tboard@29C SOC2@39C Tdiode@30.75C SOC0@38.906C CV1@-256C GPU@-256C tj@41.468C SOC1@38.843C CV2@-256C";
    let stats = parse(line);
    assert_eq!(stats.timestamp.as_deref(), Some("01-03-2023 16:10:22"));
    let ram = stats.ram.as_ref().unwrap();
    assert_eq!(ram.total_bytes, SizeUnit::MB.to_bytes(30_536));
    assert_eq!(ram.used_bytes, SizeUnit::MB.to_bytes(2_257));
    assert_eq!(stats.cpus.len(), 12);
    assert_eq!(stats.cpus[0].freq_mhz, Some(729));
    assert_eq!(stats.gpu_usage(), Some(75));
}

#[test]
fn parses_power_and_engines_xavier() {
    let line = "RAM 4181/7771MB (lfb 8x4MB) SWAP 0/3885MB (cached 0MB) CPU [10%@1190,0%@1190,1%@1190,0%@1190,5%@1190,1%@1190] EMC_FREQ 15%@1600 GR3D_FREQ 0% PLL@42.906C Tdiode@43.25C Tboard@36C GPU@41.75C BCPU@42.5C MCPU@47.5C thermal@42.425C VDD_SYS_GPU 47mW/0mW VDD_SYS_SOC 813mW/207mW VDD_4V0_WIFI 495mW/0mW VDD_IN 3539mW/1422mW VDD_SYS_CPU 125mW/104mW";
    let stats = parse(line);
    let ram = stats.ram.as_ref().unwrap();
    assert_eq!(ram.total_bytes, SizeUnit::MB.to_bytes(7_771));
    assert!(stats.power.contains_key("VDD_IN"));
    assert!(stats.engines.get("GR3D").is_some());
}

#[test]
fn parses_fanless_orin_nano_sample() {
    let line = "RAM 624/1999MB (lfb 7x4MB) SWAP 0/999MB (cached 0MB) CPU [2%@1190,1%@1190,0%@1190,0%@1190,1%@1190,0%@1190] EMC_FREQ 0%@1600 GR3D_FREQ 0%@318 NVDEC 0 NVENC 0 VIC_FREQ 0%@1152 APE 0 PLL@38.0C Tboard@31C Tdiode@34.5C AUX@32.5C thermal@38.12C VDD_SYS_GPU 42mW/0mW VDD_SYS_SOC 528mW/245mW VDD_4V0_WIFI 0mW/0mW VDD_IN 2235mW/1684mW VDD_SYS_CPU 119mW/106mW";
    let stats = parse(line);
    assert_eq!(stats.cpus.len(), 6);
    assert!(stats.engines.contains_key("NVDEC"));
    assert!(stats.engines.contains_key("NVENC"));
    assert!(stats.power.contains_key("VDD_IN"));
}

#[test]
fn parses_negative_temps_and_missing_values() {
    let line = "RAM 4181/7771MB (lfb 8x4MB) SWAP 0/3885MB (cached 0MB) CPU [10%@1190,0%@1190,1%@1190,0%@1190,5%@1190,1%@1190] EMC_FREQ 15%@1600 GR3D_FREQ 0% CV0@-256C CPU@41.375C GPU@-256C";
    let stats = parse(line);
    assert!(stats.temps.contains_key("CPU"));
    // Temperatures are kept in thousandths of a degree: -256.0 C.
    assert_eq!(stats.temps.get("GPU"), Some(-256_000));
}

#[test]
fn every_line_parses_and_keeps_trimmed_raw() {
    for line in ["", "   ", "garbage ### 12", "  RAM 1/2MB (lfb 1x1MB)  \n"] {
        let stats = TegraStats::parse(line).unwrap();
        assert_eq!(stats.raw, line.trim());
    }
    let stats = TegraStats::parse("nothing to see").unwrap();
    assert!(stats.timestamp.is_none());
    assert!(stats.ram.is_none());
    assert!(stats.cpus.is_empty());
    assert_eq!(stats.engines.len(), 0);
}

#[test]
fn size_units_convert_to_bytes() {
    assert_eq!(SizeUnit::MB.to_bytes(30_536), 30_536 * 1_048_576);
    assert_eq!(SizeUnit::KB.to_bytes(512), 512 * 1024);
    assert_eq!(SizeUnit::KB.to_bytes(0), 0);
    assert_eq!(SizeUnit::MB.to_bytes(u64::MAX), u64::MAX);
    assert_eq!(SizeUnit::KB.to_bytes(u64::MAX / 1000), u64::MAX);
}

#[test]
fn memory_units_follow_their_suffixes() {
    let stats = TegraStats::parse("RAM 4722/7844kB (lfb 1x512kB) SWAP 149/1024MB (cached 7kB) IRAM 0/252kB (lfb 252kB)").unwrap();
    let ram = stats.ram.unwrap();
    assert_eq!(ram.used_bytes, 4722 * 1024);
    assert_eq!(ram.total_bytes, 7844 * 1024);
    assert_eq!(ram.unit, SizeUnit::KB);
    let swap = stats.swap.unwrap();
    assert_eq!(swap.total_bytes, 1024 * 1_048_576);
    assert_eq!(swap.cached_bytes, Some(7 * 1024));
    let iram = stats.iram.unwrap();
    assert_eq!(iram.total_bytes, 252 * 1024);
    assert_eq!(iram.lfb_bytes, Some(252 * 1024));
}

#[test]
fn cpu_block_gives_one_core_per_token() {
    let cores = parse_cpus("CPU [10%@729,off, 35%,off,garbage]");
    assert_eq!(cores.len(), 5);
    assert_eq!(cores[0].load_percent, Some(10));
    assert_eq!(cores[0].freq_mhz, Some(729));
    assert_eq!(cores[1].load_percent, None);
    assert_eq!(cores[1].freq_mhz, None);
    assert_eq!(cores[2].load_percent, Some(35));
    assert_eq!(cores[2].freq_mhz, None);
    assert_eq!(cores[3].load_percent, None);
    assert_eq!(cores[4].load_percent, None);
    assert!(parse_cpus("no cpu block").is_empty());
}

#[test]
fn off_engines_and_bracketed_frequency() {
    let engines = parse_engines("GR3D_FREQ 0%@[305] NVDEC off NVJPG1 off VIC off");
    let gr3d = engines.get("GR3D").unwrap();
    assert_eq!(gr3d.usage_percent, Some(0));
    assert_eq!(gr3d.freq_mhz, Some(305));
    assert_eq!(gr3d.raw_value, None);
    for name in ["NVDEC", "NVJPG1", "VIC"] {
        let e = engines.get(name).unwrap();
        assert_eq!(e.usage_percent, Some(0));
        assert_eq!(e.freq_mhz, None);
    }
}

#[test]
fn util_token_also_names_its_base_engine() {
    let engines = parse_engines("NVCSI_UTIL 6%");
    assert_eq!(engines.get("NVCSI_UTIL").and_then(|e| e.usage_percent), Some(6));
    assert_eq!(engines.get("NVCSI").and_then(|e| e.usage_percent), Some(6));
}

#[test]
fn first_recognizer_wins_for_a_name() {
    // The bracketed form comes first, the general value second.
    let engines = parse_engines("GR3D_FREQ 7%@[305] GR3D 9%@100");
    let gr3d = engines.get("GR3D").unwrap();
    assert_eq!(gr3d.usage_percent, Some(7));
    assert_eq!(gr3d.freq_mhz, Some(305));
    let engines = parse_engines("NVENC 30%@700 NVENC off");
    assert_eq!(engines.get("NVENC").and_then(|e| e.usage_percent), Some(30));
}

#[test]
fn record_names_never_become_engines() {
    let engines = parse_engines("RAM 12 SWAP 3 IRAM off CPU 5% MTS 4 RAM_FREQ 7 CPU_UTIL 5% EMC_FREQ 3%");
    for name in ["RAM", "SWAP", "IRAM", "CPU", "MTS"] {
        assert!(!engines.contains_key(name), "{name}");
    }
    assert!(engines.contains_key("EMC"));
    assert!(!engines.contains_key("EMC_FREQ"));
    assert!(engines.contains_key("CPU_UTIL"));
}

#[test]
fn gpu_usage_falls_back_to_raw_value() {
    let stats = TegraStats::parse("GR3D_FREQ 42%@900").unwrap();
    assert_eq!(stats.gpu_usage(), Some(42));
    let stats = TegraStats::parse("GR3D 318").unwrap();
    assert_eq!(stats.gpu_usage(), Some(318));
    let stats = TegraStats::parse("EMC_FREQ 4%@2133").unwrap();
    assert_eq!(stats.gpu_usage(), None);
}

#[test]
fn power_units_normalize_to_milliwatts() {
    let stats = TegraStats::parse("VDD_IN 5704mW/5704mW").unwrap();
    let rail = stats.power.get("VDD_IN").unwrap();
    assert_eq!((rail.current_mw, rail.average_mw), (5704, 5704));
    let stats = TegraStats::parse("VDD_IN 14025/14416").unwrap();
    let rail = stats.power.get("VDD_IN").unwrap();
    assert_eq!((rail.current_mw, rail.average_mw), (14025, 14416));
    let stats = TegraStats::parse("VDD_GPU 1.5kW/2kW").unwrap();
    let rail = stats.power.get("VDD_GPU").unwrap();
    assert_eq!((rail.current_mw, rail.average_mw), (1500, 2000));
}

#[test]
fn temperatures_keep_sign_and_fraction() {
    let stats = TegraStats::parse("CPU@41.375C CV0@-256C tj@46.4C SOC0@38.9066C").unwrap();
    assert_eq!(stats.temps.get("CPU"), Some(41_375));
    assert_eq!(stats.temps.get("CV0"), Some(-256_000));
    assert_eq!(stats.temps.get("tj"), Some(46_400));
    assert_eq!(stats.temps.get("SOC0"), Some(38_906));
    assert_eq!(stats.temps.len(), 4);
}

#[test]
fn mts_and_timestamp_are_extracted() {
    let stats = TegraStats::parse("  12-31-2024 23:59:59 MTS fg 3% bg 9% ").unwrap();
    assert_eq!(stats.timestamp.as_deref(), Some("12-31-2024 23:59:59"));
    let mts = stats.mts.unwrap();
    assert_eq!((mts.fg_percent, mts.bg_percent), (3, 9));
    assert_eq!(stats.raw, "12-31-2024 23:59:59 MTS fg 3% bg 9%");
}

#[test]
fn bare_watt_suffix_is_no_prefix() {
    let stats = TegraStats::parse("VDD_X 5W/5W VDD_Y 5kW/2kW").unwrap();
    let x = stats.power.get("VDD_X").unwrap();
    assert_eq!((x.current_mw, x.average_mw), (5, 5));
    let y = stats.power.get("VDD_Y").unwrap();
    assert_eq!((y.current_mw, y.average_mw), (5000, 2000));
}

#[test]
fn percent_followed_by_space_is_usage() {
    let engines = parse_engines("GR3D_FREQ 75% EMC_FREQ 12%");
    let gr3d = engines.get("GR3D").unwrap();
    assert_eq!(gr3d.usage_percent, Some(75));
    assert_eq!(gr3d.raw_value, None);
    assert_eq!(engines.get("EMC").and_then(|e| e.usage_percent), Some(12));
}

#[test]
fn off_recognizer_comes_before_util() {
    // `NVCSI off` is recognised before `NVCSI_UTIL 6%`, so the base name keeps usage 0.
    let engines = parse_engines("NVCSI_UTIL 6% NVCSI off");
    assert_eq!(engines.get("NVCSI").and_then(|e| e.usage_percent), Some(0));
    assert_eq!(engines.get("NVCSI_UTIL").and_then(|e| e.usage_percent), Some(6));
}

#[test]
fn records_from_capture_groups() {
    let groups: Vec<Option<String>> = ["RAM 1/2kB (lfb 3x4MB)", "1", "2", "k", "3", "4", "M"]
        .iter()
        .map(|s| Some(s.to_string()))
        .collect();
    let ram = ram_from_groups(&groups);
    assert_eq!((ram.used_bytes, ram.total_bytes), (1024, 2048));
    assert_eq!(ram.unit, SizeUnit::KB);
    let mts = mts_from_groups(&vec![None, Some("3".into()), Some("x".into())]);
    assert_eq!((mts.fg_percent, mts.bg_percent), (3, 0));
    let e = parse_val_freq(&"12%@[400]".chars().collect());
    assert_eq!((e.usage_percent, e.freq_mhz, e.raw_value), (Some(12), Some(400), None));
}

#[test]
fn cpu_tokens_are_trimmed_of_any_white_space() {
    let cores = parse_cpus("CPU [\u{a0}off\t, 5%\u{3000}]");
    assert_eq!(cores.len(), 2);
    assert_eq!(cores[0].load_percent, None);
    assert_eq!(cores[1].load_percent, Some(5));
}
