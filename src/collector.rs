//! The collector's decisions: which source to read, how long to wait after
//! a failed socket read and when to give up on it, and the synthetic
//! snapshot used when no real source is there. Reading the source, sleeping
//! and sending are the caller's part.
use crate::namemap::NameMap;
use crate::parser::{
    CpuCore, EngineStat, MemoryStat, PowerRail, SizeUnit, SwapStat, TegraStats,
};
use crate::pattern::{words, words_of};
use crate::text::{ascii_lower, chars_equal, lower_text, owned};
use rand::Rng;
use vstd::prelude::*;

verus! {

/// Relies on `rand::Rng::gen_range` over `rand::thread_rng`: a number
/// below `n`. It panics on an empty range, hence `n > 0`.
#[verifier::external_body]
fn random_below(n: u64) -> (r: u64)
    requires
        n > 0,
    ensures
        r < n,
{
    rand::thread_rng().gen_range(0..n)
}

/// Relies on `chrono::Local::now` and `DateTime::format`: the local time
/// as `MM-DD-YYYY HH:MM:SS`.
#[verifier::external_body]
fn local_timestamp() -> String {
    chrono::Local::now().format("%m-%d-%Y %H:%M:%S").to_string()
}

/// How the collector picks its source.
#[derive(Debug, Clone, Copy, PartialEq, Eq, Structural)]
pub enum CollectorMode {
    /// A socket if one is there, else a command, else synthetic data.
    AutoCommand,
    /// A socket if one is there, else synthetic data.
    PreferSocket,
    /// A socket, retried without end.
    SocketOnly,
}

/// What the environment says about the possible sources.
#[derive(Debug, Clone)]
pub struct SourceEnv {
    /// The socket path set in the environment.
    pub socket_path: Option<String>,
    pub default_socket_exists: bool,
    pub legacy_socket_exists: bool,
    /// The stats command set in the environment.
    pub stats_cmd: Option<String>,
    /// The interface mode set in the environment.
    pub tui_mode: Option<String>,
    pub is_jetson: bool,
}

#[derive(Debug, Clone)]
pub enum SourceKind {
    /// Run this program with these arguments and read its lines.
    Command(Vec<String>),
    /// Poll the daemon at this socket path.
    Socket(String),
    Synthetic,
}

#[derive(Debug, Clone)]
pub struct SourceChoice {
    pub kind: SourceKind,
    pub label: String,
}

pub enum CollectorMessage {
    Stats(TegraStats),
    SourceLabel(String),
    Error(String),
}

pub const DEFAULT_SOCKET: &'static str = "/tmp/jetsonscope.sock";

pub const LEGACY_SOCKET: &'static str = "/tmp/tegrastats.sock";

/// Whether the interface mode asks for the emulator (`emulator`, `fake` or
/// `dummy`, in any ASCII case).
pub open spec fn forces_emulator(mode: Option<Seq<char>>) -> bool {
    match mode {
        Some(m) => {
            let l = lower_text(m);
            l == "emulator"@ || l == "fake"@ || l == "dummy"@
        },
        None => false,
    }
}

pub fn should_force_emulator(mode: &Option<String>) -> (r: bool)
    ensures
        r == forces_emulator(crate::server::opt_view(*mode)),
{
    match mode {
        None => false,
        Some(m) => {
            let lower = ascii_lower(m.as_str());
            chars_equal(&lower, &crate::pattern::chars_of("emulator")) || chars_equal(
                &lower,
                &crate::pattern::chars_of("fake"),
            ) || chars_equal(&lower, &crate::pattern::chars_of("dummy"))
        },
    }
}

pub open spec fn emulator_args() -> Seq<Seq<char>> {
    seq!["python3"@, "../tegrastats_emulator.py"@, "--interval"@, "1000"@]
}

pub open spec fn tegrastats_args() -> Seq<Seq<char>> {
    seq!["tegrastats"@, "--interval"@, "1000"@]
}

fn strings(items: Ghost<Seq<Seq<char>>>, a: &str, b: &str, c: &str, d: Option<&str>) -> (r: Vec<String>)
    requires
        items@ == (match d {
            Some(x) => seq![a@, b@, c@, x@],
            None => seq![a@, b@, c@],
        }),
    ensures
        crate::protocol::strings_view(r@) == items@,
{
    let mut v: Vec<String> = Vec::new();
    v.push(owned(a));
    v.push(owned(b));
    v.push(owned(c));
    match d {
        Some(x) => v.push(owned(x)),
        None => {},
    }
    assert(crate::protocol::strings_view(v@) =~= items@);
    v
}

/// The source `select_source` picks, with its label.
pub open spec fn chosen(mode: CollectorMode, env: SourceEnv, r: SourceChoice) -> bool {
    match env.socket_path {
        Some(p) => r.kind matches SourceKind::Socket(q) && q@ == p@ && r.label@ == "socket "@ + p@,
        None => if env.default_socket_exists {
            r.kind matches SourceKind::Socket(q) && q@ == DEFAULT_SOCKET@ && r.label@
                == "socket /tmp/jetsonscope.sock"@
        } else if env.legacy_socket_exists {
            r.kind matches SourceKind::Socket(q) && q@ == LEGACY_SOCKET@ && r.label@
                == "socket /tmp/tegrastats.sock (legacy)"@
        } else if mode == CollectorMode::SocketOnly {
            r.kind is Synthetic && r.label@ == "synthetic (socket missing)"@
        } else {
            let custom = match env.stats_cmd {
                Some(c) => words_of(c@).len() > 0,
                None => false,
            };
            if custom {
                r.kind matches SourceKind::Command(args) && crate::protocol::strings_view(args@)
                    == words_of(env.stats_cmd->Some_0@) && r.label@ == "custom cmd: "@
                    + env.stats_cmd->Some_0@
            } else if mode == CollectorMode::PreferSocket {
                r.kind is Synthetic && r.label@ == "synthetic (socket preferred, none found)"@
            } else if forces_emulator(crate::server::opt_view(env.tui_mode)) || !env.is_jetson {
                r.kind matches SourceKind::Command(args) && crate::protocol::strings_view(args@)
                    == emulator_args() && r.label@ == "python emulator"@
            } else {
                r.kind matches SourceKind::Command(args) && crate::protocol::strings_view(args@)
                    == tegrastats_args() && r.label@ == "tegrastats real"@
            }
        },
    }
}

fn prefixed(prefix: &str, s: &String) -> (r: String)
    ensures
        r@ == prefix@ + s@,
{
    let mut m = owned(prefix);
    m.append(s.as_str());
    m
}

/// Picks the source: a configured socket, the default socket, the legacy
/// socket; then, as the mode allows, a configured command, the emulator or
/// the board's `tegrastats`, or synthetic data.
pub fn select_source(mode: CollectorMode, env: &SourceEnv) -> (r: SourceChoice)
    ensures
        chosen(mode, *env, r),
{
    if let Some(p) = &env.socket_path {
        return SourceChoice { kind: SourceKind::Socket(p.clone()), label: prefixed("socket ", p) };
    }
    if env.default_socket_exists {
        return SourceChoice {
            kind: SourceKind::Socket(owned(DEFAULT_SOCKET)),
            label: owned("socket /tmp/jetsonscope.sock"),
        };
    }
    if env.legacy_socket_exists {
        return SourceChoice {
            kind: SourceKind::Socket(owned(LEGACY_SOCKET)),
            label: owned("socket /tmp/tegrastats.sock (legacy)"),
        };
    }
    if mode == CollectorMode::SocketOnly {
        return SourceChoice { kind: SourceKind::Synthetic, label: owned("synthetic (socket missing)") };
    }
    if let Some(c) = &env.stats_cmd {
        let args = words(c.as_str());
        if args.len() > 0 {
            return SourceChoice {
                kind: SourceKind::Command(args),
                label: prefixed("custom cmd: ", c),
            };
        }
    }
    if mode == CollectorMode::PreferSocket {
        return SourceChoice {
            kind: SourceKind::Synthetic,
            label: owned("synthetic (socket preferred, none found)"),
        };
    }
    if should_force_emulator(&env.tui_mode) || !env.is_jetson {
        let args = strings(
            Ghost(emulator_args()),
            "python3",
            "../tegrastats_emulator.py",
            "--interval",
            Some("1000"),
        );
        return SourceChoice { kind: SourceKind::Command(args), label: owned("python emulator") };
    }
    let args = strings(Ghost(tegrastats_args()), "tegrastats", "--interval", "1000", None);
    SourceChoice { kind: SourceKind::Command(args), label: owned("tegrastats real") }
}

/// What to do after a failed socket read.
#[derive(Debug, Clone, Copy, PartialEq, Eq, Structural)]
pub enum RetryDecision {
    /// Wait this many milliseconds, then try again.
    Wait(u64),
    /// Stop retrying and switch to synthetic data.
    FallBack,
}

pub const FIRST_BACKOFF_MS: u64 = 1000;

pub const MAX_BACKOFF_MS: u64 = 10000;

/// The retry state of a socket source.
#[derive(Debug, Clone, Copy, PartialEq, Eq, Structural)]
pub struct SocketRetry {
    pub retry_count: u64,
    pub backoff_ms: u64,
    pub max_retries: u64,
}

pub open spec fn doubled(ms: u64) -> u64 {
    if ms >= MAX_BACKOFF_MS / 2 {
        MAX_BACKOFF_MS
    } else {
        (ms * 2) as u64
    }
}

impl SocketRetry {
    /// Five retries, or unlimited ones in `SocketOnly` mode.
    pub fn new(mode: CollectorMode) -> (r: Self)
        ensures
            r.retry_count == 0,
            r.backoff_ms == FIRST_BACKOFF_MS,
            r.max_retries == (if mode == CollectorMode::SocketOnly {
                u64::MAX
            } else {
                5
            }),
    {
        let max_retries = if mode == CollectorMode::SocketOnly {
            u64::MAX
        } else {
            5
        };
        SocketRetry { retry_count: 0, backoff_ms: FIRST_BACKOFF_MS, max_retries }
    }

    /// A read succeeded: the count and the wait start over.
    pub fn on_success(&mut self)
        ensures
            *final(self) == (SocketRetry {
                retry_count: 0,
                backoff_ms: FIRST_BACKOFF_MS,
                max_retries: old(self).max_retries,
            }),
    {
        self.retry_count = 0;
        self.backoff_ms = FIRST_BACKOFF_MS;
    }

    /// A read failed: wait the current backoff, which then doubles up to
    /// ten seconds; once the retries are used up, fall back.
    pub fn on_failure(&mut self) -> (r: RetryDecision)
        ensures
            old(self).retry_count >= old(self).max_retries ==> r == RetryDecision::FallBack
                && *final(self) == *old(self),
            old(self).retry_count < old(self).max_retries ==> r == RetryDecision::Wait(
                old(self).backoff_ms,
            ) && *final(self) == (SocketRetry {
                retry_count: (old(self).retry_count + 1) as u64,
                backoff_ms: doubled(old(self).backoff_ms),
                max_retries: old(self).max_retries,
            }),
    {
        if self.retry_count >= self.max_retries {
            return RetryDecision::FallBack;
        }
        let wait = self.backoff_ms;
        self.retry_count = self.retry_count + 1;
        self.backoff_ms = if self.backoff_ms >= MAX_BACKOFF_MS / 2 {
            MAX_BACKOFF_MS
        } else {
            self.backoff_ms * 2
        };
        RetryDecision::Wait(wait)
    }
}

/// The random numbers a synthetic snapshot is made from.
#[derive(Debug)]
pub struct SyntheticDraws {
    /// Per core: a load below 100, and a pick among four frequencies.
    pub cpu_loads: Vec<u32>,
    pub cpu_freq_picks: Vec<usize>,
    /// GPU load below 100, EMC load below 50.
    pub gpu_load: u32,
    pub emc_load: u32,
    /// Per sensor (CPU, GPU): thousandths of a degree above 35 degrees,
    /// below 40000.
    pub temp_offsets: Vec<u32>,
    /// VDD_IN current and average: mW above 7000, below 8000.
    pub vdd_in_current: u32,
    pub vdd_in_average: u32,
    /// VDD_CPU current and average: mW above 1000, below 3000.
    pub vdd_cpu_current: u32,
    pub vdd_cpu_average: u32,
    /// Bytes above half the RAM and above a quarter of the swap, each below
    /// a quarter of the total.
    pub ram_extra: u64,
    pub swap_extra: u64,
    pub timestamp: String,
}

pub const SYNTH_CORES: usize = 8;

pub const SYNTH_RAM_BYTES: u64 = 16000 * 1048576;

pub const SYNTH_SWAP_BYTES: u64 = 8000 * 1048576;

pub open spec fn freq_choice(i: usize) -> u32 {
    if i == 0 {
        729
    } else if i == 1 {
        1036
    } else if i == 2 {
        1190
    } else {
        1497
    }
}

/// Each draw within its range.
pub open spec fn draws_in_range(d: SyntheticDraws) -> bool {
    &&& d.cpu_loads@.len() == SYNTH_CORES && d.cpu_freq_picks@.len() == SYNTH_CORES
    &&& forall|i: int| 0 <= i < SYNTH_CORES ==> #[trigger] d.cpu_loads@[i] < 100
    &&& forall|i: int| 0 <= i < SYNTH_CORES ==> #[trigger] d.cpu_freq_picks@[i] < 4
    &&& d.gpu_load < 100 && d.emc_load < 50
    &&& d.temp_offsets@.len() == 2 && d.temp_offsets@[0] < 40000 && d.temp_offsets@[1] < 40000
    &&& d.vdd_in_current < 8000 && d.vdd_in_average < 8000 && d.vdd_cpu_current < 3000 && d.vdd_cpu_average < 3000
    &&& d.ram_extra < SYNTH_RAM_BYTES / 4 && d.swap_extra < SYNTH_SWAP_BYTES / 4
}

pub open spec fn synthetic_cores(d: SyntheticDraws) -> Seq<CpuCore> {
    Seq::new(
        SYNTH_CORES as nat,
        |i: int|
            CpuCore {
                load_percent: Some(d.cpu_loads@[i]),
                freq_mhz: Some(freq_choice(d.cpu_freq_picks@[i])),
            },
    )
}

/// The snapshot made from `d`.
pub open spec fn synthetic_of(s: TegraStats, d: SyntheticDraws) -> bool {
    &&& s.timestamp matches Some(t) && t@ == d.timestamp@
    &&& s.cpus@ == synthetic_cores(d)
    &&& s.engines@ == seq![
        ("GR3D"@, EngineStat { usage_percent: Some(d.gpu_load), freq_mhz: Some(1200), raw_value: None }),
        ("EMC"@, EngineStat { usage_percent: Some(d.emc_load), freq_mhz: Some(1866), raw_value: None }),
        ("NVENC"@, EngineStat { usage_percent: None, freq_mhz: Some(716), raw_value: Some(716) }),
    ]
    &&& s.temps@ == seq![
        ("CPU"@, (35000 + d.temp_offsets@[0]) as i64),
        ("GPU"@, (35000 + d.temp_offsets@[1]) as i64),
    ]
    &&& s.power@ == seq![
        ("VDD_IN"@, PowerRail { current_mw: (7000 + d.vdd_in_current) as u32, average_mw: (7000 + d.vdd_in_average) as u32 }),
        ("VDD_CPU"@, PowerRail { current_mw: (1000 + d.vdd_cpu_current) as u32, average_mw: (1000 + d.vdd_cpu_average) as u32 }),
    ]
    &&& s.ram == Some(
        MemoryStat {
            used_bytes: (SYNTH_RAM_BYTES / 2 + d.ram_extra) as u64,
            total_bytes: SYNTH_RAM_BYTES,
            unit: SizeUnit::MB,
            largest_free_block: None,
        },
    )
    &&& s.swap == Some(
        SwapStat {
            used_bytes: (SYNTH_SWAP_BYTES / 4 + d.swap_extra) as u64,
            total_bytes: SYNTH_SWAP_BYTES,
            cached_bytes: Some(SYNTH_SWAP_BYTES / 8),
            unit: SizeUnit::MB,
        },
    )
    &&& s.iram is None && s.mts is None
    &&& s.raw@ == "synthetic"@
}

proof fn lemma_fresh<T>(s: Seq<(Seq<char>, T)>, k: Seq<char>)
    requires
        forall|j: int| 0 <= j < s.len() ==> s[j].0 != k,
    ensures
        crate::namemap::key_index(s, k) is None,
{
    crate::namemap::lemma_key_index(s, k);
    match crate::namemap::key_index(s, k) {
        Some(i) => {
            assert(s[i].0 != k);
        },
        None => {},
    }
}

/// The snapshot made from these draws: eight cores, the engines `GR3D`,
/// `EMC` and `NVENC`, the sensors `CPU` and `GPU`, the rails `VDD_IN` and
/// `VDD_CPU`, 16000 MB of RAM and 8000 MB of swap.
pub fn synthesize_from(d: &SyntheticDraws) -> (r: TegraStats)
    requires
        draws_in_range(*d),
    ensures
        synthetic_of(r, *d),
{
    let mut cpus: Vec<CpuCore> = Vec::new();
    let mut i: usize = 0;
    while i < SYNTH_CORES
        invariant
            i <= SYNTH_CORES,
            draws_in_range(*d),
            cpus@ == synthetic_cores(*d).subrange(0, i as int),
        decreases SYNTH_CORES - i,
    {
        let pick = d.cpu_freq_picks[i];
        let f: u32 = if pick == 0 {
            729
        } else if pick == 1 {
            1036
        } else if pick == 2 {
            1190
        } else {
            1497
        };
        cpus.push(CpuCore { load_percent: Some(d.cpu_loads[i]), freq_mhz: Some(f) });
        assert(cpus@ =~= synthetic_cores(*d).subrange(0, i + 1));
        i = i + 1;
    }
    assert(synthetic_cores(*d).subrange(0, SYNTH_CORES as int) =~= synthetic_cores(*d));
    proof {
        reveal_strlit("GR3D");
        reveal_strlit("EMC");
        reveal_strlit("NVENC");
        reveal_strlit("CPU");
        reveal_strlit("GPU");
        reveal_strlit("VDD_IN");
        reveal_strlit("VDD_CPU");
    }
    let mut engines: NameMap<EngineStat> = NameMap::new();
    let gr3d = EngineStat { usage_percent: Some(d.gpu_load), freq_mhz: Some(1200), raw_value: None };
    let emc = EngineStat { usage_percent: Some(d.emc_load), freq_mhz: Some(1866), raw_value: None };
    let nvenc = EngineStat { usage_percent: None, freq_mhz: Some(716), raw_value: Some(716) };
    proof {
        lemma_fresh(Seq::<(Seq<char>, EngineStat)>::empty(), "GR3D"@);
    }
    engines.insert(owned("GR3D"), gr3d);
    assert(engines@ =~= seq![("GR3D"@, gr3d)]);
    assert("GR3D"@ != "EMC"@) by {
        assert("GR3D"@.len() != "EMC"@.len());
    }
    proof {
        lemma_fresh(engines@, "EMC"@);
    }
    engines.insert(owned("EMC"), emc);
    assert(engines@ =~= seq![("GR3D"@, gr3d), ("EMC"@, emc)]);
    assert("GR3D"@ != "NVENC"@ && "EMC"@ != "NVENC"@) by {
        assert("GR3D"@.len() != "NVENC"@.len());
        assert("EMC"@.len() != "NVENC"@.len());
    }
    proof {
        lemma_fresh(engines@, "NVENC"@);
    }
    engines.insert(owned("NVENC"), nvenc);
    assert(engines@ =~= seq![("GR3D"@, gr3d), ("EMC"@, emc), ("NVENC"@, nvenc)]);
    let mut temps: NameMap<i64> = NameMap::new();
    proof {
        lemma_fresh(Seq::<(Seq<char>, i64)>::empty(), "CPU"@);
    }
    temps.insert(owned("CPU"), 35000 + d.temp_offsets[0] as i64);
    let t0: i64 = 35000 + d.temp_offsets[0] as i64;
    assert(temps@ =~= seq![("CPU"@, t0)]);
    assert("CPU"@ != "GPU"@) by {
        assert("CPU"@[0] != "GPU"@[0]);
    }
    proof {
        lemma_fresh(temps@, "GPU"@);
    }
    let t1: i64 = 35000 + d.temp_offsets[1] as i64;
    temps.insert(owned("GPU"), t1);
    assert(temps@ =~= seq![("CPU"@, t0), ("GPU"@, t1)]);
    let mut power: NameMap<PowerRail> = NameMap::new();
    proof {
        lemma_fresh(Seq::<(Seq<char>, PowerRail)>::empty(), "VDD_IN"@);
    }
    let vdd_in = PowerRail { current_mw: 7000 + d.vdd_in_current, average_mw: 7000 + d.vdd_in_average };
    power.insert(owned("VDD_IN"), vdd_in);
    assert(power@ =~= seq![("VDD_IN"@, vdd_in)]);
    assert("VDD_IN"@ != "VDD_CPU"@) by {
        assert("VDD_IN"@.len() != "VDD_CPU"@.len());
    }
    proof {
        lemma_fresh(power@, "VDD_CPU"@);
    }
    let vdd_cpu = PowerRail {
        current_mw: 1000 + d.vdd_cpu_current,
        average_mw: 1000 + d.vdd_cpu_average,
    };
    power.insert(owned("VDD_CPU"), vdd_cpu);
    assert(power@ =~= seq![("VDD_IN"@, vdd_in), ("VDD_CPU"@, vdd_cpu)]);
    TegraStats {
        timestamp: Some(d.timestamp.clone()),
        ram: Some(
            MemoryStat {
                used_bytes: SYNTH_RAM_BYTES / 2 + d.ram_extra,
                total_bytes: SYNTH_RAM_BYTES,
                unit: SizeUnit::MB,
                largest_free_block: None,
            },
        ),
        swap: Some(
            SwapStat {
                used_bytes: SYNTH_SWAP_BYTES / 4 + d.swap_extra,
                total_bytes: SYNTH_SWAP_BYTES,
                cached_bytes: Some(SYNTH_SWAP_BYTES / 8),
                unit: SizeUnit::MB,
            },
        ),
        iram: None,
        mts: None,
        cpus,
        engines,
        temps,
        power,
        raw: owned("synthetic"),
    }
}

fn draw_below(n: u64) -> (r: u32)
    requires
        0 < n <= u32::MAX,
    ensures
        r < n,
{
    random_below(n) as u32
}

/// One plausible snapshot from fresh random draws and the local time.
pub fn synthesize_stats() -> (r: TegraStats)
    ensures
        exists|d: SyntheticDraws| draws_in_range(d) && synthetic_of(r, d),
{
    let mut cpu_loads: Vec<u32> = Vec::new();
    let mut cpu_freq_picks: Vec<usize> = Vec::new();
    let mut i: usize = 0;
    while i < SYNTH_CORES
        invariant
            i <= SYNTH_CORES,
            cpu_loads@.len() == i && cpu_freq_picks@.len() == i,
            forall|k: int| 0 <= k < i ==> #[trigger] cpu_loads@[k] < 100,
            forall|k: int| 0 <= k < i ==> #[trigger] cpu_freq_picks@[k] < 4,
        decreases SYNTH_CORES - i,
    {
        cpu_loads.push(draw_below(100));
        cpu_freq_picks.push(random_below(4) as usize);
        i = i + 1;
    }
    let mut temp_offsets: Vec<u32> = Vec::new();
    temp_offsets.push(draw_below(40000));
    temp_offsets.push(draw_below(40000));
    let d = SyntheticDraws {
        cpu_loads,
        cpu_freq_picks,
        gpu_load: draw_below(100),
        emc_load: draw_below(50),
        temp_offsets,
        vdd_in_current: draw_below(8000),
        vdd_in_average: draw_below(8000),
        vdd_cpu_current: draw_below(3000),
        vdd_cpu_average: draw_below(3000),
        ram_extra: random_below(SYNTH_RAM_BYTES / 4),
        swap_extra: random_below(SYNTH_SWAP_BYTES / 4),
        timestamp: local_timestamp(),
    };
    let r = synthesize_from(&d);
    assert(draws_in_range(d) && synthetic_of(r, d));
    r
}

} // verus!
