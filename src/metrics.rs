//! The metrics text served over HTTP: one family per health counter, per
//! observed signal and per control, in the text exposition format.
use crate::control::ControlStatus;
use crate::health::DaemonHealth;
use crate::namemap::NameMap;
use crate::parser::{CpuCore, EngineStat, LargestFreeBlock, PowerRail, TegraStats};
use crate::protocol::strings_view;
use crate::text::{decimal_of, decimal_string, owned, replace_all, trim_end_char};
use vstd::prelude::*;

verus! {

pub open spec fn help(name: Seq<char>, text: Seq<char>, kind: Seq<char>) -> Seq<char> {
    "# HELP "@ + name + " "@ + text + "\n"@ + "# TYPE "@ + name + " "@ + kind + "\n"@
}

pub open spec fn sample(name: Seq<char>, labels: Seq<char>, value: Seq<char>) -> Seq<char> {
    name + labels + " "@ + value + "\n"@
}

pub open spec fn label(key: Seq<char>, value: Seq<char>) -> Seq<char> {
    "{"@ + key + "=\""@ + value + "\"}"@
}

pub open spec fn num(n: nat) -> Seq<char> {
    decimal_of(n)
}

pub open spec fn flag(b: bool) -> Seq<char> {
    if b {
        "1"@
    } else {
        "0"@
    }
}

/// A gauge or counter with its header and one unlabelled sample.
pub open spec fn metric(name: Seq<char>, text: Seq<char>, kind: Seq<char>, value: Seq<char>) -> Seq<char> {
    help(name, text, kind) + sample(name, Seq::empty(), value)
}

pub open spec fn sanitized(s: Seq<char>) -> Seq<char> {
    replace_all(s, "\""@, "'"@)
}

/// Up to three digits after a point, without trailing zeros.
pub open spec fn frac_text(f: nat) -> Seq<char> {
    let (d1, d2, d3) = (f / 100, (f / 10) % 10, f % 10);
    if f == 0 {
        Seq::empty()
    } else if d3 != 0 {
        "."@ + num(d1) + num(d2) + num(d3)
    } else if d2 != 0 {
        "."@ + num(d1) + num(d2)
    } else {
        "."@ + num(d1)
    }
}

/// A value in thousandths written as a decimal: `41375` is `41.375`,
/// `-256000` is `-256`.
pub open spec fn milli_text(v: int) -> Seq<char> {
    let a = if v < 0 {
        -v
    } else {
        v
    };
    (if v < 0 {
        "-"@
    } else {
        Seq::empty()
    }) + num((a / 1000) as nat) + frac_text((a % 1000) as nat)
}

// ---------------------------------------------------------------------
// Health.
// ---------------------------------------------------------------------
pub open spec fn health_text(h: DaemonHealth) -> Seq<char> {
    metric(
        "jetsonscope_uptime_seconds"@,
        "Daemon uptime in seconds"@,
        "gauge"@,
        num(h.uptime_secs as nat),
    ) + metric(
        "jetsonscope_requests_total"@,
        "Total requests handled"@,
        "counter"@,
        num(h.total_requests as nat),
    ) + metric("jetsonscope_errors_total"@, "Total errors"@, "counter"@, num(h.errors as nat))
        + metric(
        "jetsonscope_stats_collected_total"@,
        "Total stats collected"@,
        "counter"@,
        num(h.stats_collected as nat),
    ) + metric(
        "jetsonscope_connected_clients"@,
        "Connected clients (observed)"@,
        "gauge"@,
        num(h.connected_clients as nat),
    )
}

fn push_help(out: &mut String, name: &str, text: &str, kind: &str)
    ensures
        final(out)@ == old(out)@ + help(name@, text@, kind@),
{
    out.append("# HELP ");
    out.append(name);
    out.append(" ");
    out.append(text);
    out.append("\n");
    out.append("# TYPE ");
    out.append(name);
    out.append(" ");
    out.append(kind);
    out.append("\n");
    assert(out@ =~= old(out)@ + help(name@, text@, kind@));
}

fn push_sample(out: &mut String, name: &str, labels: &str, value: &str)
    ensures
        final(out)@ == old(out)@ + sample(name@, labels@, value@),
{
    out.append(name);
    out.append(labels);
    out.append(" ");
    out.append(value);
    out.append("\n");
    assert(out@ =~= old(out)@ + sample(name@, labels@, value@));
}

fn push_metric(out: &mut String, name: &str, text: &str, kind: &str, value: &str)
    ensures
        final(out)@ == old(out)@ + metric(name@, text@, kind@, value@),
{
    push_help(out, name, text, kind);
    let empty = String::new();
    push_sample(out, name, empty.as_str(), value);
    assert(out@ =~= old(out)@ + metric(name@, text@, kind@, value@));
}

fn label_text(key: &str, value: &str) -> (r: String)
    ensures
        r@ == label(key@, value@),
{
    let mut s = owned("{");
    s.append(key);
    s.append("=\"");
    s.append(value);
    s.append("\"}");
    s
}

fn flag_text(b: bool) -> (r: &'static str)
    ensures
        r@ == flag(b),
{
    if b {
        "1"
    } else {
        "0"
    }
}

fn digit_text(d: u64) -> (r: String)
    requires
        d < 10,
    ensures
        r@ == num(d as nat),
{
    decimal_string(d)
}

/// `v` thousandths written as a decimal.
pub fn milli_string(v: i64) -> (r: String)
    ensures
        r@ == milli_text(v as int),
{
    let a: u64 = if v < 0 {
        if v == i64::MIN {
            9223372036854775808u64
        } else {
            (-v) as u64
        }
    } else {
        v as u64
    };
    let mut s = if v < 0 {
        owned("-")
    } else {
        String::new()
    };
    s.append(decimal_string(a / 1000).as_str());
    let f = a % 1000;
    let (d1, d2, d3) = (f / 100, (f / 10) % 10, f % 10);
    if f != 0 {
        s.append(".");
        s.append(digit_text(d1).as_str());
        if d3 != 0 {
            s.append(digit_text(d2).as_str());
            s.append(digit_text(d3).as_str());
        } else if d2 != 0 {
            s.append(digit_text(d2).as_str());
        }
    }
    assert(s@ =~= milli_text(v as int));
    s
}

/// The health counters as metrics.
pub fn health_metrics(h: &DaemonHealth) -> (r: String)
    ensures
        r@ == health_text(*h),
{
    let mut out = String::new();
    push_metric(
        &mut out,
        "jetsonscope_uptime_seconds",
        "Daemon uptime in seconds",
        "gauge",
        decimal_string(h.uptime_secs).as_str(),
    );
    push_metric(
        &mut out,
        "jetsonscope_requests_total",
        "Total requests handled",
        "counter",
        decimal_string(h.total_requests).as_str(),
    );
    push_metric(
        &mut out,
        "jetsonscope_errors_total",
        "Total errors",
        "counter",
        decimal_string(h.errors).as_str(),
    );
    push_metric(
        &mut out,
        "jetsonscope_stats_collected_total",
        "Total stats collected",
        "counter",
        decimal_string(h.stats_collected).as_str(),
    );
    push_metric(
        &mut out,
        "jetsonscope_connected_clients",
        "Connected clients (observed)",
        "gauge",
        decimal_string(h.connected_clients as u64).as_str(),
    );
    assert(out@ =~= health_text(*h));
    out
}

// ---------------------------------------------------------------------
// Snapshot. Each `*_part` spec appends one section to the text before it.
// ---------------------------------------------------------------------
pub open spec fn add_help(p: Seq<char>, name: Seq<char>, text: Seq<char>, kind: Seq<char>) -> Seq<char> {
    p + help(name, text, kind)
}

pub open spec fn add_sample(p: Seq<char>, name: Seq<char>, labels: Seq<char>, value: Seq<char>) -> Seq<char> {
    p + sample(name, labels, value)
}

pub open spec fn add_metric(
    p: Seq<char>,
    name: Seq<char>,
    text: Seq<char>,
    kind: Seq<char>,
    value: Seq<char>,
) -> Seq<char> {
    add_sample(add_help(p, name, text, kind), name, Seq::empty(), value)
}

pub open spec fn lfb_part(p: Seq<char>, b: Option<LargestFreeBlock>) -> Seq<char> {
    match b {
        Some(LargestFreeBlock::Blocks { count, size_bytes }) => add_metric(
            add_metric(
                p,
                "jetsonscope_ram_lfb_blocks"@,
                "Largest free blocks count"@,
                "gauge"@,
                num(count as nat),
            ),
            "jetsonscope_ram_lfb_block_size_bytes"@,
            "LFB block size bytes"@,
            "gauge"@,
            num(size_bytes as nat),
        ),
        Some(LargestFreeBlock::Size { size_bytes }) => add_metric(
            p,
            "jetsonscope_ram_lfb_size_bytes"@,
            "Largest free block size bytes"@,
            "gauge"@,
            num(size_bytes as nat),
        ),
        None => p,
    }
}

pub open spec fn ram_part(p: Seq<char>, m: Option<crate::parser::MemoryStat>) -> Seq<char> {
    match m {
        None => p,
        Some(r) => lfb_part(
            add_metric(
                add_metric(
                    p,
                    "jetsonscope_ram_bytes_total"@,
                    "RAM total bytes"@,
                    "gauge"@,
                    num(r.total_bytes as nat),
                ),
                "jetsonscope_ram_bytes_used"@,
                "RAM used bytes"@,
                "gauge"@,
                num(r.used_bytes as nat),
            ),
            r.largest_free_block,
        ),
    }
}

pub open spec fn swap_part(p: Seq<char>, m: Option<crate::parser::SwapStat>) -> Seq<char> {
    match m {
        None => p,
        Some(r) => add_metric(
            add_metric(
                p,
                "jetsonscope_swap_bytes_total"@,
                "SWAP total bytes"@,
                "gauge"@,
                num(r.total_bytes as nat),
            ),
            "jetsonscope_swap_bytes_used"@,
            "SWAP used bytes"@,
            "gauge"@,
            num(r.used_bytes as nat),
        ),
    }
}

pub open spec fn iram_part(p: Seq<char>, m: Option<crate::parser::IramStat>) -> Seq<char> {
    match m {
        None => p,
        Some(r) => {
            let q = add_metric(
                add_metric(
                    p,
                    "jetsonscope_iram_bytes_total"@,
                    "IRAM total bytes"@,
                    "gauge"@,
                    num(r.total_bytes as nat),
                ),
                "jetsonscope_iram_bytes_used"@,
                "IRAM used bytes"@,
                "gauge"@,
                num(r.used_bytes as nat),
            );
            match r.lfb_bytes {
                Some(l) => add_metric(
                    q,
                    "jetsonscope_iram_lfb_bytes"@,
                    "IRAM largest free block bytes"@,
                    "gauge"@,
                    num(l as nat),
                ),
                None => q,
            }
        },
    }
}

pub open spec fn mts_part(p: Seq<char>, m: Option<crate::parser::MtsStat>) -> Seq<char> {
    match m {
        None => p,
        Some(r) => add_metric(
            add_metric(
                p,
                "jetsonscope_mts_usage_fg_percent"@,
                "MTS FG usage percent"@,
                "gauge"@,
                num(r.fg_percent as nat),
            ),
            "jetsonscope_mts_usage_bg_percent"@,
            "MTS BG usage percent"@,
            "gauge"@,
            num(r.bg_percent as nat),
        ),
    }
}

/// One core: its load, and its frequency with a header of its own.
pub open spec fn core_part(p: Seq<char>, i: nat, c: CpuCore) -> Seq<char> {
    let q = match c.load_percent {
        Some(l) => add_sample(
            p,
            "jetsonscope_cpu_core_load_percent"@,
            label("core"@, num(i)),
            num(l as nat),
        ),
        None => p,
    };
    match c.freq_mhz {
        Some(f) => add_sample(
            add_help(q, "jetsonscope_cpu_core_freq_mhz"@, "CPU core frequency MHz"@, "gauge"@),
            "jetsonscope_cpu_core_freq_mhz"@,
            label("core"@, num(i)),
            num(f as nat),
        ),
        None => q,
    }
}

pub open spec fn cores_part(p: Seq<char>, cs: Seq<CpuCore>) -> Seq<char>
    decreases cs.len(),
{
    if cs.len() == 0 {
        p
    } else {
        core_part(cores_part(p, cs.drop_last()), (cs.len() - 1) as nat, cs.last())
    }
}

/// One engine: its usage, then its frequency and its bare value, each
/// with a header of its own.
pub open spec fn engine_part(p: Seq<char>, name: Seq<char>, e: EngineStat) -> Seq<char> {
    let l = label("engine"@, name);
    let q = match e.usage_percent {
        Some(u) => add_sample(p, "jetsonscope_engine_usage_percent"@, l, num(u as nat)),
        None => p,
    };
    let q2 = match e.freq_mhz {
        Some(f) => add_sample(
            add_help(q, "jetsonscope_engine_freq_mhz"@, "Engine frequency MHz"@, "gauge"@),
            "jetsonscope_engine_freq_mhz"@,
            l,
            num(f as nat),
        ),
        None => q,
    };
    match e.raw_value {
        Some(r) => add_sample(
            add_help(q2, "jetsonscope_engine_raw_value"@, "Engine raw value"@, "gauge"@),
            "jetsonscope_engine_raw_value"@,
            l,
            num(r as nat),
        ),
        None => q2,
    }
}

pub open spec fn engines_part(p: Seq<char>, es: Seq<(Seq<char>, EngineStat)>) -> Seq<char>
    decreases es.len(),
{
    if es.len() == 0 {
        p
    } else {
        engine_part(engines_part(p, es.drop_last()), es.last().0, es.last().1)
    }
}

pub open spec fn temps_part(p: Seq<char>, ts: Seq<(Seq<char>, i64)>) -> Seq<char>
    decreases ts.len(),
{
    if ts.len() == 0 {
        p
    } else {
        add_sample(
            temps_part(p, ts.drop_last()),
            "jetsonscope_temp_celsius"@,
            label("sensor"@, ts.last().0),
            milli_text(ts.last().1 as int),
        )
    }
}

pub open spec fn power_part(p: Seq<char>, ps: Seq<(Seq<char>, PowerRail)>) -> Seq<char>
    decreases ps.len(),
{
    if ps.len() == 0 {
        p
    } else {
        add_sample(
            add_sample(
                power_part(p, ps.drop_last()),
                "jetsonscope_power_mw_current"@,
                label("rail"@, ps.last().0),
                num(ps.last().1.current_mw as nat),
            ),
            "jetsonscope_power_mw_average"@,
            label("rail"@, ps.last().0),
            num(ps.last().1.average_mw as nat),
        )
    }
}

/// The metrics of one snapshot, section after section.
pub open spec fn stats_text(s: TegraStats) -> Seq<char> {
    let a = swap_part(ram_part(Seq::empty(), s.ram), s.swap);
    let b = cores_part(
        add_help(a, "jetsonscope_cpu_core_load_percent"@, "CPU core load percent"@, "gauge"@),
        s.cpus@,
    );
    let c = engines_part(
        add_help(b, "jetsonscope_engine_usage_percent"@, "Engine usage percent"@, "gauge"@),
        s.engines@,
    );
    let d = if s.temps@.len() > 0 {
        temps_part(
            add_help(c, "jetsonscope_temp_celsius"@, "Sensor temperature in Celsius"@, "gauge"@),
            s.temps@,
        )
    } else {
        c
    };
    let e = if s.power@.len() > 0 {
        power_part(
            add_help(
                add_help(d, "jetsonscope_power_mw_current"@, "Power rail current mW"@, "gauge"@),
                "jetsonscope_power_mw_average"@,
                "Power rail average mW"@,
                "gauge"@,
            ),
            s.power@,
        )
    } else {
        d
    };
    mts_part(iram_part(e, s.iram), s.mts)
}

fn push_metric_num(out: &mut String, name: &str, text: &str, kind: &str, value: u64)
    ensures
        final(out)@ == add_metric(old(out)@, name@, text@, kind@, num(value as nat)),
{
    push_help(out, name, text, kind);
    let empty = String::new();
    push_sample(out, name, empty.as_str(), decimal_string(value).as_str());
}

fn push_ram(out: &mut String, m: &Option<crate::parser::MemoryStat>)
    ensures
        final(out)@ == ram_part(old(out)@, *m),
{
    if let Some(r) = m {
        push_metric_num(out, "jetsonscope_ram_bytes_total", "RAM total bytes", "gauge", r.total_bytes);
        push_metric_num(out, "jetsonscope_ram_bytes_used", "RAM used bytes", "gauge", r.used_bytes);
        match r.largest_free_block {
            Some(LargestFreeBlock::Blocks { count, size_bytes }) => {
                push_metric_num(out, "jetsonscope_ram_lfb_blocks", "Largest free blocks count", "gauge", count);
                push_metric_num(
                    out,
                    "jetsonscope_ram_lfb_block_size_bytes",
                    "LFB block size bytes",
                    "gauge",
                    size_bytes,
                );
            },
            Some(LargestFreeBlock::Size { size_bytes }) => {
                push_metric_num(
                    out,
                    "jetsonscope_ram_lfb_size_bytes",
                    "Largest free block size bytes",
                    "gauge",
                    size_bytes,
                );
            },
            None => {},
        }
    }
}

fn push_swap(out: &mut String, m: &Option<crate::parser::SwapStat>)
    ensures
        final(out)@ == swap_part(old(out)@, *m),
{
    if let Some(r) = m {
        push_metric_num(out, "jetsonscope_swap_bytes_total", "SWAP total bytes", "gauge", r.total_bytes);
        push_metric_num(out, "jetsonscope_swap_bytes_used", "SWAP used bytes", "gauge", r.used_bytes);
    }
}

fn push_iram(out: &mut String, m: &Option<crate::parser::IramStat>)
    ensures
        final(out)@ == iram_part(old(out)@, *m),
{
    if let Some(r) = m {
        push_metric_num(out, "jetsonscope_iram_bytes_total", "IRAM total bytes", "gauge", r.total_bytes);
        push_metric_num(out, "jetsonscope_iram_bytes_used", "IRAM used bytes", "gauge", r.used_bytes);
        if let Some(l) = r.lfb_bytes {
            push_metric_num(out, "jetsonscope_iram_lfb_bytes", "IRAM largest free block bytes", "gauge", l);
        }
    }
}

fn push_mts(out: &mut String, m: &Option<crate::parser::MtsStat>)
    ensures
        final(out)@ == mts_part(old(out)@, *m),
{
    if let Some(r) = m {
        push_metric_num(out, "jetsonscope_mts_usage_fg_percent", "MTS FG usage percent", "gauge", r.fg_percent as u64);
        push_metric_num(out, "jetsonscope_mts_usage_bg_percent", "MTS BG usage percent", "gauge", r.bg_percent as u64);
    }
}

fn push_core(out: &mut String, i: usize, c: CpuCore)
    ensures
        final(out)@ == core_part(old(out)@, i as nat, c),
{
    let l = label_text("core", decimal_string(i as u64).as_str());
    if let Some(load) = c.load_percent {
        push_sample(out, "jetsonscope_cpu_core_load_percent", l.as_str(), decimal_string(load as u64).as_str());
    }
    if let Some(f) = c.freq_mhz {
        push_help(out, "jetsonscope_cpu_core_freq_mhz", "CPU core frequency MHz", "gauge");
        push_sample(out, "jetsonscope_cpu_core_freq_mhz", l.as_str(), decimal_string(f as u64).as_str());
    }
}

fn push_engine(out: &mut String, name: &String, e: EngineStat)
    ensures
        final(out)@ == engine_part(old(out)@, name@, e),
{
    let l = label_text("engine", name.as_str());
    if let Some(u) = e.usage_percent {
        push_sample(out, "jetsonscope_engine_usage_percent", l.as_str(), decimal_string(u as u64).as_str());
    }
    if let Some(f) = e.freq_mhz {
        push_help(out, "jetsonscope_engine_freq_mhz", "Engine frequency MHz", "gauge");
        push_sample(out, "jetsonscope_engine_freq_mhz", l.as_str(), decimal_string(f as u64).as_str());
    }
    if let Some(r) = e.raw_value {
        push_help(out, "jetsonscope_engine_raw_value", "Engine raw value", "gauge");
        push_sample(out, "jetsonscope_engine_raw_value", l.as_str(), decimal_string(r as u64).as_str());
    }
}

fn push_cores(out: &mut String, cs: &Vec<CpuCore>)
    ensures
        final(out)@ == cores_part(old(out)@, cs@),
{
    let ghost base = out@;
    let mut i: usize = 0;
    while i < cs.len()
        invariant
            i <= cs@.len(),
            out@ == cores_part(base, cs@.subrange(0, i as int)),
        decreases cs@.len() - i,
    {
        assert(cs@.subrange(0, i + 1).drop_last() == cs@.subrange(0, i as int));
        assert(cs@.subrange(0, i + 1).last() == cs@[i as int]);
        push_core(out, i, cs[i]);
        i = i + 1;
    }
    assert(cs@.subrange(0, cs@.len() as int) == cs@);
}

fn push_engines(out: &mut String, es: &NameMap<EngineStat>)
    ensures
        final(out)@ == engines_part(old(out)@, es@),
{
    let ghost base = out@;
    let mut i: usize = 0;
    while i < es.len()
        invariant
            i <= es@.len(),
            out@ == engines_part(base, es@.subrange(0, i as int)),
        decreases es@.len() - i,
    {
        assert(es@.subrange(0, i + 1).drop_last() == es@.subrange(0, i as int));
        assert(es@.subrange(0, i + 1).last() == es@[i as int]);
        let name = es.name_at(i);
        push_engine(out, &name, es.value_at(i));
        i = i + 1;
    }
    assert(es@.subrange(0, es@.len() as int) == es@);
}

fn push_temps(out: &mut String, ts: &NameMap<i64>)
    ensures
        final(out)@ == temps_part(old(out)@, ts@),
{
    let ghost base = out@;
    let mut i: usize = 0;
    while i < ts.len()
        invariant
            i <= ts@.len(),
            out@ == temps_part(base, ts@.subrange(0, i as int)),
        decreases ts@.len() - i,
    {
        assert(ts@.subrange(0, i + 1).drop_last() == ts@.subrange(0, i as int));
        assert(ts@.subrange(0, i + 1).last() == ts@[i as int]);
        let name = ts.name_at(i);
        let l = label_text("sensor", name.as_str());
        push_sample(out, "jetsonscope_temp_celsius", l.as_str(), milli_string(ts.value_at(i)).as_str());
        i = i + 1;
    }
    assert(ts@.subrange(0, ts@.len() as int) == ts@);
}

fn push_power(out: &mut String, ps: &NameMap<PowerRail>)
    ensures
        final(out)@ == power_part(old(out)@, ps@),
{
    let ghost base = out@;
    let mut i: usize = 0;
    while i < ps.len()
        invariant
            i <= ps@.len(),
            out@ == power_part(base, ps@.subrange(0, i as int)),
        decreases ps@.len() - i,
    {
        assert(ps@.subrange(0, i + 1).drop_last() == ps@.subrange(0, i as int));
        assert(ps@.subrange(0, i + 1).last() == ps@[i as int]);
        let name = ps.name_at(i);
        let rail = ps.value_at(i);
        let l = label_text("rail", name.as_str());
        push_sample(out, "jetsonscope_power_mw_current", l.as_str(), decimal_string(rail.current_mw as u64).as_str());
        push_sample(out, "jetsonscope_power_mw_average", l.as_str(), decimal_string(rail.average_mw as u64).as_str());
        i = i + 1;
    }
    assert(ps@.subrange(0, ps@.len() as int) == ps@);
}

/// The metrics of one snapshot: memory, every core, every engine, every
/// temperature and rail, IRAM and MTS.
pub fn stats_metrics(s: &TegraStats) -> (r: String)
    ensures
        r@ == stats_text(*s),
{
    let mut out = String::new();
    push_ram(&mut out, &s.ram);
    push_swap(&mut out, &s.swap);
    push_help(&mut out, "jetsonscope_cpu_core_load_percent", "CPU core load percent", "gauge");
    push_cores(&mut out, &s.cpus);
    push_help(&mut out, "jetsonscope_engine_usage_percent", "Engine usage percent", "gauge");
    push_engines(&mut out, &s.engines);
    if s.temps.len() > 0 {
        push_help(&mut out, "jetsonscope_temp_celsius", "Sensor temperature in Celsius", "gauge");
        push_temps(&mut out, &s.temps);
    }
    if s.power.len() > 0 {
        push_help(&mut out, "jetsonscope_power_mw_current", "Power rail current mW", "gauge");
        push_help(&mut out, "jetsonscope_power_mw_average", "Power rail average mW", "gauge");
        push_power(&mut out, &s.power);
    }
    push_iram(&mut out, &s.iram);
    push_mts(&mut out, &s.mts);
    out
}

// ---------------------------------------------------------------------
// Controls.
// ---------------------------------------------------------------------
/// A fan value such as `80%` as a number in thousandths.
pub open spec fn fan_percent_of(f: Seq<char>) -> Option<int> {
    match crate::text::decimal_milli(trim_end_char(crate::pattern::trimmed(f), '%')) {
        Some(v) => Some(crate::text::min_int(v, crate::text::FIXED_CAP as int)),
        None => None,
    }
}

pub open spec fn supported_part(p: Seq<char>, control: Seq<char>, b: bool) -> Seq<char> {
    add_sample(p, "jetsonscope_control_supported"@, label("control"@, control), flag(b))
}

pub open spec fn info_part(p: Seq<char>, name: Seq<char>, text: Seq<char>, key: Seq<char>, value: Seq<char>) -> Seq<char> {
    add_sample(add_help(p, name, text, "gauge"@), name, label(key, value), "1"@)
}

pub open spec fn modes_part(p: Seq<char>, modes: Seq<Seq<char>>) -> Seq<char>
    decreases modes.len(),
{
    if modes.len() == 0 {
        p
    } else {
        add_sample(
            modes_part(p, modes.drop_last()),
            "jetsonscope_control_nvpmodel_supported_modes"@,
            label("mode"@, modes.last()),
            "1"@,
        )
    }
}

pub open spec fn control_flags(p: Seq<char>, st: ControlStatus) -> Seq<char> {
    let a = add_help(p, "jetsonscope_control_supported"@, "Control supported flag"@, "gauge"@);
    let a = supported_part(a, "fan"@, st.supports_fan);
    let a = supported_part(a, "nvpmodel"@, st.supports_nvpmodel);
    let a = supported_part(a, "jetson_clocks"@, st.supports_jetson_clocks);
    let a = supported_part(a, "cpu_governor"@, st.supports_cpu_governor);
    let a = supported_part(a, "gpu_governor"@, st.supports_gpu_governor);
    supported_part(a, "gpu_railgate"@, st.supports_gpu_railgate)
}

pub open spec fn control_values(a: Seq<char>, st: ControlStatus) -> Seq<char> {
    let b = match st.jetson_clocks {
        Some(on) => add_metric(a, "jetsonscope_control_jetson_clocks_on"@, "Jetson clocks state"@, "gauge"@, flag(on)),
        None => a,
    };
    let c = match st.fan {
        Some(f) => match fan_percent_of(f@) {
            Some(v) => add_metric(b, "jetsonscope_control_fan_percent"@, "Fan setpoint percent"@, "gauge"@, milli_text(v)),
            None => b,
        },
        None => b,
    };
    let d = match st.nvpmodel {
        Some(m) => info_part(c, "jetsonscope_control_nvpmodel_mode"@, "Current nvpmodel mode"@, "mode"@, m@),
        None => c,
    };
    let modes = strings_view(st.nvpmodel_modes@);
    if modes.len() > 0 {
        modes_part(
            add_help(d, "jetsonscope_control_nvpmodel_supported_modes"@, "Nvpmodel modes supported (info)"@, "gauge"@),
            modes,
        )
    } else {
        d
    }
}

pub open spec fn control_states(e: Seq<char>, st: ControlStatus) -> Seq<char> {
    let f = match st.cpu_governor {
        Some(g) => info_part(e, "jetsonscope_control_cpu_governor"@, "Current CPU governor"@, "governor"@, sanitized(g@)),
        None => e,
    };
    let g = match st.gpu_governor {
        Some(x) => info_part(f, "jetsonscope_control_gpu_governor"@, "Current GPU governor"@, "governor"@, sanitized(x@)),
        None => f,
    };
    let h = match st.gpu_railgate {
        Some(auto) => add_metric(
            g,
            "jetsonscope_control_gpu_railgate"@,
            "GPU rail-gating state (auto=1/on=0)"@,
            "gauge"@,
            flag(auto),
        ),
        None => g,
    };
    match st.last_error {
        Some(m) => info_part(h, "jetsonscope_control_last_error"@, "Last control error (info)"@, "message"@, sanitized(m@)),
        None => h,
    }
}

/// The metrics of the controls: which are supported, and the current
/// value of each that is known.
pub open spec fn control_text(st: ControlStatus) -> Seq<char> {
    control_states(control_values(control_flags(Seq::empty(), st), st), st)
}

fn push_supported(out: &mut String, control: &str, b: bool)
    ensures
        final(out)@ == supported_part(old(out)@, control@, b),
{
    let l = label_text("control", control);
    push_sample(out, "jetsonscope_control_supported", l.as_str(), flag_text(b));
}

fn push_info(out: &mut String, name: &str, text: &str, key: &str, value: &str)
    ensures
        final(out)@ == info_part(old(out)@, name@, text@, key@, value@),
{
    push_help(out, name, text, "gauge");
    let l = label_text(key, value);
    push_sample(out, name, l.as_str(), "1");
}

fn push_flag_metric(out: &mut String, name: &str, text: &str, b: bool)
    ensures
        final(out)@ == add_metric(old(out)@, name@, text@, "gauge"@, flag(b)),
{
    push_help(out, name, text, "gauge");
    let empty = String::new();
    push_sample(out, name, empty.as_str(), flag_text(b));
}

fn fan_percent(f: &String) -> (r: Option<i64>)
    ensures
        match r {
            Some(v) => fan_percent_of(f@) == Some(v as int),
            None => fan_percent_of(f@) is None,
        },
{
    let t = crate::pattern::chars_of(crate::pattern::trim(f.as_str()).as_str());
    let body = crate::text::trim_end_char_chars(&t, '%');
    proof {
        crate::text::lemma_decimal_milli_nonneg(body@);
    }
    match crate::text::parse_milli(&body) {
        Some(v) => Some(v as i64),
        None => None,
    }
}

fn push_control_flags(out: &mut String, st: &ControlStatus)
    ensures
        final(out)@ == control_flags(old(out)@, *st),
{
    push_help(out, "jetsonscope_control_supported", "Control supported flag", "gauge");
    push_supported(out, "fan", st.supports_fan);
    push_supported(out, "nvpmodel", st.supports_nvpmodel);
    push_supported(out, "jetson_clocks", st.supports_jetson_clocks);
    push_supported(out, "cpu_governor", st.supports_cpu_governor);
    push_supported(out, "gpu_governor", st.supports_gpu_governor);
    push_supported(out, "gpu_railgate", st.supports_gpu_railgate);
}

fn push_control_values(out: &mut String, st: &ControlStatus)
    ensures
        final(out)@ == control_values(old(out)@, *st),
{
    if let Some(on) = st.jetson_clocks {
        push_flag_metric(out, "jetsonscope_control_jetson_clocks_on", "Jetson clocks state", on);
    }
    if let Some(f) = &st.fan {
        if let Some(v) = fan_percent(f) {
            push_help(out, "jetsonscope_control_fan_percent", "Fan setpoint percent", "gauge");
            let empty = String::new();
            push_sample(out, "jetsonscope_control_fan_percent", empty.as_str(), milli_string(v).as_str());
        }
    }
    if let Some(m) = &st.nvpmodel {
        push_info(out, "jetsonscope_control_nvpmodel_mode", "Current nvpmodel mode", "mode", m.as_str());
    }
    if st.nvpmodel_modes.len() > 0 {
        push_help(
            out,
            "jetsonscope_control_nvpmodel_supported_modes",
            "Nvpmodel modes supported (info)",
            "gauge",
        );
        let ghost base = out@;
        let ghost modes = strings_view(st.nvpmodel_modes@);
        let mut i: usize = 0;
        while i < st.nvpmodel_modes.len()
            invariant
                i <= modes.len(),
                modes == strings_view(st.nvpmodel_modes@),
                out@ == modes_part(base, modes.subrange(0, i as int)),
            decreases modes.len() - i,
        {
            assert(modes.subrange(0, i + 1).drop_last() == modes.subrange(0, i as int));
            assert(modes.subrange(0, i + 1).last() == st.nvpmodel_modes@[i as int]@);
            let l = label_text("mode", st.nvpmodel_modes[i].as_str());
            push_sample(out, "jetsonscope_control_nvpmodel_supported_modes", l.as_str(), "1");
            i = i + 1;
        }
        assert(modes.subrange(0, modes.len() as int) == modes);
    }
}

fn push_control_states(out: &mut String, st: &ControlStatus)
    ensures
        final(out)@ == control_states(old(out)@, *st),
{
    if let Some(g) = &st.cpu_governor {
        push_info(
            out,
            "jetsonscope_control_cpu_governor",
            "Current CPU governor",
            "governor",
            crate::server::sanitize_label(g.as_str()).as_str(),
        );
    }
    if let Some(g) = &st.gpu_governor {
        push_info(
            out,
            "jetsonscope_control_gpu_governor",
            "Current GPU governor",
            "governor",
            crate::server::sanitize_label(g.as_str()).as_str(),
        );
    }
    if let Some(auto) = st.gpu_railgate {
        push_flag_metric(out, "jetsonscope_control_gpu_railgate", "GPU rail-gating state (auto=1/on=0)", auto);
    }
    if let Some(m) = &st.last_error {
        push_info(
            out,
            "jetsonscope_control_last_error",
            "Last control error (info)",
            "message",
            crate::server::sanitize_label(m.as_str()).as_str(),
        );
    }
}

/// The metrics of the controls.
pub fn control_metrics(st: &ControlStatus) -> (r: String)
    ensures
        r@ == control_text(*st),
{
    let mut out = String::new();
    push_control_flags(&mut out, st);
    push_control_values(&mut out, st);
    push_control_states(&mut out, st);
    out
}

} // verus!
