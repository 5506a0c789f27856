//! The status-line parser: turns one `tegrastats` line into a snapshot.
//!
//! Each recognizer is a regular expression run over the whole line; what
//! the expressions match is named in `pattern`, and every contract here
//! says exactly what the parser builds from those matches.
use crate::namemap::{has_key, with_absent, with_put, NameMap};
use crate::pattern::{
    captures, captures_all, chars_of, groups_view, regex_captures, regex_captures_all, regex_split,
    split_at_match, string_of, trim, trim_start, trimmed, trimmed_start, Groups,
};
use crate::text::{
    bounded_unsigned, chars_equal, decimal_milli, ends_with, ends_with_chars, find_char,
    first_index, min_int, parse_milli, parse_unsigned, slice_chars, split_chars, split_on,
    strip_suffix, strip_suffix_chars, trim_brackets, trim_brackets_chars, trim_end_char,
    trim_end_char_chars, views_of, FIXED_CAP,
};
use vstd::prelude::*;

verus! {

pub const DATE_RE: &'static str = "\\d{2}-\\d{2}-\\d{4} \\d{2}:\\d{2}:\\d{2}";

pub const SWAP_RE: &'static str = "SWAP (\\d+)/(\\d+)(\\w)B ?\\(cached (\\d+)(\\w)B\\)";

pub const IRAM_RE: &'static str = "IRAM (\\d+)/(\\d+)(\\w)B ?\\(lfb (\\d+)(\\w)B\\)";

pub const RAM_RE: &'static str = "RAM (\\d+)/(\\d+)(\\w)B ?\\(lfb (\\d+)x(\\d+)(\\w)B\\)";

pub const MTS_RE: &'static str = "MTS fg (\\d+)% bg (\\d+)%";

pub const VALS_RE: &'static str = "\\b([A-Z0-9_]+) ([0-9%@]+(?:@\\[\\d+\\]|@\\d+)?)(?:\\s|$)";

pub const ENGINE_OFF_RE: &'static str = "\\b([A-Z0-9_]+) off\\b";

pub const BRACKET_FREQ_RE: &'static str = "([A-Z0-9_]+) ([0-9]+)%@\\[(\\d+)\\]";

pub const UTIL_ONLY_RE: &'static str = "([A-Z0-9_]+_UTIL) ([0-9]+)%";

pub const VAL_FREQ_RE: &'static str = "(\\d+)%@(\\d+)";

pub const CPU_RE: &'static str = "CPU \\[(.*?)\\]";

pub const WATT_RE: &'static str = "\\b(\\w+) ([0-9.]+)([kKmM]?)W?/([0-9.]+)([kKmM]?)W?\\b";

pub const TEMP_RE: &'static str = "\\b(\\w+)@(-?[0-9.]+)C\\b";

/// The unit in which a memory figure is written.
#[derive(Debug, Clone, Copy, PartialEq, Eq, Structural)]
pub enum SizeUnit {
    KB,
    MB,
}

impl SizeUnit {
    pub open spec fn multiplier(self) -> int {
        match self {
            SizeUnit::KB => 1024int,
            SizeUnit::MB => 1048576int,
        }
    }

    /// `k`/`K` is kilobytes, `m`/`M` megabytes.
    pub open spec fn spec_from_suffix(raw: Seq<char>) -> Option<SizeUnit> {
        if raw == seq!['k'] || raw == seq!['K'] {
            Some(SizeUnit::KB)
        } else if raw == seq!['m'] || raw == seq!['M'] {
            Some(SizeUnit::MB)
        } else {
            None
        }
    }

    fn from_suffix(raw: &Vec<char>) -> (r: Option<SizeUnit>)
        ensures
            r == SizeUnit::spec_from_suffix(raw@),
    {
        if raw.len() != 1 {
            return None;
        }
        let c = raw[0];
        assert(raw@ == seq![c]);
        if c == 'k' || c == 'K' {
            Some(SizeUnit::KB)
        } else if c == 'm' || c == 'M' {
            Some(SizeUnit::MB)
        } else {
            None
        }
    }

    /// `value` units in bytes, saturating at `u64::MAX`.
    pub fn to_bytes(self, value: u64) -> (r: u64)
        ensures
            r == min_int(value * self.multiplier(), u64::MAX as int),
    {
        match self {
            SizeUnit::KB => {
                if value > u64::MAX / 1024 {
                    u64::MAX
                } else {
                    assert(value * 1024 <= u64::MAX) by (nonlinear_arith)
                        requires
                            value <= u64::MAX / 1024,
                    ;
                    value * 1024
                }
            },
            SizeUnit::MB => {
                if value > u64::MAX / 1048576 {
                    u64::MAX
                } else {
                    assert(value * 1048576 <= u64::MAX) by (nonlinear_arith)
                        requires
                            value <= u64::MAX / 1048576,
                    ;
                    value * 1048576
                }
            },
        }
    }
}

impl Default for SizeUnit {
    fn default() -> (r: SizeUnit)
        ensures
            r == SizeUnit::MB,
    {
        SizeUnit::MB
    }
}

#[derive(Debug, Clone, Copy, PartialEq, Eq, Structural)]
pub enum LargestFreeBlock {
    Blocks { count: u64, size_bytes: u64 },
    Size { size_bytes: u64 },
}

#[derive(Debug, Clone, Copy, PartialEq, Eq, Structural)]
pub struct MemoryStat {
    pub used_bytes: u64,
    pub total_bytes: u64,
    pub unit: SizeUnit,
    pub largest_free_block: Option<LargestFreeBlock>,
}

#[derive(Debug, Clone, Copy, PartialEq, Eq, Structural)]
pub struct SwapStat {
    pub used_bytes: u64,
    pub total_bytes: u64,
    pub cached_bytes: Option<u64>,
    pub unit: SizeUnit,
}

#[derive(Debug, Clone, Copy, PartialEq, Eq, Structural)]
pub struct IramStat {
    pub used_bytes: u64,
    pub total_bytes: u64,
    pub lfb_bytes: Option<u64>,
    pub unit: SizeUnit,
}

#[derive(Debug, Clone, Copy, PartialEq, Eq, Structural)]
pub struct CpuCore {
    pub load_percent: Option<u32>,
    pub freq_mhz: Option<u32>,
}

#[derive(Debug, Clone, Copy, PartialEq, Eq, Structural)]
pub struct EngineStat {
    pub usage_percent: Option<u32>,
    pub freq_mhz: Option<u32>,
    pub raw_value: Option<u32>,
}

#[derive(Debug, Clone, Copy, PartialEq, Eq, Structural)]
pub struct PowerRail {
    pub current_mw: u32,
    pub average_mw: u32,
}

#[derive(Debug, Clone, Copy, PartialEq, Eq, Structural)]
pub struct MtsStat {
    pub fg_percent: u32,
    pub bg_percent: u32,
}

/// One parsed status line. Temperatures are in thousandths of a degree
/// Celsius.
#[derive(Debug, Clone)]
pub struct TegraStats {
    pub timestamp: Option<String>,
    pub ram: Option<MemoryStat>,
    pub swap: Option<SwapStat>,
    pub iram: Option<IramStat>,
    pub mts: Option<MtsStat>,
    pub cpus: Vec<CpuCore>,
    pub engines: NameMap<EngineStat>,
    pub temps: NameMap<i64>,
    pub power: NameMap<PowerRail>,
    pub raw: String,
}

// ---------------------------------------------------------------------
// What each recognizer builds from the groups of its matches.
// ---------------------------------------------------------------------
/// Group `i` of a match, empty when it took no part.
pub open spec fn group(g: Groups, i: int) -> Seq<char> {
    if 0 <= i < g.len() {
        match g[i] {
            Some(s) => s,
            None => Seq::<char>::empty(),
        }
    } else {
        Seq::<char>::empty()
    }
}

/// An unsigned 64-bit number, zero when the text is not one.
pub open spec fn u64_or_zero(s: Seq<char>) -> u64 {
    match bounded_unsigned(s, u64::MAX as int) {
        Some(n) => n as u64,
        None => 0,
    }
}

pub open spec fn u32_of(s: Seq<char>) -> Option<u32> {
    match bounded_unsigned(s, u32::MAX as int) {
        Some(n) => Some(n as u32),
        None => None,
    }
}

pub open spec fn u32_or_zero(s: Seq<char>) -> u32 {
    match u32_of(s) {
        Some(n) => n,
        None => 0,
    }
}

/// A unit suffix; anything but `k`/`K`/`m`/`M` counts as megabytes.
pub open spec fn unit_of(s: Seq<char>) -> SizeUnit {
    match SizeUnit::spec_from_suffix(s) {
        Some(u) => u,
        None => SizeUnit::MB,
    }
}

pub open spec fn bytes_of(unit: SizeUnit, n: u64) -> u64 {
    min_int(n * unit.multiplier(), u64::MAX as int) as u64
}

pub open spec fn ram_of(g: Groups) -> MemoryStat {
    let unit = unit_of(group(g, 3));
    MemoryStat {
        used_bytes: bytes_of(unit, u64_or_zero(group(g, 1))),
        total_bytes: bytes_of(unit, u64_or_zero(group(g, 2))),
        unit,
        largest_free_block: Some(
            LargestFreeBlock::Blocks {
                count: u64_or_zero(group(g, 4)),
                size_bytes: bytes_of(unit_of(group(g, 6)), u64_or_zero(group(g, 5))),
            },
        ),
    }
}

pub open spec fn swap_of(g: Groups) -> SwapStat {
    let unit = unit_of(group(g, 3));
    SwapStat {
        used_bytes: bytes_of(unit, u64_or_zero(group(g, 1))),
        total_bytes: bytes_of(unit, u64_or_zero(group(g, 2))),
        cached_bytes: Some(bytes_of(unit_of(group(g, 5)), u64_or_zero(group(g, 4)))),
        unit,
    }
}

pub open spec fn iram_of(g: Groups) -> IramStat {
    let unit = unit_of(group(g, 3));
    IramStat {
        used_bytes: bytes_of(unit, u64_or_zero(group(g, 1))),
        total_bytes: bytes_of(unit, u64_or_zero(group(g, 2))),
        lfb_bytes: Some(bytes_of(unit_of(group(g, 5)), u64_or_zero(group(g, 4)))),
        unit,
    }
}

pub open spec fn mts_of(g: Groups) -> MtsStat {
    MtsStat { fg_percent: u32_or_zero(group(g, 1)), bg_percent: u32_or_zero(group(g, 2)) }
}

pub open spec fn spec_parse_ram(text: Seq<char>) -> Option<MemoryStat> {
    match regex_captures(RAM_RE@, text) {
        Some(g) => Some(ram_of(g)),
        None => None,
    }
}

pub open spec fn spec_parse_swap(text: Seq<char>) -> Option<SwapStat> {
    match regex_captures(SWAP_RE@, text) {
        Some(g) => Some(swap_of(g)),
        None => None,
    }
}

pub open spec fn spec_parse_iram(text: Seq<char>) -> Option<IramStat> {
    match regex_captures(IRAM_RE@, text) {
        Some(g) => Some(iram_of(g)),
        None => None,
    }
}

pub open spec fn spec_parse_mts(text: Seq<char>) -> Option<MtsStat> {
    match regex_captures(MTS_RE@, text) {
        Some(g) => Some(mts_of(g)),
        None => None,
    }
}

/// One entry of the CPU block: `off`, `<load>%@<freq>`, or `<load>%`.
pub open spec fn core_of(token: Seq<char>) -> CpuCore {
    if token == "off"@ {
        CpuCore { load_percent: None, freq_mhz: None }
    } else {
        match regex_captures(VAL_FREQ_RE@, token) {
            Some(g) => CpuCore { load_percent: u32_of(group(g, 1)), freq_mhz: u32_of(group(g, 2)) },
            None => if token.len() > 0 && token.last() == '%' {
                CpuCore { load_percent: u32_of(token.drop_last()), freq_mhz: None }
            } else {
                CpuCore { load_percent: None, freq_mhz: None }
            },
        }
    }
}

/// One core per comma-separated token of the `CPU [...]` block.
pub open spec fn spec_parse_cpus(text: Seq<char>) -> Seq<CpuCore> {
    match regex_captures(CPU_RE@, text) {
        Some(g) => split_on(group(g, 1), ',').map_values(|p: Seq<char>| core_of(trimmed(p))),
        None => Seq::<CpuCore>::empty(),
    }
}

/// The names that belong to the structured records.
pub open spec fn forbidden(name: Seq<char>) -> bool {
    name == "RAM"@ || name == "SWAP"@ || name == "IRAM"@ || name == "CPU"@ || name == "MTS"@
}

/// An engine's name with a trailing `_FREQ` removed.
pub open spec fn engine_key(name: Seq<char>) -> Seq<char> {
    strip_suffix(name, "_FREQ"@)
}

pub open spec fn usage_only(u: Option<u32>) -> EngineStat {
    EngineStat { usage_percent: u, freq_mhz: None, raw_value: None }
}

/// A value such as `12%@400`, `0%@[305]`, `12%`, or a bare `716`.
pub open spec fn val_stat(v: Seq<char>) -> EngineStat {
    match first_index(v, '@') {
        Some(k) => EngineStat {
            usage_percent: u32_of(trim_end_char(v.subrange(0, k), '%')),
            freq_mhz: u32_of(trim_brackets(v.subrange(k + 1, v.len() as int))),
            raw_value: None,
        },
        None => if v.len() > 0 && v.last() == '%' {
            usage_only(u32_of(v.drop_last()))
        } else {
            EngineStat { usage_percent: None, freq_mhz: u32_of(v), raw_value: u32_of(v) }
        },
    }
}

/// The entry that an engine named `name` would add: none for the names of
/// the structured records.
pub open spec fn candidate(name: Seq<char>, st: EngineStat) -> Seq<(Seq<char>, EngineStat)> {
    if forbidden(engine_key(name)) {
        Seq::empty()
    } else {
        seq![(engine_key(name), st)]
    }
}

/// The entries that one match of recognizer `kind` adds: 0 bracketed
/// frequency, 1 general value, 2 `off`, 3 `_UTIL` percentage.
pub open spec fn engine_item(kind: int, g: Groups) -> Seq<(Seq<char>, EngineStat)> {
    let name = group(g, 1);
    if kind == 0 {
        candidate(
            name,
            EngineStat {
                usage_percent: u32_of(group(g, 2)),
                freq_mhz: u32_of(group(g, 3)),
                raw_value: None,
            },
        )
    } else if kind == 1 {
        if ends_with(engine_key(name), "_UTIL"@) {
            Seq::empty()
        } else {
            candidate(name, val_stat(group(g, 2)))
        }
    } else if kind == 3 {
        let st = usage_only(u32_of(group(g, 2)));
        candidate(name, st) + if ends_with(name, "_UTIL"@) {
            candidate(strip_suffix(name, "_UTIL"@), st)
        } else {
            Seq::empty()
        }
    } else {
        candidate(name, usage_only(Some(0)))
    }
}

pub open spec fn engine_items(kind: int, gs: Seq<Groups>) -> Seq<(Seq<char>, EngineStat)>
    decreases gs.len(),
{
    if gs.len() == 0 {
        Seq::empty()
    } else {
        engine_items(kind, gs.drop_last()) + engine_item(kind, gs.last())
    }
}

pub open spec fn engine_pattern(kind: int) -> Seq<char> {
    if kind == 0 {
        BRACKET_FREQ_RE@
    } else if kind == 1 {
        VALS_RE@
    } else if kind == 2 {
        ENGINE_OFF_RE@
    } else {
        UTIL_ONLY_RE@
    }
}

/// Every engine entry the four recognizers propose, in recognizer order.
pub open spec fn engine_candidates(text: Seq<char>) -> Seq<(Seq<char>, EngineStat)> {
    engine_items(0, regex_captures_all(engine_pattern(0), text)) + engine_items(
        1,
        regex_captures_all(engine_pattern(1), text),
    ) + engine_items(2, regex_captures_all(engine_pattern(2), text)) + engine_items(
        3,
        regex_captures_all(engine_pattern(3), text),
    )
}

/// Adds each candidate in turn unless its name is there already.
pub open spec fn absorb<T>(m: Seq<(Seq<char>, T)>, c: Seq<(Seq<char>, T)>) -> Seq<
    (Seq<char>, T),
>
    decreases c.len(),
{
    if c.len() == 0 {
        m
    } else {
        with_absent(absorb(m, c.drop_last()), c.last().0, c.last().1)
    }
}

/// Sets each candidate in turn, the last one for a name winning.
pub open spec fn put_all<T>(m: Seq<(Seq<char>, T)>, c: Seq<(Seq<char>, T)>) -> Seq<
    (Seq<char>, T),
>
    decreases c.len(),
{
    if c.len() == 0 {
        m
    } else {
        with_put(put_all(m, c.drop_last()), c.last().0, c.last().1)
    }
}

pub open spec fn spec_parse_engines(text: Seq<char>) -> Seq<(Seq<char>, EngineStat)> {
    absorb(Seq::empty(), engine_candidates(text))
}

/// A temperature such as `-41.5` in thousandths of a degree.
pub open spec fn temp_milli(s: Seq<char>) -> Option<i64> {
    if s.len() > 0 && s[0] == '-' {
        match decimal_milli(s.drop_first()) {
            Some(v) => Some((-min_int(v, FIXED_CAP as int)) as i64),
            None => None,
        }
    } else {
        match decimal_milli(s) {
            Some(v) => Some(min_int(v, FIXED_CAP as int) as i64),
            None => None,
        }
    }
}

pub open spec fn temp_items(gs: Seq<Groups>) -> Seq<(Seq<char>, i64)>
    decreases gs.len(),
{
    if gs.len() == 0 {
        Seq::empty()
    } else {
        temp_items(gs.drop_last()) + match temp_milli(group(gs.last(), 2)) {
            Some(t) => seq![(group(gs.last(), 1), t)],
            None => Seq::empty(),
        }
    }
}

pub open spec fn spec_parse_temps(text: Seq<char>) -> Seq<(Seq<char>, i64)> {
    put_all(Seq::empty(), temp_items(regex_captures_all(TEMP_RE@, text)))
}

/// A power figure in milliwatts: the prefix `k`/`K` multiplies by 1000;
/// `m`/`M` or no prefix is taken as milliwatts (truncated).
pub open spec fn power_mw(unit: Seq<char>, value: Seq<char>) -> u32 {
    let v = match decimal_milli(value) {
        Some(v) => min_int(v, FIXED_CAP as int),
        None => 0,
    };
    if unit == seq!['k'] || unit == seq!['K'] {
        min_int(v, u32::MAX as int) as u32
    } else {
        min_int(v / 1000, u32::MAX as int) as u32
    }
}

pub open spec fn rail_of(g: Groups) -> PowerRail {
    PowerRail {
        current_mw: power_mw(group(g, 3), group(g, 2)),
        average_mw: power_mw(group(g, 5), group(g, 4)),
    }
}

pub open spec fn power_items(gs: Seq<Groups>) -> Seq<(Seq<char>, PowerRail)>
    decreases gs.len(),
{
    if gs.len() == 0 {
        Seq::empty()
    } else {
        power_items(gs.drop_last()).push((group(gs.last(), 1), rail_of(gs.last())))
    }
}

pub open spec fn spec_parse_power(text: Seq<char>) -> Seq<(Seq<char>, PowerRail)> {
    put_all(Seq::empty(), power_items(regex_captures_all(WATT_RE@, text)))
}

/// The timestamp, when the line has one, and the text the recognizers see.
pub open spec fn split_timestamp(raw: Seq<char>) -> (Option<Seq<char>>, Seq<char>) {
    match regex_split(DATE_RE@, raw) {
        Some((before, m, after)) => (Some(trimmed(m)), trimmed_start(before + after)),
        None => (None, raw),
    }
}

pub open spec fn gpu_of(engines: Seq<(Seq<char>, EngineStat)>) -> Option<u32> {
    match crate::namemap::lookup(engines, "GR3D"@) {
        Some(e) => if e.usage_percent is Some {
            e.usage_percent
        } else {
            e.raw_value
        },
        None => None,
    }
}

pub open spec fn opt_view(s: Option<String>) -> Option<Seq<char>> {
    match s {
        Some(v) => Some(v@),
        None => None,
    }
}

/// What `parse` builds from a line.
pub open spec fn snapshot_of(s: TegraStats, line: Seq<char>) -> bool {
    let raw = trimmed(line);
    let (ts, payload) = split_timestamp(raw);
    &&& s.raw@ == raw
    &&& opt_view(s.timestamp) == ts
    &&& s.ram == spec_parse_ram(payload)
    &&& s.swap == spec_parse_swap(payload)
    &&& s.iram == spec_parse_iram(payload)
    &&& s.mts == spec_parse_mts(payload)
    &&& s.cpus@ == spec_parse_cpus(payload)
    &&& s.engines@ == spec_parse_engines(payload)
    &&& s.temps@ == spec_parse_temps(payload)
    &&& s.power@ == spec_parse_power(payload)
}

pub proof fn lemma_absorb_concat<T>(
    m: Seq<(Seq<char>, T)>,
    a: Seq<(Seq<char>, T)>,
    b: Seq<(Seq<char>, T)>,
)
    ensures
        absorb(m, a + b) == absorb(absorb(m, a), b),
    decreases b.len(),
{
    if b.len() == 0 {
        assert(a + b == a);
    } else {
        assert((a + b).drop_last() == a + b.drop_last());
        assert((a + b).last() == b.last());
        lemma_absorb_concat(m, a, b.drop_last());
    }
}

fn group_chars(g: &Vec<Option<String>>, i: usize) -> (r: Vec<char>)
    ensures
        r@ == group(groups_view(g@), i as int),
{
    if i < g.len() {
        match &g[i] {
            Some(s) => chars_of(s.as_str()),
            None => Vec::new(),
        }
    } else {
        Vec::new()
    }
}

fn read_u64_or_zero(s: &Vec<char>) -> (r: u64)
    ensures
        r == u64_or_zero(s@),
{
    proof {
        crate::text::lemma_bounded_unsigned_range(s@, u64::MAX as int);
    }
    match parse_unsigned(s, u64::MAX) {
        Some(n) => n,
        None => 0,
    }
}

fn read_u32(s: &Vec<char>) -> (r: Option<u32>)
    ensures
        r == u32_of(s@),
{
    proof {
        crate::text::lemma_bounded_unsigned_range(s@, u32::MAX as int);
    }
    match parse_unsigned(s, u32::MAX as u64) {
        Some(n) => Some(n as u32),
        None => None,
    }
}

fn parse_size_unit(raw: &Vec<char>) -> (r: SizeUnit)
    ensures
        r == unit_of(raw@),
{
    match SizeUnit::from_suffix(raw) {
        Some(u) => u,
        None => SizeUnit::MB,
    }
}

/// The RAM record of the groups of a RAM match.
pub fn ram_from_groups(caps: &Vec<Option<String>>) -> (r: MemoryStat)
    ensures
        r == ram_of(groups_view(caps@)),
{
    let unit = parse_size_unit(&group_chars(caps, 3));
    let used = read_u64_or_zero(&group_chars(caps, 1));
    let total = read_u64_or_zero(&group_chars(caps, 2));
    let lfb_count = read_u64_or_zero(&group_chars(caps, 4));
    let lfb_size = read_u64_or_zero(&group_chars(caps, 5));
    let lfb_unit = parse_size_unit(&group_chars(caps, 6));
    MemoryStat {
        used_bytes: unit.to_bytes(used),
        total_bytes: unit.to_bytes(total),
        unit,
        largest_free_block: Some(
            LargestFreeBlock::Blocks { count: lfb_count, size_bytes: lfb_unit.to_bytes(lfb_size) },
        ),
    }
}

fn parse_ram(text: &str) -> (r: Option<MemoryStat>)
    ensures
        r == spec_parse_ram(text@),
{
    match captures(RAM_RE, text) {
        None => None,
        Some(caps) => Some(ram_from_groups(&caps)),
    }
}

/// The swap record of the groups of a SWAP match.
pub fn swap_from_groups(caps: &Vec<Option<String>>) -> (r: SwapStat)
    ensures
        r == swap_of(groups_view(caps@)),
{
    let unit = parse_size_unit(&group_chars(caps, 3));
    let cached_unit = parse_size_unit(&group_chars(caps, 5));
    let used = read_u64_or_zero(&group_chars(caps, 1));
    let total = read_u64_or_zero(&group_chars(caps, 2));
    let cached = read_u64_or_zero(&group_chars(caps, 4));
    SwapStat {
        used_bytes: unit.to_bytes(used),
        total_bytes: unit.to_bytes(total),
        cached_bytes: Some(cached_unit.to_bytes(cached)),
        unit,
    }
}

fn parse_swap(text: &str) -> (r: Option<SwapStat>)
    ensures
        r == spec_parse_swap(text@),
{
    match captures(SWAP_RE, text) {
        None => None,
        Some(caps) => Some(swap_from_groups(&caps)),
    }
}

/// The IRAM record of the groups of an IRAM match.
pub fn iram_from_groups(caps: &Vec<Option<String>>) -> (r: IramStat)
    ensures
        r == iram_of(groups_view(caps@)),
{
    let unit = parse_size_unit(&group_chars(caps, 3));
    let lfb_unit = parse_size_unit(&group_chars(caps, 5));
    let used = read_u64_or_zero(&group_chars(caps, 1));
    let total = read_u64_or_zero(&group_chars(caps, 2));
    let lfb = read_u64_or_zero(&group_chars(caps, 4));
    IramStat {
        used_bytes: unit.to_bytes(used),
        total_bytes: unit.to_bytes(total),
        lfb_bytes: Some(lfb_unit.to_bytes(lfb)),
        unit,
    }
}

fn parse_iram(text: &str) -> (r: Option<IramStat>)
    ensures
        r == spec_parse_iram(text@),
{
    match captures(IRAM_RE, text) {
        None => None,
        Some(caps) => Some(iram_from_groups(&caps)),
    }
}

/// The MTS record of the groups of an MTS match.
pub fn mts_from_groups(caps: &Vec<Option<String>>) -> (r: MtsStat)
    ensures
        r == mts_of(groups_view(caps@)),
{
    let fg = match read_u32(&group_chars(caps, 1)) {
        Some(n) => n,
        None => 0,
    };
    let bg = match read_u32(&group_chars(caps, 2)) {
        Some(n) => n,
        None => 0,
    };
    MtsStat { fg_percent: fg, bg_percent: bg }
}

fn parse_mts(text: &str) -> (r: Option<MtsStat>)
    ensures
        r == spec_parse_mts(text@),
{
    match captures(MTS_RE, text) {
        None => None,
        Some(caps) => Some(mts_from_groups(&caps)),
    }
}

pub fn parse_core(t: &Vec<char>) -> (r: CpuCore)
    ensures
        r == core_of(t@),
{
    let off = chars_of("off");
    if chars_equal(t, &off) {
        return CpuCore { load_percent: None, freq_mhz: None };
    }
    let s = string_of(t);
    match captures(VAL_FREQ_RE, s.as_str()) {
        Some(caps) => CpuCore {
            load_percent: read_u32(&group_chars(&caps, 1)),
            freq_mhz: read_u32(&group_chars(&caps, 2)),
        },
        None => {
            let n = t.len();
            if n > 0 && t[n - 1] == '%' {
                let body = slice_chars(t, 0, n - 1);
                assert(body@ == t@.drop_last());
                CpuCore { load_percent: read_u32(&body), freq_mhz: None }
            } else {
                CpuCore { load_percent: None, freq_mhz: None }
            }
        },
    }
}

/// One core per comma-separated token of the `CPU [...]` block; `off`
/// gives a core with neither load nor frequency.
pub fn parse_cpus(text: &str) -> (r: Vec<CpuCore>)
    ensures
        r@ == spec_parse_cpus(text@),
{
    match captures(CPU_RE, text) {
        None => Vec::new(),
        Some(caps) => {
            let content = group_chars(&caps, 1);
            let pieces = split_chars(&content, ',');
            let ghost parts = split_on(content@, ',');
            let mut cpus: Vec<CpuCore> = Vec::new();
            let mut i: usize = 0;
            while i < pieces.len()
                invariant
                    i <= pieces@.len(),
                    views_of(pieces@) == parts,
                    cpus@ == parts.subrange(0, i as int).map_values(
                        |p: Seq<char>| core_of(trimmed(p)),
                    ),
                decreases pieces@.len() - i,
            {
                let piece = string_of(&pieces[i]);
                let token = chars_of(trim(piece.as_str()).as_str());
                assert(pieces@[i as int]@ == parts[i as int]);
                cpus.push(parse_core(&token));
                assert(cpus@ =~= parts.subrange(0, i + 1).map_values(
                    |p: Seq<char>| core_of(trimmed(p)),
                ));
                i = i + 1;
            }
            assert(parts.subrange(0, parts.len() as int) == parts);
            cpus
        },
    }
}

fn is_forbidden(n: &Vec<char>) -> (r: bool)
    ensures
        r == forbidden(n@),
{
    chars_equal(n, &chars_of("RAM")) || chars_equal(n, &chars_of("SWAP")) || chars_equal(
        n,
        &chars_of("IRAM"),
    ) || chars_equal(n, &chars_of("CPU")) || chars_equal(n, &chars_of("MTS"))
}

fn candidate_entries(name: &Vec<char>, st: EngineStat) -> (r: Vec<(String, EngineStat)>)
    ensures
        crate::namemap::entries_view(r@) == candidate(name@, st),
{
    let key = strip_suffix_chars(name, &chars_of("_FREQ"));
    let mut v: Vec<(String, EngineStat)> = Vec::new();
    if !is_forbidden(&key) {
        v.push((string_of(&key), st));
    }
    assert(crate::namemap::entries_view(v@) =~= candidate(name@, st));
    v
}

pub fn parse_val_freq(v: &Vec<char>) -> (r: EngineStat)
    ensures
        r == val_stat(v@),
{
    let n = v.len();
    match find_char(v, '@') {
        Some(k) => {
            let usage = read_u32(&trim_end_char_chars(&slice_chars(v, 0, k), '%'));
            let freq = read_u32(&trim_brackets_chars(&slice_chars(v, k + 1, n)));
            EngineStat { usage_percent: usage, freq_mhz: freq, raw_value: None }
        },
        None => {
            if n > 0 && v[n - 1] == '%' {
                let body = slice_chars(v, 0, n - 1);
                assert(body@ == v@.drop_last());
                EngineStat { usage_percent: read_u32(&body), freq_mhz: None, raw_value: None }
            } else {
                let x = read_u32(v);
                EngineStat { usage_percent: None, freq_mhz: x, raw_value: x }
            }
        },
    }
}

/// The entries that one match of recognizer `kind` proposes, from the
/// groups of that match.
pub fn engine_entries(kind: u8, caps: &Vec<Option<String>>) -> (r: Vec<(String, EngineStat)>)
    requires
        kind < 4,
    ensures
        crate::namemap::entries_view(r@) == engine_item(kind as int, groups_view(caps@)),
{
    let name = group_chars(caps, 1);
    if kind == 0 {
        let st = EngineStat {
            usage_percent: read_u32(&group_chars(caps, 2)),
            freq_mhz: read_u32(&group_chars(caps, 3)),
            raw_value: None,
        };
        candidate_entries(&name, st)
    } else if kind == 1 {
        let key = strip_suffix_chars(&name, &chars_of("_FREQ"));
        if ends_with_chars(&key, &chars_of("_UTIL")) {
            let v: Vec<(String, EngineStat)> = Vec::new();
            assert(crate::namemap::entries_view(v@) =~= Seq::empty());
            v
        } else {
            candidate_entries(&name, parse_val_freq(&group_chars(caps, 2)))
        }
    } else if kind == 3 {
        let st = EngineStat {
            usage_percent: read_u32(&group_chars(caps, 2)),
            freq_mhz: None,
            raw_value: None,
        };
        let mut first = candidate_entries(&name, st);
        let util = chars_of("_UTIL");
        let ghost head = first@;
        if ends_with_chars(&name, &util) {
            let base = strip_suffix_chars(&name, &util);
            let mut second = candidate_entries(&base, st);
            let ghost tail = second@;
            first.append(&mut second);
            assert(crate::namemap::entries_view(first@) =~= crate::namemap::entries_view(head)
                + crate::namemap::entries_view(tail));
        } else {
            assert(crate::namemap::entries_view(first@) =~= crate::namemap::entries_view(head)
                + Seq::empty());
        }
        first
    } else {
        candidate_entries(
            &name,
            EngineStat { usage_percent: Some(0), freq_mhz: None, raw_value: None },
        )
    }
}

fn absorb_entries(engines: &mut NameMap<EngineStat>, items: &Vec<(String, EngineStat)>)
    ensures
        final(engines)@ == absorb(old(engines)@, crate::namemap::entries_view(items@)),
{
    let ghost start = engines@;
    let mut j: usize = 0;
    while j < items.len()
        invariant
            j <= items@.len(),
            engines@ == absorb(start, crate::namemap::entries_view(items@.subrange(0, j as int))),
        decreases items@.len() - j,
    {
        let ghost prev = crate::namemap::entries_view(items@.subrange(0, j as int));
        let ghost next = crate::namemap::entries_view(items@.subrange(0, j + 1));
        assert(next.drop_last() =~= prev);
        assert(next.last() == (items@[j as int].0@, items@[j as int].1));
        let name = items[j].0.clone();
        engines.insert_if_absent(name, items[j].1);
        j = j + 1;
    }
    assert(items@.subrange(0, items@.len() as int) == items@);
}

fn engine_pattern_text(kind: u8) -> (r: &'static str)
    requires
        kind < 4,
    ensures
        r@ == engine_pattern(kind as int),
{
    if kind == 0 {
        BRACKET_FREQ_RE
    } else if kind == 1 {
        VALS_RE
    } else if kind == 2 {
        ENGINE_OFF_RE
    } else {
        UTIL_ONLY_RE
    }
}

fn run_engine_recognizer(engines: &mut NameMap<EngineStat>, kind: u8, text: &str)
    requires
        kind < 4,
    ensures
        final(engines)@ == absorb(
            old(engines)@,
            engine_items(kind as int, regex_captures_all(engine_pattern(kind as int), text@)),
        ),
{
    let all = captures_all(engine_pattern_text(kind), text);
    let ghost gs = regex_captures_all(engine_pattern(kind as int), text@);
    let ghost start = engines@;
    let mut i: usize = 0;
    while i < all.len()
        invariant
            kind < 4,
            i <= all@.len() == gs.len(),
            forall|k: int| 0 <= k < all@.len() ==> groups_view(#[trigger] all@[k]@) == gs[k],
            engines@ == absorb(start, engine_items(kind as int, gs.subrange(0, i as int))),
        decreases all@.len() - i,
    {
        let items = engine_entries(kind, &all[i]);
        let ghost before = engines@;
        absorb_entries(engines, &items);
        proof {
            let a = engine_items(kind as int, gs.subrange(0, i as int));
            let b = engine_item(kind as int, gs[i as int]);
            assert(gs.subrange(0, i + 1).drop_last() == gs.subrange(0, i as int));
            assert(gs.subrange(0, i + 1).last() == gs[i as int]);
            lemma_absorb_concat(start, a, b);
        }
        i = i + 1;
    }
    assert(gs.subrange(0, gs.len() as int) == gs);
}

/// The engines of a line: the four recognizers run in turn, and the first
/// entry proposed for a name is the one kept.
pub fn parse_engines(text: &str) -> (r: NameMap<EngineStat>)
    ensures
        r@ == spec_parse_engines(text@),
{
    let mut engines: NameMap<EngineStat> = NameMap::new();
    run_engine_recognizer(&mut engines, 0, text);
    run_engine_recognizer(&mut engines, 1, text);
    run_engine_recognizer(&mut engines, 2, text);
    run_engine_recognizer(&mut engines, 3, text);
    proof {
        let e = Seq::<(Seq<char>, EngineStat)>::empty();
        let i0 = engine_items(0, regex_captures_all(engine_pattern(0), text@));
        let i1 = engine_items(1, regex_captures_all(engine_pattern(1), text@));
        let i2 = engine_items(2, regex_captures_all(engine_pattern(2), text@));
        let i3 = engine_items(3, regex_captures_all(engine_pattern(3), text@));
        lemma_absorb_concat(e, i0, i1);
        lemma_absorb_concat(e, i0 + i1, i2);
        lemma_absorb_concat(e, i0 + i1 + i2, i3);
    }
    engines
}

pub fn parse_temp(s: &Vec<char>) -> (r: Option<i64>)
    ensures
        r == temp_milli(s@),
{
    let n = s.len();
    proof {
        crate::text::lemma_decimal_milli_nonneg(s@);
    }
    if n > 0 && s[0] == '-' {
        let body = slice_chars(s, 1, n);
        assert(body@ == s@.drop_first());
        proof {
            crate::text::lemma_decimal_milli_nonneg(body@);
        }
        match parse_milli(&body) {
            Some(v) => Some(-(v as i64)),
            None => None,
        }
    } else {
        match parse_milli(s) {
            Some(v) => Some(v as i64),
            None => None,
        }
    }
}

fn parse_temps(text: &str) -> (r: NameMap<i64>)
    ensures
        r@ == spec_parse_temps(text@),
{
    let all = captures_all(TEMP_RE, text);
    let ghost gs = regex_captures_all(TEMP_RE@, text@);
    let mut temps: NameMap<i64> = NameMap::new();
    let mut i: usize = 0;
    while i < all.len()
        invariant
            i <= all@.len() == gs.len(),
            forall|k: int| 0 <= k < all@.len() ==> groups_view(#[trigger] all@[k]@) == gs[k],
            temps@ == put_all(Seq::<(Seq<char>, i64)>::empty(), temp_items(gs.subrange(0, i as int))),
        decreases all@.len() - i,
    {
        let ghost g = gs[i as int];
        assert(gs.subrange(0, i + 1).drop_last() == gs.subrange(0, i as int));
        assert(gs.subrange(0, i + 1).last() == g);
        let ghost prev = temp_items(gs.subrange(0, i as int));
        let name = group_chars(&all[i], 1);
        match parse_temp(&group_chars(&all[i], 2)) {
            Some(t) => {
                temps.insert(string_of(&name), t);
                assert(prev.push((name@, t)).drop_last() == prev);
                assert(temp_items(gs.subrange(0, i + 1)) == prev.push((name@, t)));
            },
            None => {
                assert(temp_items(gs.subrange(0, i + 1)) == prev);
            },
        }
        i = i + 1;
    }
    assert(gs.subrange(0, gs.len() as int) == gs);
    temps
}

/// A power figure in milliwatts, from its prefix and its number.
pub fn power_value(unit: &Vec<char>, value: &Vec<char>) -> (r: u32)
    ensures
        r == power_mw(unit@, value@),
{
    proof {
        crate::text::lemma_decimal_milli_nonneg(value@);
    }
    let v: u64 = match parse_milli(value) {
        Some(v) => v,
        None => 0,
    };
    let kilo = unit.len() == 1 && (unit[0] == 'k' || unit[0] == 'K');
    assert(kilo == (unit@ == seq!['k'] || unit@ == seq!['K'])) by {
        if unit@.len() == 1 {
            assert(unit@ == seq![unit@[0]]);
        }
    }
    let x = if kilo {
        v
    } else {
        v / 1000
    };
    if x > u32::MAX as u64 {
        u32::MAX
    } else {
        x as u32
    }
}

fn parse_power(text: &str) -> (r: NameMap<PowerRail>)
    ensures
        r@ == spec_parse_power(text@),
{
    let all = captures_all(WATT_RE, text);
    let ghost gs = regex_captures_all(WATT_RE@, text@);
    let mut rails: NameMap<PowerRail> = NameMap::new();
    let mut i: usize = 0;
    while i < all.len()
        invariant
            i <= all@.len() == gs.len(),
            forall|k: int| 0 <= k < all@.len() ==> groups_view(#[trigger] all@[k]@) == gs[k],
            rails@ == put_all(
                Seq::<(Seq<char>, PowerRail)>::empty(),
                power_items(gs.subrange(0, i as int)),
            ),
        decreases all@.len() - i,
    {
        let ghost g = gs[i as int];
        assert(gs.subrange(0, i + 1).drop_last() == gs.subrange(0, i as int));
        assert(gs.subrange(0, i + 1).last() == g);
        let name = group_chars(&all[i], 1);
        let rail = PowerRail {
            current_mw: power_value(&group_chars(&all[i], 3), &group_chars(&all[i], 2)),
            average_mw: power_value(&group_chars(&all[i], 5), &group_chars(&all[i], 4)),
        };
        rails.insert(string_of(&name), rail);
        let ghost prev = power_items(gs.subrange(0, i as int));
        assert(prev.push((name@, rail)).drop_last() == prev);
        i = i + 1;
    }
    assert(gs.subrange(0, gs.len() as int) == gs);
    rails
}

/// Whole mebibytes in `bytes`.
pub fn bytes_to_mb(bytes: u64) -> (r: u64)
    ensures
        r == bytes / 1048576,
{
    bytes / 1024 / 1024
}

/// The short name of a unit.
pub fn unit_label(unit: SizeUnit) -> (r: &'static str)
    ensures
        r@ == match unit {
            SizeUnit::KB => "KB"@,
            SizeUnit::MB => "MB"@,
        },
{
    match unit {
        SizeUnit::KB => "KB",
        SizeUnit::MB => "MB",
    }
}

impl TegraStats {
    /// Parses one status line. Every line is accepted: what is not
    /// recognised is left unset.
    pub fn parse(line: &str) -> (r: Result<TegraStats, String>)
        ensures
            r is Ok,
            r matches Ok(s) ==> snapshot_of(s, line@),
    {
        let raw = trim(line);
        let (timestamp, payload) = match split_at_match(DATE_RE, raw.as_str()) {
            Some((before, m, after)) => {
                let mut rest = before;
                rest.append(after.as_str());
                let payload = trim_start(rest.as_str());
                (Some(trim(m.as_str())), payload)
            },
            None => (None, raw.clone()),
        };
        let text = payload.as_str();
        let stats = TegraStats {
            timestamp,
            ram: parse_ram(text),
            swap: parse_swap(text),
            iram: parse_iram(text),
            mts: parse_mts(text),
            cpus: parse_cpus(text),
            engines: parse_engines(text),
            temps: parse_temps(text),
            power: parse_power(text),
            raw,
        };
        Ok(stats)
    }

    /// The GPU load: the `GR3D` engine's usage, else its bare value.
    pub fn gpu_usage(&self) -> (r: Option<u32>)
        ensures
            r == gpu_of(self.engines@),
    {
        match self.engines.get("GR3D") {
            Some(e) => if e.usage_percent.is_some() {
                e.usage_percent
            } else {
                e.raw_value
            },
            None => None,
        }
    }
}

// ---------------------------------------------------------------------
// Laws of the parser.
// ---------------------------------------------------------------------
proof fn lemma_key_index_push<T>(s: Seq<(Seq<char>, T)>, x: (Seq<char>, T), k: Seq<char>)
    ensures
        crate::namemap::key_index(s.push(x), k) == match crate::namemap::key_index(s, k) {
            Some(i) => Some(i),
            None => if x.0 == k {
                Some(s.len() as int)
            } else {
                None
            },
        },
{
    let t = s.push(x);
    crate::namemap::lemma_key_index(s, k);
    crate::namemap::lemma_key_index(t, k);
    match crate::namemap::key_index(s, k) {
        Some(i) => {
            assert(t[i] == s[i]);
            assert forall|j: int| 0 <= j < i implies t[j].0 != k by {
                assert(t[j] == s[j]);
            }
            crate::namemap::lemma_key_index_unique(t, k, i);
        },
        None => {
            if x.0 == k {
                assert forall|j: int| 0 <= j < s.len() implies t[j].0 != k by {
                    assert(t[j] == s[j]);
                }
                crate::namemap::lemma_key_index_unique(t, k, s.len() as int);
            } else {
                match crate::namemap::key_index(t, k) {
                    Some(m) => {
                        if m < s.len() {
                            assert(t[m] == s[m]);
                        }
                    },
                    None => {},
                }
            }
        },
    }
}

proof fn lemma_absorb_lookup<T>(c: Seq<(Seq<char>, T)>, k: Seq<char>)
    ensures
        crate::namemap::lookup(absorb(Seq::empty(), c), k) == crate::namemap::lookup(c, k),
        has_key(absorb(Seq::empty(), c), k) == has_key(c, k),
    decreases c.len(),
{
    if c.len() > 0 {
        let p = c.drop_last();
        let x = c.last();
        assert(c == p.push(x));
        lemma_absorb_lookup(p, k);
        lemma_absorb_lookup(p, x.0);
        let a = absorb(Seq::<(Seq<char>, T)>::empty(), p);
        lemma_key_index_push(p, x, k);
        lemma_key_index_push(a, x, k);
        crate::namemap::lemma_key_index(p, k);
        crate::namemap::lemma_key_index(a, k);
        match crate::namemap::key_index(p, k) {
            Some(i) => {
                assert(c[i] == p[i]);
            },
            None => {},
        }
        match crate::namemap::key_index(a, k) {
            Some(i) => {
                assert(a.push(x)[i] == a[i]);
            },
            None => {},
        }
    }
}

/// Among the entries that the recognizers propose for one engine name, the
/// first one (in recognizer order, then left to right) is the one kept.
pub proof fn law_first_recognizer_wins(text: Seq<char>, name: Seq<char>)
    ensures
        crate::namemap::lookup(spec_parse_engines(text), name) == crate::namemap::lookup(
            engine_candidates(text),
            name,
        ),
{
    lemma_absorb_lookup(engine_candidates(text), name);
}

pub open spec fn no_forbidden_keys(c: Seq<(Seq<char>, EngineStat)>) -> bool {
    forall|j: int| 0 <= j < c.len() ==> !forbidden(#[trigger] c[j].0)
}

proof fn lemma_item_keys(kind: int, g: Groups)
    ensures
        no_forbidden_keys(engine_item(kind, g)),
{
}

proof fn lemma_items_keys(kind: int, gs: Seq<Groups>)
    ensures
        no_forbidden_keys(engine_items(kind, gs)),
    decreases gs.len(),
{
    if gs.len() > 0 {
        lemma_items_keys(kind, gs.drop_last());
        lemma_item_keys(kind, gs.last());
        let a = engine_items(kind, gs.drop_last());
        let b = engine_item(kind, gs.last());
        assert forall|j: int| 0 <= j < (a + b).len() implies !forbidden(#[trigger] (a + b)[j].0) by {
            if j < a.len() {
                assert((a + b)[j] == a[j]);
            } else {
                assert((a + b)[j] == b[j - a.len()]);
            }
        }
    }
}

proof fn lemma_has_key_concat(a: Seq<(Seq<char>, EngineStat)>, b: Seq<(Seq<char>, EngineStat)>, k: Seq<char>)
    ensures
        has_key(a + b, k) == (has_key(a, k) || has_key(b, k)),
{
    crate::namemap::lemma_key_index(a, k);
    crate::namemap::lemma_key_index(b, k);
    crate::namemap::lemma_key_index(a + b, k);
    match crate::namemap::key_index(a, k) {
        Some(i) => {
            assert((a + b)[i] == a[i]);
        },
        None => {
            match crate::namemap::key_index(b, k) {
                Some(i) => {
                    assert((a + b)[a.len() + i] == b[i]);
                },
                None => {
                    match crate::namemap::key_index(a + b, k) {
                        Some(m) => {
                            if m < a.len() {
                                assert((a + b)[m] == a[m]);
                            } else {
                                assert((a + b)[m] == b[m - a.len()]);
                            }
                        },
                        None => {},
                    }
                },
            }
        },
    }
}

proof fn lemma_items_have(kind: int, gs: Seq<Groups>, i: int, k: Seq<char>)
    requires
        0 <= i < gs.len(),
        has_key(engine_item(kind, gs[i]), k),
    ensures
        has_key(engine_items(kind, gs), k),
    decreases gs.len(),
{
    let p = gs.drop_last();
    lemma_has_key_concat(engine_items(kind, p), engine_item(kind, gs.last()), k);
    if i < gs.len() - 1 {
        assert(p[i] == gs[i]);
        lemma_items_have(kind, p, i, k);
    }
}

/// The names of the structured records never name an engine, and an engine
/// reported by a bracketed-frequency, general or `off` match is stored
/// under its name with a trailing `_FREQ` removed.
pub proof fn law_engine_names(text: Seq<char>, kind: int, i: int)
    requires
        kind == 0 || kind == 1 || kind == 2,
        0 <= i < regex_captures_all(engine_pattern(kind), text).len(),
    ensures
        forall|j: int|
            0 <= j < spec_parse_engines(text).len() ==> !forbidden(
                #[trigger] spec_parse_engines(text)[j].0,
            ),
        ({
            let g = regex_captures_all(engine_pattern(kind), text)[i];
            let key = engine_key(group(g, 1));
            !forbidden(key) && !(kind == 1 && ends_with(key, "_UTIL"@)) ==> has_key(
                spec_parse_engines(text),
                key,
            )
        }),
{
    let gs0 = regex_captures_all(engine_pattern(0), text);
    let gs1 = regex_captures_all(engine_pattern(1), text);
    let gs2 = regex_captures_all(engine_pattern(2), text);
    let gs3 = regex_captures_all(engine_pattern(3), text);
    let i0 = engine_items(0, gs0);
    let i1 = engine_items(1, gs1);
    let i2 = engine_items(2, gs2);
    let i3 = engine_items(3, gs3);
    let c = engine_candidates(text);
    let r = spec_parse_engines(text);
    lemma_items_keys(0, gs0);
    lemma_items_keys(1, gs1);
    lemma_items_keys(2, gs2);
    lemma_items_keys(3, gs3);
    assert(no_forbidden_keys(c)) by {
        assert forall|j: int| 0 <= j < c.len() implies !forbidden(#[trigger] c[j].0) by {
            if j < i0.len() {
                assert(c[j] == i0[j]);
            } else if j < i0.len() + i1.len() {
                assert(c[j] == i1[j - i0.len()]);
            } else if j < i0.len() + i1.len() + i2.len() {
                assert(c[j] == i2[j - i0.len() - i1.len()]);
            } else {
                assert(c[j] == i3[j - i0.len() - i1.len() - i2.len()]);
            }
        }
    }
    assert forall|j: int| 0 <= j < r.len() implies !forbidden(#[trigger] r[j].0) by {
        let k = r[j].0;
        crate::namemap::lemma_key_index(r, k);
        lemma_absorb_lookup(c, k);
        crate::namemap::lemma_key_index(c, k);
    }
    let g = regex_captures_all(engine_pattern(kind), text)[i];
    let key = engine_key(group(g, 1));
    if !forbidden(key) && !(kind == 1 && ends_with(key, "_UTIL"@)) {
        let item = engine_item(kind, g);
        assert(item[0].0 == key);
        crate::namemap::lemma_key_index(item, key);
        lemma_items_have(kind, regex_captures_all(engine_pattern(kind), text), i, key);
        lemma_has_key_concat(i0, i1, key);
        lemma_has_key_concat(i0 + i1, i2, key);
        lemma_has_key_concat(i0 + i1 + i2, i3, key);
        lemma_absorb_lookup(c, key);
    }
}

/// The CPU block gives one core per comma-separated token, in order, and a
/// token `off` gives a core with neither load nor frequency.
pub proof fn law_cpu_tokens(text: Seq<char>)
    ensures
        match regex_captures(CPU_RE@, text) {
            Some(g) => {
                let tokens = split_on(group(g, 1), ',');
                &&& spec_parse_cpus(text).len() == tokens.len()
                &&& forall|i: int|
                    0 <= i < tokens.len() && trimmed(#[trigger] tokens[i]) == "off"@
                        ==> spec_parse_cpus(text)[i] == CpuCore {
                        load_percent: None,
                        freq_mhz: None,
                    }
            },
            None => spec_parse_cpus(text).len() == 0,
        },
{
}

} // verus!
