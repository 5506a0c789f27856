//! What is known of the board: identity, software versions and the lists of
//! governors, sensors, rails, engines and power modes. Reading the board's
//! files is left to the caller; this module interprets what was read.
use crate::pattern::{chars_of, lines, lines_of, string_of, trim, trimmed, words, words_of};
use crate::protocol::strings_view;
use crate::text::{
    contains_chars, contains_seq, contains_str, owned, replace_all, replace_chars, split_chars,
    split_on, starts_with, starts_with_chars, str_eq, trim_end_char, trim_end_char_chars,
    trim_start_char, views_of,
};
use vstd::prelude::*;

verus! {

#[derive(Debug, Clone)]
pub struct JetsonHardware {
    pub is_jetson: bool,
    pub model: String,
    pub codename: String,
    pub soc: String,
    pub module: String,
    pub board_id: String,
    pub serial_number: String,
    pub l4t_version: String,
    pub jetpack_version: String,
    pub cuda_arch: String,
    pub governors: Vec<String>,
    pub sensors: Vec<String>,
    pub power_rails: Vec<String>,
    pub engines: Vec<String>,
    pub nvpmodel_modes: Vec<String>,
}

impl Default for JetsonHardware {
    fn default() -> (r: Self)
        ensures
            !r.is_jetson,
            r.model@.len() == 0,
            r.codename@.len() == 0,
            r.soc@.len() == 0,
            r.module@.len() == 0,
            r.board_id@.len() == 0,
            r.serial_number@.len() == 0,
            r.jetpack_version@.len() == 0,
            r.cuda_arch@.len() == 0,
            r.l4t_version@.len() == 0,
            r.governors@.len() == 0,
            r.sensors@.len() == 0,
            r.power_rails@.len() == 0,
            r.engines@.len() == 0,
            r.nvpmodel_modes@.len() == 0,
    {
        JetsonHardware {
            is_jetson: false,
            model: String::new(),
            codename: String::new(),
            soc: String::new(),
            module: String::new(),
            board_id: String::new(),
            serial_number: String::new(),
            l4t_version: String::new(),
            jetpack_version: String::new(),
            cuda_arch: String::new(),
            governors: Vec::new(),
            sensors: Vec::new(),
            power_rails: Vec::new(),
            engines: Vec::new(),
            nvpmodel_modes: Vec::new(),
        }
    }
}

/// The JetPack release of an L4T version, `Unknown` when not in the table.
pub open spec fn jetpack_for(l4t: Seq<char>) -> Seq<char> {
    if l4t == "36.3.0"@ {
        "6.0"@
    } else if l4t == "36.2.0"@ {
        "6.0 DP"@
    } else if l4t == "35.5.0"@ {
        "5.1.3"@
    } else if l4t == "35.4.1"@ {
        "5.1.2"@
    } else if l4t == "35.3.1"@ {
        "5.1.1"@
    } else if l4t == "35.2.1"@ {
        "5.1"@
    } else if l4t == "35.1.0"@ {
        "5.0.2"@
    } else if l4t == "32.7.4"@ {
        "4.6.4"@
    } else if l4t == "32.7.1"@ {
        "4.6.1"@
    } else if l4t == "32.6.1"@ {
        "4.6"@
    } else if l4t == "32.5.1"@ {
        "4.5.1"@
    } else if l4t == "32.4.4"@ {
        "4.4.1"@
    } else {
        "Unknown"@
    }
}

pub open spec fn default_engines() -> Seq<Seq<char>> {
    seq!["GR3D"@, "EMC"@, "NVENC"@, "NVDEC"@, "VIC"@, "NVJPG"@]
}

impl JetsonHardware {
    /// The JetPack release that ships an L4T version.
    pub fn map_l4t_to_jetpack(l4t: &str) -> (r: String)
        ensures
            r@ == jetpack_for(l4t@),
    {
        if str_eq(l4t, "36.3.0") {
            owned("6.0")
        } else if str_eq(l4t, "36.2.0") {
            owned("6.0 DP")
        } else if str_eq(l4t, "35.5.0") {
            owned("5.1.3")
        } else if str_eq(l4t, "35.4.1") {
            owned("5.1.2")
        } else if str_eq(l4t, "35.3.1") {
            owned("5.1.1")
        } else if str_eq(l4t, "35.2.1") {
            owned("5.1")
        } else if str_eq(l4t, "35.1.0") {
            owned("5.0.2")
        } else if str_eq(l4t, "32.7.4") {
            owned("4.6.4")
        } else if str_eq(l4t, "32.7.1") {
            owned("4.6.1")
        } else if str_eq(l4t, "32.6.1") {
            owned("4.6")
        } else if str_eq(l4t, "32.5.1") {
            owned("4.5.1")
        } else if str_eq(l4t, "32.4.4") {
            owned("4.4.1")
        } else {
            owned("Unknown")
        }
    }

    /// The engines that every board is assumed to have.
    pub fn detect_engines() -> (r: Vec<String>)
        ensures
            strings_view(r@) == default_engines(),
    {
        let mut v: Vec<String> = Vec::new();
        v.push(owned("GR3D"));
        v.push(owned("EMC"));
        v.push(owned("NVENC"));
        v.push(owned("NVDEC"));
        v.push(owned("VIC"));
        v.push(owned("NVJPG"));
        assert(strings_view(v@) =~= default_engines());
        v
    }
}

// ---------------------------------------------------------------------
// What the board's files say.
// ---------------------------------------------------------------------
/// The contents of the files that describe the board, as read; `None` for
/// a file that could not be read.
#[derive(Debug, Clone)]
pub struct BoardFiles {
    /// `/etc/nv_tegra_release`; its presence makes the host a Jetson.
    pub nv_tegra_release: Option<String>,
    /// The device-tree `model`.
    pub model: Option<String>,
    /// The device-tree `compatible` list.
    pub compatible: Option<String>,
    /// The device-tree `serial-number`.
    pub serial_number: Option<String>,
    /// The device-tree `nvidia,dtsfilename`.
    pub dts_filename: Option<String>,
    /// `/etc/nvpmodel.conf`.
    pub nvpmodel_conf: Option<String>,
    /// Each CPU's `cpufreq/scaling_governor`.
    pub cpu_governors: Vec<String>,
    /// Each thermal zone's `type`.
    pub thermal_types: Vec<String>,
}

pub open spec fn empty_seq() -> Seq<char> {
    Seq::empty()
}

/// `# R<rel> (release), REVISION: <rev>, ...` gives `<rel>.<rev>`.
pub open spec fn l4t_version_of(content: Seq<char>) -> Seq<char> {
    let parts = split_on(content, ',');
    if parts.len() >= 2 {
        let release = replace_all(trimmed(parts[0]), "# R"@, empty_seq());
        let release = trimmed(split_on(release, ' ')[0]);
        let revision = replace_all(trimmed(parts[1]), "REVISION: "@, empty_seq());
        release + "."@ + revision
    } else {
        "Unknown"@
    }
}

pub open spec fn mode_name(word: Seq<char>) -> Seq<char> {
    replace_all(replace_all(word, "NAME="@, empty_seq()), ">"@, empty_seq())
}

pub open spec fn names_in_words(ws: Seq<Seq<char>>) -> Seq<Seq<char>>
    decreases ws.len(),
{
    if ws.len() == 0 {
        Seq::empty()
    } else {
        names_in_words(ws.drop_last()) + if starts_with(ws.last(), "NAME="@) {
            seq![mode_name(ws.last())]
        } else {
            Seq::empty()
        }
    }
}

pub open spec fn modes_in_lines(ls: Seq<Seq<char>>) -> Seq<Seq<char>>
    decreases ls.len(),
{
    if ls.len() == 0 {
        Seq::empty()
    } else {
        modes_in_lines(ls.drop_last()) + if starts_with(trimmed(ls.last()), "< MODEL"@) {
            names_in_words(words_of(ls.last()))
        } else {
            Seq::empty()
        }
    }
}

/// The power-mode names of an `nvpmodel.conf`: every word `NAME=<x>` on a
/// line that starts with `< MODEL` gives `<x>`, without any `>`.
pub open spec fn nvpmodel_modes_of(conf: Seq<char>) -> Seq<Seq<char>> {
    modes_in_lines(lines_of(conf))
}

pub open spec fn add_rails(acc: Seq<Seq<char>>, ws: Seq<Seq<char>>) -> Seq<Seq<char>>
    decreases ws.len(),
{
    if ws.len() == 0 {
        acc
    } else {
        let a = add_rails(acc, ws.drop_last());
        if starts_with(ws.last(), "VDD_"@) && !a.contains(ws.last()) {
            a.push(ws.last())
        } else {
            a
        }
    }
}

pub open spec fn rails_in_lines(ls: Seq<Seq<char>>) -> Seq<Seq<char>>
    decreases ls.len(),
{
    if ls.len() == 0 {
        Seq::empty()
    } else {
        add_rails(rails_in_lines(ls.drop_last()), words_of(ls.last()))
    }
}

pub open spec fn default_rails() -> Seq<Seq<char>> {
    seq!["VDD_IN"@, "VDD_CPU"@, "VDD_GPU"@, "VDD_SOC"@, "VDD_WIFI"@]
}

/// The rails named in an `nvpmodel.conf` (each word starting `VDD_`, once),
/// or a default set when there are none.
pub open spec fn power_rails_of(conf: Seq<char>) -> Seq<Seq<char>> {
    let r = rails_in_lines(lines_of(conf));
    if r.len() == 0 {
        default_rails()
    } else {
        r
    }
}

/// The trimmed, non-empty names, each kept once, in order.
pub open spec fn unique_trimmed(raw: Seq<Seq<char>>) -> Seq<Seq<char>>
    decreases raw.len(),
{
    if raw.len() == 0 {
        Seq::empty()
    } else {
        let a = unique_trimmed(raw.drop_last());
        let t = trimmed(raw.last());
        if t.len() > 0 && !a.contains(t) {
            a.push(t)
        } else {
            a
        }
    }
}

pub open spec fn last_nonempty(parts: Seq<Seq<char>>) -> Option<Seq<char>>
    decreases parts.len(),
{
    if parts.len() == 0 {
        None
    } else if parts.last().len() > 0 {
        Some(parts.last())
    } else {
        last_nonempty(parts.drop_last())
    }
}

/// The SoC of a device-tree `compatible` list: the second comma-separated
/// field of its last non-empty entry (`nvidia,tegra234` gives `tegra234`).
pub open spec fn soc_of(compatible: Seq<char>) -> Option<Seq<char>> {
    match last_nonempty(split_on(compatible, '\0')) {
        Some(p) => {
            let fields = split_on(p, ',');
            if fields.len() >= 2 {
                Some(fields[1])
            } else {
                None
            }
        },
        None => None,
    }
}

pub open spec fn cuda_arch_of(soc: Seq<char>) -> Option<Seq<char>> {
    if soc == "tegra234"@ {
        Some("8.7"@)
    } else if soc == "tegra194"@ {
        Some("7.2"@)
    } else if soc == "tegra186"@ {
        Some("6.2"@)
    } else if soc == "tegra210"@ {
        Some("5.3"@)
    } else {
        None
    }
}

pub open spec fn board_table() -> Seq<(Seq<char>, Seq<char>)> {
    seq![
        ("p3701-0000"@, "NVIDIA Jetson AGX Orin"@),
        ("p3701-0004"@, "NVIDIA Jetson AGX Orin (32GB)"@),
        ("p3701-0005"@, "NVIDIA Jetson AGX Orin (64GB)"@),
        ("p3767-0000"@, "NVIDIA Jetson Orin NX (16GB)"@),
        ("p3767-0001"@, "NVIDIA Jetson Orin NX (8GB)"@),
        ("p3767-0003"@, "NVIDIA Jetson Orin Nano (8GB)"@),
        ("p3767-0004"@, "NVIDIA Jetson Orin Nano (4GB)"@),
        ("p3668-0000"@, "NVIDIA Jetson Xavier NX (DevKit)"@),
        ("p3668-0001"@, "NVIDIA Jetson Xavier NX"@),
        ("p2888-0001"@, "NVIDIA Jetson AGX Xavier (16GB)"@),
        ("p2888-0004"@, "NVIDIA Jetson AGX Xavier (32GB)"@),
        ("p3448-0000"@, "NVIDIA Jetson Nano (4GB)"@),
        ("p3448-0002"@, "NVIDIA Jetson Nano (eMMC)"@),
        ("p3448-0003"@, "NVIDIA Jetson Nano (2GB)"@),
        ("p3310-1000"@, "NVIDIA Jetson TX2"@),
        ("p2180-1000"@, "NVIDIA Jetson TX1"@),
    ]
}

/// The first board of the table whose id occurs in `file`.
pub open spec fn board_in(table: Seq<(Seq<char>, Seq<char>)>, file: Seq<char>) -> Option<
    (Seq<char>, Seq<char>),
>
    decreases table.len(),
{
    if table.len() == 0 {
        None
    } else if contains_seq(file, table[0].0) {
        Some(table[0])
    } else {
        board_in(table.drop_first(), file)
    }
}

/// The board named by a `dtsfilename`: its last `/`-separated part is
/// searched for a known board id.
pub open spec fn board_of(dts: Seq<char>) -> Option<(Seq<char>, Seq<char>)> {
    let parts = split_on(dts, '/');
    board_in(board_table(), parts[parts.len() - 1])
}

/// `s` without NUL padding at either end, then without white space.
pub open spec fn clean_text(s: Seq<char>) -> Seq<char> {
    trimmed(trim_end_char(trim_start_char(s, '\0'), '\0'))
}

fn board_entry(i: usize) -> (r: (&'static str, &'static str))
    requires
        i < 16,
    ensures
        (r.0@, r.1@) == board_table()[i as int],
{
    if i == 0 {
        ("p3701-0000", "NVIDIA Jetson AGX Orin")
    } else if i == 1 {
        ("p3701-0004", "NVIDIA Jetson AGX Orin (32GB)")
    } else if i == 2 {
        ("p3701-0005", "NVIDIA Jetson AGX Orin (64GB)")
    } else if i == 3 {
        ("p3767-0000", "NVIDIA Jetson Orin NX (16GB)")
    } else if i == 4 {
        ("p3767-0001", "NVIDIA Jetson Orin NX (8GB)")
    } else if i == 5 {
        ("p3767-0003", "NVIDIA Jetson Orin Nano (8GB)")
    } else if i == 6 {
        ("p3767-0004", "NVIDIA Jetson Orin Nano (4GB)")
    } else if i == 7 {
        ("p3668-0000", "NVIDIA Jetson Xavier NX (DevKit)")
    } else if i == 8 {
        ("p3668-0001", "NVIDIA Jetson Xavier NX")
    } else if i == 9 {
        ("p2888-0001", "NVIDIA Jetson AGX Xavier (16GB)")
    } else if i == 10 {
        ("p2888-0004", "NVIDIA Jetson AGX Xavier (32GB)")
    } else if i == 11 {
        ("p3448-0000", "NVIDIA Jetson Nano (4GB)")
    } else if i == 12 {
        ("p3448-0002", "NVIDIA Jetson Nano (eMMC)")
    } else if i == 13 {
        ("p3448-0003", "NVIDIA Jetson Nano (2GB)")
    } else if i == 14 {
        ("p3310-1000", "NVIDIA Jetson TX2")
    } else {
        ("p2180-1000", "NVIDIA Jetson TX1")
    }
}

/// The board id and module name that a `dtsfilename` names.
pub fn board_from_dts(dts: &str) -> (r: Option<(String, String)>)
    ensures
        match r {
            Some((id, name)) => board_of(dts@) == Some((id@, name@)),
            None => board_of(dts@) is None,
        },
{
    let chars = chars_of(dts);
    let parts = split_chars(&chars, '/');
    let ghost ps = split_on(dts@, '/');
    proof {
        crate::text::lemma_split_nonempty(dts@, '/');
    }
    let file = &parts[parts.len() - 1];
    assert(file@ == ps[ps.len() - 1]);
    let ghost table = board_table();
    assert(table.len() == 16);
    assert(table.subrange(0, 16) =~= table);
    assert(ps.len() == parts@.len());
    let mut i: usize = 0;
    while i < 16
        invariant
            i <= 16,
            table == board_table(),
            table.len() == 16,
            board_of(dts@) == board_in(table.subrange(i as int, 16), file@),
        decreases 16 - i,
    {
        let (id, name) = board_entry(i);
        let ghost rest = table.subrange(i as int, 16);
        assert(rest[0] == table[i as int]);
        assert(rest.drop_first() == table.subrange(i + 1, 16));
        if contains_chars(file, &chars_of(id)) {
            return Some((owned(id), owned(name)));
        }
        i = i + 1;
    }
    None
}

/// The L4T version of an `nv_tegra_release` file.
pub fn l4t_version_from(content: &str) -> (r: String)
    ensures
        r@ == l4t_version_of(content@),
{
    let chars = chars_of(content);
    let parts = split_chars(&chars, ',');
    if parts.len() < 2 {
        return owned("Unknown");
    }
    let none: Vec<char> = Vec::new();
    assert(none@ == empty_seq());
    let first = chars_of(trim(string_of(&parts[0]).as_str()).as_str());
    let release = replace_chars(&first, &chars_of("# R"), &none);
    let words = split_chars(&release, ' ');
    proof {
        crate::text::lemma_split_nonempty(release@, ' ');
    }
    let mut out = trim(string_of(&words[0]).as_str());
    let second = chars_of(trim(string_of(&parts[1]).as_str()).as_str());
    let revision = replace_chars(&second, &chars_of("REVISION: "), &none);
    out.append(".");
    out.append(string_of(&revision).as_str());
    assert(views_of(parts@)[0] == parts@[0]@);
    assert(views_of(parts@)[1] == parts@[1]@);
    assert(views_of(words@)[0] == words@[0]@);
    out
}

fn mode_name_of(word: &String) -> (r: String)
    ensures
        r@ == mode_name(word@),
{
    let none: Vec<char> = Vec::new();
    assert(none@ == empty_seq());
    let w = chars_of(word.as_str());
    let a = replace_chars(&w, &chars_of("NAME="), &none);
    let b = replace_chars(&a, &chars_of(">"), &none);
    string_of(&b)
}



/// The trimmed, non-empty names of `raw`, each once, in order.
pub fn unique_names(raw: &Vec<String>) -> (r: Vec<String>)
    ensures
        strings_view(r@) == unique_trimmed(strings_view(raw@)),
{
    let ghost rv = strings_view(raw@);
    let mut out: Vec<String> = Vec::new();
    let mut i: usize = 0;
    while i < raw.len()
        invariant
            i <= raw@.len(),
            rv == strings_view(raw@),
            strings_view(out@) == unique_trimmed(rv.subrange(0, i as int)),
        decreases raw@.len() - i,
    {
        assert(rv.subrange(0, i + 1).drop_last() == rv.subrange(0, i as int));
        assert(rv[i as int] == raw@[i as int]@);
        let t = trim(raw[i].as_str());
        if t.unicode_len() > 0 && !contains_str(&out, t.as_str()) {
            let ghost before = out@;
            out.push(t);
            assert(strings_view(out@) =~= strings_view(before).push(t@));
        }
        i = i + 1;
    }
    assert(rv.subrange(0, rv.len() as int) == rv);
    out
}

fn last_nonempty_index(parts: &Vec<Vec<char>>) -> (r: Option<usize>)
    ensures
        match r {
            Some(i) => i < parts@.len() && last_nonempty(views_of(parts@)) == Some(parts@[i as int]@),
            None => last_nonempty(views_of(parts@)) is None,
        },
{
    let ghost pv = views_of(parts@);
    let mut k: usize = parts.len();
    assert(pv.subrange(0, k as int) == pv);
    while k > 0
        invariant
            k <= parts@.len(),
            pv == views_of(parts@),
            last_nonempty(pv) == last_nonempty(pv.subrange(0, k as int)),
        decreases k,
    {
        let ghost sub = pv.subrange(0, k as int);
        assert(sub.last() == parts@[k - 1]@);
        assert(sub.drop_last() == pv.subrange(0, k - 1));
        if parts[k - 1].len() > 0 {
            return Some(k - 1);
        }
        k = k - 1;
    }
    None
}

/// The SoC named by a device-tree `compatible` list.
pub fn soc_from_compatible(compatible: &str) -> (r: Option<String>)
    ensures
        match r {
            Some(s) => soc_of(compatible@) == Some(s@),
            None => soc_of(compatible@) is None,
        },
{
    let chars = chars_of(compatible);
    let parts = split_chars(&chars, '\0');
    match last_nonempty_index(&parts) {
        None => None,
        Some(i) => {
            let fields = split_chars(&parts[i], ',');
            if fields.len() >= 2 {
                assert(views_of(fields@)[1] == fields@[1]@);
                Some(string_of(&fields[1]))
            } else {
                None
            }
        },
    }
}

/// The CUDA compute capability of a SoC.
pub fn cuda_arch_for(soc: &str) -> (r: Option<String>)
    ensures
        match r {
            Some(a) => cuda_arch_of(soc@) == Some(a@),
            None => cuda_arch_of(soc@) is None,
        },
{
    if str_eq(soc, "tegra234") {
        Some(owned("8.7"))
    } else if str_eq(soc, "tegra194") {
        Some(owned("7.2"))
    } else if str_eq(soc, "tegra186") {
        Some(owned("6.2"))
    } else if str_eq(soc, "tegra210") {
        Some(owned("5.3"))
    } else {
        None
    }
}

/// A device-tree string without NUL padding and white space.
pub fn clean_device_text(s: &str) -> (r: String)
    ensures
        r@ == clean_text(s@),
{
    let chars = chars_of(s);
    let n = chars.len();
    let mut start: usize = 0;
    assert(chars@.subrange(0, n as int) == chars@);
    while start < n && chars[start] == '\0'
        invariant
            start <= n == chars@.len(),
            trim_start_char(chars@.subrange(start as int, n as int), '\0') == trim_start_char(
                chars@,
                '\0',
            ),
        decreases n - start,
    {
        let ghost sub = chars@.subrange(start as int, n as int);
        assert(sub[0] == chars@[start as int]);
        assert(sub.drop_first() == chars@.subrange(start + 1, n as int));
        start = start + 1;
    }
    let rest = crate::text::slice_chars(&chars, start, n);
    proof {
        let sub = chars@.subrange(start as int, n as int);
        if sub.len() > 0 {
            assert(sub[0] == chars@[start as int]);
        }
        assert(trim_start_char(sub, '\0') == sub);
    }
    let stripped = trim_end_char_chars(&rest, '\0');
    trim(string_of(&stripped).as_str())
}

/// The cleaned text of a file that may be missing.
pub open spec fn clean_opt(s: Option<String>) -> Seq<char> {
    match s {
        Some(v) => clean_text(v@),
        None => Seq::empty(),
    }
}

impl JetsonHardware {
    /// The power-mode names of an `nvpmodel.conf`.
    pub fn detect_nvpmodel_modes(conf: &str) -> (r: Vec<String>)
        ensures
            strings_view(r@) == nvpmodel_modes_of(conf@),
    {
        let ls = lines(conf);
        let ghost lv = lines_of(conf@);
        let mut modes: Vec<String> = Vec::new();
        let mut i: usize = 0;
        while i < ls.len()
            invariant
                i <= ls@.len(),
                strings_view(ls@) == lv,
                strings_view(modes@) == modes_in_lines(lv.subrange(0, i as int)),
            decreases ls@.len() - i,
        {
            assert(lv.subrange(0, i + 1).drop_last() == lv.subrange(0, i as int));
            assert(lv[i as int] == ls@[i as int]@);
            let line = ls[i].as_str();
            let t = chars_of(trim(line).as_str());
            if starts_with_chars(&t, &chars_of("< MODEL")) {
                let ws = words(line);
                let ghost wv = words_of(ls@[i as int]@);
                let ghost base = modes@;
                let mut j: usize = 0;
                while j < ws.len()
                    invariant
                        j <= ws@.len(),
                        strings_view(ws@) == wv,
                        strings_view(modes@) == strings_view(base) + names_in_words(wv.subrange(0, j as int)),
                    decreases ws@.len() - j,
                {
                    assert(wv.subrange(0, j + 1).drop_last() == wv.subrange(0, j as int));
                    assert(wv[j as int] == ws@[j as int]@);
                    let wc = chars_of(ws[j].as_str());
                    if starts_with_chars(&wc, &chars_of("NAME=")) {
                        let ghost before = modes@;
                        let m = mode_name_of(&ws[j]);
                        modes.push(m);
                        assert(strings_view(modes@) =~= strings_view(before).push(m@));
                        assert(strings_view(modes@) =~= strings_view(base) + names_in_words(
                            wv.subrange(0, j + 1),
                        ));
                    } else {
                        assert(strings_view(modes@) =~= strings_view(base) + names_in_words(
                            wv.subrange(0, j + 1),
                        ));
                    }
                    j = j + 1;
                }
                assert(wv.subrange(0, wv.len() as int) == wv);
            } else {
                assert(modes_in_lines(lv.subrange(0, i + 1)) =~= modes_in_lines(lv.subrange(0, i as int))
                    + Seq::empty());
            }
            i = i + 1;
        }
        assert(lv.subrange(0, lv.len() as int) == lv);
        modes
    }

    /// The power rails of an `nvpmodel.conf`, or the default set.
    pub fn detect_power_rails(conf: &str) -> (r: Vec<String>)
        ensures
            strings_view(r@) == power_rails_of(conf@),
    {
        let ls = lines(conf);
        let ghost lv = lines_of(conf@);
        let mut rails: Vec<String> = Vec::new();
        let mut i: usize = 0;
        while i < ls.len()
            invariant
                i <= ls@.len(),
                strings_view(ls@) == lv,
                strings_view(rails@) == rails_in_lines(lv.subrange(0, i as int)),
            decreases ls@.len() - i,
        {
            assert(lv.subrange(0, i + 1).drop_last() == lv.subrange(0, i as int));
            assert(lv[i as int] == ls@[i as int]@);
            let ws = words(ls[i].as_str());
            let ghost wv = words_of(ls@[i as int]@);
            let ghost base = strings_view(rails@);
            let mut j: usize = 0;
            while j < ws.len()
                invariant
                    j <= ws@.len(),
                    strings_view(ws@) == wv,
                    strings_view(rails@) == add_rails(base, wv.subrange(0, j as int)),
                decreases ws@.len() - j,
            {
                assert(wv.subrange(0, j + 1).drop_last() == wv.subrange(0, j as int));
                assert(wv[j as int] == ws@[j as int]@);
                let wc = chars_of(ws[j].as_str());
                if starts_with_chars(&wc, &chars_of("VDD_")) && !contains_str(&rails, ws[j].as_str()) {
                    let ghost before = rails@;
                    let w = ws[j].clone();
                    rails.push(w);
                    assert(strings_view(rails@) =~= strings_view(before).push(w@));
                }
                j = j + 1;
            }
            assert(wv.subrange(0, wv.len() as int) == wv);
            i = i + 1;
        }
        assert(lv.subrange(0, lv.len() as int) == lv);
        if rails.len() == 0 {
            let mut d: Vec<String> = Vec::new();
            d.push(owned("VDD_IN"));
            d.push(owned("VDD_CPU"));
            d.push(owned("VDD_GPU"));
            d.push(owned("VDD_SOC"));
            d.push(owned("VDD_WIFI"));
            assert(strings_view(d@) =~= default_rails());
            return d;
        }
        rails
    }

    /// Whether one of the hardware monitors (their `name` files as read) is
    /// the PWM fan.
    pub fn detect_fan(hwmon_names: &Vec<String>) -> (r: bool)
        ensures
            r == exists|i: int|
                0 <= i < hwmon_names@.len() && trimmed(#[trigger] hwmon_names@[i]@) == "pwm-fan"@,
    {
        let mut i: usize = 0;
        while i < hwmon_names.len()
            invariant
                i <= hwmon_names@.len(),
                forall|j: int| 0 <= j < i ==> trimmed(#[trigger] hwmon_names@[j]@) != "pwm-fan"@,
            decreases hwmon_names@.len() - i,
        {
            let t = trim(hwmon_names[i].as_str());
            if str_eq(t.as_str(), "pwm-fan") {
                return true;
            }
            i = i + 1;
        }
        false
    }

    /// What the board's files say about it. Without `nv_tegra_release` the
    /// host is no Jetson and only its model name is set.
    pub fn detect(files: &BoardFiles) -> (r: JetsonHardware)
        ensures
            r.is_jetson == (files.nv_tegra_release is Some),
            !r.is_jetson ==> r.model@ == "Generic Host (Emulator Mode)"@ && r.governors@.len() == 0
                && r.sensors@.len() == 0 && r.power_rails@.len() == 0 && r.engines@.len() == 0
                && r.nvpmodel_modes@.len() == 0,
            r.is_jetson ==> {
                let conf = match files.nvpmodel_conf {
                    Some(c) => c@,
                    None => Seq::empty(),
                };
                &&& r.l4t_version@ == l4t_version_of(files.nv_tegra_release->Some_0@)
                &&& r.jetpack_version@ == jetpack_for(r.l4t_version@)
                &&& strings_view(r.governors@) == unique_trimmed(strings_view(files.cpu_governors@))
                &&& strings_view(r.sensors@) == unique_trimmed(strings_view(files.thermal_types@))
                &&& strings_view(r.power_rails@) == power_rails_of(conf)
                &&& strings_view(r.engines@) == default_engines()
                &&& strings_view(r.nvpmodel_modes@) == nvpmodel_modes_of(conf)
                &&& r.model@ == clean_opt(files.model)
                &&& r.serial_number@ == clean_opt(files.serial_number)
                &&& r.soc@ == match files.compatible {
                    Some(c) => match soc_of(c@) {
                        Some(x) => x,
                        None => Seq::empty(),
                    },
                    None => Seq::empty(),
                }
                &&& r.cuda_arch@ == match cuda_arch_of(r.soc@) {
                    Some(a) => if files.compatible is Some && soc_of(files.compatible->Some_0@) is Some {
                        a
                    } else {
                        Seq::empty()
                    },
                    None => Seq::empty(),
                }
                &&& match files.dts_filename {
                    Some(d) => match board_of(d@) {
                        Some((id, name)) => r.board_id@ == id && r.module@ == name,
                        None => r.board_id@.len() == 0 && r.module@.len() == 0,
                    },
                    None => r.board_id@.len() == 0 && r.module@.len() == 0,
                }
            },
    {
        let mut hw = JetsonHardware::default();
        let release = match &files.nv_tegra_release {
            None => {
                hw.model = owned("Generic Host (Emulator Mode)");
                return hw;
            },
            Some(r) => r,
        };
        hw.is_jetson = true;
        hw.l4t_version = l4t_version_from(release.as_str());
        hw.jetpack_version = JetsonHardware::map_l4t_to_jetpack(hw.l4t_version.as_str());
        hw.governors = unique_names(&files.cpu_governors);
        hw.sensors = unique_names(&files.thermal_types);
        let conf = match &files.nvpmodel_conf {
            Some(c) => c.clone(),
            None => String::new(),
        };
        hw.power_rails = JetsonHardware::detect_power_rails(conf.as_str());
        hw.engines = JetsonHardware::detect_engines();
        hw.nvpmodel_modes = JetsonHardware::detect_nvpmodel_modes(conf.as_str());
        if let Some(m) = &files.model {
            hw.model = clean_device_text(m.as_str());
        }
        if let Some(c) = &files.compatible {
            if let Some(soc) = soc_from_compatible(c.as_str()) {
                if let Some(arch) = cuda_arch_for(soc.as_str()) {
                    hw.cuda_arch = arch;
                }
                hw.soc = soc;
            }
        }
        if let Some(sn) = &files.serial_number {
            hw.serial_number = clean_device_text(sn.as_str());
        }
        if let Some(d) = &files.dts_filename {
            if let Some((id, name)) = board_from_dts(d.as_str()) {
                hw.module = name;
                hw.board_id = id;
            }
        }
        hw
    }
}

/// What a quick look at the host shows.
#[derive(Debug, Clone)]
pub struct HwMeta {
    pub is_jetson: bool,
    pub nv_tegra_release: Option<String>,
    pub hostname: Option<String>,
}

/// The host is a Jetson when it has an `nv_tegra_release` file or a
/// `tegrastats` utility; the file and the host name are kept trimmed.
pub fn detect_hw_meta(
    nv_tegra_release: Option<String>,
    tegrastats_installed: bool,
    hostname: Option<String>,
) -> (r: HwMeta)
    ensures
        r.is_jetson == (nv_tegra_release is Some || tegrastats_installed),
        crate::server::opt_view(r.nv_tegra_release) == match nv_tegra_release {
            Some(s) => Some(trimmed(s@)),
            None => None,
        },
        crate::server::opt_view(r.hostname) == match hostname {
            Some(s) => Some(trimmed(s@)),
            None => None,
        },
{
    let is_jetson = nv_tegra_release.is_some() || tegrastats_installed;
    let release = match &nv_tegra_release {
        Some(s) => Some(trim(s.as_str())),
        None => None,
    };
    let host = match &hostname {
        Some(s) => Some(trim(s.as_str())),
        None => None,
    };
    HwMeta { is_jetson, nv_tegra_release: release, hostname: host }
}

} // verus!
