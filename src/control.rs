//! The control manager: which controls a board offers, their current
//! values, and the validated path that changes them.
//!
//! Changing a control on a real board runs a utility or writes a `sysfs`
//! file. Those steps are not taken here: a mutator that has validated its
//! input returns the `HostAction` to perform, and `complete` records what
//! came of it. In mock mode every change is made in memory at once.
use crate::hardware::JetsonHardware;
use crate::protocol::{strings_view, ControlInfo, ControlInfoView};
use crate::text::{
    bounded_unsigned, contains_str, decimal_of, decimal_string, join, join_strings, owned,
    parse_unsigned, starts_with, str_eq,
};
use vstd::prelude::*;

verus! {

#[derive(Debug, Clone)]
pub struct ControlStatus {
    pub available: bool,
    pub jetson_clocks: Option<bool>,
    pub fan: Option<String>,
    pub nvpmodel: Option<String>,
    pub nvpmodel_modes: Vec<String>,
    pub cpu_governor: Option<String>,
    pub cpu_governor_modes: Vec<String>,
    pub gpu_governor: Option<String>,
    pub gpu_governor_modes: Vec<String>,
    pub gpu_railgate: Option<bool>,
    pub supports_fan: bool,
    pub supports_nvpmodel: bool,
    pub supports_jetson_clocks: bool,
    pub supports_cpu_governor: bool,
    pub supports_gpu_governor: bool,
    pub supports_gpu_railgate: bool,
    pub note: String,
    pub last_error: Option<String>,
}

/// What was found on the host when the manager was made: the current
/// values and the choices each control offers.
#[derive(Debug, Clone)]
pub struct HostProbe {
    pub nvpmodel_modes: Vec<String>,
    pub nvpmodel: Option<String>,
    pub cpu_governor_modes: Vec<String>,
    pub cpu_governor: Option<String>,
    pub gpu_governor_modes: Vec<String>,
    pub gpu_governor: Option<String>,
    pub gpu_railgate: Option<bool>,
    pub fan_present: bool,
    pub fan: Option<String>,
    pub jetson_clocks_installed: bool,
    pub jetson_clocks: Option<bool>,
}

/// A change to make on the host.
#[derive(Debug, Clone, PartialEq, Eq)]
pub enum HostAction {
    /// Run `jetson_clocks --on` or `--off`.
    SetJetsonClocks(bool),
    /// Read the `jetson_clocks` state and run the opposite switch.
    ToggleJetsonClocks,
    /// Run `nvpmodel -m <mode>`.
    SetNvpmodel(String),
    /// Run `jetson_fan --set <percent>`.
    SetFan(u8),
    /// Write the governor to every CPU's `cpufreq/scaling_governor`.
    WriteCpuGovernor(String),
    /// Write the governor to the GPU's devfreq `governor`.
    WriteGpuGovernor(String),
    /// Write `auto` (true) or `on` (false) to the GPU's `power/control`.
    WriteGpuRailgate(bool),
}

/// What came of a `HostAction`.
#[derive(Debug, Clone)]
pub enum HostOutcome {
    Done,
    /// The toggle went through and `jetson_clocks` is now on (true) or off.
    ClocksNow(bool),
    Failed(String),
}

/// Why a control could not be set.
#[derive(Debug, Clone)]
pub enum ControlError {
    /// No control of that name.
    Unknown,
    /// The value is not one the control accepts.
    Invalid(String),
    /// The host cannot make the change.
    Failed(String),
}

/// The result of asking for a change.
#[derive(Debug, Clone)]
pub enum ControlStep {
    /// Made in memory (mock mode); the control as it now stands.
    Done(ControlInfo),
    /// Validated; the host must now perform this action.
    Pending(HostAction),
}

pub struct ControlManager {
    status: ControlStatus,
    mock: bool,
    hardware: JetsonHardware,
}

// ---------------------------------------------------------------------
// Messages.
// ---------------------------------------------------------------------
pub open spec fn not_jetson_msg() -> Seq<char> {
    "No es Jetson (demo)"@
}

pub open spec fn fan_range_msg(p: u8) -> Seq<char> {
    "Valor de fan inválido: "@ + decimal_of(p as nat) + ". Rango válido: 0-100"@
}

pub open spec fn mode_invalid_msg(m: Seq<char>, modes: Seq<Seq<char>>) -> Seq<char> {
    "Modo inválido: "@ + m + ". Modos disponibles: "@ + join(modes, ", "@)
}

pub open spec fn fan_text(p: u8) -> Seq<char> {
    decimal_of(p as nat) + "%"@
}

pub open spec fn opt_str(s: Option<String>) -> Option<Seq<char>> {
    match s {
        Some(v) => Some(v@),
        None => None,
    }
}

/// `a` holds the same values as `b`.
pub open spec fn same_status(a: ControlStatus, b: ControlStatus) -> bool {
    &&& a == ControlStatus {
        nvpmodel_modes: a.nvpmodel_modes,
        cpu_governor_modes: a.cpu_governor_modes,
        gpu_governor_modes: a.gpu_governor_modes,
        ..b
    }
    &&& a.nvpmodel_modes@ == b.nvpmodel_modes@
    &&& a.cpu_governor_modes@ == b.cpu_governor_modes@
    &&& a.gpu_governor_modes@ == b.gpu_governor_modes@
}

/// `new` is `old` with only `last_error` changed, to `msg`.
pub open spec fn errored(old: ControlStatus, new: ControlStatus, msg: Seq<char>) -> bool {
    &&& new == ControlStatus { last_error: new.last_error, ..old }
    &&& opt_str(new.last_error) == Some(msg)
}

/// `new` is `old` with only `last_error` changed, to some message.
pub open spec fn errored_any(old: ControlStatus, new: ControlStatus) -> bool {
    &&& new == ControlStatus { last_error: new.last_error, ..old }
    &&& new.last_error is Some
}

/// The values a control accepts from a client.
pub open spec fn value_allowed(st: ControlStatus, name: Seq<char>, value: Seq<char>) -> bool {
    if name == "jetson_clocks"@ {
        value == "on"@ || value == "off"@
    } else if name == "nvpmodel"@ {
        strings_view(st.nvpmodel_modes@).contains(value)
    } else if name == "fan"@ {
        bounded_unsigned(value, 100) is Some
    } else if name == "cpu_governor"@ {
        strings_view(st.cpu_governor_modes@).contains(value)
    } else if name == "gpu_governor"@ {
        strings_view(st.gpu_governor_modes@).contains(value)
    } else {
        value == "auto"@ || value == "on"@
    }
}

pub open spec fn known_control(name: Seq<char>) -> bool {
    name == "jetson_clocks"@ || name == "nvpmodel"@ || name == "fan"@ || name == "cpu_governor"@
        || name == "gpu_governor"@ || name == "gpu_railgate"@
}

/// Whether the host side of a control is there.
pub open spec fn supported(st: ControlStatus, name: Seq<char>) -> bool {
    if name == "jetson_clocks"@ {
        st.supports_jetson_clocks
    } else if name == "nvpmodel"@ {
        st.supports_nvpmodel
    } else if name == "fan"@ {
        st.supports_fan
    } else if name == "cpu_governor"@ {
        st.supports_cpu_governor
    } else if name == "gpu_governor"@ {
        st.supports_gpu_governor
    } else {
        st.supports_gpu_railgate
    }
}

// ---------------------------------------------------------------------
// The controls as clients see them.
// ---------------------------------------------------------------------
pub open spec fn or_unknown(s: Option<String>) -> Seq<char> {
    match s {
        Some(v) => v@,
        None => "unknown"@,
    }
}

pub open spec fn clocks_text(b: Option<bool>) -> Seq<char> {
    match b {
        Some(true) => "on"@,
        Some(false) => "off"@,
        None => "unknown"@,
    }
}

pub open spec fn railgate_text(b: Option<bool>) -> Seq<char> {
    match b {
        Some(true) => "auto"@,
        Some(false) => "on"@,
        None => "unknown"@,
    }
}

pub open spec fn plain_control(
    name: Seq<char>,
    description: Seq<char>,
    value: Seq<char>,
    options: Seq<Seq<char>>,
) -> ControlInfoView {
    ControlInfoView {
        name,
        description,
        value,
        options,
        readonly: false,
        min: None,
        max: None,
        step: None,
        requires_sudo: true,
        supported: true,
        unit: None,
    }
}

pub open spec fn fan_control(st: ControlStatus) -> ControlInfoView {
    ControlInfoView {
        name: "fan"@,
        description: "Fan speed"@,
        value: match st.fan {
            Some(v) => v@,
            None => "0%"@,
        },
        options: seq!["0-100"@],
        readonly: false,
        min: Some(0),
        max: Some(100),
        step: Some(1),
        requires_sudo: true,
        supported: true,
        unit: Some("%"@),
    }
}

pub open spec fn when(b: bool, c: ControlInfoView) -> Seq<ControlInfoView> {
    if b {
        seq![c]
    } else {
        Seq::empty()
    }
}

/// The supported controls, in a fixed order.
pub open spec fn controls_of(st: ControlStatus) -> Seq<ControlInfoView> {
    when(
        st.supports_jetson_clocks,
        plain_control(
            "jetson_clocks"@,
            "Max performance mode"@,
            clocks_text(st.jetson_clocks),
            seq!["on"@, "off"@],
        ),
    ) + when(
        st.supports_nvpmodel,
        plain_control(
            "nvpmodel"@,
            "Power mode"@,
            or_unknown(st.nvpmodel),
            strings_view(st.nvpmodel_modes@),
        ),
    ) + when(st.supports_fan, fan_control(st)) + when(
        st.supports_cpu_governor,
        plain_control(
            "cpu_governor"@,
            "CPU governor"@,
            or_unknown(st.cpu_governor),
            strings_view(st.cpu_governor_modes@),
        ),
    ) + when(
        st.supports_gpu_governor,
        plain_control(
            "gpu_governor"@,
            "GPU governor"@,
            or_unknown(st.gpu_governor),
            strings_view(st.gpu_governor_modes@),
        ),
    ) + when(
        st.supports_gpu_railgate,
        plain_control(
            "gpu_railgate"@,
            "GPU rail-gating (power control)"@,
            railgate_text(st.gpu_railgate),
            seq!["auto"@, "on"@],
        ),
    )
}

pub open spec fn unknown_control(name: Seq<char>) -> ControlInfoView {
    ControlInfoView {
        name,
        description: "unknown"@,
        value: "unknown"@,
        options: Seq::empty(),
        readonly: true,
        min: None,
        max: None,
        step: None,
        requires_sudo: false,
        supported: false,
        unit: None,
    }
}

/// The first control of `cs` named `name`.
pub open spec fn find_control(cs: Seq<ControlInfoView>, name: Seq<char>) -> Option<ControlInfoView>
    decreases cs.len(),
{
    if cs.len() == 0 {
        None
    } else if cs[0].name == name {
        Some(cs[0])
    } else {
        find_control(cs.drop_first(), name)
    }
}

pub open spec fn control_view(st: ControlStatus, name: Seq<char>) -> ControlInfoView {
    match find_control(controls_of(st), name) {
        Some(c) => c,
        None => unknown_control(name),
    }
}

/// The next mode after `current` in `modes`, cycling; the first mode when
/// `current` is not one of them.
pub open spec fn next_mode_of(modes: Seq<Seq<char>>, current: Seq<char>) -> Seq<char> {
    if modes.len() == 0 {
        current
    } else if modes.contains(current) {
        let i = choose|i: int| 0 <= i < modes.len() && modes[i] == current && forall|j: int|
            0 <= j < i ==> modes[j] != current;
        modes[(i + 1) % (modes.len() as int)]
    } else {
        modes[0]
    }
}

/// `new` is `old` after `action` went through.
pub open spec fn applied(old: ControlStatus, new: ControlStatus, action: HostAction) -> bool {
    match action {
        HostAction::SetJetsonClocks(on) => new == ControlStatus {
            jetson_clocks: Some(on),
            last_error: None,
            ..old
        },
        HostAction::ToggleJetsonClocks => new == ControlStatus {
            jetson_clocks: new.jetson_clocks,
            last_error: None,
            ..old
        } && new.jetson_clocks is Some,
        HostAction::SetNvpmodel(m) => new == ControlStatus {
            nvpmodel: Some(m),
            last_error: None,
            ..old
        },
        HostAction::SetFan(p) => new == ControlStatus { fan: new.fan, last_error: None, ..old }
            && opt_str(new.fan) == Some(fan_text(p)),
        HostAction::WriteCpuGovernor(g) => new == ControlStatus {
            cpu_governor: Some(g),
            last_error: None,
            ..old
        },
        HostAction::WriteGpuGovernor(g) => new == ControlStatus {
            gpu_governor: Some(g),
            last_error: None,
            ..old
        },
        HostAction::WriteGpuRailgate(auto) => new == ControlStatus {
            gpu_railgate: Some(auto),
            last_error: None,
            ..old
        },
    }
}

/// `new` is `old` after control `name` was set to `value` in memory.
pub open spec fn value_set(old: ControlStatus, new: ControlStatus, name: Seq<char>, value: Seq<char>) -> bool {
    if name == "jetson_clocks"@ {
        applied(old, new, HostAction::SetJetsonClocks(value == "on"@))
    } else if name == "nvpmodel"@ {
        new == ControlStatus { nvpmodel: new.nvpmodel, last_error: None, ..old } && opt_str(
            new.nvpmodel,
        ) == Some(value)
    } else if name == "fan"@ {
        bounded_unsigned(value, 100) matches Some(p) && applied(old, new, HostAction::SetFan(p as u8))
    } else if name == "cpu_governor"@ {
        new == ControlStatus { cpu_governor: new.cpu_governor, last_error: None, ..old }
            && opt_str(new.cpu_governor) == Some(value)
    } else if name == "gpu_governor"@ {
        new == ControlStatus { gpu_governor: new.gpu_governor, last_error: None, ..old }
            && opt_str(new.gpu_governor) == Some(value)
    } else {
        applied(old, new, HostAction::WriteGpuRailgate(value == "auto"@))
    }
}

/// What switching `jetson_clocks` over does: in mock mode it flips at
/// once; otherwise, when the utility is there, the toggle is to be run.
pub open spec fn toggle_effect(mock: bool, o: ControlStatus, n: ControlStatus, r: Option<HostAction>) -> bool {
    if mock {
        r is None && n == ControlStatus {
            jetson_clocks: Some(
                !(match o.jetson_clocks {
                    Some(b) => b,
                    None => false,
                }),
            ),
            last_error: None,
            ..o
        }
    } else if !o.available {
        r is None && errored(o, n, not_jetson_msg())
    } else if !o.supports_jetson_clocks {
        r is None && errored(o, n, "jetson_clocks no disponible en este sistema"@)
    } else {
        r == Some(HostAction::ToggleJetsonClocks) && n == o
    }
}

/// The message that refuses `value` for control `name`.
pub open spec fn invalid_msg(st: ControlStatus, name: Seq<char>, value: Seq<char>) -> Seq<char> {
    if name == "jetson_clocks"@ {
        "Valor inválido para jetson_clocks: "@ + value
    } else if name == "nvpmodel"@ {
        mode_invalid_msg(value, strings_view(st.nvpmodel_modes@))
    } else if name == "fan"@ {
        match bounded_unsigned(value, 255) {
            Some(p) => fan_range_msg(p as u8),
            None => "fan value debe ser 0-100"@,
        }
    } else if name == "cpu_governor"@ {
        "Governor inválido: "@ + value + ". Disponibles: "@ + join(
            strings_view(st.cpu_governor_modes@),
            ", "@,
        )
    } else if name == "gpu_governor"@ {
        "GPU governor inválido: "@ + value + ". Disponibles: "@ + join(
            strings_view(st.gpu_governor_modes@),
            ", "@,
        )
    } else {
        "Modo inválido: "@ + value + " (auto|on)"@
    }
}

/// The status a mock manager starts with.
pub open spec fn mock_status(st: ControlStatus, hw_modes: Seq<Seq<char>>) -> bool {
    &&& st.available
    &&& st.supports_fan && st.supports_nvpmodel && st.supports_jetson_clocks
    &&& st.supports_cpu_governor && st.supports_gpu_governor && st.supports_gpu_railgate
    &&& st.jetson_clocks == Some(false)
    &&& opt_str(st.fan) == Some("0%"@)
    &&& strings_view(st.nvpmodel_modes@) == (if hw_modes.len() == 0 {
        seq!["MODE_0"@, "MODE_1"@]
    } else {
        hw_modes
    })
    &&& opt_str(st.nvpmodel) == Some(strings_view(st.nvpmodel_modes@)[0])
    &&& opt_str(st.cpu_governor) == Some("ondemand"@)
    &&& strings_view(st.cpu_governor_modes@) == seq!["ondemand"@, "performance"@]
    &&& opt_str(st.gpu_governor) == Some("nvhost_podgov"@)
    &&& strings_view(st.gpu_governor_modes@) == seq!["nvhost_podgov"@, "performance"@]
    &&& st.gpu_railgate == Some(true)
    &&& st.note@ == "Mock mode (no real commands)"@
    &&& st.last_error is None
}

/// The status of a host that is no Jetson: nothing supported, nothing known.
pub open spec fn demo_status(st: ControlStatus) -> bool {
    &&& !st.available
    &&& st.jetson_clocks is None && st.fan is None && st.nvpmodel is None
    &&& st.cpu_governor is None && st.gpu_governor is None && st.gpu_railgate is None
    &&& st.nvpmodel_modes@.len() == 0 && st.cpu_governor_modes@.len() == 0
    &&& st.gpu_governor_modes@.len() == 0
    &&& !st.supports_fan && !st.supports_nvpmodel && !st.supports_jetson_clocks
    &&& !st.supports_cpu_governor && !st.supports_gpu_governor && !st.supports_gpu_railgate
    &&& st.note@ == "Host no Jetson: modo demo"@
    &&& st.last_error is None
}

/// `action` is the change that sets control `name` to `value`.
pub open spec fn action_for(action: HostAction, name: Seq<char>, value: Seq<char>) -> bool {
    match action {
        HostAction::SetJetsonClocks(on) => name == "jetson_clocks"@ && on == (value == "on"@),
        HostAction::ToggleJetsonClocks => false,
        HostAction::SetNvpmodel(m) => name == "nvpmodel"@ && m@ == value,
        HostAction::SetFan(p) => name == "fan"@ && bounded_unsigned(value, 100) == Some(p as int),
        HostAction::WriteCpuGovernor(g) => name == "cpu_governor"@ && g@ == value,
        HostAction::WriteGpuGovernor(g) => name == "gpu_governor"@ && g@ == value,
        HostAction::WriteGpuRailgate(auto) => name == "gpu_railgate"@ && auto == (value
            == "auto"@),
    }
}

pub open spec fn infos_view(v: Seq<ControlInfo>) -> Seq<ControlInfoView> {
    v.map_values(|c: ControlInfo| c@)
}

fn one_string(a: &str) -> (r: Vec<String>)
    ensures
        strings_view(r@) == seq![a@],
{
    let mut v: Vec<String> = Vec::new();
    v.push(owned(a));
    assert(strings_view(v@) =~= seq![a@]);
    v
}

fn two_strings(a: &str, b: &str) -> (r: Vec<String>)
    ensures
        strings_view(r@) == seq![a@, b@],
{
    let mut v: Vec<String> = Vec::new();
    v.push(owned(a));
    v.push(owned(b));
    assert(strings_view(v@) =~= seq![a@, b@]);
    v
}

fn clone_strings(v: &Vec<String>) -> (r: Vec<String>)
    ensures
        r@ == v@,
{
    let mut out: Vec<String> = Vec::new();
    let mut i: usize = 0;
    while i < v.len()
        invariant
            i <= v@.len(),
            out@ == v@.subrange(0, i as int),
        decreases v@.len() - i,
    {
        out.push(v[i].clone());
        assert(out@ =~= v@.subrange(0, i + 1));
        i = i + 1;
    }
    assert(v@.subrange(0, v@.len() as int) == v@);
    out
}

fn clone_opt(s: &Option<String>) -> (r: Option<String>)
    ensures
        r == *s,
{
    match s {
        Some(v) => Some(v.clone()),
        None => None,
    }
}

fn value_or_unknown(s: &Option<String>) -> (r: String)
    ensures
        r@ == or_unknown(*s),
{
    match s {
        Some(v) => v.clone(),
        None => owned("unknown"),
    }
}

fn make_plain(name: &str, description: &str, value: String, options: Vec<String>) -> (r: ControlInfo)
    ensures
        r@ == plain_control(name@, description@, value@, strings_view(options@)),
{
    ControlInfo {
        name: owned(name),
        description: owned(description),
        value,
        options,
        readonly: false,
        min: None,
        max: None,
        step: None,
        requires_sudo: true,
        supported: true,
        unit: None,
    }
}

impl ControlManager {
    pub closed spec fn spec_status(&self) -> ControlStatus {
        self.status
    }

    pub closed spec fn is_mock(&self) -> bool {
        self.mock
    }

    /// A manager for a host on which no Jetson hardware was detected: every
    /// control is unsupported. Detection reads the host's files and is the
    /// caller's part; with its results, use `with_hardware`.
    pub fn new() -> (r: Self)
        ensures
            !r.is_mock(),
            demo_status(r.spec_status()),
            controls_of(r.spec_status()).len() == 0,
    {
        let hardware = JetsonHardware::default();
        Self::with_hardware(hardware, HostProbe::none())
    }

    /// A manager for `hardware`, with what was probed on the host; `mock`
    /// makes every change in memory only.
    pub fn from_hardware(hardware: JetsonHardware, mock: bool, probe: HostProbe) -> (r: Self)
        ensures
            r.is_mock() == mock,
            r.spec_status().last_error is None,
            mock ==> mock_status(r.spec_status(), strings_view(hardware.nvpmodel_modes@)),
            !mock && hardware.is_jetson ==> r.spec_status().available
                && r.spec_status().note@ == "Controles listos"@
                && r.spec_status().nvpmodel_modes@ == probe.nvpmodel_modes@
                && r.spec_status().cpu_governor_modes@ == probe.cpu_governor_modes@
                && r.spec_status().gpu_governor_modes@ == probe.gpu_governor_modes@
                && r.spec_status().supports_nvpmodel == (probe.nvpmodel_modes@.len() > 0)
                && r.spec_status().supports_cpu_governor == (probe.cpu_governor_modes@.len() > 0)
                && r.spec_status().supports_gpu_governor == (probe.gpu_governor_modes@.len() > 0)
                && r.spec_status().supports_gpu_railgate == (probe.gpu_railgate is Some)
                && r.spec_status().supports_fan == probe.fan_present
                && r.spec_status().supports_jetson_clocks == probe.jetson_clocks_installed
                && r.spec_status().jetson_clocks == probe.jetson_clocks
                && r.spec_status().gpu_railgate == probe.gpu_railgate
                && r.spec_status().fan == probe.fan && r.spec_status().nvpmodel == probe.nvpmodel
                && r.spec_status().cpu_governor == probe.cpu_governor
                && r.spec_status().gpu_governor == probe.gpu_governor,
            !mock && !hardware.is_jetson ==> demo_status(r.spec_status()) && controls_of(
                r.spec_status(),
            ).len() == 0,
    {
        if mock {
            let nvpmodel_modes = if hardware.nvpmodel_modes.len() == 0 {
                two_strings("MODE_0", "MODE_1")
            } else {
                clone_strings(&hardware.nvpmodel_modes)
            };
            assert(strings_view(nvpmodel_modes@).len() == nvpmodel_modes@.len());
            let nvpmodel = Some(nvpmodel_modes[0].clone());
            let status = ControlStatus {
                available: true,
                jetson_clocks: Some(false),
                fan: Some(owned("0%")),
                nvpmodel,
                nvpmodel_modes,
                cpu_governor: Some(owned("ondemand")),
                cpu_governor_modes: two_strings("ondemand", "performance"),
                gpu_governor: Some(owned("nvhost_podgov")),
                gpu_governor_modes: two_strings("nvhost_podgov", "performance"),
                gpu_railgate: Some(true),
                supports_fan: true,
                supports_nvpmodel: true,
                supports_jetson_clocks: true,
                supports_cpu_governor: true,
                supports_gpu_governor: true,
                supports_gpu_railgate: true,
                note: owned("Mock mode (no real commands)"),
                last_error: None,
            };
            return ControlManager { hardware, mock: true, status };
        }
        if hardware.is_jetson {
            let supports_nvpmodel = probe.nvpmodel_modes.len() > 0;
            let supports_cpu_governor = probe.cpu_governor_modes.len() > 0;
            let supports_gpu_governor = probe.gpu_governor_modes.len() > 0;
            let supports_gpu_railgate = probe.gpu_railgate.is_some();
            let status = ControlStatus {
                available: true,
                jetson_clocks: probe.jetson_clocks,
                fan: probe.fan,
                nvpmodel: probe.nvpmodel,
                nvpmodel_modes: probe.nvpmodel_modes,
                cpu_governor: probe.cpu_governor,
                cpu_governor_modes: probe.cpu_governor_modes,
                gpu_governor: probe.gpu_governor,
                gpu_governor_modes: probe.gpu_governor_modes,
                gpu_railgate: probe.gpu_railgate,
                supports_fan: probe.fan_present,
                supports_nvpmodel,
                supports_jetson_clocks: probe.jetson_clocks_installed,
                supports_cpu_governor,
                supports_gpu_governor,
                supports_gpu_railgate,
                note: owned("Controles listos"),
                last_error: None,
            };
            ControlManager { hardware, mock, status }
        } else {
            let status = ControlStatus {
                available: false,
                jetson_clocks: None,
                fan: None,
                nvpmodel: None,
                nvpmodel_modes: Vec::new(),
                cpu_governor: None,
                cpu_governor_modes: Vec::new(),
                gpu_governor: None,
                gpu_governor_modes: Vec::new(),
                gpu_railgate: None,
                supports_fan: false,
                supports_nvpmodel: false,
                supports_jetson_clocks: false,
                supports_cpu_governor: false,
                supports_gpu_governor: false,
                supports_gpu_railgate: false,
                note: owned("Host no Jetson: modo demo"),
                last_error: None,
            };
            assert(controls_of(status) =~= Seq::<ControlInfoView>::empty());
            ControlManager { hardware, mock, status }
        }
    }

    /// A manager that acts on the host.
    pub fn with_hardware(hardware: JetsonHardware, probe: HostProbe) -> (r: Self)
        ensures
            !r.is_mock(),
            r.spec_status().available == hardware.is_jetson,
            r.spec_status().last_error is None,
            !hardware.is_jetson ==> demo_status(r.spec_status()) && controls_of(r.spec_status()).len()
                == 0,
    {
        Self::from_hardware(hardware, false, probe)
    }

    /// A manager that makes every change in memory only.
    pub fn mock(hardware: JetsonHardware) -> (r: Self)
        ensures
            r.is_mock(),
            mock_status(r.spec_status(), strings_view(hardware.nvpmodel_modes@)),
    {
        Self::from_hardware(hardware, true, HostProbe::none())
    }

    pub fn status(&self) -> (r: &ControlStatus)
        ensures
            *r == self.spec_status(),
    {
        &self.status
    }

    /// A copy of the current status.
    pub fn status_cloned(&self) -> (r: ControlStatus)
        ensures
            same_status(r, self.spec_status()),
    {
        let s = &self.status;
        ControlStatus {
            available: s.available,
            jetson_clocks: s.jetson_clocks,
            fan: clone_opt(&s.fan),
            nvpmodel: clone_opt(&s.nvpmodel),
            nvpmodel_modes: clone_strings(&s.nvpmodel_modes),
            cpu_governor: clone_opt(&s.cpu_governor),
            cpu_governor_modes: clone_strings(&s.cpu_governor_modes),
            gpu_governor: clone_opt(&s.gpu_governor),
            gpu_governor_modes: clone_strings(&s.gpu_governor_modes),
            gpu_railgate: s.gpu_railgate,
            supports_fan: s.supports_fan,
            supports_nvpmodel: s.supports_nvpmodel,
            supports_jetson_clocks: s.supports_jetson_clocks,
            supports_cpu_governor: s.supports_cpu_governor,
            supports_gpu_governor: s.supports_gpu_governor,
            supports_gpu_railgate: s.supports_gpu_railgate,
            note: s.note.clone(),
            last_error: clone_opt(&s.last_error),
        }
    }

    /// The supported controls with their current values.
    pub fn list_controls(&self) -> (r: Vec<ControlInfo>)
        ensures
            infos_view(r@) == controls_of(self.spec_status()),
    {
        let st = &self.status;
        let mut v: Vec<ControlInfo> = Vec::new();
        let ghost e = Seq::<ControlInfoView>::empty();
        if st.supports_jetson_clocks {
            let value = match st.jetson_clocks {
                Some(true) => owned("on"),
                Some(false) => owned("off"),
                None => owned("unknown"),
            };
            v.push(make_plain("jetson_clocks", "Max performance mode", value, two_strings("on", "off")));
        }
        let ghost c1 = when(
            st.supports_jetson_clocks,
            plain_control(
                "jetson_clocks"@,
                "Max performance mode"@,
                clocks_text(st.jetson_clocks),
                seq!["on"@, "off"@],
            ),
        );
        assert(infos_view(v@) =~= c1);
        let ghost before = v@;
        if st.supports_nvpmodel {
            v.push(
                make_plain(
                    "nvpmodel",
                    "Power mode",
                    value_or_unknown(&st.nvpmodel),
                    clone_strings(&st.nvpmodel_modes),
                ),
            );
        }
        let ghost c2 = c1 + when(
            st.supports_nvpmodel,
            plain_control(
                "nvpmodel"@,
                "Power mode"@,
                or_unknown(st.nvpmodel),
                strings_view(st.nvpmodel_modes@),
            ),
        );
        assert(infos_view(v@) =~= c2);
        if st.supports_fan {
            let info = ControlInfo {
                name: owned("fan"),
                description: owned("Fan speed"),
                value: match &st.fan {
                    Some(f) => f.clone(),
                    None => owned("0%"),
                },
                options: one_string("0-100"),
                readonly: false,
                min: Some(0),
                max: Some(100),
                step: Some(1),
                requires_sudo: true,
                supported: true,
                unit: Some(owned("%")),
            };
            v.push(info);
        }
        let ghost c3 = c2 + when(st.supports_fan, fan_control(*st));
        assert(infos_view(v@) =~= c3);
        if st.supports_cpu_governor {
            v.push(
                make_plain(
                    "cpu_governor",
                    "CPU governor",
                    value_or_unknown(&st.cpu_governor),
                    clone_strings(&st.cpu_governor_modes),
                ),
            );
        }
        let ghost c4 = c3 + when(
            st.supports_cpu_governor,
            plain_control(
                "cpu_governor"@,
                "CPU governor"@,
                or_unknown(st.cpu_governor),
                strings_view(st.cpu_governor_modes@),
            ),
        );
        assert(infos_view(v@) =~= c4);
        if st.supports_gpu_governor {
            v.push(
                make_plain(
                    "gpu_governor",
                    "GPU governor",
                    value_or_unknown(&st.gpu_governor),
                    clone_strings(&st.gpu_governor_modes),
                ),
            );
        }
        let ghost c5 = c4 + when(
            st.supports_gpu_governor,
            plain_control(
                "gpu_governor"@,
                "GPU governor"@,
                or_unknown(st.gpu_governor),
                strings_view(st.gpu_governor_modes@),
            ),
        );
        assert(infos_view(v@) =~= c5);
        if st.supports_gpu_railgate {
            let value = match st.gpu_railgate {
                Some(true) => owned("auto"),
                Some(false) => owned("on"),
                None => owned("unknown"),
            };
            v.push(
                make_plain(
                    "gpu_railgate",
                    "GPU rail-gating (power control)",
                    value,
                    two_strings("auto", "on"),
                ),
            );
        }
        assert(infos_view(v@) =~= controls_of(*st));
        v
    }

    /// The control named `name`, or a read-only placeholder when there is
    /// no such supported control.
    pub fn control_info(&self, name: &str) -> (r: ControlInfo)
        ensures
            r@ == control_view(self.spec_status(), name@),
    {
        let mut list = self.list_controls();
        let ghost cs = infos_view(list@);
        let key = owned(name);
        let mut i: usize = 0;
        assert(cs.subrange(0, cs.len() as int) == cs);
        while i < list.len()
            invariant
                i <= list@.len() == cs.len(),
                cs == infos_view(list@),
                cs == controls_of(self.spec_status()),
                key@ == name@,
                find_control(cs, name@) == find_control(cs.subrange(i as int, cs.len() as int), name@),
            decreases list@.len() - i,
        {
            let ghost rest = cs.subrange(i as int, cs.len() as int);
            assert(rest[0] == cs[i as int]);
            assert(rest.drop_first() == cs.subrange(i + 1, cs.len() as int));
            if list[i].name == key {
                assert(cs[i as int] == list@[i as int]@);
                assert(rest[0].name == name@);
                assert(find_control(rest, name@) == Some(cs[i as int]));
                assert(find_control(cs, name@) == Some(cs[i as int]));
                let ghost old_list = list@;
                let c = list.remove(i);
                assert(c == old_list[i as int]);
                assert(c@ == cs[i as int]);
                return c;
            }
            i = i + 1;
        }
        assert(cs.subrange(i as int, cs.len() as int) =~= Seq::<ControlInfoView>::empty());
        let r = ControlInfo {
            name: owned(name),
            description: owned("unknown"),
            value: owned("unknown"),
            options: Vec::new(),
            readonly: true,
            min: None,
            max: None,
            step: None,
            requires_sudo: false,
            supported: false,
            unit: None,
        };
        assert(r@.options =~= Seq::<Seq<char>>::empty());
        r
    }
}

impl HostProbe {
    /// A probe that found nothing.
    pub fn none() -> (r: Self)
        ensures
            r.nvpmodel_modes@.len() == 0,
            r.cpu_governor_modes@.len() == 0,
            r.gpu_governor_modes@.len() == 0,
            r.gpu_railgate is None,
            !r.fan_present,
            !r.jetson_clocks_installed,
    {
        HostProbe {
            nvpmodel_modes: Vec::new(),
            nvpmodel: None,
            cpu_governor_modes: Vec::new(),
            cpu_governor: None,
            gpu_governor_modes: Vec::new(),
            gpu_governor: None,
            gpu_railgate: None,
            fan_present: false,
            fan: None,
            jetson_clocks_installed: false,
            jetson_clocks: None,
        }
    }
}


fn concat3(a: &str, b: &str, c: &str) -> (r: String)
    ensures
        r@ == a@ + b@ + c@,
{
    let mut m = owned(a);
    m.append(b);
    m.append(c);
    m
}

fn fan_range_message(p: u8) -> (r: String)
    ensures
        r@ == fan_range_msg(p),
{
    concat3("Valor de fan inválido: ", decimal_string(p as u64).as_str(), ". Rango válido: 0-100")
}

fn fan_value_text(p: u8) -> (r: String)
    ensures
        r@ == fan_text(p),
{
    let mut m = decimal_string(p as u64);
    m.append("%");
    m
}

fn listing_message(head: &str, item: &str, middle: &str, items: &Vec<String>) -> (r: String)
    ensures
        r@ == head@ + item@ + middle@ + join(strings_view(items@), ", "@),
{
    let mut m = concat3(head, item, middle);
    m.append(join_strings(items, ", ").as_str());
    m
}

/// The mode after `current` in `modes`.
fn next_mode(modes: &Vec<String>, current: &str) -> (r: String)
    ensures
        r@ == next_mode_of(strings_view(modes@), current@),
{
    let ghost views = strings_view(modes@);
    if modes.len() == 0 {
        return owned(current);
    }
    let key = owned(current);
    let mut i: usize = 0;
    while i < modes.len()
        invariant
            i <= modes@.len(),
            views == strings_view(modes@),
            key@ == current@,
            forall|j: int| 0 <= j < i ==> views[j] != current@,
        decreases modes@.len() - i,
    {
        if modes[i] == key {
            assert(views[i as int] == current@);
            assert(views.contains(current@));
            proof {
                let k = choose|k: int| 0 <= k < views.len() && views[k] == current@ && forall|j: int|
                    0 <= j < k ==> views[j] != current@;
                assert(k == i) by {
                    if k < i {
                        assert(views[k] != current@);
                    }
                    if i < k {
                        assert(views[i as int] != current@);
                    }
                }
            }
            let n = (i + 1) % modes.len();
            return modes[n].clone();
        }
        i = i + 1;
    }
    assert(!views.contains(current@)) by {
        if views.contains(current@) {
            let j = choose|j: int| 0 <= j < views.len() && views[j] == current@;
            assert(views[j] != current@);
        }
    }
    modes[0].clone()
}

impl ControlManager {
    fn fail(&mut self, msg: String)
        ensures
            errored(old(self).spec_status(), final(self).spec_status(), msg@),
            final(self).is_mock() == old(self).is_mock(),
    {
        self.status.last_error = Some(msg);
    }

    /// Switches `jetson_clocks` to the other state.
    pub fn toggle_jetson_clocks(&mut self) -> (r: Option<HostAction>)
        ensures
            final(self).is_mock() == old(self).is_mock(),
            toggle_effect(old(self).is_mock(), old(self).spec_status(), final(self).spec_status(), r),
    {
        if self.mock {
            let current = match self.status.jetson_clocks {
                Some(b) => b,
                None => false,
            };
            self.status.jetson_clocks = Some(!current);
            self.status.last_error = None;
            return None;
        }
        if !self.status.available {
            self.fail(owned("No es Jetson (demo)"));
            return None;
        }
        if !self.status.supports_jetson_clocks {
            self.fail(owned("jetson_clocks no disponible en este sistema"));
            return None;
        }
        Some(HostAction::ToggleJetsonClocks)
    }

    /// Sets `jetson_clocks` to `on` or `off`; `toggle` or an empty value
    /// switches it.
    pub fn set_jetson_clocks(&mut self, value: &str) -> (r: Result<Option<HostAction>, String>)
        ensures
            final(self).is_mock() == old(self).is_mock(),
            ({
                let (o, n) = (old(self).spec_status(), final(self).spec_status());
                if !o.available {
                    r matches Err(m) && m@ == not_jetson_msg() && errored(o, n, m@)
                } else if !o.supports_jetson_clocks {
                    r matches Err(m) && errored(
                        o,
                        n,
                        "jetson_clocks no disponible en este sistema"@,
                    ) && m@ == "jetson_clocks no disponible en este sistema"@
                } else if value@ == "on"@ || value@ == "off"@ {
                    if old(self).is_mock() {
                        r == Ok::<Option<HostAction>, String>(None) && applied(
                            o,
                            n,
                            HostAction::SetJetsonClocks(value@ == "on"@),
                        )
                    } else {
                        r == Ok::<Option<HostAction>, String>(
                            Some(HostAction::SetJetsonClocks(value@ == "on"@)),
                        ) && n == o
                    }
                } else if value@ == "toggle"@ || value@.len() == 0 {
                    r matches Ok(a) && toggle_effect(old(self).is_mock(), o, n, a)
                } else {
                    r matches Err(m) && errored(o, n, m@) && m@ == "Valor inválido para jetson_clocks: "@
                        + value@
                }
            }),
    {
        if !self.status.available {
            let m = owned("No es Jetson (demo)");
            self.fail(m.clone());
            return Err(m);
        }
        if !self.status.supports_jetson_clocks {
            let m = owned("jetson_clocks no disponible en este sistema");
            self.fail(m.clone());
            return Err(m);
        }
        let on = str_eq(value, "on");
        if on || str_eq(value, "off") {
            if self.mock {
                self.status.jetson_clocks = Some(on);
                self.status.last_error = None;
                return Ok(None);
            }
            return Ok(Some(HostAction::SetJetsonClocks(on)));
        }
        if str_eq(value, "toggle") || value.unicode_len() == 0 {
            return Ok(self.toggle_jetson_clocks());
        }
        let mut m = owned("Valor inválido para jetson_clocks: ");
        m.append(value);
        self.fail(m.clone());
        Err(m)
    }

    /// Moves to the next power mode.
    pub fn cycle_nvpmodel(&mut self) -> (r: Option<HostAction>)
        ensures
            final(self).is_mock() == old(self).is_mock(),
            ({
                let (o, n) = (old(self).spec_status(), final(self).spec_status());
                let next = next_mode_of(
                    strings_view(o.nvpmodel_modes@),
                    match o.nvpmodel {
                        Some(m) => m@,
                        None => Seq::empty(),
                    },
                );
                if !o.available {
                    r is None && errored(o, n, not_jetson_msg())
                } else if !o.supports_nvpmodel {
                    r is None && errored(o, n, "nvpmodel no disponible en este sistema"@)
                } else if o.nvpmodel_modes@.len() == 0 {
                    r is None && errored(o, n, "No se pudieron leer modos nvpmodel"@)
                } else if old(self).is_mock() {
                    r is None && n == ControlStatus {
                        nvpmodel: n.nvpmodel,
                        last_error: None,
                        ..o
                    } && opt_str(n.nvpmodel) == Some(next)
                } else {
                    r matches Some(HostAction::SetNvpmodel(m)) && m@ == next && n == o
                }
            }),
    {
        if !self.status.available {
            self.fail(owned("No es Jetson (demo)"));
            return None;
        }
        if !self.status.supports_nvpmodel {
            self.fail(owned("nvpmodel no disponible en este sistema"));
            return None;
        }
        if self.status.nvpmodel_modes.len() == 0 {
            self.fail(owned("No se pudieron leer modos nvpmodel"));
            return None;
        }
        let current = match &self.status.nvpmodel {
            Some(m) => m.clone(),
            None => String::new(),
        };
        let next = next_mode(&self.status.nvpmodel_modes, current.as_str());
        if self.mock {
            self.status.nvpmodel = Some(next);
            self.status.last_error = None;
            return None;
        }
        Some(HostAction::SetNvpmodel(next))
    }

    /// Sets the power mode to `mode`, or to the next one when `mode` is
    /// `None`. The mode must be one of the detected modes.
    pub fn set_nvpmodel_mode(&mut self, mode: Option<String>) -> (r: Option<HostAction>)
        ensures
            final(self).is_mock() == old(self).is_mock(),
            ({
                let (o, n) = (old(self).spec_status(), final(self).spec_status());
                let modes = strings_view(o.nvpmodel_modes@);
                let target = match mode {
                    Some(m) => m@,
                    None => next_mode_of(
                        modes,
                        match o.nvpmodel {
                            Some(m) => m@,
                            None => Seq::empty(),
                        },
                    ),
                };
                if !o.available {
                    r is None && errored(o, n, not_jetson_msg())
                } else if mode is Some && !modes.contains(target) {
                    r is None && errored(o, n, mode_invalid_msg(target, modes))
                } else if old(self).is_mock() {
                    r is None && n == ControlStatus {
                        nvpmodel: n.nvpmodel,
                        last_error: None,
                        ..o
                    } && opt_str(n.nvpmodel) == Some(target)
                } else {
                    r matches Some(HostAction::SetNvpmodel(m)) && m@ == target && n == o
                }
            }),
    {
        if !self.status.available {
            self.fail(owned("No es Jetson (demo)"));
            return None;
        }
        let target = match mode {
            Some(m) => {
                if !contains_str(&self.status.nvpmodel_modes, m.as_str()) {
                    let msg = listing_message(
                        "Modo inválido: ",
                        m.as_str(),
                        ". Modos disponibles: ",
                        &self.status.nvpmodel_modes,
                    );
                    self.fail(msg);
                    return None;
                }
                m
            },
            None => {
                let current = match &self.status.nvpmodel {
                    Some(m) => m.clone(),
                    None => String::new(),
                };
                next_mode(&self.status.nvpmodel_modes, current.as_str())
            },
        };
        if self.mock {
            self.status.nvpmodel = Some(target);
            self.status.last_error = None;
            return None;
        }
        Some(HostAction::SetNvpmodel(target))
    }

    /// Sets the fan speed, in percent (0 to 100).
    pub fn set_fan(&mut self, percent: u8) -> (r: Option<HostAction>)
        ensures
            final(self).is_mock() == old(self).is_mock(),
            ({
                let (o, n) = (old(self).spec_status(), final(self).spec_status());
                if percent > 100 {
                    r is None && errored(o, n, fan_range_msg(percent))
                } else if old(self).is_mock() {
                    r is None && applied(o, n, HostAction::SetFan(percent))
                } else if !o.available {
                    r is None && errored(o, n, not_jetson_msg())
                } else if !o.supports_fan {
                    r is None && errored(o, n, "Control de fan no soportado en este hardware"@)
                } else {
                    r == Some(HostAction::SetFan(percent)) && n == o
                }
            }),
    {
        if percent > 100 {
            self.fail(fan_range_message(percent));
            return None;
        }
        if self.mock {
            self.status.fan = Some(fan_value_text(percent));
            self.status.last_error = None;
            return None;
        }
        if !self.status.available {
            self.fail(owned("No es Jetson (demo)"));
            return None;
        }
        if !self.status.supports_fan {
            self.fail(owned("Control de fan no soportado en este hardware"));
            return None;
        }
        Some(HostAction::SetFan(percent))
    }

    /// Sets the CPU governor of every core; it must be one the cores offer.
    pub fn set_cpu_governor(&mut self, governor: &str) -> (r: Result<Option<HostAction>, String>)
        ensures
            final(self).is_mock() == old(self).is_mock(),
            ({
                let (o, n) = (old(self).spec_status(), final(self).spec_status());
                let modes = strings_view(o.cpu_governor_modes@);
                if !o.available {
                    r matches Err(m) && m@ == not_jetson_msg() && errored(o, n, m@)
                } else if !o.supports_cpu_governor {
                    r matches Err(m) && m@ == "Control de governor no soportado"@ && errored(o, n, m@)
                } else if !modes.contains(governor@) {
                    r matches Err(m) && m@ == "Governor inválido: "@ + governor@ + ". Disponibles: "@
                        + join(modes, ", "@) && errored(o, n, m@)
                } else if old(self).is_mock() {
                    r == Ok::<Option<HostAction>, String>(None) && n == ControlStatus {
                        cpu_governor: n.cpu_governor,
                        last_error: None,
                        ..o
                    } && opt_str(n.cpu_governor) == Some(governor@)
                } else {
                    r matches Ok(Some(HostAction::WriteCpuGovernor(g))) && g@ == governor@ && n == o
                }
            }),
    {
        if !self.status.available {
            let m = owned("No es Jetson (demo)");
            self.fail(m.clone());
            return Err(m);
        }
        if !self.status.supports_cpu_governor {
            let m = owned("Control de governor no soportado");
            self.fail(m.clone());
            return Err(m);
        }
        if !contains_str(&self.status.cpu_governor_modes, governor) {
            let m = listing_message(
                "Governor inválido: ",
                governor,
                ". Disponibles: ",
                &self.status.cpu_governor_modes,
            );
            self.fail(m.clone());
            return Err(m);
        }
        if self.mock {
            self.status.cpu_governor = Some(owned(governor));
            self.status.last_error = None;
            return Ok(None);
        }
        Ok(Some(HostAction::WriteCpuGovernor(owned(governor))))
    }

    /// Sets the GPU governor; it must be one the GPU offers.
    pub fn set_gpu_governor(&mut self, governor: &str) -> (r: Result<Option<HostAction>, String>)
        ensures
            final(self).is_mock() == old(self).is_mock(),
            ({
                let (o, n) = (old(self).spec_status(), final(self).spec_status());
                let modes = strings_view(o.gpu_governor_modes@);
                if !o.available {
                    r matches Err(m) && m@ == not_jetson_msg() && errored(o, n, m@)
                } else if !o.supports_gpu_governor {
                    r matches Err(m) && m@ == "Control de GPU governor no soportado"@ && errored(
                        o,
                        n,
                        m@,
                    )
                } else if !modes.contains(governor@) {
                    r matches Err(m) && m@ == "GPU governor inválido: "@ + governor@
                        + ". Disponibles: "@ + join(modes, ", "@) && errored(o, n, m@)
                } else if old(self).is_mock() {
                    r == Ok::<Option<HostAction>, String>(None) && n == ControlStatus {
                        gpu_governor: n.gpu_governor,
                        last_error: None,
                        ..o
                    } && opt_str(n.gpu_governor) == Some(governor@)
                } else {
                    r matches Ok(Some(HostAction::WriteGpuGovernor(g))) && g@ == governor@ && n == o
                }
            }),
    {
        if !self.status.available {
            let m = owned("No es Jetson (demo)");
            self.fail(m.clone());
            return Err(m);
        }
        if !self.status.supports_gpu_governor {
            let m = owned("Control de GPU governor no soportado");
            self.fail(m.clone());
            return Err(m);
        }
        if !contains_str(&self.status.gpu_governor_modes, governor) {
            let m = listing_message(
                "GPU governor inválido: ",
                governor,
                ". Disponibles: ",
                &self.status.gpu_governor_modes,
            );
            self.fail(m.clone());
            return Err(m);
        }
        if self.mock {
            self.status.gpu_governor = Some(owned(governor));
            self.status.last_error = None;
            return Ok(None);
        }
        Ok(Some(HostAction::WriteGpuGovernor(owned(governor))))
    }

    /// Sets GPU rail-gating: `auto` lets the rail power down, `on` keeps it up.
    pub fn set_gpu_railgate(&mut self, mode: &str) -> (r: Result<Option<HostAction>, String>)
        ensures
            final(self).is_mock() == old(self).is_mock(),
            ({
                let (o, n) = (old(self).spec_status(), final(self).spec_status());
                if !o.available {
                    r matches Err(m) && m@ == not_jetson_msg() && errored(o, n, m@)
                } else if !o.supports_gpu_railgate {
                    r matches Err(m) && m@ == "Control de GPU railgate no soportado"@ && errored(
                        o,
                        n,
                        m@,
                    )
                } else if !(mode@ == "auto"@ || mode@ == "on"@) {
                    r matches Err(m) && m@ == "Modo inválido: "@ + mode@ + " (auto|on)"@ && errored(
                        o,
                        n,
                        m@,
                    )
                } else if old(self).is_mock() {
                    r == Ok::<Option<HostAction>, String>(None) && applied(
                        o,
                        n,
                        HostAction::WriteGpuRailgate(mode@ == "auto"@),
                    )
                } else {
                    r == Ok::<Option<HostAction>, String>(
                        Some(HostAction::WriteGpuRailgate(mode@ == "auto"@)),
                    ) && n == o
                }
            }),
    {
        if !self.status.available {
            let m = owned("No es Jetson (demo)");
            self.fail(m.clone());
            return Err(m);
        }
        if !self.status.supports_gpu_railgate {
            let m = owned("Control de GPU railgate no soportado");
            self.fail(m.clone());
            return Err(m);
        }
        let auto = str_eq(mode, "auto");
        if !(auto || str_eq(mode, "on")) {
            let m = concat3("Modo inválido: ", mode, " (auto|on)");
            self.fail(m.clone());
            return Err(m);
        }
        if self.mock {
            self.status.gpu_railgate = Some(auto);
            self.status.last_error = None;
            return Ok(None);
        }
        Ok(Some(HostAction::WriteGpuRailgate(auto)))
    }
}

impl ControlManager {
    /// Records what came of a host action: on success the control takes its
    /// new value and the last error is cleared; on failure only the last
    /// error changes.
    pub fn complete(&mut self, action: HostAction, outcome: HostOutcome) -> (r: Result<(), String>)
        ensures
            final(self).is_mock() == old(self).is_mock(),
            ({
                let (o, n) = (old(self).spec_status(), final(self).spec_status());
                match outcome {
                    HostOutcome::Failed(m) => r == Err::<(), String>(m) && errored(o, n, m@),
                    HostOutcome::ClocksNow(b) => if action == HostAction::ToggleJetsonClocks {
                        r is Ok && n == ControlStatus {
                            jetson_clocks: Some(b),
                            last_error: None,
                            ..o
                        }
                    } else {
                        r is Ok && applied(o, n, action)
                    },
                    HostOutcome::Done => if action == HostAction::ToggleJetsonClocks {
                        r matches Err(m) && m@ == "No se pudo leer estado jetson_clocks"@
                            && errored(o, n, m@)
                    } else {
                        r is Ok && applied(o, n, action)
                    },
                }
            }),
    {
        if let HostOutcome::Failed(m) = outcome {
            self.fail(m.clone());
            return Err(m);
        }
        match action {
            HostAction::ToggleJetsonClocks => {
                match outcome {
                    HostOutcome::ClocksNow(b) => {
                        self.status.jetson_clocks = Some(b);
                    },
                    _ => {
                        let m = owned("No se pudo leer estado jetson_clocks");
                        self.fail(m.clone());
                        return Err(m);
                    },
                }
            },
            HostAction::SetJetsonClocks(on) => {
                self.status.jetson_clocks = Some(on);
            },
            HostAction::SetNvpmodel(m) => {
                self.status.nvpmodel = Some(m);
            },
            HostAction::SetFan(p) => {
                self.status.fan = Some(fan_value_text(p));
            },
            HostAction::WriteCpuGovernor(g) => {
                self.status.cpu_governor = Some(g);
            },
            HostAction::WriteGpuGovernor(g) => {
                self.status.gpu_governor = Some(g);
            },
            HostAction::WriteGpuRailgate(auto) => {
                self.status.gpu_railgate = Some(auto);
            },
        }
        self.status.last_error = None;
        Ok(())
    }

    fn unsupported_message(name: &str) -> (r: String) {
        if str_eq(name, "jetson_clocks") {
            owned("jetson_clocks no disponible en este sistema")
        } else if str_eq(name, "nvpmodel") {
            owned("nvpmodel no disponible en este sistema")
        } else if str_eq(name, "fan") {
            owned("Control de fan no soportado en este hardware")
        } else if str_eq(name, "cpu_governor") {
            owned("Control de governor no soportado")
        } else if str_eq(name, "gpu_governor") {
            owned("Control de GPU governor no soportado")
        } else {
            owned("Control de GPU railgate no soportado")
        }
    }

    fn is_supported(&self, name: &str) -> (r: bool)
        requires
            known_control(name@),
        ensures
            r == supported(self.spec_status(), name@),
    {
        if str_eq(name, "jetson_clocks") {
            self.status.supports_jetson_clocks
        } else if str_eq(name, "nvpmodel") {
            self.status.supports_nvpmodel
        } else if str_eq(name, "fan") {
            self.status.supports_fan
        } else if str_eq(name, "cpu_governor") {
            self.status.supports_cpu_governor
        } else if str_eq(name, "gpu_governor") {
            self.status.supports_gpu_governor
        } else {
            self.status.supports_gpu_railgate
        }
    }

    fn finish(&self, name: &str, action: Option<HostAction>) -> (r: Result<ControlStep, ControlError>)
        ensures
            match action {
                Some(a) => r == Ok::<ControlStep, ControlError>(ControlStep::Pending(a)),
                None => r matches Ok(ControlStep::Done(info)) && info@ == control_view(
                    self.spec_status(),
                    name@,
                ),
            },
    {
        match action {
            Some(a) => Ok(ControlStep::Pending(a)),
            None => Ok(ControlStep::Done(self.control_info(name))),
        }
    }

    /// Sets control `name` to `value`, as a client asks. The value must be
    /// one the control offers (for `fan`, a whole number from 0 to 100).
    /// In mock mode the change is made at once; otherwise the action to
    /// perform is returned, to be passed to `complete` with its outcome.
    pub fn apply_control(&mut self, name: &str, value: &str) -> (r: Result<ControlStep, ControlError>)
        ensures
            final(self).is_mock() == old(self).is_mock(),
            ({
                let (o, n) = (old(self).spec_status(), final(self).spec_status());
                let mock = old(self).is_mock();
                if !known_control(name@) {
                    r matches Err(ControlError::Unknown) && n == o
                } else if !o.available {
                    r matches Err(ControlError::Failed(m)) && m@ == not_jetson_msg() && errored(
                        o,
                        n,
                        m@,
                    )
                } else if !supported(o, name@) {
                    r matches Err(ControlError::Failed(m)) && errored(o, n, m@)
                } else if !value_allowed(o, name@, value@) {
                    r matches Err(ControlError::Invalid(m)) && errored(o, n, m@) && m@ == invalid_msg(
                        o,
                        name@,
                        value@,
                    )
                } else if mock {
                    r matches Ok(ControlStep::Done(info)) && value_set(o, n, name@, value@)
                        && info@ == control_view(n, name@)
                } else {
                    r matches Ok(ControlStep::Pending(a)) && action_for(a, name@, value@) && n == o
                }
            }),
    {
        let is_clocks = str_eq(name, "jetson_clocks");
        let is_nvp = str_eq(name, "nvpmodel");
        let is_fan = str_eq(name, "fan");
        let is_cpu = str_eq(name, "cpu_governor");
        let is_gpu = str_eq(name, "gpu_governor");
        let is_rail = str_eq(name, "gpu_railgate");
        if !(is_clocks || is_nvp || is_fan || is_cpu || is_gpu || is_rail) {
            return Err(ControlError::Unknown);
        }
        if !self.status.available {
            let m = owned("No es Jetson (demo)");
            self.fail(m.clone());
            return Err(ControlError::Failed(m));
        }
        if !self.is_supported(name) {
            let m = Self::unsupported_message(name);
            self.fail(m.clone());
            return Err(ControlError::Failed(m));
        }
        if is_clocks {
            if !(str_eq(value, "on") || str_eq(value, "off")) {
                let mut m = owned("Valor inválido para jetson_clocks: ");
                m.append(value);
                self.fail(m.clone());
                return Err(ControlError::Invalid(m));
            }
            match self.set_jetson_clocks(value) {
                Ok(a) => self.finish(name, a),
                Err(m) => Err(ControlError::Failed(m)),
            }
        } else if is_nvp {
            if !contains_str(&self.status.nvpmodel_modes, value) {
                let m = listing_message(
                    "Modo inválido: ",
                    value,
                    ". Modos disponibles: ",
                    &self.status.nvpmodel_modes,
                );
                self.fail(m.clone());
                return Err(ControlError::Invalid(m));
            }
            let a = self.set_nvpmodel_mode(Some(owned(value)));
            self.finish(name, a)
        } else if is_fan {
            let chars = crate::pattern::chars_of(value);
            match parse_unsigned(&chars, 255) {
                None => {
                    let m = owned("fan value debe ser 0-100");
                    self.fail(m.clone());
                    Err(ControlError::Invalid(m))
                },
                Some(p) => {
                    proof {
                        crate::text::lemma_bounded_unsigned_range(value@, 255);
                    }
                    if p > 100 {
                        let m = fan_range_message(p as u8);
                        self.fail(m.clone());
                        return Err(ControlError::Invalid(m));
                    }
                    let a = self.set_fan(p as u8);
                    self.finish(name, a)
                },
            }
        } else if is_cpu {
            match self.set_cpu_governor(value) {
                Ok(a) => self.finish(name, a),
                Err(m) => Err(ControlError::Invalid(m)),
            }
        } else if is_gpu {
            match self.set_gpu_governor(value) {
                Ok(a) => self.finish(name, a),
                Err(m) => Err(ControlError::Invalid(m)),
            }
        } else {
            match self.set_gpu_railgate(value) {
                Ok(a) => self.finish(name, a),
                Err(m) => Err(ControlError::Invalid(m)),
            }
        }
    }
}

pub const GV11B_DEVFREQ: &'static str = "/sys/devices/17000000.gv11b/devfreq/17000000.gv11b";

pub const GP10B_DEVFREQ: &'static str = "/sys/devices/17000000.gp10b/devfreq/17000000.gp10b";

pub const GV11B_POWER_CONTROL: &'static str = "/sys/devices/17000000.gv11b/power/control";

pub const GP10B_POWER_CONTROL: &'static str = "/sys/devices/17000000.gp10b/power/control";

/// The first `(path, present)` candidate that is present.
pub open spec fn first_present(a: Seq<char>, a_present: bool, b: Seq<char>, b_present: bool) -> Option<Seq<char>> {
    if a_present {
        Some(a)
    } else if b_present {
        Some(b)
    } else {
        None
    }
}

/// The GPU's devfreq directory: the first of the gv11b and gp10b
/// directories whose `governor` file is present.
pub fn gpu_devfreq_path(gv11b_has_governor: bool, gp10b_has_governor: bool) -> (r: Option<String>)
    ensures
        crate::server::opt_view(r) == first_present(
            GV11B_DEVFREQ@,
            gv11b_has_governor,
            GP10B_DEVFREQ@,
            gp10b_has_governor,
        ),
{
    if gv11b_has_governor {
        Some(owned(GV11B_DEVFREQ))
    } else if gp10b_has_governor {
        Some(owned(GP10B_DEVFREQ))
    } else {
        None
    }
}

/// The GPU's `power/control` file: the first of the gv11b and gp10b files
/// that is present.
pub fn gpu_power_control_path(gv11b_exists: bool, gp10b_exists: bool) -> (r: Option<String>)
    ensures
        crate::server::opt_view(r) == first_present(
            GV11B_POWER_CONTROL@,
            gv11b_exists,
            GP10B_POWER_CONTROL@,
            gp10b_exists,
        ),
{
    if gv11b_exists {
        Some(owned(GV11B_POWER_CONTROL))
    } else if gp10b_exists {
        Some(owned(GP10B_POWER_CONTROL))
    } else {
        None
    }
}

/// Whether a directory of `/sys/devices/system/cpu` is a core: `cpu`
/// followed by digits only.
pub open spec fn is_core_dir(name: Seq<char>) -> bool {
    starts_with(name, "cpu"@) && crate::text::all_digits(name.subrange(3, name.len() as int))
}

pub fn is_cpu_dir(name: &str) -> (r: bool)
    ensures
        r == is_core_dir(name@),
{
    let chars = crate::pattern::chars_of(name);
    proof {
        reveal_strlit("cpu");
    }
    if !crate::text::starts_with_chars(&chars, &crate::pattern::chars_of("cpu")) {
        return false;
    }
    let n = chars.len();
    let ghost tail = chars@.subrange(3, n as int);
    let mut i: usize = 3;
    while i < n
        invariant
            3 <= i <= n == chars@.len(),
            chars@ == name@,
            starts_with(name@, "cpu"@),
            tail == chars@.subrange(3, n as int),
            forall|j: int| 3 <= j < i ==> crate::text::is_digit(chars@[j]),
        decreases n - i,
    {
        if !(chars[i] >= '0' && chars[i] <= '9') {
            assert(tail[i - 3] == chars@[i as int]);
            assert(!crate::text::is_digit(tail[i - 3]));
            return false;
        }
        i = i + 1;
    }
    assert forall|j: int| 0 <= j < tail.len() implies #[trigger] crate::text::is_digit(tail[j]) by {
        assert(tail[j] == chars@[j + 3]);
    }
    true
}

// ---------------------------------------------------------------------
// Presets.
// ---------------------------------------------------------------------
pub open spec fn has_control_named(list: Seq<ControlInfoView>, name: Seq<char>) -> bool {
    exists|i: int| 0 <= i < list.len() && (#[trigger] list[i]).name == name
}

pub fn has_control(list: &Vec<ControlInfo>, name: &str) -> (r: bool)
    ensures
        r == has_control_named(infos_view(list@), name@),
{
    let key = owned(name);
    let ghost lv = infos_view(list@);
    let mut i: usize = 0;
    while i < list.len()
        invariant
            i <= list@.len(),
            lv == infos_view(list@),
            key@ == name@,
            forall|j: int| 0 <= j < i ==> (#[trigger] lv[j]).name != name@,
        decreases list@.len() - i,
    {
        assert(lv[i as int] == list@[i as int]@);
        if list[i].name == key {
            return true;
        }
        i = i + 1;
    }
    false
}

/// The settings of a preset, for the controls it touches: `performance`
/// switches `jetson_clocks` on and both governors to `performance`;
/// `balanced` switches `jetson_clocks` off and the governors to `ondemand`
/// and `nvhost_podgov`.
pub open spec fn preset_values(preset: Seq<char>) -> Option<Seq<(Seq<char>, Seq<char>)>> {
    if preset == "performance"@ {
        Some(
            seq![
                ("jetson_clocks"@, "on"@),
                ("cpu_governor"@, "performance"@),
                ("gpu_governor"@, "performance"@),
            ],
        )
    } else if preset == "balanced"@ {
        Some(
            seq![
                ("jetson_clocks"@, "off"@),
                ("cpu_governor"@, "ondemand"@),
                ("gpu_governor"@, "nvhost_podgov"@),
            ],
        )
    } else {
        None
    }
}

pub open spec fn present_settings(
    all: Seq<(Seq<char>, Seq<char>)>,
    list: Seq<ControlInfoView>,
) -> Seq<(Seq<char>, Seq<char>)>
    decreases all.len(),
{
    if all.len() == 0 {
        all
    } else {
        let p = present_settings(all.drop_last(), list);
        if has_control_named(list, all.last().0) {
            p.push(all.last())
        } else {
            p
        }
    }
}

pub open spec fn pairs_view(v: Seq<(String, String)>) -> Seq<(Seq<char>, Seq<char>)> {
    v.map_values(|p: (String, String)| (p.0@, p.1@))
}

fn push_setting(out: &mut Vec<(String, String)>, list: &Vec<ControlInfo>, name: &str, value: &str)
    ensures
        pairs_view(final(out)@) == if has_control_named(infos_view(list@), name@) {
            pairs_view(old(out)@).push((name@, value@))
        } else {
            pairs_view(old(out)@)
        },
{
    if has_control(list, name) {
        out.push((owned(name), owned(value)));
        assert(pairs_view(out@) =~= pairs_view(old(out)@).push((name@, value@)));
    }
}

/// The `(control, value)` pairs that a preset sets, keeping only the
/// controls present in `controls`; `None` for an unknown preset.
pub fn preset_settings(preset: &str, controls: &Vec<ControlInfo>) -> (r: Option<Vec<(String, String)>>)
    ensures
        match preset_values(preset@) {
            Some(all) => r matches Some(v) && pairs_view(v@) == present_settings(
                all,
                infos_view(controls@),
            ),
            None => r is None,
        },
{
    let performance = str_eq(preset, "performance");
    if !performance && !str_eq(preset, "balanced") {
        return None;
    }
    let mut out: Vec<(String, String)> = Vec::new();
    assert(pairs_view(out@) =~= Seq::<(Seq<char>, Seq<char>)>::empty());
    if performance {
        push_setting(&mut out, controls, "jetson_clocks", "on");
        push_setting(&mut out, controls, "cpu_governor", "performance");
        push_setting(&mut out, controls, "gpu_governor", "performance");
    } else {
        push_setting(&mut out, controls, "jetson_clocks", "off");
        push_setting(&mut out, controls, "cpu_governor", "ondemand");
        push_setting(&mut out, controls, "gpu_governor", "nvhost_podgov");
    }
    proof {
        let all = preset_values(preset@)->Some_0;
        assert(all.drop_last().drop_last().drop_last() =~= Seq::<(Seq<char>, Seq<char>)>::empty());
        assert(all.drop_last().drop_last().last() == all[0]);
        assert(all.drop_last().last() == all[1]);
        assert(all.last() == all[2]);
        reveal_with_fuel(present_settings, 4);
    }
    Some(out)
}

// ---------------------------------------------------------------------
// What the control utilities print.
// ---------------------------------------------------------------------
/// The state that `jetson_clocks --show` reports: on when it says
/// `enabled`, off when it says `disabled`, in any ASCII case.
pub open spec fn clocks_state_of(output: Seq<char>) -> Option<bool> {
    let l = crate::text::lower_text(output);
    if crate::text::contains_seq(l, "enabled"@) {
        Some(true)
    } else if crate::text::contains_seq(l, "disabled"@) {
        Some(false)
    } else {
        None
    }
}

pub fn clocks_state_from(output: &str) -> (r: Option<bool>)
    ensures
        r == clocks_state_of(output@),
{
    let l = crate::text::ascii_lower(output);
    if crate::text::contains_chars(&l, &crate::pattern::chars_of("enabled")) {
        Some(true)
    } else if crate::text::contains_chars(&l, &crate::pattern::chars_of("disabled")) {
        Some(false)
    } else {
        None
    }
}

pub open spec fn first_mode_line(ls: Seq<Seq<char>>) -> Option<Seq<char>>
    decreases ls.len(),
{
    if ls.len() == 0 {
        None
    } else if crate::text::contains_seq(crate::text::lower_text(ls[0]), "mode:"@) {
        Some(crate::pattern::trimmed(ls[0]))
    } else {
        first_mode_line(ls.drop_first())
    }
}

/// The current power mode in the output of `nvpmodel -q`: the first line
/// that mentions `mode:`, trimmed.
pub fn nvpmodel_from_query(output: &str) -> (r: Option<String>)
    ensures
        crate::server::opt_view(r) == first_mode_line(crate::pattern::lines_of(output@)),
{
    let ls = crate::pattern::lines(output);
    let ghost lv = crate::pattern::lines_of(output@);
    let mut i: usize = 0;
    assert(lv.subrange(0, lv.len() as int) == lv);
    while i < ls.len()
        invariant
            i <= ls@.len(),
            strings_view(ls@) == lv,
            lv == crate::pattern::lines_of(output@),
            first_mode_line(lv) == first_mode_line(lv.subrange(i as int, lv.len() as int)),
        decreases ls@.len() - i,
    {
        let ghost rest = lv.subrange(i as int, lv.len() as int);
        assert(rest[0] == ls@[i as int]@);
        assert(rest.drop_first() == lv.subrange(i + 1, lv.len() as int));
        let l = crate::text::ascii_lower(ls[i].as_str());
        if crate::text::contains_chars(&l, &crate::pattern::chars_of("mode:")) {
            let t = crate::pattern::trim(ls[i].as_str());
            assert(crate::text::contains_seq(crate::text::lower_text(rest[0]), "mode:"@));
            assert(first_mode_line(rest) == Some(crate::pattern::trimmed(rest[0])));
            return Some(t);
        }
        i = i + 1;
    }
    None
}

/// The fan speed in the output of `jetson_fan --get`: its first line,
/// trimmed, when that is not empty.
pub fn fan_from_output(output: &str) -> (r: Option<String>)
    ensures
        ({
            let ls = crate::pattern::lines_of(output@);
            let first = if ls.len() > 0 {
                crate::pattern::trimmed(ls[0])
            } else {
                crate::pattern::trimmed(Seq::empty())
            };
            crate::server::opt_view(r) == if first.len() > 0 {
                Some(first)
            } else {
                None::<Seq<char>>
            }
        }),
{
    let ls = crate::pattern::lines(output);
    let t = if ls.len() > 0 {
        assert(crate::pattern::lines_of(output@)[0] == ls@[0]@);
        crate::pattern::trim(ls[0].as_str())
    } else {
        crate::pattern::trim("")
    };
    proof {
        assert(""@ =~= Seq::<char>::empty()) by {
            reveal_strlit("");
        }
    }
    if t.unicode_len() > 0 {
        Some(t)
    } else {
        None
    }
}

} // verus!
