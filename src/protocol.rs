//! The request/response schema shared by the daemon and its clients.
use crate::hardware::JetsonHardware;
use crate::health::DaemonHealth;
use crate::parser::TegraStats;
use vstd::prelude::*;

verus! {

pub enum Request {
    GetStats,
    GetMeta,
    ListControls,
    GetHealth,
    SetControl { control: String, value: String, token: Option<String> },
}

pub enum Response {
    Stats { source: String, data: Option<TegraStats> },
    Meta(JetsonHardware),
    Controls(Vec<ControlInfo>),
    Health(DaemonHealth),
    ControlState(ControlInfo),
    Error(ErrorInfo),
}

/// One control as clients see it.
#[derive(Debug, Clone)]
pub struct ControlInfo {
    pub name: String,
    pub description: String,
    pub value: String,
    pub options: Vec<String>,
    pub readonly: bool,
    pub min: Option<u32>,
    pub max: Option<u32>,
    pub step: Option<u32>,
    pub requires_sudo: bool,
    pub supported: bool,
    pub unit: Option<String>,
}

/// The mathematical value of a `ControlInfo`.
pub struct ControlInfoView {
    pub name: Seq<char>,
    pub description: Seq<char>,
    pub value: Seq<char>,
    pub options: Seq<Seq<char>>,
    pub readonly: bool,
    pub min: Option<u32>,
    pub max: Option<u32>,
    pub step: Option<u32>,
    pub requires_sudo: bool,
    pub supported: bool,
    pub unit: Option<Seq<char>>,
}

pub open spec fn strings_view(v: Seq<String>) -> Seq<Seq<char>> {
    v.map_values(|s: String| s@)
}

impl View for ControlInfo {
    type V = ControlInfoView;

    open spec fn view(&self) -> ControlInfoView {
        ControlInfoView {
            name: self.name@,
            description: self.description@,
            value: self.value@,
            options: strings_view(self.options@),
            readonly: self.readonly,
            min: self.min,
            max: self.max,
            step: self.step,
            requires_sudo: self.requires_sudo,
            supported: self.supported,
            unit: match self.unit {
                Some(u) => Some(u@),
                None => None,
            },
        }
    }
}

/// A machine-readable code and a message.
#[derive(Debug, Clone)]
pub struct ErrorInfo {
    pub code: String,
    pub message: String,
}

} // verus!
