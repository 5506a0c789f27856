//! The views and history windows that a dashboard steps through.
use vstd::prelude::*;

verus! {

#[derive(Debug, Clone, Copy, PartialEq, Eq, Structural)]
pub enum ViewMode {
    Dashboard,
    Processes,
    GpuEngines,
    Clocks,
}

/// How far back a chart reaches.
#[derive(Debug, Clone, Copy, PartialEq, Eq, Structural)]
pub enum HistoryWindow {
    OneMinute,
    FiveMinutes,
    OneHour,
    SixHours,
    TwentyFourHours,
}

impl HistoryWindow {
    pub open spec fn spec_duration_secs(self) -> u64 {
        match self {
            HistoryWindow::OneMinute => 60,
            HistoryWindow::FiveMinutes => 300,
            HistoryWindow::OneHour => 3600,
            HistoryWindow::SixHours => 21600,
            HistoryWindow::TwentyFourHours => 86400,
        }
    }

    pub open spec fn spec_max_points(self) -> usize {
        match self {
            HistoryWindow::OneMinute => 60,
            HistoryWindow::FiveMinutes => 300,
            HistoryWindow::OneHour => 360,
            HistoryWindow::SixHours => 360,
            HistoryWindow::TwentyFourHours => 288,
        }
    }

    pub open spec fn spec_next(self) -> HistoryWindow {
        match self {
            HistoryWindow::OneMinute => HistoryWindow::FiveMinutes,
            HistoryWindow::FiveMinutes => HistoryWindow::OneHour,
            HistoryWindow::OneHour => HistoryWindow::SixHours,
            HistoryWindow::SixHours => HistoryWindow::TwentyFourHours,
            HistoryWindow::TwentyFourHours => HistoryWindow::OneMinute,
        }
    }

    /// How many samples a chart of this window keeps.
    pub fn max_points(&self) -> (r: usize)
        ensures
            r == self.spec_max_points(),
    {
        match self {
            HistoryWindow::OneMinute => 60,
            HistoryWindow::FiveMinutes => 300,
            HistoryWindow::OneHour => 360,
            HistoryWindow::SixHours => 360,
            HistoryWindow::TwentyFourHours => 288,
        }
    }

    pub fn duration_secs(&self) -> (r: u64)
        ensures
            r == self.spec_duration_secs(),
    {
        match self {
            HistoryWindow::OneMinute => 60,
            HistoryWindow::FiveMinutes => 300,
            HistoryWindow::OneHour => 3600,
            HistoryWindow::SixHours => 21600,
            HistoryWindow::TwentyFourHours => 86400,
        }
    }

    pub fn label(&self) -> (r: &'static str)
        ensures
            r@ == match *self {
                HistoryWindow::OneMinute => "1m"@,
                HistoryWindow::FiveMinutes => "5m"@,
                HistoryWindow::OneHour => "1h"@,
                HistoryWindow::SixHours => "6h"@,
                HistoryWindow::TwentyFourHours => "24h"@,
            },
    {
        match self {
            HistoryWindow::OneMinute => "1m",
            HistoryWindow::FiveMinutes => "5m",
            HistoryWindow::OneHour => "1h",
            HistoryWindow::SixHours => "6h",
            HistoryWindow::TwentyFourHours => "24h",
        }
    }

    /// The next longer window, wrapping round to one minute.
    pub fn next(&self) -> (r: Self)
        ensures
            r == self.spec_next(),
    {
        match self {
            HistoryWindow::OneMinute => HistoryWindow::FiveMinutes,
            HistoryWindow::FiveMinutes => HistoryWindow::OneHour,
            HistoryWindow::OneHour => HistoryWindow::SixHours,
            HistoryWindow::SixHours => HistoryWindow::TwentyFourHours,
            HistoryWindow::TwentyFourHours => HistoryWindow::OneMinute,
        }
    }
}

impl ViewMode {
    /// The next view, wrapping round to the dashboard.
    pub fn next(&self) -> (r: Self)
        ensures
            r == match *self {
                ViewMode::Dashboard => ViewMode::Processes,
                ViewMode::Processes => ViewMode::GpuEngines,
                ViewMode::GpuEngines => ViewMode::Clocks,
                ViewMode::Clocks => ViewMode::Dashboard,
            },
    {
        match self {
            ViewMode::Dashboard => ViewMode::Processes,
            ViewMode::Processes => ViewMode::GpuEngines,
            ViewMode::GpuEngines => ViewMode::Clocks,
            ViewMode::Clocks => ViewMode::Dashboard,
        }
    }
}

} // verus!
