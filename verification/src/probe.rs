//! The framework probe: a diagnostics table of the framework's parts.

use vstd::prelude::*;

verus! {

/// The panel id of the framework probe.
pub const PANEL_ID: &'static str = "__wfide_probe";

/// The state of one diagnosed part.
#[derive(Debug, Clone, Copy, PartialEq, Eq, Structural)]
pub enum ProbeStatus {
    Pass,
    Fail,
    Unknown,
}

impl ProbeStatus {
    /// The symbol shown for the status.
    pub fn symbol(self) -> (r: &'static str)
        ensures
            self == ProbeStatus::Pass ==> r@ == "○"@,
            self == ProbeStatus::Fail ==> r@ == "✕"@,
            self == ProbeStatus::Unknown ==> r@ == "？"@,
    {
        match self {
            ProbeStatus::Pass => "○",
            ProbeStatus::Fail => "✕",
            ProbeStatus::Unknown => "？",
        }
    }
}

/// One row of the probe table.
#[derive(Debug)]
pub struct ProbeRow {
    pub area: &'static str,
    pub status: ProbeStatus,
    pub detail: String,
}

/// `Pass` when `ok` holds, else `Fail`.
pub open spec fn pass_if(ok: bool) -> ProbeStatus {
    if ok {
        ProbeStatus::Pass
    } else {
        ProbeStatus::Fail
    }
}

fn row(area: &'static str, status: ProbeStatus, detail: &str) -> (r: ProbeRow)
    ensures
        r.area == area,
        r.status == status,
        r.detail@ == detail@,
{
    ProbeRow { area, status, detail: detail.to_owned() }
}

/// The probe table: the window host and the dock pass when active; logging
/// passes when the in-memory log holds a line (`log_snapshot` is its
/// content); the browser surface, GPU surface and input are not probed; the
/// startup lifecycle passes.
pub fn collect(window_active: bool, dock_active: bool, log_snapshot: &Vec<String>) -> (r: Vec<ProbeRow>)
    ensures
        r@.len() == 7,
        r@[0].area@ == "Window / Host"@ && r@[0].status == pass_if(window_active),
        r@[0].detail@ == "Framework Host is running"@,
        r@[1].area@ == "Dock / Layout"@ && r@[1].status == pass_if(dock_active),
        r@[1].detail@ == "DockState is active"@,
        r@[2].area@ == "WFIDE Logging"@ && r@[2].status == pass_if(log_snapshot@.len() > 0),
        r@[2].detail@ == "in-memory logging buffer receives events"@,
        r@[3].area@ == "Browser Surface"@ && r@[3].status == ProbeStatus::Unknown,
        r@[3].detail@ == "not exercised by Step 4.5 host"@,
        r@[4].area@ == "GPU Surface"@ && r@[4].status == ProbeStatus::Unknown,
        r@[4].detail@ == "not exercised by Step 4.5 host"@,
        r@[5].area@ == "Input / IME"@ && r@[5].status == ProbeStatus::Unknown,
        r@[5].detail@ == "dedicated probe integration pending"@,
        r@[6].area@ == "Lifecycle"@ && r@[6].status == ProbeStatus::Pass,
        r@[6].detail@ == "Application -> Logging -> Host startup path reached"@,
{
    let logging_active = log_snapshot.len() > 0;
    let mut rows: Vec<ProbeRow> = Vec::new();
    rows.push(
        row(
            "Window / Host",
            if window_active { ProbeStatus::Pass } else { ProbeStatus::Fail },
            "Framework Host is running",
        ),
    );
    rows.push(
        row(
            "Dock / Layout",
            if dock_active { ProbeStatus::Pass } else { ProbeStatus::Fail },
            "DockState is active",
        ),
    );
    rows.push(
        row(
            "WFIDE Logging",
            if logging_active { ProbeStatus::Pass } else { ProbeStatus::Fail },
            "in-memory logging buffer receives events",
        ),
    );
    rows.push(row("Browser Surface", ProbeStatus::Unknown, "not exercised by Step 4.5 host"));
    rows.push(row("GPU Surface", ProbeStatus::Unknown, "not exercised by Step 4.5 host"));
    rows.push(row("Input / IME", ProbeStatus::Unknown, "dedicated probe integration pending"));
    rows.push(
        row("Lifecycle", ProbeStatus::Pass, "Application -> Logging -> Host startup path reached"),
    );
    rows
}

} // verus!
