use vstd::prelude::*;

verus! {

/// A usage meter: the active cells of its ten-cell gauge and its percentage
/// as shown (`42%`).
pub struct Meter {
    pub cells: usize,
    pub percent: String,
}

/// The host's health as the full card shows it; a missing meter or value
/// could not be read.
pub struct SystemTelemetry {
    pub cpu: Option<Meter>,
    /// Clock speed (`3.2ghz`), empty when unknown.
    pub cpu_detail: String,
    pub ram: Option<Meter>,
    /// Used over total memory (`7.9/16gb`), empty when unknown.
    pub ram_detail: String,
    pub disk: Option<Meter>,
    /// Used over total disk (`120/512gb`), empty when unknown.
    pub disk_detail: String,
    /// The formatted uptime.
    pub uptime: Option<String>,
}

impl Default for SystemTelemetry {
    fn default() -> (r: Self)
        ensures
            r.cpu is None && r.ram is None && r.disk is None && r.uptime is None,
            r.cpu_detail@ == Seq::<char>::empty(),
            r.ram_detail@ == Seq::<char>::empty(),
            r.disk_detail@ == Seq::<char>::empty(),
    {
        SystemTelemetry {
            cpu: None,
            cpu_detail: String::new(),
            ram: None,
            ram_detail: String::new(),
            disk: None,
            disk_detail: String::new(),
            uptime: None,
        }
    }
}

} // verus!
