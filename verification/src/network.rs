//! Wireless link telemetry.

use vstd::prelude::*;

verus! {

/// The strongest wireless interface: its name, link quality in percent and signal level.
#[derive(Clone, Debug)]
pub struct WifiTelemetry {
    pub interface: String,
    pub quality_percent: u8,
    pub signal_dbm: Option<i32>,
}

} // verus!
