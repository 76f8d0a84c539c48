//! The bus-probe side of the discovery protocol.
//!
//! How a bus is walked (a device-tree scan, a PCI enumeration) is a
//! collaborator's responsibility; this layer only consumes the
//! outcome of each bus entry: either a sequence of zero or more tagged
//! devices, or a fault. A faulted entry is skipped and never aborts
//! the remaining scan.

use vstd::prelude::*;

use crate::base::BaseDriverOps;
use crate::config::BuildConfig;
use crate::structs::AxDeviceEnum;
use crate::types::{DevError, DeviceType};

verus! {

/// What probing one bus entry reported: the devices it carries, or a
/// fault (ordinarily `ProbeFailure`) that skips just this entry.
pub type BusProbeResult = Result<Vec<AxDeviceEnum>, DevError>;

/// Whether `config` compiles in the category `t`.
pub open spec fn category_enabled(config: BuildConfig, t: DeviceType) -> bool {
    match t {
        DeviceType::Net => config.net,
        DeviceType::Block => config.block,
        DeviceType::Display => config.display,
    }
}

/// A device a probe may hand to the aggregate: internally consistent,
/// not a fallback, and of a category this build compiles in.
pub open spec fn yield_ok(config: BuildConfig, d: AxDeviceEnum) -> bool {
    &&& d.wf()
    &&& !d.is_fallback()
    &&& category_enabled(config, d.spec_device_type())
}

/// The devices one bus entry yields: none when the entry faulted.
pub open spec fn entry_yield(e: BusProbeResult) -> Seq<AxDeviceEnum> {
    match e {
        Ok(v) => v@,
        Err(_) => Seq::empty(),
    }
}

/// The devices a whole bus scan yields, in entry order, faulted
/// entries skipped.
pub open spec fn bus_yield(entries: Seq<BusProbeResult>) -> Seq<AxDeviceEnum>
    decreases entries.len(),
{
    if entries.len() == 0 {
        Seq::empty()
    } else {
        entry_yield(entries[0]) + bus_yield(entries.skip(1))
    }
}

/// Every device any entry of the scan yields is one a probe may hand
/// to the aggregate.
pub open spec fn bus_entries_ok(config: BuildConfig, entries: Seq<BusProbeResult>) -> bool {
    forall|i: int, j: int|
        0 <= i < entries.len() && 0 <= j < entry_yield(#[trigger] entries[i]).len()
            ==> yield_ok(config, #[trigger] entry_yield(entries[i])[j])
}

/// The yield of a scan decomposes around its first entry.
pub proof fn lemma_bus_yield_unfold(entries: Seq<BusProbeResult>)
    requires
        entries.len() > 0,
    ensures
        bus_yield(entries) == entry_yield(entries[0]) + bus_yield(entries.skip(1)),
{
}

} // verus!
