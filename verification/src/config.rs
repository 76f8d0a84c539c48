//! The build configuration consumed once at startup.
//!
//! The kernel build resolves a closed set of switches before the probe
//! protocol runs: which device categories exist at all, which drivers
//! are available, and whether containers use the static or the dynamic
//! dispatch discipline. The aggregate's shape is constructed from this
//! struct; a category that is not enabled here gets no container at
//! all, not even an empty one.

use vstd::prelude::*;

verus! {

/// The feature switches of one build, resolved before probing starts.
#[derive(Clone, Copy, Debug, PartialEq, Eq, Structural)]
pub struct BuildConfig {
    /// Whether the network category is compiled in.
    pub net: bool,
    /// Whether the block-storage category is compiled in.
    pub block: bool,
    /// Whether the display category is compiled in.
    pub display: bool,
    /// Whether containers use the dynamic (growable) discipline rather
    /// than the static (single-slot) one. One switch for all
    /// categories; the discipline is never mixed.
    pub dyn_dispatch: bool,
    /// Whether the RAM-disk block driver is compiled in.
    pub ramdisk: bool,
    /// Whether the loopback network driver is compiled in.
    pub loopback: bool,
    /// Whether the memory-framebuffer display driver is compiled in.
    pub ramfb: bool,
}

impl BuildConfig {
    /// Selecting a driver enables its category, as cargo feature
    /// implications would.
    pub open spec fn wf(&self) -> bool {
        &&& self.ramdisk ==> self.block
        &&& self.loopback ==> self.net
        &&& self.ramfb ==> self.display
    }

    /// A configuration with every switch off: no category, no driver,
    /// static dispatch.
    pub fn none() -> (r: BuildConfig)
        ensures
            r.wf(),
            !r.net && !r.block && !r.display,
            !r.dyn_dispatch,
            !r.ramdisk && !r.loopback && !r.ramfb,
    {
        BuildConfig {
            net: false,
            block: false,
            display: false,
            dyn_dispatch: false,
            ramdisk: false,
            loopback: false,
            ramfb: false,
        }
    }
}

} // verus!
