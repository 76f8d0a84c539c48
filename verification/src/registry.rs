//! The static driver registry.
//!
//! The drivers this build can know without probing a bus are
//! assembled into an explicit, compile-time-determined list, in a
//! fixed deterministic order, from the enabled feature switches. The
//! registry phase of the probe protocol walks this list and invokes
//! each driver's parameterless global probe, which yields no device or
//! exactly one.

use vstd::prelude::*;

use crate::base::BaseDriverOps;
use crate::config::BuildConfig;
use crate::display::{RamFbDev, PROBE_HEIGHT, PROBE_WIDTH};
use crate::netdev::{LoopbackNetDev, PROBE_QUEUE_SIZE};
use crate::ramdisk::{RamDisk, BLOCK_SIZE, PROBE_SIZE_HINT};
use crate::structs::{AxBlockDevice, AxDeviceEnum, AxDisplayDevice, AxNetDevice};
use crate::types::DeviceType;

verus! {

/// A driver type the static registry can hold.
#[derive(Clone, Copy, Debug, PartialEq, Eq, Structural)]
pub enum DriverKind {
    /// The RAM-disk block driver.
    Ramdisk,
    /// The loopback network driver.
    Loopback,
    /// The memory-framebuffer display driver.
    RamFb,
}

/// The category a driver kind serves.
pub open spec fn kind_category(k: DriverKind) -> DeviceType {
    match k {
        DriverKind::Ramdisk => DeviceType::Block,
        DriverKind::Loopback => DeviceType::Net,
        DriverKind::RamFb => DeviceType::Display,
    }
}

/// The registry's contents for a configuration: each enabled driver
/// once, in the fixed order RAM disk, loopback, framebuffer.
pub open spec fn registry_spec(c: BuildConfig) -> Seq<DriverKind> {
    (if c.ramdisk {
        seq![DriverKind::Ramdisk]
    } else {
        Seq::<DriverKind>::empty()
    }) + (if c.loopback {
        seq![DriverKind::Loopback]
    } else {
        Seq::<DriverKind>::empty()
    }) + (if c.ramfb {
        seq![DriverKind::RamFb]
    } else {
        Seq::<DriverKind>::empty()
    })
}

/// Assembles the driver registry of this configuration.
pub fn driver_registry(config: &BuildConfig) -> (r: Vec<DriverKind>)
    ensures
        r@ == registry_spec(*config),
{
    let mut r: Vec<DriverKind> = Vec::new();
    if config.ramdisk {
        r.push(DriverKind::Ramdisk);
    }
    if config.loopback {
        r.push(DriverKind::Loopback);
    }
    if config.ramfb {
        r.push(DriverKind::RamFb);
    }
    proof {
        assert(r@ =~= registry_spec(*config));
    }
    r
}

/// How many devices the registry phase yields: one per enabled
/// registry driver, since every driver in this registry is
/// software-backed and always finds its device.
pub open spec fn registry_count(c: BuildConfig) -> int {
    (if c.ramdisk {
        1int
    } else {
        0int
    }) + (if c.loopback {
        1int
    } else {
        0int
    }) + (if c.ramfb {
        1int
    } else {
        0int
    })
}

/// The network devices the registry phase yields: exactly the probed
/// loopback device when that driver is enabled, none otherwise.
pub open spec fn reg_nets_ok(c: BuildConfig, s: Seq<AxNetDevice>) -> bool {
    if c.loopback {
        s.len() == 1 && probed_net_ok(s[0])
    } else {
        s.len() == 0
    }
}

/// The block devices the registry phase yields: exactly the probed
/// RAM disk when that driver is enabled, none otherwise.
pub open spec fn reg_blocks_ok(c: BuildConfig, s: Seq<AxBlockDevice>) -> bool {
    if c.ramdisk {
        s.len() == 1 && probed_block_ok(s[0])
    } else {
        s.len() == 0
    }
}

/// The display devices the registry phase yields: exactly the probed
/// framebuffer when that driver is enabled, none otherwise.
pub open spec fn reg_displays_ok(c: BuildConfig, s: Seq<AxDisplayDevice>) -> bool {
    if c.ramfb {
        s.len() == 1 && probed_display_ok(s[0])
    } else {
        s.len() == 0
    }
}

/// What the RAM-disk driver's global probe yields: the zero-filled
/// default-size RAM disk.
pub open spec fn probed_block_ok(d: AxBlockDevice) -> bool {
    d matches AxBlockDevice::Ram(rd) && rd.wf() && rd.spec_num_blocks() == PROBE_SIZE_HINT as int
        / BLOCK_SIZE as int && (forall|j: int| 0 <= j < rd@.len() ==> rd@[j] == 0u8)
}

/// What the loopback driver's global probe yields: an idle device of
/// the default queue size with the all-zero station address.
pub open spec fn probed_net_ok(d: AxNetDevice) -> bool {
    d matches AxNetDevice::Loopback(l) && l.wf() && l@ == Seq::<Seq<u8>>::empty()
        && l.spec_queue_size() == PROBE_QUEUE_SIZE && l.spec_mac() == seq![
        0u8,
        0u8,
        0u8,
        0u8,
        0u8,
        0u8,
    ]
}

/// What the framebuffer driver's global probe yields: a cleared
/// framebuffer in the default mode.
pub open spec fn probed_display_ok(d: AxDisplayDevice) -> bool {
    d matches AxDisplayDevice::RamFb(f) && f.wf() && f.spec_info().width == PROBE_WIDTH
        && f.spec_info().height == PROBE_HEIGHT && (forall|j: int|
        0 <= j < f@.len() ==> f@[j] == 0u8)
}

/// What the global probe of a driver kind yields, when it yields.
pub open spec fn probed_device_ok(k: DriverKind, d: AxDeviceEnum) -> bool {
    match k {
        DriverKind::Ramdisk => d matches AxDeviceEnum::Block(b) && probed_block_ok(b),
        DriverKind::Loopback => d matches AxDeviceEnum::Net(n) && probed_net_ok(n),
        DriverKind::RamFb => d matches AxDeviceEnum::Display(f) && probed_display_ok(f),
    }
}

/// Invokes the global probe of one registry driver. Every driver in
/// this registry is software-backed, so the probe always finds its
/// device; a hardware driver would be free to report `None` here.
pub fn probe_global(kind: DriverKind) -> (r: Option<AxDeviceEnum>)
    ensures
        r is Some,
        r matches Some(d) ==> probed_device_ok(kind, d) && d.wf() && !d.is_fallback()
            && d.spec_device_type() == kind_category(kind),
{
    match kind {
        DriverKind::Ramdisk => {
            match RamDisk::probe_global() {
                Some(rd) => Some(AxDeviceEnum::Block(AxBlockDevice::Ram(rd))),
                None => None,
            }
        },
        DriverKind::Loopback => {
            match LoopbackNetDev::probe_global() {
                Some(l) => Some(AxDeviceEnum::Net(AxNetDevice::Loopback(l))),
                None => None,
            }
        },
        DriverKind::RamFb => {
            match RamFbDev::probe_global() {
                Some(f) => Some(AxDeviceEnum::Display(AxDisplayDevice::RamFb(f))),
                None => None,
            }
        },
    }
}

} // verus!
