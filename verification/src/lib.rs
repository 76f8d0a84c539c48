//! Device-driver abstraction and enumeration layer of a small kernel.
//!
//! Hardware devices of the network, block-storage and display
//! categories are wrapped behind uniform capability interfaces,
//! discovered once at boot by a two-phase probe protocol — a walk of
//! the static driver registry, then a scan of the configured buses —
//! and handed to the rest of the kernel as categorized collections.
//!
//! All detected devices are composed into one [`AllDevices`] value and
//! returned by [`init_drivers`]; the consuming subsystems unpack the
//! struct to take ownership of the container of their category.
//!
//! Containers follow one of two disciplines, chosen by the build
//! configuration for all categories at once: *static*, one slot per
//! category with no runtime indirection, or *dynamic*, a growable list
//! per category.

pub mod base;
pub mod bus;
pub mod config;
pub mod container;
pub mod display;
pub mod dummy;
pub mod netdev;
pub mod ramdisk;
pub mod registry;
pub mod shellutil;
pub mod structs;
pub mod types;

use vstd::prelude::*;

use crate::base::BaseDriverOps;
use crate::bus::{bus_entries_ok, bus_yield, category_enabled, yield_ok, BusProbeResult};
use crate::config::BuildConfig;
use crate::container::{push_post, AxDeviceContainer};
use crate::bus::entry_yield;
use crate::bus::lemma_bus_yield_unfold;
use crate::registry::{
    probe_global, probed_block_ok, probed_display_ok, probed_net_ok, reg_blocks_ok,
    reg_displays_ok, reg_nets_ok, registry_count, DriverKind,
};
use crate::structs::{lemma_filters_concat, lemma_filters_singleton};
use crate::structs::{
    blocks_of, displays_of, nets_of, AxBlockDevice, AxDeviceEnum, AxDisplayDevice, AxNetDevice,
};
use crate::types::{DevError, DevResult};

verus! {

/// How many network devices the whole protocol yields for this
/// configuration and bus scan.
pub open spec fn net_total(c: BuildConfig, entries: Seq<BusProbeResult>) -> int {
    (if c.loopback {
        1int
    } else {
        0int
    }) + nets_of(bus_yield(entries)).len()
}

/// How many block devices the whole protocol yields.
pub open spec fn block_total(c: BuildConfig, entries: Seq<BusProbeResult>) -> int {
    (if c.ramdisk {
        1int
    } else {
        0int
    }) + blocks_of(bus_yield(entries)).len()
}

/// How many display devices the whole protocol yields.
pub open spec fn display_total(c: BuildConfig, entries: Seq<BusProbeResult>) -> int {
    (if c.ramfb {
        1int
    } else {
        0int
    }) + displays_of(bus_yield(entries)).len()
}

/// Whether the protocol's yield fits the configured discipline: the
/// dynamic discipline takes anything, the static one at most one
/// device per category. Exactly on these inputs initialization
/// succeeds; on the rest it aborts with `CapacityViolation`.
pub open spec fn can_populate(c: BuildConfig, entries: Seq<BusProbeResult>) -> bool {
    c.dyn_dispatch || ((c.net ==> net_total(c, entries) <= 1) && (c.block ==> block_total(
        c,
        entries,
    ) <= 1) && (c.display ==> display_total(c, entries) <= 1))
}

/// The network container's contents after a completed probe: the
/// registry-phase loopback device first, if that driver is enabled,
/// then the bus-phase network devices in yield order.
pub open spec fn net_contents_ok(
    c: BuildConfig,
    entries: Seq<BusProbeResult>,
    s: Seq<AxNetDevice>,
) -> bool {
    if c.loopback {
        s.len() == 1 + nets_of(bus_yield(entries)).len() && probed_net_ok(s[0]) && s.skip(1)
            == nets_of(bus_yield(entries))
    } else {
        s == nets_of(bus_yield(entries))
    }
}

/// The block container's contents after a completed probe: the
/// registry-phase RAM disk first, if that driver is enabled, then the
/// bus-phase block devices in yield order.
pub open spec fn block_contents_ok(
    c: BuildConfig,
    entries: Seq<BusProbeResult>,
    s: Seq<AxBlockDevice>,
) -> bool {
    if c.ramdisk {
        s.len() == 1 + blocks_of(bus_yield(entries)).len() && probed_block_ok(s[0]) && s.skip(1)
            == blocks_of(bus_yield(entries))
    } else {
        s == blocks_of(bus_yield(entries))
    }
}

/// The display container's contents after a completed probe: the
/// registry-phase framebuffer first, if that driver is enabled, then
/// the bus-phase display devices in yield order.
pub open spec fn display_contents_ok(
    c: BuildConfig,
    entries: Seq<BusProbeResult>,
    s: Seq<AxDisplayDevice>,
) -> bool {
    if c.ramfb {
        s.len() == 1 + displays_of(bus_yield(entries)).len() && probed_display_ok(s[0])
            && s.skip(1) == displays_of(bus_yield(entries))
    } else {
        s == displays_of(bus_yield(entries))
    }
}

/// All device drivers of this boot, organized by category.
///
/// A category that the build configuration does not enable has no
/// container at all; an enabled category's container exists from
/// construction, possibly empty.
pub struct AllDevices {
    /// The switches this aggregate was shaped by.
    pub config: BuildConfig,
    /// All network device drivers, when the category is enabled.
    pub net: Option<AxDeviceContainer<AxNetDevice>>,
    /// All block device drivers, when the category is enabled.
    pub block: Option<AxDeviceContainer<AxBlockDevice>>,
    /// All graphics device drivers, when the category is enabled.
    pub display: Option<AxDeviceContainer<AxDisplayDevice>>,
}

impl AllDevices {
    /// Shape invariant: a container exists exactly for each enabled
    /// category, every container follows the configured discipline,
    /// and every held device satisfies its driver's own invariant.
    pub open spec fn wf(&self) -> bool {
        &&& self.config.wf()
        &&& (self.net is Some <==> self.config.net)
        &&& (self.block is Some <==> self.config.block)
        &&& (self.display is Some <==> self.config.display)
        &&& (self.net matches Some(c) ==> ((c is Static) <==> !self.config.dyn_dispatch) && (
        forall|i: int| 0 <= i < c@.len() ==> (#[trigger] c@[i]).wf()))
        &&& (self.block matches Some(c) ==> ((c is Static) <==> !self.config.dyn_dispatch) && (
        forall|i: int| 0 <= i < c@.len() ==> (#[trigger] c@[i]).wf()))
        &&& (self.display matches Some(c) ==> ((c is Static) <==> !self.config.dyn_dispatch) && (
        forall|i: int| 0 <= i < c@.len() ==> (#[trigger] c@[i]).wf()))
    }

    /// Every existing container is still empty.
    pub open spec fn all_empty(&self) -> bool {
        &&& (self.net matches Some(c) ==> c@.len() == 0)
        &&& (self.block matches Some(c) ==> c@.len() == 0)
        &&& (self.display matches Some(c) ==> c@.len() == 0)
    }

    /// No container holds a fallback device.
    pub open spec fn no_fallbacks(&self) -> bool {
        &&& (self.net matches Some(c) ==> forall|i: int|
            0 <= i < c@.len() ==> !(#[trigger] c@[i]).is_fallback())
        &&& (self.block matches Some(c) ==> forall|i: int|
            0 <= i < c@.len() ==> !(#[trigger] c@[i]).is_fallback())
        &&& (self.display matches Some(c) ==> forall|i: int|
            0 <= i < c@.len() ==> !(#[trigger] c@[i]).is_fallback())
    }

    /// Every enabled category's container holds exactly what the
    /// protocol yielded for it, registry phase before bus phase.
    pub open spec fn populated(&self, c: BuildConfig, entries: Seq<BusProbeResult>) -> bool {
        &&& (c.net ==> (self.net matches Some(ct) && net_contents_ok(c, entries, ct@)))
        &&& (c.block ==> (self.block matches Some(ct) && block_contents_ok(c, entries, ct@)))
        &&& (c.display ==> (self.display matches Some(ct) && display_contents_ok(c, entries, ct@)))
    }

    /// Constructs the aggregate's shape from the build configuration:
    /// one empty container per enabled category, all of the configured
    /// discipline.
    pub fn new(config: BuildConfig) -> (r: AllDevices)
        requires
            config.wf(),
        ensures
            r.wf(),
            r.all_empty(),
            r.no_fallbacks(),
            r.config == config,
    {
        let net: Option<AxDeviceContainer<AxNetDevice>> = if config.net {
            if config.dyn_dispatch {
                Some(AxDeviceContainer::new_dynamic())
            } else {
                Some(AxDeviceContainer::new_static())
            }
        } else {
            None
        };
        let block: Option<AxDeviceContainer<AxBlockDevice>> = if config.block {
            if config.dyn_dispatch {
                Some(AxDeviceContainer::new_dynamic())
            } else {
                Some(AxDeviceContainer::new_static())
            }
        } else {
            None
        };
        let display: Option<AxDeviceContainer<AxDisplayDevice>> = if config.display {
            if config.dyn_dispatch {
                Some(AxDeviceContainer::new_dynamic())
            } else {
                Some(AxDeviceContainer::new_static())
            }
        } else {
            None
        };
        AllDevices { config, net, block, display }
    }

    /// Returns the device model in effect, either `"dyn"` or
    /// `"static"`: exactly the one that matches the configured
    /// container discipline.
    pub fn device_model(&self) -> (s: &'static str)
        ensures
            (s@ == "dyn"@) <==> self.config.dyn_dispatch,
            (s@ == "static"@) <==> !self.config.dyn_dispatch,
    {
        proof {
            lemma_dispatch_names_disjoint();
        }
        if self.config.dyn_dispatch {
            "dyn"
        } else {
            "static"
        }
    }

    /// How `add_device` serves a network device: only the network
    /// container changes, and it changes by one `push`.
    pub open spec fn net_add_post(
        pre: AllDevices,
        post: AllDevices,
        d: AxNetDevice,
        r: DevResult,
    ) -> bool {
        &&& post.block == pre.block
        &&& post.display == pre.display
        &&& pre.net matches Some(c0) && post.net matches Some(c1) && push_post(c0, c1, d, r)
    }

    /// How `add_device` serves a block device: only the block
    /// container changes, and it changes by one `push`.
    pub open spec fn block_add_post(
        pre: AllDevices,
        post: AllDevices,
        d: AxBlockDevice,
        r: DevResult,
    ) -> bool {
        &&& post.net == pre.net
        &&& post.display == pre.display
        &&& pre.block matches Some(c0) && post.block matches Some(c1) && push_post(c0, c1, d, r)
    }

    /// How `add_device` serves a display device: only the display
    /// container changes, and it changes by one `push`.
    pub open spec fn display_add_post(
        pre: AllDevices,
        post: AllDevices,
        d: AxDisplayDevice,
        r: DevResult,
    ) -> bool {
        &&& post.net == pre.net
        &&& post.block == pre.block
        &&& pre.display matches Some(c0) && post.display matches Some(c1) && push_post(
            c0,
            c1,
            d,
            r,
        )
    }

    /// Routes one device, purely by its tag, into the container of its
    /// category; the other containers are untouched. The result is what
    /// the container reports: appending always succeeds under the
    /// dynamic discipline, while an occupied static slot rejects the
    /// device with `CapacityViolation` and keeps what it holds.
    pub fn add_device(&mut self, dev: AxDeviceEnum) -> (r: DevResult)
        requires
            old(self).wf(),
            category_enabled(old(self).config, dev.spec_device_type()),
            dev.wf(),
        ensures
            final(self).wf(),
            final(self).config == old(self).config,
            dev matches AxDeviceEnum::Net(d) ==> AllDevices::net_add_post(
                *old(self),
                *final(self),
                d,
                r,
            ),
            dev matches AxDeviceEnum::Block(d) ==> AllDevices::block_add_post(
                *old(self),
                *final(self),
                d,
                r,
            ),
            dev matches AxDeviceEnum::Display(d) ==> AllDevices::display_add_post(
                *old(self),
                *final(self),
                d,
                r,
            ),
    {
        match dev {
            AxDeviceEnum::Net(d) => {
                match &mut self.net {
                    Some(c) => c.push(d),
                    None => {
                        proof {
                            assert(false);
                        }
                        Err(DevError::Unsupported)
                    },
                }
            },
            AxDeviceEnum::Block(d) => {
                match &mut self.block {
                    Some(c) => c.push(d),
                    None => {
                        proof {
                            assert(false);
                        }
                        Err(DevError::Unsupported)
                    },
                }
            },
            AxDeviceEnum::Display(d) => {
                match &mut self.display {
                    Some(c) => c.push(d),
                    None => {
                        proof {
                            assert(false);
                        }
                        Err(DevError::Unsupported)
                    },
                }
            },
        }
    }
}

/// Runs both probe phases and returns every yielded device in yield
/// order: first the registry phase, walking the enabled drivers in the
/// fixed order of `driver_registry` and invoking each global probe,
/// then the bus phase, flattening the scanned entries and skipping the
/// faulted ones.
fn collect_probed(config: &BuildConfig, bus_entries: Vec<BusProbeResult>) -> (v: Vec<
    AxDeviceEnum,
>)
    requires
        config.wf(),
        bus_entries_ok(*config, bus_entries@),
    ensures
        v@.len() == registry_count(*config) + bus_yield(bus_entries@).len(),
        v@.skip(registry_count(*config)) == bus_yield(bus_entries@),
        reg_nets_ok(*config, nets_of(v@.take(registry_count(*config)))),
        reg_blocks_ok(*config, blocks_of(v@.take(registry_count(*config)))),
        reg_displays_ok(*config, displays_of(v@.take(registry_count(*config)))),
        forall|k: int| 0 <= k < v@.len() ==> yield_ok(*config, #[trigger] v@[k]),
{
    let mut v: Vec<AxDeviceEnum> = Vec::new();
    // Registry phase, in the fixed order of `driver_registry`.
    if config.ramdisk {
        if let Some(d) = probe_global(DriverKind::Ramdisk) {
            proof {
                lemma_filters_concat(v@, seq![d]);
                lemma_filters_singleton(d);
                assert(v@.push(d) =~= v@ + seq![d]);
            }
            v.push(d);
        }
    }
    proof {
        assert(v@.len() == (if config.ramdisk {
            1int
        } else {
            0int
        }));
        assert(reg_blocks_ok(*config, blocks_of(v@)));
        assert(nets_of(v@).len() == 0);
        assert(displays_of(v@).len() == 0);
        assert(forall|k: int| 0 <= k < v@.len() ==> yield_ok(*config, #[trigger] v@[k]));
    }
    if config.loopback {
        if let Some(d) = probe_global(DriverKind::Loopback) {
            proof {
                lemma_filters_concat(v@, seq![d]);
                lemma_filters_singleton(d);
                assert(v@.push(d) =~= v@ + seq![d]);
            }
            v.push(d);
        }
    }
    proof {
        assert(v@.len() == (if config.ramdisk {
            1int
        } else {
            0int
        }) + (if config.loopback {
            1int
        } else {
            0int
        }));
        assert(reg_blocks_ok(*config, blocks_of(v@)));
        assert(reg_nets_ok(*config, nets_of(v@)));
        assert(displays_of(v@).len() == 0);
        assert(forall|k: int| 0 <= k < v@.len() ==> yield_ok(*config, #[trigger] v@[k]));
    }
    if config.ramfb {
        if let Some(d) = probe_global(DriverKind::RamFb) {
            proof {
                lemma_filters_concat(v@, seq![d]);
                lemma_filters_singleton(d);
                assert(v@.push(d) =~= v@ + seq![d]);
            }
            v.push(d);
        }
    }
    let ghost regn = registry_count(*config);
    let ghost reg = v@;
    proof {
        assert(v@.len() == regn);
        assert(reg_blocks_ok(*config, blocks_of(reg)));
        assert(reg_nets_ok(*config, nets_of(reg)));
        assert(reg_displays_ok(*config, displays_of(reg)));
        assert(forall|k: int| 0 <= k < v@.len() ==> yield_ok(*config, #[trigger] v@[k]));
        assert(v@.take(regn) =~= reg);
    }
    // Bus phase: flatten each entry's yield, skipping faulted entries.
    let ghost all_entries = bus_entries@;
    let mut rest = bus_entries;
    while rest.len() > 0
        invariant
            config.wf(),
            regn == registry_count(*config),
            v@.len() >= regn,
            v@.take(regn) == reg,
            reg_nets_ok(*config, nets_of(reg)),
            reg_blocks_ok(*config, blocks_of(reg)),
            reg_displays_ok(*config, displays_of(reg)),
            bus_yield(all_entries) == v@.skip(regn) + bus_yield(rest@),
            bus_entries_ok(*config, rest@),
            forall|k: int| 0 <= k < v@.len() ==> yield_ok(*config, #[trigger] v@[k]),
        decreases rest@.len(),
    {
        let ghost rest0 = rest@;
        let ghost v0 = v@;
        let entry = rest.remove(0);
        proof {
            assert(rest0.remove(0) =~= rest0.skip(1));
            lemma_bus_yield_unfold(rest0);
            assert(bus_entries_ok(*config, rest@)) by {
                assert forall|i: int, j: int|
                    0 <= i < rest@.len() && 0 <= j < entry_yield(#[trigger] rest@[i]).len()
                        implies yield_ok(*config, #[trigger] entry_yield(rest@[i])[j]) by {
                    assert(rest@[i] == rest0[i + 1]);
                }
            }
        }
        match entry {
            Ok(mut devs) => {
                let ghost ds = devs@;
                proof {
                    assert(entry_yield(rest0[0]) == ds);
                }
                v.append(&mut devs);
                proof {
                    assert(v@ == v0 + ds);
                    assert(v@.take(regn) =~= v0.take(regn));
                    assert(v@.skip(regn) =~= v0.skip(regn) + ds);
                    assert((v0.skip(regn) + ds) + bus_yield(rest@) =~= v0.skip(regn) + (ds
                        + bus_yield(rest@)));
                    assert forall|k: int| 0 <= k < v@.len() implies yield_ok(
                        *config,
                        #[trigger] v@[k],
                    ) by {
                        if k < v0.len() {
                            assert(v@[k] == v0[k]);
                        } else {
                            assert(v@[k] == entry_yield(rest0[0])[k - v0.len()]);
                        }
                    }
                }
            },
            Err(_) => {
                proof {
                    assert(entry_yield(rest0[0]) =~= Seq::<AxDeviceEnum>::empty());
                    assert(Seq::<AxDeviceEnum>::empty() + bus_yield(rest@) =~= bus_yield(
                        rest@,
                    ));
                }
            },
        }
    }
    proof {
        assert(rest@.len() == 0);
        assert(bus_yield(rest@) =~= Seq::<AxDeviceEnum>::empty());
        assert(v@.skip(regn) + bus_yield(rest@) =~= v@.skip(regn));
        assert(v@ =~= v@.take(regn) + v@.skip(regn));
    }
    v
}

impl AllDevices {
    /// Probes all supported devices: the one-shot discovery protocol,
    /// run once at boot against the freshly constructed aggregate.
    ///
    /// The registry phase walks the enabled drivers in fixed order and
    /// routes every yielded device through `add_device`; the bus phase
    /// does the same with each scanned entry's yield, skipping faulted
    /// entries without aborting the scan. A `CapacityViolation` — a
    /// second device for a category under the static discipline — is
    /// fatal and aborts the protocol.
    pub fn probe(&mut self, bus_entries: Vec<BusProbeResult>) -> (r: DevResult)
        requires
            old(self).wf(),
            old(self).all_empty(),
            bus_entries_ok(old(self).config, bus_entries@),
        ensures
            final(self).config == old(self).config,
            final(self).wf(),
            r is Ok <==> can_populate(old(self).config, bus_entries@),
            r is Ok ==> final(self).populated(old(self).config, bus_entries@)
                && final(self).no_fallbacks(),
            r is Err ==> r == DevResult::Err(DevError::CapacityViolation),
    {
        let cfg = self.config;
        let ghost entries = bus_entries@;
        let mut devices = collect_probed(&cfg, bus_entries);
        let ghost all = devices@;
        let ghost regn = registry_count(cfg);
        proof {
            assert(all =~= all.take(regn) + all.skip(regn));
            lemma_filters_concat(all.take(regn), all.skip(regn));
            assert(net_total(cfg, entries) == nets_of(all).len());
            assert(block_total(cfg, entries) == blocks_of(all).len());
            assert(display_total(cfg, entries) == displays_of(all).len());
        }
        while devices.len() > 0
            invariant
                self.wf(),
                self.config == cfg,
                cfg == old(self).config,
                entries == bus_entries@,
                self.no_fallbacks(),
                devices@.len() <= all.len(),
                all.skip(all.len() - devices@.len()) == devices@,
                forall|k: int| 0 <= k < all.len() ==> yield_ok(cfg, #[trigger] all[k]),
                cfg.net ==> (self.net matches Some(ct) && ct@ == nets_of(
                    all.take(all.len() - devices@.len()),
                )),
                cfg.block ==> (self.block matches Some(ct) && ct@ == blocks_of(
                    all.take(all.len() - devices@.len()),
                )),
                cfg.display ==> (self.display matches Some(ct) && ct@ == displays_of(
                    all.take(all.len() - devices@.len()),
                )),
                regn == registry_count(cfg),
                0 <= regn <= all.len(),
                all.skip(regn) == bus_yield(entries),
                reg_nets_ok(cfg, nets_of(all.take(regn))),
                reg_blocks_ok(cfg, blocks_of(all.take(regn))),
                reg_displays_ok(cfg, displays_of(all.take(regn))),
                net_total(cfg, entries) == nets_of(all).len(),
                block_total(cfg, entries) == blocks_of(all).len(),
                display_total(cfg, entries) == displays_of(all).len(),
            decreases devices@.len(),
        {
            let ghost k = all.len() - devices@.len();
            let ghost devs0 = devices@;
            let dev = devices.remove(0);
            let ghost gdev = dev;
            proof {
                assert(devs0.remove(0) =~= devs0.skip(1));
                assert(all.skip(k)[0] == all[k]);
                assert(dev == all[k]);
                assert(yield_ok(cfg, gdev));
                assert(all.skip(k).skip(1) =~= all.skip(k + 1));
                assert(all.take(k + 1) =~= all.take(k) + seq![gdev]);
                lemma_filters_concat(all.take(k), seq![gdev]);
                lemma_filters_singleton(gdev);
            }
            let res = self.add_device(dev);
            if let Err(e) = res {
                proof {
                    assert(all =~= all.take(k) + all.skip(k));
                    assert(all.skip(k) =~= seq![gdev] + all.skip(k + 1));
                    lemma_filters_concat(all.take(k), all.skip(k));
                    lemma_filters_concat(seq![gdev], all.skip(k + 1));
                    match gdev {
                        AxDeviceEnum::Net(d) => {
                            assert(nets_of(all).len() >= 2);
                        },
                        AxDeviceEnum::Block(d) => {
                            assert(blocks_of(all).len() >= 2);
                        },
                        AxDeviceEnum::Display(d) => {
                            assert(displays_of(all).len() >= 2);
                        },
                    }
                    assert(!cfg.dyn_dispatch);
                    assert(!can_populate(cfg, entries));
                }
                return Err(e);
            }
            proof {
                match gdev {
                    AxDeviceEnum::Net(d) => {
                        assert(self.net matches Some(ct) && ct@ =~= nets_of(all.take(k + 1)));
                        assert(blocks_of(all.take(k + 1)) =~= blocks_of(all.take(k)));
                        assert(displays_of(all.take(k + 1)) =~= displays_of(all.take(k)));
                    },
                    AxDeviceEnum::Block(d) => {
                        assert(self.block matches Some(ct) && ct@ =~= blocks_of(
                            all.take(k + 1),
                        ));
                        assert(nets_of(all.take(k + 1)) =~= nets_of(all.take(k)));
                        assert(displays_of(all.take(k + 1)) =~= displays_of(all.take(k)));
                    },
                    AxDeviceEnum::Display(d) => {
                        assert(self.display matches Some(ct) && ct@ =~= displays_of(
                            all.take(k + 1),
                        ));
                        assert(nets_of(all.take(k + 1)) =~= nets_of(all.take(k)));
                        assert(blocks_of(all.take(k + 1)) =~= blocks_of(all.take(k)));
                    },
                }
            }
        }
        proof {
            assert(all.take(all.len() as int) =~= all);
            assert(all =~= all.take(regn) + all.skip(regn));
            lemma_filters_concat(all.take(regn), all.skip(regn));
            if cfg.net {
                let ct = self.net->0;
                assert(ct@ == nets_of(all));
                assert(nets_of(all) == nets_of(all.take(regn)) + nets_of(bus_yield(entries)));
                if cfg.loopback {
                    assert(ct@[0] == nets_of(all.take(regn))[0]);
                    assert(ct@.skip(1) =~= nets_of(bus_yield(entries)));
                }
                if !cfg.dyn_dispatch {
                    container::lemma_static_len(self.net->0);
                }
            }
            if cfg.block {
                let ct = self.block->0;
                assert(ct@ == blocks_of(all));
                assert(blocks_of(all) == blocks_of(all.take(regn)) + blocks_of(
                    bus_yield(entries),
                ));
                if cfg.ramdisk {
                    assert(ct@[0] == blocks_of(all.take(regn))[0]);
                    assert(ct@.skip(1) =~= blocks_of(bus_yield(entries)));
                }
                if !cfg.dyn_dispatch {
                    container::lemma_static_len(self.block->0);
                }
            }
            if cfg.display {
                let ct = self.display->0;
                assert(ct@ == displays_of(all));
                assert(displays_of(all) == displays_of(all.take(regn)) + displays_of(
                    bus_yield(entries),
                ));
                if cfg.ramfb {
                    assert(ct@[0] == displays_of(all.take(regn))[0]);
                    assert(ct@.skip(1) =~= displays_of(bus_yield(entries)));
                }
                if !cfg.dyn_dispatch {
                    container::lemma_static_len(self.display->0);
                }
            }
            assert(can_populate(cfg, entries));
        }
        Ok(())
    }
}

/// Probes and initializes all device drivers: constructs the empty
/// aggregate from the build configuration, runs the one-shot probe
/// protocol against it, and returns the populated aggregate for
/// ownership distribution. Initialization succeeds exactly when the
/// protocol's yield fits the configured discipline; otherwise it
/// aborts with `CapacityViolation`.
pub fn init_drivers(config: BuildConfig, bus_entries: Vec<BusProbeResult>) -> (r: Result<
    AllDevices,
    DevError,
>)
    requires
        config.wf(),
        bus_entries_ok(config, bus_entries@),
    ensures
        r is Ok <==> can_populate(config, bus_entries@),
        r matches Ok(devs) ==> devs.wf() && devs.config == config && devs.no_fallbacks()
            && devs.populated(config, bus_entries@),
        r is Err ==> r == Result::<AllDevices, DevError>::Err(DevError::CapacityViolation),
{
    let mut all_devs = AllDevices::new(config);
    match all_devs.probe(bus_entries) {
        Ok(()) => Ok(all_devs),
        Err(e) => Err(e),
    }
}

/// The two dispatch-model names are distinct, so `device_model`
/// reports exactly one of them.
pub proof fn lemma_dispatch_names_disjoint()
    ensures
        "dyn"@ != "static"@,
{
    reveal_strlit("dyn");
    reveal_strlit("static");
    assert("dyn"@.len() == 3);
    assert("static"@.len() == 6);
}

} // verus!

