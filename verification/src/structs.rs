//! Per-category device types and the tagged union over all categories.
//!
//! Each category's device type is a closed sum over the drivers this
//! build knows for that category, so every device of the type answers
//! the category's tag by construction. `AxDeviceEnum` tags one device
//! with its category; the tag and the device's own answer can never
//! disagree, which `lemma_device_tag_consistent` states.

use vstd::prelude::*;

use crate::base::BaseDriverOps;
use crate::display::RamFbDev;
use crate::dummy::{DummyBlockDev, DummyDisplayDev, DummyNetDev};
use crate::netdev::LoopbackNetDev;
use crate::ramdisk::RamDisk;
use crate::types::DeviceType;

verus! {

/// One network device of this build.
pub enum AxNetDevice {
    /// The loopback driver.
    Loopback(LoopbackNetDev),
    /// The fallback, used only to let the category type exist.
    Dummy(DummyNetDev),
}

/// One block-storage device of this build.
pub enum AxBlockDevice {
    /// The RAM-disk driver.
    Ram(RamDisk),
    /// The fallback, used only to let the category type exist.
    Dummy(DummyBlockDev),
}

/// One display device of this build.
pub enum AxDisplayDevice {
    /// The memory-framebuffer driver.
    RamFb(RamFbDev),
    /// The fallback, used only to let the category type exist.
    Dummy(DummyDisplayDev),
}

/// One device, tagged with the category it was constructed for.
pub enum AxDeviceEnum {
    /// A network device.
    Net(AxNetDevice),
    /// A block-storage device.
    Block(AxBlockDevice),
    /// A display device.
    Display(AxDisplayDevice),
}

impl AxNetDevice {
    /// The driver's own invariant holds.
    pub open spec fn wf(&self) -> bool {
        match self {
            AxNetDevice::Loopback(d) => d.wf(),
            AxNetDevice::Dummy(_) => true,
        }
    }

    /// Whether this is the fallback, which the probe protocol never yields.
    pub open spec fn is_fallback(&self) -> bool {
        self is Dummy
    }
}

impl AxBlockDevice {
    /// The driver's own invariant holds.
    pub open spec fn wf(&self) -> bool {
        match self {
            AxBlockDevice::Ram(d) => d.wf(),
            AxBlockDevice::Dummy(_) => true,
        }
    }

    /// Whether this is the fallback, which the probe protocol never yields.
    pub open spec fn is_fallback(&self) -> bool {
        self is Dummy
    }
}

impl AxDisplayDevice {
    /// The driver's own invariant holds.
    pub open spec fn wf(&self) -> bool {
        match self {
            AxDisplayDevice::RamFb(d) => d.wf(),
            AxDisplayDevice::Dummy(_) => true,
        }
    }

    /// Whether this is the fallback, which the probe protocol never yields.
    pub open spec fn is_fallback(&self) -> bool {
        self is Dummy
    }
}

impl AxDeviceEnum {
    /// The held driver's own invariant holds.
    pub open spec fn wf(&self) -> bool {
        match self {
            AxDeviceEnum::Net(d) => d.wf(),
            AxDeviceEnum::Block(d) => d.wf(),
            AxDeviceEnum::Display(d) => d.wf(),
        }
    }

    /// Whether the held device is a fallback.
    pub open spec fn is_fallback(&self) -> bool {
        match self {
            AxDeviceEnum::Net(d) => d.is_fallback(),
            AxDeviceEnum::Block(d) => d.is_fallback(),
            AxDeviceEnum::Display(d) => d.is_fallback(),
        }
    }
}

impl BaseDriverOps for AxNetDevice {
    open spec fn spec_device_type(&self) -> DeviceType {
        DeviceType::Net
    }

    open spec fn spec_device_name(&self) -> Seq<char> {
        match self {
            AxNetDevice::Loopback(d) => d.spec_device_name(),
            AxNetDevice::Dummy(d) => d.spec_device_name(),
        }
    }

    fn device_type(&self) -> (t: DeviceType) {
        DeviceType::Net
    }

    fn device_name(&self) -> (n: &'static str) {
        match self {
            AxNetDevice::Loopback(d) => d.device_name(),
            AxNetDevice::Dummy(d) => d.device_name(),
        }
    }
}

impl BaseDriverOps for AxBlockDevice {
    open spec fn spec_device_type(&self) -> DeviceType {
        DeviceType::Block
    }

    open spec fn spec_device_name(&self) -> Seq<char> {
        match self {
            AxBlockDevice::Ram(d) => d.spec_device_name(),
            AxBlockDevice::Dummy(d) => d.spec_device_name(),
        }
    }

    fn device_type(&self) -> (t: DeviceType) {
        DeviceType::Block
    }

    fn device_name(&self) -> (n: &'static str) {
        match self {
            AxBlockDevice::Ram(d) => d.device_name(),
            AxBlockDevice::Dummy(d) => d.device_name(),
        }
    }
}

impl BaseDriverOps for AxDisplayDevice {
    open spec fn spec_device_type(&self) -> DeviceType {
        DeviceType::Display
    }

    open spec fn spec_device_name(&self) -> Seq<char> {
        match self {
            AxDisplayDevice::RamFb(d) => d.spec_device_name(),
            AxDisplayDevice::Dummy(d) => d.spec_device_name(),
        }
    }

    fn device_type(&self) -> (t: DeviceType) {
        DeviceType::Display
    }

    fn device_name(&self) -> (n: &'static str) {
        match self {
            AxDisplayDevice::RamFb(d) => d.device_name(),
            AxDisplayDevice::Dummy(d) => d.device_name(),
        }
    }
}

impl BaseDriverOps for AxDeviceEnum {
    open spec fn spec_device_type(&self) -> DeviceType {
        match self {
            AxDeviceEnum::Net(_) => DeviceType::Net,
            AxDeviceEnum::Block(_) => DeviceType::Block,
            AxDeviceEnum::Display(_) => DeviceType::Display,
        }
    }

    open spec fn spec_device_name(&self) -> Seq<char> {
        match self {
            AxDeviceEnum::Net(d) => d.spec_device_name(),
            AxDeviceEnum::Block(d) => d.spec_device_name(),
            AxDeviceEnum::Display(d) => d.spec_device_name(),
        }
    }

    fn device_type(&self) -> (t: DeviceType) {
        match self {
            AxDeviceEnum::Net(_) => DeviceType::Net,
            AxDeviceEnum::Block(_) => DeviceType::Block,
            AxDeviceEnum::Display(_) => DeviceType::Display,
        }
    }

    fn device_name(&self) -> (n: &'static str) {
        match self {
            AxDeviceEnum::Net(d) => d.device_name(),
            AxDeviceEnum::Block(d) => d.device_name(),
            AxDeviceEnum::Display(d) => d.device_name(),
        }
    }
}

/// The network devices of `s`, untagged, in order.
pub open spec fn nets_of(s: Seq<AxDeviceEnum>) -> Seq<AxNetDevice>
    decreases s.len(),
{
    if s.len() == 0 {
        Seq::empty()
    } else {
        (match s[0] {
            AxDeviceEnum::Net(d) => seq![d],
            _ => Seq::empty(),
        }) + nets_of(s.skip(1))
    }
}

/// The block devices of `s`, untagged, in order.
pub open spec fn blocks_of(s: Seq<AxDeviceEnum>) -> Seq<AxBlockDevice>
    decreases s.len(),
{
    if s.len() == 0 {
        Seq::empty()
    } else {
        (match s[0] {
            AxDeviceEnum::Block(d) => seq![d],
            _ => Seq::empty(),
        }) + blocks_of(s.skip(1))
    }
}

/// The display devices of `s`, untagged, in order.
pub open spec fn displays_of(s: Seq<AxDeviceEnum>) -> Seq<AxDisplayDevice>
    decreases s.len(),
{
    if s.len() == 0 {
        Seq::empty()
    } else {
        (match s[0] {
            AxDeviceEnum::Display(d) => seq![d],
            _ => Seq::empty(),
        }) + displays_of(s.skip(1))
    }
}

/// Each category filter distributes over concatenation.
pub proof fn lemma_filters_concat(a: Seq<AxDeviceEnum>, b: Seq<AxDeviceEnum>)
    ensures
        nets_of(a + b) == nets_of(a) + nets_of(b),
        blocks_of(a + b) == blocks_of(a) + blocks_of(b),
        displays_of(a + b) == displays_of(a) + displays_of(b),
    decreases a.len(),
{
    if a.len() == 0 {
        assert(a + b =~= b);
        assert(nets_of(a) + nets_of(b) =~= nets_of(b));
        assert(blocks_of(a) + blocks_of(b) =~= blocks_of(b));
        assert(displays_of(a) + displays_of(b) =~= displays_of(b));
    } else {
        assert((a + b).len() > 0);
        assert((a + b)[0] == a[0]);
        assert((a + b).skip(1) =~= a.skip(1) + b);
        lemma_filters_concat(a.skip(1), b);
        assert(nets_of(a + b) =~= nets_of(a) + nets_of(b));
        assert(blocks_of(a + b) =~= blocks_of(a) + blocks_of(b));
        assert(displays_of(a + b) =~= displays_of(a) + displays_of(b));
    }
}

/// What each category filter makes of a single device.
pub proof fn lemma_filters_singleton(d: AxDeviceEnum)
    ensures
        nets_of(seq![d]) == (match d {
            AxDeviceEnum::Net(n) => seq![n],
            _ => Seq::<AxNetDevice>::empty(),
        }),
        blocks_of(seq![d]) == (match d {
            AxDeviceEnum::Block(n) => seq![n],
            _ => Seq::<AxBlockDevice>::empty(),
        }),
        displays_of(seq![d]) == (match d {
            AxDeviceEnum::Display(n) => seq![n],
            _ => Seq::<AxDisplayDevice>::empty(),
        }),
{
    let s = seq![d];
    assert(s.skip(1) =~= Seq::<AxDeviceEnum>::empty());
    assert(nets_of(Seq::<AxDeviceEnum>::empty()) == Seq::<AxNetDevice>::empty());
    assert(blocks_of(Seq::<AxDeviceEnum>::empty()) == Seq::<AxBlockDevice>::empty());
    assert(displays_of(Seq::<AxDeviceEnum>::empty()) == Seq::<AxDisplayDevice>::empty());
    assert(s.len() == 1 && s[0] == d);
    match d {
        AxDeviceEnum::Net(n) => {
            assert(nets_of(s) =~= seq![n]);
            assert(blocks_of(s) =~= Seq::<AxBlockDevice>::empty());
            assert(displays_of(s) =~= Seq::<AxDisplayDevice>::empty());
        },
        AxDeviceEnum::Block(n) => {
            assert(nets_of(s) =~= Seq::<AxNetDevice>::empty());
            assert(blocks_of(s) =~= seq![n]);
            assert(displays_of(s) =~= Seq::<AxDisplayDevice>::empty());
        },
        AxDeviceEnum::Display(n) => {
            assert(nets_of(s) =~= Seq::<AxNetDevice>::empty());
            assert(blocks_of(s) =~= Seq::<AxBlockDevice>::empty());
            assert(displays_of(s) =~= seq![n]);
        },
    }
}

/// Tag consistency: the device a tag wraps answers exactly that tag —
/// a `Net`-tagged device reports `Net`, and so on for every category.
/// A mismatch is impossible by construction, not merely unobserved.
pub proof fn lemma_device_tag_consistent(dev: AxDeviceEnum)
    ensures
        dev matches AxDeviceEnum::Net(d) ==> d.spec_device_type() == dev.spec_device_type(),
        dev matches AxDeviceEnum::Block(d) ==> d.spec_device_type() == dev.spec_device_type(),
        dev matches AxDeviceEnum::Display(d) ==> d.spec_device_type()
            == dev.spec_device_type(),
{
}

} // verus!
