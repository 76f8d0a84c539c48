use axdriver::base::BaseDriverOps;
use axdriver::bus::BusProbeResult;
use axdriver::config::BuildConfig;
use axdriver::display::RamFbDev;
use axdriver::init_drivers;
use axdriver::netdev::LoopbackNetDev;
use axdriver::ramdisk::RamDisk;
use axdriver::registry::{driver_registry, probe_global, DriverKind};
use axdriver::structs::{AxBlockDevice, AxDeviceEnum, AxDisplayDevice, AxNetDevice};
use axdriver::types::{DevError, DeviceType};
use axdriver::AllDevices;

fn cfg_all_off() -> BuildConfig {
    BuildConfig {
        net: false,
        block: false,
        display: false,
        dyn_dispatch: false,
        ramdisk: false,
        loopback: false,
        ramfb: false,
    }
}

fn bus_nic(tag: u8) -> AxDeviceEnum {
    AxDeviceEnum::Net(AxNetDevice::Loopback(LoopbackNetDev::new([tag, 0, 0, 0, 0, 0], 4)))
}

fn bus_disk(size: usize) -> AxDeviceEnum {
    AxDeviceEnum::Block(AxBlockDevice::Ram(RamDisk::new(size)))
}

fn bus_fb() -> AxDeviceEnum {
    AxDeviceEnum::Display(AxDisplayDevice::RamFb(RamFbDev::new(64, 64)))
}

fn net_mac_tag(d: &AxNetDevice) -> u8 {
    match d {
        AxNetDevice::Loopback(l) => l.mac_address()[0],
        AxNetDevice::Dummy(_) => panic!("fallback in a container"),
    }
}

#[test]
fn device_model_reports_the_discipline() {
    let mut c = cfg_all_off();
    let devs = AllDevices::new(c);
    assert_eq!(devs.device_model(), "static");
    c.dyn_dispatch = true;
    let devs = AllDevices::new(c);
    assert_eq!(devs.device_model(), "dyn");
}

#[test]
fn registry_contents_follow_the_configuration() {
    let mut c = cfg_all_off();
    assert_eq!(driver_registry(&c), vec![]);
    c.block = true;
    c.ramdisk = true;
    assert_eq!(driver_registry(&c), vec![DriverKind::Ramdisk]);
    c.net = true;
    c.loopback = true;
    c.display = true;
    c.ramfb = true;
    assert_eq!(
        driver_registry(&c),
        vec![DriverKind::Ramdisk, DriverKind::Loopback, DriverKind::RamFb]
    );
}

#[test]
fn probe_global_yields_the_tagged_device() {
    match probe_global(DriverKind::Ramdisk) {
        Some(d) => {
            assert_eq!(d.device_type(), DeviceType::Block);
            assert_eq!(d.device_name(), "ramdisk");
        }
        None => panic!("software probe found nothing"),
    }
    match probe_global(DriverKind::Loopback) {
        Some(d) => {
            assert_eq!(d.device_type(), DeviceType::Net);
            assert_eq!(d.device_name(), "loopback");
        }
        None => panic!("software probe found nothing"),
    }
    match probe_global(DriverKind::RamFb) {
        Some(d) => {
            assert_eq!(d.device_type(), DeviceType::Display);
            assert_eq!(d.device_name(), "ramfb");
        }
        None => panic!("software probe found nothing"),
    }
}

#[test]
fn ramdisk_only_static_build() {
    // Scenario: only the block category with the RAM-disk driver,
    // static dispatch, nothing on the buses.
    let mut c = cfg_all_off();
    c.block = true;
    c.ramdisk = true;
    let devs = init_drivers(c, vec![]).unwrap();
    let block = devs.block.as_ref().unwrap();
    assert_eq!(block.len(), 1);
    assert_eq!(block.get(0).device_name(), "ramdisk");
    assert_eq!(block.get(0).device_type(), DeviceType::Block);
    assert!(devs.net.is_none());
    assert!(devs.display.is_none());
}

#[test]
fn dynamic_build_keeps_registry_before_bus() {
    // Scenario: dynamic dispatch with two network devices, one from
    // the static registry and one from a bus probe.
    let mut c = cfg_all_off();
    c.net = true;
    c.loopback = true;
    c.dyn_dispatch = true;
    let entries: Vec<BusProbeResult> = vec![Ok(vec![bus_nic(9)])];
    let devs = init_drivers(c, entries).unwrap();
    let net = devs.net.as_ref().unwrap();
    assert_eq!(net.len(), 2);
    // The registry-phase device (all-zero address) comes first.
    assert_eq!(net_mac_tag(net.get(0)), 0);
    assert_eq!(net_mac_tag(net.get(1)), 9);
    assert_eq!(net.get(0).device_type(), DeviceType::Net);
    assert_eq!(net.get(1).device_type(), DeviceType::Net);
}

#[test]
fn faulted_bus_entry_is_skipped() {
    // Scenario: one of three bus entries reports a probe failure; the
    // other two are still taken and initialization completes.
    let mut c = cfg_all_off();
    c.net = true;
    c.block = true;
    c.dyn_dispatch = true;
    let entries: Vec<BusProbeResult> = vec![
        Ok(vec![bus_nic(1)]),
        Err(DevError::ProbeFailure),
        Ok(vec![bus_disk(512)]),
    ];
    let devs = init_drivers(c, entries).unwrap();
    assert_eq!(devs.net.as_ref().unwrap().len(), 1);
    assert_eq!(net_mac_tag(devs.net.as_ref().unwrap().get(0)), 1);
    assert_eq!(devs.block.as_ref().unwrap().len(), 1);
    assert_eq!(devs.block.as_ref().unwrap().get(0).device_name(), "ramdisk");
}

#[test]
fn surplus_device_aborts_static_initialization() {
    // A second block device under the static discipline is a build
    // configuration mismatch and fails loudly.
    let mut c = cfg_all_off();
    c.block = true;
    c.ramdisk = true;
    let entries: Vec<BusProbeResult> = vec![Ok(vec![bus_disk(512)])];
    assert_eq!(init_drivers(c, entries).err(), Some(DevError::CapacityViolation));
}

#[test]
fn enabled_category_may_stay_empty() {
    // A category with zero devices is a legitimate end state.
    let mut c = cfg_all_off();
    c.net = true;
    c.display = true;
    let devs = init_drivers(c, vec![]).unwrap();
    assert!(devs.net.as_ref().unwrap().is_empty());
    assert!(devs.display.as_ref().unwrap().is_empty());
    assert!(devs.block.is_none());
}

#[test]
fn all_categories_dynamic_end_to_end() {
    let c = BuildConfig {
        net: true,
        block: true,
        display: true,
        dyn_dispatch: true,
        ramdisk: true,
        loopback: true,
        ramfb: true,
    };
    let entries: Vec<BusProbeResult> = vec![
        Ok(vec![bus_fb(), bus_nic(3)]),
        Ok(vec![]),
        Ok(vec![bus_disk(1024)]),
    ];
    let devs = init_drivers(c, entries).unwrap();
    let net = devs.net.as_ref().unwrap();
    let block = devs.block.as_ref().unwrap();
    let display = devs.display.as_ref().unwrap();
    assert_eq!(net.len(), 2);
    assert_eq!(block.len(), 2);
    assert_eq!(display.len(), 2);
    // Registry devices stand before bus devices in every category.
    assert_eq!(net_mac_tag(net.get(0)), 0);
    assert_eq!(net_mac_tag(net.get(1)), 3);
    assert_eq!(block.get(0).device_name(), "ramdisk");
    assert_eq!(display.get(0).device_name(), "ramfb");
    // Tag consistency for every device the probe placed.
    for i in 0..net.len() {
        assert_eq!(net.get(i).device_type(), DeviceType::Net);
    }
    for i in 0..block.len() {
        assert_eq!(block.get(i).device_type(), DeviceType::Block);
    }
    for i in 0..display.len() {
        assert_eq!(display.get(i).device_type(), DeviceType::Display);
    }
}

#[test]
fn add_device_dispatches_on_the_tag() {
    let mut c = cfg_all_off();
    c.net = true;
    c.block = true;
    c.dyn_dispatch = true;
    let mut devs = AllDevices::new(c);
    assert_eq!(devs.add_device(bus_nic(7)), Ok(()));
    assert_eq!(devs.add_device(bus_disk(512)), Ok(()));
    assert_eq!(devs.add_device(bus_nic(8)), Ok(()));
    assert_eq!(devs.net.as_ref().unwrap().len(), 2);
    assert_eq!(devs.block.as_ref().unwrap().len(), 1);
}
