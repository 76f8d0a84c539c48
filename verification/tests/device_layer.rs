use axdriver::base::BaseDriverOps;
use axdriver::container::AxDeviceContainer;
use axdriver::display::RamFbDev;
use axdriver::dummy::{DummyBlockDev, DummyDisplayDev, DummyNetDev};
use axdriver::netdev::LoopbackNetDev;
use axdriver::ramdisk::RamDisk;
use axdriver::structs::AxNetDevice;
use axdriver::types::{DevError, DeviceType};

#[test]
fn dummy_net_is_inert() {
    let mut d = DummyNetDev;
    assert_eq!(d.device_type(), DeviceType::Net);
    assert_eq!(d.device_name(), "dummy-net");
    assert!(!d.can_transmit());
    assert!(!d.can_receive());
    assert_eq!(d.rx_queue_size(), 0);
    assert_eq!(d.tx_queue_size(), 0);
    assert_eq!(d.transmit(&vec![1, 2, 3]), Err(DevError::Unsupported));
    assert_eq!(d.receive(), Err(DevError::Unsupported));
    assert_eq!(d.alloc_tx_buffer(16), Err(DevError::Unsupported));
    assert_eq!(d.recycle_rx_buffer(vec![0u8; 4]), Err(DevError::Unsupported));
    assert_eq!(d.recycle_tx_buffers(), Err(DevError::Unsupported));
    // Repeating a call gives the same outcome: the fallback has no state.
    assert_eq!(d.receive(), Err(DevError::Unsupported));
}

#[test]
fn dummy_block_is_inert() {
    let mut d = DummyBlockDev;
    assert_eq!(d.device_type(), DeviceType::Block);
    assert_eq!(d.device_name(), "dummy-block");
    assert_eq!(d.num_blocks(), 0);
    assert_eq!(d.block_size(), 0);
    let mut buf = vec![7u8; 8];
    assert_eq!(d.read_block(0, &mut buf), Err(DevError::Unsupported));
    assert_eq!(buf, vec![7u8; 8]);
    assert_eq!(d.write_block(0, &vec![0u8; 8]), Err(DevError::Unsupported));
    assert_eq!(d.flush(), Err(DevError::Unsupported));
}

#[test]
fn dummy_display_is_inert() {
    let mut d = DummyDisplayDev;
    assert_eq!(d.device_type(), DeviceType::Display);
    assert_eq!(d.device_name(), "dummy-display");
    assert!(!d.need_flush());
    assert_eq!(d.flush(), Err(DevError::Unsupported));
}

#[test]
fn ramdisk_geometry_and_name() {
    let rd = RamDisk::new(1000);
    assert_eq!(rd.device_type(), DeviceType::Block);
    assert_eq!(rd.device_name(), "ramdisk");
    // 1000 bytes round up to two 512-byte blocks.
    assert_eq!(rd.num_blocks(), 2);
    assert_eq!(rd.block_size(), 512);
}

#[test]
fn ramdisk_starts_zeroed() {
    let mut rd = RamDisk::new(1024);
    let mut buf = vec![0xffu8; 512];
    assert_eq!(rd.read_block(1, &mut buf), Ok(()));
    assert!(buf.iter().all(|&b| b == 0));
}

#[test]
fn ramdisk_write_read_round_trip() {
    let mut rd = RamDisk::new(2048);
    let pattern: Vec<u8> = (0..512).map(|i| (i % 251) as u8).collect();
    assert_eq!(rd.write_block(2, &pattern), Ok(()));
    let mut buf = vec![0u8; 512];
    assert_eq!(rd.read_block(2, &mut buf), Ok(()));
    assert_eq!(buf, pattern);
    // Neighboring blocks are untouched.
    assert_eq!(rd.read_block(1, &mut buf), Ok(()));
    assert!(buf.iter().all(|&b| b == 0));
    assert_eq!(rd.read_block(3, &mut buf), Ok(()));
    assert!(buf.iter().all(|&b| b == 0));
}

#[test]
fn ramdisk_rejects_bad_arguments() {
    let mut rd = RamDisk::new(1024);
    let mut buf = vec![0u8; 512];
    // Out-of-range block index.
    assert_eq!(rd.read_block(2, &mut buf), Err(DevError::InvalidParam));
    assert_eq!(rd.write_block(9, &buf), Err(DevError::InvalidParam));
    // A buffer that is not exactly one block.
    let mut short = vec![0u8; 100];
    assert_eq!(rd.read_block(0, &mut short), Err(DevError::InvalidParam));
    assert_eq!(rd.write_block(0, &short), Err(DevError::InvalidParam));
    // The rejected writes changed nothing.
    assert_eq!(rd.read_block(0, &mut buf), Ok(()));
    assert!(buf.iter().all(|&b| b == 0));
    assert_eq!(rd.flush(), Ok(()));
}

#[test]
fn loopback_frames_come_back_in_order() {
    let mut nic = LoopbackNetDev::new([0, 1, 2, 3, 4, 5], 4);
    assert_eq!(nic.device_type(), DeviceType::Net);
    assert_eq!(nic.device_name(), "loopback");
    assert_eq!(nic.mac_address(), [0, 1, 2, 3, 4, 5]);
    assert_eq!(nic.rx_queue_size(), 4);
    assert_eq!(nic.tx_queue_size(), 4);
    assert!(!nic.can_receive());
    assert!(nic.can_transmit());
    assert_eq!(nic.transmit(vec![0xaa, 0xbb]), Ok(()));
    assert_eq!(nic.transmit(vec![0xcc]), Ok(()));
    assert!(nic.can_receive());
    assert_eq!(nic.receive(), Ok(vec![0xaa, 0xbb]));
    assert_eq!(nic.receive(), Ok(vec![0xcc]));
    assert_eq!(nic.receive(), Err(DevError::NoData));
}

#[test]
fn loopback_full_queue_would_block() {
    let mut nic = LoopbackNetDev::new([0; 6], 1);
    assert_eq!(nic.transmit(vec![1]), Ok(()));
    assert!(!nic.can_transmit());
    assert_eq!(nic.transmit(vec![2]), Err(DevError::WouldBlock));
    // The rejected frame was not queued.
    assert_eq!(nic.receive(), Ok(vec![1]));
    assert_eq!(nic.receive(), Err(DevError::NoData));
}

#[test]
fn loopback_buffer_management() {
    let mut nic = LoopbackNetDev::new([0; 6], 2);
    let buf = nic.alloc_tx_buffer(64).unwrap();
    assert_eq!(buf.len(), 64);
    assert!(buf.iter().all(|&b| b == 0));
    assert_eq!(nic.recycle_rx_buffer(buf), Ok(()));
    assert_eq!(nic.recycle_tx_buffers(), Ok(()));
}

#[test]
fn ramfb_mode_and_framebuffer() {
    let mut fb = RamFbDev::new(320, 200);
    assert_eq!(fb.device_type(), DeviceType::Display);
    assert_eq!(fb.device_name(), "ramfb");
    let info = fb.info();
    assert_eq!(info.width, 320);
    assert_eq!(info.height, 200);
    assert_eq!(info.fb_size, 320 * 200 * 4);
    assert_eq!(fb.fb().len(), 320 * 200 * 4);
    assert!(!fb.need_flush());
    assert_eq!(fb.write_fb_byte(17, 0x5a), Ok(()));
    assert_eq!(fb.fb()[17], 0x5a);
    assert_eq!(fb.write_fb_byte(320 * 200 * 4, 1), Err(DevError::InvalidParam));
    assert_eq!(fb.flush(), Ok(()));
}

fn nic(tag: u8) -> AxNetDevice {
    AxNetDevice::Loopback(LoopbackNetDev::new([tag, 0, 0, 0, 0, 0], 4))
}

fn nic_tag(d: &AxNetDevice) -> u8 {
    match d {
        AxNetDevice::Loopback(l) => l.mac_address()[0],
        AxNetDevice::Dummy(_) => panic!("fallback in a container"),
    }
}

#[test]
fn dynamic_container_keeps_arrival_order() {
    let mut c: AxDeviceContainer<AxNetDevice> = AxDeviceContainer::new_dynamic();
    assert!(!c.is_static());
    assert!(c.is_empty());
    assert_eq!(c.len(), 0);
    for tag in 0..5u8 {
        assert_eq!(c.push(nic(tag)), Ok(()));
    }
    // The length equals the number of calls, the order is call order.
    assert_eq!(c.len(), 5);
    assert!(!c.is_empty());
    for tag in 0..5u8 {
        assert_eq!(nic_tag(c.get(tag as usize)), tag);
    }
}

#[test]
fn static_container_rejects_second_push() {
    let mut c: AxDeviceContainer<AxNetDevice> = AxDeviceContainer::new_static();
    assert!(c.is_static());
    assert!(c.is_empty());
    assert_eq!(c.push(nic(1)), Ok(()));
    assert_eq!(c.len(), 1);
    assert_eq!(c.push(nic(2)), Err(DevError::CapacityViolation));
    // The rejected push changed nothing.
    assert_eq!(c.len(), 1);
    assert_eq!(nic_tag(c.get(0)), 1);
}
