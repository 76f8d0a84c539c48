//! Fallback ("dummy") devices.
//!
//! One stateless type per category implements the category's capability
//! interface so that the category's device type exists and type-checks
//! even when no concrete driver is configured for it. Every mutating or
//! data-returning operation yields `Unsupported`, every boolean
//! capability query returns `false`, and every size or count query
//! returns `0` — deterministically and without side effects. Queries
//! with no safe default (a MAC address, display metadata, a framebuffer
//! handle) are not offered at all: the probe protocol never places a
//! fallback into a container, so nothing ever asks a fallback for them.

use vstd::prelude::*;

use crate::base::BaseDriverOps;
use crate::types::{DevError, DevResult, DeviceType};

verus! {

/// Fallback network device: advertises no capability and services nothing.
#[derive(Clone, Copy, Debug)]
pub struct DummyNetDev;

/// Fallback block device: zero blocks, every operation unsupported.
#[derive(Clone, Copy, Debug)]
pub struct DummyBlockDev;

/// Fallback display device: never needs a flush, flushing is unsupported.
#[derive(Clone, Copy, Debug)]
pub struct DummyDisplayDev;

impl BaseDriverOps for DummyNetDev {
    open spec fn spec_device_type(&self) -> DeviceType {
        DeviceType::Net
    }

    open spec fn spec_device_name(&self) -> Seq<char> {
        "dummy-net"@
    }

    fn device_type(&self) -> (t: DeviceType) {
        DeviceType::Net
    }

    fn device_name(&self) -> (n: &'static str) {
        "dummy-net"
    }
}

impl DummyNetDev {
    /// A fallback can never transmit.
    pub fn can_transmit(&self) -> (b: bool)
        ensures
            !b,
    {
        false
    }

    /// A fallback can never receive.
    pub fn can_receive(&self) -> (b: bool)
        ensures
            !b,
    {
        false
    }

    /// A fallback holds no receive queue.
    pub fn rx_queue_size(&self) -> (n: usize)
        ensures
            n == 0,
    {
        0
    }

    /// A fallback holds no transmit queue.
    pub fn tx_queue_size(&self) -> (n: usize)
        ensures
            n == 0,
    {
        0
    }

    /// Transmitting through a fallback is unsupported; the device is unchanged.
    pub fn transmit(&mut self, _frame: &Vec<u8>) -> (r: DevResult)
        ensures
            r == DevResult::Err(DevError::Unsupported),
            *final(self) == *old(self),
    {
        Err(DevError::Unsupported)
    }

    /// Receiving through a fallback is unsupported; the device is unchanged.
    pub fn receive(&mut self) -> (r: Result<Vec<u8>, DevError>)
        ensures
            r == Result::<Vec<u8>, DevError>::Err(DevError::Unsupported),
            *final(self) == *old(self),
    {
        Err(DevError::Unsupported)
    }

    /// Allocating a transmit buffer from a fallback is unsupported.
    pub fn alloc_tx_buffer(&mut self, _size: usize) -> (r: Result<Vec<u8>, DevError>)
        ensures
            r == Result::<Vec<u8>, DevError>::Err(DevError::Unsupported),
            *final(self) == *old(self),
    {
        Err(DevError::Unsupported)
    }

    /// Recycling a receive buffer into a fallback is unsupported.
    pub fn recycle_rx_buffer(&mut self, _buf: Vec<u8>) -> (r: DevResult)
        ensures
            r == DevResult::Err(DevError::Unsupported),
            *final(self) == *old(self),
    {
        Err(DevError::Unsupported)
    }

    /// Recycling transmit buffers of a fallback is unsupported.
    pub fn recycle_tx_buffers(&mut self) -> (r: DevResult)
        ensures
            r == DevResult::Err(DevError::Unsupported),
            *final(self) == *old(self),
    {
        Err(DevError::Unsupported)
    }
}

impl BaseDriverOps for DummyBlockDev {
    open spec fn spec_device_type(&self) -> DeviceType {
        DeviceType::Block
    }

    open spec fn spec_device_name(&self) -> Seq<char> {
        "dummy-block"@
    }

    fn device_type(&self) -> (t: DeviceType) {
        DeviceType::Block
    }

    fn device_name(&self) -> (n: &'static str) {
        "dummy-block"
    }
}

impl DummyBlockDev {
    /// A fallback stores no blocks.
    pub fn num_blocks(&self) -> (n: u64)
        ensures
            n == 0,
    {
        0
    }

    /// A fallback has no block size.
    pub fn block_size(&self) -> (n: usize)
        ensures
            n == 0,
    {
        0
    }

    /// Reading from a fallback is unsupported; nothing is written to `buf`.
    pub fn read_block(&mut self, _block_id: u64, buf: &mut Vec<u8>) -> (r: DevResult)
        ensures
            r == DevResult::Err(DevError::Unsupported),
            *final(self) == *old(self),
            final(buf)@ == old(buf)@,
    {
        Err(DevError::Unsupported)
    }

    /// Writing to a fallback is unsupported; the device is unchanged.
    pub fn write_block(&mut self, _block_id: u64, _data: &Vec<u8>) -> (r: DevResult)
        ensures
            r == DevResult::Err(DevError::Unsupported),
            *final(self) == *old(self),
    {
        Err(DevError::Unsupported)
    }

    /// Flushing a fallback is unsupported; the device is unchanged.
    pub fn flush(&mut self) -> (r: DevResult)
        ensures
            r == DevResult::Err(DevError::Unsupported),
            *final(self) == *old(self),
    {
        Err(DevError::Unsupported)
    }
}

impl BaseDriverOps for DummyDisplayDev {
    open spec fn spec_device_type(&self) -> DeviceType {
        DeviceType::Display
    }

    open spec fn spec_device_name(&self) -> Seq<char> {
        "dummy-display"@
    }

    fn device_type(&self) -> (t: DeviceType) {
        DeviceType::Display
    }

    fn device_name(&self) -> (n: &'static str) {
        "dummy-display"
    }
}

impl DummyDisplayDev {
    /// A fallback never has pending output to flush.
    pub fn need_flush(&self) -> (b: bool)
        ensures
            !b,
    {
        false
    }

    /// Flushing a fallback is unsupported; the device is unchanged.
    pub fn flush(&mut self) -> (r: DevResult)
        ensures
            r == DevResult::Err(DevError::Unsupported),
            *final(self) == *old(self),
    {
        Err(DevError::Unsupported)
    }
}

} // verus!
