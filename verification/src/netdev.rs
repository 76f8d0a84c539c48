//! A loopback network device: a software driver whose transmitted
//! frames come back on its own receive side.
//!
//! Frames travel through one bounded FIFO queue: `transmit` appends a
//! frame, `receive` takes the oldest one. The driver needs no hardware,
//! so the registry's global probe always yields one.

use vstd::prelude::*;

use crate::base::BaseDriverOps;
use crate::types::{DevError, DevResult, DeviceType};

verus! {

/// Queue capacity of the loopback device that the registry probe yields.
pub const PROBE_QUEUE_SIZE: usize = 64;

/// A network device that loops transmitted frames back to its receive side.
pub struct LoopbackNetDev {
    mac: [u8; 6],
    queue: Vec<Vec<u8>>,
    cap: usize,
}

impl View for LoopbackNetDev {
    type V = Seq<Seq<u8>>;

    /// The abstract value is the queue of in-flight frames, oldest first.
    closed spec fn view(&self) -> Seq<Seq<u8>> {
        self.queue@.map_values(|f: Vec<u8>| f@)
    }
}

impl LoopbackNetDev {
    /// The station address, as a spec-level value.
    pub closed spec fn spec_mac(&self) -> Seq<u8> {
        self.mac@
    }

    /// The queue capacity, as a spec-level value.
    pub closed spec fn spec_queue_size(&self) -> usize {
        self.cap
    }

    /// The queue never holds more frames than its capacity.
    pub open spec fn wf(&self) -> bool {
        self@.len() <= self.spec_queue_size()
    }

    /// Creates a loopback device with the given station address and
    /// queue capacity, with no frame in flight.
    pub fn new(mac: [u8; 6], queue_size: usize) -> (r: LoopbackNetDev)
        requires
            queue_size >= 1,
        ensures
            r.wf(),
            r@ =~= Seq::<Seq<u8>>::empty(),
            r.spec_mac() == mac@,
            r.spec_queue_size() == queue_size,
    {
        let r = LoopbackNetDev { mac, queue: Vec::new(), cap: queue_size };
        proof {
            assert(r@ =~= Seq::<Seq<u8>>::empty());
        }
        r
    }

    /// Returns the station address.
    pub fn mac_address(&self) -> (m: [u8; 6])
        ensures
            m@ == self.spec_mac(),
    {
        self.mac
    }

    /// A frame can be transmitted exactly when the queue has room.
    pub fn can_transmit(&self) -> (b: bool)
        ensures
            b <==> self@.len() < self.spec_queue_size(),
    {
        self.queue.len() < self.cap
    }

    /// A frame can be received exactly when one is in flight.
    pub fn can_receive(&self) -> (b: bool)
        ensures
            b <==> self@.len() > 0,
    {
        self.queue.len() > 0
    }

    /// Returns the receive queue capacity.
    pub fn rx_queue_size(&self) -> (n: usize)
        ensures
            n == self.spec_queue_size(),
    {
        self.cap
    }

    /// Returns the transmit queue capacity.
    pub fn tx_queue_size(&self) -> (n: usize)
        ensures
            n == self.spec_queue_size(),
    {
        self.cap
    }

    /// Appends `frame` to the loopback queue; reports `WouldBlock`,
    /// changing nothing, when the queue is full.
    pub fn transmit(&mut self, frame: Vec<u8>) -> (r: DevResult)
        requires
            old(self).wf(),
        ensures
            final(self).wf(),
            final(self).spec_mac() == old(self).spec_mac(),
            final(self).spec_queue_size() == old(self).spec_queue_size(),
            r is Ok <==> old(self)@.len() < old(self).spec_queue_size(),
            r is Ok ==> final(self)@ == old(self)@.push(frame@),
            r is Err ==> r == DevResult::Err(DevError::WouldBlock) && final(self)@ == old(self)@,
    {
        if self.queue.len() < self.cap {
            self.queue.push(frame);
            proof {
                assert(self@ =~= old(self)@.push(frame@));
            }
            Ok(())
        } else {
            Err(DevError::WouldBlock)
        }
    }

    /// Takes the oldest in-flight frame; reports `NoData`, changing
    /// nothing, when no frame is in flight.
    pub fn receive(&mut self) -> (r: Result<Vec<u8>, DevError>)
        requires
            old(self).wf(),
        ensures
            final(self).wf(),
            final(self).spec_mac() == old(self).spec_mac(),
            final(self).spec_queue_size() == old(self).spec_queue_size(),
            r is Ok <==> old(self)@.len() > 0,
            r matches Ok(f) ==> f@ == old(self)@[0] && final(self)@ == old(self)@.skip(1),
            r is Err ==> r == Result::<Vec<u8>, DevError>::Err(DevError::NoData) && final(self)@ == old(self)@,
    {
        if self.queue.len() > 0 {
            let f = self.queue.remove(0);
            proof {
                assert(self@ =~= old(self)@.skip(1));
            }
            Ok(f)
        } else {
            Err(DevError::NoData)
        }
    }

    /// Hands out a zero-filled transmit buffer of the requested size;
    /// the device itself is unchanged.
    pub fn alloc_tx_buffer(&mut self, size: usize) -> (r: Result<Vec<u8>, DevError>)
        ensures
            *final(self) == *old(self),
            r is Ok,
            r matches Ok(b) ==> b@.len() == size && forall|j: int|
                0 <= j < size ==> b@[j] == 0u8,
    {
        let mut buf: Vec<u8> = Vec::new();
        let mut i: usize = 0;
        while i < size
            invariant
                i <= size,
                buf@.len() == i,
                forall|j: int| 0 <= j < i ==> buf@[j] == 0u8,
            decreases size - i,
        {
            buf.push(0u8);
            i = i + 1;
        }
        Ok(buf)
    }

    /// Loopback buffers are plain memory; returning one is a no-op.
    pub fn recycle_rx_buffer(&mut self, _buf: Vec<u8>) -> (r: DevResult)
        ensures
            *final(self) == *old(self),
            r is Ok,
    {
        Ok(())
    }

    /// Loopback buffers are plain memory; reclaiming them is a no-op.
    pub fn recycle_tx_buffers(&mut self) -> (r: DevResult)
        ensures
            *final(self) == *old(self),
            r is Ok,
    {
        Ok(())
    }

    /// The driver registry's global probe: a loopback device needs no
    /// hardware, so probing always yields one, idle and with the
    /// all-zero station address.
    pub fn probe_global() -> (r: Option<LoopbackNetDev>)
        ensures
            r is Some,
            r matches Some(d) ==> d.wf() && d@ =~= Seq::<Seq<u8>>::empty()
                && d.spec_queue_size() == PROBE_QUEUE_SIZE && d.spec_mac() =~= seq![
                0u8,
                0u8,
                0u8,
                0u8,
                0u8,
                0u8,
            ],
    {
        let mac: [u8; 6] = [0u8, 0u8, 0u8, 0u8, 0u8, 0u8];
        let d = LoopbackNetDev::new(mac, PROBE_QUEUE_SIZE);
        proof {
            assert(d.spec_mac() =~= seq![0u8, 0u8, 0u8, 0u8, 0u8, 0u8]);
        }
        Some(d)
    }
}

impl BaseDriverOps for LoopbackNetDev {
    open spec fn spec_device_type(&self) -> DeviceType {
        DeviceType::Net
    }

    open spec fn spec_device_name(&self) -> Seq<char> {
        "loopback"@
    }

    fn device_type(&self) -> (t: DeviceType) {
        DeviceType::Net
    }

    fn device_name(&self) -> (n: &'static str) {
        "loopback"
    }
}

} // verus!
