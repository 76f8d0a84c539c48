//! A RAM disk: a block driver that stores its blocks in a vector.
//!
//! This is the one block driver that needs no hardware, so its global
//! probe always finds it. All operations are total: an out-of-range
//! block index or a buffer that is not exactly one block long is
//! rejected with `InvalidParam`, never a panic.

use vstd::prelude::*;

use crate::base::BaseDriverOps;
use crate::types::{DevError, DevResult, DeviceType};

verus! {

/// Size of one block, in bytes.
pub const BLOCK_SIZE: usize = 512;

/// Largest backing-store size (in bytes) that `RamDisk::new` accepts.
pub const MAX_SIZE_HINT: usize = 0x0100_0000;

/// Backing-store size allocated when the driver registry probes for a
/// RAM disk.
pub const PROBE_SIZE_HINT: usize = 0x8000;

/// A block device backed by plain memory.
pub struct RamDisk {
    blocks: usize,
    data: Vec<u8>,
}

impl View for RamDisk {
    type V = Seq<u8>;

    /// The abstract value of a RAM disk is its byte contents.
    closed spec fn view(&self) -> Seq<u8> {
        self.data@
    }
}

impl RamDisk {
    /// Number of blocks, as a spec-level value.
    pub closed spec fn spec_num_blocks(&self) -> usize {
        self.blocks
    }

    /// The backing store holds exactly `spec_num_blocks` whole blocks.
    pub open spec fn wf(&self) -> bool {
        self@.len() == self.spec_num_blocks() * BLOCK_SIZE
    }

    /// Creates a zero-filled RAM disk of at least `size_hint` bytes,
    /// rounded up to a whole number of blocks.
    pub fn new(size_hint: usize) -> (r: RamDisk)
        requires
            size_hint <= MAX_SIZE_HINT,
        ensures
            r.wf(),
            r.spec_num_blocks() == (size_hint + BLOCK_SIZE - 1) as int / BLOCK_SIZE as int,
            forall|j: int| 0 <= j < r@.len() ==> r@[j] == 0u8,
    {
        let blocks: usize = (size_hint + (BLOCK_SIZE - 1)) / BLOCK_SIZE;
        assert(blocks * BLOCK_SIZE <= MAX_SIZE_HINT + BLOCK_SIZE) by (nonlinear_arith)
            requires
                blocks == (size_hint + BLOCK_SIZE - 1) as int / BLOCK_SIZE as int,
                size_hint <= MAX_SIZE_HINT,
                BLOCK_SIZE == 512,
        ;
        let total: usize = blocks * BLOCK_SIZE;
        let mut data: Vec<u8> = Vec::new();
        let mut i: usize = 0;
        while i < total
            invariant
                i <= total,
                data@.len() == i,
                forall|j: int| 0 <= j < i ==> data@[j] == 0u8,
            decreases total - i,
        {
            data.push(0u8);
            i = i + 1;
        }
        RamDisk { blocks, data }
    }

    /// Returns how many blocks this device stores.
    pub fn num_blocks(&self) -> (n: u64)
        requires
            self.wf(),
        ensures
            n == self.spec_num_blocks(),
    {
        proof {
            assert(self.blocks <= self.blocks * BLOCK_SIZE) by (nonlinear_arith)
                requires
                    BLOCK_SIZE >= 1,
                    self.blocks >= 0,
            ;
        }
        self.blocks as u64
    }

    /// Returns the size of one block, in bytes.
    pub fn block_size(&self) -> (n: usize)
        ensures
            n == BLOCK_SIZE,
    {
        BLOCK_SIZE
    }

    /// Reads block `block_id` into `buf`, which must be exactly one
    /// block long; the device itself is unchanged.
    pub fn read_block(&mut self, block_id: u64, buf: &mut Vec<u8>) -> (r: DevResult)
        requires
            old(self).wf(),
        ensures
            *final(self) == *old(self),
            r is Ok <==> (block_id < old(self).spec_num_blocks() && old(buf)@.len()
                == BLOCK_SIZE),
            r is Ok ==> final(buf)@ == old(self)@.subrange(
                block_id as int * BLOCK_SIZE as int,
                block_id as int * BLOCK_SIZE as int + BLOCK_SIZE as int,
            ),
            r is Err ==> r == DevResult::Err(DevError::InvalidParam) && final(buf)@ == old(buf)@,
    {
        if !(block_id < self.blocks as u64 && buf.len() == BLOCK_SIZE) {
            return Err(DevError::InvalidParam);
        }
        let n: usize = self.data.len();
        proof {
            assert(block_id as int * BLOCK_SIZE as int + BLOCK_SIZE as int <= n)
                by (nonlinear_arith)
                requires
                    block_id < self.spec_num_blocks(),
                    n == self.spec_num_blocks() * BLOCK_SIZE,
            ;
        }
        let start: usize = (block_id as usize) * BLOCK_SIZE;
        let mut i: usize = 0;
        while i < BLOCK_SIZE
            invariant
                i <= BLOCK_SIZE,
                start == block_id as int * BLOCK_SIZE as int,
                start + BLOCK_SIZE <= self.data@.len(),
                buf@.len() == BLOCK_SIZE,
                forall|j: int| 0 <= j < i ==> buf@[j] == self.data@[start + j],
            decreases BLOCK_SIZE - i,
        {
            let b: u8 = self.data[start + i];
            buf[i] = b;
            i = i + 1;
        }
        proof {
            assert(buf@ =~= self@.subrange(
                block_id as int * BLOCK_SIZE as int,
                block_id as int * BLOCK_SIZE as int + BLOCK_SIZE as int,
            ));
        }
        Ok(())
    }

    /// Writes `data`, which must be exactly one block long, to block
    /// `block_id`; all other bytes are unchanged.
    pub fn write_block(&mut self, block_id: u64, data: &Vec<u8>) -> (r: DevResult)
        requires
            old(self).wf(),
        ensures
            final(self).wf(),
            final(self).spec_num_blocks() == old(self).spec_num_blocks(),
            r is Ok <==> (block_id < old(self).spec_num_blocks() && data@.len() == BLOCK_SIZE),
            r is Ok ==> final(self)@.len() == old(self)@.len() && forall|j: int|
                0 <= j < old(self)@.len() ==> final(self)@[j] == (if block_id as int
                    * BLOCK_SIZE as int <= j < block_id as int * BLOCK_SIZE as int
                    + BLOCK_SIZE as int {
                    data@[j - block_id as int * BLOCK_SIZE as int]
                } else {
                    old(self)@[j]
                }),
            r is Err ==> r == DevResult::Err(DevError::InvalidParam) && *final(self) == *old(self),
    {
        if !(block_id < self.blocks as u64 && data.len() == BLOCK_SIZE) {
            return Err(DevError::InvalidParam);
        }
        let n: usize = self.data.len();
        proof {
            assert(block_id as int * BLOCK_SIZE as int + BLOCK_SIZE as int <= n)
                by (nonlinear_arith)
                requires
                    block_id < self.spec_num_blocks(),
                    n == self.spec_num_blocks() * BLOCK_SIZE,
            ;
        }
        let start: usize = (block_id as usize) * BLOCK_SIZE;
        let ghost orig = self.data@;
        let mut i: usize = 0;
        while i < BLOCK_SIZE
            invariant
                i <= BLOCK_SIZE,
                start == block_id as int * BLOCK_SIZE as int,
                start + BLOCK_SIZE <= self.data@.len(),
                data@.len() == BLOCK_SIZE,
                self.data@.len() == orig.len(),
                self.blocks == old(self).spec_num_blocks(),
                orig == old(self)@,
                forall|j: int| 0 <= j < orig.len() ==> self.data@[j] == (if start <= j < start
                    + i {
                    data@[j - start]
                } else {
                    orig[j]
                }),
            decreases BLOCK_SIZE - i,
        {
            let b: u8 = data[i];
            self.data[start + i] = b;
            i = i + 1;
        }
        Ok(())
    }

    /// Flushing is a no-op for memory-backed storage and always succeeds.
    pub fn flush(&mut self) -> (r: DevResult)
        ensures
            r is Ok,
            *final(self) == *old(self),
    {
        Ok(())
    }

    /// The driver registry's global probe: a RAM disk needs no hardware,
    /// so probing always yields one, zero-filled and of the default size.
    pub fn probe_global() -> (r: Option<RamDisk>)
        ensures
            r is Some,
            r matches Some(d) ==> d.wf() && d.spec_num_blocks() == PROBE_SIZE_HINT as int
                / BLOCK_SIZE as int && (forall|j: int| 0 <= j < d@.len() ==> d@[j] == 0u8),
    {
        Some(RamDisk::new(PROBE_SIZE_HINT))
    }
}

impl BaseDriverOps for RamDisk {
    open spec fn spec_device_type(&self) -> DeviceType {
        DeviceType::Block
    }

    open spec fn spec_device_name(&self) -> Seq<char> {
        "ramdisk"@
    }

    fn device_type(&self) -> (t: DeviceType) {
        DeviceType::Block
    }

    fn device_name(&self) -> (n: &'static str) {
        "ramdisk"
    }
}

} // verus!
