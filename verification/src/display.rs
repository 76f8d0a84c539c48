//! A memory framebuffer display device.
//!
//! The framebuffer lives in plain memory, four bytes per pixel. The
//! driver needs no hardware, so the registry's global probe always
//! yields one.

use vstd::prelude::*;

use crate::base::BaseDriverOps;
use crate::types::{DevResult, DeviceType};

verus! {

/// Bytes per pixel of the framebuffer format.
pub const BYTES_PER_PIXEL: usize = 4;

/// Largest width or height (in pixels) that `RamFbDev::new` accepts.
pub const MAX_RESOLUTION: usize = 4096;

/// Width (in pixels) of the device that the registry probe yields.
pub const PROBE_WIDTH: u32 = 640;

/// Height (in pixels) of the device that the registry probe yields.
pub const PROBE_HEIGHT: u32 = 480;

/// Graphics mode reported by a display device.
#[derive(Clone, Copy, Debug, PartialEq, Eq, Structural)]
pub struct DisplayInfo {
    /// Visible width, in pixels.
    pub width: u32,
    /// Visible height, in pixels.
    pub height: u32,
    /// Size of the framebuffer, in bytes.
    pub fb_size: usize,
}

/// A display device whose framebuffer is plain memory.
pub struct RamFbDev {
    info: DisplayInfo,
    fb: Vec<u8>,
}

impl View for RamFbDev {
    type V = Seq<u8>;

    /// The abstract value of the device is its framebuffer contents.
    closed spec fn view(&self) -> Seq<u8> {
        self.fb@
    }
}

impl RamFbDev {
    /// The graphics mode, as a spec-level value.
    pub closed spec fn spec_info(&self) -> DisplayInfo {
        self.info
    }

    /// The framebuffer is as large as the mode announces.
    pub open spec fn wf(&self) -> bool {
        &&& self@.len() == self.spec_info().fb_size
        &&& self.spec_info().fb_size == self.spec_info().width * self.spec_info().height
            * BYTES_PER_PIXEL
    }

    /// Creates a framebuffer device of the given mode, cleared to zero.
    pub fn new(width: u32, height: u32) -> (r: RamFbDev)
        requires
            width <= MAX_RESOLUTION,
            height <= MAX_RESOLUTION,
        ensures
            r.wf(),
            r.spec_info().width == width,
            r.spec_info().height == height,
            forall|j: int| 0 <= j < r@.len() ==> r@[j] == 0u8,
    {
        assert((width * height) * BYTES_PER_PIXEL <= MAX_RESOLUTION * MAX_RESOLUTION
            * BYTES_PER_PIXEL) by (nonlinear_arith)
            requires
                width <= MAX_RESOLUTION,
                height <= MAX_RESOLUTION,
                BYTES_PER_PIXEL >= 1,
        ;
        let fb_size: usize = ((width as usize) * (height as usize)) * BYTES_PER_PIXEL;
        let mut fb: Vec<u8> = Vec::new();
        let mut i: usize = 0;
        while i < fb_size
            invariant
                i <= fb_size,
                fb@.len() == i,
                forall|j: int| 0 <= j < i ==> fb@[j] == 0u8,
            decreases fb_size - i,
        {
            fb.push(0u8);
            i = i + 1;
        }
        let info = DisplayInfo { width, height, fb_size };
        proof {
            assert(width * height * BYTES_PER_PIXEL == (width * height) * BYTES_PER_PIXEL)
                by (nonlinear_arith);
        }
        RamFbDev { info, fb }
    }

    /// Returns the graphics mode.
    pub fn info(&self) -> (i: DisplayInfo)
        ensures
            i == self.spec_info(),
    {
        self.info
    }

    /// Returns the framebuffer handle.
    pub fn fb(&self) -> (f: &Vec<u8>)
        ensures
            f@ == self@,
    {
        &self.fb
    }

    /// Writes one byte of the framebuffer.
    pub fn write_fb_byte(&mut self, offset: usize, value: u8) -> (r: DevResult)
        requires
            old(self).wf(),
        ensures
            final(self).wf(),
            final(self).spec_info() == old(self).spec_info(),
            r is Ok <==> offset < old(self)@.len(),
            r is Ok ==> final(self)@ == old(self)@.update(offset as int, value),
            r is Err ==> r == DevResult::Err(crate::types::DevError::InvalidParam) && final(self)@ == old(self)@,
    {
        if offset < self.fb.len() {
            self.fb[offset] = value;
            Ok(())
        } else {
            Err(crate::types::DevError::InvalidParam)
        }
    }

    /// Memory needs no explicit flush after drawing.
    pub fn need_flush(&self) -> (b: bool)
        ensures
            !b,
    {
        false
    }

    /// Flushing memory-backed output always succeeds and changes nothing.
    pub fn flush(&mut self) -> (r: DevResult)
        ensures
            r is Ok,
            *final(self) == *old(self),
    {
        Ok(())
    }

    /// The driver registry's global probe: a memory framebuffer needs no
    /// hardware, so probing always yields one in the default mode.
    pub fn probe_global() -> (r: Option<RamFbDev>)
        ensures
            r is Some,
            r matches Some(d) ==> d.wf() && d.spec_info().width == PROBE_WIDTH
                && d.spec_info().height == PROBE_HEIGHT && (forall|j: int|
                0 <= j < d@.len() ==> d@[j] == 0u8),
    {
        Some(RamFbDev::new(PROBE_WIDTH, PROBE_HEIGHT))
    }
}

impl BaseDriverOps for RamFbDev {
    open spec fn spec_device_type(&self) -> DeviceType {
        DeviceType::Display
    }

    open spec fn spec_device_name(&self) -> Seq<char> {
        "ramfb"@
    }

    fn device_type(&self) -> (t: DeviceType) {
        DeviceType::Display
    }

    fn device_name(&self) -> (n: &'static str) {
        "ramfb"
    }
}

} // verus!
