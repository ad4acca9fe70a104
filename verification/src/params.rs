//! Derived scan geometry: raster format, line geometry and bit depth.
use vstd::prelude::*;

verus! {

/// The raster layout of the frame the device produces.
#[derive(Clone, Copy, Debug, PartialEq, Eq, Structural)]
pub enum FrameFormat {
    Gray,
    Rgb,
}

/// Geometry and depth of the scan the device will produce. Advisory before
/// a scan is started, authoritative afterwards.
#[derive(Clone, Copy, Debug, PartialEq, Eq, Structural)]
pub struct ScanParameters {
    /// Raster layout of the frame.
    pub format: FrameFormat,
    /// Pixels on one scan line.
    pub pixels_per_line: u32,
    /// Bytes the device occupies per line; may exceed the minimum the
    /// pixels need, because of device padding.
    pub bytes_per_line: u32,
    /// Number of scan lines.
    pub lines: u32,
    /// Bits per sample.
    pub depth: u32,
}

/// Samples per pixel of a raster format.
pub open spec fn channels_spec(f: FrameFormat) -> int {
    match f {
        FrameFormat::Gray => 1,
        FrameFormat::Rgb => 3,
    }
}

impl ScanParameters {
    /// The least number of bytes one line's pixels occupy, before any
    /// device padding.
    pub open spec fn min_row_bytes(&self) -> int {
        (self.pixels_per_line * channels_spec(self.format) * self.depth + 7) / 8
    }

    /// Well-formed geometry: a representable depth, at least one byte per
    /// line, and a stride no smaller than the bytes the pixels need.
    pub open spec fn well_formed(&self) -> bool {
        &&& 1 <= self.depth <= 16
        &&& 1 <= self.bytes_per_line
        &&& self.min_row_bytes() <= self.bytes_per_line
    }

    /// Returns the samples per pixel of this frame's format.
    pub fn channels(&self) -> (n: u32)
        ensures
            n == channels_spec(self.format),
    {
        match self.format {
            FrameFormat::Gray => 1,
            FrameFormat::Rgb => 3,
        }
    }

    /// Returns the least number of bytes one line's pixels occupy.
    pub fn min_row_bytes_exec(&self) -> (n: u64)
        requires
            self.depth <= 16,
        ensures
            n == self.min_row_bytes(),
    {
        let ch: u64 = self.channels() as u64;
        let ppl: u64 = self.pixels_per_line as u64;
        let d: u64 = self.depth as u64;
        proof {
            assert(ppl * ch <= 0xFFFF_FFFFu64 * 3) by (nonlinear_arith)
                requires
                    ppl <= 0xFFFF_FFFFu64,
                    ch <= 3,
            ;
            assert((ppl * ch) * d <= (0xFFFF_FFFFu64 * 3) * 16) by (nonlinear_arith)
                requires
                    ppl * ch <= 0xFFFF_FFFFu64 * 3,
                    d <= 16,
            ;
        }
        let bits: u64 = ppl * ch * d;
        (bits + 7) / 8
    }

    /// Returns whether the geometry is well formed.
    pub fn check_well_formed(&self) -> (b: bool)
        ensures
            b == self.well_formed(),
    {
        1 <= self.depth && self.depth <= 16 && 1 <= self.bytes_per_line
            && self.min_row_bytes_exec() <= self.bytes_per_line as u64
    }
}

} // verus!
