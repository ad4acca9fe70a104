//! Minimal raster container writer: one ASCII preamble encoding the
//! negotiated geometry and depth, then raw sample bytes in row-major order.
//! Device padding — the stride's excess over the bytes the pixels need —
//! is stripped while samples are written, so the emitted container holds no
//! padding even when the source rows do.
use vstd::prelude::*;

use crate::params::ScanParameters;

verus! {

/// The decimal digits of `n`, most significant first, as ASCII bytes.
pub open spec fn decimal_digits(n: int) -> Seq<u8>
    decreases n,
{
    if n < 10 {
        seq![(48 + if n >= 0 { n } else { 0 }) as u8]
    } else {
        decimal_digits(n / 10) + seq![(48 + n % 10) as u8]
    }
}

/// The container preamble for a `width` by `height` raster whose largest
/// sample value is `max_sample`: the bytes of
/// `"P6\n<width> <height>\n<max_sample>\n"`.
pub open spec fn header_bytes(width: int, height: int, max_sample: int) -> Seq<u8> {
    seq![80u8, 54u8, 10u8] + decimal_digits(width) + seq![32u8] + decimal_digits(height) + seq![
        10u8,
    ] + decimal_digits(max_sample) + seq![10u8]
}

/// The largest representable sample value for `depth` bits per sample.
pub open spec fn max_sample_spec(depth: u32) -> int {
    (1u32 << depth) - 1
}

/// The row offset after one more byte: positions cycle through a row of
/// `stride` bytes.
pub open spec fn next_pos(p: int, stride: int) -> int {
    if p + 1 == stride {
        0
    } else {
        p + 1
    }
}

/// The row offset after `n` more bytes, starting from offset `p`.
pub open spec fn advance_pos(p: int, n: int, stride: int) -> int
    decreases n,
{
    if n <= 0 {
        p
    } else {
        advance_pos(next_pos(p, stride), n - 1, stride)
    }
}

/// The bytes of `b` that survive padding removal when the first byte of
/// `b` sits at offset `start` of a row `stride` bytes long, of which only
/// the first `used` carry samples.
pub open spec fn kept_bytes(b: Seq<u8>, stride: int, used: int, start: int) -> Seq<u8>
    decreases b.len(),
{
    if b.len() == 0 {
        Seq::empty()
    } else {
        let rest = kept_bytes(b.drop_first(), stride, used, next_pos(start, stride));
        if start < used {
            seq![b[0]] + rest
        } else {
            rest
        }
    }
}

/// Accumulates a raster container: the preamble, then the sample bytes of
/// each row with the device's padding stripped.
#[derive(Debug)]
pub struct ImageSink {
    /// The emitted preamble.
    pub header: Vec<u8>,
    /// The emitted sample bytes, padding stripped.
    pub samples: Vec<u8>,
    /// Total input bytes handed to `write_samples`.
    pub received: u64,
    /// Bytes one source row occupies, device padding included.
    pub stride: usize,
    /// Bytes of one source row that carry samples.
    pub used: usize,
    /// Offset within the current source row of the next input byte.
    pub row_pos: usize,
    /// Pixels per row, for the preamble.
    pub width: u32,
    /// Number of rows, for the preamble.
    pub height: u32,
    /// Bits per sample, for the preamble's largest sample value.
    pub depth: u32,
    /// Whether the preamble was emitted.
    pub header_written: bool,
}

impl ImageSink {
    /// The sink invariant: a positive stride of which at most `stride`
    /// bytes are used, a row position inside the row, a representable
    /// depth, and a preamble that is exactly the container's, once written.
    pub open spec fn wf(&self) -> bool {
        &&& 1 <= self.stride
        &&& self.used <= self.stride
        &&& self.row_pos < self.stride
        &&& 1 <= self.depth <= 16
        &&& (self.header_written ==> self.header@ == header_bytes(
            self.width as int,
            self.height as int,
            max_sample_spec(self.depth),
        ))
        &&& (!self.header_written ==> self.header@ == Seq::<u8>::empty() && self.samples@
            == Seq::<u8>::empty() && self.received == 0)
    }

    /// Returns a sink for the negotiated geometry: rows of
    /// `bytes_per_line` bytes of which only the pixels' own bytes are
    /// forwarded, and a preamble derived from the actual negotiated depth.
    pub fn new(params: &ScanParameters) -> (s: ImageSink)
        requires
            params.well_formed(),
        ensures
            s.wf(),
            !s.header_written,
            s.samples@ == Seq::<u8>::empty(),
            s.received == 0,
            s.row_pos == 0,
            s.stride == params.bytes_per_line,
            s.used == params.min_row_bytes(),
            s.width == params.pixels_per_line,
            s.height == params.lines,
            s.depth == params.depth,
    {
        let used64: u64 = params.min_row_bytes_exec();
        ImageSink {
            header: Vec::new(),
            samples: Vec::new(),
            received: 0,
            stride: params.bytes_per_line as usize,
            used: used64 as usize,
            row_pos: 0,
            width: params.pixels_per_line,
            height: params.lines,
            depth: params.depth,
            header_written: false,
        }
    }

    /// Emits the container preamble, exactly once and before any sample
    /// bytes: `"P6\n<width> <height>\n<maxSample>\n"`, where the largest
    /// sample value is derived from the negotiated depth.
    pub fn write_header(&mut self)
        requires
            old(self).wf(),
            !old(self).header_written,
        ensures
            final(self).wf(),
            final(self).header_written,
            final(self).header@ == header_bytes(
                old(self).width as int,
                old(self).height as int,
                max_sample_spec(old(self).depth),
            ),
            *final(self) == (ImageSink {
                header: final(self).header,
                header_written: true,
                ..*old(self)
            }),
    {
        let mut header: Vec<u8> = Vec::new();
        header.push(80);
        header.push(54);
        header.push(10);
        push_decimal(&mut header, self.width);
        header.push(32);
        push_decimal(&mut header, self.height);
        header.push(10);
        let depth = self.depth;
        proof {
            assert((1u32 << depth) >= 1) by (bit_vector)
                requires
                    1 <= depth <= 16,
            ;
        }
        let max_sample: u32 = (1u32 << depth) - 1;
        push_decimal(&mut header, max_sample);
        header.push(10);
        proof {
            assert(header@ =~= header_bytes(
                self.width as int,
                self.height as int,
                max_sample_spec(self.depth),
            ));
        }
        self.header = header;
        self.header_written = true;
    }

    /// Appends raw samples in scan order, stripping each row's padding:
    /// of every `stride`-byte source row only the first `used` bytes are
    /// forwarded, whatever chunk boundaries the bytes arrive on.
    pub fn write_samples(&mut self, bytes: &Vec<u8>)
        requires
            old(self).wf(),
            old(self).header_written,
            old(self).received + bytes@.len() <= u64::MAX,
        ensures
            final(self).wf(),
            final(self).received == old(self).received + bytes@.len(),
            final(self).samples@ == old(self).samples@ + kept_bytes(
                bytes@,
                old(self).stride as int,
                old(self).used as int,
                old(self).row_pos as int,
            ),
            final(self).row_pos == advance_pos(
                old(self).row_pos as int,
                bytes@.len() as int,
                old(self).stride as int,
            ),
            *final(self) == (ImageSink {
                samples: final(self).samples,
                received: final(self).received,
                row_pos: final(self).row_pos,
                ..*old(self)
            }),
    {
        let ghost all = bytes@;
        let ghost start_samples = self.samples@;
        proof {
            assert(all.skip(0) =~= all);
        }
        let mut i: usize = 0;
        while i < bytes.len()
            invariant
                self.wf(),
                self.header_written,
                i <= all.len(),
                bytes@ == all,
                self.stride == old(self).stride,
                self.used == old(self).used,
                self.width == old(self).width,
                self.height == old(self).height,
                self.depth == old(self).depth,
                self.header == old(self).header,
                self.header_written == old(self).header_written,
                self.received == old(self).received + i,
                old(self).received + all.len() <= u64::MAX,
                start_samples == old(self).samples@,
                start_samples + kept_bytes(
                    all,
                    self.stride as int,
                    self.used as int,
                    old(self).row_pos as int,
                ) == self.samples@ + kept_bytes(
                    all.skip(i as int),
                    self.stride as int,
                    self.used as int,
                    self.row_pos as int,
                ),
                advance_pos(self.row_pos as int, all.len() - i, self.stride as int) == advance_pos(
                    old(self).row_pos as int,
                    all.len() as int,
                    self.stride as int,
                ),
            decreases all.len() - i,
        {
            proof {
                assert(all.skip(i as int)[0] == all[i as int]);
                assert(all.skip(i as int).drop_first() =~= all.skip(i as int + 1));
            }
            let b = bytes[i];
            if self.row_pos < self.used {
                self.samples.push(b);
            }
            self.received = self.received + 1;
            if self.row_pos + 1 == self.stride {
                self.row_pos = 0;
            } else {
                self.row_pos = self.row_pos + 1;
            }
            i = i + 1;
        }
        proof {
            assert(all.skip(all.len() as int) =~= Seq::<u8>::empty());
        }
    }

    /// Returns the emitted preamble.
    pub fn header(&self) -> (h: &Vec<u8>)
        ensures
            h@ == self.header@,
    {
        &self.header
    }

    /// Returns the emitted sample bytes, padding stripped.
    pub fn samples(&self) -> (s: &Vec<u8>)
        ensures
            s@ == self.samples@,
    {
        &self.samples
    }

    /// Returns the total input bytes handed to `write_samples`.
    pub fn received(&self) -> (n: u64)
        ensures
            n == self.received,
    {
        self.received
    }
}

/// Appends the decimal digits of `n`, most significant first.
fn push_decimal(out: &mut Vec<u8>, n: u32)
    ensures
        final(out)@ == old(out)@ + decimal_digits(n as int),
    decreases n,
{
    if n < 10 {
        out.push(48 + (n as u8));
    } else {
        push_decimal(out, n / 10);
        out.push(48 + ((n % 10) as u8));
    }
}

} // verus!
