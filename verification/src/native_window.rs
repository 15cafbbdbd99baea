//! The geometry of a locked native window buffer: its size, its format, how many bytes it
//! spans and where each visible line lies within them.
use crate::hardware_buffer_format::HardwareBufferFormat;
use vstd::prelude::*;

verus! {

/// The description of a locked window buffer that the NDK fills in: the visible size in
/// pixels, the number of pixels per line in memory, and the raw pixel format.
#[derive(Copy, Clone, Debug, PartialEq, Eq, Structural)]
pub struct NativeWindowBuffer {
    pub width: i32,
    pub height: i32,
    pub stride: i32,
    pub format: i32,
}

impl NativeWindowBuffer {
    /// The pixel format of the buffer; its raw value is never negative.
    pub open spec fn spec_format(self) -> HardwareBufferFormat {
        HardwareBufferFormat::spec_from_code(self.format as u32)
    }

    /// The number of bytes that the buffer spans: `stride * height` pixels of the format's
    /// size, where the format has one.
    pub open spec fn spec_byte_len(self) -> Option<int> {
        match self.spec_format().spec_bytes_per_pixel() {
            Some(bpp) => Some(self.stride * self.height * bpp),
            None => None,
        }
    }

    /// The byte ranges `start..end` of the visible part of each line: line `i` starts at
    /// `i` times the bytes of a whole line and spans `width` pixels.
    pub open spec fn spec_lines(self) -> Option<Seq<(int, int)>> {
        match self.spec_format().spec_bytes_per_pixel() {
            Some(bpp) => Some(
                Seq::new(
                    self.height as nat,
                    |i: int| (i * (bpp * self.stride), i * (bpp * self.stride) + bpp * self.width),
                ),
            ),
            None => None,
        }
    }

    /// The number of pixels that are shown horizontally.
    pub fn width(&self) -> (r: usize)
        requires
            self.width >= 0,
        ensures
            r == self.width,
    {
        self.width as usize
    }

    /// The number of pixels that are shown vertically.
    pub fn height(&self) -> (r: usize)
        requires
            self.height >= 0,
        ensures
            r == self.height,
    {
        self.height as usize
    }

    /// The number of pixels that a line has in memory.
    pub fn stride(&self) -> (r: usize)
        requires
            self.stride >= 0,
        ensures
            r == self.stride,
    {
        self.stride as usize
    }

    /// The pixel format of the buffer.
    pub fn format(&self) -> (r: HardwareBufferFormat)
        requires
            self.format >= 0,
        ensures
            r == self.spec_format(),
    {
        HardwareBufferFormat::from_raw(self.format as u32)
    }

    /// The number of bytes that the buffer spans, or `None` where the format has no size per
    /// pixel.
    pub fn byte_len(&self) -> (r: Option<usize>)
        requires
            self.height >= 0,
            self.stride >= 0,
            self.format >= 0,
            self.stride * self.height <= usize::MAX,
            self.spec_byte_len() matches Some(n) ==> n <= usize::MAX,
        ensures
            r matches Some(n) ==> self.spec_byte_len() == Some(n as int),
            r is None ==> self.spec_byte_len() is None,
    {
        proof {
            lemma_product_bound(self.stride as int, self.height as int, 0);
        }
        let num_pixels = self.stride() * self.height();
        let bpp = match self.format().bytes_per_pixel() {
            Some(bpp) => bpp,
            None => return None,
        };
        proof {
            lemma_product_bound(self.stride as int, self.height as int, bpp as int);
        }
        Some(num_pixels * bpp)
    }

    /// The byte ranges of the visible part of each line, or `None` where the format has no
    /// size per pixel. A line in memory is never shorter than the visible part, and never empty.
    pub fn lines(&self) -> (r: Option<Vec<(usize, usize)>>)
        requires
            self.height >= 0,
            self.stride >= 0,
            self.format >= 0,
            self.width >= 0,
            self.width <= self.stride,
            self.spec_byte_len() matches Some(n) ==> n <= usize::MAX && self.stride > 0,
        ensures
            r is None ==> self.spec_lines() is None,
            r matches Some(v) ==> self.spec_lines() matches Some(lines) && v@.len() == lines.len()
                && forall|i: int|
                0 <= i < lines.len() ==> (#[trigger] v@[i]).0 == lines[i].0 && v@[i].1
                    == lines[i].1,
    {
        let bpp = match self.format().bytes_per_pixel() {
            Some(bpp) => bpp,
            None => return None,
        };
        let stride = self.stride();
        let height = self.height();
        let width = self.width();
        proof {
            lemma_product_bound(stride as int, height as int, bpp as int);
            assert(bpp * stride <= stride * height * bpp || height == 0) by (nonlinear_arith)
                requires
                    height >= 0,
                    bpp >= 0,
                    stride >= 0,
            ;
        }
        let ghost lines = self.spec_lines()->0;
        let mut v: Vec<(usize, usize)> = Vec::new();
        if height == 0 {
            assert(lines.len() == 0);
            return Some(v);
        }
        let scanline_bytes = bpp * stride;
        let width_bytes = bpp * width;
        assert(width_bytes <= scanline_bytes) by (nonlinear_arith)
            requires
                width_bytes == bpp * width,
                scanline_bytes == bpp * stride,
                width <= stride,
        ;
        let mut i: usize = 0;
        let mut start: usize = 0;
        while i < height
            invariant
                i <= height,
                height == self.height,
                lines == self.spec_lines()->0,
                lines.len() == height,
                scanline_bytes == bpp * self.stride,
                width_bytes == bpp * self.width,
                width_bytes <= scanline_bytes,
                scanline_bytes * height <= usize::MAX,
                self.spec_lines() == Some(
                    Seq::new(
                        self.height as nat,
                        |k: int| (k * scanline_bytes, k * scanline_bytes + width_bytes),
                    ),
                ),
                start == i * scanline_bytes,
                v@.len() == i,
                forall|k: int|
                    0 <= k < i ==> (#[trigger] v@[k]).0 == lines[k].0 && v@[k].1 == lines[k].1,
            decreases height - i,
        {
            proof {
                assert((i + 1) * scanline_bytes <= scanline_bytes * height) by (nonlinear_arith)
                    requires
                        i < height,
                        scanline_bytes >= 0,
                ;
                assert((i + 1) * scanline_bytes == i * scanline_bytes + scanline_bytes)
                    by (nonlinear_arith);
            }
            v.push((start, start + width_bytes));
            start = start + scanline_bytes;
            i = i + 1;
        }
        Some(v)
    }
}

/// A product of three non-negative factors bounds each partial product that stands for a
/// whole number of lines.
proof fn lemma_product_bound(stride: int, height: int, bpp: int)
    requires
        stride >= 0,
        height >= 0,
        bpp >= 0,
    ensures
        stride * height >= 0,
        stride * height * bpp >= 0,
        bpp * stride * height == stride * height * bpp,
{
    assert(stride * height >= 0) by (nonlinear_arith)
        requires
            stride >= 0,
            height >= 0,
    ;
    assert(stride * height * bpp >= 0) by (nonlinear_arith)
        requires
            stride * height >= 0,
            bpp >= 0,
    ;
    assert(bpp * stride * height == stride * height * bpp) by (nonlinear_arith);
}

/// The visible part of every line lies inside the buffer and after the lines before it: each
/// range starts no earlier than the previous one ends and ends within the bytes of the buffer,
/// where a line in memory is never shorter than its visible part.
pub proof fn lemma_lines_within_buffer(buffer: NativeWindowBuffer)
    requires
        buffer.height >= 0,
        buffer.stride >= 0,
        buffer.width >= 0,
        buffer.format >= 0,
        buffer.width <= buffer.stride,
        buffer.spec_lines() is Some,
    ensures
        buffer.spec_byte_len() is Some,
        forall|i: int|
            0 <= i < buffer.spec_lines()->0.len() ==> {
                let line = #[trigger] buffer.spec_lines()->0[i];
                &&& 0 <= line.0 <= line.1
                &&& line.1 <= buffer.spec_byte_len()->0
                &&& (i > 0 ==> buffer.spec_lines()->0[i - 1].1 <= line.0)
            },
{
    let bpp = buffer.spec_format().spec_bytes_per_pixel()->0 as int;
    let stride = buffer.stride as int;
    let width = buffer.width as int;
    let height = buffer.height as int;
    assert forall|i: int|
        0 <= i < buffer.spec_lines()->0.len() implies {
            let line = #[trigger] buffer.spec_lines()->0[i];
            &&& 0 <= line.0 <= line.1
            &&& line.1 <= buffer.spec_byte_len()->0
            &&& (i > 0 ==> buffer.spec_lines()->0[i - 1].1 <= line.0)
        } by {
        assert(0 <= i * (bpp * stride)) by (nonlinear_arith)
            requires
                0 <= i,
                0 <= bpp,
                0 <= stride,
        ;
        assert(0 <= bpp * width <= bpp * stride) by (nonlinear_arith)
            requires
                0 <= bpp,
                0 <= width <= stride,
        ;
        assert(i * (bpp * stride) + bpp * stride <= stride * height * bpp) by (nonlinear_arith)
            requires
                0 <= i < height,
                0 <= bpp,
                0 <= stride,
        ;
        if i > 0 {
            assert((i - 1) * (bpp * stride) + bpp * stride == i * (bpp * stride)) by (nonlinear_arith);
        }
    }
}

} // verus!
