//! The in-memory image model: a flat byte sequence in row-major order with
//! no stride padding, its dimensions and channel count, and the pixel-level
//! spec functions that the kernel contracts share.

use vstd::prelude::*;

verus! {

/// Why an operation on an image was refused.
#[derive(Clone, Copy, Debug, PartialEq, Eq, Structural)]
pub enum Error {
    /// The byte buffer cannot be reshaped into the declared dimensions.
    BufferSize,
    /// A channel selector outside the supported set was given.
    InvalidChannel,
    /// Two images that must share their dimensions do not.
    SizeMismatch,
    /// A dimming factor of zero would divide by zero.
    ZeroFactor,
}

/// An 8-bit image: `channels` bytes per pixel (1 = greyscale, 3 = RGB,
/// 4 = RGBA), row-major, no padding. Buffers are caller-owned; the kernels
/// never retain one across calls.
#[derive(Clone, Debug)]
pub struct Image {
    pub bytes: Vec<u8>,
    pub width: u32,
    pub height: u32,
    pub channels: u8,
}

impl Image {
    /// The buffer holds exactly one byte per channel of each pixel, and the
    /// pixel format is one of the supported ones.
    pub open spec fn wf(self) -> bool {
        &&& self.bytes@.len() == self.width * self.height * self.channels
        &&& (self.channels == 1 || self.channels == 3 || self.channels == 4)
    }

    /// How many pixels the image holds.
    pub open spec fn pixel_count(self) -> int {
        self.width * self.height
    }

    /// Reshape a flat byte buffer into an image. A byte count that does not
    /// match the declared dimensions, or an unsupported channel count, is a
    /// recoverable error.
    pub fn new(bytes: Vec<u8>, width: u32, height: u32, channels: u8) -> (res: Result<Image, Error>)
        ensures
            res matches Ok(img) ==> {
                &&& img == (Image { bytes, width, height, channels })
                &&& img.wf()
            },
            res matches Err(e) ==> {
                &&& e == Error::BufferSize
                &&& !(Image { bytes, width, height, channels }).wf()
            },
    {
        let ok_channels = channels == 1 || channels == 3 || channels == 4;
        proof {
            assert((width as int) * (height as int) <= 0xffff_ffff * 0xffff_ffff)
                by (nonlinear_arith)
                requires width <= 0xffff_ffffu32, height <= 0xffff_ffffu32,
            {}
            assert((width as int) * (height as int) * (channels as int)
                <= 0xffff_ffff * 0xffff_ffff * 0xff)
                by (nonlinear_arith)
                requires
                    (width as int) * (height as int) <= 0xffff_ffff * 0xffff_ffff,
                    channels <= 0xffu8,
            {}
        }
        let expected = (width as u128) * (height as u128) * (channels as u128);
        if ok_channels && expected == bytes.len() as u128 {
            Ok(Image { bytes, width, height, channels })
        } else {
            Err(Error::BufferSize)
        }
    }

    /// The image widened to 4-channel RGBA: a greyscale image replicates
    /// each byte into the three colour channels, a 3-channel image gains an
    /// opaque alpha byte after each pixel, and a 4-channel image comes back
    /// unchanged. This is how images of mixed formats are brought to one
    /// shape before they are combined.
    pub fn to_rgba(self) -> (res: Image)
        requires
            self.wf(),
            4 * self.pixel_count() <= usize::MAX,
        ensures
            res.wf(),
            res.width == self.width,
            res.height == self.height,
            res.channels == 4,
            forall|p: int| 0 <= p < self.pixel_count() ==> {
                let px = #[trigger] rgba_pixel(self.bytes@, self.channels as int, p);
                &&& res.bytes@[4 * p] == px.0
                &&& res.bytes@[4 * p + 1] == px.1
                &&& res.bytes@[4 * p + 2] == px.2
                &&& res.bytes@[4 * p + 3] == px.3
            },
    {
        if self.channels == 4 {
            return self;
        }
        let ch = self.channels as usize;
        let len = self.bytes.len();
        let k = len / ch;
        proof {
            assert((len as int) / (self.channels as int) == self.width * self.height) by (nonlinear_arith)
                requires
                    len == self.width * self.height * self.channels,
                    self.channels >= 1,
            {}
        }
        let mut out: Vec<u8> = Vec::new();
        let mut p: usize = 0;
        while p < k
            invariant
                self.wf(),
                self.channels == 1 || self.channels == 3,
                ch == self.channels,
                len == self.bytes@.len(),
                len == k * ch,
                k == self.pixel_count(),
                p <= k,
                out@.len() == 4 * p,
                forall|i: int| 0 <= i < p ==> {
                    let px = #[trigger] rgba_pixel(self.bytes@, self.channels as int, i);
                    &&& out@[4 * i] == px.0
                    &&& out@[4 * i + 1] == px.1
                    &&& out@[4 * i + 2] == px.2
                    &&& out@[4 * i + 3] == px.3
                },
            decreases k - p,
        {
            if ch == 1 {
                let v = self.bytes[p];
                out.push(v);
                out.push(v);
                out.push(v);
                out.push(255);
            } else {
                out.push(self.bytes[3 * p]);
                out.push(self.bytes[3 * p + 1]);
                out.push(self.bytes[3 * p + 2]);
                out.push(255);
            }
            p += 1;
        }
        Image { bytes: out, width: self.width, height: self.height, channels: 4 }
    }

    /// The channel values of the pixel at column `x`, row `y`.
    pub fn get_pixel(&self, x: u32, y: u32) -> (px: Vec<u8>)
        requires
            self.wf(),
            x < self.width,
            y < self.height,
        ensures
            px@.len() == self.channels,
            forall|c: int| 0 <= c < self.channels
                ==> px@[c] == self.bytes@[(y * self.width + x) * self.channels + c],
    {
        let len = self.bytes.len();
        proof {
            assert(y * self.width + x < self.width * self.height)
                by (nonlinear_arith)
                requires x < self.width, y < self.height,
            {}
            assert((y * self.width + x) * self.channels + self.channels
                <= (self.width * self.height) * self.channels)
                by (nonlinear_arith)
                requires
                    y * self.width + x < self.width * self.height,
                    self.channels >= 1,
            {}
            assert(y * self.width + x <= (y * self.width + x) * self.channels)
                by (nonlinear_arith)
                requires self.channels >= 1, 0 <= y * self.width + x,
            {}
        }
        let base = (y as usize) * (self.width as usize) + (x as usize);
        let off = base * (self.channels as usize);
        let mut px: Vec<u8> = Vec::new();
        let mut c: usize = 0;
        while c < self.channels as usize
            invariant
                self.wf(),
                base == y * self.width + x,
                off == base * self.channels,
                c <= self.channels,
                off + self.channels <= self.bytes@.len(),
                self.bytes@.len() <= usize::MAX,
                px@.len() == c,
                forall|j: int| 0 <= j < c ==> px@[j] == self.bytes@[off + j],
            decreases self.channels - c,
        {
            px.push(self.bytes[off + c]);
            c += 1;
        }
        px
    }
}

/// The RGBA channel values of pixel `p` of a buffer with `ch` channels:
/// greyscale replicates its byte into all three colour channels, RGB gains
/// an opaque alpha byte, RGBA is itself.
pub open spec fn rgba_pixel(s: Seq<u8>, ch: int, p: int) -> (u8, u8, u8, u8) {
    if ch == 1 {
        (s[p], s[p], s[p], 255u8)
    } else if ch == 3 {
        (s[3 * p], s[3 * p + 1], s[3 * p + 2], 255u8)
    } else {
        (s[4 * p], s[4 * p + 1], s[4 * p + 2], s[4 * p + 3])
    }
}

/// The sum of the three channel values of pixel `i` of an interleaved
/// 3-channel buffer.
pub open spec fn pixel_sum(s: Seq<u8>, i: int) -> int {
    s[3 * i] + s[3 * i + 1] + s[3 * i + 2]
}

/// The greyscale oracle: the unsigned sum of the three channels of pixel `i`,
/// then one truncating division by 3. Every other greyscale variant is judged
/// against this value.
pub open spec fn grey_pixel(s: Seq<u8>, i: int) -> u8 {
    (pixel_sum(s, i) / 3) as u8
}

/// The biased scalar greyscale variant: each channel divided by 3 on its own,
/// the truncated quotients summed. Always at or below the oracle.
pub open spec fn grey_biased_pixel(s: Seq<u8>, i: int) -> u8 {
    (s[3 * i] as int / 3 + s[3 * i + 1] as int / 3 + s[3 * i + 2] as int / 3) as u8
}

/// One byte dimmed by a factor: truncating division.
pub open spec fn dim_byte(b: u8, f: u8) -> u8 {
    (b as int / f as int) as u8
}

} // verus!
