//! Scalar reference transforms: per-pixel greyscale, dimming, channel
//! restriction and composition, operating byte by byte. These are the
//! correctness oracles for the lane-batched kernels.

use vstd::prelude::*;
use crate::buffer::{Error, Image, grey_pixel, dim_byte};

verus! {

/// Convert a 3-channel image to a single-channel greyscale image: each output
/// byte is the truncating mean `(R + G + B) / 3` of one pixel, summed in full
/// before the division, so no intermediate truncation biases the result.
pub fn greyscale(img: Image) -> (res: Result<Image, Error>)
    requires
        img.wf(),
        img.channels == 3,
    ensures
        res matches Ok(out) && {
            &&& out.wf()
            &&& out.width == img.width
            &&& out.height == img.height
            &&& out.channels == 1
            &&& forall|i: int| 0 <= i < img.pixel_count()
                    ==> out.bytes@[i] == grey_pixel(img.bytes@, i)
        },
{
    let k = img.bytes.len() / 3;
    let mut out: Vec<u8> = Vec::new();
    let mut n: usize = 0;
    while n < k
        invariant
            img.wf(),
            img.channels == 3,
            k == img.pixel_count(),
            img.bytes@.len() == 3 * k,
            img.bytes@.len() <= usize::MAX,
            n <= k,
            out@.len() == n,
            forall|i: int| 0 <= i < n ==> out@[i] == grey_pixel(img.bytes@, i),
        decreases k - n,
    {
        let sum: u16 = img.bytes[3 * n] as u16
            + img.bytes[3 * n + 1] as u16
            + img.bytes[3 * n + 2] as u16;
        out.push((sum / 3) as u8);
        n += 1;
    }
    Ok(Image { bytes: out, width: img.width, height: img.height, channels: 1 })
}

/// Dim every byte of the image by a truncating division with `factor`,
/// alpha included if present. A factor of zero would divide by zero: it is
/// rejected here, at the call boundary, before any kernel runs.
pub fn dim(img: Image, factor: u8) -> (res: Result<Image, Error>)
    requires
        img.wf(),
    ensures
        factor == 0 ==> (res matches Err(e) && e == Error::ZeroFactor),
        factor > 0 ==> (res matches Ok(out) && {
            &&& out.wf()
            &&& out.width == img.width
            &&& out.height == img.height
            &&& out.channels == img.channels
            &&& out.bytes@.len() == img.bytes@.len()
            &&& forall|i: int| 0 <= i < img.bytes@.len()
                    ==> out.bytes@[i] == dim_byte(img.bytes@[i], factor)
        }),
{
    if factor == 0 {
        return Err(Error::ZeroFactor);
    }
    let len = img.bytes.len();
    let mut out: Vec<u8> = Vec::new();
    let mut n: usize = 0;
    while n < len
        invariant
            factor > 0,
            len == img.bytes@.len(),
            n <= len,
            out@.len() == n,
            forall|i: int| 0 <= i < n ==> out@[i] == dim_byte(img.bytes@[i], factor),
        decreases len - n,
    {
        out.push(img.bytes[n] / factor);
        n += 1;
    }
    Ok(Image { bytes: out, width: img.width, height: img.height, channels: img.channels })
}

/// The interleaved channel index a selector letter names, or -1 where the
/// letter names none.
pub open spec fn channel_index(c: char) -> int {
    if c == 'R' {
        0
    } else if c == 'G' {
        1
    } else if c == 'B' {
        2
    } else {
        -1
    }
}

/// An interleaved 3-channel buffer with every byte of channel `idx` zeroed
/// and the other two channels untouched.
pub open spec fn rgb_restrict_seq(s: Seq<u8>, idx: int) -> Seq<u8> {
    Seq::new(s.len(), |n: int| if n % 3 == idx { 0u8 } else { s[n] })
}

/// Zero one named colour channel of an RGB image, directly on the interleaved
/// bytes; a selector outside R, G, B is refused.
pub fn rgb_restrict(img: Image, channel: char) -> (res: Result<Image, Error>)
    requires
        img.wf(),
        img.channels == 3,
    ensures
        channel_index(channel) < 0 ==> (res matches Err(e) && e == Error::InvalidChannel),
        channel_index(channel) >= 0 ==> (res matches Ok(out) && {
            &&& out.wf()
            &&& out.width == img.width
            &&& out.height == img.height
            &&& out.channels == 3
            &&& out.bytes@ == rgb_restrict_seq(img.bytes@, channel_index(channel))
        }),
{
    let index: usize = match channel {
        'R' => 0,
        'G' => 1,
        'B' => 2,
        _ => {
            return Err(Error::InvalidChannel);
        },
    };
    let len = img.bytes.len();
    let mut out: Vec<u8> = Vec::new();
    let mut n: usize = 0;
    while n < len
        invariant
            index == channel_index(channel),
            len == img.bytes@.len(),
            n <= len,
            out@.len() == n,
            forall|i: int| 0 <= i < n
                ==> out@[i] == (if i % 3 == index { 0u8 } else { img.bytes@[i] }),
        decreases len - n,
    {
        if n % 3 == index {
            out.push(0);
        } else {
            out.push(img.bytes[n]);
        }
        n += 1;
    }
    proof {
        assert(out@ =~= rgb_restrict_seq(img.bytes@, channel_index(channel)));
    }
    Ok(Image { bytes: out, width: img.width, height: img.height, channels: 3 })
}

/// Restricting the same channel twice yields the same bytes as restricting it
/// once: a byte already zeroed stays zero, every other byte is untouched both
/// times.
pub proof fn lemma_rgb_restrict_idempotent(s: Seq<u8>, idx: int)
    ensures
        rgb_restrict_seq(rgb_restrict_seq(s, idx), idx) == rgb_restrict_seq(s, idx),
{
    assert(rgb_restrict_seq(rgb_restrict_seq(s, idx), idx) =~= rgb_restrict_seq(s, idx));
}

/// What one pixel becomes when routed through CIE L*a*b* with its L component
/// zeroed: a function of the three sRGB bytes alone.
pub uninterp spec fn lab_l_zeroed(r: u8, g: u8, b: u8) -> (u8, u8, u8);

/// As `lab_l_zeroed`, with the a component zeroed.
pub uninterp spec fn lab_a_zeroed(r: u8, g: u8, b: u8) -> (u8, u8, u8);

/// As `lab_l_zeroed`, with the b component zeroed.
pub uninterp spec fn lab_b_zeroed(r: u8, g: u8, b: u8) -> (u8, u8, u8);

/// What one pixel becomes when routed through HSV with its hue zeroed.
pub uninterp spec fn hsv_h_zeroed(r: u8, g: u8, b: u8) -> (u8, u8, u8);

/// As `hsv_h_zeroed`, with the saturation zeroed. Without saturation only
/// the value remains, so the three channels of the result are equal.
pub uninterp spec fn hsv_s_zeroed(r: u8, g: u8, b: u8) -> (u8, u8, u8);

/// Relies on palette's sRGB-to-Lab round trip (`FromColor::from_color` with
/// `into_format` at both ends): a clamped, deterministic function of the
/// pixel bytes alone, here with L set to zero between the two conversions.
#[verifier::external_body]
fn lab_zero_l(r: u8, g: u8, b: u8) -> (res: (u8, u8, u8))
    ensures
        res == lab_l_zeroed(r, g, b),
{
    let rgb: palette::Srgb = palette::Srgb::from_components((r, g, b)).into_format();
    let mut c: palette::Lab = palette::FromColor::from_color(rgb);
    c.l = Default::default();
    let out: palette::Srgb = palette::FromColor::from_color(c);
    out.into_format().into_components()
}

/// Relies on palette's sRGB-to-Lab round trip, with a set to zero.
#[verifier::external_body]
fn lab_zero_a(r: u8, g: u8, b: u8) -> (res: (u8, u8, u8))
    ensures
        res == lab_a_zeroed(r, g, b),
{
    let rgb: palette::Srgb = palette::Srgb::from_components((r, g, b)).into_format();
    let mut c: palette::Lab = palette::FromColor::from_color(rgb);
    c.a = Default::default();
    let out: palette::Srgb = palette::FromColor::from_color(c);
    out.into_format().into_components()
}

/// Relies on palette's sRGB-to-Lab round trip, with b set to zero.
#[verifier::external_body]
fn lab_zero_b(r: u8, g: u8, b: u8) -> (res: (u8, u8, u8))
    ensures
        res == lab_b_zeroed(r, g, b),
{
    let rgb: palette::Srgb = palette::Srgb::from_components((r, g, b)).into_format();
    let mut c: palette::Lab = palette::FromColor::from_color(rgb);
    c.b = Default::default();
    let out: palette::Srgb = palette::FromColor::from_color(c);
    out.into_format().into_components()
}

/// Relies on palette's sRGB-to-HSV round trip, with the hue set to zero
/// degrees (`RgbHue`'s default).
#[verifier::external_body]
fn hsv_zero_h(r: u8, g: u8, b: u8) -> (res: (u8, u8, u8))
    ensures
        res == hsv_h_zeroed(r, g, b),
{
    let rgb: palette::Srgb = palette::Srgb::from_components((r, g, b)).into_format();
    let mut c: palette::Hsv = palette::FromColor::from_color(rgb);
    c.hue = Default::default();
    let out: palette::Srgb = palette::FromColor::from_color(c);
    out.into_format().into_components()
}

/// Relies on palette's sRGB-to-HSV round trip, with the saturation set to
/// zero. The HSV-to-RGB formula then yields the value in all three channels,
/// so the result's channels are equal.
#[verifier::external_body]
fn hsv_zero_s(r: u8, g: u8, b: u8) -> (res: (u8, u8, u8))
    ensures
        res == hsv_s_zeroed(r, g, b),
        res.0 == res.1 && res.1 == res.2,
{
    let rgb: palette::Srgb = palette::Srgb::from_components((r, g, b)).into_format();
    let mut c: palette::Hsv = palette::FromColor::from_color(rgb);
    c.saturation = Default::default();
    let out: palette::Srgb = palette::FromColor::from_color(c);
    out.into_format().into_components()
}

/// Relies on palette's sRGB-to-HSV round trip, with the value set to zero.
/// The HSV-to-RGB formula scales every term by the value, so zero value is
/// exactly black for every input — the whole result in one clause, no name
/// needed.
#[verifier::external_body]
fn hsv_zero_v(r: u8, g: u8, b: u8) -> (res: (u8, u8, u8))
    ensures
        res == (0u8, 0u8, 0u8),
{
    let rgb: palette::Srgb = palette::Srgb::from_components((r, g, b)).into_format();
    let mut c: palette::Hsv = palette::FromColor::from_color(rgb);
    c.value = Default::default();
    let out: palette::Srgb = palette::FromColor::from_color(c);
    out.into_format().into_components()
}

/// A colour space through which a pixel is routed to zero one named
/// component. Which selector letters a space accepts, and what pixel its
/// round trip returns, are the space's own spec functions.
pub trait ColorChannel {
    /// The selector letters this space accepts, upper or lower case.
    spec fn valid_channel(c: char) -> bool;

    /// The pixel that the round trip returns with the component `c` names
    /// zeroed. Meaningful only for valid selectors.
    spec fn zeroed_pixel(r: u8, g: u8, b: u8, c: char) -> (u8, u8, u8);

    /// Convert one 8-bit sRGB pixel into this space, zero the component `c`
    /// names, and convert back. A letter that names no component is refused.
    fn zero_channel(r: u8, g: u8, b: u8, c: char) -> (res: Result<(u8, u8, u8), Error>)
        ensures
            Self::valid_channel(c) ==> (res matches Ok(px) && px == Self::zeroed_pixel(r, g, b, c)),
            !Self::valid_channel(c) ==> (res matches Err(e) && e == Error::InvalidChannel),
    ;
}

/// The CIE L*a*b* space, reached through the palette crate.
pub struct Lab;

impl ColorChannel for Lab {
    open spec fn valid_channel(c: char) -> bool {
        c == 'L' || c == 'l' || c == 'A' || c == 'a' || c == 'B' || c == 'b'
    }

    open spec fn zeroed_pixel(r: u8, g: u8, b: u8, c: char) -> (u8, u8, u8) {
        if c == 'L' || c == 'l' {
            lab_l_zeroed(r, g, b)
        } else if c == 'A' || c == 'a' {
            lab_a_zeroed(r, g, b)
        } else {
            lab_b_zeroed(r, g, b)
        }
    }

    fn zero_channel(r: u8, g: u8, b: u8, c: char) -> (res: Result<(u8, u8, u8), Error>) {
        match c {
            'L' | 'l' => Ok(lab_zero_l(r, g, b)),
            'A' | 'a' => Ok(lab_zero_a(r, g, b)),
            'B' | 'b' => Ok(lab_zero_b(r, g, b)),
            _ => Err(Error::InvalidChannel),
        }
    }
}

/// The HSV space, reached through the palette crate.
pub struct Hsv;

impl ColorChannel for Hsv {
    open spec fn valid_channel(c: char) -> bool {
        c == 'H' || c == 'h' || c == 'S' || c == 's' || c == 'V' || c == 'v'
    }

    open spec fn zeroed_pixel(r: u8, g: u8, b: u8, c: char) -> (u8, u8, u8) {
        if c == 'H' || c == 'h' {
            hsv_h_zeroed(r, g, b)
        } else if c == 'S' || c == 's' {
            hsv_s_zeroed(r, g, b)
        } else {
            (0u8, 0u8, 0u8)
        }
    }

    fn zero_channel(r: u8, g: u8, b: u8, c: char) -> (res: Result<(u8, u8, u8), Error>) {
        match c {
            'H' | 'h' => Ok(hsv_zero_h(r, g, b)),
            'S' | 's' => Ok(hsv_zero_s(r, g, b)),
            'V' | 'v' => Ok(hsv_zero_v(r, g, b)),
            _ => Err(Error::InvalidChannel),
        }
    }
}

/// Route every pixel of a 3-channel image through colour space `Space`, zero
/// the component `channel` names, and convert back to 8-bit sRGB. An unknown
/// selector is observed at the first pixel, so an image with no pixels comes
/// back with its shape whatever the selector says.
pub fn restrict<Space: ColorChannel>(img: Image, channel: char) -> (res: Result<Image, Error>)
    requires
        img.wf(),
        img.channels == 3,
    ensures
        Space::valid_channel(channel) ==> (res matches Ok(out) && {
            &&& out.wf()
            &&& out.width == img.width
            &&& out.height == img.height
            &&& out.channels == 3
            &&& forall|p: int| 0 <= p < img.pixel_count() ==> {
                    let px = #[trigger] Space::zeroed_pixel(
                        img.bytes@[3 * p],
                        img.bytes@[3 * p + 1],
                        img.bytes@[3 * p + 2],
                        channel,
                    );
                    &&& out.bytes@[3 * p] == px.0
                    &&& out.bytes@[3 * p + 1] == px.1
                    &&& out.bytes@[3 * p + 2] == px.2
                }
        }),
        !Space::valid_channel(channel) && img.pixel_count() > 0
            ==> (res matches Err(e) && e == Error::InvalidChannel),
        !Space::valid_channel(channel) && img.pixel_count() == 0
            ==> (res matches Ok(out) && {
                &&& out.wf()
                &&& out.width == img.width
                &&& out.height == img.height
                &&& out.channels == 3
            }),
{
    let len = img.bytes.len();
    let k = len / 3;
    let mut out: Vec<u8> = Vec::new();
    let mut p: usize = 0;
    while p < k
        invariant
            img.wf(),
            img.channels == 3,
            len == img.bytes@.len(),
            len == 3 * k,
            k == img.pixel_count(),
            p <= k,
            out@.len() == 3 * p,
            p > 0 ==> Space::valid_channel(channel),
            forall|i: int| 0 <= i < p ==> {
                let px = #[trigger] Space::zeroed_pixel(
                    img.bytes@[3 * i],
                    img.bytes@[3 * i + 1],
                    img.bytes@[3 * i + 2],
                    channel,
                );
                &&& out@[3 * i] == px.0
                &&& out@[3 * i + 1] == px.1
                &&& out@[3 * i + 2] == px.2
            },
        decreases k - p,
    {
        match Space::zero_channel(img.bytes[3 * p], img.bytes[3 * p + 1], img.bytes[3 * p + 2], channel) {
            Ok(px) => {
                out.push(px.0);
                out.push(px.1);
                out.push(px.2);
            },
            Err(e) => {
                return Err(e);
            },
        }
        p += 1;
    }
    Ok(Image { bytes: out, width: img.width, height: img.height, channels: 3 })
}

/// One byte of the combined image: byte `n` belongs to the pixel in column
/// `(n / ch) % w`; columns left of the horizontal midpoint come from `a`,
/// columns at or right of it from `b`.
pub open spec fn combine_byte(a: Seq<u8>, b: Seq<u8>, w: int, ch: int, n: int) -> u8 {
    if (n / ch) % w < w / 2 {
        a[n]
    } else {
        b[n]
    }
}

/// The whole combined buffer, byte by byte.
pub open spec fn combine_seq(a: Seq<u8>, b: Seq<u8>, w: int, ch: int) -> Seq<u8> {
    Seq::new(a.len(), |n: int| combine_byte(a, b, w, ch, n))
}

/// Split two images of identical shape at the horizontal midpoint: the left
/// half of the output takes its pixels from `img`, the right half from
/// `img2`. Images whose shapes differ are refused.
pub fn combine(img: Image, img2: Image) -> (res: Result<Image, Error>)
    requires
        img.wf(),
        img2.wf(),
    ensures
        !(img.width == img2.width && img.height == img2.height && img.channels == img2.channels)
            ==> (res matches Err(e) && e == Error::SizeMismatch),
        (img.width == img2.width && img.height == img2.height && img.channels == img2.channels)
            ==> (res matches Ok(out) && {
                &&& out.wf()
                &&& out.width == img.width
                &&& out.height == img.height
                &&& out.channels == img.channels
                &&& out.bytes@ == combine_seq(img.bytes@, img2.bytes@, img.width as int, img.channels as int)
            }),
{
    if !(img.width == img2.width && img.height == img2.height && img.channels == img2.channels) {
        return Err(Error::SizeMismatch);
    }
    let len = img.bytes.len();
    let w = img.width as usize;
    let ch = img.channels as usize;
    proof {
        assert(len > 0 ==> img.width > 0) by (nonlinear_arith)
            requires len == img.width * img.height * img.channels,
        {}
    }
    let mut out: Vec<u8> = Vec::new();
    let mut n: usize = 0;
    while n < len
        invariant
            len == img.bytes@.len(),
            img2.bytes@.len() == len,
            len > 0 ==> w > 0,
            w == img.width,
            ch == img.channels,
            ch > 0,
            n <= len,
            out@.len() == n,
            forall|i: int| 0 <= i < n
                ==> out@[i] == combine_byte(img.bytes@, img2.bytes@, w as int, ch as int, i),
        decreases len - n,
    {
        let x = (n / ch) % w;
        if x < w / 2 {
            out.push(img.bytes[n]);
        } else {
            out.push(img2.bytes[n]);
        }
        n += 1;
    }
    proof {
        assert(out@ =~= combine_seq(img.bytes@, img2.bytes@, img.width as int, img.channels as int));
    }
    Ok(Image { bytes: out, width: img.width, height: img.height, channels: img.channels })
}

/// Combining an image with itself gives that image back: both halves draw the
/// same bytes.
pub proof fn lemma_combine_identical(a: Seq<u8>, w: int, ch: int)
    ensures
        combine_seq(a, a, w, ch) == a,
{
    assert(combine_seq(a, a, w, ch) =~= a);
}

/// Doubling with saturation at the byte's ceiling.
pub open spec fn sat_double(v: u8) -> u8 {
    if 2 * v > 255 {
        255u8
    } else {
        (2 * v) as u8
    }
}

/// The channel values of pixel `p` of `quarters`' output, as a function of
/// that pixel's position against the two midpoints: strictly right and below
/// both midlines the red channel is saturate-doubled and the green halved;
/// strictly right and above, all three colour channels take the pixel's
/// truncating mean; strictly left and below, red and blue swap; everywhere
/// else (the top-left quadrant and the two midlines) the alpha is quartered.
pub open spec fn quarters_pixel(s: Seq<u8>, w: int, h: int, p: int) -> (u8, u8, u8, u8) {
    let x = p % w;
    let y = p / w;
    let r = s[4 * p];
    let g = s[4 * p + 1];
    let b = s[4 * p + 2];
    let a = s[4 * p + 3];
    if x > w / 2 && y > h / 2 {
        (sat_double(r), (g as int / 2) as u8, b, a)
    } else if x > w / 2 && y < h / 2 {
        let avg = ((r + g + b) as int / 3) as u8;
        (avg, avg, avg, a)
    } else if x < w / 2 && y > h / 2 {
        (b, g, r, a)
    } else {
        (r, g, b, (a as int / 4) as u8)
    }
}

/// Apply a distinct effect to each spatial quadrant of an RGBA image,
/// partitioned at the horizontal and vertical midpoints.
pub fn quarters(img: Image) -> (out: Image)
    requires
        img.wf(),
        img.channels == 4,
    ensures
        out.wf(),
        out.width == img.width,
        out.height == img.height,
        out.channels == 4,
        forall|p: int| 0 <= p < img.pixel_count() ==> {
            let px = #[trigger] quarters_pixel(img.bytes@, img.width as int, img.height as int, p);
            &&& out.bytes@[4 * p] == px.0
            &&& out.bytes@[4 * p + 1] == px.1
            &&& out.bytes@[4 * p + 2] == px.2
            &&& out.bytes@[4 * p + 3] == px.3
        },
{
    let len = img.bytes.len();
    let k = len / 4;
    let w = img.width as usize;
    let h = img.height as usize;
    proof {
        assert(len > 0 ==> img.width > 0) by (nonlinear_arith)
            requires len == img.width * img.height * img.channels,
        {}
    }
    let mut out: Vec<u8> = Vec::new();
    let mut p: usize = 0;
    while p < k
        invariant
            img.wf(),
            img.channels == 4,
            len == img.bytes@.len(),
            len <= usize::MAX,
            len == 4 * k,
            k == img.pixel_count(),
            k > 0 ==> w > 0,
            w == img.width,
            h == img.height,
            p <= k,
            out@.len() == 4 * p,
            forall|i: int| 0 <= i < p ==> {
                let px = #[trigger] quarters_pixel(img.bytes@, w as int, h as int, i);
                &&& out@[4 * i] == px.0
                &&& out@[4 * i + 1] == px.1
                &&& out@[4 * i + 2] == px.2
                &&& out@[4 * i + 3] == px.3
            },
        decreases k - p,
    {
        let x = p % w;
        let y = p / w;
        let r = img.bytes[4 * p];
        let g = img.bytes[4 * p + 1];
        let b = img.bytes[4 * p + 2];
        let a = img.bytes[4 * p + 3];
        if x > w / 2 && y > h / 2 {
            let doubled = if r > 127 { 255 } else { r * 2 };
            out.push(doubled);
            out.push(g / 2);
            out.push(b);
            out.push(a);
        } else if x > w / 2 && y < h / 2 {
            let sum: u16 = r as u16 + g as u16 + b as u16;
            let avg = (sum / 3) as u8;
            out.push(avg);
            out.push(avg);
            out.push(avg);
            out.push(a);
        } else if x < w / 2 && y > h / 2 {
            out.push(b);
            out.push(g);
            out.push(r);
            out.push(a);
        } else {
            out.push(r);
            out.push(g);
            out.push(b);
            out.push(a / 4);
        }
        p += 1;
    }
    Image { bytes: out, width: img.width, height: img.height, channels: 4 }
}

} // verus!
