//! Lane-batched kernels on raw byte buffers. Each greyscale kernel walks the
//! input a fixed batch of pixels at a time, de-interleaves the batch into
//! red, green and blue lane groups, applies one per-lane operation, and
//! stores the batch contiguously; pixels past the last full batch are
//! processed with the scalar oracle. The per-lane arithmetic — not any
//! particular instruction selection — is the portable contract, and the
//! bias of each approximate kernel against the oracle is proved below.

use vstd::prelude::*;
use crate::buffer::{grey_pixel, grey_biased_pixel, dim_byte, pixel_sum};
use crate::naive::rgb_restrict_seq;

verus! {

/// Scalar greyscale on raw interleaved bytes: the oracle itself, on the
/// buffer-to-buffer calling convention the batched kernels use.
pub fn greyscale(buf: &Vec<u8>, out: &mut Vec<u8>)
    requires
        buf@.len() % 3 == 0,
        old(out)@.len() * 3 == buf@.len(),
    ensures
        final(out)@.len() == old(out)@.len(),
        forall|i: int| 0 <= i < final(out)@.len() ==> final(out)@[i] == grey_pixel(buf@, i),
{
    let buf_len = buf.len();
    let k = out.len();
    let mut p: usize = 0;
    while p < k
        invariant
            buf@.len() == 3 * k,
            buf@.len() == buf_len,
            out@.len() == k,
            p <= k,
            forall|i: int| 0 <= i < p ==> out@[i] == grey_pixel(buf@, i),
        decreases k - p,
    {
        let sum: u16 = buf[3 * p] as u16 + buf[3 * p + 1] as u16 + buf[3 * p + 2] as u16;
        out[p] = (sum / 3) as u8;
        p += 1;
    }
}

/// The biased scalar variant: each channel divided by 3 on its own before the
/// sum, so up to two intensity levels are lost to the early truncations (see
/// `lemma_biased_pixel_bias`). Kept under its own name, beside the oracle,
/// never in place of it.
pub fn greyscale_biased(buf: &Vec<u8>, out: &mut Vec<u8>)
    requires
        buf@.len() % 3 == 0,
        old(out)@.len() * 3 == buf@.len(),
    ensures
        final(out)@.len() == old(out)@.len(),
        forall|i: int| 0 <= i < final(out)@.len() ==> final(out)@[i] == grey_biased_pixel(buf@, i),
{
    let buf_len = buf.len();
    let k = out.len();
    let mut p: usize = 0;
    while p < k
        invariant
            buf@.len() == 3 * k,
            buf@.len() == buf_len,
            out@.len() == k,
            p <= k,
            forall|i: int| 0 <= i < p ==> out@[i] == grey_biased_pixel(buf@, i),
        decreases k - p,
    {
        out[p] = buf[3 * p] / 3 + buf[3 * p + 1] / 3 + buf[3 * p + 2] / 3;
        p += 1;
    }
}

/// The biased variant sits at or below the oracle at every pixel, by at most
/// 2 intensity levels: each of the three early truncations loses strictly
/// less than one level.
pub proof fn lemma_biased_pixel_bias(s: Seq<u8>, i: int)
    requires
        0 <= i,
        3 * i + 2 < s.len(),
    ensures
        0 <= grey_pixel(s, i) - grey_biased_pixel(s, i) <= 2,
{
    let r = s[3 * i] as int;
    let g = s[3 * i + 1] as int;
    let b = s[3 * i + 2] as int;
    let sum = r + g + b;
    assert(3 * (sum / 3) <= sum < 3 * (sum / 3) + 3);
    assert(3 * (r / 3) <= r < 3 * (r / 3) + 3);
    assert(3 * (g / 3) <= g < 3 * (g / 3) + 3);
    assert(3 * (b / 3) <= b < 3 * (b / 3) + 3);
}

/// One lane of the width-4 batch: 33/100 of the pixel's channel sum,
/// truncated once — the fixed-point rendering of a 0.33 weight applied to
/// each of the three gathered lane groups and accumulated before the store.
pub open spec fn vec4_pixel(s: Seq<u8>, i: int) -> u8 {
    (33 * pixel_sum(s, i) / 100) as u8
}

/// One lane of the width-8 batch: each channel right-shifted by 2 (a
/// truncating division by 4 in place of 3), the three shifted lanes summed.
/// Faster than the oracle and systematically below it; the divergence is
/// deliberate and bounded by `lemma_simd8_greyscale_bias`.
pub open spec fn vec8_pixel(s: Seq<u8>, i: int) -> u8 {
    (s[3 * i] as int / 4 + s[3 * i + 1] as int / 4 + s[3 * i + 2] as int / 4) as u8
}

/// Width-4 lane-batched greyscale. Four pixels per iteration: gather the four
/// red, green and blue bytes into lane groups, weight each lane by the
/// fixed-point 33/100 of the channel sum, store four output bytes. Trailing
/// pixels that do not fill a batch take the scalar oracle.
pub fn simd4_greyscale(buf: &Vec<u8>, out: &mut Vec<u8>)
    requires
        buf@.len() % 3 == 0,
        old(out)@.len() * 3 == buf@.len(),
    ensures
        final(out)@.len() == old(out)@.len(),
        forall|i: int| 0 <= i < 4 * (old(out)@.len() as int / 4)
            ==> final(out)@[i] == vec4_pixel(buf@, i),
        forall|i: int| 4 * (old(out)@.len() as int / 4) <= i < old(out)@.len()
            ==> final(out)@[i] == grey_pixel(buf@, i),
{
    let buf_len = buf.len();
    let k = out.len();
    let batches = k / 4;
    let mut i: usize = 0;
    while i < batches
        invariant
            buf@.len() == 3 * k,
            buf@.len() == buf_len,
            out@.len() == k,
            batches == k / 4,
            i <= batches,
            forall|q: int| 0 <= q < 4 * i ==> out@[q] == vec4_pixel(buf@, q),
        decreases batches - i,
    {
        let mut j: usize = 0;
        while j < 4
            invariant
                buf@.len() == 3 * k,
                buf@.len() == buf_len,
                out@.len() == k,
                batches == k / 4,
                i < batches,
                j <= 4,
                forall|q: int| 0 <= q < 4 * i + j ==> out@[q] == vec4_pixel(buf@, q),
            decreases 4 - j,
        {
            let p = 4 * i + j;
            let sum: u16 = buf[3 * p] as u16 + buf[3 * p + 1] as u16 + buf[3 * p + 2] as u16;
            out[p] = ((33 * sum) / 100) as u8;
            j += 1;
        }
        i += 1;
    }
    let mut p: usize = batches * 4;
    while p < k
        invariant
            buf@.len() == 3 * k,
            buf@.len() == buf_len,
            out@.len() == k,
            batches == k / 4,
            batches * 4 <= p <= k,
            forall|q: int| 0 <= q < 4 * batches ==> out@[q] == vec4_pixel(buf@, q),
            forall|q: int| 4 * batches <= q < p ==> out@[q] == grey_pixel(buf@, q),
        decreases k - p,
    {
        let sum: u16 = buf[3 * p] as u16 + buf[3 * p + 1] as u16 + buf[3 * p + 2] as u16;
        out[p] = (sum / 3) as u8;
        p += 1;
    }
}

/// Width-8 lane-batched greyscale. Eight pixels per iteration: gather the
/// eight bytes of each channel into lane groups, shift every lane right by 2,
/// sum the three shifted lane groups, store eight output bytes. Trailing
/// pixels that do not fill a batch take the scalar oracle.
pub fn simd8_greyscale(buf: &Vec<u8>, out: &mut Vec<u8>)
    requires
        buf@.len() % 3 == 0,
        old(out)@.len() * 3 == buf@.len(),
    ensures
        final(out)@.len() == old(out)@.len(),
        forall|i: int| 0 <= i < 8 * (old(out)@.len() as int / 8)
            ==> final(out)@[i] == vec8_pixel(buf@, i),
        forall|i: int| 8 * (old(out)@.len() as int / 8) <= i < old(out)@.len()
            ==> final(out)@[i] == grey_pixel(buf@, i),
{
    let buf_len = buf.len();
    let k = out.len();
    let batches = k / 8;
    let mut i: usize = 0;
    while i < batches
        invariant
            buf@.len() == 3 * k,
            buf@.len() == buf_len,
            out@.len() == k,
            batches == k / 8,
            i <= batches,
            forall|q: int| 0 <= q < 8 * i ==> out@[q] == vec8_pixel(buf@, q),
        decreases batches - i,
    {
        let mut j: usize = 0;
        while j < 8
            invariant
                buf@.len() == 3 * k,
                buf@.len() == buf_len,
                out@.len() == k,
                batches == k / 8,
                i < batches,
                j <= 8,
                forall|q: int| 0 <= q < 8 * i + j ==> out@[q] == vec8_pixel(buf@, q),
            decreases 8 - j,
        {
            let p = 8 * i + j;
            out[p] = buf[3 * p] / 4 + buf[3 * p + 1] / 4 + buf[3 * p + 2] / 4;
            j += 1;
        }
        i += 1;
    }
    let mut p: usize = batches * 8;
    while p < k
        invariant
            buf@.len() == 3 * k,
            buf@.len() == buf_len,
            out@.len() == k,
            batches == k / 8,
            batches * 8 <= p <= k,
            forall|q: int| 0 <= q < 8 * batches ==> out@[q] == vec8_pixel(buf@, q),
            forall|q: int| 8 * batches <= q < p ==> out@[q] == grey_pixel(buf@, q),
        decreases k - p,
    {
        let sum: u16 = buf[3 * p] as u16 + buf[3 * p + 1] as u16 + buf[3 * p + 2] as u16;
        out[p] = (sum / 3) as u8;
        p += 1;
    }
}

/// At one pixel, the width-8 lane arithmetic sits at or below the oracle by
/// at most `sum / 12 + 3`: dividing by 4 in place of 3 loses up to a twelfth
/// of the channel sum, and the three independent truncations lose up to 9/4
/// more. The gap peaks at 66, at a white pixel.
pub proof fn lemma_vec8_pixel_bias(s: Seq<u8>, i: int)
    requires
        0 <= i,
        3 * i + 2 < s.len(),
    ensures
        0 <= grey_pixel(s, i) - vec8_pixel(s, i) <= pixel_sum(s, i) / 12 + 3,
        grey_pixel(s, i) - vec8_pixel(s, i) <= 66,
{
    let r = s[3 * i] as int;
    let g = s[3 * i + 1] as int;
    let b = s[3 * i + 2] as int;
    let sum = r + g + b;
    assert(3 * (sum / 3) <= sum < 3 * (sum / 3) + 3);
    assert(12 * (sum / 12) <= sum < 12 * (sum / 12) + 12);
    assert(4 * (r / 4) <= r < 4 * (r / 4) + 4);
    assert(4 * (g / 4) <= g < 4 * (g / 4) + 4);
    assert(4 * (b / 4) <= b < 4 * (b / 4) + 4);
}

/// The width-8 greyscale law: on a buffer of whole batches, every output
/// pixel of the width-8 kernel is within the documented fixed bias of the
/// scalar oracle — never above it, at most `sum / 12 + 3` below it at a
/// channel sum of `sum`, so never more than 66 levels below it.
pub proof fn lemma_simd8_greyscale_bias(s: Seq<u8>)
    requires
        s.len() % 24 == 0,
    ensures
        forall|i: int| 0 <= i < s.len() / 3
            ==> 0 <= grey_pixel(s, i) - #[trigger] vec8_pixel(s, i) <= pixel_sum(s, i) / 12 + 3,
        forall|i: int| 0 <= i < s.len() / 3
            ==> grey_pixel(s, i) - #[trigger] vec8_pixel(s, i) <= 66,
{
    assert forall|i: int| 0 <= i < s.len() / 3
        implies 0 <= grey_pixel(s, i) - #[trigger] vec8_pixel(s, i) <= pixel_sum(s, i) / 12 + 3
            && grey_pixel(s, i) - vec8_pixel(s, i) <= 66 by {
        lemma_vec8_pixel_bias(s, i);
    }
}

/// At one pixel, the width-4 lane arithmetic sits at or below the oracle by
/// at most 3 intensity levels, and within one level wherever the channel sum
/// stays within 300 — the range on which the 33/100 weight has not yet
/// drifted a whole level away from a third.
pub proof fn lemma_vec4_pixel_bias(s: Seq<u8>, i: int)
    requires
        0 <= i,
        3 * i + 2 < s.len(),
    ensures
        0 <= grey_pixel(s, i) - vec4_pixel(s, i) <= 3,
        pixel_sum(s, i) <= 300 ==> grey_pixel(s, i) - vec4_pixel(s, i) <= 1,
{
    let sum = pixel_sum(s, i);
    assert(3 * (sum / 3) <= sum < 3 * (sum / 3) + 3);
    assert(100 * (33 * sum / 100) <= 33 * sum < 100 * (33 * sum / 100) + 100);
}

/// The width-4 greyscale law: on a buffer of whole batches the width-4 kernel
/// never exceeds the oracle and sits at most 3 levels below it; at every
/// pixel whose channel sum is within 300 it is within one intensity level of
/// the oracle.
pub proof fn lemma_simd4_greyscale_tolerance(s: Seq<u8>)
    requires
        s.len() % 12 == 0,
    ensures
        forall|i: int| 0 <= i < s.len() / 3
            ==> 0 <= grey_pixel(s, i) - #[trigger] vec4_pixel(s, i) <= 3,
        forall|i: int| 0 <= i < s.len() / 3 && pixel_sum(s, i) <= 300
            ==> 0 <= grey_pixel(s, i) - #[trigger] vec4_pixel(s, i) <= 1,
{
    assert forall|i: int| 0 <= i < s.len() / 3
        implies 0 <= grey_pixel(s, i) - #[trigger] vec4_pixel(s, i) <= 3 by {
        lemma_vec4_pixel_bias(s, i);
    }
    assert forall|i: int| 0 <= i < s.len() / 3 && pixel_sum(s, i) <= 300
        implies 0 <= grey_pixel(s, i) - #[trigger] vec4_pixel(s, i) <= 1 by {
        lemma_vec4_pixel_bias(s, i);
    }
}

/// Dim every byte by a truncating division with a runtime factor, into an
/// output buffer pre-sized to the input's length. A zero factor would divide
/// by zero; this raw kernel leaves that to its precondition — the recoverable
/// check lives at the call boundary, in `naive::dim`.
pub fn dim(bytes: &Vec<u8>, out: &mut Vec<u8>, factor: u8)
    requires
        factor > 0,
        old(out)@.len() == bytes@.len(),
    ensures
        final(out)@.len() == bytes@.len(),
        forall|i: int| 0 <= i < bytes@.len() ==> final(out)@[i] == dim_byte(bytes@[i], factor),
{
    let len = bytes.len();
    let mut n: usize = 0;
    while n < len
        invariant
            factor > 0,
            len == bytes@.len(),
            out@.len() == len,
            n <= len,
            forall|i: int| 0 <= i < n ==> out@[i] == dim_byte(bytes@[i], factor),
        decreases len - n,
    {
        out[n] = bytes[n] / factor;
        n += 1;
    }
}

/// Dim every byte by the constant factor 2.
pub fn dim2(bytes: &Vec<u8>, out: &mut Vec<u8>)
    requires
        old(out)@.len() == bytes@.len(),
    ensures
        final(out)@.len() == bytes@.len(),
        forall|i: int| 0 <= i < bytes@.len() ==> final(out)@[i] == dim_byte(bytes@[i], 2),
{
    let len = bytes.len();
    let mut n: usize = 0;
    while n < len
        invariant
            len == bytes@.len(),
            out@.len() == len,
            n <= len,
            forall|i: int| 0 <= i < n ==> out@[i] == dim_byte(bytes@[i], 2),
        decreases len - n,
    {
        out[n] = bytes[n] / 2;
        n += 1;
    }
}

/// Write the restriction of the input into the output: every byte whose
/// interleaved position falls on channel `index` becomes zero, every other
/// byte carries the input untouched. Output bytes past the input's length
/// are left as they were; an index of 3 or more selects no channel, so the
/// output becomes a plain copy of the input. The restriction depends on the
/// input alone, so writing it twice changes nothing the second time
/// (`naive::lemma_rgb_restrict_idempotent` gives the general law).
pub fn exclude(bytes: &Vec<u8>, out: &mut Vec<u8>, index: usize)
    requires
        old(out)@.len() >= bytes@.len(),
    ensures
        final(out)@.len() == old(out)@.len(),
        forall|i: int| 0 <= i < bytes@.len()
            ==> final(out)@[i] == rgb_restrict_seq(bytes@, index as int)[i],
        forall|i: int| bytes@.len() <= i < old(out)@.len() ==> final(out)@[i] == old(out)@[i],
{
    let len = bytes.len();
    let mut n: usize = 0;
    while n < len
        invariant
            len == bytes@.len(),
            out@.len() == old(out)@.len(),
            out@.len() >= len,
            n <= len,
            forall|i: int| 0 <= i < n
                ==> out@[i] == (if i % 3 == index { 0u8 } else { bytes@[i] }),
            forall|i: int| n <= i < out@.len() ==> out@[i] == old(out)@[i],
        decreases len - n,
    {
        if n % 3 == index {
            out[n] = 0;
        } else {
            out[n] = bytes[n];
        }
        n += 1;
    }
}

} // verus!
