//! Test-image generation: square RGB images filled with random bytes.

use vstd::prelude::*;
use crate::buffer::Image;

verus! {

/// Relies on rand::random, which draws a value from the thread-local
/// generator: nothing can be promised of a random result.
pub assume_specification<T>[ rand::random::<T> ]() -> (r: T)
    where
        rand::distributions::Standard: rand::distributions::Distribution<T>,
;

/// A square 3-channel image of side `sz`, each byte drawn from
/// `rand::random`. Only its shape is promised; the kernels proved over every
/// buffer hold of its contents whatever was drawn.
pub fn gen_image(sz: u32) -> (res: Image)
    requires
        sz * sz * 3 <= usize::MAX,
    ensures
        res.wf(),
        res.width == sz,
        res.height == sz,
        res.channels == 3,
{
    let n = (sz as usize) * (sz as usize) * 3;
    let mut bytes: Vec<u8> = Vec::new();
    let mut i: usize = 0;
    while i < n
        invariant
            bytes@.len() == i,
            i <= n,
        decreases n - i,
    {
        bytes.push(rand::random::<u8>());
        i += 1;
    }
    Image { bytes, width: sz, height: sz, channels: 3 }
}

} // verus!
