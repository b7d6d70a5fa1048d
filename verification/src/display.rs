//! Painting spectrum rows into the bytes of an RGB24 texture: three bytes a
//! pixel, red then green then blue, `pitch` bytes from one line to the next.

use vstd::prelude::*;

verus! {

/// The colour of one pixel.
#[derive(Clone, Copy, Debug, PartialEq, Eq)]
pub struct Pixel {
    pub r: u8,
    pub g: u8,
    pub b: u8,
}

/// Byte `c` (0 red, 1 green, 2 blue) of the RGB24 encoding of `p`.
pub open spec fn channel(p: Pixel, c: int) -> u8 {
    if c == 0 {
        p.r
    } else if c == 1 {
        p.g
    } else {
        p.b
    }
}

/// The bytes of a pixel are its own components, red, green and blue, in
/// that order.
pub proof fn lemma_channels_are_components(p: Pixel)
    ensures
        channel(p, 0) == p.r,
        channel(p, 1) == p.g,
        channel(p, 2) == p.b,
{
}

/// Paints `colors` into line `y` of the texture `pixels`, pixel `x` taking
/// the three bytes from `y * pitch + 3 * x` on; every other byte stays. The
/// painted bytes must lie within `pixels`.
pub fn paint_row(pixels: &mut [u8], pitch: usize, y: usize, colors: &[Pixel])
    requires
        colors@.len() == 0 || y * pitch + 3 * colors@.len() <= old(pixels)@.len(),
    ensures
        final(pixels)@.len() == old(pixels)@.len(),
        forall|x: int, c: int|
            0 <= x < colors@.len() && 0 <= c < 3 ==> #[trigger] final(pixels)@[y * pitch + 3 * x + c]
                == channel(#[trigger] colors@[x], c),
        forall|x: int|
            0 <= x < colors@.len() ==> {
                &&& final(pixels)@[y * pitch + 3 * x] == (#[trigger] colors@[x]).r
                &&& final(pixels)@[y * pitch + 3 * x + 1] == colors@[x].g
                &&& final(pixels)@[y * pitch + 3 * x + 2] == colors@[x].b
            },
        forall|k: int|
            0 <= k < old(pixels)@.len() && !(y * pitch <= k < y * pitch + 3 * colors@.len())
                ==> #[trigger] final(pixels)@[k] == old(pixels)@[k],
{
    let n = colors.len();
    let len = pixels.len();
    if n == 0 {
        return;
    }
    let base = y * pitch;
    let mut x: usize = 0;
    while x < n
        invariant
            n == colors@.len(),
            n > 0,
            base == y * pitch,
            base + 3 * n <= pixels@.len(),
            len == pixels@.len(),
            pixels@.len() == old(pixels)@.len(),
            x <= n,
            forall|i: int, c: int|
                0 <= i < x && 0 <= c < 3 ==> #[trigger] pixels@[base + 3 * i + c] == channel(
                    #[trigger] colors@[i],
                    c,
                ),
            forall|k: int|
                0 <= k < pixels@.len() && !(base <= k < base + 3 * x) ==> #[trigger] pixels@[k]
                    == old(pixels)@[k],
        decreases n - x,
    {
        let at = base + 3 * x;
        let p = colors[x];
        pixels[at] = p.r;
        pixels[at + 1] = p.g;
        pixels[at + 2] = p.b;
        assert forall|i: int, c: int|
            0 <= i < x + 1 && 0 <= c < 3 implies #[trigger] pixels@[base + 3 * i + c] == channel(
            #[trigger] colors@[i],
            c,
        ) by {
            if i < x {
                assert(base + 3 * i + c < at);
            }
        }
        x = x + 1;
    }
    assert forall|x: int| 0 <= x < colors@.len() implies {
        &&& pixels@[y * pitch + 3 * x] == (#[trigger] colors@[x]).r
        &&& pixels@[y * pitch + 3 * x + 1] == colors@[x].g
        &&& pixels@[y * pitch + 3 * x + 2] == colors@[x].b
    } by {
        let c0: int = 0;
        let c1: int = 1;
        let c2: int = 2;
        assert(pixels@[base + 3 * x + c0] == channel(colors@[x], c0));
        assert(pixels@[base + 3 * x + c1] == channel(colors@[x], c1));
        assert(pixels@[base + 3 * x + c2] == channel(colors@[x], c2));
    }
}

} // verus!
