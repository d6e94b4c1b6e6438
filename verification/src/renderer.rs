//! The output side of the renderer: the pixel buffer and its byte layout.
//!
//! A rendered image is a flat, row-major buffer of `width * height` RGB
//! pixels. The buffer starts out black, each cell is overwritten by the
//! sampling loop, and the finished buffer is flattened into the ordered
//! byte sequence (`r`, `g`, `b` per pixel) that an image encoder accepts.

use vstd::prelude::*;

verus! {

/// One output pixel: an RGB triple, one byte per channel.
#[derive(Clone, Copy, Debug, PartialEq, Eq, Structural)]
pub struct Pixel {
    pub r: u8,
    pub g: u8,
    pub b: u8,
}

/// The three bytes of a pixel, in the order an RGB8 encoder expects.
pub open spec fn pixel_bytes(p: Pixel) -> Seq<u8> {
    seq![p.r, p.g, p.b]
}

/// The byte layout of a whole pixel buffer: each pixel contributes its
/// three channel bytes, in buffer order.
pub open spec fn buffer_bytes(pixels: Seq<Pixel>) -> Seq<u8> {
    Seq::new(3 * pixels.len(), |i: int| pixel_bytes(pixels[i / 3])[i % 3])
}

/// A fresh all-black pixel buffer with one cell per output pixel,
/// row-major. The sampling loop overwrites every cell exactly once.
pub fn pixel_buffer(width: usize, height: usize) -> (pixels: Vec<Pixel>)
    requires
        width * height <= usize::MAX,
    ensures
        pixels@.len() == width * height,
        forall|i: int|
            0 <= i < pixels@.len() ==> pixels@[i] == (Pixel { r: 0, g: 0, b: 0 }),
{
    let n: usize = width * height;
    let mut pixels: Vec<Pixel> = Vec::new();
    let mut i: usize = 0;
    while i < n
        invariant
            i <= n,
            pixels@.len() == i,
            forall|j: int|
                0 <= j < i ==> pixels@[j] == (Pixel { r: 0, g: 0, b: 0 }),
        decreases n - i,
    {
        pixels.push(Pixel { r: 0, g: 0, b: 0 });
        i = i + 1;
    }
    pixels
}

/// Flattens a pixel buffer into its byte layout: three bytes per pixel,
/// channels in `r`, `g`, `b` order, pixels in buffer order.
pub fn pixels_to_bytes(pixels: &[Pixel]) -> (bytes: Vec<u8>)
    ensures
        bytes@ == buffer_bytes(pixels@),
{
    let n: usize = pixels.len();
    let mut bytes: Vec<u8> = Vec::new();
    let mut i: usize = 0;
    while i < n
        invariant
            i <= n,
            n == pixels@.len(),
            bytes@.len() == 3 * i,
            forall|j: int| 0 <= j < 3 * i ==> bytes@[j] == buffer_bytes(pixels@)[j],
        decreases n - i,
    {
        let p = pixels[i];
        bytes.push(p.r);
        bytes.push(p.g);
        bytes.push(p.b);
        i = i + 1;
    }
    assert(bytes@ =~= buffer_bytes(pixels@));
    bytes
}

} // verus!
