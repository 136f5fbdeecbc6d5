//! Preview frames: plain RGB pixel data decoded from the camera.
//!
//! The camera hands the host raw bytes in display (RGB) order, three bytes
//! per pixel. `pack_rgb` re-packs those bytes into a `Frame` of pixel
//! values, refusing any byte run whose length does not match the reported
//! frame geometry exactly.

use vstd::prelude::*;

verus! {

/// One display pixel.
#[derive(Clone, Copy, PartialEq, Eq, Structural, Debug)]
pub struct Rgb {
    pub r: u8,
    pub g: u8,
    pub b: u8,
}

/// One decoded camera frame in display encoding.
pub struct Frame {
    /// Width in pixels.
    pub width: usize,
    /// Height in pixels.
    pub height: usize,
    /// Row-major pixel data, exactly `width * height` entries.
    pub pixels: Vec<Rgb>,
}

impl Frame {
    /// The pixel data covers the stated geometry exactly.
    pub open spec fn wf(&self) -> bool {
        self.pixels@.len() == self.width * self.height
    }
}

/// The pixel at index `i` of a byte run in RGB order.
pub open spec fn pixel_at(data: Seq<u8>, i: int) -> Rgb {
    Rgb { r: data[3 * i], g: data[3 * i + 1], b: data[3 * i + 2] }
}

/// All pixels of a byte run in RGB order, one per complete byte triple.
pub open spec fn packed_pixels(data: Seq<u8>) -> Seq<Rgb> {
    Seq::new(data.len() / 3, |i: int| pixel_at(data, i))
}

/// Re-packs raw RGB bytes into a frame of `width * height` pixels.
///
/// Returns `Some` exactly when the byte run has one byte triple per pixel
/// of the stated geometry; any length mismatch is refused, so a partial or
/// corrupt frame never reaches the display.
pub fn pack_rgb(data: &Vec<u8>, width: usize, height: usize) -> (r: Option<Frame>)
    ensures
        r is Some <==> data@.len() == 3 * (width as int) * (height as int),
        r matches Some(f) ==> f.width == width && f.height == height && f.pixels@
            == packed_pixels(data@) && f.wf(),
{
    proof {
        assert(3 * (width as int) * (height as int) == 3 * ((width as int) * (height as int))
            && 3 * ((width as int) * (height as int)) >= (width as int) * (height as int)
            && (width as int) * (height as int) >= 0) by (nonlinear_arith)
            requires
                (width as int) >= 0 && (height as int) >= 0,
        ;
    }
    let len = data.len();
    let pixel_count = match width.checked_mul(height) {
        Some(p) => p,
        None => {
            return None;
        },
    };
    let byte_count = match pixel_count.checked_mul(3) {
        Some(b) => b,
        None => {
            return None;
        },
    };
    if len != byte_count {
        return None;
    }
    let mut pixels: Vec<Rgb> = Vec::new();
    let mut i: usize = 0;
    while i < pixel_count
        invariant
            data@.len() == 3 * pixel_count,
            3 * pixel_count <= usize::MAX,
            i <= pixel_count,
            pixels@.len() == i,
            forall|j: int| 0 <= j < i ==> pixels@[j] == pixel_at(data@, j),
        decreases pixel_count - i,
    {
        let red = data[3 * i];
        let green = data[3 * i + 1];
        let blue = data[3 * i + 2];
        pixels.push(Rgb { r: red, g: green, b: blue });
        i = i + 1;
    }
    proof {
        assert(pixels@ =~= packed_pixels(data@));
    }
    Some(Frame { width, height, pixels })
}

} // verus!
