//! Captured framebuffers and their conversion to the interleaved image
//! layout.
//!
//! A capture hands back the framebuffer in the renderer's native layout,
//! one struct of four byte channels per pixel. The image that is saved
//! uses the standard interleaved layout, four bytes per pixel. The
//! conversion is a direct positional copy: no scaling, no clamping, no
//! colour-space transform.

use crate::color::Pixel;
use vstd::prelude::*;

verus! {

/// A captured framebuffer: `width * height` pixels in row-major order,
/// each in the renderer's native per-channel layout.
#[derive(PartialEq, Debug)]
pub struct FrameBuffer {
    pub width: u32,
    pub height: u32,
    pub pixels: Vec<Pixel>,
}

impl FrameBuffer {
    /// The pixel store holds exactly one pixel per position of the
    /// declared size.
    pub open spec fn wf(self) -> bool {
        self.pixels@.len() == self.width as int * self.height as int
    }
}

/// An image in the standard interleaved layout: four bytes per pixel in
/// the order red, green, blue, alpha, row-major.
#[derive(PartialEq, Debug)]
pub struct ImageBuffer {
    pub width: u32,
    pub height: u32,
    pub data: Vec<u8>,
}

impl ImageBuffer {
    /// The byte store holds exactly four bytes per position of the
    /// declared size.
    pub open spec fn wf(self) -> bool {
        self.data@.len() == 4 * self.width as int * self.height as int
    }
}

/// The interleaved bytes carry exactly the channels of the pixel
/// sequence: the red, green, blue and alpha of position `i` stand at
/// bytes `4*i` to `4*i + 3`, value for value.
pub open spec fn channels_of(pixels: Seq<Pixel>, data: Seq<u8>) -> bool {
    &&& data.len() == 4 * pixels.len()
    &&& forall|i: int|
        0 <= i < pixels.len() ==> {
            &&& data[4 * i] == (#[trigger] pixels[i]).r
            &&& data[4 * i + 1] == pixels[i].g
            &&& data[4 * i + 2] == pixels[i].b
            &&& data[4 * i + 3] == pixels[i].a
        }
}

/// Convert a captured framebuffer into an interleaved image of the same
/// dimensions, copying every channel value unchanged.
pub fn convert(fb: &FrameBuffer) -> (r: ImageBuffer)
    requires
        fb.wf(),
        4 * fb.pixels@.len() <= usize::MAX,
    ensures
        r.wf(),
        r.width == fb.width,
        r.height == fb.height,
        channels_of(fb.pixels@, r.data@),
{
    proof {
        assert(4 * (fb.width as int * fb.height as int) == 4 * fb.width as int
            * fb.height as int) by (nonlinear_arith);
    }
    let mut data: Vec<u8> = Vec::new();
    let mut i: usize = 0;
    while i < fb.pixels.len()
        invariant
            i <= fb.pixels@.len(),
            4 * fb.pixels@.len() <= usize::MAX,
            data@.len() == 4 * i,
            forall|k: int|
                0 <= k < i ==> {
                    &&& data@[4 * k] == (#[trigger] fb.pixels@[k]).r
                    &&& data@[4 * k + 1] == fb.pixels@[k].g
                    &&& data@[4 * k + 2] == fb.pixels@[k].b
                    &&& data@[4 * k + 3] == fb.pixels@[k].a
                },
        decreases fb.pixels@.len() - i,
    {
        let p = fb.pixels[i];
        data.push(p.r);
        data.push(p.g);
        data.push(p.b);
        data.push(p.a);
        i = i + 1;
    }
    ImageBuffer { width: fb.width, height: fb.height, data }
}

/// Read an interleaved image back into the native per-channel layout.
pub fn to_framebuffer(img: &ImageBuffer) -> (r: FrameBuffer)
    requires
        img.wf(),
    ensures
        r.wf(),
        r.width == img.width,
        r.height == img.height,
        channels_of(r.pixels@, img.data@),
{
    let total: usize = img.data.len();
    proof {
        assert(img.width as int * img.height as int >= 0 && 4 * (img.width as int
            * img.height as int) == 4 * img.width as int * img.height as int)
            by (nonlinear_arith);
        assert(img.width as int * img.height as int <= total as int);
    }
    let n: usize = (img.width as usize) * (img.height as usize);
    let mut pixels: Vec<Pixel> = Vec::new();
    let mut i: usize = 0;
    while i < n
        invariant
            i <= n,
            n == img.width as int * img.height as int,
            4 * n <= usize::MAX,
            img.data@.len() == 4 * n,
            pixels@.len() == i,
            forall|k: int|
                0 <= k < i ==> {
                    &&& img.data@[4 * k] == (#[trigger] pixels@[k]).r
                    &&& img.data@[4 * k + 1] == pixels@[k].g
                    &&& img.data@[4 * k + 2] == pixels@[k].b
                    &&& img.data@[4 * k + 3] == pixels@[k].a
                },
        decreases n - i,
    {
        let p = Pixel {
            r: img.data[4 * i],
            g: img.data[4 * i + 1],
            b: img.data[4 * i + 2],
            a: img.data[4 * i + 3],
        };
        pixels.push(p);
        i = i + 1;
    }
    FrameBuffer { width: img.width, height: img.height, pixels }
}

/// The interleaved bytes determine the pixels: two pixel sequences with
/// the same channel bytes are the same sequence. Hence converting a
/// framebuffer to an image and reading the image back yields pixel
/// values identical to the framebuffer's, for all four channels, at
/// every position.
pub proof fn lemma_channel_roundtrip(pixels: Seq<Pixel>, data: Seq<u8>, reread: Seq<Pixel>)
    requires
        channels_of(pixels, data),
        channels_of(reread, data),
    ensures
        reread == pixels,
{
    assert(reread.len() == pixels.len());
    assert forall|i: int| 0 <= i < pixels.len() implies reread[i] == pixels[i] by {
        assert(pixels[i].r == data[4 * i]);
        assert(reread[i].r == data[4 * i]);
    }
    assert(reread =~= pixels);
}

} // verus!
