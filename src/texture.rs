//! The color frame's packed pixel buffer and texture sampling with the
//! black-pixel policy for coordinates outside the color sensor's view.

use crate::texcoord::{
    coord_bits, in_unit_interval, lemma_index_in_range, pixel_index, raw_bits, scale_and_clamp,
};
use vstd::prelude::*;

verus! {

/// An 8-bit RGB color; channel value `c` stands for the intensity `c / 255`.
#[derive(Clone, Copy, Debug, PartialEq, Eq, Structural)]
pub struct Rgb {
    pub r: u8,
    pub g: u8,
    pub b: u8,
}

/// The color given to points without texture coverage.
pub open spec fn black() -> Rgb {
    Rgb { r: 0, g: 0, b: 0 }
}

impl Rgb {
    pub fn black() -> (c: Rgb)
        ensures
            c == black(),
    {
        Rgb { r: 0, g: 0, b: 0 }
    }
}

/// A texture coordinate pair, each the bit pattern of a single-precision
/// number; values outside [0, 1) mean "no texture coverage".
#[derive(Clone, Copy, Debug, PartialEq, Eq, Structural)]
pub struct TexCoord {
    pub u: u32,
    pub v: u32,
}

/// The coordinate pair whose bit patterns are the SDK's raw words `ij`.
pub open spec fn tex_coord_of(ij: [i32; 2]) -> TexCoord {
    TexCoord { u: raw_bits(ij[0]), v: raw_bits(ij[1]) }
}

impl TexCoord {
    /// Builds the coordinate from the SDK's raw signed words.
    pub fn from_raw(ij: &[i32; 2]) -> (t: TexCoord)
        ensures
            t == tex_coord_of(*ij),
    {
        TexCoord { u: coord_bits(ij[0]), v: coord_bits(ij[1]) }
    }
}

/// The buffer layout holds every pixel of a `width` x `height` grid with at
/// least three bytes (R, G, B) per pixel.
pub open spec fn layout_ok(
    width: nat,
    height: nat,
    bytes_per_pixel: nat,
    stride: nat,
    len: nat,
) -> bool {
    &&& width > 0
    &&& height > 0
    &&& bytes_per_pixel >= 3
    &&& stride >= width * bytes_per_pixel
    &&& (height - 1) * stride + width * bytes_per_pixel <= len
}

/// Byte offset of pixel (x, y) in the packed buffer.
pub open spec fn pixel_offset(x: nat, y: nat, bytes_per_pixel: nat, stride: nat) -> nat {
    x * bytes_per_pixel + y * stride
}

/// A color frame: a packed buffer of rows, `stride` bytes apart, each pixel
/// `bytes_per_pixel` bytes starting with its R, G and B bytes.
pub struct ColorImage {
    width: usize,
    height: usize,
    bytes_per_pixel: usize,
    stride: usize,
    data: Vec<u8>,
}

impl ColorImage {
    pub closed spec fn spec_width(&self) -> nat {
        self.width as nat
    }

    pub closed spec fn spec_height(&self) -> nat {
        self.height as nat
    }

    pub closed spec fn spec_bytes_per_pixel(&self) -> nat {
        self.bytes_per_pixel as nat
    }

    pub closed spec fn spec_stride(&self) -> nat {
        self.stride as nat
    }

    pub closed spec fn spec_data(&self) -> Seq<u8> {
        self.data@
    }

    pub open spec fn wf(&self) -> bool {
        layout_ok(
            self.spec_width(),
            self.spec_height(),
            self.spec_bytes_per_pixel(),
            self.spec_stride(),
            self.spec_data().len(),
        )
    }

    /// The color stored at pixel (x, y).
    pub open spec fn pixel(&self, x: nat, y: nat) -> Rgb {
        let o = pixel_offset(x, y, self.spec_bytes_per_pixel(), self.spec_stride());
        Rgb { r: self.spec_data()[o as int], g: self.spec_data()[o + 1int], b: self.spec_data()[o + 2int] }
    }

    /// What sampling at `t` yields: black outside the unit square, else the
    /// pixel that the clamped, floored coordinates select.
    pub open spec fn spec_sample(&self, t: TexCoord) -> Rgb {
        match (pixel_index(t.u, self.spec_width()), pixel_index(t.v, self.spec_height())) {
            (Some(x), Some(y)) => self.pixel(x, y),
            _ => black(),
        }
    }

    /// Wraps a buffer; `None` exactly where the layout does not fit in it.
    pub fn new(
        width: usize,
        height: usize,
        bytes_per_pixel: usize,
        stride: usize,
        data: Vec<u8>,
    ) -> (r: Option<ColorImage>)
        ensures
            r is Some <==> layout_ok(
                width as nat,
                height as nat,
                bytes_per_pixel as nat,
                stride as nat,
                data@.len(),
            ),
            r matches Some(img) ==> {
                &&& img.spec_width() == width
                &&& img.spec_height() == height
                &&& img.spec_bytes_per_pixel() == bytes_per_pixel
                &&& img.spec_stride() == stride
                &&& img.spec_data() == data@
            },
    {
        let len = data.len();
        if width == 0 || height == 0 || bytes_per_pixel < 3 {
            return None;
        }
        let row = match width.checked_mul(bytes_per_pixel) {
            Some(row) => row,
            None => return None,
        };
        if stride < row {
            return None;
        }
        let rows = match (height - 1).checked_mul(stride) {
            Some(rows) => rows,
            None => {
                assert((height - 1) * stride + row > data@.len()) by (nonlinear_arith)
                    requires
                        (height - 1) * stride > usize::MAX,
                        data@.len() == len,
                ;
                return None;
            },
        };
        let needed = match rows.checked_add(row) {
            Some(needed) => needed,
            None => return None,
        };
        if needed > len {
            return None;
        }
        Some(ColorImage { width, height, bytes_per_pixel, stride, data })
    }

    pub fn width(&self) -> (r: usize)
        ensures
            r == self.spec_width(),
    {
        self.width
    }

    pub fn height(&self) -> (r: usize)
        ensures
            r == self.spec_height(),
    {
        self.height
    }

    pub fn bytes_per_pixel(&self) -> (r: usize)
        ensures
            r == self.spec_bytes_per_pixel(),
    {
        self.bytes_per_pixel
    }

    pub fn stride(&self) -> (r: usize)
        ensures
            r == self.spec_stride(),
    {
        self.stride
    }

    pub fn data(&self) -> (r: &Vec<u8>)
        ensures
            r@ == self.spec_data(),
    {
        &self.data
    }

    /// Samples the color at `t`; black where `t` lies outside the unit square.
    pub fn sample(&self, t: TexCoord) -> (c: Rgb)
        requires
            self.wf(),
        ensures
            c == self.spec_sample(t),
            !in_unit_interval(t.u) || !in_unit_interval(t.v) ==> c == black(),
    {
        let buffer_len = self.data.len();
        let x = scale_and_clamp(t.u, self.width);
        let y = scale_and_clamp(t.v, self.height);
        match (x, y) {
            (Some(x), Some(y)) => {
                proof {
                    lemma_pixel_in_buffer(self, x as nat, y as nat);
                    assert(x * self.bytes_per_pixel < buffer_len && y * self.stride < buffer_len);
                }
                let column = x * self.bytes_per_pixel;
                let row = y * self.stride;
                let idx = column + row;
                Rgb { r: self.data[idx], g: self.data[idx + 1], b: self.data[idx + 2] }
            },
            _ => Rgb::black(),
        }
    }
}

/// Every pixel of the grid lies inside the buffer, all three of its bytes.
pub proof fn lemma_pixel_in_buffer(img: &ColorImage, x: nat, y: nat)
    requires
        img.wf(),
        x < img.spec_width(),
        y < img.spec_height(),
    ensures
        pixel_offset(x, y, img.spec_bytes_per_pixel(), img.spec_stride()) + 2 < img.spec_data().len(),
        x * img.spec_bytes_per_pixel() < img.spec_data().len(),
        y * img.spec_stride() < img.spec_data().len(),
{
    let w = img.spec_width();
    let h = img.spec_height();
    let bpp = img.spec_bytes_per_pixel();
    let s = img.spec_stride();
    assert(x * bpp + 2 < w * bpp) by (nonlinear_arith)
        requires
            x < w,
            bpp >= 3,
    ;
    assert(y * s <= (h - 1) * s) by (nonlinear_arith)
        requires
            y < h,
    ;
}

/// Samples the color for a raw SDK texture coordinate pair.
pub fn get_texcolor(texture: &ColorImage, uv: &[i32; 2]) -> (c: Rgb)
    requires
        texture.wf(),
    ensures
        c == texture.spec_sample(tex_coord_of(*uv)),
{
    texture.sample(TexCoord::from_raw(uv))
}

/// Sampling at any coordinate pair in the unit square reads three bytes
/// that lie inside the color buffer.
pub proof fn lemma_sample_reads_inside(img: &ColorImage, t: TexCoord)
    requires
        img.wf(),
        in_unit_interval(t.u),
        in_unit_interval(t.v),
    ensures
        pixel_index(t.u, img.spec_width()) matches Some(x) && pixel_index(t.v, img.spec_height()) matches Some(y)
            && x < img.spec_width() && y < img.spec_height()
            && pixel_offset(x, y, img.spec_bytes_per_pixel(), img.spec_stride()) + 2 < img.spec_data().len(),
{
    lemma_index_in_range(t.u, img.spec_width());
    lemma_index_in_range(t.v, img.spec_height());
    let x = pixel_index(t.u, img.spec_width()).unwrap();
    let y = pixel_index(t.v, img.spec_height()).unwrap();
    lemma_pixel_in_buffer(img, x, y);
}

/// A coordinate pair outside the unit square samples black, whatever the
/// buffer holds.
pub proof fn lemma_out_of_view_is_black(img: &ColorImage, t: TexCoord)
    requires
        !in_unit_interval(t.u) || !in_unit_interval(t.v),
    ensures
        img.spec_sample(t) == black(),
{
}

} // verus!
