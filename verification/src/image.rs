//! Image data: colour spaces, component depths and pixel layout conversions.
use vstd::prelude::*;
use crate::geometry::Size;

verus! {

/// The pixel layouts an image decoder hands out.
#[derive(Debug, Clone, Copy, PartialEq, Eq, Structural)]
pub enum ColorType {
    L8,
    La8,
    Rgb8,
    Rgba8,
    L16,
    La16,
    Rgb16,
    Rgba16,
    Rgb32F,
    Rgba32F,
}

/// The colour space of an image.
#[derive(Debug, Clone, Copy, PartialEq, Eq, Structural)]
pub enum ColorSpace {
    Rgb,
    Rgba,
    Palette,
    Cmyk,
    Greyscale,
    GreyscaleAlpha,
}

/// The bits per colour component.
#[derive(Debug, Clone, Copy, PartialEq, Eq, Structural)]
pub enum ColorBits {
    /// 8-bit color
    Bit8,
    /// 16-bit color
    Bit16,
}

/// Errors of image processing.
#[derive(Debug, Clone, Copy, PartialEq, Eq, Structural)]
pub enum ImageError {
    /// The decoder's pixel layout has no PDF counterpart here.
    UnsupportedImageColorType(ColorType),
}

/// The PDF name of each colour space.
pub open spec fn color_space_name_spec(c: ColorSpace) -> Seq<char> {
    match c {
        ColorSpace::Rgb => "DeviceRGB"@,
        ColorSpace::Rgba => "DeviceN"@,
        ColorSpace::Palette => "Indexed"@,
        ColorSpace::Cmyk => "DeviceCMYK"@,
        ColorSpace::Greyscale => "DeviceGray"@,
        ColorSpace::GreyscaleAlpha => "DeviceN"@,
    }
}

impl ColorSpace {
    /// The PDF name of this colour space.
    pub fn name(&self) -> (r: &'static str)
        ensures
            r@ == color_space_name_spec(*self),
    {
        match self {
            ColorSpace::Rgb => "DeviceRGB",
            ColorSpace::Rgba => "DeviceN",
            ColorSpace::Palette => "Indexed",
            ColorSpace::Cmyk => "DeviceCMYK",
            ColorSpace::Greyscale => "DeviceGray",
            ColorSpace::GreyscaleAlpha => "DeviceN",
        }
    }

    /// The colour space of a pixel layout; floating point layouts have none.
    pub fn from_color_type(value: ColorType) -> (r: Result<ColorSpace, ImageError>)
        ensures
            r == color_space_of(value),
    {
        match value {
            ColorType::L8 | ColorType::L16 => Ok(ColorSpace::Greyscale),
            ColorType::La8 | ColorType::La16 => Ok(ColorSpace::GreyscaleAlpha),
            ColorType::Rgb8 | ColorType::Rgb16 => Ok(ColorSpace::Rgb),
            ColorType::Rgba8 | ColorType::Rgba16 => Ok(ColorSpace::Rgba),
            _ => Err(ImageError::UnsupportedImageColorType(value)),
        }
    }
}

/// The colour space of each pixel layout.
pub open spec fn color_space_of(value: ColorType) -> Result<ColorSpace, ImageError> {
    match value {
        ColorType::L8 | ColorType::L16 => Ok(ColorSpace::Greyscale),
        ColorType::La8 | ColorType::La16 => Ok(ColorSpace::GreyscaleAlpha),
        ColorType::Rgb8 | ColorType::Rgb16 => Ok(ColorSpace::Rgb),
        ColorType::Rgba8 | ColorType::Rgba16 => Ok(ColorSpace::Rgba),
        _ => Err(ImageError::UnsupportedImageColorType(value)),
    }
}

/// The component depth of each pixel layout.
pub open spec fn color_bits_of(value: ColorType) -> Result<ColorBits, ImageError> {
    match value {
        ColorType::L8 | ColorType::La8 | ColorType::Rgb8 | ColorType::Rgba8 => Ok(ColorBits::Bit8),
        ColorType::L16 | ColorType::La16 | ColorType::Rgb16 | ColorType::Rgba16 => Ok(ColorBits::Bit16),
        _ => Err(ImageError::UnsupportedImageColorType(value)),
    }
}

/// The size in bytes of one colour sample in a pixel layout of the decoder: one for the
/// 8-bit layouts, two for the 16-bit ones, four for the floating point ones.
pub open spec fn sample_bytes(value: ColorType) -> int {
    match value {
        ColorType::L8 | ColorType::La8 | ColorType::Rgb8 | ColorType::Rgba8 => 1,
        ColorType::L16 | ColorType::La16 | ColorType::Rgb16 | ColorType::Rgba16 => 2,
        ColorType::Rgb32F | ColorType::Rgba32F => 4,
    }
}

/// The number of bits of a component depth.
pub open spec fn depth_bits(b: ColorBits) -> int {
    match b {
        ColorBits::Bit8 => 8,
        ColorBits::Bit16 => 16,
    }
}

/// Law of component depths: the depth of a pixel layout is the size of its samples, 8 bits
/// for a one-byte sample and 16 for a two-byte one; only floating point samples have no depth.
pub proof fn law_depth_is_sample_size(value: ColorType)
    ensures
        color_bits_of(value) is Ok <==> sample_bytes(value) <= 2,
        color_bits_of(value) matches Ok(b) ==> depth_bits(b) == 8 * sample_bytes(value),
{
}

impl ColorBits {
    /// The component depth of a pixel layout; floating point layouts have none.
    pub fn from_color_type(value: ColorType) -> (r: Result<ColorBits, ImageError>)
        ensures
            r == color_bits_of(value),
    {
        match value {
            ColorType::L8 | ColorType::La8 | ColorType::Rgb8 | ColorType::Rgba8 => Ok(ColorBits::Bit8),
            ColorType::L16 | ColorType::La16 | ColorType::Rgb16 | ColorType::Rgba16 => Ok(ColorBits::Bit16),
            _ => Err(ImageError::UnsupportedImageColorType(value)),
        }
    }

    /// The number of bits: 8 or 16.
    pub fn bits(&self) -> (r: i64)
        ensures
            r == (match *self {
                ColorBits::Bit8 => 8i64,
                ColorBits::Bit16 => 16i64,
            }),
    {
        match self {
            ColorBits::Bit8 => 8,
            ColorBits::Bit16 => 16,
        }
    }
}

/// Pixel formats.
#[derive(Debug, Copy, Clone, PartialEq, Eq, PartialOrd, Ord, Hash)]
pub enum ImageFormat {
    R8,
    RG8,
    RGB8,
    RGBA8,
    R16,
    RG16,
    RGB16,
    RGBA16,
    BGR8,
    BGRA8,
    RGBF32,
    RGBAF32,
}

/// Describes the format the image bytes are compressed with.
#[derive(Debug, Copy, Clone, PartialEq, Eq, PartialOrd, Ord, Hash)]
pub enum ImageFilter {
    Ascii85,
    Lzw,
    DCT,
    JPX,
}

/// Whether `rgb` and `alpha` are the colour and alpha channels of the RGBA bytes `data`:
/// three colour bytes and one alpha byte per pixel.
pub open spec fn split_rgba(data: Seq<u8>, rgb: Seq<u8>, alpha: Seq<u8>) -> bool {
    &&& rgb.len() * 4 == data.len() * 3
    &&& alpha.len() * 4 == data.len()
    &&& forall|k: int, c: int|
        0 <= k < alpha.len() && 0 <= c < 3 ==> #[trigger] rgb[3 * k + c] == #[trigger] data[4 * k + c]
    &&& forall|k: int| 0 <= k < alpha.len() ==> #[trigger] alpha[k] == data[4 * k + 3]
}

/// Splits RGBA pixels into their RGB bytes and their alpha bytes.
pub fn pull_alpha_out_of_rgb(data: Vec<u8>) -> (r: (Vec<u8>, Vec<u8>))
    requires
        data.len() % 4 == 0,
    ensures
        split_rgba(data@, r.0@, r.1@),
{
    let mut rgb: Vec<u8> = Vec::new();
    let mut alpha: Vec<u8> = Vec::new();
    let n = data.len() / 4;
    let mut k: usize = 0;
    while k < n
        invariant
            n * 4 == data.len(),
            k <= n,
            rgb@.len() == 3 * k,
            alpha@.len() == k,
            forall|p: int, c: int|
                0 <= p < k && 0 <= c < 3 ==> #[trigger] rgb@[3 * p + c] == #[trigger] data@[4 * p + c],
            forall|p: int| 0 <= p < k ==> #[trigger] alpha@[p] == data@[4 * p + 3],
        decreases n - k,
    {
        let i = 4 * k;
        rgb.push(data[i]);
        rgb.push(data[i + 1]);
        rgb.push(data[i + 2]);
        alpha.push(data[i + 3]);
        proof {
            assert forall|p: int, c: int|
                0 <= p < k + 1 && 0 <= c < 3 implies #[trigger] rgb@[3 * p + c] == #[trigger] data@[4 * p + c] by {
                if p < k {
                    assert(3 * p + c < 3 * k) by (nonlinear_arith)
                        requires p < k, 0 <= c < 3;
                }
            }
        }
        k = k + 1;
    }
    (rgb, alpha)
}

/// Interleaves RGB bytes with alpha bytes into RGBA pixels.
pub open spec fn join_rgba(rgb: Seq<u8>, alpha: Seq<u8>) -> Seq<u8> {
    Seq::new(
        4 * alpha.len(),
        |i: int| if i % 4 == 3 { alpha[i / 4] } else { rgb[3 * (i / 4) + i % 4] },
    )
}

/// Law: splitting RGBA pixels into colour and alpha and interleaving them again gives back
/// the pixels.
pub proof fn law_split_rgba_roundtrip(data: Seq<u8>, rgb: Seq<u8>, alpha: Seq<u8>)
    requires
        split_rgba(data, rgb, alpha),
    ensures
        join_rgba(rgb, alpha) == data,
{
    let j = join_rgba(rgb, alpha);
    assert(j.len() == data.len());
    assert forall|i: int| 0 <= i < data.len() implies j[i] == data[i] by {
        let k = i / 4;
        let c = i % 4;
        assert(i == 4 * k + c) by (nonlinear_arith)
            requires k == i / 4, c == i % 4;
        assert(0 <= k < alpha.len()) by (nonlinear_arith)
            requires alpha.len() * 4 == data.len(), 0 <= i < data.len(), k == i / 4;
        if c == 3 {
            assert(alpha[k] == data[4 * k + 3]);
        } else {
            assert(rgb[3 * k + c] == data[4 * k + c]);
        }
    }
    assert(j =~= data);
}

/// A colour component restored from a premultiplied one: `c * 255 / a`, kept to 8 bits.
pub open spec fn unpremultiply(c: u8, a: u8) -> u8 {
    (((c as nat * 255) / a as nat) % 256) as u8
}

/// Whether `rgb` and `alpha` are the straight colour and alpha channels of the premultiplied
/// RGBA bytes `pixels`: a transparent pixel becomes white, any other one has its colour
/// divided by its alpha. Bytes after the last whole pixel are ignored.
pub open spec fn unpremultiplied_rgba(pixels: Seq<u8>, rgb: Seq<u8>, alpha: Seq<u8>) -> bool {
    &&& alpha.len() == pixels.len() / 4
    &&& rgb.len() == 3 * alpha.len()
    &&& forall|k: int| 0 <= k < alpha.len() ==> #[trigger] alpha[k] == pixels[4 * k + 3]
    &&& forall|k: int, c: int|
        0 <= k < alpha.len() && 0 <= c < 3 ==> #[trigger] rgb[3 * k + c] == (if pixels[4 * k + 3] == 0 {
            255u8
        } else {
            unpremultiply(pixels[4 * k + c], pixels[4 * k + 3])
        })
}

fn unpremultiply_exec(c: u8, a: u8) -> (r: u8)
    requires
        a > 0,
    ensures
        r == unpremultiply(c, a),
{
    let v: u16 = (c as u16 * 255) / (a as u16);
    (v % 256) as u8
}

/// Turns premultiplied RGBA pixels into straight RGB bytes and alpha bytes, and tells
/// whether any pixel is not fully opaque.
pub fn unpremultiply_pixels(pixels: &[u8]) -> (r: (Vec<u8>, Vec<u8>, bool))
    ensures
        unpremultiplied_rgba(pixels@, r.0@, r.1@),
        r.2 == exists|k: int| 0 <= k < r.1@.len() && r.1@[k] != 255,
{
    let mut rgb: Vec<u8> = Vec::new();
    let mut alpha: Vec<u8> = Vec::new();
    let mut has_alpha = false;
    let n = pixels.len() / 4;
    let mut k: usize = 0;
    while k < n
        invariant
            n == pixels@.len() / 4,
            k <= n,
            rgb@.len() == 3 * k,
            alpha@.len() == k,
            forall|p: int| 0 <= p < k ==> #[trigger] alpha@[p] == pixels@[4 * p + 3],
            forall|p: int, c: int|
                0 <= p < k && 0 <= c < 3 ==> #[trigger] rgb@[3 * p + c] == (if pixels@[4 * p + 3] == 0 {
                    255u8
                } else {
                    unpremultiply(pixels@[4 * p + c], pixels@[4 * p + 3])
                }),
            has_alpha == exists|p: int| 0 <= p < k && alpha@[p] != 255,
        decreases n - k,
    {
        assert(4 * k + 3 < pixels.len()) by (nonlinear_arith)
            requires k < n, n == pixels.len() / 4;
        let i: usize = 4 * k;
        let ghost old_alpha = alpha@;
        let ghost old_has = has_alpha;
        let r = pixels[i];
        let g = pixels[i + 1];
        let b = pixels[i + 2];
        let a = pixels[i + 3];
        if a == 0 {
            rgb.push(255);
            rgb.push(255);
            rgb.push(255);
        } else {
            rgb.push(unpremultiply_exec(r, a));
            rgb.push(unpremultiply_exec(g, a));
            rgb.push(unpremultiply_exec(b, a));
        }
        alpha.push(a);
        if a != 255 {
            has_alpha = true;
        }
        proof {
            assert forall|p: int, c: int|
                0 <= p < k + 1 && 0 <= c < 3 implies #[trigger] rgb@[3 * p + c] == (if pixels@[4 * p + 3] == 0 {
                    255u8
                } else {
                    unpremultiply(pixels@[4 * p + c], pixels@[4 * p + 3])
                }) by {
                if p < k {
                    assert(3 * p + c < 3 * k) by (nonlinear_arith)
                        requires p < k, 0 <= c < 3;
                }
            }
            assert(forall|p: int| 0 <= p < k ==> alpha@[p] == old_alpha[p]);
            if a != 255 {
                assert(alpha@[k as int] != 255);
            }
            if old_has {
                let w = choose|p: int| 0 <= p < k && old_alpha[p] != 255;
                assert(alpha@[w] != 255);
            }
            if !has_alpha {
                assert forall|p: int| 0 <= p < k + 1 implies alpha@[p] == 255 by {
                    if p < k {
                        assert(old_alpha[p] == 255);
                    }
                }
            }
        }
        k = k + 1;
    }
    proof {
        if has_alpha {
            let w = choose|p: int| 0 <= p < k && alpha@[p] != 255;
            assert(0 <= w < alpha@.len() && alpha@[w] != 255);
            assert(exists|q: int| 0 <= q < alpha@.len() && alpha@[q] != 255);
        } else {
            assert(forall|p: int| 0 <= p < alpha@.len() ==> !(alpha@[p] != 255));
            assert(!exists|q: int| 0 <= q < alpha@.len() && alpha@[q] != 255);
        }
    }
    (rgb, alpha, has_alpha)
}


/// An image XObject: pixel data in a colour space, with its size in pixels.
#[derive(Debug, Clone, PartialEq)]
pub struct PdfXObjectImage {
    /// Width and height of the image in pixels (original size, not scaled)
    pub size: Size<i64>,
    /// Color space (Greyscale, RGB, CMYK)
    pub color_space: ColorSpace,
    pub bits_per_component: ColorBits,
    /// Should the image be interpolated when scaled?
    pub interpolate: bool,
    /// The actual data from the image
    pub image_data: Vec<u8>,
    /// Decompression filter for `image_data`, if `None` assumes uncompressed raw pixels in the expected color format.
    pub image_filter: Option<ImageFilter>,
    /// Object number and generation of the soft mask for transparency, if any.
    pub smask: Option<(u32, u16)>,
}

/// An image and the greyscale mask that holds its transparency, if it has any.
#[derive(Debug, Clone, PartialEq)]
pub struct PdfImage {
    pub image: PdfXObjectImage,
    pub mask: Option<PdfXObjectImage>,
}

/// Whether `img` is an uncompressed image of the given size, layout and data, without mask.
pub open spec fn plain_image(
    img: PdfXObjectImage,
    width: u32,
    height: u32,
    color_space: ColorSpace,
    bits: ColorBits,
    interpolate: bool,
    data: Seq<u8>,
) -> bool {
    &&& img.size == (Size { width: width as i64, height: height as i64 })
    &&& img.color_space == color_space
    &&& img.bits_per_component == bits
    &&& img.interpolate == interpolate
    &&& img.image_data@ == data
    &&& img.image_filter is None
    &&& img.smask is None
}

impl PdfXObjectImage {
    /// Builds an image from decoded pixels of the given layout and size. RGBA pixels with
    /// 8-bit components are split: the colour goes into an RGB image, the alpha into a
    /// greyscale mask. Other layouts are kept as they are, without mask.
    pub fn process_image(color_type: ColorType, image_data: Vec<u8>, dim: (u32, u32)) -> (r: Result<
        (PdfXObjectImage, Option<PdfXObjectImage>),
        ImageError,
    >)
        requires
            color_type == ColorType::Rgba8 ==> image_data@.len() % 4 == 0,
        ensures
            color_type == ColorType::Rgba8 ==> (r matches Ok((img, Some(mask))) && exists|rgb: Seq<u8>, alpha: Seq<u8>|
                split_rgba(image_data@, rgb, alpha) && plain_image(img, dim.0, dim.1, ColorSpace::Rgb, ColorBits::Bit8, true, rgb)
                    && plain_image(mask, dim.0, dim.1, ColorSpace::Greyscale, ColorBits::Bit8, false, alpha)),
            color_type != ColorType::Rgba8 ==> match (color_bits_of(color_type), color_space_of(color_type)) {
                (Ok(bits), Ok(space)) => (r matches Ok((img, None)) && plain_image(img, dim.0, dim.1, space, bits, true, image_data@)),
                (Err(e), _) => r == Err::<(PdfXObjectImage, Option<PdfXObjectImage>), ImageError>(e),
                (Ok(_), Err(e)) => r == Err::<(PdfXObjectImage, Option<PdfXObjectImage>), ImageError>(e),
            },
    {
        let size = Size { width: dim.0 as i64, height: dim.1 as i64 };
        if color_type == ColorType::Rgba8 {
            let (rgb, alpha) = pull_alpha_out_of_rgb(image_data);
            let img = PdfXObjectImage {
                size,
                color_space: ColorSpace::Rgb,
                bits_per_component: ColorBits::Bit8,
                image_data: rgb,
                interpolate: true,
                image_filter: None,
                smask: None,
            };
            let mask = PdfXObjectImage {
                size,
                color_space: ColorSpace::Greyscale,
                bits_per_component: ColorBits::Bit8,
                interpolate: false,
                image_data: alpha,
                image_filter: None,
                smask: None,
            };
            return Ok((img, Some(mask)));
        }
        let color_bits = match ColorBits::from_color_type(color_type) {
            Ok(b) => b,
            Err(e) => return Err(e),
        };
        let color_space = match ColorSpace::from_color_type(color_type) {
            Ok(c) => c,
            Err(e) => return Err(e),
        };
        let img = PdfXObjectImage {
            size,
            color_space,
            bits_per_component: color_bits,
            image_data,
            interpolate: true,
            image_filter: None,
            smask: None,
        };
        Ok((img, None))
    }
}

impl PdfImage {
    /// An image from premultiplied RGBA pixels (a rendered pixmap): an interpolated RGB image
    /// of the straight colours, and a greyscale mask of the alpha when a pixel is not opaque.
    pub fn from_premultiplied_pixels(width: u32, height: u32, pixels: &[u8]) -> (r: Self)
        ensures
            exists|rgb: Seq<u8>, alpha: Seq<u8>|
                {
                    &&& unpremultiplied_rgba(pixels@, rgb, alpha)
                    &&& plain_image(r.image, width, height, ColorSpace::Rgb, ColorBits::Bit8, true, rgb)
                    &&& (exists|k: int| 0 <= k < alpha.len() && alpha[k] != 255) ==> (r.mask matches Some(m)
                        && plain_image(m, width, height, ColorSpace::Greyscale, ColorBits::Bit8, true, alpha))
                    &&& !(exists|k: int| 0 <= k < alpha.len() && alpha[k] != 255) ==> r.mask is None
                },
    {
        let (rgb, alpha, has_alpha) = unpremultiply_pixels(pixels);
        let ghost rgb_v = rgb@;
        let ghost alpha_v = alpha@;
        let size = Size { width: width as i64, height: height as i64 };
        let image = PdfXObjectImage {
            size,
            color_space: ColorSpace::Rgb,
            bits_per_component: ColorBits::Bit8,
            image_data: rgb,
            image_filter: None,
            interpolate: true,
            smask: None,
        };
        let mask = if has_alpha {
            Some(
                PdfXObjectImage {
                    size,
                    color_space: ColorSpace::Greyscale,
                    bits_per_component: ColorBits::Bit8,
                    image_data: alpha,
                    image_filter: None,
                    interpolate: true,
                    smask: None,
                },
            )
        } else {
            None
        };
        let r = PdfImage { image, mask };
        assert(unpremultiplied_rgba(pixels@, rgb_v, alpha_v));
        r
    }
}

} // verus!
