//! Image resources and the decode/normalize pipeline. Decoding compressed
//! bitstreams is the decoders' business, reached through trusted wrappers;
//! everything after the decode — choosing the normalization path and
//! running it — is the library's own, verified logic.

use vstd::prelude::*;
use vstd::arithmetic::div_mod::lemma_mod_multiples_basic;
use crate::SceneError;
use crate::pixel::{
    byte_swap, byte_swap_and_premultiply, is_gif, is_png, spec_is_gif, spec_is_png, swapped,
    swapped_premultiplied,
};

verus! {

/// The engine's canonical pixel format tags.
#[derive(Clone, Copy, Debug, PartialEq, Eq, Structural)]
pub enum ImageFormat {
    /// 8-bit alpha-only.
    A8,
    /// 8-bit R,G,B without an alpha channel.
    Rgb8,
    /// Premultiplied 8-bit R,G,B,A.
    Rgba8,
}

/// What the decoder says about a decoded buffer's channel layout and alpha
/// convention; this picks the normalization path.
#[derive(Clone, Copy, Debug, PartialEq, Eq, Structural)]
pub enum SourceFormat {
    /// 8-bit R,G,B with no alpha channel at all.
    OpaqueRgb,
    /// 4-byte R,G,B,A whose alpha is opaque or was premultiplied upstream.
    OpaqueRgba,
    /// 4-byte R,G,B,A carrying straight (non-premultiplied) alpha.
    StraightRgba,
    /// A single alpha channel per pixel.
    AlphaOnly,
    /// A luminance channel plus an alpha channel per pixel.
    LuminanceAlpha,
    /// A floating-point source; rejected outright.
    HighDynamicRange,
}

impl SourceFormat {
    /// The formats the normalizer accepts at all.
    pub open spec fn supported(self) -> bool {
        self == SourceFormat::OpaqueRgb || self == SourceFormat::OpaqueRgba || self
            == SourceFormat::StraightRgba
    }

    /// Whether the format carries independent alpha that must be
    /// premultiplied during normalization.
    pub open spec fn premultiplies(self) -> bool {
        self == SourceFormat::StraightRgba
    }

    /// The canonical format a supported source normalizes to.
    pub open spec fn canonical(self) -> ImageFormat {
        if self == SourceFormat::OpaqueRgb {
            ImageFormat::Rgb8
        } else {
            ImageFormat::Rgba8
        }
    }
}

/// A decoded, normalized image: canonical bytes plus dimensions and format
/// tag. Created once by the normalizer and immutable thereafter.
#[derive(Debug, PartialEq, Eq)]
pub struct ImageResource {
    pub bytes: Vec<u8>,
    pub width: u32,
    pub height: u32,
    pub format: ImageFormat,
}

impl ImageResource {
    /// A normalized buffer always holds whole 4-byte strides.
    pub open spec fn wf(self) -> bool {
        self.bytes@.len() % 4 == 0
    }
}

/// Brings a decoded bitmap into the canonical format: B,G,R,A channel
/// order, premultiplied alpha where the source carried straight alpha.
/// Unsupported source formats and ragged buffers are rejected whole: on any
/// error no output exists and no byte was normalized.
pub fn normalize(format: SourceFormat, width: u32, height: u32, bytes: Vec<u8>) -> (r: Result<
    ImageResource,
    SceneError,
>)
    ensures
        r == Err::<ImageResource, SceneError>(SceneError::UnsupportedPixelFormat)
            <==> !format.supported(),
        r == Err::<ImageResource, SceneError>(SceneError::MalformedImageBuffer)
            <==> format.supported() && bytes@.len() % 4 != 0,
        format.supported() && bytes@.len() % 4 == 0 ==> (r matches Ok(img) && img.width == width
            && img.height == height && img.format == format.canonical() && img.bytes@ == (
        if format.premultiplies() {
            swapped_premultiplied(bytes@)
        } else {
            swapped(bytes@)
        }) && img.wf()),
{
    match format {
        SourceFormat::AlphaOnly | SourceFormat::LuminanceAlpha | SourceFormat::HighDynamicRange => {
            Err(SceneError::UnsupportedPixelFormat)
        },
        SourceFormat::OpaqueRgb | SourceFormat::OpaqueRgba | SourceFormat::StraightRgba => {
            let mut data = bytes;
            if data.len() % 4 != 0 {
                return Err(SceneError::MalformedImageBuffer);
            }
            let out_format: ImageFormat;
            match format {
                SourceFormat::StraightRgba => {
                    byte_swap_and_premultiply(&mut data);
                    out_format = ImageFormat::Rgba8;
                },
                SourceFormat::OpaqueRgb => {
                    byte_swap(&mut data);
                    out_format = ImageFormat::Rgb8;
                },
                _ => {
                    byte_swap(&mut data);
                    out_format = ImageFormat::Rgba8;
                },
            }
            Ok(ImageResource { bytes: data, width, height, format: out_format })
        },
    }
}

/// What the PNG decode boundary handed back: the frame's dimensions, its
/// colour type and bit depth as the PNG format numbers them, and the raw
/// sample buffer.
pub enum PngDecoded {
    Pixels { width: u32, height: u32, color_code: u8, bit_depth: u8, data: Vec<u8> },
    Failed,
}

/// The PNG colour-type codes the loader understands: greyscale, truecolour,
/// greyscale with alpha, and truecolour with alpha.
pub const PNG_COLOR_GRAY: u8 = 0;

pub const PNG_COLOR_RGB: u8 = 2;

pub const PNG_COLOR_GRAY_ALPHA: u8 = 4;

pub const PNG_COLOR_RGBA: u8 = 6;

/// Whether the PNG decoder accepts the stream at all; the decode is a
/// function of the stream's bytes alone.
pub uninterp spec fn png_ok_of(s: Seq<u8>) -> bool;

/// The width of the decoded PNG frame.
pub uninterp spec fn png_width_of(s: Seq<u8>) -> u32;

/// The height of the decoded PNG frame.
pub uninterp spec fn png_height_of(s: Seq<u8>) -> u32;

/// The colour-type code of the decoded PNG frame, after palette expansion.
pub uninterp spec fn png_color_of(s: Seq<u8>) -> u8;

/// The bit depth of the decoded PNG frame.
pub uninterp spec fn png_depth_of(s: Seq<u8>) -> u8;

/// The decoded PNG frame's raw samples.
pub uninterp spec fn png_pixels_of(s: Seq<u8>) -> Seq<u8>;

/// Relies on png::Decoder and png::Reader::next_frame to decode the first
/// frame of a PNG stream into a raw sample buffer, with palettes and
/// sub-8-bit samples expanded; the decode depends on the stream's bytes
/// alone, and every failure comes back as `Failed`.
#[verifier::external_body]
fn decode_png(buffer: &[u8]) -> (r: PngDecoded)
    ensures
        r is Pixels <==> png_ok_of(buffer@),
        r matches PngDecoded::Pixels { width, height, color_code, bit_depth, data } ==> width
            == png_width_of(buffer@) && height == png_height_of(buffer@) && color_code
            == png_color_of(buffer@) && bit_depth == png_depth_of(buffer@) && data@
            == png_pixels_of(buffer@),
{
    let mut d = png::Decoder::new(std::io::Cursor::new(buffer));
    d.set_transformations(png::Transformations::EXPAND);
    let mut rd = match d.read_info() { Ok(x) => x, Err(_) => return PngDecoded::Failed };
    let n = match rd.output_buffer_size() { Some(x) => x, None => return PngDecoded::Failed };
    let mut data = vec![0u8; n];
    let info = match rd.next_frame(&mut data) { Ok(x) => x, Err(_) => return PngDecoded::Failed };
    PngDecoded::Pixels {
        width: info.width,
        height: info.height,
        color_code: info.color_type as u8,
        bit_depth: info.bit_depth as u8,
        data,
    }
}

/// What the general-purpose decode boundary handed back.
pub enum StbDecoded {
    Pixels { width: usize, height: usize, depth: usize, data: Vec<u8> },
    Failed,
}

/// Whether the general-purpose decoder accepts the buffer at the given
/// forced depth; the decode is a function of these two alone.
pub uninterp spec fn stb_ok_of(s: Seq<u8>, force_depth: usize) -> bool;

/// The width of the decoded image.
pub uninterp spec fn stb_width_of(s: Seq<u8>, force_depth: usize) -> usize;

/// The height of the decoded image.
pub uninterp spec fn stb_height_of(s: Seq<u8>, force_depth: usize) -> usize;

/// The decoded image's samples at the forced depth.
pub uninterp spec fn stb_pixels_of(s: Seq<u8>, force_depth: usize) -> Seq<u8>;

/// Relies on stb_image::image::load_from_memory_with_depth, called with HDR
/// conversion on, so every successful decode is 8-bit (a floating-point
/// result cannot come back, and is mapped to `Failed` alongside errors).
/// The decode depends on the buffer and the forced depth alone; a decoded
/// image holds exactly width * height * depth samples, and a forced nonzero
/// depth is the depth that comes back (the decoder itself refuses images
/// whose byte size would overflow).
#[verifier::external_body]
fn decode_stb(buffer: &[u8], force_depth: usize) -> (r: StbDecoded)
    ensures
        r is Pixels <==> stb_ok_of(buffer@, force_depth),
        r matches StbDecoded::Pixels { width, height, depth, data } ==> width == stb_width_of(
            buffer@,
            force_depth,
        ) && height == stb_height_of(buffer@, force_depth) && data@ == stb_pixels_of(
            buffer@,
            force_depth,
        ) && data@.len() == width * height * depth && (force_depth != 0 ==> depth == force_depth),
{
    match stb_image::image::load_from_memory_with_depth(buffer, force_depth, true) {
        stb_image::image::LoadResult::ImageU8(image) => StbDecoded::Pixels {
            width: image.width,
            height: image.height,
            depth: image.depth,
            data: image.data,
        },
        stb_image::image::LoadResult::ImageF32(_) => StbDecoded::Failed,
        stb_image::image::LoadResult::Error(_) => StbDecoded::Failed,
    }
}

/// Decodes a compressed image from memory and normalizes it. PNG streams go
/// to the PNG decoder; everything else goes to the general-purpose decoder
/// at a forced depth of 4, premultiplying when the container is GIF-derived
/// (such buffers carry straight alpha whatever the forced depth says).
/// An empty buffer, a decode failure, an unsupported layout, an oversized
/// image or a ragged buffer all come back as `None`.
pub fn load_from_memory(buffer: &[u8]) -> (r: Option<ImageResource>)
    ensures
        buffer@.len() == 0 ==> r is None,
        r matches Some(img) ==> img.wf() && (img.format == ImageFormat::Rgb8 || img.format
            == ImageFormat::Rgba8),
        buffer@.len() != 0 && spec_is_png(buffer@) ==> (r is Some <==> png_ok_of(buffer@)
            && png_depth_of(buffer@) == 8 && (png_color_of(buffer@) == PNG_COLOR_RGB
            || png_color_of(buffer@) == PNG_COLOR_RGBA) && png_pixels_of(buffer@).len() % 4 == 0),
        buffer@.len() != 0 && spec_is_png(buffer@) && png_ok_of(buffer@) && png_depth_of(buffer@)
            == 8 && png_color_of(buffer@) == PNG_COLOR_RGB && png_pixels_of(buffer@).len() % 4
            == 0 ==> (r matches Some(img) && img.width == png_width_of(buffer@) && img.height
            == png_height_of(buffer@) && img.format == ImageFormat::Rgb8 && img.bytes@ == swapped(
            png_pixels_of(buffer@),
        )),
        buffer@.len() != 0 && spec_is_png(buffer@) && png_ok_of(buffer@) && png_depth_of(buffer@)
            == 8 && png_color_of(buffer@) == PNG_COLOR_RGBA && png_pixels_of(buffer@).len() % 4
            == 0 ==> (r matches Some(img) && img.width == png_width_of(buffer@) && img.height
            == png_height_of(buffer@) && img.format == ImageFormat::Rgba8 && img.bytes@
            == swapped_premultiplied(png_pixels_of(buffer@))),
        buffer@.len() != 0 && !spec_is_png(buffer@) ==> (r is Some <==> stb_ok_of(buffer@, 4)
            && stb_width_of(buffer@, 4) <= 0xFFFF_FFFF && stb_height_of(buffer@, 4)
            <= 0xFFFF_FFFF),
        buffer@.len() != 0 && !spec_is_png(buffer@) && stb_ok_of(buffer@, 4) && stb_width_of(
            buffer@,
            4,
        ) <= 0xFFFF_FFFF && stb_height_of(buffer@, 4) <= 0xFFFF_FFFF ==> (r matches Some(img)
            && img.width == stb_width_of(buffer@, 4) as u32 && img.height == stb_height_of(
            buffer@,
            4,
        ) as u32 && img.format == ImageFormat::Rgba8 && img.bytes@ == (if spec_is_gif(buffer@) {
            swapped_premultiplied(stb_pixels_of(buffer@, 4))
        } else {
            swapped(stb_pixels_of(buffer@, 4))
        })),
{
    if buffer.len() == 0 {
        return None;
    }
    if is_png(buffer) {
        match decode_png(buffer) {
            PngDecoded::Failed => None,
            PngDecoded::Pixels { width, height, color_code, bit_depth, data } => {
                if bit_depth != 8 {
                    return None;
                }
                let format: SourceFormat;
                if color_code == PNG_COLOR_RGB {
                    format = SourceFormat::OpaqueRgb;
                } else if color_code == PNG_COLOR_RGBA {
                    format = SourceFormat::StraightRgba;
                } else if color_code == PNG_COLOR_GRAY {
                    format = SourceFormat::AlphaOnly;
                } else if color_code == PNG_COLOR_GRAY_ALPHA {
                    format = SourceFormat::LuminanceAlpha;
                } else {
                    return None;
                }
                match normalize(format, width, height, data) {
                    Ok(img) => Some(img),
                    Err(_) => None,
                }
            },
        }
    } else {
        match decode_stb(buffer, 4) {
            StbDecoded::Failed => None,
            StbDecoded::Pixels { width, height, depth, data } => {
                assert(depth == 4);
                proof {
                    lemma_mod_multiples_basic((width as int) * (height as int), 4);
                    assert(data@.len() % 4 == 0);
                }
                if width > 0xFFFF_FFFFusize || height > 0xFFFF_FFFFusize {
                    return None;
                }
                let format = if is_gif(buffer) {
                    SourceFormat::StraightRgba
                } else {
                    SourceFormat::OpaqueRgba
                };
                match normalize(format, width as u32, height as u32, data) {
                    Ok(img) => Some(img),
                    Err(_) => None,
                }
            },
        }
    }
}

} // verus!
