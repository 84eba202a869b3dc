//! Building XObject streams: images from decoded pixels and the encoded file,
//! and forms from content bytes.
use crate::content::Real;
use crate::stream::{
    has_jpeg_signature, sniff_jpeg, zlib_of, ColorSpace, Filter, FormInfo, ImageInfo, Stream,
    XObjectInfo, COMPRESSION_LEVEL,
};
use vstd::prelude::*;

verus! {

/// The pixel layout of a decoded image.
#[derive(Clone, Copy, Debug, PartialEq, Eq, Structural)]
pub enum PixelFormat {
    Gray,
    Rgb,
    Palette,
    GrayAlpha,
    RgbAlpha,
}

/// The colour space that each pixel layout is filed under.
pub open spec fn color_space_of(format: PixelFormat) -> ColorSpace {
    match format {
        PixelFormat::Gray => ColorSpace::DeviceGray,
        PixelFormat::Rgb => ColorSpace::DeviceRGB,
        PixelFormat::Palette => ColorSpace::Indexed,
        PixelFormat::GrayAlpha => ColorSpace::DeviceN,
        PixelFormat::RgbAlpha => ColorSpace::DeviceN,
    }
}

/// The colour space and bits per component of an image whose pixels have
/// layout `format` at `bit_depth` bits: the depth passes through unchanged.
pub fn color_model(format: PixelFormat, bit_depth: u8) -> (r: (ColorSpace, u8))
    ensures
        r == (color_space_of(format), bit_depth),
{
    let space = match format {
        PixelFormat::Gray => ColorSpace::DeviceGray,
        PixelFormat::Rgb => ColorSpace::DeviceRGB,
        PixelFormat::Palette => ColorSpace::Indexed,
        PixelFormat::GrayAlpha => ColorSpace::DeviceN,
        PixelFormat::RgbAlpha => ColorSpace::DeviceN,
    };
    (space, bit_depth)
}

/// An image as a decoder hands it over: its size, its pixel layout and
/// depth, and its pixels row by row without padding.
#[derive(Clone, Debug)]
pub struct DecodedImage {
    pub width: u32,
    pub height: u32,
    pub format: PixelFormat,
    pub bit_depth: u8,
    pub pixels: Vec<u8>,
}

/// The metadata that an image XObject built from `img` carries.
pub open spec fn image_info_of(img: DecodedImage) -> ImageInfo {
    ImageInfo {
        width: img.width,
        height: img.height,
        color_space: color_space_of(img.format),
        bits_per_component: img.bit_depth,
    }
}

/// The colour metadata of an image XObject depends on the pixel layout and
/// bit depth alone: two decoded images that agree on those get the same
/// colour space and bits per component, whatever their size and pixels.
pub proof fn color_model_ignores_pixels(a: DecodedImage, b: DecodedImage)
    requires
        a.format == b.format,
        a.bit_depth == b.bit_depth,
    ensures
        image_info_of(a).color_space == image_info_of(b).color_space,
        image_info_of(a).bits_per_component == image_info_of(b).bits_per_component,
        image_info_of(a).bits_per_component == a.bit_depth,
{
}

/// A form XObject with bounding box `bbox` and matrix `matrix`, whose
/// payload `content` is always zlib-compressed.
pub fn form(bbox: [Real; 4], matrix: [Real; 6], content: Vec<u8>) -> (r: Stream)
    ensures
        r.info matches XObjectInfo::Form(f) && f.bbox@ == bbox@ && f.matrix@ == matrix@,
        r.filter == Some(Filter::FlateDecode),
        r.content@ == zlib_of(content@, COMPRESSION_LEVEL),
{
    let mut xobject = Stream::new(XObjectInfo::Form(FormInfo { bbox, matrix }), content);
    xobject.compress();
    xobject
}

/// An image XObject for the decoded image `img` whose file held `file`.
/// When the file is a JPEG its bytes become the payload as they are, under
/// `DCTDecode`; otherwise the payload is the compressed pixels.
pub fn image(img: DecodedImage, file: Vec<u8>) -> (r: Stream)
    ensures
        r.info == XObjectInfo::Image(image_info_of(img)),
        has_jpeg_signature(file@) ==> r.filter == Some(Filter::DCTDecode) && r.content@ == file@,
        !has_jpeg_signature(file@) ==> r.filter == Some(Filter::FlateDecode) && r.content@
            == zlib_of(img.pixels@, COMPRESSION_LEVEL),
{
    let (color_space, bits) = color_model(img.format, img.bit_depth);
    let info = ImageInfo {
        width: img.width,
        height: img.height,
        color_space,
        bits_per_component: bits,
    };
    let is_jpeg = sniff_jpeg(file.as_slice());
    if is_jpeg {
        let mut stream = Stream::new(XObjectInfo::Image(info), file);
        stream.filter = Some(Filter::DCTDecode);
        stream
    } else {
        let mut stream = Stream::new(XObjectInfo::Image(info), img.pixels);
        stream.compress();
        stream
    }
}

} // verus!
