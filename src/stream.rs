//! XObject streams: their metadata, their payload and its filter, and the
//! outside routines that compress payloads and sniff image containers.
use crate::content::Real;
use vstd::prelude::*;

verus! {

/// The zlib level that fresh compression uses.
pub const COMPRESSION_LEVEL: u8 = 6;

/// A PDF colour space name that an image XObject can carry.
#[derive(Clone, Copy, Debug, PartialEq, Eq, Structural)]
pub enum ColorSpace {
    DeviceGray,
    DeviceRGB,
    Indexed,
    DeviceN,
}

/// The filter that a stream's payload is encoded with.
#[derive(Clone, Copy, Debug, PartialEq, Eq, Structural)]
pub enum Filter {
    /// JPEG data, kept as the file held it.
    DCTDecode,
    /// zlib-compressed data.
    FlateDecode,
}

/// The metadata of an image XObject.
#[derive(Clone, Copy, Debug, PartialEq, Eq, Structural)]
pub struct ImageInfo {
    pub width: u32,
    pub height: u32,
    pub color_space: ColorSpace,
    pub bits_per_component: u8,
}

/// The metadata of a form XObject: its bounding box and its matrix.
#[derive(Clone, Copy, Debug)]
pub struct FormInfo {
    pub bbox: [Real; 4],
    pub matrix: [Real; 6],
}

/// The subtype of an XObject, with the metadata that belongs to it.
#[derive(Clone, Copy, Debug)]
pub enum XObjectInfo {
    Image(ImageInfo),
    Form(FormInfo),
}

/// An XObject stream: metadata, the filter of the payload if it is encoded,
/// and the payload bytes.
#[derive(Clone, Debug)]
pub struct Stream {
    pub info: XObjectInfo,
    pub filter: Option<Filter>,
    pub content: Vec<u8>,
}

/// The mathematical value of a [`Stream`].
pub struct StreamView {
    pub info: XObjectInfo,
    pub filter: Option<Filter>,
    pub content: Seq<u8>,
}

impl View for Stream {
    type V = StreamView;

    open spec fn view(&self) -> StreamView {
        StreamView { info: self.info, filter: self.filter, content: self.content@ }
    }
}

/// What zlib compression at `level` makes of `data`.
pub uninterp spec fn zlib_of(data: Seq<u8>, level: u8) -> Seq<u8>;

/// Relies on miniz_oxide::deflate::compress_to_vec_zlib: the zlib stream of
/// `data` at `level`, which depends on its arguments alone.
#[verifier::external_body]
fn zlib_compress(data: &[u8], level: u8) -> (r: Vec<u8>)
    ensures
        r@ == zlib_of(data@, level),
{
    miniz_oxide::deflate::compress_to_vec_zlib(data, level)
}

/// Whether `bytes` opens with the JPEG signature `FF D8 FF`.
pub open spec fn has_jpeg_signature(bytes: Seq<u8>) -> bool {
    bytes.len() >= 3 && bytes[0] == 0xffu8 && bytes[1] == 0xd8u8 && bytes[2] == 0xffu8
}

/// Relies on image::guess_format: it reports JPEG exactly for the buffers
/// that start with `FF D8 FF` (PNG's, the one signature it tries first,
/// starts with another byte).
#[verifier::external_body]
pub(crate) fn sniff_jpeg(bytes: &[u8]) -> (r: bool)
    ensures
        r == has_jpeg_signature(bytes@),
{
    matches!(::image::guess_format(bytes), Ok(::image::ImageFormat::Jpeg))
}

impl Stream {
    /// A stream with the given metadata and payload, and no filter.
    pub fn new(info: XObjectInfo, content: Vec<u8>) -> (r: Stream)
        ensures
            r@ == (StreamView { info, filter: None, content: content@ }),
    {
        Stream { info, filter: None, content }
    }

    /// Compresses the payload with zlib and marks it `FlateDecode`, unless
    /// it already carries a filter.
    pub fn compress(&mut self)
        ensures
            final(self).info == old(self).info,
            old(self).filter is None ==> final(self).filter == Some(Filter::FlateDecode)
                && final(self).content@ == zlib_of(old(self).content@, COMPRESSION_LEVEL),
            old(self).filter is Some ==> final(self)@ == old(self)@,
    {
        if self.filter.is_none() {
            let compressed = zlib_compress(self.content.as_slice(), COMPRESSION_LEVEL);
            self.content = compressed;
            self.filter = Some(Filter::FlateDecode);
        }
    }
}

} // verus!
