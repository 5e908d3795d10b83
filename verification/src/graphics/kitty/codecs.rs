//! Calls of the crates that know base64, zlib and PNG, and of `String::from_utf8`.

use base64::alphabet;
use base64::engine::{DecodePaddingMode, GeneralPurpose, GeneralPurposeConfig};
use base64::Engine;
use flate2::read::ZlibDecoder;
use std::io::Read;
use vstd::prelude::*;
use vstd::utf8::{encode_utf8, valid_utf8};

use crate::graphics::{MAX_GRAPHIC_HEIGHT, MAX_GRAPHIC_WIDTH};

verus! {

/// What decoding `data` as base64 gives: the bytes, or the words of the error.
pub uninterp spec fn base64_decoded(data: Seq<u8>) -> Result<Seq<u8>, Seq<char>>;

/// What decompressing `data` as a zlib stream gives: the bytes, or the words of the error.
pub uninterp spec fn zlib_inflated(data: Seq<u8>) -> Result<Seq<u8>, Seq<char>>;

/// What reading the metadata of the PNG file `data` gives on a machine whose largest word is
/// `word`: width and height, or the words of the error.
pub uninterp spec fn png_header(data: Seq<u8>, word: nat) -> Result<(u32, u32), Seq<char>>;

/// What decoding the first image of the PNG file `data` gives on a machine whose largest word is
/// `word`, with a buffer of `fallback` bytes where the file does not tell the size: color type,
/// buffer and the number of its bytes that the image takes up, or the words of the error.
pub uninterp spec fn png_frame(data: Seq<u8>, fallback: nat, word: nat) -> Result<
    (PngColor, Seq<u8>, nat),
    Seq<char>,
>;

/// How `String::from_utf8` words its error about `bytes`.
pub uninterp spec fn utf8_complaint(bytes: Seq<u8>) -> Seq<char>;

/// How the samples of a PNG image make up pixels.
#[derive(Debug, Clone, Copy, PartialEq, Eq, Structural)]
pub enum PngColor {
    Grayscale,
    Rgb,
    Indexed,
    GrayscaleAlpha,
    Rgba,
}

/// A decoded PNG image.
#[derive(Debug, Clone)]
pub struct PngFrame {
    pub color: PngColor,
    /// The buffer that the image was decoded into.
    pub samples: Vec<u8>,
    /// Number of bytes of the buffer that the image takes up.
    pub size: usize,
}

/// A result over the values that its parts stand for.
pub open spec fn bytes_view(r: Result<Vec<u8>, String>) -> Result<Seq<u8>, Seq<char>> {
    match r {
        Ok(bytes) => Ok(bytes@),
        Err(e) => Err(e@),
    }
}

/// A result over the values that its parts stand for.
pub open spec fn header_view(r: Result<(u32, u32), String>) -> Result<(u32, u32), Seq<char>> {
    match r {
        Ok(size) => Ok(size),
        Err(e) => Err(e@),
    }
}

/// A result over the values that its parts stand for.
pub open spec fn frame_view(r: Result<PngFrame, String>) -> Result<
    (PngColor, Seq<u8>, nat),
    Seq<char>,
> {
    match r {
        Ok(frame) => Ok((frame.color, frame.samples@, frame.size as nat)),
        Err(e) => Err(e@),
    }
}

/// Calls `base64::Engine::decode` of a `GeneralPurpose` engine with the standard alphabet, which
/// takes padding or leaves it. Believed of it: the outcome, with the error put into words, depends
/// on the data alone.
#[verifier::external_body]
pub(crate) fn base64_decode(data: &[u8]) -> (r: Result<Vec<u8>, String>)
    ensures
        bytes_view(r) == base64_decoded(data@),
{
    let config = GeneralPurposeConfig::new()
        .with_decode_padding_mode(DecodePaddingMode::Indifferent);
    match GeneralPurpose::new(&alphabet::STANDARD, config).decode(data) {
        Ok(bytes) => Ok(bytes),
        Err(e) => Err(e.to_string()),
    }
}

/// Reads a `flate2::read::ZlibDecoder` to its end. Believed of it: the outcome, with the error put
/// into words, depends on the data alone.
#[verifier::external_body]
pub(crate) fn zlib_inflate(data: &[u8]) -> (r: Result<Vec<u8>, String>)
    ensures
        bytes_view(r) == zlib_inflated(data@),
{
    let mut bytes = Vec::new();
    match ZlibDecoder::new(data).read_to_end(&mut bytes) {
        Ok(_) => Ok(bytes),
        Err(e) => Err(e.to_string()),
    }
}

/// Calls `png::Decoder::read_info` and looks up width and height. Believed of it: the outcome, with
/// the error put into words, depends on the data and the size of a machine word alone.
#[verifier::external_body]
pub(crate) fn png_read_header(data: &[u8]) -> (r: Result<(u32, u32), String>)
    ensures
        header_view(r) == png_header(data@, usize::MAX as nat),
{
    match png::Decoder::new(std::io::Cursor::new(data)).read_info() {
        Ok(reader) => Ok((reader.info().width, reader.info().height)),
        Err(e) => Err(e.to_string()),
    }
}

/// Calls `png::Decoder::read_info` and then `png::Reader::next_frame` on a buffer of the size that
/// `png::Reader::output_buffer_size` gives, or of `fallback` bytes, and looks up
/// `png::OutputInfo::buffer_size`. Believed of it: the outcome, with errors put into words, depends
/// on the data, on `fallback` and on the size of a machine word alone. The image has to be of a size
/// whose buffer can be allocated.
#[verifier::external_body]
pub(crate) fn png_read_frame(data: &[u8], fallback: usize) -> (r: Result<PngFrame, String>)
    requires
        png_header(data@, usize::MAX as nat) matches Ok((w, h)) && w <= MAX_GRAPHIC_WIDTH && h
            <= MAX_GRAPHIC_HEIGHT,
        fallback <= MAX_GRAPHIC_WIDTH * MAX_GRAPHIC_HEIGHT * 4,
    ensures
        frame_view(r) == png_frame(data@, fallback as nat, usize::MAX as nat),
{
    let decoder = png::Decoder::new(std::io::Cursor::new(data));
    let mut reader = decoder.read_info().map_err(|e| e.to_string())?;
    let mut samples = vec![0u8; reader.output_buffer_size().unwrap_or(fallback)];
    let info = reader.next_frame(&mut samples).map_err(|e| e.to_string())?;
    let color = match info.color_type {
        png::ColorType::Grayscale => PngColor::Grayscale,
        png::ColorType::Rgb => PngColor::Rgb,
        png::ColorType::Indexed => PngColor::Indexed,
        png::ColorType::GrayscaleAlpha => PngColor::GrayscaleAlpha,
        png::ColorType::Rgba => PngColor::Rgba,
    };
    Ok(PngFrame { color, samples, size: info.buffer_size() })
}

/// Calls `String::from_utf8`. Believed of it: it succeeds on valid UTF-8 only, with the text that
/// the bytes encode; the words of its error depend on the bytes alone.
#[verifier::external_body]
pub(crate) fn utf8_decode(bytes: Vec<u8>) -> (r: Result<String, String>)
    ensures
        r is Ok <==> valid_utf8(bytes@),
        r matches Ok(text) ==> encode_utf8(text@) == bytes@,
        r matches Err(e) ==> e@ == utf8_complaint(bytes@),
{
    match String::from_utf8(bytes) {
        Ok(text) => Ok(text),
        Err(e) => Err(e.to_string()),
    }
}

} // verus!
