//! Kitty graphics payload decode pipeline.
//!
//! Pipeline: base64, zlib (optional), format decode, `GraphicData`.
//!
//! Supported transmission mediums:
//! - `Direct` (`t=d`): inline base64 payload
//! - `File` (`t=f`): base64-encoded file path
//! - `TempFile` (`t=t`): base64-encoded absolute or relative path; canonicalized and verified
//!   within a known temp dir
//! - `SharedMemory` (`t=s`): base64-encoded POSIX shm object name (unix only)

use vstd::prelude::*;
use vstd::string::StringExecFns;
use vstd::utf8::{decode_utf8, encode_utf8_decode_utf8, valid_utf8};

use crate::graphics::kitty::codecs::{
    base64_decode, base64_decoded, bytes_view, frame_view, header_view, png_frame, png_header,
    png_read_frame, png_read_header, utf8_complaint, utf8_decode, zlib_inflate, zlib_inflated,
    PngColor, PngFrame,
};
use crate::graphics::kitty::error::{DecodeError, ErrorView};
use crate::graphics::kitty::file::{FilePhase, FileRead, FileTarget};
use crate::graphics::kitty::shm::{ShmPhaseView, ShmRead, ShmTarget};
use crate::graphics::kitty_parser::{Compression, Format, KittyCommand, Medium};
use crate::graphics::{
    ColorType, GraphicData, GraphicId, GraphicView, MAX_GRAPHIC_HEIGHT, MAX_GRAPHIC_WIDTH,
};
use crate::text::{decimal, joined, push_decimal};

verus! {

/// Maximum dimensions for a single image.
pub const MAX_IMAGE_WIDTH: u32 = 10000;

pub const MAX_IMAGE_HEIGHT: u32 = 10000;

/// What decoding gives, as a mathematical value.
pub type Outcome = Result<GraphicView, ErrorView>;

/// The value of a decoding result.
pub open spec fn outcome(r: Result<GraphicData, DecodeError>) -> Outcome {
    match r {
        Ok(data) => Ok(data@),
        Err(e) => Err(e@),
    }
}

/// The value of the bytes of a payload.
pub open spec fn payload_view(r: Result<Vec<u8>, DecodeError>) -> Result<Seq<u8>, ErrorView> {
    match r {
        Ok(bytes) => Ok(bytes@),
        Err(e) => Err(e@),
    }
}

// Base64.

/// `data` without padding characters.
pub open spec fn unpadded(data: Seq<u8>) -> Seq<u8>
    decreases data.len(),
{
    if data.len() == 0 {
        Seq::empty()
    } else if data.last() == 0x3d {
        unpadded(data.drop_last())
    } else {
        unpadded(data.drop_last()).push(data.last())
    }
}

/// The bytes of a payload whose base64 decoding gave `decoded`.
pub open spec fn base64_outcome(decoded: Result<Seq<u8>, Seq<char>>) -> Result<
    Seq<u8>,
    ErrorView,
> {
    match decoded {
        Ok(bytes) => Ok(bytes),
        Err(e) => Err(ErrorView::Base64(e)),
    }
}

/// The bytes of an inline payload.
pub open spec fn direct_bytes(raw_payload: Seq<u8>) -> Result<Seq<u8>, ErrorView> {
    base64_outcome(base64_decoded(unpadded(raw_payload)))
}

/// Remove the padding characters (`=`), wherever they are.
pub fn strip_padding(data: &[u8]) -> (cleaned: Vec<u8>)
    ensures
        cleaned@ == unpadded(data@),
{
    let mut cleaned: Vec<u8> = Vec::new();
    let mut i: usize = 0;
    while i < data.len()
        invariant
            i <= data@.len(),
            cleaned@ == unpadded(data@.take(i as int)),
        decreases data@.len() - i,
    {
        if data[i] != 0x3d {
            cleaned.push(data[i]);
        }
        assert(data@.take(i + 1).drop_last() =~= data@.take(i as int));
        i += 1;
    }
    assert(data@.take(i as int) =~= data@);
    cleaned
}

/// The bytes of a payload whose base64 decoding gave `decoded`.
pub fn accept_base64(decoded: Result<Vec<u8>, String>) -> (bytes: Result<Vec<u8>, DecodeError>)
    ensures
        payload_view(bytes) == base64_outcome(bytes_view(decoded)),
{
    match decoded {
        Ok(bytes) => Ok(bytes),
        Err(e) => Err(DecodeError::Base64(e)),
    }
}

/// Decode an inline base64 payload (`Medium::Direct`).
///
/// Strips `=` padding before decoding to handle chunked transfers where
/// intermediate chunks include trailing padding characters.
pub fn decode_direct_payload(raw_payload: &[u8]) -> (bytes: Result<Vec<u8>, DecodeError>)
    ensures
        payload_view(bytes) == direct_bytes(raw_payload@),
{
    let cleaned: Vec<u8> = strip_padding(raw_payload);
    accept_base64(base64_decode(cleaned.as_slice()))
}

// Raw pixels.

/// The opaque RGBA pixels of RGB pixels; bytes that do not make up a pixel are dropped.
pub open spec fn rgba_of_rgb(rgb: Seq<u8>) -> Seq<u8> {
    Seq::new(
        rgb.len() / 3 * 4,
        |i: int|
            if i % 4 == 3 {
                255u8
            } else {
                rgb[i / 4 * 3 + i % 4]
            },
    )
}

/// Convert an RGB byte slice to RGBA (fully opaque).
pub fn rgb_bytes_to_rgba(rgb: &[u8]) -> (rgba: Vec<u8>)
    ensures
        rgba@ == rgba_of_rgb(rgb@),
{
    let pixel_count: usize = rgb.len() / 3;
    let mut rgba: Vec<u8> = Vec::new();
    let mut k: usize = 0;
    while k < pixel_count
        invariant
            k <= pixel_count == rgb@.len() / 3,
            rgb@.len() <= usize::MAX,
            rgba@.len() == k * 4,
            forall|i: int| 0 <= i < k * 4 ==> #[trigger] rgba@[i] == rgba_of_rgb(rgb@)[i],
        decreases pixel_count - k,
    {
        rgba.push(rgb[k * 3]);
        rgba.push(rgb[k * 3 + 1]);
        rgba.push(rgb[k * 3 + 2]);
        rgba.push(255);
        k += 1;
    }
    assert(rgba@ =~= rgba_of_rgb(rgb@));
    rgba
}

/// How the size of `w` x `h` pixels is written.
pub open spec fn size_text(w: nat, h: nat) -> Seq<char> {
    decimal(w) + "x"@ + decimal(h)
}

/// The complaint about the length of raw pixel data; `layout` describes a pixel.
pub open spec fn length_complaint(
    w: nat,
    h: nat,
    bpp: nat,
    layout: Seq<char>,
    len: nat,
) -> Seq<char> {
    "expected "@ + decimal(w * h * bpp) + " bytes for "@ + size_text(w, h) + "x"@ + decimal(bpp)
        + layout + ", got "@ + decimal(len)
}

/// The complaint about too large an image, which `what` introduces.
pub open spec fn limit_complaint(what: Seq<char>, w: nat, h: nat) -> Seq<char> {
    what + size_text(w, h) + " exceeds max "@ + size_text(
        MAX_IMAGE_WIDTH as nat,
        MAX_IMAGE_HEIGHT as nat,
    )
}

/// The bytes of an image of `w` x `h` pixels of `bpp` bytes each.
///
/// There may be more bytes than needed, up to those of one more row: the others are dropped.
pub open spec fn image_bytes(
    data: Seq<u8>,
    w: nat,
    h: nat,
    bpp: nat,
    layout: Seq<char>,
) -> Result<Seq<u8>, ErrorView> {
    if w == 0 || h == 0 {
        Err(ErrorView::MissingDimensions)
    } else if data.len() < w * h * bpp || data.len() > w * h * bpp + w * bpp {
        Err(ErrorView::InvalidDimensions(length_complaint(w, h, bpp, layout, data.len())))
    } else if w > MAX_IMAGE_WIDTH || h > MAX_IMAGE_HEIGHT {
        Err(ErrorView::InvalidDimensions(limit_complaint(Seq::empty(), w, h)))
    } else {
        Ok(data.take((w * h * bpp) as int))
    }
}

/// The image that raw pixels of `bpp` bytes make up.
pub open spec fn raw_image(data: Seq<u8>, w: nat, h: nat, bpp: nat) -> Outcome {
    match image_bytes(data, w, h, bpp, Seq::empty()) {
        Ok(bytes) => Ok(
            GraphicView {
                id: GraphicId(0),
                width: w,
                height: h,
                color_type: if bpp == 4 {
                    ColorType::Rgba
                } else {
                    ColorType::Rgb
                },
                pixels: bytes,
                is_opaque: bpp == 3,
            },
        ),
        Err(e) => Err(e),
    }
}

/// The image that RGB pixels make up.
pub open spec fn rgb_image(data: Seq<u8>, w: nat, h: nat) -> Outcome {
    match image_bytes(data, w, h, 3, " (RGB)"@) {
        Ok(bytes) => Ok(
            GraphicView {
                id: GraphicId(0),
                width: w,
                height: h,
                color_type: ColorType::Rgba,
                pixels: rgba_of_rgb(bytes),
                is_opaque: true,
            },
        ),
        Err(e) => Err(e),
    }
}

/// Append the size of `w` x `h` pixels.
fn push_size(text: &mut String, w: u128, h: u128)
    ensures
        final(text)@ == old(text)@ + size_text(w as nat, h as nat),
{
    push_decimal(text, w);
    text.append("x");
    push_decimal(text, h);
    assert(text@ =~= old(text)@ + size_text(w as nat, h as nat));
}

/// The complaint about too large an image.
fn limit_message(what: &str, w: u128, h: u128) -> (text: String)
    ensures
        text@ == limit_complaint(what@, w as nat, h as nat),
{
    let mut text: String = what.to_owned();
    push_size(&mut text, w, h);
    text.append(" exceeds max ");
    push_size(&mut text, MAX_IMAGE_WIDTH as u128, MAX_IMAGE_HEIGHT as u128);
    assert(text@ =~= limit_complaint(what@, w as nat, h as nat));
    text
}

/// The bytes of an image, cut off where it ends.
fn checked_image_bytes(
    data: &[u8],
    width: u32,
    height: u32,
    bpp: usize,
    layout: &str,
) -> (bytes: Result<Vec<u8>, DecodeError>)
    ensures
        payload_view(bytes) == image_bytes(
            data@,
            width as nat,
            height as nat,
            bpp as nat,
            layout@,
        ),
{
    if width == 0 || height == 0 {
        return Err(DecodeError::MissingDimensions);
    }
    let w: u128 = width as u128;
    let h: u128 = height as u128;
    let b: u128 = bpp as u128;
    assert(w * h <= 0xffff_ffff * 0xffff_ffff && w * b <= 0xffff_ffff * 0xffff_ffff_ffff_ffff)
        by (nonlinear_arith)
        requires
            0 <= w <= 0xffff_ffff,
            0 <= h <= 0xffff_ffff,
            0 <= b <= 0xffff_ffff_ffff_ffff,
    ;
    let ghost area = w * h;
    assert(area * b <= 0xffff_ffff * 0xffff_ffff * 0xffff_ffff_ffff_ffff) by (nonlinear_arith)
        requires
            0 <= area <= 0xffff_ffff * 0xffff_ffff,
            0 <= b <= 0xffff_ffff_ffff_ffff,
    ;
    let expected: u128 = w * h * b;
    // Tolerate slightly more data than expected: some clients produce a few extra
    // trailing bytes due to base64 chunk alignment.
    // Reject if data is too short or wildly too large (>1 row extra).
    let max_tolerated: u128 = expected + w * b;
    let len: u128 = data.len() as u128;
    if len < expected || len > max_tolerated {
        let mut text: String = "expected ".to_owned();
        push_decimal(&mut text, expected);
        text.append(" bytes for ");
        push_size(&mut text, w, h);
        text.append("x");
        push_decimal(&mut text, b);
        text.append(layout);
        text.append(", got ");
        push_decimal(&mut text, len);
        assert(text@ =~= length_complaint(
            width as nat,
            height as nat,
            bpp as nat,
            layout@,
            data@.len(),
        ));
        return Err(DecodeError::InvalidDimensions(text));
    }
    if width > MAX_IMAGE_WIDTH || height > MAX_IMAGE_HEIGHT {
        let text: String = limit_message("", w, h);
        proof {
            reveal_strlit("");
            assert(""@ =~= Seq::<char>::empty());
        }
        return Err(DecodeError::InvalidDimensions(text));
    }
    let (image, _) = data.split_at(expected as usize);
    let bytes: Vec<u8> = vstd::slice::slice_to_vec(image);
    assert(bytes@ =~= data@.take(expected as int));
    Ok(bytes)
}

/// Decode raw pixels of `bpp` bytes each.
pub fn decode_raw(data: &[u8], width: u32, height: u32, bpp: usize) -> (r: Result<
    GraphicData,
    DecodeError,
>)
    ensures
        outcome(r) == raw_image(data@, width as nat, height as nat, bpp as nat),
{
    proof {
        reveal_strlit("");
        assert(""@ =~= Seq::<char>::empty());
    }
    match checked_image_bytes(data, width, height, bpp, "") {
        Ok(pixels) => {
            let color_type = if bpp == 4 {
                ColorType::Rgba
            } else {
                ColorType::Rgb
            };
            Ok(
                GraphicData {
                    id: GraphicId(0),
                    width: width as usize,
                    height: height as usize,
                    color_type,
                    pixels,
                    is_opaque: bpp == 3,
                },
            )
        },
        Err(e) => Err(e),
    }
}

/// Decode raw RGB pixels.
pub fn decode_rgb_to_rgba(data: &[u8], width: u32, height: u32) -> (r: Result<
    GraphicData,
    DecodeError,
>)
    ensures
        outcome(r) == rgb_image(data@, width as nat, height as nat),
{
    match checked_image_bytes(data, width, height, 3, " (RGB)") {
        Ok(bytes) => Ok(
            GraphicData {
                id: GraphicId(0),
                width: width as usize,
                height: height as usize,
                color_type: ColorType::Rgba,
                pixels: rgb_bytes_to_rgba(bytes.as_slice()),
                is_opaque: true,
            },
        ),
        Err(e) => Err(e),
    }
}

// PNG.

/// The RGBA pixels of grayscale pixels with an alpha value.
pub open spec fn rgba_of_gray_alpha(samples: Seq<u8>) -> Seq<u8> {
    Seq::new(
        samples.len() / 2 * 4,
        |i: int|
            if i % 4 == 3 {
                samples[i / 4 * 2 + 1]
            } else {
                samples[i / 4 * 2]
            },
    )
}

/// The opaque RGBA pixels of grayscale pixels.
pub open spec fn rgba_of_gray(samples: Seq<u8>) -> Seq<u8> {
    Seq::new(
        samples.len() * 4,
        |i: int|
            if i % 4 == 3 {
                255u8
            } else {
                samples[i / 4]
            },
    )
}

/// The RGBA pixels of the samples of a PNG image.
pub open spec fn png_pixels(color: PngColor, samples: Seq<u8>) -> Result<Seq<u8>, ErrorView> {
    match color {
        PngColor::Rgba => Ok(samples),
        PngColor::Rgb => Ok(rgba_of_rgb(samples)),
        PngColor::GrayscaleAlpha => Ok(rgba_of_gray_alpha(samples)),
        PngColor::Grayscale => Ok(rgba_of_gray(samples)),
        PngColor::Indexed => Err(ErrorView::Png("indexed PNG not directly supported"@)),
    }
}

/// Width and height of a PNG image whose metadata is `header`.
pub open spec fn png_size(header: Result<(u32, u32), Seq<char>>) -> Result<(nat, nat), ErrorView> {
    match header {
        Err(e) => Err(ErrorView::Png(e)),
        Ok((width, height)) => {
            let (w, h) = (width as nat, height as nat);
            if w > MAX_IMAGE_WIDTH || h > MAX_IMAGE_HEIGHT {
                Err(ErrorView::InvalidDimensions(limit_complaint("PNG "@, w, h)))
            } else if w > MAX_GRAPHIC_WIDTH || h > MAX_GRAPHIC_HEIGHT {
                Err(
                    ErrorView::InvalidDimensions(
                        "PNG "@ + size_text(w, h) + " exceeds max graphic dimensions"@,
                    ),
                )
            } else {
                Ok((w, h))
            }
        },
    }
}

/// The first `size` bytes of `buffer`, or all if there are fewer.
pub open spec fn first_bytes(buffer: Seq<u8>, size: nat) -> Seq<u8> {
    if size <= buffer.len() {
        buffer.take(size as int)
    } else {
        buffer
    }
}

/// The image of `w` x `h` pixels that was decoded into `frame`.
pub open spec fn png_image(
    w: nat,
    h: nat,
    frame: Result<(PngColor, Seq<u8>, nat), Seq<char>>,
) -> Outcome {
    match frame {
        Err(e) => Err(ErrorView::Png(e)),
        Ok((color, buffer, size)) => match png_pixels(color, first_bytes(buffer, size)) {
            Err(e) => Err(e),
            Ok(pixels) => Ok(
                GraphicView {
                    id: GraphicId(0),
                    width: w,
                    height: h,
                    color_type: ColorType::Rgba,
                    pixels,
                    is_opaque: false,
                },
            ),
        },
    }
}

/// The image of the PNG file `data`.
pub open spec fn png_file_image(data: Seq<u8>) -> Outcome {
    match png_size(png_header(data, usize::MAX as nat)) {
        Err(e) => Err(e),
        Ok((w, h)) => png_image(w, h, png_frame(data, w * h * 4, usize::MAX as nat)),
    }
}

/// The value of an image size.
pub open spec fn size_view(r: Result<(usize, usize), DecodeError>) -> Result<
    (nat, nat),
    ErrorView,
> {
    match r {
        Ok((w, h)) => Ok((w as nat, h as nat)),
        Err(e) => Err(e@),
    }
}

/// Convert grayscale samples with alpha to RGBA.
fn gray_alpha_to_rgba(samples: &[u8]) -> (rgba: Vec<u8>)
    ensures
        rgba@ == rgba_of_gray_alpha(samples@),
{
    let pixel_count: usize = samples.len() / 2;
    let mut rgba: Vec<u8> = Vec::new();
    let mut k: usize = 0;
    while k < pixel_count
        invariant
            k <= pixel_count == samples@.len() / 2,
            samples@.len() <= usize::MAX,
            rgba@.len() == k * 4,
            forall|i: int|
                0 <= i < k * 4 ==> #[trigger] rgba@[i] == rgba_of_gray_alpha(samples@)[i],
        decreases pixel_count - k,
    {
        let gray: u8 = samples[k * 2];
        rgba.push(gray);
        rgba.push(gray);
        rgba.push(gray);
        rgba.push(samples[k * 2 + 1]);
        k += 1;
    }
    assert(rgba@ =~= rgba_of_gray_alpha(samples@));
    rgba
}

/// Convert grayscale samples to RGBA (fully opaque).
fn gray_to_rgba(samples: &[u8]) -> (rgba: Vec<u8>)
    ensures
        rgba@ == rgba_of_gray(samples@),
{
    let mut rgba: Vec<u8> = Vec::new();
    let mut k: usize = 0;
    while k < samples.len()
        invariant
            k <= samples@.len(),
            rgba@.len() == k * 4,
            forall|i: int| 0 <= i < k * 4 ==> #[trigger] rgba@[i] == rgba_of_gray(samples@)[i],
        decreases samples@.len() - k,
    {
        let gray: u8 = samples[k];
        rgba.push(gray);
        rgba.push(gray);
        rgba.push(gray);
        rgba.push(255);
        k += 1;
    }
    assert(rgba@ =~= rgba_of_gray(samples@));
    rgba
}

/// Width and height of a PNG image, if it is not too large.
pub fn check_png_size(header: Result<(u32, u32), String>) -> (size: Result<
    (usize, usize),
    DecodeError,
>)
    ensures
        size_view(size) == png_size(header_view(header)),
{
    let (width, height) = match header {
        Ok(size) => size,
        Err(e) => {
            return Err(DecodeError::Png(e));
        },
    };
    let w: usize = width as usize;
    let h: usize = height as usize;
    if width > MAX_IMAGE_WIDTH || height > MAX_IMAGE_HEIGHT {
        return Err(
            DecodeError::InvalidDimensions(limit_message("PNG ", width as u128, height as u128)),
        );
    }
    if w > MAX_GRAPHIC_WIDTH || h > MAX_GRAPHIC_HEIGHT {
        let mut text: String = "PNG ".to_owned();
        push_size(&mut text, width as u128, height as u128);
        text.append(" exceeds max graphic dimensions");
        return Err(DecodeError::InvalidDimensions(text));
    }
    Ok((w, h))
}

/// The image that a decoded PNG frame makes up.
pub fn finish_png(width: usize, height: usize, frame: Result<PngFrame, String>) -> (r: Result<
    GraphicData,
    DecodeError,
>)
    ensures
        outcome(r) == png_image(width as nat, height as nat, frame_view(frame)),
{
    let frame = match frame {
        Ok(frame) => frame,
        Err(e) => {
            return Err(DecodeError::Png(e));
        },
    };
    let mut samples: Vec<u8> = frame.samples;
    samples.truncate(frame.size);
    assert(samples@ =~= first_bytes(frame.samples@, frame.size as nat));
    let pixels: Vec<u8> = match frame.color {
        PngColor::Rgba => samples,
        PngColor::Rgb => rgb_bytes_to_rgba(samples.as_slice()),
        PngColor::GrayscaleAlpha => gray_alpha_to_rgba(samples.as_slice()),
        PngColor::Grayscale => gray_to_rgba(samples.as_slice()),
        PngColor::Indexed => {
            return Err(DecodeError::Png("indexed PNG not directly supported".to_owned()));
        },
    };
    let color_type = ColorType::Rgba;
    Ok(
        GraphicData {
            id: GraphicId(0),
            width,
            height,
            color_type,
            pixels,
            is_opaque: color_type == ColorType::Rgb,
        },
    )
}

/// Decode a PNG file.
pub fn decode_png(data: &[u8]) -> (r: Result<GraphicData, DecodeError>)
    ensures
        outcome(r) == png_file_image(data@),
{
    match check_png_size(png_read_header(data)) {
        Ok((width, height)) => {
            assert(width * height <= 4096 * 4096) by (nonlinear_arith)
                requires
                    width <= 4096,
                    height <= 4096,
            ;
            finish_png(width, height, png_read_frame(data, width * height * 4))
        },
        Err(e) => Err(e),
    }
}

// The pipeline.

/// The image of decompressed data.
pub open spec fn format_image(cmd: KittyCommand, data: Seq<u8>) -> Outcome {
    match cmd.format {
        Format::Png => png_file_image(data),
        Format::Rgba => raw_image(data, cmd.width as nat, cmd.height as nat, 4),
        Format::Rgb => rgb_image(data, cmd.width as nat, cmd.height as nat),
    }
}

/// The image of data whose decompression gave `inflated`.
pub open spec fn inflated_image(
    cmd: KittyCommand,
    inflated: Result<Seq<u8>, Seq<char>>,
) -> Outcome {
    match inflated {
        Ok(data) => format_image(cmd, data),
        Err(e) => Err(ErrorView::Zlib(e)),
    }
}

/// The image of the bytes of a payload.
pub open spec fn bytes_image(cmd: KittyCommand, raw: Seq<u8>) -> Outcome {
    match cmd.compression {
        Compression::Zlib => inflated_image(cmd, zlib_inflated(raw)),
        Compression::Uncompressed => format_image(cmd, raw),
    }
}

/// Decode decompressed data according to its format.
pub fn decode_format(cmd: &KittyCommand, data: &[u8]) -> (r: Result<GraphicData, DecodeError>)
    ensures
        outcome(r) == format_image(*cmd, data@),
{
    match cmd.format {
        Format::Png => decode_png(data),
        Format::Rgba => decode_raw(data, cmd.width, cmd.height, 4),
        Format::Rgb => decode_rgb_to_rgba(data, cmd.width, cmd.height),
    }
}

/// Decode data whose decompression gave `inflated`.
pub fn decode_inflated(cmd: &KittyCommand, inflated: Result<Vec<u8>, String>) -> (r: Result<
    GraphicData,
    DecodeError,
>)
    ensures
        outcome(r) == inflated_image(*cmd, bytes_view(inflated)),
{
    match inflated {
        Ok(data) => decode_format(cmd, data.as_slice()),
        Err(e) => Err(DecodeError::Zlib(e)),
    }
}

/// Shared decode tail: decompress (optional zlib) then format-decode.
pub fn decode_raw_bytes(cmd: &KittyCommand, raw: Vec<u8>) -> (r: Result<GraphicData, DecodeError>)
    ensures
        outcome(r) == bytes_image(*cmd, raw@),
{
    match cmd.compression {
        Compression::Zlib => decode_inflated(cmd, zlib_inflate(raw.as_slice())),
        Compression::Uncompressed => decode_format(cmd, raw.as_slice()),
    }
}

// Where the bytes come from.

/// The text whose base64 decoding gave `decoded`; `what` introduces the complaint about bytes that
/// are no text.
pub open spec fn text_outcome(decoded: Result<Seq<u8>, Seq<char>>, what: Seq<char>) -> Result<
    Seq<char>,
    ErrorView,
> {
    match base64_outcome(decoded) {
        Err(e) => Err(e),
        Ok(bytes) => if valid_utf8(bytes) {
            Ok(decode_utf8(bytes))
        } else {
            Err(ErrorView::IoError(what + utf8_complaint(bytes)))
        },
    }
}

/// The value of a text.
pub open spec fn text_view(r: Result<String, DecodeError>) -> Result<Seq<char>, ErrorView> {
    match r {
        Ok(text) => Ok(text@),
        Err(e) => Err(e@),
    }
}

/// The text whose base64 decoding gave `decoded`.
pub fn accept_text(decoded: Result<Vec<u8>, String>, what: &str) -> (text: Result<
    String,
    DecodeError,
>)
    ensures
        text_view(text) == text_outcome(bytes_view(decoded), what@),
{
    match accept_base64(decoded) {
        Err(e) => Err(e),
        Ok(bytes) => match utf8_decode(bytes) {
            Ok(text) => {
                proof {
                    encode_utf8_decode_utf8(text@);
                }
                Ok(text)
            },
            Err(e) => Err(DecodeError::IoError(joined(what, e.as_str()))),
        },
    }
}

/// Bytes that are elsewhere.
#[derive(Debug)]
pub enum PayloadRequest {
    File(FileRead),
    SharedMemory(ShmRead),
}

/// Where the bytes of a payload are.
#[derive(Debug)]
pub enum PayloadPlan {
    /// Here.
    Bytes(Vec<u8>),
    /// Elsewhere.
    Read(PayloadRequest),
}

/// Where the bytes of a payload are, as a mathematical value.
#[verifier::ext_equal]
pub enum PlanView {
    Bytes(Seq<u8>),
    File(FileTarget),
    SharedMemory(ShmTarget),
}

impl View for PayloadRequest {
    type V = PlanView;

    open spec fn view(&self) -> PlanView {
        match self {
            PayloadRequest::File(read) => PlanView::File(read.target()),
            PayloadRequest::SharedMemory(read) => PlanView::SharedMemory(read.target()),
        }
    }
}

impl PayloadRequest {
    /// Whether nothing has been done yet.
    pub open spec fn fresh(&self) -> bool {
        match self {
            PayloadRequest::File(read) => read.phase() == FilePhase::Start,
            PayloadRequest::SharedMemory(read) => read.phase() == ShmPhaseView::Start,
        }
    }
}

impl View for PayloadPlan {
    type V = PlanView;

    open spec fn view(&self) -> PlanView {
        match self {
            PayloadPlan::Bytes(bytes) => PlanView::Bytes(bytes@),
            PayloadPlan::Read(request) => request@,
        }
    }
}

/// The value of a plan.
pub open spec fn plan_view(r: Result<PayloadPlan, DecodeError>) -> Result<PlanView, ErrorView> {
    match r {
        Ok(plan) => Ok(plan@),
        Err(e) => Err(e@),
    }
}

/// Which file a payload names, whose base64 decoding gave `decoded`.
pub open spec fn file_plan(
    cmd: KittyCommand,
    decoded: Result<Seq<u8>, Seq<char>>,
    is_temp: bool,
) -> Result<PlanView, ErrorView> {
    match text_outcome(decoded, "invalid UTF-8 in path: "@) {
        Ok(path) => Ok(
            PlanView::File(
                FileTarget { path, offset: cmd.data_offset, size: cmd.data_size, is_temp },
            ),
        ),
        Err(e) => Err(e),
    }
}

/// Which shared memory object a payload names, whose base64 decoding gave `decoded`.
pub open spec fn shm_plan(cmd: KittyCommand, decoded: Result<Seq<u8>, Seq<char>>) -> Result<
    PlanView,
    ErrorView,
> {
    match text_outcome(decoded, "invalid UTF-8 in shm name: "@) {
        Ok(name) => Ok(
            PlanView::SharedMemory(
                ShmTarget { name, offset: cmd.data_offset, size: cmd.data_size },
            ),
        ),
        Err(e) => Err(e),
    }
}

/// Where the bytes of a payload are, on a system with shared memory objects or without.
pub open spec fn payload_plan(cmd: KittyCommand, raw_payload: Seq<u8>, shared_memory: bool) -> Result<
    PlanView,
    ErrorView,
> {
    if cmd.pre_decoded {
        Ok(PlanView::Bytes(raw_payload))
    } else {
        match cmd.medium {
            Medium::Direct => match direct_bytes(raw_payload) {
                Ok(bytes) => Ok(PlanView::Bytes(bytes)),
                Err(e) => Err(e),
            },
            Medium::File => file_plan(cmd, base64_decoded(raw_payload), false),
            Medium::TempFile => file_plan(cmd, base64_decoded(raw_payload), true),
            Medium::SharedMemory => if shared_memory {
                shm_plan(cmd, base64_decoded(raw_payload))
            } else {
                Err(ErrorView::UnsupportedMedium(cmd.medium))
            },
        }
    }
}

/// The image of a payload whose reading gave `fetched`.
pub open spec fn fetched_image(cmd: KittyCommand, fetched: Result<Seq<u8>, ErrorView>) -> Outcome {
    match fetched {
        Ok(raw) => bytes_image(cmd, raw),
        Err(e) => Err(e),
    }
}

/// Find out which file a payload names, whose base64 decoding gave `decoded`.
pub fn plan_file(cmd: &KittyCommand, decoded: Result<Vec<u8>, String>, is_temp: bool) -> (plan:
    Result<PayloadPlan, DecodeError>)
    ensures
        plan_view(plan) == file_plan(*cmd, bytes_view(decoded), is_temp),
        plan matches Ok(PayloadPlan::Read(request)) ==> request.fresh(),
{
    match accept_text(decoded, "invalid UTF-8 in path: ") {
        Ok(path) => {
            let read = FileRead::new(path, cmd.data_offset, cmd.data_size, is_temp);
            Ok(PayloadPlan::Read(PayloadRequest::File(read)))
        },
        Err(e) => Err(e),
    }
}

/// Find out which shared memory object a payload names, whose base64 decoding gave `decoded`.
pub fn plan_shm(cmd: &KittyCommand, decoded: Result<Vec<u8>, String>) -> (plan: Result<
    PayloadPlan,
    DecodeError,
>)
    ensures
        plan_view(plan) == shm_plan(*cmd, bytes_view(decoded)),
        plan matches Ok(PayloadPlan::Read(request)) ==> request.fresh(),
{
    match accept_text(decoded, "invalid UTF-8 in shm name: ") {
        Ok(name) => {
            let read = ShmRead::new(name, cmd.data_offset, cmd.data_size);
            Ok(PayloadPlan::Read(PayloadRequest::SharedMemory(read)))
        },
        Err(e) => Err(e),
    }
}

/// Find out where the bytes of a payload are.
///
/// When `cmd.pre_decoded` is true (set by chunked transfer finalization),
/// the payload already contains raw decoded bytes, and base64 is skipped.
/// This handles clients like chafa that independently base64-encode each
/// chunk, which would corrupt group alignment if concatenated as strings.
pub fn plan_payload(cmd: &KittyCommand, raw_payload: &[u8], shared_memory: bool) -> (plan: Result<
    PayloadPlan,
    DecodeError,
>)
    ensures
        plan_view(plan) == payload_plan(*cmd, raw_payload@, shared_memory),
        plan matches Ok(PayloadPlan::Read(request)) ==> request.fresh(),
{
    if cmd.pre_decoded {
        // Chunked transfer already decoded each chunk's base64 on arrival.
        return Ok(PayloadPlan::Bytes(vstd::slice::slice_to_vec(raw_payload)));
    }
    match cmd.medium {
        Medium::Direct => match decode_direct_payload(raw_payload) {
            Ok(bytes) => Ok(PayloadPlan::Bytes(bytes)),
            Err(e) => Err(e),
        },
        Medium::File => plan_file(cmd, base64_decode(raw_payload), false),
        Medium::TempFile => plan_file(cmd, base64_decode(raw_payload), true),
        Medium::SharedMemory => {
            if shared_memory {
                plan_shm(cmd, base64_decode(raw_payload))
            } else {
                Err(DecodeError::UnsupportedMedium(cmd.medium))
            }
        },
    }
}

/// Decode a payload whose reading gave `fetched`.
pub fn decode_fetched(cmd: &KittyCommand, fetched: Result<Vec<u8>, DecodeError>) -> (r: Result<
    GraphicData,
    DecodeError,
>)
    ensures
        outcome(r) == fetched_image(*cmd, payload_view(fetched)),
{
    match fetched {
        Ok(raw) => decode_raw_bytes(cmd, raw),
        Err(e) => Err(e),
    }
}

/// Decode a kitty graphics payload into a `GraphicData`.
///
/// Pipeline: medium-specific read, zlib (optional), format decode, `GraphicData`.
///
/// `shared_memory` tells whether the system has POSIX shared memory objects. Bytes that are in a
/// file or in shared memory are read with `read`, which is called on nothing else, and not at all
/// if the bytes are at hand.
pub fn decode_payload<F: FnOnce(PayloadRequest) -> Result<Vec<u8>, DecodeError>>(
    cmd: &KittyCommand,
    raw_payload: &[u8],
    shared_memory: bool,
    read: F,
) -> (r: Result<GraphicData, DecodeError>)
    requires
        forall|request: PayloadRequest|
            request.fresh() && payload_plan(*cmd, raw_payload@, shared_memory) == Ok::<
                PlanView,
                ErrorView,
            >(request@) ==> #[trigger] call_requires(read, (request,)),
    ensures
        match payload_plan(*cmd, raw_payload@, shared_memory) {
            Err(e) => outcome(r) == Err::<GraphicView, ErrorView>(e),
            Ok(PlanView::Bytes(bytes)) => outcome(r) == bytes_image(*cmd, bytes),
            Ok(target) => exists|request: PayloadRequest, fetched: Result<Vec<u8>, DecodeError>|
                {
                    &&& request@ == target
                    &&& request.fresh()
                    &&& #[trigger] call_ensures(read, (request,), fetched)
                    &&& outcome(r) == fetched_image(*cmd, payload_view(fetched))
                },
        },
{
    match plan_payload(cmd, raw_payload, shared_memory) {
        Ok(PayloadPlan::Bytes(bytes)) => decode_raw_bytes(cmd, bytes),
        Ok(PayloadPlan::Read(request)) => {
            let fetched = read(request);
            decode_fetched(cmd, fetched)
        },
        Err(e) => Err(e),
    }
}

} // verus!
