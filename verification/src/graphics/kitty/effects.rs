//! What the decoding of an image gives, byte by byte.

use vstd::prelude::*;
use vstd::utf8::{decode_utf8_encode_utf8, encode_utf8, valid_utf8};

use crate::graphics::kitty::codecs::{
    base64_decoded, bytes_view, frame_view, header_view, png_frame, png_header, utf8_complaint,
    zlib_inflated, PngColor, PngFrame,
};
use crate::graphics::kitty::decode::{
    base64_outcome, bytes_image, direct_bytes, fetched_image, file_plan, format_image,
    inflated_image, outcome, payload_plan, payload_view, plan_view, png_file_image, png_image,
    png_size, raw_image, rgb_image, rgba_of_gray, rgba_of_gray_alpha, rgba_of_rgb, shm_plan,
    size_view, text_outcome, text_view, unpadded, PayloadPlan, PayloadRequest, PlanView,
};
use crate::graphics::kitty::error::{DecodeError, ErrorView};
use crate::graphics::kitty::file::{FileAction, FileActionView, FileRead};
use crate::graphics::kitty::paths::{
    found, in_order, listed, name_before, path_before, temp_dir_places, ResolvedPath,
    TempDirSource, TempDirSourceView,
};
use crate::graphics::kitty::shm::{ShmAction, ShmActionView, ShmRead};
use crate::graphics::kitty_parser::{Compression, Format, KittyCommand, Medium};
use crate::graphics::{ColorType, GraphicData, GraphicView};
use crate::text::{contains, decimal};

verus! {

// PNG files.

/// If a PNG file can be decoded, the image has the width and the height that the header of the file
/// tells, whatever its color type.
pub proof fn law_png_images_have_the_size_of_the_header(data: Seq<u8>, image: GraphicView)
    requires
        png_file_image(data) == Ok::<GraphicView, ErrorView>(image),
    ensures
        png_header(data, usize::MAX as nat) matches Ok((width, height)) && width == image.width
            && height == image.height,
{
}

/// A decoded frame becomes an image of the size that is given, whatever its color type.
pub proof fn law_png_images_keep_their_size(
    w: nat,
    h: nat,
    color: PngColor,
    buffer: Seq<u8>,
    size: nat,
)
    ensures
        png_image(w, h, Ok((color, buffer, size))) is Ok <==> color != PngColor::Indexed,
        png_image(w, h, Ok((color, buffer, size))) matches Ok(image) ==> {
            &&& image.width == w
            &&& image.height == h
            &&& image.id.0 == 0
            &&& image.color_type == ColorType::Rgba
            &&& !image.is_opaque
        },
{
}

/// How many bytes of a buffer make up a pixel.
pub open spec fn samples_per_pixel(color: PngColor) -> nat {
    match color {
        PngColor::Grayscale => 1,
        PngColor::GrayscaleAlpha => 2,
        PngColor::Rgb => 3,
        PngColor::Rgba => 4,
        PngColor::Indexed => 1,
    }
}

/// Each pixel of a decoded frame has the red, green, blue and alpha values that its samples tell:
/// gray pixels have three equal values, and pixels without an alpha value are opaque. Bytes of the
/// buffer that the image does not take up make no difference.
pub proof fn law_png_pixels(
    w: nat,
    h: nat,
    color: PngColor,
    buffer: Seq<u8>,
    size: nat,
    image: GraphicView,
    p: int,
)
    requires
        size <= buffer.len(),
        png_image(w, h, Ok((color, buffer, size))) == Ok::<GraphicView, ErrorView>(image),
        color == PngColor::Rgba ==> size % 4 == 0,
        0 <= p < size / samples_per_pixel(color),
    ensures
        image.pixels.len() == 4 * (size / samples_per_pixel(color)),
        match color {
            PngColor::Rgba => {
                &&& image.pixels[4 * p] == buffer[4 * p]
                &&& image.pixels[4 * p + 1] == buffer[4 * p + 1]
                &&& image.pixels[4 * p + 2] == buffer[4 * p + 2]
                &&& image.pixels[4 * p + 3] == buffer[4 * p + 3]
            },
            PngColor::Rgb => {
                &&& image.pixels[4 * p] == buffer[3 * p]
                &&& image.pixels[4 * p + 1] == buffer[3 * p + 1]
                &&& image.pixels[4 * p + 2] == buffer[3 * p + 2]
                &&& image.pixels[4 * p + 3] == 255
            },
            PngColor::GrayscaleAlpha => {
                &&& image.pixels[4 * p] == buffer[2 * p]
                &&& image.pixels[4 * p + 1] == buffer[2 * p]
                &&& image.pixels[4 * p + 2] == buffer[2 * p]
                &&& image.pixels[4 * p + 3] == buffer[2 * p + 1]
            },
            PngColor::Grayscale => {
                &&& image.pixels[4 * p] == buffer[p]
                &&& image.pixels[4 * p + 1] == buffer[p]
                &&& image.pixels[4 * p + 2] == buffer[p]
                &&& image.pixels[4 * p + 3] == 255
            },
            PngColor::Indexed => true,
        },
{
    assert(size / 1 == size);
}

/// An image whose frame takes up all of the buffer, or more than there is, has all of it.
pub proof fn law_png_buffers_are_used_up(
    w: nat,
    h: nat,
    color: PngColor,
    buffer: Seq<u8>,
    size: nat,
    extra: Seq<u8>,
)
    requires
        size >= buffer.len(),
    ensures
        png_image(w, h, Ok((color, buffer, size))) == png_image(
            w,
            h,
            Ok((color, buffer, buffer.len())),
        ),
        png_image(w, h, Ok((color, buffer + extra, buffer.len()))) == png_image(
            w,
            h,
            Ok((color, buffer, size)),
        ),
        color == PngColor::Rgba ==> png_image(w, h, Ok((color, buffer, size)))->Ok_0.pixels
            == buffer,
{
    assert(buffer.take(buffer.len() as int) =~= buffer);
    assert((buffer + extra).take(buffer.len() as int) =~= buffer);
}

/// A frame with a palette, or one that cannot be decoded, is an error.
pub proof fn law_png_frames_that_fail(w: nat, h: nat, buffer: Seq<u8>, size: nat, e: Seq<char>)
    ensures
        png_image(w, h, Ok((PngColor::Indexed, buffer, size))) == Err::<GraphicView, ErrorView>(
            ErrorView::Png("indexed PNG not directly supported"@),
        ),
        png_image(w, h, Err(e)) == Err::<GraphicView, ErrorView>(ErrorView::Png(e)),
{
}

/// How the size of an image is written.
pub open spec fn written_size(w: nat, h: nat) -> Seq<char> {
    decimal(w) + "x"@ + decimal(h)
}

/// A PNG file is decoded if its header can be read and tells of at most 4096 x 4096 pixels, with
/// four bytes for each pixel where the file does not tell how many there are.
pub proof fn law_png_files(data: Seq<u8>)
    ensures
        match png_header(data, usize::MAX as nat) {
            Err(e) => png_file_image(data) == Err::<GraphicView, ErrorView>(ErrorView::Png(e)),
            Ok((w, h)) => if w > 10000 || h > 10000 {
                png_file_image(data) == Err::<GraphicView, ErrorView>(
                    ErrorView::InvalidDimensions(
                        "PNG "@ + written_size(w as nat, h as nat) + " exceeds max "@
                            + written_size(10000, 10000),
                    ),
                )
            } else if w > 4096 || h > 4096 {
                png_file_image(data) == Err::<GraphicView, ErrorView>(
                    ErrorView::InvalidDimensions(
                        "PNG "@ + written_size(w as nat, h as nat)
                            + " exceeds max graphic dimensions"@,
                    ),
                )
            } else {
                match png_frame(data, (w * h * 4) as nat, usize::MAX as nat) {
                    Err(e) => png_file_image(data) == Err::<GraphicView, ErrorView>(
                        ErrorView::Png(e),
                    ),
                    Ok((color, buffer, size)) => {
                        &&& png_file_image(data) is Ok <==> color != PngColor::Indexed
                        &&& png_file_image(data) matches Ok(image) ==> {
                            &&& image.width == w
                            &&& image.height == h
                        }
                        &&& png_file_image(data) == png_image(
                            w as nat,
                            h as nat,
                            Ok((color, buffer, size)),
                        )
                    },
                }
            },
        },
{
}

/// The size of a PNG image is that of its header, if that is within the limits.
pub proof fn law_png_sizes(w: u32, h: u32, e: Seq<char>)
    ensures
        png_size(Err(e)) == Err::<(nat, nat), ErrorView>(ErrorView::Png(e)),
        png_size(Ok((w, h))) is Ok <==> w <= 4096 && h <= 4096,
        png_size(Ok((w, h))) matches Ok((width, height)) ==> width == w && height == h,
        w > 10000 || h > 10000 ==> png_size(Ok((w, h))) == Err::<(nat, nat), ErrorView>(
            ErrorView::InvalidDimensions(
                "PNG "@ + written_size(w as nat, h as nat) + " exceeds max "@ + written_size(
                    10000,
                    10000,
                ),
            ),
        ),
        w <= 10000 && h <= 10000 && (w > 4096 || h > 4096) ==> png_size(Ok((w, h))) == Err::<
            (nat, nat),
            ErrorView,
        >(
            ErrorView::InvalidDimensions(
                "PNG "@ + written_size(w as nat, h as nat) + " exceeds max graphic dimensions"@,
            ),
        ),
{
}

/// Grayscale samples become pixels of three equal values.
pub proof fn law_gray_conversion(samples: Seq<u8>, p: int)
    ensures
        rgba_of_gray(samples).len() == 4 * samples.len(),
        0 <= p < samples.len() ==> {
            &&& rgba_of_gray(samples)[4 * p] == samples[p]
            &&& rgba_of_gray(samples)[4 * p + 1] == samples[p]
            &&& rgba_of_gray(samples)[4 * p + 2] == samples[p]
            &&& rgba_of_gray(samples)[4 * p + 3] == 255
        },
        rgba_of_gray_alpha(samples).len() == 4 * (samples.len() / 2),
        0 <= p < samples.len() / 2 ==> {
            &&& rgba_of_gray_alpha(samples)[4 * p] == samples[2 * p]
            &&& rgba_of_gray_alpha(samples)[4 * p + 1] == samples[2 * p]
            &&& rgba_of_gray_alpha(samples)[4 * p + 2] == samples[2 * p]
            &&& rgba_of_gray_alpha(samples)[4 * p + 3] == samples[2 * p + 1]
        },
{
}

// Raw pixels.

/// An image of raw pixels consists of the first bytes of the data, in their order.
pub proof fn law_raw_image_bytes(
    data: Seq<u8>,
    w: nat,
    h: nat,
    bpp: nat,
    image: GraphicView,
    i: int,
)
    requires
        raw_image(data, w, h, bpp) == Ok::<GraphicView, ErrorView>(image),
    ensures
        image.id.0 == 0,
        image.width == w,
        image.height == h,
        image.color_type == ColorType::Rgba <==> bpp == 4,
        image.is_opaque <==> bpp == 3,
        image.pixels.len() == w * h * bpp,
        0 <= i < w * h * bpp ==> image.pixels[i] == data[i],
{
}

/// An image of RGB pixels has the colors of the first bytes of the data, in their order, and is
/// opaque.
pub proof fn law_rgb_image_pixels(data: Seq<u8>, w: nat, h: nat, image: GraphicView, p: int)
    requires
        rgb_image(data, w, h) == Ok::<GraphicView, ErrorView>(image),
    ensures
        image.id.0 == 0,
        image.width == w,
        image.height == h,
        image.color_type == ColorType::Rgba,
        image.is_opaque,
        image.pixels.len() == 4 * (w * h),
        0 <= p < w * h ==> {
            &&& image.pixels[4 * p] == data[3 * p]
            &&& image.pixels[4 * p + 1] == data[3 * p + 1]
            &&& image.pixels[4 * p + 2] == data[3 * p + 2]
            &&& image.pixels[4 * p + 3] == 255
        },
{
    let n = (w * h) as int;
    assert(n >= 0) by (nonlinear_arith)
        requires
            n == w * h,
    ;
    assert(data.take(n * 3).len() == n * 3);
    assert(image.pixels == rgba_of_rgb(data.take(n * 3)));
    assert(n * 3 / 3 == n);
}

/// The complaint about the length of raw pixels.
pub open spec fn wrong_length(
    w: nat,
    h: nat,
    bpp: nat,
    layout: Seq<char>,
    len: nat,
) -> ErrorView {
    ErrorView::InvalidDimensions(
        "expected "@ + decimal(w * h * bpp) + " bytes for "@ + written_size(w, h) + "x"@ + decimal(
            bpp,
        ) + layout + ", got "@ + decimal(len),
    )
}

/// The complaint about the size of an image of raw pixels.
pub open spec fn too_large(w: nat, h: nat) -> ErrorView {
    ErrorView::InvalidDimensions(
        written_size(w, h) + " exceeds max "@ + written_size(10000, 10000),
    )
}

/// Raw pixels without a size, of the wrong length or of too large an image are errors, in this
/// order. Bytes of up to one more row are no error.
pub proof fn law_raw_images_that_fail(data: Seq<u8>, w: nat, h: nat, bpp: nat)
    ensures
        ({
            let expected = w * h * bpp;
            let raw = raw_image(data, w, h, bpp);
            if w == 0 || h == 0 {
                raw == Err::<GraphicView, ErrorView>(ErrorView::MissingDimensions)
            } else if data.len() < expected || data.len() > expected + w * bpp {
                raw == Err::<GraphicView, ErrorView>(
                    wrong_length(w, h, bpp, Seq::empty(), data.len()),
                )
            } else if w > 10000 || h > 10000 {
                raw == Err::<GraphicView, ErrorView>(too_large(w, h))
            } else {
                raw is Ok
            }
        }),
        ({
            let expected = w * h * 3;
            let rgb = rgb_image(data, w, h);
            if w == 0 || h == 0 {
                rgb == Err::<GraphicView, ErrorView>(ErrorView::MissingDimensions)
            } else if data.len() < expected || data.len() > expected + w * 3 {
                rgb == Err::<GraphicView, ErrorView>(
                    wrong_length(w, h, 3, " (RGB)"@, data.len()),
                )
            } else if w > 10000 || h > 10000 {
                rgb == Err::<GraphicView, ErrorView>(too_large(w, h))
            } else {
                rgb is Ok
            }
        }),
{
    assert(Seq::<char>::empty() + written_size(w, h) =~= written_size(w, h));
}

// The pipeline.

/// The format of the command decides how the data is read, and its width and height are those of
/// raw pixels.
pub proof fn law_formats(cmd: KittyCommand, data: Seq<u8>)
    ensures
        cmd.format == Format::Png ==> format_image(cmd, data) == png_file_image(data),
        cmd.format == Format::Rgba ==> format_image(cmd, data) == raw_image(
            data,
            cmd.width as nat,
            cmd.height as nat,
            4,
        ),
        cmd.format == Format::Rgb ==> format_image(cmd, data) == rgb_image(
            data,
            cmd.width as nat,
            cmd.height as nat,
        ),
{
}

/// Compressed data gives the image that the inflated data gives without compression, and data that
/// cannot be inflated is an error.
pub proof fn law_compression(packed: KittyCommand, plain: KittyCommand, raw: Seq<u8>)
    requires
        packed.compression == Compression::Zlib,
        plain == (KittyCommand { compression: Compression::Uncompressed, ..packed }),
    ensures
        match zlib_inflated(raw) {
            Ok(data) => {
                &&& bytes_image(packed, raw) == bytes_image(plain, data)
                &&& bytes_image(plain, data) == format_image(packed, data)
            },
            Err(e) => bytes_image(packed, raw) == Err::<GraphicView, ErrorView>(
                ErrorView::Zlib(e),
            ),
        },
{
}

/// Data without compression is taken as it is.
pub proof fn law_uncompressed_data(cmd: KittyCommand, data: Seq<u8>, e: Seq<char>)
    ensures
        cmd.compression == Compression::Uncompressed ==> bytes_image(cmd, data) == format_image(
            cmd,
            data,
        ),
        inflated_image(cmd, Ok(data)) == format_image(cmd, data),
        inflated_image(cmd, Err(e)) == Err::<GraphicView, ErrorView>(ErrorView::Zlib(e)),
{
}

/// What was read is decoded, and an error of reading is the outcome.
pub proof fn law_fetched_payloads(cmd: KittyCommand, raw: Seq<u8>, e: ErrorView)
    ensures
        fetched_image(cmd, Ok(raw)) == bytes_image(cmd, raw),
        fetched_image(cmd, Err(e)) == Err::<GraphicView, ErrorView>(e),
{
}

// Where the bytes come from.

/// Only padding is left out of an inline payload, and nothing changes its order.
pub proof fn law_padding_is_left_out(data: Seq<u8>, byte: u8)
    ensures
        unpadded(Seq::<u8>::empty()).len() == 0,
        byte != '=' as u8 ==> unpadded(data.push(byte)) == unpadded(data).push(byte),
        byte == '=' as u8 ==> unpadded(data.push(byte)) == unpadded(data),
{
    assert(data.push(byte).drop_last() =~= data);
}

/// A payload without padding is taken as it is.
pub proof fn law_unpadded_payloads(data: Seq<u8>)
    requires
        forall|i: int| 0 <= i < data.len() ==> data[i] != '=' as u8,
    ensures
        unpadded(data) == data,
        direct_bytes(data) == base64_outcome(base64_decoded(data)),
    decreases data.len(),
{
    if data.len() > 0 {
        law_unpadded_payloads(data.drop_last());
        assert(data.drop_last().push(data.last()) =~= data);
    }
}

/// An inline payload gives what base64 gives for it without padding.
pub proof fn law_inline_payloads(data: Seq<u8>)
    ensures
        match base64_decoded(unpadded(data)) {
            Ok(bytes) => direct_bytes(data) == Ok::<Seq<u8>, ErrorView>(bytes),
            Err(e) => direct_bytes(data) == Err::<Seq<u8>, ErrorView>(ErrorView::Base64(e)),
        },
        match base64_decoded(data) {
            Ok(bytes) => base64_outcome(base64_decoded(data)) == Ok::<Seq<u8>, ErrorView>(bytes),
            Err(e) => base64_outcome(base64_decoded(data)) == Err::<Seq<u8>, ErrorView>(
                ErrorView::Base64(e),
            ),
        },
{
}

/// A name is the text whose UTF-8 encoding base64 gives. Other bytes are an error.
pub proof fn law_names(decoded: Result<Seq<u8>, Seq<char>>, what: Seq<char>)
    ensures
        match decoded {
            Err(e) => text_outcome(decoded, what) == Err::<Seq<char>, ErrorView>(
                ErrorView::Base64(e),
            ),
            Ok(bytes) => if valid_utf8(bytes) {
                text_outcome(decoded, what) matches Ok(text) && encode_utf8(text) == bytes
            } else {
                text_outcome(decoded, what) == Err::<Seq<char>, ErrorView>(
                    ErrorView::IoError(what + utf8_complaint(bytes)),
                )
            },
        },
{
    if let Ok(bytes) = decoded {
        if valid_utf8(bytes) {
            decode_utf8_encode_utf8(bytes);
        }
    }
}

/// Where the bytes of a payload are: in it, in the file or temporary file that it names, or in the
/// shared memory object that it names if the system has such. From there on the offset and the size
/// of the command tell which bytes to read.
pub proof fn law_media(cmd: KittyCommand, raw: Seq<u8>, shared_memory: bool)
    requires
        !cmd.pre_decoded,
    ensures
        ({
            let plan = payload_plan(cmd, raw, shared_memory);
            match cmd.medium {
                Medium::Direct => match base64_decoded(unpadded(raw)) {
                    Ok(bytes) => plan == Ok::<PlanView, ErrorView>(PlanView::Bytes(bytes)),
                    Err(e) => plan == Err::<PlanView, ErrorView>(ErrorView::Base64(e)),
                },
                Medium::SharedMemory if !shared_memory => plan == Err::<PlanView, ErrorView>(
                    ErrorView::UnsupportedMedium(Medium::SharedMemory),
                ),
                _ => match base64_decoded(raw) {
                    Err(e) => plan == Err::<PlanView, ErrorView>(ErrorView::Base64(e)),
                    Ok(bytes) => if !valid_utf8(bytes) {
                        plan == Err::<PlanView, ErrorView>(
                            ErrorView::IoError(
                                (if cmd.medium == Medium::SharedMemory {
                                    "invalid UTF-8 in shm name: "@
                                } else {
                                    "invalid UTF-8 in path: "@
                                }) + utf8_complaint(bytes),
                            ),
                        )
                    } else if cmd.medium == Medium::SharedMemory {
                        &&& plan matches Ok(PlanView::SharedMemory(target))
                        &&& encode_utf8(target.name) == bytes
                        &&& target.offset == cmd.data_offset
                        &&& target.size == cmd.data_size
                    } else {
                        &&& plan matches Ok(PlanView::File(target))
                        &&& encode_utf8(target.path) == bytes
                        &&& target.offset == cmd.data_offset
                        &&& target.size == cmd.data_size
                        &&& target.is_temp <==> cmd.medium == Medium::TempFile
                    },
                },
            }
        }),
{
    law_names(base64_decoded(raw), "invalid UTF-8 in path: "@);
    law_names(base64_decoded(raw), "invalid UTF-8 in shm name: "@);
}

/// Which bytes of which file or object a payload names.
pub proof fn law_named_places(cmd: KittyCommand, bytes: Seq<u8>, e: Seq<char>, is_temp: bool)
    ensures
        file_plan(cmd, Err(e), is_temp) == Err::<PlanView, ErrorView>(ErrorView::Base64(e)),
        shm_plan(cmd, Err(e)) == Err::<PlanView, ErrorView>(ErrorView::Base64(e)),
        valid_utf8(bytes) ==> {
            &&& file_plan(cmd, Ok(bytes), is_temp) matches Ok(PlanView::File(target))
            &&& encode_utf8(target.path) == bytes
            &&& target.offset == cmd.data_offset
            &&& target.size == cmd.data_size
            &&& target.is_temp == is_temp
        },
        valid_utf8(bytes) ==> {
            &&& shm_plan(cmd, Ok(bytes)) matches Ok(PlanView::SharedMemory(target))
            &&& encode_utf8(target.name) == bytes
            &&& target.offset == cmd.data_offset
            &&& target.size == cmd.data_size
        },
        !valid_utf8(bytes) ==> {
            &&& file_plan(cmd, Ok(bytes), is_temp) == Err::<PlanView, ErrorView>(
                ErrorView::IoError("invalid UTF-8 in path: "@ + utf8_complaint(bytes)),
            )
            &&& shm_plan(cmd, Ok(bytes)) == Err::<PlanView, ErrorView>(
                ErrorView::IoError("invalid UTF-8 in shm name: "@ + utf8_complaint(bytes)),
            )
        },
{
    law_names(Ok(bytes), "invalid UTF-8 in path: "@);
    law_names(Ok(bytes), "invalid UTF-8 in shm name: "@);
}

// Directories.

/// A name comes before another if it has the smaller byte at the first place where they differ, or
/// ends there.
pub proof fn law_name_order(a: Seq<u8>, b: Seq<u8>, k: int)
    requires
        0 <= k <= a.len(),
        k < b.len(),
        forall|i: int| 0 <= i < k ==> a[i] == b[i],
        k < a.len() ==> a[k] < b[k],
    ensures
        name_before(a, b),
        !name_before(b, a),
    decreases k,
{
    if k > 0 {
        assert forall|i: int| 0 <= i < k - 1 implies a.drop_first()[i] == b.drop_first()[i] by {
            assert(a[i + 1] == b[i + 1]);
        }
        assert(a[0] == b[0]);
        law_name_order(a.drop_first(), b.drop_first(), k - 1);
    }
}

/// A path comes before another if it has the name that comes first at the first place where they
/// differ, or ends there.
pub proof fn law_path_order(a: Seq<Seq<u8>>, b: Seq<Seq<u8>>, k: int)
    requires
        0 <= k <= a.len(),
        k < b.len(),
        forall|i: int| 0 <= i < k ==> a[i] == b[i],
        k < a.len() ==> a[k] != b[k] && name_before(a[k], b[k]) && !name_before(b[k], a[k]),
    ensures
        path_before(a, b),
        !path_before(b, a),
    decreases k,
{
    if k > 0 {
        assert forall|i: int| 0 <= i < k - 1 implies a.drop_first()[i] == b.drop_first()[i] by {
            assert(a[i + 1] == b[i + 1]);
        }
        assert(a[0] == b[0]);
        law_path_order(a.drop_first(), b.drop_first(), k - 1);
    }
}

/// The places to look for temporary files: the directory that the system names first, then `/tmp`
/// on Unix and `/dev/shm` on Linux, and the one that the environment names last.
pub proof fn law_temp_dirs(unix: bool, linux: bool)
    ensures
        ({
            let places = temp_dir_places(unix, linux);
            &&& places[0] == TempDirSourceView::System
            &&& places.last() == TempDirSourceView::TmpdirVariable
            &&& unix ==> places[1] == TempDirSourceView::Path("/tmp"@)
            &&& linux ==> places[places.len() - 2] == TempDirSourceView::Path("/dev/shm"@)
            &&& unix && linux ==> places.len() == 4
            &&& unix != linux ==> places.len() == 3
            &&& !unix && !linux ==> places.len() == 2
        }),
{
}

// Words.

/// Numbers are written digit by digit.
pub proof fn law_decimal(n: nat, d: nat)
    requires
        d < 10,
    ensures
        decimal(d).len() == 1,
        decimal(d)[0] as int == '0' as int + d,
        n > 0 ==> decimal(10 * n + d) == decimal(n) + decimal(d),
{
    if n > 0 {
        assert((10 * n + d) / 10 == n && (10 * n + d) % 10 == d);
        assert(decimal(n) + decimal(d) =~= decimal(n).push(decimal(d)[0]));
    }
}

/// One text contains another if that stands somewhere in it.
pub proof fn law_contained_text(before: Seq<char>, needle: Seq<char>, after: Seq<char>)
    ensures
        contains(before + needle + after, needle),
{
    let text = before + needle + after;
    let at = before.len() as int;
    assert(text.subrange(at, at + needle.len()) =~= needle);
}

/// Where a text stands in another that contains it.
pub proof fn law_containing_text(text: Seq<char>, needle: Seq<char>)
    requires
        contains(text, needle),
    ensures
        exists|before: Seq<char>, after: Seq<char>| text == #[trigger] (before + needle + after),
{
    let i = choose|i: int|
        0 <= i <= text.len() - needle.len() && #[trigger] text.subrange(i, i + needle.len())
            == needle;
    assert(text =~= text.take(i) + needle + text.skip((i + needle.len()) as int));
}

/// How errors are put into words.
pub proof fn law_error_messages(e: Seq<char>)
    ensures
        ErrorView::Base64(e).message() == "base64 decode error: "@ + e,
        ErrorView::Zlib(e).message() == "zlib decompress error: "@ + e,
        ErrorView::Png(e).message() == "PNG decode error: "@ + e,
        ErrorView::InvalidDimensions(e).message() == "invalid dimensions: "@ + e,
        ErrorView::IoError(e).message() == "I/O error: "@ + e,
        ErrorView::PathTraversal(e).message() == "path traversal rejected: "@ + e,
        ErrorView::MissingDimensions.message() == "missing width/height for raw format"@,
        ErrorView::UnsupportedMedium(Medium::Direct).message() == "unsupported medium: "@
            + "Direct"@,
        ErrorView::UnsupportedMedium(Medium::File).message() == "unsupported medium: "@ + "File"@,
        ErrorView::UnsupportedMedium(Medium::TempFile).message() == "unsupported medium: "@
            + "TempFile"@,
        ErrorView::UnsupportedMedium(Medium::SharedMemory).message() == "unsupported medium: "@
            + "SharedMemory"@,
{
}

// Values.

/// An image as a value has all that the image has.
pub proof fn law_image_values(image: GraphicData, e: DecodeError)
    ensures
        image@.id == image.id,
        image@.width == image.width,
        image@.height == image.height,
        image@.color_type == image.color_type,
        image@.pixels == image.pixels@,
        image@.is_opaque == image.is_opaque,
        outcome(Ok(image)) == Ok::<GraphicView, ErrorView>(image@),
        outcome(Err(e)) == Err::<GraphicView, ErrorView>(e@),
{
}

/// An error as a value is of the same kind, with the same words.
pub proof fn law_error_values(text: String, medium: Medium)
    ensures
        DecodeError::Base64(text)@ == ErrorView::Base64(text@),
        DecodeError::Zlib(text)@ == ErrorView::Zlib(text@),
        DecodeError::Png(text)@ == ErrorView::Png(text@),
        DecodeError::InvalidDimensions(text)@ == ErrorView::InvalidDimensions(text@),
        DecodeError::UnsupportedMedium(medium)@ == ErrorView::UnsupportedMedium(medium),
        DecodeError::MissingDimensions@ == ErrorView::MissingDimensions,
        DecodeError::IoError(text)@ == ErrorView::IoError(text@),
        DecodeError::PathTraversal(text)@ == ErrorView::PathTraversal(text@),
{
}

/// Results as values hold what the results hold.
pub proof fn law_result_values(
    bytes: Vec<u8>,
    text: String,
    e: DecodeError,
    size: (usize, usize),
    header: (u32, u32),
    frame: PngFrame,
)
    ensures
        payload_view(Ok(bytes)) == Ok::<Seq<u8>, ErrorView>(bytes@),
        payload_view(Err(e)) == Err::<Seq<u8>, ErrorView>(e@),
        text_view(Ok(text)) == Ok::<Seq<char>, ErrorView>(text@),
        text_view(Err(e)) == Err::<Seq<char>, ErrorView>(e@),
        size_view(Ok(size)) == Ok::<(nat, nat), ErrorView>((size.0 as nat, size.1 as nat)),
        size_view(Err(e)) == Err::<(nat, nat), ErrorView>(e@),
        bytes_view(Ok(bytes)) == Ok::<Seq<u8>, Seq<char>>(bytes@),
        bytes_view(Err(text)) == Err::<Seq<u8>, Seq<char>>(text@),
        header_view(Ok(header)) == Ok::<(u32, u32), Seq<char>>(header),
        header_view(Err(text)) == Err::<(u32, u32), Seq<char>>(text@),
        frame_view(Ok(frame)) == Ok::<(PngColor, Seq<u8>, nat), Seq<char>>(
            (frame.color, frame.samples@, frame.size as nat),
        ),
        frame_view(Err(text)) == Err::<(PngColor, Seq<u8>, nat), Seq<char>>(text@),
{
}

/// Actions as values are the same actions, with the same numbers and names.
pub proof fn law_action_values(
    text: String,
    flag: bool,
    place: u64,
    offset: usize,
    len: usize,
    result: Result<Vec<u8>, DecodeError>,
)
    ensures
        (FileAction::Canonicalize { path: text, below_temp_dir: flag })@
            == (FileActionView::Canonicalize { path: text@, below_temp_dir: flag }),
        FileAction::ListTempDirs@ == FileActionView::ListTempDirs,
        FileAction::Stat@ == FileActionView::Stat,
        FileAction::Open@ == FileActionView::Open,
        FileAction::Seek(place)@ == FileActionView::Seek(place as nat),
        FileAction::ReadExact(len)@ == FileActionView::ReadExact(len as nat),
        FileAction::ReadToEnd@ == FileActionView::ReadToEnd,
        FileAction::Remove@ == FileActionView::Remove,
        FileAction::Finish(result)@ == FileActionView::Finish(payload_view(result)),
        ShmAction::Open(text)@ == ShmActionView::Open(text@),
        ShmAction::Size@ == ShmActionView::Size,
        ShmAction::MapWhole(len)@ == ShmActionView::MapWhole(len as nat),
        ShmAction::Close@ == ShmActionView::Close,
        (ShmAction::Copy { offset, len })@ == (ShmActionView::Copy {
            offset: offset as nat,
            len: len as nat,
        }),
        ShmAction::Unmap(len)@ == ShmActionView::Unmap(len as nat),
        (ShmAction::Unlink { name: text, warn: flag })@ == (ShmActionView::Unlink {
            name: text@,
            warn: flag,
        }),
        ShmAction::Finish(result)@ == ShmActionView::Finish(payload_view(result)),
{
}

/// Paths and places as values have the names of the paths and places.
pub proof fn law_path_values(path: ResolvedPath, text: String, k: int)
    ensures
        path@.len() == path.components@.len(),
        0 <= k < path@.len() ==> path@[k] == path.components@[k]@,
        TempDirSource::System@ == TempDirSourceView::System,
        TempDirSource::Path(text)@ == TempDirSourceView::Path(text@),
        TempDirSource::TmpdirVariable@ == TempDirSourceView::TmpdirVariable,
{
}

/// Plans as values tell what is to be read, or hold the bytes. A request for bytes is fresh if the
/// reading has not begun.
pub proof fn law_plan_values(bytes: Vec<u8>, file: FileRead, shm: ShmRead, e: DecodeError)
    ensures
        PayloadPlan::Bytes(bytes)@ == PlanView::Bytes(bytes@),
        PayloadPlan::Read(PayloadRequest::File(file))@ == PlanView::File(file.target()),
        PayloadPlan::Read(PayloadRequest::SharedMemory(shm))@ == PlanView::SharedMemory(
            shm.target(),
        ),
        PayloadRequest::File(file)@ == PlanView::File(file.target()),
        PayloadRequest::SharedMemory(shm)@ == PlanView::SharedMemory(shm.target()),
        PayloadRequest::File(file).fresh() <==> file.phase() is Start,
        PayloadRequest::SharedMemory(shm).fresh() <==> shm.phase() is Start,
        plan_view(Ok(PayloadPlan::Bytes(bytes))) == Ok::<PlanView, ErrorView>(
            PlanView::Bytes(bytes@),
        ),
        plan_view(Err(e)) == Err::<PlanView, ErrorView>(e@),
{
}

/// A directory is listed or found if it is one of them.
pub proof fn law_listed_directories(
    dirs: Seq<ResolvedPath>,
    all: Seq<Option<ResolvedPath>>,
    dir: ResolvedPath,
    path: Seq<Seq<u8>>,
)
    ensures
        !listed(Seq::empty(), path),
        listed(dirs.push(dir), path) <==> listed(dirs, path) || dir@ == path,
        !found(Seq::empty(), path),
        found(all.push(Some(dir)), path) <==> found(all, path) || dir@ == path,
        found(all.push(None), path) <==> found(all, path),
{
    let more = dirs.push(dir);
    if listed(more, path) {
        let i = choose|i: int| 0 <= i < more.len() && (#[trigger] more[i])@ == path;
        assert(i < dirs.len() ==> dirs[i] == more[i]);
    }
    if listed(dirs, path) {
        let i = choose|i: int| 0 <= i < dirs.len() && (#[trigger] dirs[i])@ == path;
        assert(more[i] == dirs[i]);
    }
    assert(more[dirs.len() as int] == dir);
    assert forall|last: Option<ResolvedPath>|
        found(#[trigger] all.push(last), path) == (found(all, path) || (last matches Some(d)
            && d@ == path)) by {
        let longer = all.push(last);
        if found(longer, path) {
            let i = choose|i: int|
                0 <= i < longer.len() && (#[trigger] longer[i] matches Some(d) && d@ == path);
            assert(i < all.len() ==> all[i] == longer[i]);
        }
        if found(all, path) {
            let i = choose|i: int|
                0 <= i < all.len() && (#[trigger] all[i] matches Some(d) && d@ == path);
            assert(longer[i] == all[i]);
        }
        assert(longer[all.len() as int] == last);
    }
    assert(found(all.push(Some(dir)), path) == (found(all, path) || dir@ == path));
    assert(found(all.push(None), path) == found(all, path));
}

/// Directories are in order if each comes before all that follow, so none is listed twice.
pub proof fn law_ordered_directories(dirs: Seq<ResolvedPath>, dir: ResolvedPath, i: int, j: int)
    ensures
        in_order(Seq::empty()),
        in_order(dirs) && 0 <= i < j < dirs.len() ==> path_before(dirs[i]@, dirs[j]@) && dirs[i]@
            != dirs[j]@,
        in_order(dirs) && (forall|k: int| 0 <= k < dirs.len() ==> path_before(
            (#[trigger] dirs[k])@,
            dir@,
        )) ==> in_order(dirs.push(dir)),
{
    if in_order(dirs) && 0 <= i < j < dirs.len() {
        lemma_path_irreflexive(dirs[i]@);
    }
}

proof fn lemma_path_irreflexive(a: Seq<Seq<u8>>)
    ensures
        !path_before(a, a),
    decreases a.len(),
{
    if a.len() > 0 {
        lemma_path_irreflexive(a.drop_first());
    }
}

} // verus!
