//! Decoding of kitty graphics payloads.

use std::io::Write;

use alacritty_terminal::graphics::kitty::decode::{
    accept_base64, accept_text, check_png_size, decode_direct_payload, decode_fetched,
    decode_inflated, decode_payload, finish_png, plan_payload, rgb_bytes_to_rgba, strip_padding,
    PayloadPlan, PayloadRequest,
};
use alacritty_terminal::graphics::kitty::codecs::{PngColor, PngFrame};
use alacritty_terminal::graphics::kitty::error::DecodeError;
use alacritty_terminal::graphics::kitty::file::{FileAction, FileEvent, FileRead};
use alacritty_terminal::graphics::kitty::paths::{known_temp_dirs, ResolvedPath};
use alacritty_terminal::graphics::kitty::shm::{ShmAction, ShmEvent, ShmRead};
use alacritty_terminal::graphics::kitty_parser::{Compression, Format, KittyCommand, Medium};
use alacritty_terminal::graphics::{ColorType, GraphicData};
use base64::Engine;

fn encode(bytes: &[u8]) -> String {
    base64::engine::general_purpose::STANDARD.encode(bytes)
}

fn deflate(bytes: &[u8]) -> Vec<u8> {
    let mut encoder =
        flate2::write::ZlibEncoder::new(Vec::new(), flate2::Compression::default());
    encoder.write_all(bytes).unwrap();
    encoder.finish().unwrap()
}

fn png_file(width: u32, height: u32, color: png::ColorType, samples: &[u8]) -> Vec<u8> {
    let mut file = Vec::new();
    let mut encoder = png::Encoder::new(&mut file, width, height);
    encoder.set_color(color);
    encoder.set_depth(png::BitDepth::Eight);
    if color == png::ColorType::Indexed {
        encoder.set_palette(vec![1, 2, 3]);
    }
    let mut writer = encoder.write_header().unwrap();
    writer.write_image_data(samples).unwrap();
    writer.finish().unwrap();
    file
}

/// Files and shared memory objects, in memory.
struct System {
    files: Vec<(String, Vec<u8>)>,
    directories: Vec<String>,
    removed: Vec<String>,
    objects: Vec<(String, Vec<u8>)>,
    unlinked: Vec<String>,
    open: i32,
    mapped: i32,
}

impl System {
    fn new() -> System {
        System {
            files: vec![("/etc/passwd".to_string(), b"root".to_vec())],
            directories: vec!["/".to_string(), "/tmp".to_string(), "/etc".to_string()],
            removed: Vec::new(),
            objects: Vec::new(),
            unlinked: Vec::new(),
            open: 0,
            mapped: 0,
        }
    }

    fn with_file(path: &str, data: &[u8]) -> System {
        let mut system = System::new();
        system.files.push((path.to_string(), data.to_vec()));
        system
    }

    fn with_object(name: &str, data: &[u8]) -> System {
        let mut system = System::new();
        system.objects.push((name.to_string(), data.to_vec()));
        system
    }

    fn contents(&self, path: &str) -> Option<Vec<u8>> {
        self.files.iter().find(|(p, _)| p == path).map(|(_, data)| data.clone())
    }

    fn object(&self, name: &str) -> Option<Vec<u8>> {
        self.objects.iter().find(|(n, _)| n == name).map(|(_, data)| data.clone())
    }

    /// Resolve `.` and `..`.
    fn canonicalize(&self, path: &str) -> Option<String> {
        let mut names: Vec<&str> = Vec::new();
        for name in path.split('/') {
            match name {
                "" | "." => {},
                ".." => {
                    names.pop();
                },
                name => names.push(name),
            }
        }
        let path = format!("/{}", names.join("/"));
        if self.contents(&path).is_some() || self.directories.contains(&path) {
            Some(path)
        } else {
            None
        }
    }

    fn read(&mut self, request: PayloadRequest) -> Result<Vec<u8>, DecodeError> {
        match request {
            PayloadRequest::File(read) => self.read_file(read),
            PayloadRequest::SharedMemory(read) => self.read_object(read),
        }
    }

    fn read_file(&mut self, read: FileRead) -> Result<Vec<u8>, DecodeError> {
        let mut place = 0;
        let absolute = read.path().starts_with('/');
        let (mut read, mut action) = read.start(absolute);
        loop {
            let path = match read.resolved_path() {
                Some(resolved) => path_of(resolved),
                None => read.path().to_string(),
            };
            let failed = |path: &str| FileEvent::Failed {
                shown: format!("{path:?}"),
                error: "no such file".to_string(),
            };
            let event = match action {
                FileAction::Canonicalize { path: raw, below_temp_dir } => {
                    let candidate = if below_temp_dir { format!("/tmp/{raw}") } else { raw };
                    match self.canonicalize(&candidate) {
                        Some(found) => FileEvent::Resolved {
                            path: resolved(&found),
                            shown: format!("{found:?}"),
                        },
                        None => failed(&candidate),
                    }
                },
                FileAction::ListTempDirs => FileEvent::TempDirs(known_temp_dirs(vec![
                    Some(resolved("/tmp")),
                    None,
                    Some(resolved("/dev/shm")),
                    Some(resolved("/tmp")),
                ])),
                FileAction::Stat => {
                    if self.directories.contains(&path) {
                        FileEvent::Stat { is_file: false, shown: format!("{path:?}") }
                    } else if self.contents(&path).is_some() {
                        FileEvent::Stat { is_file: true, shown: format!("{path:?}") }
                    } else {
                        failed(&path)
                    }
                },
                FileAction::Open => FileEvent::Opened,
                FileAction::Seek(offset) => {
                    place = offset as usize;
                    FileEvent::Sought
                },
                FileAction::ReadExact(size) => {
                    let data = self.contents(&path).unwrap();
                    if place + size <= data.len() {
                        FileEvent::Data(data[place..place + size].to_vec())
                    } else {
                        FileEvent::Failed {
                            shown: String::new(),
                            error: "failed to fill whole buffer".to_string(),
                        }
                    }
                },
                FileAction::ReadToEnd => {
                    FileEvent::Data(self.contents(&path).unwrap()[place..].to_vec())
                },
                FileAction::Remove => {
                    self.files.retain(|(p, _)| *p != path);
                    self.removed.push(path.clone());
                    FileEvent::Removed
                },
                FileAction::Finish(result) => return result,
            };
            (read, action) = read.step(event);
        }
    }

    fn read_object(&mut self, read: ShmRead) -> Result<Vec<u8>, DecodeError> {
        let mut object = String::new();
        let (mut read, mut action) = read.start();
        loop {
            let event = match action {
                ShmAction::Open(name) => {
                    object = name;
                    if object.contains('\0') {
                        ShmEvent::InvalidName { error: "nul byte".to_string() }
                    } else if self.object(&object).is_some() {
                        self.open += 1;
                        ShmEvent::Opened
                    } else {
                        ShmEvent::Failed { error: "no such object".to_string() }
                    }
                },
                ShmAction::Size => ShmEvent::Sized(self.object(&object).unwrap().len()),
                ShmAction::MapWhole(total) => {
                    assert_eq!(total, self.object(&object).unwrap().len());
                    self.mapped += 1;
                    ShmEvent::Mapped
                },
                ShmAction::Close => {
                    self.open -= 1;
                    ShmEvent::Closed
                },
                ShmAction::Copy { offset, len } => ShmEvent::Copied(
                    self.object(&object).unwrap()[offset..offset + len].to_vec(),
                ),
                ShmAction::Unmap(_) => {
                    self.mapped -= 1;
                    ShmEvent::Unmapped
                },
                ShmAction::Unlink { name, .. } => {
                    self.objects.retain(|(n, _)| *n != name);
                    self.unlinked.push(name);
                    ShmEvent::Unlinked
                },
                ShmAction::Finish(result) => {
                    assert_eq!((self.open, self.mapped), (0, 0), "everything is released");
                    return result;
                },
            };
            (read, action) = read.step(event);
        }
    }
}

fn resolved(path: &str) -> ResolvedPath {
    ResolvedPath {
        components: path
            .split('/')
            .filter(|name| !name.is_empty())
            .map(|name| name.as_bytes().to_vec())
            .collect(),
    }
}

fn path_of(resolved: &ResolvedPath) -> String {
    let names: Vec<String> = resolved
        .components
        .iter()
        .map(|name| String::from_utf8(name.clone()).unwrap())
        .collect();
    format!("/{}", names.join("/"))
}

fn decode(cmd: &KittyCommand) -> Result<GraphicData, DecodeError> {
    decode_in(&mut System::new(), cmd)
}

fn decode_in(system: &mut System, cmd: &KittyCommand) -> Result<GraphicData, DecodeError> {
    decode_payload(cmd, &cmd.payload, true, |request| system.read(request))
}

fn message(result: Result<GraphicData, DecodeError>) -> String {
    result.unwrap_err().to_string()
}

// ── Direct medium ──────────────────────────────────────────────────

#[test]
fn decode_raw_rgba() {
    let pixels: Vec<u8> = vec![255, 0, 0, 255, 0, 255, 0, 255, 0, 0, 255, 255, 255, 255, 255, 255];
    let encoded = encode(&pixels);
    let cmd = KittyCommand {
        format: Format::Rgba,
        width: 2,
        height: 2,
        payload: encoded.into_bytes(),
        ..Default::default()
    };
    let data = decode(&cmd).unwrap();
    assert_eq!(data.width, 2);
    assert_eq!(data.height, 2);
    assert_eq!(data.pixels, pixels);
    assert_eq!(data.color_type, ColorType::Rgba);
    assert!(!data.is_opaque);
}

#[test]
fn decode_raw_rgb() {
    let rgb_pixels: Vec<u8> = vec![255, 0, 0, 0, 255, 0];
    let encoded = encode(&rgb_pixels);
    let cmd = KittyCommand {
        format: Format::Rgb,
        width: 2,
        height: 1,
        payload: encoded.into_bytes(),
        ..Default::default()
    };
    let data = decode(&cmd).unwrap();
    assert_eq!(data.pixels, vec![255, 0, 0, 255, 0, 255, 0, 255]);
    assert_eq!(data.color_type, ColorType::Rgba);
    assert!(data.is_opaque);
}

#[test]
fn decode_dimension_mismatch_too_short() {
    let encoded = encode(&[0u8; 10]);
    let cmd = KittyCommand {
        format: Format::Rgba,
        width: 2,
        height: 2,
        payload: encoded.into_bytes(),
        ..Default::default()
    };
    assert!(decode(&cmd).is_err());
    assert_eq!(
        message(decode(&cmd)),
        "invalid dimensions: expected 16 bytes for 2x2x4, got 10",
    );
}

#[test]
fn decode_raw_truncates_slightly_over() {
    let mut pixels: Vec<u8> =
        vec![255, 0, 0, 255, 0, 255, 0, 255, 0, 0, 255, 255, 255, 255, 255, 255];
    let expected = pixels.clone();
    pixels.push(0xDE); // 1 extra trailing byte

    let encoded = encode(&pixels);
    let cmd = KittyCommand {
        format: Format::Rgba,
        width: 2,
        height: 2,
        payload: encoded.into_bytes(),
        ..Default::default()
    };
    let data = decode(&cmd).unwrap();
    assert_eq!(data.width, 2);
    assert_eq!(data.height, 2);
    assert_eq!(data.pixels, expected, "should truncate extra trailing byte");
}

#[test]
fn decode_raw_truncates_up_to_one_row_extra() {
    // Up to one extra row of data should be tolerated.
    // 4x4 RGBA = 64 bytes. One extra row = 16 bytes. Total = 80.
    let pixels = vec![0u8; 80];
    let encoded = encode(&pixels);
    let cmd = KittyCommand {
        format: Format::Rgba,
        width: 4,
        height: 4,
        payload: encoded.into_bytes(),
        ..Default::default()
    };
    let data = decode(&cmd).unwrap();
    assert_eq!(data.pixels.len(), 64, "should truncate to expected 64 bytes");
}

#[test]
fn decode_raw_rejects_wildly_over() {
    // More than one extra row should be rejected.
    let pixels = vec![0u8; 97];
    let encoded = encode(&pixels);
    let cmd = KittyCommand {
        format: Format::Rgba,
        width: 4,
        height: 4,
        payload: encoded.into_bytes(),
        ..Default::default()
    };
    assert!(decode(&cmd).is_err());
}

#[test]
fn decode_rgb_truncates_slightly_over() {
    // 2x1 RGB = 6 bytes. Send 7: should truncate.
    let mut pixels: Vec<u8> = vec![255, 0, 0, 0, 255, 0];
    pixels.push(0xDE);
    let encoded = encode(&pixels);
    let cmd = KittyCommand {
        format: Format::Rgb,
        width: 2,
        height: 1,
        payload: encoded.into_bytes(),
        ..Default::default()
    };
    let data = decode(&cmd).unwrap();
    assert_eq!(data.pixels, vec![255, 0, 0, 255, 0, 255, 0, 255]);
}

#[test]
fn decode_missing_dimensions() {
    let encoded = encode(&[0u8; 16]);
    let cmd = KittyCommand {
        format: Format::Rgba,
        width: 0,
        height: 0,
        payload: encoded.into_bytes(),
        ..Default::default()
    };
    assert!(decode(&cmd).is_err());
    assert_eq!(message(decode(&cmd)), "missing width/height for raw format");
}

#[test]
fn decode_zlib_compressed() {
    let pixels: Vec<u8> = vec![255, 128, 64, 255];
    let compressed = deflate(&pixels);
    let encoded = encode(&compressed);
    let cmd = KittyCommand {
        format: Format::Rgba,
        compression: Compression::Zlib,
        width: 1,
        height: 1,
        payload: encoded.into_bytes(),
        ..Default::default()
    };
    let data = decode(&cmd).unwrap();
    assert_eq!(data.pixels, pixels);
}

#[test]
fn decode_png_image() {
    let png_buf = png_file(1, 1, png::ColorType::Rgba, &[255, 0, 0, 255]);
    let encoded = encode(&png_buf);
    let cmd = KittyCommand {
        format: Format::Png,
        payload: encoded.into_bytes(),
        ..Default::default()
    };
    let data = decode(&cmd).unwrap();
    assert_eq!(data.pixels, vec![255, 0, 0, 255]);
}

#[test]
fn rgb_to_rgba_conversion() {
    let rgb = vec![255, 0, 0, 0, 255, 0];
    let rgba = rgb_bytes_to_rgba(&rgb);
    assert_eq!(rgba, vec![255, 0, 0, 255, 0, 255, 0, 255]);
}

#[test]
fn decode_direct_with_padding_in_payload() {
    // Intermediate chunks of a chunked transfer may include trailing `=` padding. When chunks are
    // merged, `=` ends up in the middle of the base64 string.
    let pixels: Vec<u8> = vec![255, 0, 0, 255, 0, 255, 0, 255, 0, 0, 255, 255, 255, 255, 255, 255];
    let full_b64 = encode(&pixels);

    let mid = full_b64.len() / 2;
    let chunk1 = &full_b64[..mid];
    let chunk2 = &full_b64[mid..];
    let merged_with_padding = format!("{chunk1}=={chunk2}");

    let cmd = KittyCommand {
        format: Format::Rgba,
        width: 2,
        height: 2,
        payload: merged_with_padding.into_bytes(),
        ..Default::default()
    };
    let data = decode(&cmd).unwrap();
    assert_eq!(data.width, 2);
    assert_eq!(data.height, 2);
    assert_eq!(data.pixels, pixels);
}

#[test]
fn decode_direct_with_trailing_padding() {
    // Standard base64 with trailing `=` padding should also work.
    let pixels: Vec<u8> = vec![255, 0, 0, 255, 0, 255, 0]; // 7 bytes, padded in base64
    let b64_padded = encode(&pixels);
    assert!(b64_padded.contains('='), "test expects padded base64");

    let cmd = KittyCommand {
        format: Format::Rgba,
        width: 0,
        height: 0,
        payload: b64_padded.into_bytes(),
        ..Default::default()
    };
    // Will fail on dimension check, but should NOT fail on base64 decode.
    let err = decode(&cmd).unwrap_err().to_string();
    assert!(!err.contains("base64"), "should not be a base64 error, got: {err}");
}

#[test]
fn padding_is_stripped_everywhere() {
    assert_eq!(strip_padding(b"=QU=JD=="), b"QUJD");
    assert_eq!(decode_direct_payload(b"=QU=JD==").unwrap(), b"ABC");
    assert_eq!(decode_direct_payload(b"QUJD").unwrap(), b"ABC");
}

#[test]
fn pre_decoded_payload_is_taken_as_it_is() {
    for medium in [Medium::Direct, Medium::File, Medium::TempFile, Medium::SharedMemory] {
        let cmd = KittyCommand {
            medium,
            pre_decoded: true,
            width: 1,
            height: 1,
            payload: vec![1, 2, 3, 4],
            ..Default::default()
        };
        let data = decode_payload(&cmd, &cmd.payload, true, |_| unreachable!()).unwrap();
        assert_eq!(data.pixels, vec![1, 2, 3, 4]);
    }
}

#[test]
fn inline_payload_reads_nothing() {
    let payload = encode(&[1, 2, 3, 4]).into_bytes();
    let cmd = KittyCommand { width: 1, height: 1, payload, ..Default::default() };
    let data = decode_payload(&cmd, &cmd.payload, true, |_| unreachable!()).unwrap();
    assert_eq!(data.pixels, vec![1, 2, 3, 4]);
}

#[test]
fn temp_paths_are_relative_to_the_temp_dir_or_absolute() {
    for absolute in [true, false] {
        let read = FileRead::new("x".to_string(), 0, 0, true);
        match read.start(absolute).1 {
            FileAction::Canonicalize { path, below_temp_dir } => {
                assert_eq!((path.as_str(), below_temp_dir), ("x", !absolute));
            },
            other => panic!("{other:?}"),
        }
    }
}

#[test]
fn invalid_base64_is_reported() {
    let cmd = KittyCommand { width: 1, height: 1, payload: b"@@@@".to_vec(), ..Default::default() };
    assert!(matches!(decode(&cmd), Err(DecodeError::Base64(_))));
    assert!(message(decode(&cmd)).starts_with("base64 decode error: "));
    let told = accept_base64(Err("odd".to_string()));
    assert_eq!(told.unwrap_err().to_string(), "base64 decode error: odd");
    assert_eq!(accept_base64(Ok(vec![7])).unwrap(), vec![7]);
}

#[test]
fn invalid_zlib_is_reported() {
    let cmd = KittyCommand {
        compression: Compression::Zlib,
        width: 1,
        height: 1,
        payload: encode(b"no zlib stream").into_bytes(),
        ..Default::default()
    };
    assert!(matches!(decode(&cmd), Err(DecodeError::Zlib(_))));
    let told = decode_inflated(&cmd, Err("odd".to_string()));
    assert_eq!(message(told), "zlib decompress error: odd");
    assert_eq!(decode_inflated(&cmd, Ok(vec![1, 2, 3, 4])).unwrap().pixels, vec![1, 2, 3, 4]);
}

#[test]
fn invalid_png_is_reported() {
    let cmd = KittyCommand {
        format: Format::Png,
        payload: encode(b"no png file").into_bytes(),
        ..Default::default()
    };
    assert!(matches!(decode(&cmd), Err(DecodeError::Png(_))));
    assert_eq!(
        check_png_size(Err("odd".to_string())).unwrap_err().to_string(),
        "PNG decode error: odd",
    );
    assert_eq!(message(finish_png(1, 1, Err("odd".to_string()))), "PNG decode error: odd");
}

#[test]
fn png_color_types_are_converted() {
    let decode_png = |color, samples: &[u8]| {
        let payload = encode(&png_file(1, 2, color, samples)).into_bytes();
        decode(&KittyCommand { format: Format::Png, payload, ..Default::default() })
    };
    let rgb = decode_png(png::ColorType::Rgb, &[1, 2, 3, 4, 5, 6]).unwrap();
    assert_eq!(rgb.pixels, vec![1, 2, 3, 255, 4, 5, 6, 255]);
    assert_eq!((rgb.width, rgb.height), (1, 2));
    assert!(!rgb.is_opaque);
    let gray = decode_png(png::ColorType::Grayscale, &[7, 8]).unwrap();
    assert_eq!(gray.pixels, vec![7, 7, 7, 255, 8, 8, 8, 255]);
    let gray_alpha = decode_png(png::ColorType::GrayscaleAlpha, &[7, 1, 8, 2]).unwrap();
    assert_eq!(gray_alpha.pixels, vec![7, 7, 7, 1, 8, 8, 8, 2]);
    assert_eq!(
        message(decode_png(png::ColorType::Indexed, &[0, 0])),
        "PNG decode error: indexed PNG not directly supported",
    );
}

#[test]
fn png_frames_are_finished() {
    let frame = PngFrame { color: PngColor::Rgb, samples: vec![9, 8, 7, 6, 5, 4], size: 3 };
    let image = finish_png(1, 1, Ok(frame)).unwrap();
    assert_eq!(image.pixels, vec![9, 8, 7, 255]);
    assert_eq!(image.color_type, ColorType::Rgba);
}

#[test]
fn png_size_is_limited() {
    assert_eq!(check_png_size(Ok((4096, 4096))).unwrap(), (4096, 4096));
    assert_eq!(
        check_png_size(Ok((4097, 1))).unwrap_err().to_string(),
        "invalid dimensions: PNG 4097x1 exceeds max graphic dimensions",
    );
    assert_eq!(
        check_png_size(Ok((1, 10001))).unwrap_err().to_string(),
        "invalid dimensions: PNG 1x10001 exceeds max 10000x10000",
    );
}

#[test]
fn raw_size_is_limited() {
    let cmd = KittyCommand {
        format: Format::Rgb,
        width: 10001,
        height: 1,
        pre_decoded: true,
        payload: vec![0; 30003],
        ..Default::default()
    };
    assert_eq!(message(decode(&cmd)), "invalid dimensions: 10001x1 exceeds max 10000x10000");
    let cmd = KittyCommand { width: 10000, payload: vec![0; 29999], ..cmd };
    assert_eq!(
        message(decode(&cmd)),
        "invalid dimensions: expected 30000 bytes for 10000x1x3 (RGB), got 29999",
    );
    let cmd = KittyCommand { payload: vec![0; 30000], ..cmd };
    assert_eq!(decode(&cmd).unwrap().pixels.len(), 40000);
}

#[test]
fn huge_dimensions_are_rejected() {
    let cmd = KittyCommand {
        width: u32::MAX,
        height: u32::MAX,
        pre_decoded: true,
        payload: vec![0; 4],
        ..Default::default()
    };
    assert_eq!(
        message(decode(&cmd)),
        "invalid dimensions: expected 73786976260478468100 bytes for 4294967295x4294967295x4, got 4",
    );
}

#[test]
fn fetched_errors_are_passed_on() {
    let cmd = KittyCommand { width: 1, height: 1, ..Default::default() };
    let told = decode_fetched(&cmd, Err(DecodeError::IoError("odd".to_string())));
    assert_eq!(message(told), "I/O error: odd");
    assert_eq!(decode_fetched(&cmd, Ok(vec![1, 2, 3, 4])).unwrap().pixels, vec![1, 2, 3, 4]);
}

#[test]
fn names_have_to_be_text() {
    assert_eq!(accept_text(Ok(b"/tmp/\xc3\xa4".to_vec()), "what: ").unwrap(), "/tmp/\u{e4}");
    let told = accept_text(Ok(vec![0xff]), "what: ").unwrap_err().to_string();
    assert!(told.starts_with("I/O error: what: "), "{told}");
    assert!(told.len() > "I/O error: what: ".len(), "{told}");
    assert_eq!(
        accept_text(Err("odd".to_string()), "what: ").unwrap_err().to_string(),
        "base64 decode error: odd",
    );
    for (medium, what) in
        [(Medium::File, "invalid UTF-8 in path: "), (Medium::SharedMemory, "invalid UTF-8 in shm name: ")]
    {
        let cmd =
            KittyCommand { medium, payload: encode(&[0xff]).into_bytes(), ..Default::default() };
        assert!(message(decode(&cmd)).starts_with(&format!("I/O error: {what}")));
    }
}

#[test]
fn plan_names_the_file() {
    let cmd = KittyCommand {
        medium: Medium::File,
        data_offset: 3,
        data_size: 4,
        payload: encode(b"/some/file").into_bytes(),
        ..Default::default()
    };
    let plan = plan_payload(&cmd, &cmd.payload, true).unwrap();
    let read = match plan {
        PayloadPlan::Read(PayloadRequest::File(read)) => read,
        other => panic!("{other:?}"),
    };
    let (_, action) = read.start(true);
    assert!(matches!(action, FileAction::Stat));
    assert!(matches!(
        plan_payload(&KittyCommand::default(), b"QUJD", true),
        Ok(PayloadPlan::Bytes(bytes)) if bytes == b"ABC"
    ));
}

#[test]
fn shared_memory_may_be_unsupported() {
    let cmd = KittyCommand {
        medium: Medium::SharedMemory,
        payload: encode(b"/object").into_bytes(),
        ..Default::default()
    };
    let told = decode_payload(&cmd, &cmd.payload, false, |_| unreachable!());
    assert_eq!(message(told), "unsupported medium: SharedMemory");
}

// ── File medium ────────────────────────────────────────────────────

const PIXELS: [u8; 8] = [255, 0, 0, 255, 0, 255, 0, 255];

fn file_command(medium: Medium, path: &str) -> KittyCommand {
    KittyCommand {
        format: Format::Rgba,
        medium,
        width: 2,
        height: 1,
        payload: encode(path.as_bytes()).into_bytes(),
        ..Default::default()
    }
}

#[test]
fn decode_file_medium_rgba() {
    // 2x1 RGBA pixel data: red + green.
    let path = "/tmp/tty-graphics-protocol-kitty_test_file";
    let mut system = System::with_file(path, &PIXELS);
    let data = decode_in(&mut system, &file_command(Medium::File, path)).unwrap();
    assert_eq!(data.width, 2);
    assert_eq!(data.height, 1);
    assert_eq!(data.pixels, PIXELS);

    // File medium does NOT delete the file.
    assert!(system.contents(path).is_some());
}

#[test]
fn decode_file_medium_with_offset_and_size() {
    // 16 bytes: [header(4)] [pixels(8)] [trailer(4)]
    let mut contents = vec![0xDE, 0xAD, 0xBE, 0xEF];
    contents.extend_from_slice(&PIXELS);
    contents.extend_from_slice(&[0xCA, 0xFE, 0xBA, 0xBE]);

    let mut system = System::with_file("/tmp/kitty_test_offset", &contents);
    let cmd = KittyCommand {
        data_offset: 4,
        data_size: 8,
        ..file_command(Medium::File, "/tmp/kitty_test_offset")
    };
    assert_eq!(decode_in(&mut system, &cmd).unwrap().pixels, PIXELS);

    let cmd = KittyCommand { data_offset: 12, ..cmd };
    assert_eq!(
        message(decode_in(&mut system, &cmd)),
        "I/O error: read_exact: failed to fill whole buffer",
    );
}

#[test]
fn decode_file_medium_with_zlib() {
    let pixels: Vec<u8> = vec![255, 0, 0, 255];
    let mut system = System::with_file("/tmp/kitty_test_zlib", &deflate(&pixels));
    let cmd = KittyCommand {
        compression: Compression::Zlib,
        width: 1,
        ..file_command(Medium::File, "/tmp/kitty_test_zlib")
    };
    assert_eq!(decode_in(&mut system, &cmd).unwrap().pixels, pixels);
}

#[test]
fn decode_file_medium_png() {
    let file = png_file(1, 1, png::ColorType::Rgba, &[0, 128, 255, 200]);
    let mut system = System::with_file("/tmp/kitty_test_png", &file);
    let cmd =
        KittyCommand { format: Format::Png, ..file_command(Medium::File, "/tmp/kitty_test_png") };
    let data = decode_in(&mut system, &cmd).unwrap();
    assert_eq!(data.pixels, vec![0, 128, 255, 200]);
    assert_eq!(data.width, 1);
    assert_eq!(data.height, 1);
}

#[test]
fn file_is_read_step_by_step() {
    let read = FileRead::new("/file".to_string(), 4, 8, false);
    assert_eq!(read.path(), "/file");
    let (read, action) = read.start(true);
    assert!(matches!(action, FileAction::Stat));
    let (read, action) = read.step(FileEvent::Stat { is_file: true, shown: String::new() });
    assert!(matches!(action, FileAction::Open));
    let (read, action) = read.step(FileEvent::Opened);
    assert!(matches!(action, FileAction::Seek(4)));
    let (read, action) = read.step(FileEvent::Sought);
    assert!(matches!(action, FileAction::ReadExact(8)));
    let (_, action) = read.step(FileEvent::Data(PIXELS.to_vec()));
    assert!(matches!(action, FileAction::Finish(Ok(data)) if data == PIXELS));
}

#[test]
fn decode_tempfile_medium_deletes_after_read() {
    // Name must contain "tty-graphics-protocol" for deletion to occur (kitty spec).
    let name = "tty-graphics-protocol-test-1";
    let path = format!("/tmp/{name}");
    let mut system = System::with_file(&path, &PIXELS);
    let data = decode_in(&mut system, &file_command(Medium::TempFile, name)).unwrap();
    assert_eq!(data.pixels, PIXELS);
    assert!(system.contents(&path).is_none(), "temp file should be deleted after decode");
    assert_eq!(system.removed, vec![path]);
}

#[test]
fn decode_tempfile_not_deleted_without_protocol_name() {
    let name = "kitty_test_nodelete_1";
    let path = format!("/tmp/{name}");
    let mut system = System::with_file(&path, &PIXELS);
    let data = decode_in(&mut system, &file_command(Medium::TempFile, name)).unwrap();
    assert_eq!(data.pixels, PIXELS);
    assert!(system.contents(&path).is_some());
}

#[test]
fn decode_tempfile_accepts_absolute_path() {
    let path = "/tmp/kitty_test_abspath_1";
    let mut system = System::with_file(path, &PIXELS);
    let data = decode_in(&mut system, &file_command(Medium::TempFile, path)).unwrap();
    assert_eq!(data.pixels, PIXELS);
}

#[test]
fn decode_tempfile_rejects_path_outside_tmp() {
    // /etc/passwd is outside any known temp dir: must be rejected.
    let path_b64 = encode("/etc/passwd".as_bytes());
    let cmd = KittyCommand {
        format: Format::Rgba,
        medium: Medium::TempFile,
        width: 1,
        height: 1,
        payload: path_b64.into_bytes(),
        ..Default::default()
    };

    assert!(decode(&cmd).is_err());
    assert_eq!(
        message(decode(&cmd)),
        "path traversal rejected: temp file resolves outside temp dir: \"/etc/passwd\"",
    );
}

#[test]
fn decode_tempfile_rejects_traversal_via_relative_dotdot() {
    // ../etc/passwd joined with the temp dir resolves outside of it: rejected.
    let path_b64 = encode("../etc/passwd".as_bytes());
    let cmd = KittyCommand {
        format: Format::Rgba,
        medium: Medium::TempFile,
        width: 1,
        height: 1,
        payload: path_b64.into_bytes(),
        ..Default::default()
    };

    assert!(decode(&cmd).is_err());
    assert!(matches!(decode(&cmd), Err(DecodeError::PathTraversal(_))));
}

#[test]
fn decode_tempfile_rejects_traversal_via_absolute_dotdot() {
    // /tmp/foo/../../etc/passwd resolves to /etc/passwd: rejected.
    let path_b64 = encode("/tmp/foo/../../etc/passwd".as_bytes());
    let cmd = KittyCommand {
        format: Format::Rgba,
        medium: Medium::TempFile,
        width: 1,
        height: 1,
        payload: path_b64.into_bytes(),
        ..Default::default()
    };

    assert!(decode(&cmd).is_err());
    assert!(matches!(decode(&cmd), Err(DecodeError::PathTraversal(_))));
}

#[test]
fn tempfile_is_the_vetted_one_throughout() {
    let path = || resolved("/tmp/tty-graphics-protocol-x");
    let dirs = || known_temp_dirs(vec![Some(resolved("/tmp"))]);
    let here = |read: &FileRead| read.resolved_path().map(path_of);
    let vetted = Some("/tmp/tty-graphics-protocol-x".to_string());

    let read = FileRead::new("tty-graphics-protocol-x".to_string(), 1, 2, true);
    let (read, _) = read.start(false);
    assert_eq!(here(&read), None);
    let (read, _) = read.step(FileEvent::Resolved { path: path(), shown: String::new() });
    assert_eq!(here(&read), None, "not vetted yet");
    let (read, action) = read.step(FileEvent::TempDirs(dirs()));
    assert!(matches!(action, FileAction::Stat));
    assert_eq!(here(&read), vetted);
    let (read, action) = read.step(FileEvent::Stat { is_file: true, shown: String::new() });
    assert!(matches!(action, FileAction::Open));
    assert_eq!(here(&read), vetted);
    let (read, action) = read.step(FileEvent::Opened);
    assert!(matches!(action, FileAction::Seek(1)));
    assert_eq!(here(&read), vetted);
    let (read, action) = read.step(FileEvent::Sought);
    assert!(matches!(action, FileAction::ReadExact(2)));
    assert_eq!(here(&read), vetted);
    let (read, action) = read.step(FileEvent::Data(vec![7, 8]));
    assert!(matches!(action, FileAction::ListTempDirs));
    let (read, action) = read.step(FileEvent::TempDirs(dirs()));
    assert!(matches!(action, FileAction::Remove));
    assert_eq!(here(&read), vetted);
    let (_, action) = read.step(FileEvent::Removed);
    assert!(matches!(action, FileAction::Finish(Ok(data)) if data == [7, 8]));
}

#[test]
fn unexpected_events_are_errors() {
    let told = |result: Result<Vec<u8>, DecodeError>| result.unwrap_err().to_string();
    let read = FileRead::new("/f".to_string(), 0, 0, false).start(true).0;
    match read.step(FileEvent::Removed).1 {
        FileAction::Finish(result) => assert_eq!(told(result), "I/O error: unexpected event"),
        other => panic!("{other:?}"),
    }
    // So is a read of another length than was asked for.
    let read = FileRead::new("/f".to_string(), 0, 3, false).start(true).0;
    let read = read.step(FileEvent::Stat { is_file: true, shown: String::new() }).0;
    let read = read.step(FileEvent::Opened).0;
    match read.step(FileEvent::Data(vec![1, 2])).1 {
        FileAction::Finish(result) => assert_eq!(told(result), "I/O error: unexpected event"),
        other => panic!("{other:?}"),
    }
    let read = ShmRead::new("/o".to_string(), 0, 0).start().0;
    match read.step(ShmEvent::Unlinked).1 {
        ShmAction::Finish(result) => assert_eq!(told(result), "I/O error: unexpected event"),
        other => panic!("{other:?}"),
    }
}

#[test]
fn decode_tempfile_rejects_what_is_no_file() {
    let mut system = System::new();
    assert_eq!(
        message(decode_in(&mut system, &file_command(Medium::TempFile, "/tmp"))),
        "I/O error: not a regular file: \"/tmp\"",
    );
    assert_eq!(
        message(decode_in(&mut system, &file_command(Medium::TempFile, "missing"))),
        "I/O error: canonicalize \"/tmp/missing\": no such file",
    );
}

#[test]
fn tempfile_next_to_temp_dir_is_outside() {
    // Paths are compared name by name: `/tmpfiles` is not in `/tmp`.
    let mut system = System::with_file("/tmpfiles/x", &PIXELS);
    let told = decode_in(&mut system, &file_command(Medium::TempFile, "/tmpfiles/x"));
    assert!(matches!(told, Err(DecodeError::PathTraversal(_))));
}

#[test]
fn file_failures_are_reported() {
    let failed = || FileEvent::Failed { shown: "\"/f\"".to_string(), error: "odd".to_string() };
    let told = |action| match action {
        FileAction::Finish(Err(e)) => e.to_string(),
        other => panic!("{other:?}"),
    };
    let fresh = |offset, size| FileRead::new("/f".to_string(), offset, size, false).start(true).0;
    let found = |offset, size| {
        fresh(offset, size).step(FileEvent::Stat { is_file: true, shown: String::new() }).0
    };
    assert_eq!(told(fresh(0, 0).step(failed()).1), "I/O error: stat \"/f\": odd");
    assert_eq!(told(found(0, 0).step(failed()).1), "I/O error: open \"/f\": odd");
    let opened = |offset, size| found(offset, size).step(FileEvent::Opened).0;
    assert_eq!(told(opened(1, 0).step(failed()).1), "I/O error: seek: odd");
    assert_eq!(told(opened(0, 0).step(failed()).1), "I/O error: read_to_end: odd");
    assert_eq!(told(opened(0, 1).step(failed()).1), "I/O error: read_exact: odd");
}

#[test]
fn temp_dirs_are_sorted_and_unique() {
    let dirs = known_temp_dirs(vec![
        Some(resolved("/var/tmp")),
        Some(resolved("/tmp")),
        None,
        Some(resolved("/tmp/a")),
        Some(resolved("/tmp")),
    ]);
    let names: Vec<Vec<Vec<u8>>> = dirs.into_iter().map(|dir| dir.components).collect();
    assert_eq!(
        names,
        vec![
            vec![b"tmp".to_vec()],
            vec![b"tmp".to_vec(), b"a".to_vec()],
            vec![b"var".to_vec(), b"tmp".to_vec()],
        ],
    );
}

// ── SharedMemory ───────────────────────────────────────────────────

fn shm_command(name: &str, data_size: u32) -> KittyCommand {
    KittyCommand { data_size, ..file_command(Medium::SharedMemory, name) }
}

#[test]
fn decode_shm_medium_rgba() {
    let mut system = System::with_object("/kitty_test_shm", &PIXELS);
    let data = decode_in(&mut system, &shm_command("/kitty_test_shm", 8)).unwrap();
    assert_eq!(data.width, 2);
    assert_eq!(data.height, 1);
    assert_eq!(data.pixels, PIXELS);
    assert_eq!(system.unlinked, vec!["/kitty_test_shm".to_string()]);
}

#[test]
fn decode_shm_medium_with_offset_and_size() {
    let mut full_data = vec![0xDE, 0xAD, 0xBE, 0xEF];
    let pixels: Vec<u8> = vec![10, 20, 30, 255, 40, 50, 60, 255];
    full_data.extend_from_slice(&pixels);
    full_data.extend_from_slice(&[0xCA, 0xFE, 0xBA, 0xBE]);
    let mut system = System::with_object("/kitty_test_shm_off", &full_data);
    let cmd = KittyCommand { data_offset: 4, ..shm_command("/kitty_test_shm_off", 8) };
    assert_eq!(decode_in(&mut system, &cmd).unwrap().pixels, pixels);
    assert!(
        system.object("/kitty_test_shm_off").is_none(),
        "shm should be unlinked after decode",
    );
}

#[test]
fn decode_shm_medium_cleanup_on_success() {
    let pixels: Vec<u8> = vec![100, 200, 50, 255];
    let mut system = System::with_object("/kitty_test_shm_clean", &pixels);
    let cmd = KittyCommand { width: 1, ..shm_command("/kitty_test_shm_clean", 4) };
    assert_eq!(decode_in(&mut system, &cmd).unwrap().pixels, pixels);

    // The shm should be fully cleaned up.
    assert!(system.object("/kitty_test_shm_clean").is_none());
    assert_eq!((system.open, system.mapped), (0, 0));
}

#[test]
fn decode_shm_up_to_the_end() {
    let mut data = vec![9, 9];
    data.extend_from_slice(&PIXELS);
    let mut system = System::with_object("/object", &data);
    let cmd = KittyCommand { data_offset: 2, ..shm_command("/object", 0) };
    assert_eq!(decode_in(&mut system, &cmd).unwrap().pixels, PIXELS);
}

#[test]
fn decode_shm_too_short() {
    let mut system = System::with_object("/object", &PIXELS);
    let cmd = KittyCommand { data_offset: 1, ..shm_command("/object", 8) };
    assert_eq!(
        message(decode_in(&mut system, &cmd)),
        "I/O error: shm '/object': offset(1) + size(8) exceeds total(8)",
    );
    assert_eq!(system.unlinked, vec!["/object".to_string()]);
}

#[test]
fn decode_shm_empty() {
    let mut system = System::with_object("/object", &[]);
    assert_eq!(
        message(decode_in(&mut system, &shm_command("/object", 0))),
        "I/O error: shm '/object' has zero size",
    );
    assert_eq!(system.unlinked, vec!["/object".to_string()]);
}

#[test]
fn decode_shm_failures() {
    let failed = || ShmEvent::Failed { error: "odd".to_string() };
    let told = |action| match action {
        ShmAction::Finish(Err(e)) => e.to_string(),
        other => panic!("{other:?}"),
    };
    let opened =
        || ShmRead::new("/o".to_string(), 0, 0).start().0.step(ShmEvent::Opened).0;

    // An object of unknown size is closed and left alone.
    let (read, action) = opened().step(failed());
    assert!(matches!(action, ShmAction::Close));
    assert_eq!(told(read.step(ShmEvent::Closed).1), "I/O error: fstat shm '/o': odd");

    // One that cannot be mapped is closed and unlinked.
    let (read, action) = opened().step(ShmEvent::Sized(5));
    assert!(matches!(action, ShmAction::MapWhole(5)));
    let (read, action) = read.step(failed());
    assert!(matches!(action, ShmAction::Close));
    let (read, action) = read.step(ShmEvent::Closed);
    assert!(matches!(action, ShmAction::Unlink { name, warn: false } if name == "/o"));
    assert_eq!(told(read.step(ShmEvent::Unlinked).1), "I/O error: mmap shm '/o': odd");

    let mut system = System::new();
    assert_eq!(
        message(decode_in(&mut system, &shm_command("/a\0b", 0))),
        "I/O error: invalid shm name: nul byte",
    );
}

#[test]
fn decode_shm_nonexistent_returns_error() {
    let shm_name = "/kitty_test_shm_nonexistent_999999";

    let name_b64 = encode(shm_name.as_bytes());
    let cmd = KittyCommand {
        format: Format::Rgba,
        medium: Medium::SharedMemory,
        width: 1,
        height: 1,
        payload: name_b64.into_bytes(),
        ..Default::default()
    };

    let err = decode(&cmd);
    assert!(err.is_err(), "nonexistent shm should error");
    assert_eq!(
        message(err),
        "I/O error: shm_open '/kitty_test_shm_nonexistent_999999': no such object",
    );
}
