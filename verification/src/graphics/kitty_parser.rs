//! Commands of the kitty graphics protocol.

use vstd::prelude::*;

verus! {

/// Format of the image data (`f`).
#[derive(Debug, Clone, Copy, PartialEq, Eq, Structural)]
pub enum Format {
    /// 24-bit RGB.
    Rgb,
    /// 32-bit RGBA.
    Rgba,
    /// PNG file.
    Png,
}

/// How the image data is handed over (`t`).
#[derive(Debug, Clone, Copy, PartialEq, Eq, Structural)]
pub enum Medium {
    /// In the command itself.
    Direct,
    /// In a file.
    File,
    /// In a temporary file.
    TempFile,
    /// In a shared memory object.
    SharedMemory,
}

/// Compression of the image data (`o`).
#[derive(Debug, Clone, Copy, PartialEq, Eq, Structural)]
pub enum Compression {
    Uncompressed,
    Zlib,
}

/// What a command says about its image data.
#[derive(Debug, Clone)]
pub struct KittyCommand {
    pub format: Format,
    pub medium: Medium,
    pub compression: Compression,
    /// Width of the image, in pixels.
    pub width: u32,
    /// Height of the image, in pixels.
    pub height: u32,
    /// Where to start reading.
    pub data_offset: u32,
    /// How many bytes to read, zero for all.
    pub data_size: u32,
    /// Whether the payload holds decoded bytes, as it does after a chunked transfer.
    pub pre_decoded: bool,
    pub payload: Vec<u8>,
}

impl Default for KittyCommand {
    fn default() -> (cmd: KittyCommand)
        ensures
            cmd.format == Format::Rgba,
            cmd.medium == Medium::Direct,
            cmd.compression == Compression::Uncompressed,
            cmd.width == 0,
            cmd.height == 0,
            cmd.data_offset == 0,
            cmd.data_size == 0,
            !cmd.pre_decoded,
            cmd.payload@ == Seq::<u8>::empty(),
    {
        KittyCommand {
            format: Format::Rgba,
            medium: Medium::Direct,
            compression: Compression::Uncompressed,
            width: 0,
            height: 0,
            data_offset: 0,
            data_size: 0,
            pre_decoded: false,
            payload: Vec::new(),
        }
    }
}

} // verus!
