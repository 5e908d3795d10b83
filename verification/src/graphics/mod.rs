//! Images in the terminal.

use vstd::prelude::*;

pub mod kitty;
pub mod kitty_parser;

verus! {

/// Maximum width and height of a graphic, in pixels.
pub const MAX_GRAPHIC_WIDTH: usize = 4096;

pub const MAX_GRAPHIC_HEIGHT: usize = 4096;

/// Unique identifier of a graphic.
#[derive(Debug, Clone, Copy, PartialEq, Eq, Hash, Structural)]
pub struct GraphicId(pub u64);

/// Format of the pixels of a graphic.
#[derive(Debug, Clone, Copy, PartialEq, Eq, Structural)]
pub enum ColorType {
    /// 3 bytes per pixel (red, green, blue).
    Rgb,
    /// 4 bytes per pixel (red, green, blue, alpha).
    Rgba,
}

/// A graphic with its pixels.
#[derive(Debug, Clone, PartialEq, Eq)]
pub struct GraphicData {
    pub id: GraphicId,
    /// Width, in pixels.
    pub width: usize,
    /// Height, in pixels.
    pub height: usize,
    /// Color type of the pixels.
    pub color_type: ColorType,
    /// Pixel data.
    pub pixels: Vec<u8>,
    /// Whether every pixel is known to be opaque.
    pub is_opaque: bool,
}

/// A graphic as a mathematical value.
#[verifier::ext_equal]
pub struct GraphicView {
    pub id: GraphicId,
    pub width: nat,
    pub height: nat,
    pub color_type: ColorType,
    pub pixels: Seq<u8>,
    pub is_opaque: bool,
}

impl View for GraphicData {
    type V = GraphicView;

    open spec fn view(&self) -> GraphicView {
        GraphicView {
            id: self.id,
            width: self.width as nat,
            height: self.height as nat,
            color_type: self.color_type,
            pixels: self.pixels@,
            is_opaque: self.is_opaque,
        }
    }
}

} // verus!
