//! Errors of image decoding.

use vstd::prelude::*;

use crate::graphics::kitty_parser::Medium;
use crate::text::joined;

verus! {

/// Errors that can occur during kitty image decoding.
#[derive(Debug)]
pub enum DecodeError {
    Base64(String),
    Zlib(String),
    Png(String),
    InvalidDimensions(String),
    UnsupportedMedium(Medium),
    MissingDimensions,
    IoError(String),
    PathTraversal(String),
}

/// An error as a mathematical value.
#[verifier::ext_equal]
pub enum ErrorView {
    Base64(Seq<char>),
    Zlib(Seq<char>),
    Png(Seq<char>),
    InvalidDimensions(Seq<char>),
    UnsupportedMedium(Medium),
    MissingDimensions,
    IoError(Seq<char>),
    PathTraversal(Seq<char>),
}

impl View for DecodeError {
    type V = ErrorView;

    open spec fn view(&self) -> ErrorView {
        match self {
            DecodeError::Base64(e) => ErrorView::Base64(e@),
            DecodeError::Zlib(e) => ErrorView::Zlib(e@),
            DecodeError::Png(e) => ErrorView::Png(e@),
            DecodeError::InvalidDimensions(e) => ErrorView::InvalidDimensions(e@),
            DecodeError::UnsupportedMedium(m) => ErrorView::UnsupportedMedium(*m),
            DecodeError::MissingDimensions => ErrorView::MissingDimensions,
            DecodeError::IoError(e) => ErrorView::IoError(e@),
            DecodeError::PathTraversal(e) => ErrorView::PathTraversal(e@),
        }
    }
}

/// The name of a medium.
pub open spec fn medium_name(medium: Medium) -> Seq<char> {
    match medium {
        Medium::Direct => "Direct"@,
        Medium::File => "File"@,
        Medium::TempFile => "TempFile"@,
        Medium::SharedMemory => "SharedMemory"@,
    }
}

impl ErrorView {
    /// The error in words.
    pub open spec fn message(self) -> Seq<char> {
        match self {
            ErrorView::Base64(e) => "base64 decode error: "@ + e,
            ErrorView::Zlib(e) => "zlib decompress error: "@ + e,
            ErrorView::Png(e) => "PNG decode error: "@ + e,
            ErrorView::InvalidDimensions(e) => "invalid dimensions: "@ + e,
            ErrorView::UnsupportedMedium(m) => "unsupported medium: "@ + medium_name(m),
            ErrorView::MissingDimensions => "missing width/height for raw format"@,
            ErrorView::IoError(e) => "I/O error: "@ + e,
            ErrorView::PathTraversal(e) => "path traversal rejected: "@ + e,
        }
    }
}

impl DecodeError {
    /// The error in words.
    pub fn to_string(&self) -> (message: String)
        ensures
            message@ == self@.message(),
    {
        match self {
            DecodeError::Base64(e) => joined("base64 decode error: ", e.as_str()),
            DecodeError::Zlib(e) => joined("zlib decompress error: ", e.as_str()),
            DecodeError::Png(e) => joined("PNG decode error: ", e.as_str()),
            DecodeError::InvalidDimensions(e) => joined("invalid dimensions: ", e.as_str()),
            DecodeError::UnsupportedMedium(m) => {
                let name: &str = match *m {
                    Medium::Direct => "Direct",
                    Medium::File => "File",
                    Medium::TempFile => "TempFile",
                    Medium::SharedMemory => "SharedMemory",
                };
                joined("unsupported medium: ", name)
            },
            DecodeError::MissingDimensions => "missing width/height for raw format".to_owned(),
            DecodeError::IoError(e) => joined("I/O error: ", e.as_str()),
            DecodeError::PathTraversal(e) => joined("path traversal rejected: ", e.as_str()),
        }
    }
}

} // verus!
