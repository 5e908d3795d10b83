//! The kitty graphics protocol.

pub mod codecs;
pub mod decode;
pub mod effects;
pub mod error;
pub mod file;
pub mod laws;
pub mod paths;
pub mod shm;
pub mod traces;
