//! Terminal grid with scrollback, and images of the kitty graphics protocol.

pub mod cell;
pub mod graphics;
pub mod grid;
pub mod index;
pub mod term;
pub mod text;
