pub mod banner;
pub mod color;
pub mod error;
pub mod icons;
mod strutil;
pub mod svg;
