pub mod errors;
pub mod hash;
pub mod image;
pub mod json;
pub mod manifest;
pub mod registry;
pub mod render;
pub mod strutil;
