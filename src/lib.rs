//! Decoder for the chunk headers of compiled Android resource tables.
//!
//! Every decoder reads a fixed-size record from a byte buffer at a given
//! position and returns the decoded value together with the position just
//! past it, or a [`DecodeError`]. Multi-byte fields are little-endian.
pub mod bits;
pub mod config;
pub mod error;
pub mod headers;
pub mod kinds;
pub mod laws;
pub mod parser;
pub mod primitive;
pub mod util;

pub use config::{
    Imsi, Input, InputFlagsBit, Locale, ResConfig, ScreenConfig, ScreenConfig2, ScreenLayoutBit,
    ScreenSize, ScreenSizeDp, ScreenType, UiModeBit, Version,
};
pub use error::{ConfigField, DecodeError};
pub use headers::{
    ChunkType, ExtendedHeader, ResChunkHeader, ResPackageHeader, ResStringPoolHeader,
    ResTypeHeader, ResTypeSpecHeader,
};
pub use kinds::{
    Density, Keyboard, KeysHidden, LayoutDir, NavHidden, Navigation, Night, Orientation,
    ScreenLayoutSize, ScreenLong, Touchscreen, UiType,
};
pub use parser::{extended_header, AnyHeader};
pub use primitive::u8_bool;
pub use util::utf16_lit;
