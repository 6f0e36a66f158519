use vstd::prelude::*;

verus! {

/// The closed-enumeration fields of a configuration descriptor.
#[derive(PartialEq, Eq, Structural, Clone, Copy, Debug)]
pub enum ConfigField {
    Orientation,
    Touchscreen,
    Keyboard,
    Navigation,
    KeysHidden,
    NavHidden,
    ScreenLayoutSize,
    ScreenLong,
    LayoutDir,
    UiType,
    Night,
}

/// Why a decoder failed.
#[derive(PartialEq, Eq, Structural, Clone, Copy, Debug)]
pub enum DecodeError {
    /// Fewer bytes remain than the value being decoded needs.
    Truncated,
    /// A closed-enumeration field holds a value with no named member.
    InvalidEnum { field: ConfigField, raw: u8 },
    /// The chunk type tag is unknown, or known but not decoded here.
    UnsupportedChunkType { tag: u16 },
    /// A declared size disagrees with the size of the decoded record.
    HeaderSizeMismatch { declared: u32, expected: u32 },
}

} // verus!
