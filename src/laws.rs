//! Properties that hold of every input, stated over the decoders' specifications.
use vstd::prelude::*;

use crate::bits::{lemma_sibling_field_unchanged, with_field};
use crate::config::{
    config_error, field_raw, field_rejected, invalid, InputFlagsBit, ScreenLayoutBit, UiModeBit,
    CONFIG_SIZE,
};
use crate::error::{ConfigField, DecodeError};
use crate::headers::{
    chunk_header_error, header_error, type_header_error, ChunkType, PACKAGE_HEADER_SIZE,
    STRING_POOL_HEADER_SIZE, TYPE_SPEC_HEADER_SIZE,
};
use crate::parser::extended_header_error;
use crate::primitive::{fits, le_u16, le_u32};

verus! {

/// The kinds of chunk whose extended header is decoded.
pub open spec fn decodable_kind(k: ChunkType) -> bool {
    k == ChunkType::ResStringPoolType || k == ChunkType::ResTablePackageType
        || k == ChunkType::ResTableTypeSpecType || k == ChunkType::ResTableTypeType
}

/// Truncation: every decoder reports a prefix of its input that ends before
/// the record does as truncated input, and never decodes it. For the entry
/// point, a prefix of a decodable header that ends before `header_size` bytes
/// is truncated input.
pub proof fn lemma_prefix_is_truncated(s: Seq<u8>, p: int, k: int)
    requires
        0 <= p,
        0 <= k <= s.len(),
    ensures
        k < p + 8 ==> chunk_header_error(s.subrange(0, k), p) == Some(DecodeError::Truncated),
        k < p + STRING_POOL_HEADER_SIZE ==> header_error(s.subrange(0, k), p, STRING_POOL_HEADER_SIZE)
            == Some(DecodeError::Truncated),
        k < p + PACKAGE_HEADER_SIZE ==> header_error(s.subrange(0, k), p, PACKAGE_HEADER_SIZE)
            == Some(DecodeError::Truncated),
        k < p + TYPE_SPEC_HEADER_SIZE ==> header_error(s.subrange(0, k), p, TYPE_SPEC_HEADER_SIZE)
            == Some(DecodeError::Truncated),
        k < p + 80 ==> type_header_error(s.subrange(0, k), p) == Some(DecodeError::Truncated),
        k < p + CONFIG_SIZE ==> config_error(s.subrange(0, k), p) == Some(DecodeError::Truncated),
        extended_header_error(s, p) is None && k < p + le_u16(s, p + 2) ==> extended_header_error(
            s.subrange(0, k),
            p,
        ) == Some(DecodeError::Truncated),
{
    let t = s.subrange(0, k);
    if extended_header_error(s, p) is None && k < p + le_u16(s, p + 2) && k >= p + 8 {
        assert(t[p] == s[p] && t[p + 1] == s[p + 1]);
        assert(le_u16(t, p) == le_u16(s, p));
    }
}

/// Invalid enumeration values: once the input is long enough and its size
/// field right, a closed-enumeration field outside its named set makes the
/// descriptor fail with an invalid-enumeration error that names an offending
/// field and its raw value; where that field is the only offending one, the
/// error names it.
pub proof fn lemma_invalid_enum_rejected(s: Seq<u8>, p: int, f: ConfigField)
    requires
        fits(s, p, CONFIG_SIZE as int),
        le_u32(s, p) == CONFIG_SIZE,
        field_rejected(s, p, f),
    ensures
        config_error(s, p) matches Some(DecodeError::InvalidEnum { field, raw }) && field_rejected(
            s,
            p,
            field,
        ) && raw == field_raw(s, p, field),
        (forall|g: ConfigField| g != f ==> !#[trigger] field_rejected(s, p, g)) ==> config_error(s, p)
            == invalid(s, p, f),
{
}

/// Unsupported tags: where the common header is present and its tag names no
/// kind decoded here, the entry point fails with the unsupported-chunk-type
/// error carrying that tag, whatever follows the eight header bytes.
pub proof fn lemma_unsupported_tag_rejected(s: Seq<u8>, t: Seq<u8>, p: int)
    requires
        fits(s, p, 8),
        !(ChunkType::spec_from_raw(le_u16(s, p)) matches Some(k) && decodable_kind(k)),
        fits(t, p, 8),
        t.subrange(p, p + 8) == s.subrange(p, p + 8),
    ensures
        extended_header_error(s, p) == Some(DecodeError::UnsupportedChunkType { tag: le_u16(s, p) }),
        extended_header_error(t, p) == extended_header_error(s, p),
{
    assert(t[p] == t.subrange(p, p + 8)[0] && t[p + 1] == t.subrange(p, p + 8)[1]);
    assert(le_u16(t, p) == le_u16(s, p));
}

/// Bit-field independence in the packed bytes of a descriptor: rewriting the
/// bits of one field leaves the decoded value of every field that shares no
/// bit with it unchanged. (In the screen-layout byte, the long-screen field,
/// bits 2-3, and the layout direction, bits 0-2, share bit 2.)
pub proof fn lemma_packed_fields_independent(v: u8, x: u8)
    ensures
        InputFlagsBit(with_field(v, 4, 2, x)).spec_keys_hidden() == InputFlagsBit(v).spec_keys_hidden(),
        InputFlagsBit(with_field(v, 6, 2, x)).spec_nav_hidden() == InputFlagsBit(v).spec_nav_hidden(),
        ScreenLayoutBit(with_field(v, 2, 2, x)).spec_screen_size() == ScreenLayoutBit(v).spec_screen_size(),
        ScreenLayoutBit(with_field(v, 0, 3, x)).spec_screen_size() == ScreenLayoutBit(v).spec_screen_size(),
        ScreenLayoutBit(with_field(v, 4, 4, x)).spec_screen_long() == ScreenLayoutBit(v).spec_screen_long(),
        ScreenLayoutBit(with_field(v, 4, 4, x)).spec_layout_dir() == ScreenLayoutBit(v).spec_layout_dir(),
        UiModeBit(with_field(v, 2, 2, x)).spec_ui_type() == UiModeBit(v).spec_ui_type(),
        UiModeBit(with_field(v, 4, 4, x)).spec_night() == UiModeBit(v).spec_night(),
{
    lemma_sibling_field_unchanged(v, 6, 2, 4, 2, x);
    lemma_sibling_field_unchanged(v, 4, 2, 6, 2, x);
    lemma_sibling_field_unchanged(v, 4, 4, 2, 2, x);
    lemma_sibling_field_unchanged(v, 4, 4, 0, 3, x);
    lemma_sibling_field_unchanged(v, 2, 2, 4, 4, x);
    lemma_sibling_field_unchanged(v, 0, 3, 4, 4, x);
}

} // verus!
