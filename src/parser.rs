//! The entry point: decodes the header of any chunk whose kind it knows.
use vstd::prelude::*;

use crate::error::DecodeError;
use crate::headers::{
    chunk_header_error, header_error, package_header_at, string_pool_header_at, type_header_at,
    type_header_error, type_spec_header_at, ChunkType, ExtendedHeader, ResChunkHeader,
    ResPackageHeader, ResStringPoolHeader, ResTypeHeader, ResTypeSpecHeader,
    PACKAGE_HEADER_SIZE, STRING_POOL_HEADER_SIZE, TYPE_SPEC_HEADER_SIZE,
};
use crate::primitive::le_u16;

verus! {

/// An extended header of one of the kinds decoded here.
#[derive(PartialEq, Eq, Clone, Copy, Debug)]
pub enum AnyHeader {
    StringPool(ResStringPoolHeader),
    Package(ResPackageHeader),
    TypeSpec(ResTypeSpecHeader),
    Type(ResTypeHeader),
}

impl ExtendedHeader for AnyHeader {
    open spec fn spec_base_header(&self) -> ResChunkHeader {
        match self {
            AnyHeader::StringPool(h) => h.base_header,
            AnyHeader::Package(h) => h.base_header,
            AnyHeader::TypeSpec(h) => h.base_header,
            AnyHeader::Type(h) => h.base_header,
        }
    }

    fn get_base_header(&self) -> (r: &ResChunkHeader) {
        match self {
            AnyHeader::StringPool(h) => h.get_base_header(),
            AnyHeader::Package(h) => h.get_base_header(),
            AnyHeader::TypeSpec(h) => h.get_base_header(),
            AnyHeader::Type(h) => h.get_base_header(),
        }
    }
}

/// Why the chunk header at `p` cannot be decoded, if it cannot. Past the
/// common header, the tag alone picks the decoder; a kind without one is unsupported.
pub open spec fn extended_header_error(s: Seq<u8>, p: int) -> Option<DecodeError> {
    match chunk_header_error(s, p) {
        Some(e) => Some(e),
        None => match ChunkType::spec_from_raw(le_u16(s, p)) {
            Some(ChunkType::ResStringPoolType) => header_error(s, p, STRING_POOL_HEADER_SIZE),
            Some(ChunkType::ResTablePackageType) => header_error(s, p, PACKAGE_HEADER_SIZE),
            Some(ChunkType::ResTableTypeSpecType) => header_error(s, p, TYPE_SPEC_HEADER_SIZE),
            Some(ChunkType::ResTableTypeType) => type_header_error(s, p),
            _ => Some(DecodeError::UnsupportedChunkType { tag: le_u16(s, p) }),
        },
    }
}

/// `h` is the header encoded at `p`, of the kind its tag names.
pub open spec fn any_header_at(s: Seq<u8>, p: int, h: AnyHeader) -> bool {
    match h {
        AnyHeader::StringPool(x) => x.base_header.res_type == ChunkType::ResStringPoolType
            && string_pool_header_at(s, p, x),
        AnyHeader::Package(x) => x.base_header.res_type == ChunkType::ResTablePackageType
            && package_header_at(s, p, x),
        AnyHeader::TypeSpec(x) => x.base_header.res_type == ChunkType::ResTableTypeSpecType
            && type_spec_header_at(s, p, x),
        AnyHeader::Type(x) => x.base_header.res_type == ChunkType::ResTableTypeType
            && type_header_at(s, p, x) && x.config.well_formed(),
    }
}

/// Decodes the header of the chunk at `pos`: the common header first, then
/// the extended header of the kind its tag names. Returns the header and the
/// position past it, which is `pos + header_size`; the payload is not read.
/// A chunk whose declared total size is smaller than its header is refused.
pub fn extended_header(buf: &[u8], pos: usize) -> (r: Result<(AnyHeader, usize), DecodeError>)
    ensures
        match r {
            Ok((h, next)) => {
                &&& extended_header_error(buf@, pos as int) is None
                &&& any_header_at(buf@, pos as int, h)
                &&& next == pos + h.spec_base_header().header_size
                &&& h.spec_base_header().header_size as u32 <= h.spec_base_header().size
            },
            Err(e) => extended_header_error(buf@, pos as int) == Some(e),
        },
{
    let (base, _) = ResChunkHeader::parse(buf, pos)?;
    match base.res_type {
        ChunkType::ResStringPoolType => {
            let (h, next) = ResStringPoolHeader::parse(buf, pos)?;
            Ok((AnyHeader::StringPool(h), next))
        },
        ChunkType::ResTablePackageType => {
            let (h, next) = ResPackageHeader::parse(buf, pos)?;
            Ok((AnyHeader::Package(h), next))
        },
        ChunkType::ResTableTypeSpecType => {
            let (h, next) = ResTypeSpecHeader::parse(buf, pos)?;
            Ok((AnyHeader::TypeSpec(h), next))
        },
        ChunkType::ResTableTypeType => {
            let (h, next) = ResTypeHeader::parse(buf, pos)?;
            Ok((AnyHeader::Type(h), next))
        },
        _ => Err(DecodeError::UnsupportedChunkType { tag: base.res_type.raw() }),
    }
}

} // verus!
