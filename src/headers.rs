//! The common chunk header and the extended headers built on it.
use vstd::prelude::*;

use crate::config::{config_at, config_error, ResConfig, CONFIG_SIZE};
use crate::error::DecodeError;
use crate::primitive::{align_skip, fits, le_u16, le_u32, u16_at, u32_at, units_at};

verus! {

/// Byte length of the common chunk header.
pub const CHUNK_HEADER_SIZE: u16 = 8;

/// Byte length of a string-pool header.
pub const STRING_POOL_HEADER_SIZE: u16 = 28;

/// Byte length of a package header.
pub const PACKAGE_HEADER_SIZE: u16 = 288;

/// Byte length of a type-spec header.
pub const TYPE_SPEC_HEADER_SIZE: u16 = 16;

/// Byte length of a type header, its configuration descriptor included.
pub const TYPE_HEADER_SIZE: u16 = 80;

/// Number of UTF-16 code units in a package name.
pub const PACKAGE_NAME_UNITS: usize = 128;

/// The kinds of chunk, by their 16-bit type tag.
#[derive(PartialEq, Eq, Structural, Clone, Copy, Debug)]
pub enum ChunkType {
    ResNullType,
    ResStringPoolType,
    ResTableType,
    ResXmlType,
    ResXmlStartNamespaceType,
    ResXmlEndNamespaceType,
    ResXmlStartElementType,
    ResXmlEndElementType,
    ResXmlCdataType,
    ResXmlLastChunkType,
    ResXmlResourceMapType,
    ResTablePackageType,
    ResTableTypeType,
    ResTableTypeSpecType,
    ResTableLibraryType,
    ResTableOverlayableType,
    ResTableOverlayablePolicyType,
    ResTableStagedAliasType,
}

impl ChunkType {
    /// The kind whose tag is `v`, if any.
    pub open spec fn spec_from_raw(v: u16) -> Option<ChunkType> {
        if v == 0x0000 {
            Some(ChunkType::ResNullType)
        } else if v == 0x0001 {
            Some(ChunkType::ResStringPoolType)
        } else if v == 0x0002 {
            Some(ChunkType::ResTableType)
        } else if v == 0x0003 {
            Some(ChunkType::ResXmlType)
        } else if v == 0x0100 {
            Some(ChunkType::ResXmlStartNamespaceType)
        } else if v == 0x0101 {
            Some(ChunkType::ResXmlEndNamespaceType)
        } else if v == 0x0102 {
            Some(ChunkType::ResXmlStartElementType)
        } else if v == 0x0103 {
            Some(ChunkType::ResXmlEndElementType)
        } else if v == 0x0104 {
            Some(ChunkType::ResXmlCdataType)
        } else if v == 0x017f {
            Some(ChunkType::ResXmlLastChunkType)
        } else if v == 0x0180 {
            Some(ChunkType::ResXmlResourceMapType)
        } else if v == 0x0200 {
            Some(ChunkType::ResTablePackageType)
        } else if v == 0x0201 {
            Some(ChunkType::ResTableTypeType)
        } else if v == 0x0202 {
            Some(ChunkType::ResTableTypeSpecType)
        } else if v == 0x0203 {
            Some(ChunkType::ResTableLibraryType)
        } else if v == 0x0204 {
            Some(ChunkType::ResTableOverlayableType)
        } else if v == 0x0205 {
            Some(ChunkType::ResTableOverlayablePolicyType)
        } else if v == 0x0206 {
            Some(ChunkType::ResTableStagedAliasType)
        } else {
            None
        }
    }

    /// The tag of this kind.
    pub open spec fn spec_raw(self) -> u16 {
        match self {
            ChunkType::ResNullType => 0x0000,
            ChunkType::ResStringPoolType => 0x0001,
            ChunkType::ResTableType => 0x0002,
            ChunkType::ResXmlType => 0x0003,
            ChunkType::ResXmlStartNamespaceType => 0x0100,
            ChunkType::ResXmlEndNamespaceType => 0x0101,
            ChunkType::ResXmlStartElementType => 0x0102,
            ChunkType::ResXmlEndElementType => 0x0103,
            ChunkType::ResXmlCdataType => 0x0104,
            ChunkType::ResXmlLastChunkType => 0x017f,
            ChunkType::ResXmlResourceMapType => 0x0180,
            ChunkType::ResTablePackageType => 0x0200,
            ChunkType::ResTableTypeType => 0x0201,
            ChunkType::ResTableTypeSpecType => 0x0202,
            ChunkType::ResTableLibraryType => 0x0203,
            ChunkType::ResTableOverlayableType => 0x0204,
            ChunkType::ResTableOverlayablePolicyType => 0x0205,
            ChunkType::ResTableStagedAliasType => 0x0206,
        }
    }

    /// The kind whose tag is `v`, or `None` where the tag is unknown.
    pub fn from_raw(v: u16) -> (r: Option<ChunkType>)
        ensures
            r == Self::spec_from_raw(v),
    {
        match v {
            0x0000 => Some(ChunkType::ResNullType),
            0x0001 => Some(ChunkType::ResStringPoolType),
            0x0002 => Some(ChunkType::ResTableType),
            0x0003 => Some(ChunkType::ResXmlType),
            0x0100 => Some(ChunkType::ResXmlStartNamespaceType),
            0x0101 => Some(ChunkType::ResXmlEndNamespaceType),
            0x0102 => Some(ChunkType::ResXmlStartElementType),
            0x0103 => Some(ChunkType::ResXmlEndElementType),
            0x0104 => Some(ChunkType::ResXmlCdataType),
            0x017f => Some(ChunkType::ResXmlLastChunkType),
            0x0180 => Some(ChunkType::ResXmlResourceMapType),
            0x0200 => Some(ChunkType::ResTablePackageType),
            0x0201 => Some(ChunkType::ResTableTypeType),
            0x0202 => Some(ChunkType::ResTableTypeSpecType),
            0x0203 => Some(ChunkType::ResTableLibraryType),
            0x0204 => Some(ChunkType::ResTableOverlayableType),
            0x0205 => Some(ChunkType::ResTableOverlayablePolicyType),
            0x0206 => Some(ChunkType::ResTableStagedAliasType),
            _ => None,
        }
    }

    /// The tag of this kind.
    pub fn raw(&self) -> (r: u16)
        ensures
            r == self.spec_raw(),
            Self::spec_from_raw(r) == Some(*self),
    {
        match self {
            ChunkType::ResNullType => 0x0000,
            ChunkType::ResStringPoolType => 0x0001,
            ChunkType::ResTableType => 0x0002,
            ChunkType::ResXmlType => 0x0003,
            ChunkType::ResXmlStartNamespaceType => 0x0100,
            ChunkType::ResXmlEndNamespaceType => 0x0101,
            ChunkType::ResXmlStartElementType => 0x0102,
            ChunkType::ResXmlEndElementType => 0x0103,
            ChunkType::ResXmlCdataType => 0x0104,
            ChunkType::ResXmlLastChunkType => 0x017f,
            ChunkType::ResXmlResourceMapType => 0x0180,
            ChunkType::ResTablePackageType => 0x0200,
            ChunkType::ResTableTypeType => 0x0201,
            ChunkType::ResTableTypeSpecType => 0x0202,
            ChunkType::ResTableLibraryType => 0x0203,
            ChunkType::ResTableOverlayableType => 0x0204,
            ChunkType::ResTableOverlayablePolicyType => 0x0205,
            ChunkType::ResTableStagedAliasType => 0x0206,
        }
    }
}

/// Header of a chunk with an extended header: gives access to the common header.
pub trait ExtendedHeader {
    /// The embedded common header.
    spec fn spec_base_header(&self) -> ResChunkHeader;

    /// The embedded common header.
    fn get_base_header(&self) -> (r: &ResChunkHeader)
        ensures
            *r == self.spec_base_header(),
    ;
}

/// The header that starts every chunk.
#[derive(PartialEq, Eq, Structural, Clone, Copy, Debug)]
pub struct ResChunkHeader {
    pub res_type: ChunkType,
    /// Byte length of the chunk's full header, these eight bytes included.
    pub header_size: u16,
    /// Byte length of the whole chunk, header and payload.
    pub size: u32,
}

/// Header of a string pool chunk.
#[derive(PartialEq, Eq, Structural, Clone, Copy, Debug)]
pub struct ResStringPoolHeader {
    pub base_header: ResChunkHeader,
    pub string_count: u32,
    pub style_count: u32,
    pub flags: u32,
    pub strings_start: u32,
    pub styles_start: u32,
}

/// Header of a package chunk.
#[derive(PartialEq, Eq, Clone, Copy, Debug)]
pub struct ResPackageHeader {
    pub base_header: ResChunkHeader,
    pub id: u32,
    /// UTF-16 code units, padded with zeros.
    pub name: [u16; 128],
    pub type_strings_offset: u32,
    pub last_public_type_index: u32,
    pub key_strings_offset: u32,
    pub last_public_key_index: u32,
    pub type_id_offset: u32,
}

/// Header of a type-spec chunk.
#[derive(PartialEq, Eq, Structural, Clone, Copy, Debug)]
pub struct ResTypeSpecHeader {
    pub base_header: ResChunkHeader,
    pub id: u8,
    pub res0: u8,
    pub res1: u8,
    pub entry_count: u32,
}

/// Header of a type chunk: the entries of one type for one configuration.
#[derive(PartialEq, Eq, Clone, Copy, Debug)]
pub struct ResTypeHeader {
    pub base_header: ResChunkHeader,
    pub id: u8,
    pub flags: u8,
    pub reserved: u16,
    pub entry_count: u32,
    pub entries_start_offset: u32,
    pub config: ResConfig,
}

/// `h` holds the common header encoded at `p`.
pub open spec fn chunk_header_at(s: Seq<u8>, p: int, h: ResChunkHeader) -> bool {
    &&& ChunkType::spec_from_raw(le_u16(s, p)) == Some(h.res_type)
    &&& h.header_size == le_u16(s, p + 2)
    &&& h.size == le_u32(s, p + 4)
}

/// Why the common header at `p` cannot be decoded, if it cannot.
pub open spec fn chunk_header_error(s: Seq<u8>, p: int) -> Option<DecodeError> {
    if !fits(s, p, CHUNK_HEADER_SIZE as int) {
        Some(DecodeError::Truncated)
    } else if ChunkType::spec_from_raw(le_u16(s, p)) is None {
        Some(DecodeError::UnsupportedChunkType { tag: le_u16(s, p) })
    } else {
        None
    }
}

/// Why an extended header of `n` bytes at `p` cannot be decoded, if it cannot:
/// the input is too short, the tag is unknown, the declared header size is not
/// `n`, or the declared total size is smaller than the header.
pub open spec fn header_error(s: Seq<u8>, p: int, n: u16) -> Option<DecodeError> {
    if !fits(s, p, n as int) {
        Some(DecodeError::Truncated)
    } else if ChunkType::spec_from_raw(le_u16(s, p)) is None {
        Some(DecodeError::UnsupportedChunkType { tag: le_u16(s, p) })
    } else if le_u16(s, p + 2) != n {
        Some(DecodeError::HeaderSizeMismatch { declared: le_u16(s, p + 2) as u32, expected: n as u32 })
    } else if le_u32(s, p + 4) < n as u32 {
        Some(DecodeError::HeaderSizeMismatch { declared: le_u32(s, p + 4), expected: n as u32 })
    } else {
        None
    }
}

/// `h` holds the string-pool header encoded at `p`.
pub open spec fn string_pool_header_at(s: Seq<u8>, p: int, h: ResStringPoolHeader) -> bool {
    &&& chunk_header_at(s, p, h.base_header)
    &&& h.string_count == le_u32(s, p + 8)
    &&& h.style_count == le_u32(s, p + 12)
    &&& h.flags == le_u32(s, p + 16)
    &&& h.strings_start == le_u32(s, p + 20)
    &&& h.styles_start == le_u32(s, p + 24)
}

/// `h` holds the package header encoded at `p`.
pub open spec fn package_header_at(s: Seq<u8>, p: int, h: ResPackageHeader) -> bool {
    &&& chunk_header_at(s, p, h.base_header)
    &&& h.id == le_u32(s, p + 8)
    &&& forall|j: int| 0 <= j < 128 ==> #[trigger] h.name@[j] == le_u16(s, p + 12 + 2 * j)
    &&& h.type_strings_offset == le_u32(s, p + 268)
    &&& h.last_public_type_index == le_u32(s, p + 272)
    &&& h.key_strings_offset == le_u32(s, p + 276)
    &&& h.last_public_key_index == le_u32(s, p + 280)
    &&& h.type_id_offset == le_u32(s, p + 284)
}

/// `h` holds the type-spec header encoded at `p`; one padding byte precedes the entry count.
pub open spec fn type_spec_header_at(s: Seq<u8>, p: int, h: ResTypeSpecHeader) -> bool {
    &&& chunk_header_at(s, p, h.base_header)
    &&& h.id == s[p + 8]
    &&& h.res0 == s[p + 9]
    &&& h.res1 == s[p + 10]
    &&& h.entry_count == le_u32(s, p + 12)
}

/// Why the type header at `p` cannot be decoded, if it cannot.
pub open spec fn type_header_error(s: Seq<u8>, p: int) -> Option<DecodeError> {
    match header_error(s, p, TYPE_HEADER_SIZE) {
        Some(e) => Some(e),
        None => config_error(s, p + 20),
    }
}

/// `h` holds the type header encoded at `p`, configuration descriptor included.
pub open spec fn type_header_at(s: Seq<u8>, p: int, h: ResTypeHeader) -> bool {
    &&& chunk_header_at(s, p, h.base_header)
    &&& h.id == s[p + 8]
    &&& h.flags == s[p + 9]
    &&& h.reserved == le_u16(s, p + 10)
    &&& h.entry_count == le_u32(s, p + 12)
    &&& h.entries_start_offset == le_u32(s, p + 16)
    &&& config_at(s, p + 20, h.config)
}

/// The common header at `pos`; its tag must name a kind.
fn base_at(buf: &[u8], pos: usize) -> (r: Result<ResChunkHeader, DecodeError>)
    requires
        pos + CHUNK_HEADER_SIZE <= buf.len(),
    ensures
        match r {
            Ok(h) => chunk_header_at(buf@, pos as int, h),
            Err(e) => chunk_header_error(buf@, pos as int) == Some(e),
        },
{
    let tag = u16_at(buf, pos);
    match ChunkType::from_raw(tag) {
        Some(res_type) => Ok(
            ResChunkHeader { res_type, header_size: u16_at(buf, pos + 2), size: u32_at(buf, pos + 4) },
        ),
        None => Err(DecodeError::UnsupportedChunkType { tag }),
    }
}

/// The common header of an extended header of `n` bytes at `pos`.
fn extended_base_at(buf: &[u8], pos: usize, n: u16) -> (r: Result<ResChunkHeader, DecodeError>)
    requires
        n >= CHUNK_HEADER_SIZE,
    ensures
        match r {
            Ok(h) => header_error(buf@, pos as int, n) is None && chunk_header_at(buf@, pos as int, h)
                && h.header_size == n && h.header_size as u32 <= h.size && pos + n <= buf.len(),
            Err(e) => header_error(buf@, pos as int, n) == Some(e),
        },
{
    if pos > buf.len() || buf.len() - pos < n as usize {
        return Err(DecodeError::Truncated);
    }
    let h = base_at(buf, pos)?;
    if h.header_size != n {
        return Err(
            DecodeError::HeaderSizeMismatch { declared: h.header_size as u32, expected: n as u32 },
        );
    }
    if h.size < n as u32 {
        return Err(DecodeError::HeaderSizeMismatch { declared: h.size, expected: n as u32 });
    }
    Ok(h)
}

impl ResChunkHeader {
    /// Decodes the common header at `pos`, returning it and the position past it.
    pub fn parse(buf: &[u8], pos: usize) -> (r: Result<(ResChunkHeader, usize), DecodeError>)
        ensures
            match r {
                Ok((h, next)) => {
                    &&& chunk_header_error(buf@, pos as int) is None
                    &&& chunk_header_at(buf@, pos as int, h)
                    &&& next == pos + CHUNK_HEADER_SIZE
                },
                Err(e) => chunk_header_error(buf@, pos as int) == Some(e),
            },
    {
        if pos > buf.len() || buf.len() - pos < CHUNK_HEADER_SIZE as usize {
            return Err(DecodeError::Truncated);
        }
        let h = base_at(buf, pos)?;
        Ok((h, pos + 8))
    }
}

impl ResStringPoolHeader {
    /// Decodes the string-pool header at `pos`, returning it and the position past it.
    pub fn parse(buf: &[u8], pos: usize) -> (r: Result<(ResStringPoolHeader, usize), DecodeError>)
        ensures
            match r {
                Ok((h, next)) => {
                    &&& header_error(buf@, pos as int, STRING_POOL_HEADER_SIZE) is None
                    &&& string_pool_header_at(buf@, pos as int, h)
                    &&& next == pos + h.base_header.header_size
                    &&& h.base_header.header_size as u32 <= h.base_header.size
                },
                Err(e) => header_error(buf@, pos as int, STRING_POOL_HEADER_SIZE) == Some(e),
            },
    {
        let base_header = extended_base_at(buf, pos, STRING_POOL_HEADER_SIZE)?;
        let h = ResStringPoolHeader {
            base_header,
            string_count: u32_at(buf, pos + 8),
            style_count: u32_at(buf, pos + 12),
            flags: u32_at(buf, pos + 16),
            strings_start: u32_at(buf, pos + 20),
            styles_start: u32_at(buf, pos + 24),
        };
        Ok((h, pos + 28))
    }
}

impl ResPackageHeader {
    /// Decodes the package header at `pos`, returning it and the position past it.
    pub fn parse(buf: &[u8], pos: usize) -> (r: Result<(ResPackageHeader, usize), DecodeError>)
        ensures
            match r {
                Ok((h, next)) => {
                    &&& header_error(buf@, pos as int, PACKAGE_HEADER_SIZE) is None
                    &&& package_header_at(buf@, pos as int, h)
                    &&& next == pos + h.base_header.header_size
                    &&& h.base_header.header_size as u32 <= h.base_header.size
                },
                Err(e) => header_error(buf@, pos as int, PACKAGE_HEADER_SIZE) == Some(e),
            },
    {
        let base_header = extended_base_at(buf, pos, PACKAGE_HEADER_SIZE)?;
        let name: [u16; 128] = units_at(buf, pos + 12);
        let h = ResPackageHeader {
            base_header,
            id: u32_at(buf, pos + 8),
            name,
            type_strings_offset: u32_at(buf, pos + 268),
            last_public_type_index: u32_at(buf, pos + 272),
            key_strings_offset: u32_at(buf, pos + 276),
            last_public_key_index: u32_at(buf, pos + 280),
            type_id_offset: u32_at(buf, pos + 284),
        };
        Ok((h, pos + 288))
    }
}

impl ResTypeSpecHeader {
    /// Decodes the type-spec header at `pos`, returning it and the position past it.
    pub fn parse(buf: &[u8], pos: usize) -> (r: Result<(ResTypeSpecHeader, usize), DecodeError>)
        ensures
            match r {
                Ok((h, next)) => {
                    &&& header_error(buf@, pos as int, TYPE_SPEC_HEADER_SIZE) is None
                    &&& type_spec_header_at(buf@, pos as int, h)
                    &&& next == pos + h.base_header.header_size
                    &&& h.base_header.header_size as u32 <= h.base_header.size
                },
                Err(e) => header_error(buf@, pos as int, TYPE_SPEC_HEADER_SIZE) == Some(e),
            },
    {
        let base_header = extended_base_at(buf, pos, TYPE_SPEC_HEADER_SIZE)?;
        let id = buf[pos + 8];
        let res0 = buf[pos + 9];
        let res1 = buf[pos + 10];
        // The entry count is aligned to four bytes from the start of the header.
        let cur = pos + 11 + align_skip(11, 4);
        let h = ResTypeSpecHeader { base_header, id, res0, res1, entry_count: u32_at(buf, cur) };
        Ok((h, cur + 4))
    }
}

impl ResTypeHeader {
    /// Decodes the type header at `pos`, configuration descriptor included,
    /// returning it and the position past it.
    pub fn parse(buf: &[u8], pos: usize) -> (r: Result<(ResTypeHeader, usize), DecodeError>)
        ensures
            match r {
                Ok((h, next)) => {
                    &&& type_header_error(buf@, pos as int) is None
                    &&& type_header_at(buf@, pos as int, h)
                    &&& h.config.well_formed()
                    &&& next == pos + h.base_header.header_size
                    &&& h.base_header.header_size as u32 <= h.base_header.size
                },
                Err(e) => type_header_error(buf@, pos as int) == Some(e),
            },
    {
        let base_header = extended_base_at(buf, pos, TYPE_HEADER_SIZE)?;
        let (config, next) = ResConfig::parse(buf, pos + 20)?;
        let h = ResTypeHeader {
            base_header,
            id: buf[pos + 8],
            flags: buf[pos + 9],
            reserved: u16_at(buf, pos + 10),
            entry_count: u32_at(buf, pos + 12),
            entries_start_offset: u32_at(buf, pos + 16),
            config,
        };
        Ok((h, next))
    }
}

impl ExtendedHeader for ResStringPoolHeader {
    open spec fn spec_base_header(&self) -> ResChunkHeader {
        self.base_header
    }

    fn get_base_header(&self) -> (r: &ResChunkHeader) {
        &self.base_header
    }
}

impl ExtendedHeader for ResTypeHeader {
    open spec fn spec_base_header(&self) -> ResChunkHeader {
        self.base_header
    }

    fn get_base_header(&self) -> (r: &ResChunkHeader) {
        &self.base_header
    }
}

impl ExtendedHeader for ResPackageHeader {
    open spec fn spec_base_header(&self) -> ResChunkHeader {
        self.base_header
    }

    fn get_base_header(&self) -> (r: &ResChunkHeader) {
        &self.base_header
    }
}

impl ExtendedHeader for ResTypeSpecHeader {
    open spec fn spec_base_header(&self) -> ResChunkHeader {
        self.base_header
    }

    fn get_base_header(&self) -> (r: &ResChunkHeader) {
        &self.base_header
    }
}

} // verus!
