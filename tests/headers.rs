use arsed::{
    extended_header, utf16_lit, AnyHeader, ChunkType, DecodeError, ExtendedHeader, ResChunkHeader,
    ResPackageHeader, ResStringPoolHeader, ResTypeSpecHeader,
};
use arsed::util::try_utf16_lit;

const STRING_POOL: &[u8] = b"\x01\x00\x1C\x00\x38\x55\x03\x00\x99\x16\x00\x00\x00\x00\x00\x00\x00\x01\x00\x00\x80\x5A\x00\x00\x00\x00\x00\x00";
const TYPE_SPEC: &[u8] = b"\x02\x02\x10\x00\x2C\x00\x00\x00\x01\x00\x00\x00\x07\x00\x00\x00";
const PACKAGE: &[u8] = b"\x00\x02\x20\x01\xFC\xE2\x06\x00\x7F\x00\x00\x00\x63\x00\x6F\x00\x6D\x00\x2E\x00\x62\x00\x6F\x00\x67\x00\x61\x00\x64\x00\x61\x00\x6E\x00\x61\x00\x2E\x00\x72\x00\x65\x00\x73\x00\x74\x00\x65\x00\x73\x00\x74\x00\x00\x00\x00\x00\x00\x00\x00\x00\x00\x00\x00\x00\x00\x00\x00\x00\x00\x00\x00\x00\x00\x00\x00\x00\x00\x00\x00\x00\x00\x00\x00\x00\x00\x00\x00\x00\x00\x00\x00\x00\x00\x00\x00\x00\x00\x00\x00\x00\x00\x00\x00\x00\x00\x00\x00\x00\x00\x00\x00\x00\x00\x00\x00\x00\x00\x00\x00\x00\x00\x00\x00\x00\x00\x00\x00\x00\x00\x00\x00\x00\x00\x00\x00\x00\x00\x00\x00\x00\x00\x00\x00\x00\x00\x00\x00\x00\x00\x00\x00\x00\x00\x00\x00\x00\x00\x00\x00\x00\x00\x00\x00\x00\x00\x00\x00\x00\x00\x00\x00\x00\x00\x00\x00\x00\x00\x00\x00\x00\x00\x00\x00\x00\x00\x00\x00\x00\x00\x00\x00\x00\x00\x00\x00\x00\x00\x00\x00\x00\x00\x00\x00\x00\x00\x00\x00\x00\x00\x00\x00\x00\x00\x00\x00\x00\x00\x00\x00\x00\x00\x00\x00\x00\x00\x00\x00\x00\x00\x00\x00\x00\x00\x00\x00\x00\x00\x00\x00\x00\x00\x00\x00\x00\x00\x00\x00\x00\x00\x00\x00\x00\x00\x00\x00\x00\x00\x00\x00\x00\x00\x00\x00\x00\x00\x00\x00\x00\x20\x01\x00\x00\x00\x00\x00\x00\x94\x02\x00\x00\x00\x00\x00\x00\x00\x00\x00\x00";

#[test]
fn parse_res_header() {
    let test_header = b"\x02\x00\x0C\x00\x40\x38\x0A\x00";

    let (result, next) = ResChunkHeader::parse(test_header, 0).unwrap();

    let expected = ResChunkHeader {
        res_type: ChunkType::ResTableType,
        header_size: 0xc,
        size: 0xa3840,
    };

    assert_eq!(result, expected);
    assert_eq!(test_header.len() - next, 0);
}

#[test]
fn parse_string_pool_header() {
    let test_header = STRING_POOL;

    let (result, next) = ResStringPoolHeader::parse(test_header, 0).unwrap();

    let expected_base = ResChunkHeader {
        res_type: ChunkType::ResStringPoolType,
        header_size: 0x1c,
        size: 0x35538,
    };

    let expected = ResStringPoolHeader {
        base_header: expected_base,
        string_count: 0x1699,
        style_count: 0,
        flags: 0x100,
        strings_start: 0x5a80,
        styles_start: 0,
    };

    assert_eq!(result, expected);
    assert_eq!(test_header.len() - next, 0);
}

#[test]
fn parse_package_header() {
    let test_header = PACKAGE;

    let (result, next) = ResPackageHeader::parse(test_header, 0).unwrap();

    let expected_base = ResChunkHeader {
        res_type: ChunkType::ResTablePackageType,
        header_size: 0x120,
        size: 0x6e2fc,
    };

    let expected = ResPackageHeader {
        base_header: expected_base,
        id: 0x7f,
        name: utf16_lit("com.bogadana.restest"),
        type_strings_offset: 0x120,
        last_public_type_index: 0,
        key_strings_offset: 0x294,
        last_public_key_index: 0,
        type_id_offset: 0,
    };

    assert_eq!(result, expected);
    assert_eq!(test_header.len() - next, 0);
}

#[test]
fn parse_typespec_header() {
    let test_header = TYPE_SPEC;

    let (result, next) = ResTypeSpecHeader::parse(test_header, 0).unwrap();

    let expected_base = ResChunkHeader {
        res_type: ChunkType::ResTableTypeSpecType,
        header_size: 0x10,
        size: 0x2c,
    };

    let expected = ResTypeSpecHeader {
        base_header: expected_base,
        id: 0x1,
        res0: 0,
        res1: 0,
        entry_count: 0x7,
    };

    assert_eq!(result, expected);
    assert_eq!(test_header.len() - next, 0);
}

#[test]
fn utf16_literal() {
    let units: [u16; 4] = utf16_lit("ab");
    assert_eq!(units, [0x61, 0x62, 0, 0]);
    let exact: [u16; 2] = utf16_lit("\u{1F600}");
    assert_eq!(exact, [0xD83D, 0xDE00]);
}

#[test]
fn utf16_literal_too_long_is_refused() {
    assert_eq!(try_utf16_lit::<2>("abc"), None);
    assert_eq!(try_utf16_lit::<3>("abc"), Some([0x61, 0x62, 0x63]));
}

#[test]
fn header_at_offset_inside_buffer() {
    let mut buf = vec![0xAAu8; 3];
    buf.extend_from_slice(TYPE_SPEC);
    let (h, next) = ResTypeSpecHeader::parse(&buf, 3).unwrap();
    assert_eq!(h.entry_count, 7);
    assert_eq!(next, 3 + 16);
}

#[test]
fn every_truncated_prefix_is_reported() {
    for k in 0..STRING_POOL.len() {
        assert_eq!(ResStringPoolHeader::parse(&STRING_POOL[..k], 0), Err(DecodeError::Truncated));
        assert_eq!(extended_header(&STRING_POOL[..k], 0), Err(DecodeError::Truncated));
    }
    for k in 0..TYPE_SPEC.len() {
        assert_eq!(ResTypeSpecHeader::parse(&TYPE_SPEC[..k], 0), Err(DecodeError::Truncated));
        assert_eq!(extended_header(&TYPE_SPEC[..k], 0), Err(DecodeError::Truncated));
    }
    for k in 0..PACKAGE.len() {
        assert_eq!(ResPackageHeader::parse(&PACKAGE[..k], 0), Err(DecodeError::Truncated));
        assert_eq!(extended_header(&PACKAGE[..k], 0), Err(DecodeError::Truncated));
    }
    for k in 0..8 {
        assert_eq!(ResChunkHeader::parse(&TYPE_SPEC[..k], 0), Err(DecodeError::Truncated));
    }
}

#[test]
fn unknown_tag_is_unsupported() {
    let bytes = b"\x99\x99\x08\x00\x08\x00\x00\x00";
    assert_eq!(
        ResChunkHeader::parse(bytes, 0),
        Err(DecodeError::UnsupportedChunkType { tag: 0x9999 })
    );
    assert_eq!(extended_header(bytes, 0), Err(DecodeError::UnsupportedChunkType { tag: 0x9999 }));
}

#[test]
fn known_but_undecoded_tag_is_unsupported() {
    // A table chunk: its header is known but not decoded here, and the body is never read.
    let bytes = b"\x02\x00\x0C\x00\x40\x38\x0A\x00";
    assert_eq!(extended_header(bytes, 0), Err(DecodeError::UnsupportedChunkType { tag: 0x0002 }));
    let xml = b"\x03\x00\x08\x00\x10\x00\x00\x00\xFF\xFF";
    assert_eq!(extended_header(xml, 0), Err(DecodeError::UnsupportedChunkType { tag: 0x0003 }));
}

#[test]
fn declared_header_size_must_match() {
    let mut bytes = TYPE_SPEC.to_vec();
    bytes[2] = 0x14;
    bytes.extend_from_slice(&[0, 0, 0, 0]);
    assert_eq!(
        ResTypeSpecHeader::parse(&bytes, 0),
        Err(DecodeError::HeaderSizeMismatch { declared: 0x14, expected: 0x10 })
    );
    assert_eq!(
        extended_header(&bytes, 0),
        Err(DecodeError::HeaderSizeMismatch { declared: 0x14, expected: 0x10 })
    );
}

#[test]
fn dispatch_picks_the_decoder_by_tag() {
    let (h, next) = extended_header(STRING_POOL, 0).unwrap();
    assert!(matches!(h, AnyHeader::StringPool(ref x) if x.string_count == 0x1699));
    assert_eq!(next, 0x1c);
    assert_eq!(h.get_base_header().size, 0x35538);

    let (h, next) = extended_header(PACKAGE, 0).unwrap();
    assert!(matches!(h, AnyHeader::Package(ref x) if x.id == 0x7f));
    assert_eq!(next, 0x120);
    assert_eq!(h.get_base_header().res_type, ChunkType::ResTablePackageType);

    let (h, next) = extended_header(TYPE_SPEC, 0).unwrap();
    assert!(matches!(h, AnyHeader::TypeSpec(ref x) if x.entry_count == 7));
    assert_eq!(next, 0x10);
    assert_eq!(h.get_base_header().header_size, 0x10);
}

#[test]
fn walking_to_the_next_sibling() {
    let mut buf = TYPE_SPEC.to_vec();
    buf.extend_from_slice(&[0u8; 0x2c - 0x10]);
    buf.extend_from_slice(TYPE_SPEC);
    let (first, _) = extended_header(&buf, 0).unwrap();
    let sibling = first.get_base_header().size as usize;
    assert_eq!(sibling, 0x2c);
    let (second, next) = extended_header(&buf, sibling).unwrap();
    assert_eq!(second, first);
    assert_eq!(next, sibling + 0x10);
}

#[test]
fn chunk_type_codes() {
    assert_eq!(ChunkType::from_raw(0x0201), Some(ChunkType::ResTableTypeType));
    assert_eq!(ChunkType::from_raw(0x017f), Some(ChunkType::ResXmlLastChunkType));
    assert_eq!(ChunkType::from_raw(0x0207), None);
    assert_eq!(ChunkType::ResTableStagedAliasType.raw(), 0x0206);
}

#[test]
fn total_size_below_header_size_is_refused() {
    let mut bytes = TYPE_SPEC.to_vec();
    bytes[4] = 0x0F;
    let expected = Err(DecodeError::HeaderSizeMismatch { declared: 0x0F, expected: 0x10 });
    assert_eq!(ResTypeSpecHeader::parse(&bytes, 0), expected);
    assert_eq!(extended_header(&bytes, 0).map(|(h, _)| h), expected.map(|(h, _)| AnyHeader::TypeSpec(h)));

    let mut pool = STRING_POOL.to_vec();
    pool[4..8].copy_from_slice(&0u32.to_le_bytes());
    assert_eq!(
        ResStringPoolHeader::parse(&pool, 0),
        Err(DecodeError::HeaderSizeMismatch { declared: 0, expected: 0x1c })
    );

    // A chunk made of its header alone is accepted.
    let mut exact = TYPE_SPEC.to_vec();
    exact[4] = 0x10;
    assert!(ResTypeSpecHeader::parse(&exact, 0).is_ok());
}
