use arsed::bits::extract_bits;
use arsed::primitive::{read_bytes, read_u16, read_u32, read_u8, read_units};
use arsed::{
    extended_header, u8_bool, AnyHeader, ChunkType, ConfigField, DecodeError, Density,
    ExtendedHeader, InputFlagsBit, Keyboard, KeysHidden, LayoutDir, NavHidden, Navigation, Night,
    Orientation, ResConfig, ResTypeHeader, ScreenLayoutBit, ScreenLayoutSize, ScreenLong,
    Touchscreen, UiModeBit, UiType,
};

fn config_bytes() -> Vec<u8> {
    let mut b = Vec::new();
    b.extend_from_slice(&60u32.to_le_bytes());
    b.extend_from_slice(&310u16.to_le_bytes());
    b.extend_from_slice(&260u16.to_le_bytes());
    b.extend_from_slice(b"enUS");
    b.extend_from_slice(&[1, 3]);
    b.extend_from_slice(&480u16.to_le_bytes());
    b.extend_from_slice(&[1, 1, 0x60]);
    b.extend_from_slice(&1080u16.to_le_bytes());
    b.extend_from_slice(&1920u16.to_le_bytes());
    b.extend_from_slice(&29u16.to_le_bytes());
    b.extend_from_slice(&0u16.to_le_bytes());
    b.extend_from_slice(&[0x29, 0x18]);
    b.extend_from_slice(&360u16.to_le_bytes());
    b.extend_from_slice(&411u16.to_le_bytes());
    b.extend_from_slice(&731u16.to_le_bytes());
    b.extend_from_slice(b"Latn");
    b.extend_from_slice(b"posix\0\0\0");
    b.extend_from_slice(&[5, 7, 0, 0]);
    b.push(1);
    b.extend_from_slice(b"latn\0\0\0\0");
    assert_eq!(b.len(), 60);
    b
}

fn type_header_bytes() -> Vec<u8> {
    let mut b = Vec::new();
    b.extend_from_slice(&0x0201u16.to_le_bytes());
    b.extend_from_slice(&80u16.to_le_bytes());
    b.extend_from_slice(&0x200u32.to_le_bytes());
    b.extend_from_slice(&[1, 0]);
    b.extend_from_slice(&0u16.to_le_bytes());
    b.extend_from_slice(&5u32.to_le_bytes());
    b.extend_from_slice(&100u32.to_le_bytes());
    b.extend_from_slice(&config_bytes());
    b
}

#[test]
fn configuration_decodes_every_field() {
    let bytes = config_bytes();
    let (c, next) = ResConfig::parse(&bytes, 0).unwrap();
    assert_eq!(next, 60);
    assert_eq!(c.size, 60);
    assert_eq!((c.imsi.mcc, c.imsi.mnc), (310, 260));
    assert_eq!(&c.locale.language, b"en");
    assert_eq!(&c.locale.country, b"US");
    assert_eq!(c.screen_type.orientation, Orientation::Port);
    assert_eq!(c.screen_type.touchscreen, Touchscreen::Finger);
    assert_eq!(c.screen_type.density, 480);
    assert_eq!(c.input.keyboard, Keyboard::NoKeys);
    assert_eq!(c.input.navigation, Navigation::NoNav);
    assert_eq!(c.input.flags.keys_hidden(), Ok(KeysHidden::No));
    assert_eq!(c.input.flags.nav_hidden(), Ok(NavHidden::Yes));
    assert_eq!((c.screen_size.width, c.screen_size.height), (1080, 1920));
    assert_eq!((c.version.sdk, c.version.minor), (29, 0));
    assert_eq!(c.screen_config.screen_layout.screen_size(), Ok(ScreenLayoutSize::Normal));
    assert_eq!(c.screen_config.screen_layout.screen_long(), Ok(ScreenLong::Yes));
    assert_eq!(c.screen_config.screen_layout.layout_dir(), Ok(LayoutDir::Ltr));
    assert_eq!(c.screen_config.ui_mode.ui_type(), Ok(UiType::No));
    assert_eq!(c.screen_config.ui_mode.night(), Ok(Night::Yes));
    assert_eq!(c.screen_config.smallest_screen_width_dp, 360);
    assert_eq!(c.screen_size_dp.screen_width_dp, 411);
    assert_eq!(c.screen_size_dp.screen_height_dp, 731);
    assert_eq!(&c.locale_script, b"Latn");
    assert_eq!(&c.locale_variant, b"posix\0\0\0");
    assert_eq!(c.screen_config_2.screen_layout_2, 5);
    assert_eq!(c.screen_config_2.screen_height_dp, 7);
    assert!(c.locale_script_was_computed);
    assert_eq!(&c.locale_numbering_system, b"latn\0\0\0\0");
}

#[test]
fn type_header_carries_its_configuration() {
    let bytes = type_header_bytes();
    let (h, next) = ResTypeHeader::parse(&bytes, 0).unwrap();
    assert_eq!(next, 80);
    assert_eq!(h.base_header.res_type, ChunkType::ResTableTypeType);
    assert_eq!((h.id, h.flags, h.reserved, h.entry_count, h.entries_start_offset), (1, 0, 0, 5, 100));
    assert_eq!(h.config.screen_type.density, 480);

    let (any, next) = extended_header(&bytes, 0).unwrap();
    assert_eq!(next, 80);
    assert_eq!(any, AnyHeader::Type(h));
    assert_eq!(any.get_base_header().size, 0x200);
}

#[test]
fn configuration_truncated_anywhere() {
    let bytes = config_bytes();
    for k in 0..bytes.len() {
        assert_eq!(ResConfig::parse(&bytes[..k], 0), Err(DecodeError::Truncated));
    }
    let header = type_header_bytes();
    for k in 0..header.len() {
        assert_eq!(ResTypeHeader::parse(&header[..k], 0), Err(DecodeError::Truncated));
        assert_eq!(extended_header(&header[..k], 0), Err(DecodeError::Truncated));
    }
}

#[test]
fn configuration_size_must_match() {
    let mut bytes = config_bytes();
    bytes[0] = 56;
    assert_eq!(
        ResConfig::parse(&bytes, 0),
        Err(DecodeError::HeaderSizeMismatch { declared: 56, expected: 60 })
    );
}

fn rejected(offset: usize, value: u8) -> Result<(ResConfig, usize), DecodeError> {
    let mut bytes = config_bytes();
    bytes[offset] = value;
    ResConfig::parse(&bytes, 0)
}

fn invalid(field: ConfigField, raw: u8) -> Result<(ResConfig, usize), DecodeError> {
    Err(DecodeError::InvalidEnum { field, raw })
}

#[test]
fn invalid_whole_byte_enumerations() {
    assert_eq!(rejected(12, 4), invalid(ConfigField::Orientation, 4));
    assert_eq!(rejected(13, 9), invalid(ConfigField::Touchscreen, 9));
    assert_eq!(rejected(16, 4), invalid(ConfigField::Keyboard, 4));
    assert_eq!(rejected(17, 5), invalid(ConfigField::Navigation, 5));
}

#[test]
fn invalid_packed_enumerations() {
    // Navigation hidden = 3 in bits 4-5, keys hidden = 1 in bits 6-7.
    assert_eq!(rejected(18, 0x70), invalid(ConfigField::NavHidden, 3));
    // Size class 5 in bits 4-7.
    assert_eq!(rejected(27, 0x59), invalid(ConfigField::ScreenLayoutSize, 5));
    // Screen long 3 in bits 2-3, layout direction 4 in bits 0-2 comes later.
    assert_eq!(rejected(27, 0x2C), invalid(ConfigField::ScreenLong, 3));
    // Layout direction 3 in bits 0-2.
    assert_eq!(rejected(27, 0x23), invalid(ConfigField::LayoutDir, 3));
    assert_eq!(rejected(28, 0x38), invalid(ConfigField::UiType, 3));
    assert_eq!(rejected(28, 0x1C), invalid(ConfigField::Night, 3));
}

#[test]
fn invalid_enumeration_inside_type_header() {
    let mut bytes = type_header_bytes();
    bytes[20 + 12] = 7;
    let expected = Err(DecodeError::InvalidEnum { field: ConfigField::Orientation, raw: 7 });
    assert_eq!(ResTypeHeader::parse(&bytes, 0), expected);
    assert_eq!(extended_header(&bytes, 0).map(|(h, _)| h), expected.map(|(h, _)| AnyHeader::Type(h)));
}

#[test]
fn density_keeps_any_value() {
    let mut bytes = config_bytes();
    bytes[14] = 0x91;
    bytes[15] = 0x01;
    let (c, _) = ResConfig::parse(&bytes, 0).unwrap();
    assert_eq!(c.screen_type.density, 401);
    assert_eq!(Density::from_raw(401), None);
    assert_eq!(Density::from_raw(480), Some(Density::XXHigh));
    assert_eq!(Density::from_raw(0xffff), Some(Density::Nodpi));
    assert_eq!(Density::Any.raw(), 0xfffe);
    assert_eq!(Density::TV.raw(), 213);
}

#[test]
fn sibling_bit_fields_are_independent() {
    for nav in 0..4u8 {
        let flags = InputFlagsBit(0x80 | (nav << 4));
        assert_eq!(flags.keys_hidden(), Ok(KeysHidden::Yes));
    }
    for size in 0..16u8 {
        let layout = ScreenLayoutBit((size << 4) | 0x09);
        assert_eq!(layout.screen_long(), Ok(ScreenLong::Yes));
        assert_eq!(layout.layout_dir(), Ok(LayoutDir::Ltr));
    }
    for ui in 0..16u8 {
        let mode = UiModeBit((ui << 4) | 0x04);
        assert_eq!(mode.night(), Ok(Night::No));
    }
    assert_eq!(UiModeBit(0xF4).ui_type(), Err(DecodeError::InvalidEnum { field: ConfigField::UiType, raw: 15 }));
}

#[test]
fn bit_extraction() {
    assert_eq!(extract_bits(0b1011_0110, 4, 4), 0b1011);
    assert_eq!(extract_bits(0b1011_0110, 2, 2), 0b01);
    assert_eq!(extract_bits(0b1011_0110, 0, 3), 0b110);
    assert_eq!(extract_bits(0b1011_0110, 6, 2), 0b10);
}

#[test]
fn primitives_little_endian() {
    let b = [0x34u8, 0x12, 0x78, 0x56, 0x00];
    assert_eq!(read_u8(&b, 4), Ok((0, 5)));
    assert_eq!(read_u16(&b, 0), Ok((0x1234, 2)));
    assert_eq!(read_u32(&b, 0), Ok((0x5678_1234, 4)));
    assert_eq!(read_u32(&b, 2), Err(DecodeError::Truncated));
    assert_eq!(read_u16(&b, 4), Err(DecodeError::Truncated));
    assert_eq!(read_u8(&b, 5), Err(DecodeError::Truncated));
    assert_eq!(read_bytes::<3>(&b, 2), Ok(([0x78, 0x56, 0x00], 5)));
    assert_eq!(read_bytes::<3>(&b, 3), Err(DecodeError::Truncated));
    assert_eq!(read_units::<2>(&b, 0), Ok(([0x1234, 0x5678], 4)));
    assert_eq!(read_units::<2>(&b, 2), Err(DecodeError::Truncated));
}

#[test]
fn boolean_byte() {
    assert_eq!(u8_bool(&[0], 0), Ok((false, 1)));
    assert_eq!(u8_bool(&[7], 0), Ok((true, 1)));
    assert_eq!(u8_bool(&[1, 0], 1), Ok((false, 2)));
    assert_eq!(u8_bool(&[], 0), Err(DecodeError::Truncated));
}

#[test]
fn enumeration_codes() {
    assert_eq!(Navigation::from_raw(4), Some(Navigation::Wheel));
    assert_eq!(Navigation::from_raw(5), None);
    assert_eq!(Touchscreen::Stylus.raw(), 2);
    assert_eq!(ScreenLayoutSize::from_raw(4), Some(ScreenLayoutSize::XLarge));
    assert_eq!(KeysHidden::from_raw(3), Some(KeysHidden::Soft));
}

#[test]
fn type_chunk_with_zero_total_size_is_refused() {
    let mut bytes = type_header_bytes();
    bytes[4..8].copy_from_slice(&0u32.to_le_bytes());
    let expected = Err(DecodeError::HeaderSizeMismatch { declared: 0, expected: 80 });
    assert_eq!(ResTypeHeader::parse(&bytes, 0), expected);
    assert_eq!(extended_header(&bytes, 0).map(|(h, _)| h), expected.map(|(h, _)| AnyHeader::Type(h)));
}
