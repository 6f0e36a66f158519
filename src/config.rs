//! The device-configuration descriptor of a per-configuration type chunk.
use vstd::prelude::*;

use crate::bits::{extract_bits, field_bits};
use crate::error::{ConfigField, DecodeError};
use crate::kinds::{
    Keyboard, KeysHidden, LayoutDir, NavHidden, Navigation, Night, Orientation, ScreenLayoutSize,
    ScreenLong, Touchscreen, UiType,
};
use crate::primitive::{align_skip, bytes_at, fits, le_u16, le_u32, u16_at, u32_at};

verus! {

/// Byte length of an encoded configuration descriptor, its leading size field included.
pub const CONFIG_SIZE: u32 = 60;

/// `o` as a decoding result: a missing member is an invalid value of `field`.
pub open spec fn checked<T>(o: Option<T>, field: ConfigField, raw: u8) -> Result<T, DecodeError> {
    match o {
        Some(x) => Ok(x),
        None => Err(DecodeError::InvalidEnum { field, raw }),
    }
}

fn check_member<T>(o: Option<T>, field: ConfigField, raw: u8) -> (r: Result<T, DecodeError>)
    ensures
        r == checked(o, field, raw),
{
    match o {
        Some(x) => Ok(x),
        None => Err(DecodeError::InvalidEnum { field, raw }),
    }
}

/// Mobile country and network codes.
#[derive(PartialEq, Eq, Structural, Clone, Copy, Debug)]
pub struct Imsi {
    pub mcc: u16,
    pub mnc: u16,
}

/// Two-letter language and country codes.
#[derive(PartialEq, Eq, Clone, Copy, Debug)]
pub struct Locale {
    pub language: [u8; 2],
    pub country: [u8; 2],
}

/// Orientation, touchscreen and density. The density is kept as its raw
/// value: any number of dots per inch is valid, see `Density` for the named ones.
#[derive(PartialEq, Eq, Structural, Clone, Copy, Debug)]
pub struct ScreenType {
    pub orientation: Orientation,
    pub touchscreen: Touchscreen,
    pub density: u16,
}

/// The packed input-flags byte: keys hidden in bits 6-7, navigation hidden in bits 4-5.
#[derive(PartialEq, Eq, Structural, Clone, Copy, Debug)]
pub struct InputFlagsBit(pub u8);

impl InputFlagsBit {
    pub open spec fn spec_keys_hidden(self) -> Result<KeysHidden, DecodeError> {
        let raw = field_bits(self.0, 6, 2);
        checked(KeysHidden::spec_from_raw(raw), ConfigField::KeysHidden, raw)
    }

    pub open spec fn spec_nav_hidden(self) -> Result<NavHidden, DecodeError> {
        let raw = field_bits(self.0, 4, 2);
        checked(NavHidden::spec_from_raw(raw), ConfigField::NavHidden, raw)
    }

    /// Both fields name a member.
    pub open spec fn well_formed(self) -> bool {
        self.spec_keys_hidden() is Ok && self.spec_nav_hidden() is Ok
    }

    pub fn keys_hidden(&self) -> (r: Result<KeysHidden, DecodeError>)
        ensures
            r == self.spec_keys_hidden(),
    {
        let raw = extract_bits(self.0, 6, 2);
        check_member(KeysHidden::from_raw(raw), ConfigField::KeysHidden, raw)
    }

    pub fn nav_hidden(&self) -> (r: Result<NavHidden, DecodeError>)
        ensures
            r == self.spec_nav_hidden(),
    {
        let raw = extract_bits(self.0, 4, 2);
        check_member(NavHidden::from_raw(raw), ConfigField::NavHidden, raw)
    }
}

/// Keyboard, navigation and the packed input flags.
#[derive(PartialEq, Eq, Structural, Clone, Copy, Debug)]
pub struct Input {
    pub keyboard: Keyboard,
    pub navigation: Navigation,
    pub flags: InputFlagsBit,
}

/// Screen width and height in pixels.
#[derive(PartialEq, Eq, Structural, Clone, Copy, Debug)]
pub struct ScreenSize {
    pub width: u16,
    pub height: u16,
}

/// Platform version.
#[derive(PartialEq, Eq, Structural, Clone, Copy, Debug)]
pub struct Version {
    pub sdk: u16,
    pub minor: u16,
}

/// The packed screen-layout byte: size class in bits 4-7, long screen in
/// bits 2-3, layout direction in bits 0-2.
#[derive(PartialEq, Eq, Structural, Clone, Copy, Debug)]
pub struct ScreenLayoutBit(pub u8);

impl ScreenLayoutBit {
    pub open spec fn spec_screen_size(self) -> Result<ScreenLayoutSize, DecodeError> {
        let raw = field_bits(self.0, 4, 4);
        checked(ScreenLayoutSize::spec_from_raw(raw), ConfigField::ScreenLayoutSize, raw)
    }

    pub open spec fn spec_screen_long(self) -> Result<ScreenLong, DecodeError> {
        let raw = field_bits(self.0, 2, 2);
        checked(ScreenLong::spec_from_raw(raw), ConfigField::ScreenLong, raw)
    }

    pub open spec fn spec_layout_dir(self) -> Result<LayoutDir, DecodeError> {
        let raw = field_bits(self.0, 0, 3);
        checked(LayoutDir::spec_from_raw(raw), ConfigField::LayoutDir, raw)
    }

    /// All three fields name a member.
    pub open spec fn well_formed(self) -> bool {
        self.spec_screen_size() is Ok && self.spec_screen_long() is Ok
            && self.spec_layout_dir() is Ok
    }

    pub fn screen_size(&self) -> (r: Result<ScreenLayoutSize, DecodeError>)
        ensures
            r == self.spec_screen_size(),
    {
        let raw = extract_bits(self.0, 4, 4);
        check_member(ScreenLayoutSize::from_raw(raw), ConfigField::ScreenLayoutSize, raw)
    }

    pub fn screen_long(&self) -> (r: Result<ScreenLong, DecodeError>)
        ensures
            r == self.spec_screen_long(),
    {
        let raw = extract_bits(self.0, 2, 2);
        check_member(ScreenLong::from_raw(raw), ConfigField::ScreenLong, raw)
    }

    pub fn layout_dir(&self) -> (r: Result<LayoutDir, DecodeError>)
        ensures
            r == self.spec_layout_dir(),
    {
        let raw = extract_bits(self.0, 0, 3);
        check_member(LayoutDir::from_raw(raw), ConfigField::LayoutDir, raw)
    }
}

/// The packed UI-mode byte: mode type in bits 4-7, night mode in bits 2-3.
#[derive(PartialEq, Eq, Structural, Clone, Copy, Debug)]
pub struct UiModeBit(pub u8);

impl UiModeBit {
    pub open spec fn spec_ui_type(self) -> Result<UiType, DecodeError> {
        let raw = field_bits(self.0, 4, 4);
        checked(UiType::spec_from_raw(raw), ConfigField::UiType, raw)
    }

    pub open spec fn spec_night(self) -> Result<Night, DecodeError> {
        let raw = field_bits(self.0, 2, 2);
        checked(Night::spec_from_raw(raw), ConfigField::Night, raw)
    }

    /// Both fields name a member.
    pub open spec fn well_formed(self) -> bool {
        self.spec_ui_type() is Ok && self.spec_night() is Ok
    }

    pub fn ui_type(&self) -> (r: Result<UiType, DecodeError>)
        ensures
            r == self.spec_ui_type(),
    {
        let raw = extract_bits(self.0, 4, 4);
        check_member(UiType::from_raw(raw), ConfigField::UiType, raw)
    }

    pub fn night(&self) -> (r: Result<Night, DecodeError>)
        ensures
            r == self.spec_night(),
    {
        let raw = extract_bits(self.0, 2, 2);
        check_member(Night::from_raw(raw), ConfigField::Night, raw)
    }
}

/// Screen layout, UI mode and smallest screen width.
#[derive(PartialEq, Eq, Structural, Clone, Copy, Debug)]
pub struct ScreenConfig {
    pub screen_layout: ScreenLayoutBit,
    pub ui_mode: UiModeBit,
    pub smallest_screen_width_dp: u16,
}

/// Screen width and height in density-independent pixels.
#[derive(PartialEq, Eq, Structural, Clone, Copy, Debug)]
pub struct ScreenSizeDp {
    pub screen_width_dp: u16,
    pub screen_height_dp: u16,
}

/// Secondary screen layout; the sub-record is padded to four bytes.
#[derive(PartialEq, Eq, Structural, Clone, Copy, Debug)]
pub struct ScreenConfig2 {
    pub screen_layout_2: u8,
    pub screen_height_dp: u8,
}

/// A device configuration that a set of resource values targets.
#[derive(PartialEq, Eq, Clone, Copy, Debug)]
pub struct ResConfig {
    pub size: u32,
    pub imsi: Imsi,
    pub locale: Locale,
    pub screen_type: ScreenType,
    pub input: Input,
    pub screen_size: ScreenSize,
    pub version: Version,
    pub screen_config: ScreenConfig,
    pub screen_size_dp: ScreenSizeDp,
    pub locale_script: [u8; 4],
    pub locale_variant: [u8; 8],
    pub screen_config_2: ScreenConfig2,
    pub locale_script_was_computed: bool,
    pub locale_numbering_system: [u8; 8],
}

/// The raw value of closed-enumeration field `f` of the descriptor at `p`.
pub open spec fn field_raw(s: Seq<u8>, p: int, f: ConfigField) -> u8 {
    match f {
        ConfigField::Orientation => s[p + 12],
        ConfigField::Touchscreen => s[p + 13],
        ConfigField::Keyboard => s[p + 16],
        ConfigField::Navigation => s[p + 17],
        ConfigField::KeysHidden => field_bits(s[p + 18], 6, 2),
        ConfigField::NavHidden => field_bits(s[p + 18], 4, 2),
        ConfigField::ScreenLayoutSize => field_bits(s[p + 27], 4, 4),
        ConfigField::ScreenLong => field_bits(s[p + 27], 2, 2),
        ConfigField::LayoutDir => field_bits(s[p + 27], 0, 3),
        ConfigField::UiType => field_bits(s[p + 28], 4, 4),
        ConfigField::Night => field_bits(s[p + 28], 2, 2),
    }
}

/// `v` is the code of a member of field `f`'s enumeration.
pub open spec fn field_accepts(f: ConfigField, v: u8) -> bool {
    match f {
        ConfigField::Orientation => Orientation::spec_from_raw(v) is Some,
        ConfigField::Touchscreen => Touchscreen::spec_from_raw(v) is Some,
        ConfigField::Keyboard => Keyboard::spec_from_raw(v) is Some,
        ConfigField::Navigation => Navigation::spec_from_raw(v) is Some,
        ConfigField::KeysHidden => KeysHidden::spec_from_raw(v) is Some,
        ConfigField::NavHidden => NavHidden::spec_from_raw(v) is Some,
        ConfigField::ScreenLayoutSize => ScreenLayoutSize::spec_from_raw(v) is Some,
        ConfigField::ScreenLong => ScreenLong::spec_from_raw(v) is Some,
        ConfigField::LayoutDir => LayoutDir::spec_from_raw(v) is Some,
        ConfigField::UiType => UiType::spec_from_raw(v) is Some,
        ConfigField::Night => Night::spec_from_raw(v) is Some,
    }
}

/// Field `f` of the descriptor at `p` holds an invalid value.
pub open spec fn field_rejected(s: Seq<u8>, p: int, f: ConfigField) -> bool {
    !field_accepts(f, field_raw(s, p, f))
}

/// The error for field `f` of the descriptor at `p`.
pub open spec fn invalid(s: Seq<u8>, p: int, f: ConfigField) -> Option<DecodeError> {
    Some(DecodeError::InvalidEnum { field: f, raw: field_raw(s, p, f) })
}

/// The first field, in decoding order, that holds an invalid value.
pub open spec fn first_invalid(s: Seq<u8>, p: int) -> Option<DecodeError> {
    if field_rejected(s, p, ConfigField::Orientation) {
        invalid(s, p, ConfigField::Orientation)
    } else if field_rejected(s, p, ConfigField::Touchscreen) {
        invalid(s, p, ConfigField::Touchscreen)
    } else if field_rejected(s, p, ConfigField::Keyboard) {
        invalid(s, p, ConfigField::Keyboard)
    } else if field_rejected(s, p, ConfigField::Navigation) {
        invalid(s, p, ConfigField::Navigation)
    } else if field_rejected(s, p, ConfigField::KeysHidden) {
        invalid(s, p, ConfigField::KeysHidden)
    } else if field_rejected(s, p, ConfigField::NavHidden) {
        invalid(s, p, ConfigField::NavHidden)
    } else if field_rejected(s, p, ConfigField::ScreenLayoutSize) {
        invalid(s, p, ConfigField::ScreenLayoutSize)
    } else if field_rejected(s, p, ConfigField::ScreenLong) {
        invalid(s, p, ConfigField::ScreenLong)
    } else if field_rejected(s, p, ConfigField::LayoutDir) {
        invalid(s, p, ConfigField::LayoutDir)
    } else if field_rejected(s, p, ConfigField::UiType) {
        invalid(s, p, ConfigField::UiType)
    } else if field_rejected(s, p, ConfigField::Night) {
        invalid(s, p, ConfigField::Night)
    } else {
        None
    }
}

/// Why the descriptor at `p` cannot be decoded, if it cannot: the input is
/// too short, the declared size is not `CONFIG_SIZE`, or a field is invalid.
pub open spec fn config_error(s: Seq<u8>, p: int) -> Option<DecodeError> {
    if !fits(s, p, CONFIG_SIZE as int) {
        Some(DecodeError::Truncated)
    } else if le_u32(s, p) != CONFIG_SIZE {
        Some(DecodeError::HeaderSizeMismatch { declared: le_u32(s, p), expected: CONFIG_SIZE })
    } else {
        first_invalid(s, p)
    }
}

/// `c` holds the fields of the descriptor encoded at `p`.
pub open spec fn config_at(s: Seq<u8>, p: int, c: ResConfig) -> bool {
    &&& c.size == le_u32(s, p)
    &&& c.imsi.mcc == le_u16(s, p + 4)
    &&& c.imsi.mnc == le_u16(s, p + 6)
    &&& c.locale.language@ == s.subrange(p + 8, p + 10)
    &&& c.locale.country@ == s.subrange(p + 10, p + 12)
    &&& Orientation::spec_from_raw(s[p + 12]) == Some(c.screen_type.orientation)
    &&& Touchscreen::spec_from_raw(s[p + 13]) == Some(c.screen_type.touchscreen)
    &&& c.screen_type.density == le_u16(s, p + 14)
    &&& Keyboard::spec_from_raw(s[p + 16]) == Some(c.input.keyboard)
    &&& Navigation::spec_from_raw(s[p + 17]) == Some(c.input.navigation)
    &&& c.input.flags.0 == s[p + 18]
    &&& c.screen_size.width == le_u16(s, p + 19)
    &&& c.screen_size.height == le_u16(s, p + 21)
    &&& c.version.sdk == le_u16(s, p + 23)
    &&& c.version.minor == le_u16(s, p + 25)
    &&& c.screen_config.screen_layout.0 == s[p + 27]
    &&& c.screen_config.ui_mode.0 == s[p + 28]
    &&& c.screen_config.smallest_screen_width_dp == le_u16(s, p + 29)
    &&& c.screen_size_dp.screen_width_dp == le_u16(s, p + 31)
    &&& c.screen_size_dp.screen_height_dp == le_u16(s, p + 33)
    &&& c.locale_script@ == s.subrange(p + 35, p + 39)
    &&& c.locale_variant@ == s.subrange(p + 39, p + 47)
    &&& c.screen_config_2.screen_layout_2 == s[p + 47]
    &&& c.screen_config_2.screen_height_dp == s[p + 48]
    &&& c.locale_script_was_computed == (s[p + 51] != 0)
    &&& c.locale_numbering_system@ == s.subrange(p + 52, p + 60)
}

impl ResConfig {
    /// Every packed field names a member of its enumeration.
    pub open spec fn well_formed(&self) -> bool {
        &&& self.input.flags.well_formed()
        &&& self.screen_config.screen_layout.well_formed()
        &&& self.screen_config.ui_mode.well_formed()
    }

    /// Decodes the descriptor at `pos`, returning it and the position past it.
    pub fn parse(buf: &[u8], pos: usize) -> (r: Result<(ResConfig, usize), DecodeError>)
        ensures
            match r {
                Ok((c, next)) => {
                    &&& config_error(buf@, pos as int) is None
                    &&& config_at(buf@, pos as int, c)
                    &&& c.well_formed()
                    &&& next == pos + CONFIG_SIZE
                },
                Err(e) => config_error(buf@, pos as int) == Some(e),
            },
    {
        if pos > buf.len() || buf.len() - pos < CONFIG_SIZE as usize {
            return Err(DecodeError::Truncated);
        }
        let size = u32_at(buf, pos);
        if size != CONFIG_SIZE {
            return Err(DecodeError::HeaderSizeMismatch { declared: size, expected: CONFIG_SIZE });
        }
        let imsi = Imsi { mcc: u16_at(buf, pos + 4), mnc: u16_at(buf, pos + 6) };
        let locale = Locale { language: bytes_at(buf, pos + 8), country: bytes_at(buf, pos + 10) };
        let orientation = check_member(
            Orientation::from_raw(buf[pos + 12]),
            ConfigField::Orientation,
            buf[pos + 12],
        )?;
        let touchscreen = check_member(
            Touchscreen::from_raw(buf[pos + 13]),
            ConfigField::Touchscreen,
            buf[pos + 13],
        )?;
        let screen_type = ScreenType { orientation, touchscreen, density: u16_at(buf, pos + 14) };
        let keyboard = check_member(
            Keyboard::from_raw(buf[pos + 16]),
            ConfigField::Keyboard,
            buf[pos + 16],
        )?;
        let navigation = check_member(
            Navigation::from_raw(buf[pos + 17]),
            ConfigField::Navigation,
            buf[pos + 17],
        )?;
        let flags = InputFlagsBit(buf[pos + 18]);
        flags.keys_hidden()?;
        flags.nav_hidden()?;
        let input = Input { keyboard, navigation, flags };
        let screen_size = ScreenSize { width: u16_at(buf, pos + 19), height: u16_at(buf, pos + 21) };
        let version = Version { sdk: u16_at(buf, pos + 23), minor: u16_at(buf, pos + 25) };
        let screen_layout = ScreenLayoutBit(buf[pos + 27]);
        screen_layout.screen_size()?;
        screen_layout.screen_long()?;
        screen_layout.layout_dir()?;
        let ui_mode = UiModeBit(buf[pos + 28]);
        ui_mode.ui_type()?;
        ui_mode.night()?;
        let screen_config = ScreenConfig {
            screen_layout,
            ui_mode,
            smallest_screen_width_dp: u16_at(buf, pos + 29),
        };
        let screen_size_dp = ScreenSizeDp {
            screen_width_dp: u16_at(buf, pos + 31),
            screen_height_dp: u16_at(buf, pos + 33),
        };
        let locale_script: [u8; 4] = bytes_at(buf, pos + 35);
        let locale_variant: [u8; 8] = bytes_at(buf, pos + 39);
        // The secondary screen-config sub-record: two bytes, then padding to four.
        let start: usize = pos + 47;
        let screen_config_2 = ScreenConfig2 {
            screen_layout_2: buf[start],
            screen_height_dp: buf[start + 1],
        };
        let cur = start + 2 + align_skip(2, 4);
        let locale_script_was_computed = buf[cur] != 0;
        let locale_numbering_system: [u8; 8] = bytes_at(buf, cur + 1);
        let c = ResConfig {
            size,
            imsi,
            locale,
            screen_type,
            input,
            screen_size,
            version,
            screen_config,
            screen_size_dp,
            locale_script,
            locale_variant,
            screen_config_2,
            locale_script_was_computed,
            locale_numbering_system,
        };
        Ok((c, cur + 9))
    }
}

} // verus!
