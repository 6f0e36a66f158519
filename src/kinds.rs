//! Closed enumerations of the configuration descriptor, each with its codes.
use vstd::prelude::*;

verus! {

/// Screen orientation.
#[derive(PartialEq, Eq, Structural, Clone, Copy, Debug)]
pub enum Orientation {
    Any,
    Port,
    Land,
    Square,
}

impl Orientation {
    /// The member whose code is `v`, if any.
    pub open spec fn spec_from_raw(v: u8) -> Option<Orientation> {
        if v == 0 {
            Some(Orientation::Any)
        } else if v == 1 {
            Some(Orientation::Port)
        } else if v == 2 {
            Some(Orientation::Land)
        } else if v == 3 {
            Some(Orientation::Square)
        } else {
            None
        }
    }

    /// The code of this member.
    pub open spec fn spec_raw(self) -> u8 {
        match self {
            Orientation::Any => 0,
            Orientation::Port => 1,
            Orientation::Land => 2,
            Orientation::Square => 3,
        }
    }

    /// The member whose code is `v`, or `None` where no member has it.
    pub fn from_raw(v: u8) -> (r: Option<Orientation>)
        ensures
            r == Self::spec_from_raw(v),
    {
        match v {
            0 => Some(Orientation::Any),
            1 => Some(Orientation::Port),
            2 => Some(Orientation::Land),
            3 => Some(Orientation::Square),
            _ => None,
        }
    }

    /// The code of this member.
    pub fn raw(&self) -> (r: u8)
        ensures
            r == self.spec_raw(),
            Self::spec_from_raw(r) == Some(*self),
    {
        match self {
            Orientation::Any => 0,
            Orientation::Port => 1,
            Orientation::Land => 2,
            Orientation::Square => 3,
        }
    }
}

/// Kind of touchscreen.
#[derive(PartialEq, Eq, Structural, Clone, Copy, Debug)]
pub enum Touchscreen {
    Any,
    NoTouch,
    Stylus,
    Finger,
}

impl Touchscreen {
    /// The member whose code is `v`, if any.
    pub open spec fn spec_from_raw(v: u8) -> Option<Touchscreen> {
        if v == 0 {
            Some(Touchscreen::Any)
        } else if v == 1 {
            Some(Touchscreen::NoTouch)
        } else if v == 2 {
            Some(Touchscreen::Stylus)
        } else if v == 3 {
            Some(Touchscreen::Finger)
        } else {
            None
        }
    }

    /// The code of this member.
    pub open spec fn spec_raw(self) -> u8 {
        match self {
            Touchscreen::Any => 0,
            Touchscreen::NoTouch => 1,
            Touchscreen::Stylus => 2,
            Touchscreen::Finger => 3,
        }
    }

    /// The member whose code is `v`, or `None` where no member has it.
    pub fn from_raw(v: u8) -> (r: Option<Touchscreen>)
        ensures
            r == Self::spec_from_raw(v),
    {
        match v {
            0 => Some(Touchscreen::Any),
            1 => Some(Touchscreen::NoTouch),
            2 => Some(Touchscreen::Stylus),
            3 => Some(Touchscreen::Finger),
            _ => None,
        }
    }

    /// The code of this member.
    pub fn raw(&self) -> (r: u8)
        ensures
            r == self.spec_raw(),
            Self::spec_from_raw(r) == Some(*self),
    {
        match self {
            Touchscreen::Any => 0,
            Touchscreen::NoTouch => 1,
            Touchscreen::Stylus => 2,
            Touchscreen::Finger => 3,
        }
    }
}

/// Kind of keyboard.
#[derive(PartialEq, Eq, Structural, Clone, Copy, Debug)]
pub enum Keyboard {
    Any,
    NoKeys,
    Qwerty,
    TwelveKey,
}

impl Keyboard {
    /// The member whose code is `v`, if any.
    pub open spec fn spec_from_raw(v: u8) -> Option<Keyboard> {
        if v == 0 {
            Some(Keyboard::Any)
        } else if v == 1 {
            Some(Keyboard::NoKeys)
        } else if v == 2 {
            Some(Keyboard::Qwerty)
        } else if v == 3 {
            Some(Keyboard::TwelveKey)
        } else {
            None
        }
    }

    /// The code of this member.
    pub open spec fn spec_raw(self) -> u8 {
        match self {
            Keyboard::Any => 0,
            Keyboard::NoKeys => 1,
            Keyboard::Qwerty => 2,
            Keyboard::TwelveKey => 3,
        }
    }

    /// The member whose code is `v`, or `None` where no member has it.
    pub fn from_raw(v: u8) -> (r: Option<Keyboard>)
        ensures
            r == Self::spec_from_raw(v),
    {
        match v {
            0 => Some(Keyboard::Any),
            1 => Some(Keyboard::NoKeys),
            2 => Some(Keyboard::Qwerty),
            3 => Some(Keyboard::TwelveKey),
            _ => None,
        }
    }

    /// The code of this member.
    pub fn raw(&self) -> (r: u8)
        ensures
            r == self.spec_raw(),
            Self::spec_from_raw(r) == Some(*self),
    {
        match self {
            Keyboard::Any => 0,
            Keyboard::NoKeys => 1,
            Keyboard::Qwerty => 2,
            Keyboard::TwelveKey => 3,
        }
    }
}

/// Kind of navigation device.
#[derive(PartialEq, Eq, Structural, Clone, Copy, Debug)]
pub enum Navigation {
    Any,
    NoNav,
    Dpad,
    Trackball,
    Wheel,
}

impl Navigation {
    /// The member whose code is `v`, if any.
    pub open spec fn spec_from_raw(v: u8) -> Option<Navigation> {
        if v == 0 {
            Some(Navigation::Any)
        } else if v == 1 {
            Some(Navigation::NoNav)
        } else if v == 2 {
            Some(Navigation::Dpad)
        } else if v == 3 {
            Some(Navigation::Trackball)
        } else if v == 4 {
            Some(Navigation::Wheel)
        } else {
            None
        }
    }

    /// The code of this member.
    pub open spec fn spec_raw(self) -> u8 {
        match self {
            Navigation::Any => 0,
            Navigation::NoNav => 1,
            Navigation::Dpad => 2,
            Navigation::Trackball => 3,
            Navigation::Wheel => 4,
        }
    }

    /// The member whose code is `v`, or `None` where no member has it.
    pub fn from_raw(v: u8) -> (r: Option<Navigation>)
        ensures
            r == Self::spec_from_raw(v),
    {
        match v {
            0 => Some(Navigation::Any),
            1 => Some(Navigation::NoNav),
            2 => Some(Navigation::Dpad),
            3 => Some(Navigation::Trackball),
            4 => Some(Navigation::Wheel),
            _ => None,
        }
    }

    /// The code of this member.
    pub fn raw(&self) -> (r: u8)
        ensures
            r == self.spec_raw(),
            Self::spec_from_raw(r) == Some(*self),
    {
        match self {
            Navigation::Any => 0,
            Navigation::NoNav => 1,
            Navigation::Dpad => 2,
            Navigation::Trackball => 3,
            Navigation::Wheel => 4,
        }
    }
}

/// Whether the keyboard is hidden.
#[derive(PartialEq, Eq, Structural, Clone, Copy, Debug)]
pub enum KeysHidden {
    Any,
    No,
    Yes,
    Soft,
}

impl KeysHidden {
    /// The member whose code is `v`, if any.
    pub open spec fn spec_from_raw(v: u8) -> Option<KeysHidden> {
        if v == 0 {
            Some(KeysHidden::Any)
        } else if v == 1 {
            Some(KeysHidden::No)
        } else if v == 2 {
            Some(KeysHidden::Yes)
        } else if v == 3 {
            Some(KeysHidden::Soft)
        } else {
            None
        }
    }

    /// The code of this member.
    pub open spec fn spec_raw(self) -> u8 {
        match self {
            KeysHidden::Any => 0,
            KeysHidden::No => 1,
            KeysHidden::Yes => 2,
            KeysHidden::Soft => 3,
        }
    }

    /// The member whose code is `v`, or `None` where no member has it.
    pub fn from_raw(v: u8) -> (r: Option<KeysHidden>)
        ensures
            r == Self::spec_from_raw(v),
    {
        match v {
            0 => Some(KeysHidden::Any),
            1 => Some(KeysHidden::No),
            2 => Some(KeysHidden::Yes),
            3 => Some(KeysHidden::Soft),
            _ => None,
        }
    }

    /// The code of this member.
    pub fn raw(&self) -> (r: u8)
        ensures
            r == self.spec_raw(),
            Self::spec_from_raw(r) == Some(*self),
    {
        match self {
            KeysHidden::Any => 0,
            KeysHidden::No => 1,
            KeysHidden::Yes => 2,
            KeysHidden::Soft => 3,
        }
    }
}

/// Whether the navigation device is hidden.
#[derive(PartialEq, Eq, Structural, Clone, Copy, Debug)]
pub enum NavHidden {
    Any,
    No,
    Yes,
}

impl NavHidden {
    /// The member whose code is `v`, if any.
    pub open spec fn spec_from_raw(v: u8) -> Option<NavHidden> {
        if v == 0 {
            Some(NavHidden::Any)
        } else if v == 1 {
            Some(NavHidden::No)
        } else if v == 2 {
            Some(NavHidden::Yes)
        } else {
            None
        }
    }

    /// The code of this member.
    pub open spec fn spec_raw(self) -> u8 {
        match self {
            NavHidden::Any => 0,
            NavHidden::No => 1,
            NavHidden::Yes => 2,
        }
    }

    /// The member whose code is `v`, or `None` where no member has it.
    pub fn from_raw(v: u8) -> (r: Option<NavHidden>)
        ensures
            r == Self::spec_from_raw(v),
    {
        match v {
            0 => Some(NavHidden::Any),
            1 => Some(NavHidden::No),
            2 => Some(NavHidden::Yes),
            _ => None,
        }
    }

    /// The code of this member.
    pub fn raw(&self) -> (r: u8)
        ensures
            r == self.spec_raw(),
            Self::spec_from_raw(r) == Some(*self),
    {
        match self {
            NavHidden::Any => 0,
            NavHidden::No => 1,
            NavHidden::Yes => 2,
        }
    }
}

/// Screen size class.
#[derive(PartialEq, Eq, Structural, Clone, Copy, Debug)]
pub enum ScreenLayoutSize {
    Any,
    Small,
    Normal,
    Large,
    XLarge,
}

impl ScreenLayoutSize {
    /// The member whose code is `v`, if any.
    pub open spec fn spec_from_raw(v: u8) -> Option<ScreenLayoutSize> {
        if v == 0 {
            Some(ScreenLayoutSize::Any)
        } else if v == 1 {
            Some(ScreenLayoutSize::Small)
        } else if v == 2 {
            Some(ScreenLayoutSize::Normal)
        } else if v == 3 {
            Some(ScreenLayoutSize::Large)
        } else if v == 4 {
            Some(ScreenLayoutSize::XLarge)
        } else {
            None
        }
    }

    /// The code of this member.
    pub open spec fn spec_raw(self) -> u8 {
        match self {
            ScreenLayoutSize::Any => 0,
            ScreenLayoutSize::Small => 1,
            ScreenLayoutSize::Normal => 2,
            ScreenLayoutSize::Large => 3,
            ScreenLayoutSize::XLarge => 4,
        }
    }

    /// The member whose code is `v`, or `None` where no member has it.
    pub fn from_raw(v: u8) -> (r: Option<ScreenLayoutSize>)
        ensures
            r == Self::spec_from_raw(v),
    {
        match v {
            0 => Some(ScreenLayoutSize::Any),
            1 => Some(ScreenLayoutSize::Small),
            2 => Some(ScreenLayoutSize::Normal),
            3 => Some(ScreenLayoutSize::Large),
            4 => Some(ScreenLayoutSize::XLarge),
            _ => None,
        }
    }

    /// The code of this member.
    pub fn raw(&self) -> (r: u8)
        ensures
            r == self.spec_raw(),
            Self::spec_from_raw(r) == Some(*self),
    {
        match self {
            ScreenLayoutSize::Any => 0,
            ScreenLayoutSize::Small => 1,
            ScreenLayoutSize::Normal => 2,
            ScreenLayoutSize::Large => 3,
            ScreenLayoutSize::XLarge => 4,
        }
    }
}

/// Whether the screen is long.
#[derive(PartialEq, Eq, Structural, Clone, Copy, Debug)]
pub enum ScreenLong {
    Any,
    No,
    Yes,
}

impl ScreenLong {
    /// The member whose code is `v`, if any.
    pub open spec fn spec_from_raw(v: u8) -> Option<ScreenLong> {
        if v == 0 {
            Some(ScreenLong::Any)
        } else if v == 1 {
            Some(ScreenLong::No)
        } else if v == 2 {
            Some(ScreenLong::Yes)
        } else {
            None
        }
    }

    /// The code of this member.
    pub open spec fn spec_raw(self) -> u8 {
        match self {
            ScreenLong::Any => 0,
            ScreenLong::No => 1,
            ScreenLong::Yes => 2,
        }
    }

    /// The member whose code is `v`, or `None` where no member has it.
    pub fn from_raw(v: u8) -> (r: Option<ScreenLong>)
        ensures
            r == Self::spec_from_raw(v),
    {
        match v {
            0 => Some(ScreenLong::Any),
            1 => Some(ScreenLong::No),
            2 => Some(ScreenLong::Yes),
            _ => None,
        }
    }

    /// The code of this member.
    pub fn raw(&self) -> (r: u8)
        ensures
            r == self.spec_raw(),
            Self::spec_from_raw(r) == Some(*self),
    {
        match self {
            ScreenLong::Any => 0,
            ScreenLong::No => 1,
            ScreenLong::Yes => 2,
        }
    }
}

/// Layout direction.
#[derive(PartialEq, Eq, Structural, Clone, Copy, Debug)]
pub enum LayoutDir {
    Any,
    Ltr,
    Rtl,
}

impl LayoutDir {
    /// The member whose code is `v`, if any.
    pub open spec fn spec_from_raw(v: u8) -> Option<LayoutDir> {
        if v == 0 {
            Some(LayoutDir::Any)
        } else if v == 1 {
            Some(LayoutDir::Ltr)
        } else if v == 2 {
            Some(LayoutDir::Rtl)
        } else {
            None
        }
    }

    /// The code of this member.
    pub open spec fn spec_raw(self) -> u8 {
        match self {
            LayoutDir::Any => 0,
            LayoutDir::Ltr => 1,
            LayoutDir::Rtl => 2,
        }
    }

    /// The member whose code is `v`, or `None` where no member has it.
    pub fn from_raw(v: u8) -> (r: Option<LayoutDir>)
        ensures
            r == Self::spec_from_raw(v),
    {
        match v {
            0 => Some(LayoutDir::Any),
            1 => Some(LayoutDir::Ltr),
            2 => Some(LayoutDir::Rtl),
            _ => None,
        }
    }

    /// The code of this member.
    pub fn raw(&self) -> (r: u8)
        ensures
            r == self.spec_raw(),
            Self::spec_from_raw(r) == Some(*self),
    {
        match self {
            LayoutDir::Any => 0,
            LayoutDir::Ltr => 1,
            LayoutDir::Rtl => 2,
        }
    }
}

/// User-interface mode type.
#[derive(PartialEq, Eq, Structural, Clone, Copy, Debug)]
pub enum UiType {
    Any,
    No,
    Yes,
}

impl UiType {
    /// The member whose code is `v`, if any.
    pub open spec fn spec_from_raw(v: u8) -> Option<UiType> {
        if v == 0 {
            Some(UiType::Any)
        } else if v == 1 {
            Some(UiType::No)
        } else if v == 2 {
            Some(UiType::Yes)
        } else {
            None
        }
    }

    /// The code of this member.
    pub open spec fn spec_raw(self) -> u8 {
        match self {
            UiType::Any => 0,
            UiType::No => 1,
            UiType::Yes => 2,
        }
    }

    /// The member whose code is `v`, or `None` where no member has it.
    pub fn from_raw(v: u8) -> (r: Option<UiType>)
        ensures
            r == Self::spec_from_raw(v),
    {
        match v {
            0 => Some(UiType::Any),
            1 => Some(UiType::No),
            2 => Some(UiType::Yes),
            _ => None,
        }
    }

    /// The code of this member.
    pub fn raw(&self) -> (r: u8)
        ensures
            r == self.spec_raw(),
            Self::spec_from_raw(r) == Some(*self),
    {
        match self {
            UiType::Any => 0,
            UiType::No => 1,
            UiType::Yes => 2,
        }
    }
}

/// Night mode.
#[derive(PartialEq, Eq, Structural, Clone, Copy, Debug)]
pub enum Night {
    Any,
    No,
    Yes,
}

impl Night {
    /// The member whose code is `v`, if any.
    pub open spec fn spec_from_raw(v: u8) -> Option<Night> {
        if v == 0 {
            Some(Night::Any)
        } else if v == 1 {
            Some(Night::No)
        } else if v == 2 {
            Some(Night::Yes)
        } else {
            None
        }
    }

    /// The code of this member.
    pub open spec fn spec_raw(self) -> u8 {
        match self {
            Night::Any => 0,
            Night::No => 1,
            Night::Yes => 2,
        }
    }

    /// The member whose code is `v`, or `None` where no member has it.
    pub fn from_raw(v: u8) -> (r: Option<Night>)
        ensures
            r == Self::spec_from_raw(v),
    {
        match v {
            0 => Some(Night::Any),
            1 => Some(Night::No),
            2 => Some(Night::Yes),
            _ => None,
        }
    }

    /// The code of this member.
    pub fn raw(&self) -> (r: u8)
        ensures
            r == self.spec_raw(),
            Self::spec_from_raw(r) == Some(*self),
    {
        match self {
            Night::Any => 0,
            Night::No => 1,
            Night::Yes => 2,
        }
    }
}

/// Named screen densities, in dots per inch. A density field holds any
/// `u16`; these are the values with a name.
#[derive(PartialEq, Eq, Structural, Clone, Copy, Debug)]
pub enum Density {
    Default,
    Low,
    Medium,
    TV,
    High,
    XHigh,
    XXHigh,
    XXXHigh,
    Any,
    Nodpi,
}

impl Density {
    /// The member whose code is `v`, if any.
    pub open spec fn spec_from_raw(v: u16) -> Option<Density> {
        if v == 0 {
            Some(Density::Default)
        } else if v == 120 {
            Some(Density::Low)
        } else if v == 160 {
            Some(Density::Medium)
        } else if v == 213 {
            Some(Density::TV)
        } else if v == 240 {
            Some(Density::High)
        } else if v == 320 {
            Some(Density::XHigh)
        } else if v == 480 {
            Some(Density::XXHigh)
        } else if v == 640 {
            Some(Density::XXXHigh)
        } else if v == 0xfffe {
            Some(Density::Any)
        } else if v == 0xffff {
            Some(Density::Nodpi)
        } else {
            None
        }
    }

    /// The code of this member.
    pub open spec fn spec_raw(self) -> u16 {
        match self {
            Density::Default => 0,
            Density::Low => 120,
            Density::Medium => 160,
            Density::TV => 213,
            Density::High => 240,
            Density::XHigh => 320,
            Density::XXHigh => 480,
            Density::XXXHigh => 640,
            Density::Any => 0xfffe,
            Density::Nodpi => 0xffff,
        }
    }

    /// The member whose code is `v`, or `None` where no member has it.
    pub fn from_raw(v: u16) -> (r: Option<Density>)
        ensures
            r == Self::spec_from_raw(v),
    {
        match v {
            0 => Some(Density::Default),
            120 => Some(Density::Low),
            160 => Some(Density::Medium),
            213 => Some(Density::TV),
            240 => Some(Density::High),
            320 => Some(Density::XHigh),
            480 => Some(Density::XXHigh),
            640 => Some(Density::XXXHigh),
            0xfffe => Some(Density::Any),
            0xffff => Some(Density::Nodpi),
            _ => None,
        }
    }

    /// The code of this member.
    pub fn raw(&self) -> (r: u16)
        ensures
            r == self.spec_raw(),
            Self::spec_from_raw(r) == Some(*self),
    {
        match self {
            Density::Default => 0,
            Density::Low => 120,
            Density::Medium => 160,
            Density::TV => 213,
            Density::High => 240,
            Density::XHigh => 320,
            Density::XXHigh => 480,
            Density::XXXHigh => 640,
            Density::Any => 0xfffe,
            Density::Nodpi => 0xffff,
        }
    }
}

} // verus!
