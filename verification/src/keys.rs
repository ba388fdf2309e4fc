//! The keys of each controller family and the state of a key, with the
//! numbers under which the driver reports them.

use vstd::prelude::*;

verus! {

/// The keys of a Wii Remote.
#[derive(Copy, Clone, Debug, PartialEq, Eq, Structural)]
pub enum Key {
    /// Plus (+) button.
    Plus,
    /// Minus (-) button.
    Minus,
    /// Left directional pad button.
    Left,
    /// Right directional pad button.
    Right,
    /// Up directional pad button.
    Up,
    /// Down directional pad button.
    Down,
    /// A button.
    A,
    /// B button.
    B,
    /// Home button.
    Home,
    /// 1 button.
    One,
    /// 2 button.
    Two,
}

impl Key {
    /// The number under which the driver reports the key.
    pub open spec fn spec_code(self) -> u32 {
        match self {
            Key::Plus => 6,
            Key::Minus => 7,
            Key::Left => 0,
            Key::Right => 1,
            Key::Up => 2,
            Key::Down => 3,
            Key::A => 4,
            Key::B => 5,
            Key::Home => 8,
            Key::One => 9,
            Key::Two => 10,
        }
    }

    /// The key that the driver reports under `code`, if the family has one.
    pub open spec fn spec_from_u32(code: u32) -> Option<Self> {
        if code == 0 {
            Some(Key::Left)
        } else if code == 1 {
            Some(Key::Right)
        } else if code == 2 {
            Some(Key::Up)
        } else if code == 3 {
            Some(Key::Down)
        } else if code == 4 {
            Some(Key::A)
        } else if code == 5 {
            Some(Key::B)
        } else if code == 6 {
            Some(Key::Plus)
        } else if code == 7 {
            Some(Key::Minus)
        } else if code == 8 {
            Some(Key::Home)
        } else if code == 9 {
            Some(Key::One)
        } else if code == 10 {
            Some(Key::Two)
        } else {
            None
        }
    }

    /// Returns the number under which the driver reports the key.
    pub fn code(self) -> (code: u32)
        ensures
            code == self.spec_code(),
    {
        match self {
            Key::Plus => 6,
            Key::Minus => 7,
            Key::Left => 0,
            Key::Right => 1,
            Key::Up => 2,
            Key::Down => 3,
            Key::A => 4,
            Key::B => 5,
            Key::Home => 8,
            Key::One => 9,
            Key::Two => 10,
        }
    }

    /// Reads a key from the number that the driver reported. The result is
    /// `None` exactly when no key of the family has that number.
    pub fn from_u32(code: u32) -> (key: Option<Self>)
        ensures
            key == Self::spec_from_u32(code),
            key matches Some(k) ==> k.spec_code() == code,
            key is None ==> forall|k: Key| #[trigger] k.spec_code() != code,
    {
        match code {
            0 => Some(Key::Left),
            1 => Some(Key::Right),
            2 => Some(Key::Up),
            3 => Some(Key::Down),
            4 => Some(Key::A),
            5 => Some(Key::B),
            6 => Some(Key::Plus),
            7 => Some(Key::Minus),
            8 => Some(Key::Home),
            9 => Some(Key::One),
            10 => Some(Key::Two),
            _ => None,
        }
    }
}

/// Reading the number of a key of this family gives the key back, and a
/// number is read as a key only if it is that key's number.
pub proof fn lemma_key_round_trip(key: Key, code: u32)
    ensures
        Key::spec_from_u32(key.spec_code()) == Some(key),
        Key::spec_from_u32(code) == Some(key) <==> key.spec_code() == code,
{
}

/// The keys of a Wii U Pro controller.
#[derive(Copy, Clone, Debug, PartialEq, Eq, Structural)]
pub enum ProControllerKey {
    /// Plus (+) button.
    Plus,
    /// Minus (-) button.
    Minus,
    /// Left directional pad button.
    Left,
    /// Right directional pad button.
    Right,
    /// Up directional pad button.
    Up,
    /// Down directional pad button.
    Down,
    /// A button.
    A,
    /// B button.
    B,
    /// Home button.
    Home,
    /// X button.
    X,
    /// Y button.
    Y,
    /// TL button.
    TL,
    /// TR button.
    TR,
    /// ZL button.
    ZL,
    /// ZR button.
    ZR,
    /// Left thumb button: the left analog stick is pressed.
    LeftThumb,
    /// Right thumb button: the right analog stick is pressed.
    RightThumb,
}

impl ProControllerKey {
    /// The number under which the driver reports the key.
    pub open spec fn spec_code(self) -> u32 {
        match self {
            ProControllerKey::Plus => 6,
            ProControllerKey::Minus => 7,
            ProControllerKey::Left => 0,
            ProControllerKey::Right => 1,
            ProControllerKey::Up => 2,
            ProControllerKey::Down => 3,
            ProControllerKey::A => 4,
            ProControllerKey::B => 5,
            ProControllerKey::Home => 8,
            ProControllerKey::X => 11,
            ProControllerKey::Y => 12,
            ProControllerKey::TL => 13,
            ProControllerKey::TR => 14,
            ProControllerKey::ZL => 15,
            ProControllerKey::ZR => 16,
            ProControllerKey::LeftThumb => 17,
            ProControllerKey::RightThumb => 18,
        }
    }

    /// The key that the driver reports under `code`, if the family has one.
    pub open spec fn spec_from_u32(code: u32) -> Option<Self> {
        if code == 0 {
            Some(ProControllerKey::Left)
        } else if code == 1 {
            Some(ProControllerKey::Right)
        } else if code == 2 {
            Some(ProControllerKey::Up)
        } else if code == 3 {
            Some(ProControllerKey::Down)
        } else if code == 4 {
            Some(ProControllerKey::A)
        } else if code == 5 {
            Some(ProControllerKey::B)
        } else if code == 6 {
            Some(ProControllerKey::Plus)
        } else if code == 7 {
            Some(ProControllerKey::Minus)
        } else if code == 8 {
            Some(ProControllerKey::Home)
        } else if code == 11 {
            Some(ProControllerKey::X)
        } else if code == 12 {
            Some(ProControllerKey::Y)
        } else if code == 13 {
            Some(ProControllerKey::TL)
        } else if code == 14 {
            Some(ProControllerKey::TR)
        } else if code == 15 {
            Some(ProControllerKey::ZL)
        } else if code == 16 {
            Some(ProControllerKey::ZR)
        } else if code == 17 {
            Some(ProControllerKey::LeftThumb)
        } else if code == 18 {
            Some(ProControllerKey::RightThumb)
        } else {
            None
        }
    }

    /// Returns the number under which the driver reports the key.
    pub fn code(self) -> (code: u32)
        ensures
            code == self.spec_code(),
    {
        match self {
            ProControllerKey::Plus => 6,
            ProControllerKey::Minus => 7,
            ProControllerKey::Left => 0,
            ProControllerKey::Right => 1,
            ProControllerKey::Up => 2,
            ProControllerKey::Down => 3,
            ProControllerKey::A => 4,
            ProControllerKey::B => 5,
            ProControllerKey::Home => 8,
            ProControllerKey::X => 11,
            ProControllerKey::Y => 12,
            ProControllerKey::TL => 13,
            ProControllerKey::TR => 14,
            ProControllerKey::ZL => 15,
            ProControllerKey::ZR => 16,
            ProControllerKey::LeftThumb => 17,
            ProControllerKey::RightThumb => 18,
        }
    }

    /// Reads a key from the number that the driver reported. The result is
    /// `None` exactly when no key of the family has that number.
    pub fn from_u32(code: u32) -> (key: Option<Self>)
        ensures
            key == Self::spec_from_u32(code),
            key matches Some(k) ==> k.spec_code() == code,
            key is None ==> forall|k: ProControllerKey| #[trigger] k.spec_code() != code,
    {
        match code {
            0 => Some(ProControllerKey::Left),
            1 => Some(ProControllerKey::Right),
            2 => Some(ProControllerKey::Up),
            3 => Some(ProControllerKey::Down),
            4 => Some(ProControllerKey::A),
            5 => Some(ProControllerKey::B),
            6 => Some(ProControllerKey::Plus),
            7 => Some(ProControllerKey::Minus),
            8 => Some(ProControllerKey::Home),
            11 => Some(ProControllerKey::X),
            12 => Some(ProControllerKey::Y),
            13 => Some(ProControllerKey::TL),
            14 => Some(ProControllerKey::TR),
            15 => Some(ProControllerKey::ZL),
            16 => Some(ProControllerKey::ZR),
            17 => Some(ProControllerKey::LeftThumb),
            18 => Some(ProControllerKey::RightThumb),
            _ => None,
        }
    }
}

/// Reading the number of a key of this family gives the key back, and a
/// number is read as a key only if it is that key's number.
pub proof fn lemma_pro_controller_key_round_trip(key: ProControllerKey, code: u32)
    ensures
        ProControllerKey::spec_from_u32(key.spec_code()) == Some(key),
        ProControllerKey::spec_from_u32(code) == Some(key) <==> key.spec_code() == code,
{
}

/// The keys of a Classic controller.
#[derive(Copy, Clone, Debug, PartialEq, Eq, Structural)]
pub enum ClassicControllerKey {
    /// Plus (+) button.
    Plus,
    /// Minus (-) button.
    Minus,
    /// Left directional pad button.
    Left,
    /// Right directional pad button.
    Right,
    /// Up directional pad button.
    Up,
    /// Down directional pad button.
    Down,
    /// A button.
    A,
    /// B button.
    B,
    /// Home button.
    Home,
    /// X button.
    X,
    /// Y button.
    Y,
    /// TL button.
    TL,
    /// TR button.
    TR,
    /// ZL button.
    ZL,
    /// ZR button.
    ZR,
}

impl ClassicControllerKey {
    /// The number under which the driver reports the key.
    pub open spec fn spec_code(self) -> u32 {
        match self {
            ClassicControllerKey::Plus => 6,
            ClassicControllerKey::Minus => 7,
            ClassicControllerKey::Left => 0,
            ClassicControllerKey::Right => 1,
            ClassicControllerKey::Up => 2,
            ClassicControllerKey::Down => 3,
            ClassicControllerKey::A => 4,
            ClassicControllerKey::B => 5,
            ClassicControllerKey::Home => 8,
            ClassicControllerKey::X => 11,
            ClassicControllerKey::Y => 12,
            ClassicControllerKey::TL => 13,
            ClassicControllerKey::TR => 14,
            ClassicControllerKey::ZL => 15,
            ClassicControllerKey::ZR => 16,
        }
    }

    /// The key that the driver reports under `code`, if the family has one.
    pub open spec fn spec_from_u32(code: u32) -> Option<Self> {
        if code == 0 {
            Some(ClassicControllerKey::Left)
        } else if code == 1 {
            Some(ClassicControllerKey::Right)
        } else if code == 2 {
            Some(ClassicControllerKey::Up)
        } else if code == 3 {
            Some(ClassicControllerKey::Down)
        } else if code == 4 {
            Some(ClassicControllerKey::A)
        } else if code == 5 {
            Some(ClassicControllerKey::B)
        } else if code == 6 {
            Some(ClassicControllerKey::Plus)
        } else if code == 7 {
            Some(ClassicControllerKey::Minus)
        } else if code == 8 {
            Some(ClassicControllerKey::Home)
        } else if code == 11 {
            Some(ClassicControllerKey::X)
        } else if code == 12 {
            Some(ClassicControllerKey::Y)
        } else if code == 13 {
            Some(ClassicControllerKey::TL)
        } else if code == 14 {
            Some(ClassicControllerKey::TR)
        } else if code == 15 {
            Some(ClassicControllerKey::ZL)
        } else if code == 16 {
            Some(ClassicControllerKey::ZR)
        } else {
            None
        }
    }

    /// Returns the number under which the driver reports the key.
    pub fn code(self) -> (code: u32)
        ensures
            code == self.spec_code(),
    {
        match self {
            ClassicControllerKey::Plus => 6,
            ClassicControllerKey::Minus => 7,
            ClassicControllerKey::Left => 0,
            ClassicControllerKey::Right => 1,
            ClassicControllerKey::Up => 2,
            ClassicControllerKey::Down => 3,
            ClassicControllerKey::A => 4,
            ClassicControllerKey::B => 5,
            ClassicControllerKey::Home => 8,
            ClassicControllerKey::X => 11,
            ClassicControllerKey::Y => 12,
            ClassicControllerKey::TL => 13,
            ClassicControllerKey::TR => 14,
            ClassicControllerKey::ZL => 15,
            ClassicControllerKey::ZR => 16,
        }
    }

    /// Reads a key from the number that the driver reported. The result is
    /// `None` exactly when no key of the family has that number.
    pub fn from_u32(code: u32) -> (key: Option<Self>)
        ensures
            key == Self::spec_from_u32(code),
            key matches Some(k) ==> k.spec_code() == code,
            key is None ==> forall|k: ClassicControllerKey| #[trigger] k.spec_code() != code,
    {
        match code {
            0 => Some(ClassicControllerKey::Left),
            1 => Some(ClassicControllerKey::Right),
            2 => Some(ClassicControllerKey::Up),
            3 => Some(ClassicControllerKey::Down),
            4 => Some(ClassicControllerKey::A),
            5 => Some(ClassicControllerKey::B),
            6 => Some(ClassicControllerKey::Plus),
            7 => Some(ClassicControllerKey::Minus),
            8 => Some(ClassicControllerKey::Home),
            11 => Some(ClassicControllerKey::X),
            12 => Some(ClassicControllerKey::Y),
            13 => Some(ClassicControllerKey::TL),
            14 => Some(ClassicControllerKey::TR),
            15 => Some(ClassicControllerKey::ZL),
            16 => Some(ClassicControllerKey::ZR),
            _ => None,
        }
    }
}

/// Reading the number of a key of this family gives the key back, and a
/// number is read as a key only if it is that key's number.
pub proof fn lemma_classic_controller_key_round_trip(key: ClassicControllerKey, code: u32)
    ensures
        ClassicControllerKey::spec_from_u32(key.spec_code()) == Some(key),
        ClassicControllerKey::spec_from_u32(code) == Some(key) <==> key.spec_code() == code,
{
}

/// The keys of a Nunchuk.
#[derive(Copy, Clone, Debug, PartialEq, Eq, Structural)]
pub enum NunchukKey {
    /// C button.
    C,
    /// Z button.
    Z,
}

impl NunchukKey {
    /// The number under which the driver reports the key.
    pub open spec fn spec_code(self) -> u32 {
        match self {
            NunchukKey::C => 19,
            NunchukKey::Z => 20,
        }
    }

    /// The key that the driver reports under `code`, if the family has one.
    pub open spec fn spec_from_u32(code: u32) -> Option<Self> {
        if code == 19 {
            Some(NunchukKey::C)
        } else if code == 20 {
            Some(NunchukKey::Z)
        } else {
            None
        }
    }

    /// Returns the number under which the driver reports the key.
    pub fn code(self) -> (code: u32)
        ensures
            code == self.spec_code(),
    {
        match self {
            NunchukKey::C => 19,
            NunchukKey::Z => 20,
        }
    }

    /// Reads a key from the number that the driver reported. The result is
    /// `None` exactly when no key of the family has that number.
    pub fn from_u32(code: u32) -> (key: Option<Self>)
        ensures
            key == Self::spec_from_u32(code),
            key matches Some(k) ==> k.spec_code() == code,
            key is None ==> forall|k: NunchukKey| #[trigger] k.spec_code() != code,
    {
        match code {
            19 => Some(NunchukKey::C),
            20 => Some(NunchukKey::Z),
            _ => None,
        }
    }
}

/// Reading the number of a key of this family gives the key back, and a
/// number is read as a key only if it is that key's number.
pub proof fn lemma_nunchuk_key_round_trip(key: NunchukKey, code: u32)
    ensures
        NunchukKey::spec_from_u32(key.spec_code()) == Some(key),
        NunchukKey::spec_from_u32(code) == Some(key) <==> key.spec_code() == code,
{
}

/// The keys of a drums controller.
#[derive(Copy, Clone, Debug, PartialEq, Eq, Structural)]
pub enum DrumsKey {
    /// Plus (+) button.
    Plus,
    /// Minus (-) button.
    Minus,
}

impl DrumsKey {
    /// The number under which the driver reports the key.
    pub open spec fn spec_code(self) -> u32 {
        match self {
            DrumsKey::Plus => 6,
            DrumsKey::Minus => 7,
        }
    }

    /// The key that the driver reports under `code`, if the family has one.
    pub open spec fn spec_from_u32(code: u32) -> Option<Self> {
        if code == 6 {
            Some(DrumsKey::Plus)
        } else if code == 7 {
            Some(DrumsKey::Minus)
        } else {
            None
        }
    }

    /// Returns the number under which the driver reports the key.
    pub fn code(self) -> (code: u32)
        ensures
            code == self.spec_code(),
    {
        match self {
            DrumsKey::Plus => 6,
            DrumsKey::Minus => 7,
        }
    }

    /// Reads a key from the number that the driver reported. The result is
    /// `None` exactly when no key of the family has that number.
    pub fn from_u32(code: u32) -> (key: Option<Self>)
        ensures
            key == Self::spec_from_u32(code),
            key matches Some(k) ==> k.spec_code() == code,
            key is None ==> forall|k: DrumsKey| #[trigger] k.spec_code() != code,
    {
        match code {
            6 => Some(DrumsKey::Plus),
            7 => Some(DrumsKey::Minus),
            _ => None,
        }
    }
}

/// Reading the number of a key of this family gives the key back, and a
/// number is read as a key only if it is that key's number.
pub proof fn lemma_drums_key_round_trip(key: DrumsKey, code: u32)
    ensures
        DrumsKey::spec_from_u32(key.spec_code()) == Some(key),
        DrumsKey::spec_from_u32(code) == Some(key) <==> key.spec_code() == code,
{
}

/// The keys of a guitar controller.
#[derive(Copy, Clone, Debug, PartialEq, Eq, Structural)]
pub enum GuitarKey {
    /// Plus (+) button.
    Plus,
    /// Minus (-) button.
    Minus,
    /// The StarPower/Home button.
    StarPower,
    /// The guitar strum bar.
    StrumBar,
    /// The guitar upper-most fret button.
    HighestFretBar,
    /// The guitar second-upper fret button.
    HighFretBar,
    /// The guitar mid fret button.
    MidFretBar,
    /// The guitar second-lowest fret button.
    LowFretBar,
    /// The guitar lowest fret button.
    LowestFretBar,
}

impl GuitarKey {
    /// The number under which the driver reports the key.
    pub open spec fn spec_code(self) -> u32 {
        match self {
            GuitarKey::Plus => 6,
            GuitarKey::Minus => 7,
            GuitarKey::StarPower => 8,
            GuitarKey::StrumBar => 21,
            GuitarKey::HighestFretBar => 23,
            GuitarKey::HighFretBar => 24,
            GuitarKey::MidFretBar => 25,
            GuitarKey::LowFretBar => 26,
            GuitarKey::LowestFretBar => 27,
        }
    }

    /// The key that the driver reports under `code`, if the family has one.
    pub open spec fn spec_from_u32(code: u32) -> Option<Self> {
        if code == 6 {
            Some(GuitarKey::Plus)
        } else if code == 7 {
            Some(GuitarKey::Minus)
        } else if code == 8 {
            Some(GuitarKey::StarPower)
        } else if code == 21 {
            Some(GuitarKey::StrumBar)
        } else if code == 23 {
            Some(GuitarKey::HighestFretBar)
        } else if code == 24 {
            Some(GuitarKey::HighFretBar)
        } else if code == 25 {
            Some(GuitarKey::MidFretBar)
        } else if code == 26 {
            Some(GuitarKey::LowFretBar)
        } else if code == 27 {
            Some(GuitarKey::LowestFretBar)
        } else {
            None
        }
    }

    /// Returns the number under which the driver reports the key.
    pub fn code(self) -> (code: u32)
        ensures
            code == self.spec_code(),
    {
        match self {
            GuitarKey::Plus => 6,
            GuitarKey::Minus => 7,
            GuitarKey::StarPower => 8,
            GuitarKey::StrumBar => 21,
            GuitarKey::HighestFretBar => 23,
            GuitarKey::HighFretBar => 24,
            GuitarKey::MidFretBar => 25,
            GuitarKey::LowFretBar => 26,
            GuitarKey::LowestFretBar => 27,
        }
    }

    /// Reads a key from the number that the driver reported. The result is
    /// `None` exactly when no key of the family has that number.
    pub fn from_u32(code: u32) -> (key: Option<Self>)
        ensures
            key == Self::spec_from_u32(code),
            key matches Some(k) ==> k.spec_code() == code,
            key is None ==> forall|k: GuitarKey| #[trigger] k.spec_code() != code,
    {
        match code {
            6 => Some(GuitarKey::Plus),
            7 => Some(GuitarKey::Minus),
            8 => Some(GuitarKey::StarPower),
            21 => Some(GuitarKey::StrumBar),
            23 => Some(GuitarKey::HighestFretBar),
            24 => Some(GuitarKey::HighFretBar),
            25 => Some(GuitarKey::MidFretBar),
            26 => Some(GuitarKey::LowFretBar),
            27 => Some(GuitarKey::LowestFretBar),
            _ => None,
        }
    }
}

/// Reading the number of a key of this family gives the key back, and a
/// number is read as a key only if it is that key's number.
pub proof fn lemma_guitar_key_round_trip(key: GuitarKey, code: u32)
    ensures
        GuitarKey::spec_from_u32(key.spec_code()) == Some(key),
        GuitarKey::spec_from_u32(code) == Some(key) <==> key.spec_code() == code,
{
}

/// The state of a key.
#[derive(Copy, Clone, Debug, PartialEq, Eq, Structural)]
pub enum KeyState {
    /// The key is released.
    Up,
    /// The key is held down.
    Down,
    /// The key is held down, and was reported as so in the previous
    /// event for the same key.
    AutoRepeat,
}

impl KeyState {
    /// The number under which the driver reports the state.
    pub open spec fn spec_code(self) -> u32 {
        match self {
            KeyState::Up => 0,
            KeyState::Down => 1,
            KeyState::AutoRepeat => 2,
        }
    }

    /// The state that the driver reports under `code`, if there is one.
    pub open spec fn spec_from_u32(code: u32) -> Option<Self> {
        if code == 0 {
            Some(KeyState::Up)
        } else if code == 1 {
            Some(KeyState::Down)
        } else if code == 2 {
            Some(KeyState::AutoRepeat)
        } else {
            None
        }
    }

    /// Returns the number under which the driver reports the state.
    pub fn code(self) -> (code: u32)
        ensures
            code == self.spec_code(),
    {
        match self {
            KeyState::Up => 0,
            KeyState::Down => 1,
            KeyState::AutoRepeat => 2,
        }
    }

    /// Reads a key state from the number that the driver reported. The
    /// result is `None` exactly when the number stands for no state.
    pub fn from_u32(code: u32) -> (state: Option<Self>)
        ensures
            state == Self::spec_from_u32(code),
            state matches Some(s) ==> s.spec_code() == code,
            state is None ==> code > 2,
    {
        match code {
            0 => Some(KeyState::Up),
            1 => Some(KeyState::Down),
            2 => Some(KeyState::AutoRepeat),
            _ => None,
        }
    }
}

/// Reading the number of a key state gives the state back, and a number
/// is read as a state only if it is that state's number.
pub proof fn lemma_key_state_round_trip(state: KeyState, code: u32)
    ensures
        KeyState::spec_from_u32(state.spec_code()) == Some(state),
        KeyState::spec_from_u32(code) == Some(state) <==> state.spec_code() == code,
{
}

/// Two numbers that are read as the same key state are equal: a repeated
/// report of a held key is never read as a fresh press, nor a fresh press
/// as a repetition.
pub proof fn lemma_key_state_distinct(a: u32, b: u32)
    requires
        KeyState::spec_from_u32(a) is Some,
        KeyState::spec_from_u32(a) == KeyState::spec_from_u32(b),
    ensures
        a == b,
{
}

} // verus!
