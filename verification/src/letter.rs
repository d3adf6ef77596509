//! Lowercase Russian letters and their UTF-8 encoding.

use vstd::prelude::*;

verus! {

/// A lowercase Russian letter, stored as the two bytes of its UTF-8 encoding.
///
/// Every lowercase Russian letter (`а`..=`я` and `ё`) takes exactly two bytes in UTF-8,
/// which is what allows words to be processed letter by letter.
#[derive(Debug, Clone, Copy, PartialEq, Eq, Structural, Hash)]
pub enum Utf8Letter {
    /// The letter `а`.
    A,
    /// The letter `б`.
    B,
    /// The letter `в`.
    V,
    /// The letter `г`.
    G,
    /// The letter `д`.
    D,
    /// The letter `е`.
    Ye,
    /// The letter `ж`.
    Zh,
    /// The letter `з`.
    Z,
    /// The letter `и`.
    I,
    /// The letter `й`.
    Iy,
    /// The letter `к`.
    K,
    /// The letter `л`.
    L,
    /// The letter `м`.
    M,
    /// The letter `н`.
    N,
    /// The letter `о`.
    O,
    /// The letter `п`.
    P,
    /// The letter `р`.
    R,
    /// The letter `с`.
    S,
    /// The letter `т`.
    T,
    /// The letter `у`.
    U,
    /// The letter `ф`.
    F,
    /// The letter `х`.
    Kh,
    /// The letter `ц`.
    Ts,
    /// The letter `ч`.
    Ch,
    /// The letter `ш`.
    Sh,
    /// The letter `щ`.
    Shch,
    /// The letter `ъ`.
    HardSign,
    /// The letter `ы`.
    Y,
    /// The letter `ь`.
    SoftSign,
    /// The letter `э`.
    E,
    /// The letter `ю`.
    Yu,
    /// The letter `я`.
    Ya,
    /// The letter `ё`.
    Yo,
}

/// The last UTF-8 byte of a lowercase Russian letter.
///
/// The last bytes of all lowercase Russian letters are distinct, so a letter can be identified
/// by its last byte alone.
#[derive(Debug, Clone, Copy, PartialEq, Eq, Structural, Hash)]
pub enum ByteLetter {
    /// The letter `а`.
    A,
    /// The letter `б`.
    B,
    /// The letter `в`.
    V,
    /// The letter `г`.
    G,
    /// The letter `д`.
    D,
    /// The letter `е`.
    Ye,
    /// The letter `ж`.
    Zh,
    /// The letter `з`.
    Z,
    /// The letter `и`.
    I,
    /// The letter `й`.
    Iy,
    /// The letter `к`.
    K,
    /// The letter `л`.
    L,
    /// The letter `м`.
    M,
    /// The letter `н`.
    N,
    /// The letter `о`.
    O,
    /// The letter `п`.
    P,
    /// The letter `р`.
    R,
    /// The letter `с`.
    S,
    /// The letter `т`.
    T,
    /// The letter `у`.
    U,
    /// The letter `ф`.
    F,
    /// The letter `х`.
    Kh,
    /// The letter `ц`.
    Ts,
    /// The letter `ч`.
    Ch,
    /// The letter `ш`.
    Sh,
    /// The letter `щ`.
    Shch,
    /// The letter `ъ`.
    HardSign,
    /// The letter `ы`.
    Y,
    /// The letter `ь`.
    SoftSign,
    /// The letter `э`.
    E,
    /// The letter `ю`.
    Yu,
    /// The letter `я`.
    Ya,
    /// The letter `ё`.
    Yo,
}

/// Returns `true` if `ch` is a lowercase Russian letter (`а`..=`я` or `ё`).
pub open spec fn is_lowercase_russian_char(ch: char) -> bool {
    ('а' <= ch && ch <= 'я') || ch == 'ё'
}

/// Returns `true` if the two bytes are the UTF-8 encoding of a lowercase Russian letter.
pub open spec fn is_lowercase_russian_utf8(b0: u8, b1: u8) -> bool {
    (b0 == 0xD0 && 0xB0 <= b1 && b1 <= 0xBF) || (b0 == 0xD1 && ((0x80 <= b1 && b1 <= 0x8F) || b1 == 0x91))
}

impl Utf8Letter {
    /// The letter as a `char`.
    pub open spec fn spec_char(self) -> char {
        match self {
            Utf8Letter::A => 'а',
            Utf8Letter::B => 'б',
            Utf8Letter::V => 'в',
            Utf8Letter::G => 'г',
            Utf8Letter::D => 'д',
            Utf8Letter::Ye => 'е',
            Utf8Letter::Zh => 'ж',
            Utf8Letter::Z => 'з',
            Utf8Letter::I => 'и',
            Utf8Letter::Iy => 'й',
            Utf8Letter::K => 'к',
            Utf8Letter::L => 'л',
            Utf8Letter::M => 'м',
            Utf8Letter::N => 'н',
            Utf8Letter::O => 'о',
            Utf8Letter::P => 'п',
            Utf8Letter::R => 'р',
            Utf8Letter::S => 'с',
            Utf8Letter::T => 'т',
            Utf8Letter::U => 'у',
            Utf8Letter::F => 'ф',
            Utf8Letter::Kh => 'х',
            Utf8Letter::Ts => 'ц',
            Utf8Letter::Ch => 'ч',
            Utf8Letter::Sh => 'ш',
            Utf8Letter::Shch => 'щ',
            Utf8Letter::HardSign => 'ъ',
            Utf8Letter::Y => 'ы',
            Utf8Letter::SoftSign => 'ь',
            Utf8Letter::E => 'э',
            Utf8Letter::Yu => 'ю',
            Utf8Letter::Ya => 'я',
            Utf8Letter::Yo => 'ё',
        }
    }

    /// The last byte of the letter's UTF-8 encoding.
    pub open spec fn spec_last_byte(self) -> u8 {
        match self {
            Utf8Letter::A => 0xB0,
            Utf8Letter::B => 0xB1,
            Utf8Letter::V => 0xB2,
            Utf8Letter::G => 0xB3,
            Utf8Letter::D => 0xB4,
            Utf8Letter::Ye => 0xB5,
            Utf8Letter::Zh => 0xB6,
            Utf8Letter::Z => 0xB7,
            Utf8Letter::I => 0xB8,
            Utf8Letter::Iy => 0xB9,
            Utf8Letter::K => 0xBA,
            Utf8Letter::L => 0xBB,
            Utf8Letter::M => 0xBC,
            Utf8Letter::N => 0xBD,
            Utf8Letter::O => 0xBE,
            Utf8Letter::P => 0xBF,
            Utf8Letter::R => 0x80,
            Utf8Letter::S => 0x81,
            Utf8Letter::T => 0x82,
            Utf8Letter::U => 0x83,
            Utf8Letter::F => 0x84,
            Utf8Letter::Kh => 0x85,
            Utf8Letter::Ts => 0x86,
            Utf8Letter::Ch => 0x87,
            Utf8Letter::Sh => 0x88,
            Utf8Letter::Shch => 0x89,
            Utf8Letter::HardSign => 0x8A,
            Utf8Letter::Y => 0x8B,
            Utf8Letter::SoftSign => 0x8C,
            Utf8Letter::E => 0x8D,
            Utf8Letter::Yu => 0x8E,
            Utf8Letter::Ya => 0x8F,
            Utf8Letter::Yo => 0x91,
        }
    }

    /// The first byte of the letter's UTF-8 encoding.
    pub open spec fn spec_lead_byte(self) -> u8 {
        if self.spec_last_byte() >= 0xB0 { 0xD0 } else { 0xD1 }
    }

    /// The letter with its last byte reinterpreted as a [`ByteLetter`].
    pub open spec fn spec_byte(self) -> ByteLetter {
        match self {
            Utf8Letter::A => ByteLetter::A,
            Utf8Letter::B => ByteLetter::B,
            Utf8Letter::V => ByteLetter::V,
            Utf8Letter::G => ByteLetter::G,
            Utf8Letter::D => ByteLetter::D,
            Utf8Letter::Ye => ByteLetter::Ye,
            Utf8Letter::Zh => ByteLetter::Zh,
            Utf8Letter::Z => ByteLetter::Z,
            Utf8Letter::I => ByteLetter::I,
            Utf8Letter::Iy => ByteLetter::Iy,
            Utf8Letter::K => ByteLetter::K,
            Utf8Letter::L => ByteLetter::L,
            Utf8Letter::M => ByteLetter::M,
            Utf8Letter::N => ByteLetter::N,
            Utf8Letter::O => ByteLetter::O,
            Utf8Letter::P => ByteLetter::P,
            Utf8Letter::R => ByteLetter::R,
            Utf8Letter::S => ByteLetter::S,
            Utf8Letter::T => ByteLetter::T,
            Utf8Letter::U => ByteLetter::U,
            Utf8Letter::F => ByteLetter::F,
            Utf8Letter::Kh => ByteLetter::Kh,
            Utf8Letter::Ts => ByteLetter::Ts,
            Utf8Letter::Ch => ByteLetter::Ch,
            Utf8Letter::Sh => ByteLetter::Sh,
            Utf8Letter::Shch => ByteLetter::Shch,
            Utf8Letter::HardSign => ByteLetter::HardSign,
            Utf8Letter::Y => ByteLetter::Y,
            Utf8Letter::SoftSign => ByteLetter::SoftSign,
            Utf8Letter::E => ByteLetter::E,
            Utf8Letter::Yu => ByteLetter::Yu,
            Utf8Letter::Ya => ByteLetter::Ya,
            Utf8Letter::Yo => ByteLetter::Yo,
        }
    }

    /// `true` if the letter is a vowel (one of `аеиоуыэюяё`).
    pub open spec fn spec_is_vowel(self) -> bool {
        matches!(self, Utf8Letter::A | Utf8Letter::Ye | Utf8Letter::I | Utf8Letter::O | Utf8Letter::U | Utf8Letter::Y | Utf8Letter::E | Utf8Letter::Yu | Utf8Letter::Ya | Utf8Letter::Yo)
    }

    /// `true` if the letter is a consonant (one of `бвгджзйклмнпрстфхцчшщ`).
    pub open spec fn spec_is_consonant(self) -> bool {
        matches!(self, Utf8Letter::B | Utf8Letter::V | Utf8Letter::G | Utf8Letter::D | Utf8Letter::Zh | Utf8Letter::Z | Utf8Letter::Iy | Utf8Letter::K | Utf8Letter::L | Utf8Letter::M | Utf8Letter::N | Utf8Letter::P | Utf8Letter::R | Utf8Letter::S | Utf8Letter::T | Utf8Letter::F | Utf8Letter::Kh | Utf8Letter::Ts | Utf8Letter::Ch | Utf8Letter::Sh | Utf8Letter::Shch)
    }

    /// `true` if the letter is a non-sibilant consonant (one of `бвгдзйклмнпрстфх`).
    pub open spec fn spec_is_non_sibilant_consonant(self) -> bool {
        matches!(self, Utf8Letter::B | Utf8Letter::V | Utf8Letter::G | Utf8Letter::D | Utf8Letter::Z | Utf8Letter::Iy | Utf8Letter::K | Utf8Letter::L | Utf8Letter::M | Utf8Letter::N | Utf8Letter::P | Utf8Letter::R | Utf8Letter::S | Utf8Letter::T | Utf8Letter::F | Utf8Letter::Kh)
    }

    /// `true` if the letter is a sibilant consonant (one of `жцчшщ`).
    pub open spec fn spec_is_sibilant(self) -> bool {
        matches!(self, Utf8Letter::Zh | Utf8Letter::Ts | Utf8Letter::Ch | Utf8Letter::Sh | Utf8Letter::Shch)
    }

    /// `true` if the letter is a hissing sibilant consonant (one of `жчшщ`).
    pub open spec fn spec_is_hissing(self) -> bool {
        matches!(self, Utf8Letter::Zh | Utf8Letter::Ch | Utf8Letter::Sh | Utf8Letter::Shch)
    }

    /// `true` if the letter is excluded from a noun's stem when it ends the word (one of `аеийоуыьэюяё`).
    pub open spec fn spec_is_stem_trim_letter(self) -> bool {
        matches!(self, Utf8Letter::A | Utf8Letter::Ye | Utf8Letter::I | Utf8Letter::Iy | Utf8Letter::O | Utf8Letter::U | Utf8Letter::Y | Utf8Letter::SoftSign | Utf8Letter::E | Utf8Letter::Yu | Utf8Letter::Ya | Utf8Letter::Yo)
    }

}

impl ByteLetter {
    /// The byte value of this letter (the last byte of the letter's UTF-8 encoding).
    pub open spec fn spec_value(self) -> u8 {
        match self {
            ByteLetter::A => 0xB0,
            ByteLetter::B => 0xB1,
            ByteLetter::V => 0xB2,
            ByteLetter::G => 0xB3,
            ByteLetter::D => 0xB4,
            ByteLetter::Ye => 0xB5,
            ByteLetter::Zh => 0xB6,
            ByteLetter::Z => 0xB7,
            ByteLetter::I => 0xB8,
            ByteLetter::Iy => 0xB9,
            ByteLetter::K => 0xBA,
            ByteLetter::L => 0xBB,
            ByteLetter::M => 0xBC,
            ByteLetter::N => 0xBD,
            ByteLetter::O => 0xBE,
            ByteLetter::P => 0xBF,
            ByteLetter::R => 0x80,
            ByteLetter::S => 0x81,
            ByteLetter::T => 0x82,
            ByteLetter::U => 0x83,
            ByteLetter::F => 0x84,
            ByteLetter::Kh => 0x85,
            ByteLetter::Ts => 0x86,
            ByteLetter::Ch => 0x87,
            ByteLetter::Sh => 0x88,
            ByteLetter::Shch => 0x89,
            ByteLetter::HardSign => 0x8A,
            ByteLetter::Y => 0x8B,
            ByteLetter::SoftSign => 0x8C,
            ByteLetter::E => 0x8D,
            ByteLetter::Yu => 0x8E,
            ByteLetter::Ya => 0x8F,
            ByteLetter::Yo => 0x91,
        }
    }

    /// The full letter this byte stands for.
    pub open spec fn spec_letter(self) -> Utf8Letter {
        match self {
            ByteLetter::A => Utf8Letter::A,
            ByteLetter::B => Utf8Letter::B,
            ByteLetter::V => Utf8Letter::V,
            ByteLetter::G => Utf8Letter::G,
            ByteLetter::D => Utf8Letter::D,
            ByteLetter::Ye => Utf8Letter::Ye,
            ByteLetter::Zh => Utf8Letter::Zh,
            ByteLetter::Z => Utf8Letter::Z,
            ByteLetter::I => Utf8Letter::I,
            ByteLetter::Iy => Utf8Letter::Iy,
            ByteLetter::K => Utf8Letter::K,
            ByteLetter::L => Utf8Letter::L,
            ByteLetter::M => Utf8Letter::M,
            ByteLetter::N => Utf8Letter::N,
            ByteLetter::O => Utf8Letter::O,
            ByteLetter::P => Utf8Letter::P,
            ByteLetter::R => Utf8Letter::R,
            ByteLetter::S => Utf8Letter::S,
            ByteLetter::T => Utf8Letter::T,
            ByteLetter::U => Utf8Letter::U,
            ByteLetter::F => Utf8Letter::F,
            ByteLetter::Kh => Utf8Letter::Kh,
            ByteLetter::Ts => Utf8Letter::Ts,
            ByteLetter::Ch => Utf8Letter::Ch,
            ByteLetter::Sh => Utf8Letter::Sh,
            ByteLetter::Shch => Utf8Letter::Shch,
            ByteLetter::HardSign => Utf8Letter::HardSign,
            ByteLetter::Y => Utf8Letter::Y,
            ByteLetter::SoftSign => Utf8Letter::SoftSign,
            ByteLetter::E => Utf8Letter::E,
            ByteLetter::Yu => Utf8Letter::Yu,
            ByteLetter::Ya => Utf8Letter::Ya,
            ByteLetter::Yo => Utf8Letter::Yo,
        }
    }
}

impl Utf8Letter {
    /// Constructs a `Utf8Letter` from UTF-8 bytes. Returns `None` if the bytes do not encode
    /// a lowercase Russian letter.
    pub fn from_utf8(utf8: [u8; 2]) -> (r: Option<Self>)
        ensures
            r is Some <==> is_lowercase_russian_utf8(utf8[0], utf8[1]),
            r matches Some(l) ==> l.spec_lead_byte() == utf8[0] && l.spec_last_byte() == utf8[1],
    {
        match ByteLetter::from_utf8(utf8) {
            Some(b) => Some(b.to_utf8()),
            None => None,
        }
    }

    /// Constructs a `Utf8Letter` from a `char`. Returns `None` if it's not a lowercase
    /// Russian letter.
    pub fn from_char(ch: char) -> (r: Option<Self>)
        ensures
            r is Some <==> is_lowercase_russian_char(ch),
            r matches Some(l) ==> l.spec_char() == ch,
            r matches Some(l) ==> l == spec_letter_of_char(ch),
    {
        match ch {
            'а' => Some(Utf8Letter::A),
            'б' => Some(Utf8Letter::B),
            'в' => Some(Utf8Letter::V),
            'г' => Some(Utf8Letter::G),
            'д' => Some(Utf8Letter::D),
            'е' => Some(Utf8Letter::Ye),
            'ж' => Some(Utf8Letter::Zh),
            'з' => Some(Utf8Letter::Z),
            'и' => Some(Utf8Letter::I),
            'й' => Some(Utf8Letter::Iy),
            'к' => Some(Utf8Letter::K),
            'л' => Some(Utf8Letter::L),
            'м' => Some(Utf8Letter::M),
            'н' => Some(Utf8Letter::N),
            'о' => Some(Utf8Letter::O),
            'п' => Some(Utf8Letter::P),
            'р' => Some(Utf8Letter::R),
            'с' => Some(Utf8Letter::S),
            'т' => Some(Utf8Letter::T),
            'у' => Some(Utf8Letter::U),
            'ф' => Some(Utf8Letter::F),
            'х' => Some(Utf8Letter::Kh),
            'ц' => Some(Utf8Letter::Ts),
            'ч' => Some(Utf8Letter::Ch),
            'ш' => Some(Utf8Letter::Sh),
            'щ' => Some(Utf8Letter::Shch),
            'ъ' => Some(Utf8Letter::HardSign),
            'ы' => Some(Utf8Letter::Y),
            'ь' => Some(Utf8Letter::SoftSign),
            'э' => Some(Utf8Letter::E),
            'ю' => Some(Utf8Letter::Yu),
            'я' => Some(Utf8Letter::Ya),
            'ё' => Some(Utf8Letter::Yo),
            _ => None,
        }
    }

    /// Returns this letter's UTF-8 bytes.
    pub fn to_utf8(self) -> (r: [u8; 2])
        ensures
            r[0] == self.spec_lead_byte(),
            r[1] == self.spec_last_byte(),
    {
        let last = self.to_byte().to_u8();
        let lead: u8 = if last >= 0xB0 { 0xD0 } else { 0xD1 };
        [lead, last]
    }

    /// Returns this letter as a one-letter string.
    pub fn as_str(&self) -> (r: &'static str)
        ensures
            r@ == seq![self.spec_char()],
    {
        match self {
            Utf8Letter::A => {
                proof {
                    reveal_strlit("а");
                }
                "а"
            },
            Utf8Letter::B => {
                proof {
                    reveal_strlit("б");
                }
                "б"
            },
            Utf8Letter::V => {
                proof {
                    reveal_strlit("в");
                }
                "в"
            },
            Utf8Letter::G => {
                proof {
                    reveal_strlit("г");
                }
                "г"
            },
            Utf8Letter::D => {
                proof {
                    reveal_strlit("д");
                }
                "д"
            },
            Utf8Letter::Ye => {
                proof {
                    reveal_strlit("е");
                }
                "е"
            },
            Utf8Letter::Zh => {
                proof {
                    reveal_strlit("ж");
                }
                "ж"
            },
            Utf8Letter::Z => {
                proof {
                    reveal_strlit("з");
                }
                "з"
            },
            Utf8Letter::I => {
                proof {
                    reveal_strlit("и");
                }
                "и"
            },
            Utf8Letter::Iy => {
                proof {
                    reveal_strlit("й");
                }
                "й"
            },
            Utf8Letter::K => {
                proof {
                    reveal_strlit("к");
                }
                "к"
            },
            Utf8Letter::L => {
                proof {
                    reveal_strlit("л");
                }
                "л"
            },
            Utf8Letter::M => {
                proof {
                    reveal_strlit("м");
                }
                "м"
            },
            Utf8Letter::N => {
                proof {
                    reveal_strlit("н");
                }
                "н"
            },
            Utf8Letter::O => {
                proof {
                    reveal_strlit("о");
                }
                "о"
            },
            Utf8Letter::P => {
                proof {
                    reveal_strlit("п");
                }
                "п"
            },
            Utf8Letter::R => {
                proof {
                    reveal_strlit("р");
                }
                "р"
            },
            Utf8Letter::S => {
                proof {
                    reveal_strlit("с");
                }
                "с"
            },
            Utf8Letter::T => {
                proof {
                    reveal_strlit("т");
                }
                "т"
            },
            Utf8Letter::U => {
                proof {
                    reveal_strlit("у");
                }
                "у"
            },
            Utf8Letter::F => {
                proof {
                    reveal_strlit("ф");
                }
                "ф"
            },
            Utf8Letter::Kh => {
                proof {
                    reveal_strlit("х");
                }
                "х"
            },
            Utf8Letter::Ts => {
                proof {
                    reveal_strlit("ц");
                }
                "ц"
            },
            Utf8Letter::Ch => {
                proof {
                    reveal_strlit("ч");
                }
                "ч"
            },
            Utf8Letter::Sh => {
                proof {
                    reveal_strlit("ш");
                }
                "ш"
            },
            Utf8Letter::Shch => {
                proof {
                    reveal_strlit("щ");
                }
                "щ"
            },
            Utf8Letter::HardSign => {
                proof {
                    reveal_strlit("ъ");
                }
                "ъ"
            },
            Utf8Letter::Y => {
                proof {
                    reveal_strlit("ы");
                }
                "ы"
            },
            Utf8Letter::SoftSign => {
                proof {
                    reveal_strlit("ь");
                }
                "ь"
            },
            Utf8Letter::E => {
                proof {
                    reveal_strlit("э");
                }
                "э"
            },
            Utf8Letter::Yu => {
                proof {
                    reveal_strlit("ю");
                }
                "ю"
            },
            Utf8Letter::Ya => {
                proof {
                    reveal_strlit("я");
                }
                "я"
            },
            Utf8Letter::Yo => {
                proof {
                    reveal_strlit("ё");
                }
                "ё"
            },
        }
    }

    /// Returns this letter's scalar `char` value.
    pub fn to_char(self) -> (r: char)
        ensures
            r == self.spec_char(),
    {
        self.to_byte().to_char()
    }

    /// Returns this letter's uniquely identifiable last byte, as [`ByteLetter`].
    pub fn to_byte(self) -> (r: ByteLetter)
        ensures
            r == self.spec_byte(),
            r.spec_value() == self.spec_last_byte(),
    {
        match self {
            Utf8Letter::A => ByteLetter::A,
            Utf8Letter::B => ByteLetter::B,
            Utf8Letter::V => ByteLetter::V,
            Utf8Letter::G => ByteLetter::G,
            Utf8Letter::D => ByteLetter::D,
            Utf8Letter::Ye => ByteLetter::Ye,
            Utf8Letter::Zh => ByteLetter::Zh,
            Utf8Letter::Z => ByteLetter::Z,
            Utf8Letter::I => ByteLetter::I,
            Utf8Letter::Iy => ByteLetter::Iy,
            Utf8Letter::K => ByteLetter::K,
            Utf8Letter::L => ByteLetter::L,
            Utf8Letter::M => ByteLetter::M,
            Utf8Letter::N => ByteLetter::N,
            Utf8Letter::O => ByteLetter::O,
            Utf8Letter::P => ByteLetter::P,
            Utf8Letter::R => ByteLetter::R,
            Utf8Letter::S => ByteLetter::S,
            Utf8Letter::T => ByteLetter::T,
            Utf8Letter::U => ByteLetter::U,
            Utf8Letter::F => ByteLetter::F,
            Utf8Letter::Kh => ByteLetter::Kh,
            Utf8Letter::Ts => ByteLetter::Ts,
            Utf8Letter::Ch => ByteLetter::Ch,
            Utf8Letter::Sh => ByteLetter::Sh,
            Utf8Letter::Shch => ByteLetter::Shch,
            Utf8Letter::HardSign => ByteLetter::HardSign,
            Utf8Letter::Y => ByteLetter::Y,
            Utf8Letter::SoftSign => ByteLetter::SoftSign,
            Utf8Letter::E => ByteLetter::E,
            Utf8Letter::Yu => ByteLetter::Yu,
            Utf8Letter::Ya => ByteLetter::Ya,
            Utf8Letter::Yo => ByteLetter::Yo,
        }
    }

    /// Returns `true` if this letter is a vowel (one of `аеиоуыэюяё`).
    pub fn is_vowel(self) -> (r: bool)
        ensures
            r == self.spec_is_vowel(),
    {
        self.to_byte().is_vowel()
    }

    /// Returns `true` if this letter is a consonant (one of `бвгджзйклмнпрстфхцчшщ`).
    pub fn is_consonant(self) -> (r: bool)
        ensures
            r == self.spec_is_consonant(),
    {
        self.to_byte().is_consonant()
    }

    /// Returns `true` if this letter is a non-sibilant consonant (one of `бвгдзйклмнпрстфх`).
    pub fn is_non_sibilant_consonant(self) -> (r: bool)
        ensures
            r == self.spec_is_non_sibilant_consonant(),
    {
        self.to_byte().is_non_sibilant_consonant()
    }

    /// Returns `true` if this letter is a sibilant consonant (one of `жцчшщ`).
    pub fn is_sibilant(self) -> (r: bool)
        ensures
            r == self.spec_is_sibilant(),
    {
        self.to_byte().is_sibilant()
    }

    /// Returns `true` if this letter is a hissing sibilant consonant (one of `жчшщ`).
    pub fn is_hissing(self) -> (r: bool)
        ensures
            r == self.spec_is_hissing(),
    {
        self.to_byte().is_hissing()
    }

    /// Returns `true` if this letter is a sibilant consonant (one of `жцчшщ`), as
    /// [`is_sibilant`](Utf8Letter::is_sibilant) does.
    pub fn is_sibilant_consonant(self) -> (r: bool)
        ensures
            r == self.spec_is_sibilant(),
    {
        self.is_sibilant()
    }

    /// Returns `true` if this letter is a hissing sibilant consonant (one of `жчшщ`), as
    /// [`is_hissing`](Utf8Letter::is_hissing) does.
    pub fn is_hissing_consonant(self) -> (r: bool)
        ensures
            r == self.spec_is_hissing(),
    {
        self.is_hissing()
    }

    /// Returns `true` if this letter, when it is the last letter of a word with noun-type
    /// declension, is excluded from the word's stem (one of `аеийоуыьэюяё`).
    pub(crate) fn is_stem_trim_letter(self) -> (r: bool)
        ensures
            r == self.spec_is_stem_trim_letter(),
    {
        matches!(self, Utf8Letter::A | Utf8Letter::Ye | Utf8Letter::I | Utf8Letter::Iy | Utf8Letter::O | Utf8Letter::U | Utf8Letter::Y | Utf8Letter::SoftSign | Utf8Letter::E | Utf8Letter::Yu | Utf8Letter::Ya | Utf8Letter::Yo)
    }
}

impl ByteLetter {
    /// Returns the byte value of this letter.
    pub fn to_u8(self) -> (r: u8)
        ensures
            r == self.spec_value(),
    {
        match self {
            ByteLetter::A => 0xB0,
            ByteLetter::B => 0xB1,
            ByteLetter::V => 0xB2,
            ByteLetter::G => 0xB3,
            ByteLetter::D => 0xB4,
            ByteLetter::Ye => 0xB5,
            ByteLetter::Zh => 0xB6,
            ByteLetter::Z => 0xB7,
            ByteLetter::I => 0xB8,
            ByteLetter::Iy => 0xB9,
            ByteLetter::K => 0xBA,
            ByteLetter::L => 0xBB,
            ByteLetter::M => 0xBC,
            ByteLetter::N => 0xBD,
            ByteLetter::O => 0xBE,
            ByteLetter::P => 0xBF,
            ByteLetter::R => 0x80,
            ByteLetter::S => 0x81,
            ByteLetter::T => 0x82,
            ByteLetter::U => 0x83,
            ByteLetter::F => 0x84,
            ByteLetter::Kh => 0x85,
            ByteLetter::Ts => 0x86,
            ByteLetter::Ch => 0x87,
            ByteLetter::Sh => 0x88,
            ByteLetter::Shch => 0x89,
            ByteLetter::HardSign => 0x8A,
            ByteLetter::Y => 0x8B,
            ByteLetter::SoftSign => 0x8C,
            ByteLetter::E => 0x8D,
            ByteLetter::Yu => 0x8E,
            ByteLetter::Ya => 0x8F,
            ByteLetter::Yo => 0x91,
        }
    }

    /// Constructs a `ByteLetter` from UTF-8 bytes. Returns `None` if the bytes do not encode
    /// a lowercase Russian letter.
    pub fn from_utf8(utf8: [u8; 2]) -> (r: Option<Self>)
        ensures
            r is Some <==> is_lowercase_russian_utf8(utf8[0], utf8[1]),
            r matches Some(b) ==> b.spec_letter().spec_lead_byte() == utf8[0] && b.spec_value() == utf8[1],
    {
        let lead = utf8[0];
        let last = utf8[1];
        if lead == 0xD0 {
            match last {
                0xB0 => Some(ByteLetter::A),
                0xB1 => Some(ByteLetter::B),
                0xB2 => Some(ByteLetter::V),
                0xB3 => Some(ByteLetter::G),
                0xB4 => Some(ByteLetter::D),
                0xB5 => Some(ByteLetter::Ye),
                0xB6 => Some(ByteLetter::Zh),
                0xB7 => Some(ByteLetter::Z),
                0xB8 => Some(ByteLetter::I),
                0xB9 => Some(ByteLetter::Iy),
                0xBA => Some(ByteLetter::K),
                0xBB => Some(ByteLetter::L),
                0xBC => Some(ByteLetter::M),
                0xBD => Some(ByteLetter::N),
                0xBE => Some(ByteLetter::O),
                0xBF => Some(ByteLetter::P),
                _ => None,
            }
        } else if lead == 0xD1 {
            match last {
                0x80 => Some(ByteLetter::R),
                0x81 => Some(ByteLetter::S),
                0x82 => Some(ByteLetter::T),
                0x83 => Some(ByteLetter::U),
                0x84 => Some(ByteLetter::F),
                0x85 => Some(ByteLetter::Kh),
                0x86 => Some(ByteLetter::Ts),
                0x87 => Some(ByteLetter::Ch),
                0x88 => Some(ByteLetter::Sh),
                0x89 => Some(ByteLetter::Shch),
                0x8A => Some(ByteLetter::HardSign),
                0x8B => Some(ByteLetter::Y),
                0x8C => Some(ByteLetter::SoftSign),
                0x8D => Some(ByteLetter::E),
                0x8E => Some(ByteLetter::Yu),
                0x8F => Some(ByteLetter::Ya),
                0x91 => Some(ByteLetter::Yo),
                _ => None,
            }
        } else {
            None
        }
    }

    /// Constructs a `ByteLetter` from a `char`. Returns `None` if it's not a lowercase
    /// Russian letter.
    pub fn from_char(ch: char) -> (r: Option<Self>)
        ensures
            r is Some <==> is_lowercase_russian_char(ch),
            r matches Some(b) ==> b.spec_letter().spec_char() == ch,
    {
        match Utf8Letter::from_char(ch) {
            Some(l) => Some(l.to_byte()),
            None => None,
        }
    }

    /// Returns the full letter, as [`Utf8Letter`].
    pub fn to_utf8(self) -> (r: Utf8Letter)
        ensures
            r == self.spec_letter(),
    {
        match self {
            ByteLetter::A => Utf8Letter::A,
            ByteLetter::B => Utf8Letter::B,
            ByteLetter::V => Utf8Letter::V,
            ByteLetter::G => Utf8Letter::G,
            ByteLetter::D => Utf8Letter::D,
            ByteLetter::Ye => Utf8Letter::Ye,
            ByteLetter::Zh => Utf8Letter::Zh,
            ByteLetter::Z => Utf8Letter::Z,
            ByteLetter::I => Utf8Letter::I,
            ByteLetter::Iy => Utf8Letter::Iy,
            ByteLetter::K => Utf8Letter::K,
            ByteLetter::L => Utf8Letter::L,
            ByteLetter::M => Utf8Letter::M,
            ByteLetter::N => Utf8Letter::N,
            ByteLetter::O => Utf8Letter::O,
            ByteLetter::P => Utf8Letter::P,
            ByteLetter::R => Utf8Letter::R,
            ByteLetter::S => Utf8Letter::S,
            ByteLetter::T => Utf8Letter::T,
            ByteLetter::U => Utf8Letter::U,
            ByteLetter::F => Utf8Letter::F,
            ByteLetter::Kh => Utf8Letter::Kh,
            ByteLetter::Ts => Utf8Letter::Ts,
            ByteLetter::Ch => Utf8Letter::Ch,
            ByteLetter::Sh => Utf8Letter::Sh,
            ByteLetter::Shch => Utf8Letter::Shch,
            ByteLetter::HardSign => Utf8Letter::HardSign,
            ByteLetter::Y => Utf8Letter::Y,
            ByteLetter::SoftSign => Utf8Letter::SoftSign,
            ByteLetter::E => Utf8Letter::E,
            ByteLetter::Yu => Utf8Letter::Yu,
            ByteLetter::Ya => Utf8Letter::Ya,
            ByteLetter::Yo => Utf8Letter::Yo,
        }
    }

    /// Returns this letter's scalar `char` value.
    pub fn to_char(self) -> (r: char)
        ensures
            r == self.spec_letter().spec_char(),
    {
        match self {
            ByteLetter::A => 'а',
            ByteLetter::B => 'б',
            ByteLetter::V => 'в',
            ByteLetter::G => 'г',
            ByteLetter::D => 'д',
            ByteLetter::Ye => 'е',
            ByteLetter::Zh => 'ж',
            ByteLetter::Z => 'з',
            ByteLetter::I => 'и',
            ByteLetter::Iy => 'й',
            ByteLetter::K => 'к',
            ByteLetter::L => 'л',
            ByteLetter::M => 'м',
            ByteLetter::N => 'н',
            ByteLetter::O => 'о',
            ByteLetter::P => 'п',
            ByteLetter::R => 'р',
            ByteLetter::S => 'с',
            ByteLetter::T => 'т',
            ByteLetter::U => 'у',
            ByteLetter::F => 'ф',
            ByteLetter::Kh => 'х',
            ByteLetter::Ts => 'ц',
            ByteLetter::Ch => 'ч',
            ByteLetter::Sh => 'ш',
            ByteLetter::Shch => 'щ',
            ByteLetter::HardSign => 'ъ',
            ByteLetter::Y => 'ы',
            ByteLetter::SoftSign => 'ь',
            ByteLetter::E => 'э',
            ByteLetter::Yu => 'ю',
            ByteLetter::Ya => 'я',
            ByteLetter::Yo => 'ё',
        }
    }

    /// Returns `true` if this letter is a vowel (one of `аеиоуыэюяё`).
    pub fn is_vowel(self) -> (r: bool)
        ensures
            r == self.spec_letter().spec_is_vowel(),
    {
        matches!(self, ByteLetter::A | ByteLetter::Ye | ByteLetter::I | ByteLetter::O | ByteLetter::U | ByteLetter::Y | ByteLetter::E | ByteLetter::Yu | ByteLetter::Ya | ByteLetter::Yo)
    }

    /// Returns `true` if this letter is a consonant (one of `бвгджзйклмнпрстфхцчшщ`).
    pub fn is_consonant(self) -> (r: bool)
        ensures
            r == self.spec_letter().spec_is_consonant(),
    {
        matches!(self, ByteLetter::B | ByteLetter::V | ByteLetter::G | ByteLetter::D | ByteLetter::Zh | ByteLetter::Z | ByteLetter::Iy | ByteLetter::K | ByteLetter::L | ByteLetter::M | ByteLetter::N | ByteLetter::P | ByteLetter::R | ByteLetter::S | ByteLetter::T | ByteLetter::F | ByteLetter::Kh | ByteLetter::Ts | ByteLetter::Ch | ByteLetter::Sh | ByteLetter::Shch)
    }

    /// Returns `true` if this letter is a non-sibilant consonant (one of `бвгдзйклмнпрстфх`).
    pub fn is_non_sibilant_consonant(self) -> (r: bool)
        ensures
            r == self.spec_letter().spec_is_non_sibilant_consonant(),
    {
        matches!(self, ByteLetter::B | ByteLetter::V | ByteLetter::G | ByteLetter::D | ByteLetter::Z | ByteLetter::Iy | ByteLetter::K | ByteLetter::L | ByteLetter::M | ByteLetter::N | ByteLetter::P | ByteLetter::R | ByteLetter::S | ByteLetter::T | ByteLetter::F | ByteLetter::Kh)
    }

    /// Returns `true` if this letter is a sibilant consonant (one of `жцчшщ`).
    pub fn is_sibilant(self) -> (r: bool)
        ensures
            r == self.spec_letter().spec_is_sibilant(),
    {
        matches!(self, ByteLetter::Zh | ByteLetter::Ts | ByteLetter::Ch | ByteLetter::Sh | ByteLetter::Shch)
    }

    /// Returns `true` if this letter is a hissing sibilant consonant (one of `жчшщ`).
    pub fn is_hissing(self) -> (r: bool)
        ensures
            r == self.spec_letter().spec_is_hissing(),
    {
        matches!(self, ByteLetter::Zh | ByteLetter::Ch | ByteLetter::Sh | ByteLetter::Shch)
    }

    /// Returns `true` if this letter is a sibilant consonant (one of `жцчшщ`), as
    /// [`is_sibilant`](ByteLetter::is_sibilant) does.
    pub fn is_sibilant_consonant(self) -> (r: bool)
        ensures
            r == self.spec_letter().spec_is_sibilant(),
    {
        self.is_sibilant()
    }

    /// Returns `true` if this letter is a hissing sibilant consonant (one of `жчшщ`), as
    /// [`is_hissing`](ByteLetter::is_hissing) does.
    pub fn is_hissing_consonant(self) -> (r: bool)
        ensures
            r == self.spec_letter().spec_is_hissing(),
    {
        self.is_hissing()
    }

}
/// The letter that a lowercase Russian character stands for (`а` for any other character).
pub open spec fn spec_letter_of_char(ch: char) -> Utf8Letter {
    if ch == 'а' {
        Utf8Letter::A
    } else if ch == 'б' {
        Utf8Letter::B
    } else if ch == 'в' {
        Utf8Letter::V
    } else if ch == 'г' {
        Utf8Letter::G
    } else if ch == 'д' {
        Utf8Letter::D
    } else if ch == 'е' {
        Utf8Letter::Ye
    } else if ch == 'ж' {
        Utf8Letter::Zh
    } else if ch == 'з' {
        Utf8Letter::Z
    } else if ch == 'и' {
        Utf8Letter::I
    } else if ch == 'й' {
        Utf8Letter::Iy
    } else if ch == 'к' {
        Utf8Letter::K
    } else if ch == 'л' {
        Utf8Letter::L
    } else if ch == 'м' {
        Utf8Letter::M
    } else if ch == 'н' {
        Utf8Letter::N
    } else if ch == 'о' {
        Utf8Letter::O
    } else if ch == 'п' {
        Utf8Letter::P
    } else if ch == 'р' {
        Utf8Letter::R
    } else if ch == 'с' {
        Utf8Letter::S
    } else if ch == 'т' {
        Utf8Letter::T
    } else if ch == 'у' {
        Utf8Letter::U
    } else if ch == 'ф' {
        Utf8Letter::F
    } else if ch == 'х' {
        Utf8Letter::Kh
    } else if ch == 'ц' {
        Utf8Letter::Ts
    } else if ch == 'ч' {
        Utf8Letter::Ch
    } else if ch == 'ш' {
        Utf8Letter::Sh
    } else if ch == 'щ' {
        Utf8Letter::Shch
    } else if ch == 'ъ' {
        Utf8Letter::HardSign
    } else if ch == 'ы' {
        Utf8Letter::Y
    } else if ch == 'ь' {
        Utf8Letter::SoftSign
    } else if ch == 'э' {
        Utf8Letter::E
    } else if ch == 'ю' {
        Utf8Letter::Yu
    } else if ch == 'я' {
        Utf8Letter::Ya
    } else if ch == 'ё' {
        Utf8Letter::Yo
    } else {
        Utf8Letter::A
    }
}

/// The letters that a string of lowercase Russian characters stands for.
pub open spec fn letters_of_chars(s: Seq<char>) -> Seq<Utf8Letter> {
    s.map_values(|c: char| spec_letter_of_char(c))
}

/// The characters of a sequence of letters.
pub open spec fn letters_to_chars(s: Seq<Utf8Letter>) -> Seq<char> {
    s.map_values(|l: Utf8Letter| l.spec_char())
}

/// The UTF-8 bytes of a sequence of letters: two bytes per letter.
pub open spec fn letters_to_bytes(s: Seq<Utf8Letter>) -> Seq<u8> {
    Seq::new(
        2 * s.len(),
        |i: int|
            if i % 2 == 0 {
                s[i / 2].spec_lead_byte()
            } else {
                s[i / 2].spec_last_byte()
            },
    )
}

/// Returns the UTF-8 bytes of a slice of letters.
pub fn letters_as_bytes(s: &[Utf8Letter]) -> (r: Vec<u8>)
    ensures
        r@ == letters_to_bytes(s@),
{
    let mut r: Vec<u8> = Vec::new();
    let mut i: usize = 0;
    while i < s.len()
        invariant
            i <= s.len(),
            r@ == letters_to_bytes(s@.take(i as int)),
        decreases s.len() - i,
    {
        let bytes = s[i].to_utf8();
        r.push(bytes[0]);
        r.push(bytes[1]);
        i = i + 1;
        assert(r@ =~= letters_to_bytes(s@.take(i as int)));
    }
    assert(s@.take(i as int) =~= s@);
    r
}

/// Returns a slice of letters as a string.
pub fn letters_as_str(s: &[Utf8Letter]) -> (r: String)
    ensures
        r@ == letters_to_chars(s@),
{
    let mut r = String::new();
    let mut i: usize = 0;
    while i < s.len()
        invariant
            i <= s.len(),
            r@ == letters_to_chars(s@.take(i as int)),
        decreases s.len() - i,
    {
        crate::text::push_char(&mut r, s[i].to_char());
        i = i + 1;
        assert(r@ =~= letters_to_chars(s@.take(i as int)));
    }
    assert(s@.take(i as int) =~= s@);
    r
}


/// A letter's character is a lowercase Russian letter, which stands for the letter.
pub proof fn lemma_letter_char(l: Utf8Letter)
    ensures
        is_lowercase_russian_char(l.spec_char()),
        spec_letter_of_char(l.spec_char()) == l,
{
}

/// The characters of letters are lowercase Russian letters, which stand for the letters.
pub proof fn lemma_letters_chars(s: Seq<Utf8Letter>)
    ensures
        letters_to_chars(s).len() == s.len(),
        forall|i: int| 0 <= i < s.len() ==> is_lowercase_russian_char(#[trigger] letters_to_chars(s)[i]),
        letters_of_chars(letters_to_chars(s)) == s,
{
    assert forall|i: int| 0 <= i < s.len() implies is_lowercase_russian_char(#[trigger] letters_to_chars(s)[i]) by {
        lemma_letter_char(s[i]);
    }
    assert forall|i: int| 0 <= i < s.len() implies letters_of_chars(letters_to_chars(s))[i] == s[i] by {
        lemma_letter_char(s[i]);
    }
    assert(letters_of_chars(letters_to_chars(s)) =~= s);
}

/// A letter's bytes are the UTF-8 encoding of its character (a lead byte `0xD0` or `0xD1`
/// and a continuation byte), and the byte letter of a letter stands for it and holds its last
/// byte.
pub proof fn law_letter_encoding(l: Utf8Letter)
    ensures
        l.spec_char() as u32 == (l.spec_lead_byte() as u32 - 0xC0) * 64 + (l.spec_last_byte()
            as u32 - 0x80),
        0x80 <= l.spec_last_byte() < 0xC0,
        l.spec_byte().spec_value() == l.spec_last_byte(),
        l.spec_byte().spec_letter() == l,
{
}

/// A byte letter stands for the letter whose last byte it holds.
pub proof fn law_byte_letter_encoding(b: ByteLetter)
    ensures
        b.spec_letter().spec_byte() == b,
        b.spec_letter().spec_last_byte() == b.spec_value(),
{
}

/// The classes of letters, by their characters: the vowels are а е и о у ы э ю я ё; the
/// consonants б в г д ж з й к л м н п р с т ф х ц ч ш щ; the sibilants ж ц ч ш щ, of which
/// all but ц are hissing; the non-sibilant consonants are the other consonants; ъ and ь are
/// neither vowels nor consonants. A noun's stem leaves out a final vowel, й or ь.
pub proof fn law_letter_classes(l: Utf8Letter)
    ensures
        ({
            let c = l.spec_char();
            &&& l.spec_is_vowel() == (c == 'а' || c == 'е' || c == 'и' || c == 'о' ||
                c == 'у' || c == 'ы' || c == 'э' || c == 'ю' || c == 'я' || c == 'ё')
            &&& l.spec_is_consonant() == (c == 'б' || c == 'в' || c == 'г' || c == 'д' ||
                c == 'ж' || c == 'з' || c == 'й' || c == 'к' || c == 'л' || c == 'м' ||
                c == 'н' || c == 'п' || c == 'р' || c == 'с' || c == 'т' || c == 'ф' ||
                c == 'х' || c == 'ц' || c == 'ч' || c == 'ш' || c == 'щ')
            &&& l.spec_is_sibilant() == (c == 'ж' || c == 'ц' || c == 'ч' || c == 'ш' || c == 'щ')
            &&& l.spec_is_hissing() == (c == 'ж' || c == 'ч' || c == 'ш' || c == 'щ')
            &&& l.spec_is_non_sibilant_consonant() == (l.spec_is_consonant()
                && !l.spec_is_sibilant())
            &&& (!l.spec_is_vowel() && !l.spec_is_consonant()) == (c == 'ъ' || c == 'ь')
            &&& l.spec_is_stem_trim_letter() == (l.spec_is_vowel() || c == 'й' || c == 'ь')
        }),
{
}

} // verus!
