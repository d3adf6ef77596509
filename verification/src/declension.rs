//! Word declension: stem types, declension flags, and the declensions of nouns, pronouns and
//! adjectives, each made of a stem type, a stress schema and flags.

use crate::letter::Utf8Letter;
use crate::parser::{spec_peek, UnsafeParser};
use crate::stress::{
    law_adjective_stress_round_trip, law_stress_conversions_round_trip, lemma_parse_dual_at_fmt,
    spec_adjective_stress, spec_is_prime_char, spec_parse_dual_at,
    AdjectiveFullStress, AdjectiveShortStress, AdjectiveStress, AnyDualStress, NounStress,
    ParseStressError, PronounStress, VerbPastStress, VerbPresentStress,
};
use crate::text::push_char;
use crate::word::WordBuf;
use vstd::prelude::*;

verus! {

/// Error type for parsing stem types.
#[derive(Debug, Clone, Copy, PartialEq, Eq, Structural, Hash)]
pub enum ParseStemTypeError {
    /// The digit is not compatible with the specified stem type.
    IncompatibleDigit,
    /// Invalid format.
    Invalid,
}

/// Error type for conversion to [`AnyStemType`]: words can only have stem types 1 through 8.
#[derive(Debug, Clone, Copy, PartialEq, Eq, Structural, Hash, Default)]
pub struct AnyStemTypeError;

/// Error type for conversion to [`NounStemType`]: nouns can only have stem types 1 through 8.
#[derive(Debug, Clone, Copy, PartialEq, Eq, Structural, Hash, Default)]
pub struct NounStemTypeError;

/// Error type for conversion to [`PronounStemType`]: pronouns can only have stem types 1, 2, 4
/// and 6.
#[derive(Debug, Clone, Copy, PartialEq, Eq, Structural, Hash, Default)]
pub struct PronounStemTypeError;

/// Error type for conversion to [`AdjectiveStemType`]: adjectives can only have stem types 1
/// through 6.
#[derive(Debug, Clone, Copy, PartialEq, Eq, Structural, Hash, Default)]
pub struct AdjectiveStemTypeError;

/// The ASCII character of a digit 0-9.
pub open spec fn spec_digit_char(d: u8) -> char {
    (0x30 + d) as char
}

/// Returns the ASCII character of a digit 0-9.
fn digit_char(d: u8) -> (r: char)
    requires
        d <= 9,
    ensures
        r == spec_digit_char(d),
{
    match d {
        0 => '0',
        1 => '1',
        2 => '2',
        3 => '3',
        4 => '4',
        5 => '5',
        6 => '6',
        7 => '7',
        8 => '8',
        _ => '9',
    }
}

/// The digit value of an ASCII digit character.
pub open spec fn spec_char_digit(c: char) -> Option<u8> {
    if '0' <= c <= '9' {
        Some((c as u32 - 0x30) as u8)
    } else {
        None
    }
}

/// Returns the digit value of an ASCII digit character.
fn char_digit(c: char) -> (r: Option<u8>)
    ensures
        r == spec_char_digit(c),
{
    match c {
        '0' => Some(0),
        '1' => Some(1),
        '2' => Some(2),
        '3' => Some(3),
        '4' => Some(4),
        '5' => Some(5),
        '6' => Some(6),
        '7' => Some(7),
        '8' => Some(8),
        '9' => Some(9),
        _ => None,
    }
}

/// Parses a string of exactly one ASCII digit.
fn parse_single_digit(s: &str) -> (r: Option<u8>)
    ensures
        r == (if s@.len() == 1 {
            spec_char_digit(s@[0])
        } else {
            None
        }),
{
    if s.unicode_len() == 1 {
        char_digit(s.get_char(0))
    } else {
        None
    }
}

/// A stem type parsed from a string of one digit, with `from_digit` giving the stem type of a
/// digit.
pub open spec fn spec_parse_stem_type<T>(s: Seq<char>, from_digit: spec_fn(u8) -> Option<T>) -> Result<T, ParseStemTypeError> {
    if s.len() == 1 && spec_char_digit(s[0]) is Some {
        match from_digit(spec_char_digit(s[0]).unwrap()) {
            Some(x) => Ok(x),
            None => Err(ParseStemTypeError::IncompatibleDigit),
        }
    } else {
        Err(ParseStemTypeError::Invalid)
    }
}

/// Declension flags: the circle (°), the star (*), the circled digits ①, ② and ③, and the
/// alternating ё (`, ё`).
#[derive(Debug, Clone, Copy, PartialEq, Eq, Structural, Hash, Default)]
pub struct DeclensionFlags {
    /// The circle flag (°): a unique stem alternation.
    pub circle: bool,
    /// The star flag (*): a vowel alternation.
    pub star: bool,
    /// The circled one flag (①): plural nominative ending of another gender.
    pub circled_one: bool,
    /// The circled two flag (②): plural genitive ending of another gender.
    pub circled_two: bool,
    /// The circled three flag (③): singular endings of stem type 6 in place of type 7.
    pub circled_three: bool,
    /// The alternating ё flag (`, ё`).
    pub alternating_yo: bool,
}

impl DeclensionFlags {
    /// The flags with each of the six flags set where both operands have it.
    pub open spec fn spec_union(self, other: DeclensionFlags) -> DeclensionFlags {
        DeclensionFlags {
            circle: self.circle || other.circle,
            star: self.star || other.star,
            circled_one: self.circled_one || other.circled_one,
            circled_two: self.circled_two || other.circled_two,
            circled_three: self.circled_three || other.circled_three,
            alternating_yo: self.alternating_yo || other.alternating_yo,
        }
    }

    /// No flags.
    pub open spec fn spec_empty() -> DeclensionFlags {
        DeclensionFlags {
            circle: false,
            star: false,
            circled_one: false,
            circled_two: false,
            circled_three: false,
            alternating_yo: false,
        }
    }

    /// Returns no flags.
    pub fn empty() -> (r: DeclensionFlags)
        ensures
            r == DeclensionFlags::spec_empty(),
    {
        DeclensionFlags {
            circle: false,
            star: false,
            circled_one: false,
            circled_two: false,
            circled_three: false,
            alternating_yo: false,
        }
    }

    /// Returns all six flags.
    pub fn all() -> (r: DeclensionFlags)
        ensures
            r == (DeclensionFlags {
                circle: true,
                star: true,
                circled_one: true,
                circled_two: true,
                circled_three: true,
                alternating_yo: true,
            }),
    {
        DeclensionFlags {
            circle: true,
            star: true,
            circled_one: true,
            circled_two: true,
            circled_three: true,
            alternating_yo: true,
        }
    }

    /// Returns the flags set in either `self` or `other`.
    pub fn union(self, other: DeclensionFlags) -> (r: DeclensionFlags)
        ensures
            r == self.spec_union(other),
    {
        DeclensionFlags {
            circle: self.circle || other.circle,
            star: self.star || other.star,
            circled_one: self.circled_one || other.circled_one,
            circled_two: self.circled_two || other.circled_two,
            circled_three: self.circled_three || other.circled_three,
            alternating_yo: self.alternating_yo || other.alternating_yo,
        }
    }

    /// Returns `true` if the circle flag (°) is set.
    pub fn has_circle(self) -> (r: bool)
        ensures
            r == self.circle,
    {
        self.circle
    }

    /// Returns `true` if the star flag (*) is set.
    pub fn has_star(self) -> (r: bool)
        ensures
            r == self.star,
    {
        self.star
    }

    /// Returns `true` if the circled one flag (①) is set.
    pub fn has_circled_one(self) -> (r: bool)
        ensures
            r == self.circled_one,
    {
        self.circled_one
    }

    /// Returns `true` if the circled two flag (②) is set.
    pub fn has_circled_two(self) -> (r: bool)
        ensures
            r == self.circled_two,
    {
        self.circled_two
    }

    /// Returns `true` if the circled three flag (③) is set.
    pub fn has_circled_three(self) -> (r: bool)
        ensures
            r == self.circled_three,
    {
        self.circled_three
    }

    /// Returns `true` if the alternating ё flag is set.
    pub fn has_alternating_yo(self) -> (r: bool)
        ensures
            r == self.alternating_yo,
    {
        self.alternating_yo
    }

    /// `true` if any of the circled digits ①, ② and ③ is set.
    pub open spec fn spec_has_any_circled_digits(self) -> bool {
        self.circled_one || self.circled_two || self.circled_three
    }

    /// Returns `true` if the circle or the star flag is set: the flags written before the stress.
    pub fn has_any_leading_flags(self) -> (r: bool)
        ensures
            r == (self.circle || self.star),
    {
        self.circle || self.star
    }

    /// Returns `true` if any of the circled digits ①, ② and ③ is set.
    pub fn has_any_circled_digits(self) -> (r: bool)
        ensures
            r == self.spec_has_any_circled_digits(),
    {
        self.circled_one || self.circled_two || self.circled_three
    }

    /// Returns `true` if any flag written after the stress is set: a circled digit or the
    /// alternating ё.
    pub fn has_any_trailing_flags(self) -> (r: bool)
        ensures
            r == (self.spec_has_any_circled_digits() || self.alternating_yo),
    {
        self.has_any_circled_digits() || self.alternating_yo
    }

    /// The flag of a circled digit 1-3.
    pub open spec fn spec_circled_digit(digit: u8) -> Option<DeclensionFlags> {
        if 1 <= digit <= 3 {
            Some(DeclensionFlags {
                circled_one: digit == 1,
                circled_two: digit == 2,
                circled_three: digit == 3,
                ..DeclensionFlags::spec_empty()
            })
        } else {
            None
        }
    }

    /// Returns the flag of the circled digit ①, ② or ③, or `None` for any other digit.
    pub fn circled_digit(digit: u8) -> (r: Option<DeclensionFlags>)
        ensures
            r == DeclensionFlags::spec_circled_digit(digit),
    {
        if 1 <= digit && digit <= 3 {
            let mut f = DeclensionFlags::empty();
            f.circled_one = digit == 1;
            f.circled_two = digit == 2;
            f.circled_three = digit == 3;
            Some(f)
        } else {
            None
        }
    }

    /// The text of the leading flags: ° and then *.
    pub open spec fn spec_fmt_leading(self) -> Seq<char> {
        (if self.circle { seq!['°'] } else { Seq::<char>::empty() })
            + (if self.star { seq!['*'] } else { Seq::<char>::empty() })
    }

    /// The text of the trailing flags: ①, ② and ③, and then `, ё`.
    pub open spec fn spec_fmt_trailing(self) -> Seq<char> {
        (if self.circled_one { seq!['①'] } else { Seq::<char>::empty() })
            + (if self.circled_two { seq!['②'] } else { Seq::<char>::empty() })
            + (if self.circled_three { seq!['③'] } else { Seq::<char>::empty() })
            + (if self.alternating_yo { seq![',', ' ', 'ё'] } else { Seq::<char>::empty() })
    }

    /// The text of all flags: the leading flags, then the trailing ones.
    pub open spec fn spec_fmt(self) -> Seq<char> {
        self.spec_fmt_leading() + self.spec_fmt_trailing()
    }

    /// Appends the leading flags' text to `dst`: ° and then *.
    pub fn fmt_leading_to(self, dst: &mut String)
        ensures
            final(dst)@ == old(dst)@ + self.spec_fmt_leading(),
    {
        if self.circle {
            push_char(dst, '°');
        }
        if self.star {
            push_char(dst, '*');
        }
        assert(dst@ =~= old(dst)@ + self.spec_fmt_leading());
    }

    /// Appends the trailing flags' text to `dst`: ①, ② and ③, and then `, ё`.
    pub fn fmt_trailing_to(self, dst: &mut String)
        ensures
            final(dst)@ == old(dst)@ + self.spec_fmt_trailing(),
    {
        if self.circled_one {
            push_char(dst, '①');
        }
        if self.circled_two {
            push_char(dst, '②');
        }
        if self.circled_three {
            push_char(dst, '③');
        }
        if self.alternating_yo {
            push_char(dst, ',');
            push_char(dst, ' ');
            push_char(dst, 'ё');
        }
        assert(dst@ =~= old(dst)@ + self.spec_fmt_trailing());
    }

    /// Appends the text of the flags to `dst`, such as `°*①②③, ё`.
    pub fn fmt_to(self, dst: &mut String)
        ensures
            final(dst)@ == old(dst)@ + self.spec_fmt(),
    {
        self.fmt_leading_to(dst);
        self.fmt_trailing_to(dst);
        assert(dst@ =~= old(dst)@ + self.spec_fmt());
    }

    /// Returns the text of the flags, such as `°*①②③, ё`.
    pub fn to_string(&self) -> (r: String)
        ensures
            r@ == self.spec_fmt(),
    {
        let mut s = String::new();
        self.fmt_to(&mut s);
        assert(s@ =~= self.spec_fmt());
        s
    }
}

/// Error type for parsing declensions.
#[derive(Debug, Clone, Copy, PartialEq, Eq, Structural, Hash)]
pub enum ParseDeclensionError {
    /// Invalid character in place of the stem type.
    InvalidStemType,
    /// Error parsing the stress.
    InvalidStress(ParseStressError),
    /// Invalid combination or order of flags.
    InvalidFlags,
    /// The stem type is not compatible with the specified type.
    IncompatibleStemType,
    /// The stress is not compatible with the specified type.
    IncompatibleStress,
    /// The flags are not compatible with the specified type.
    IncompatibleFlags,
    /// Invalid format.
    Invalid,
}

/// The leading flags ° and * at `pos`, added to `flags`, and the position after them.
pub open spec fn spec_parse_leading_at(s: Seq<char>, pos: int, flags: DeclensionFlags) -> (DeclensionFlags, int) {
    let circle = spec_peek(s, pos) == Some('°');
    let p1 = if circle { pos + 1 } else { pos };
    let star = spec_peek(s, p1) == Some('*');
    let p2 = if star { p1 + 1 } else { p1 };
    (DeclensionFlags { circle: flags.circle || circle, star: flags.star || star, ..flags }, p2)
}

/// The circled digit written at `pos` (as ①, ② and ③, or as `(1)`, `(2)` and `(3)`), and the
/// number of characters it takes.
pub open spec fn spec_circled_digit_at(s: Seq<char>, pos: int) -> Option<(u8, int)> {
    let c = spec_peek(s, pos);
    let paren = spec_peek(s, pos) == Some('(') && spec_peek(s, pos + 2) == Some(')');
    let d = spec_peek(s, pos + 1);
    if c == Some('①') {
        Some((1u8, 1))
    } else if c == Some('②') {
        Some((2u8, 1))
    } else if c == Some('③') {
        Some((3u8, 1))
    } else if paren && d == Some('1') {
        Some((1u8, 3))
    } else if paren && d == Some('2') {
        Some((2u8, 3))
    } else if paren && d == Some('3') {
        Some((3u8, 3))
    } else {
        None
    }
}

/// The circled digits from `pos` on, each greater than the one before it (the first greater
/// than `last`), added to `flags`, and the position after them.
pub open spec fn spec_parse_digits_from(s: Seq<char>, pos: int, last: u8, flags: DeclensionFlags) -> Result<(DeclensionFlags, int), ParseDeclensionError>
    decreases s.len() - pos,
{
    match spec_circled_digit_at(s, pos) {
        None => Ok((flags, pos)),
        Some((d, len)) => if d <= last {
            Err(ParseDeclensionError::InvalidFlags)
        } else {
            spec_parse_digits_from(
                s,
                pos + len,
                d,
                flags.spec_union(DeclensionFlags::spec_circled_digit(d).unwrap()),
            )
        },
    }
}

/// `, ё` is written at `pos`.
pub open spec fn spec_yo_at(s: Seq<char>, pos: int) -> bool {
    spec_peek(s, pos) == Some(',') && spec_peek(s, pos + 1) == Some(' ') && spec_peek(s, pos + 2)
        == Some('ё')
}

/// The trailing flags at `pos` (circled digits in increasing order, then `, ё`), added to
/// `flags`, and the position after them.
pub open spec fn spec_parse_trailing_at(s: Seq<char>, pos: int, flags: DeclensionFlags) -> Result<(DeclensionFlags, int), ParseDeclensionError> {
    match spec_parse_digits_from(s, pos, 0, flags) {
        Err(e) => Err(e),
        Ok((f, p)) => if spec_yo_at(s, p) {
            Ok((DeclensionFlags { alternating_yo: true, ..f }, p + 3))
        } else {
            Ok((f, p))
        },
    }
}

/// Parses all flags at `pos`: the leading flags, then the trailing ones.
pub open spec fn spec_parse_flags_at(s: Seq<char>, pos: int) -> Result<(DeclensionFlags, int), ParseDeclensionError> {
    let (f, p) = spec_parse_leading_at(s, pos, DeclensionFlags::spec_empty());
    spec_parse_trailing_at(s, p, f)
}

/// Parses a whole string as declension flags.
pub open spec fn spec_parse_flags(s: Seq<char>) -> Result<DeclensionFlags, ParseDeclensionError> {
    match spec_parse_flags_at(s, 0) {
        Err(e) => Err(e),
        Ok((f, p)) => if p == s.len() {
            Ok(f)
        } else {
            Err(ParseDeclensionError::Invalid)
        },
    }
}

impl DeclensionFlags {
    /// Parses the leading flags ° and * at the parser's position, and adds them to `flags`.
    pub fn partial_from_str_leading(flags: &mut DeclensionFlags, parser: &mut UnsafeParser)
        ensures
            final(parser).chars() == old(parser).chars(),
            (*final(flags), final(parser).pos()) == spec_parse_leading_at(
                old(parser).chars(),
                old(parser).pos(),
                *old(flags),
            ),
    {
        if parser.skip('°') {
            flags.circle = true;
        }
        if parser.skip('*') {
            flags.star = true;
        }
    }

    /// Reads a circled digit at the parser's position, and gives it with its length.
    fn read_circled_digit(parser: &UnsafeParser) -> (r: Option<(u8, usize)>)
        ensures
            match spec_circled_digit_at(parser.chars(), parser.pos()) {
                Some((d, len)) => r == Some((d, len as usize)),
                None => r is None,
            },
    {
        let c = parser.peek_char();
        let d = parser.peek_at(1);
        let paren = c == Some('(') && parser.peek_at(2) == Some(')');
        if c == Some('①') {
            Some((1, 1))
        } else if c == Some('②') {
            Some((2, 1))
        } else if c == Some('③') {
            Some((3, 1))
        } else if paren && d == Some('1') {
            Some((1, 3))
        } else if paren && d == Some('2') {
            Some((2, 3))
        } else if paren && d == Some('3') {
            Some((3, 3))
        } else {
            None
        }
    }

    /// Parses the trailing flags at the parser's position (circled digits in increasing order,
    /// then `, ё`), and adds them to `flags`.
    pub fn partial_from_str_trailing(flags: &mut DeclensionFlags, parser: &mut UnsafeParser) -> (r: Result<(), ParseDeclensionError>)
        ensures
            final(parser).chars() == old(parser).chars(),
            match spec_parse_trailing_at(old(parser).chars(), old(parser).pos(), *old(flags)) {
                Ok((f, p)) => r is Ok && *final(flags) == f && final(parser).pos() == p,
                Err(e) => r == Err::<(), ParseDeclensionError>(e),
            },
    {
        let ghost s = parser.chars();
        let ghost total = spec_parse_digits_from(s, parser.pos(), 0, *flags);
        let mut last: u8 = 0;
        loop
            invariant
                parser.chars() == s,
                s == old(parser).chars(),
                total == spec_parse_digits_from(s, old(parser).pos(), 0, *old(flags)),
                spec_parse_digits_from(s, parser.pos(), last, *flags) == total,
            ensures
                total == Ok::<(DeclensionFlags, int), ParseDeclensionError>((*flags, parser.pos())),
                parser.chars() == s,
            decreases s.len() - parser.pos(),
        {
            match DeclensionFlags::read_circled_digit(parser) {
                None => break,
                Some((d, len)) => {
                    if d <= last {
                        return Err(ParseDeclensionError::InvalidFlags);
                    }
                    last = d;
                    match DeclensionFlags::circled_digit(d) {
                        Some(f) => {
                            *flags = flags.union(f);
                        },
                        None => {},
                    }
                    parser.forward(len);
                },
            }
        }
        let ghost p = parser.pos();
        proof {
            reveal_strlit(", ё");
        }
        if parser.skip_str(", ё") {
            assert(s.subrange(p, p + 3)[0] == s[p]);
            assert(s.subrange(p, p + 3)[1] == s[p + 1]);
            assert(s.subrange(p, p + 3)[2] == s[p + 2]);
            assert(spec_yo_at(s, p));
            flags.alternating_yo = true;
        } else {
            proof {
                if spec_yo_at(s, p) {
                    assert(s.subrange(p, p + 3) =~= ", ё"@);
                }
            }
        }
        Ok(())
    }

    /// Parses declension flags at the parser's position: the leading flags, then the trailing
    /// ones.
    pub fn partial_from_str(parser: &mut UnsafeParser) -> (r: Result<DeclensionFlags, ParseDeclensionError>)
        ensures
            final(parser).chars() == old(parser).chars(),
            match spec_parse_flags_at(old(parser).chars(), old(parser).pos()) {
                Ok((f, p)) => r == Ok::<DeclensionFlags, ParseDeclensionError>(f) && final(parser).pos() == p,
                Err(e) => r == Err::<DeclensionFlags, ParseDeclensionError>(e),
            },
    {
        let mut flags = DeclensionFlags::empty();
        DeclensionFlags::partial_from_str_leading(&mut flags, parser);
        match DeclensionFlags::partial_from_str_trailing(&mut flags, parser) {
            Ok(()) => Ok(flags),
            Err(e) => Err(e),
        }
    }

    /// Parses a string as declension flags, such as `°*①(2)③, ё`.
    pub fn parse_str(s: &str) -> (r: Result<DeclensionFlags, ParseDeclensionError>)
        ensures
            r == spec_parse_flags(s@),
    {
        let mut parser = UnsafeParser::new(s);
        match DeclensionFlags::partial_from_str(&mut parser) {
            Ok(f) => if parser.finished() {
                Ok(f)
            } else {
                Err(ParseDeclensionError::Invalid)
            },
            Err(e) => Err(e),
        }
    }
}

impl std::str::FromStr for DeclensionFlags {
    type Err = ParseDeclensionError;

    fn from_str(s: &str) -> (r: Result<DeclensionFlags, ParseDeclensionError>)
        ensures
            r == spec_parse_flags(s@),
    {
        DeclensionFlags::parse_str(s)
    }
}

/// Any word's stem type, 1 through 8.
#[derive(Debug, Clone, Copy, PartialEq, Eq, Structural, Hash)]
pub enum AnyStemType {
    /// Stem type 1.
    Type1,
    /// Stem type 2.
    Type2,
    /// Stem type 3.
    Type3,
    /// Stem type 4.
    Type4,
    /// Stem type 5.
    Type5,
    /// Stem type 6.
    Type6,
    /// Stem type 7.
    Type7,
    /// Stem type 8.
    Type8,
}

/// A noun's stem type, 1 through 8.
#[derive(Debug, Clone, Copy, PartialEq, Eq, Structural, Hash)]
pub enum NounStemType {
    /// Stem type 1.
    Type1,
    /// Stem type 2.
    Type2,
    /// Stem type 3.
    Type3,
    /// Stem type 4.
    Type4,
    /// Stem type 5.
    Type5,
    /// Stem type 6.
    Type6,
    /// Stem type 7.
    Type7,
    /// Stem type 8.
    Type8,
}

/// A pronoun's stem type: 1, 2, 4 or 6.
#[derive(Debug, Clone, Copy, PartialEq, Eq, Structural, Hash)]
pub enum PronounStemType {
    /// Stem type 1.
    Type1,
    /// Stem type 2.
    Type2,
    /// Stem type 4.
    Type4,
    /// Stem type 6.
    Type6,
}

/// An adjective's stem type, 1 through 6.
#[derive(Debug, Clone, Copy, PartialEq, Eq, Structural, Hash)]
pub enum AdjectiveStemType {
    /// Stem type 1.
    Type1,
    /// Stem type 2.
    Type2,
    /// Stem type 3.
    Type3,
    /// Stem type 4.
    Type4,
    /// Stem type 5.
    Type5,
    /// Stem type 6.
    Type6,
}

impl AnyStemType {
    /// The stem type with the digit, if there is one.
    pub open spec fn spec_from_digit(digit: u8) -> Option<AnyStemType> {
        if digit == 1 {
            Some(AnyStemType::Type1)
        } else if digit == 2 {
            Some(AnyStemType::Type2)
        } else if digit == 3 {
            Some(AnyStemType::Type3)
        } else if digit == 4 {
            Some(AnyStemType::Type4)
        } else if digit == 5 {
            Some(AnyStemType::Type5)
        } else if digit == 6 {
            Some(AnyStemType::Type6)
        } else if digit == 7 {
            Some(AnyStemType::Type7)
        } else if digit == 8 {
            Some(AnyStemType::Type8)
        } else {
            None
        }
    }

    /// The digit of this stem type.
    pub open spec fn spec_digit(self) -> u8 {
        match self {
            AnyStemType::Type1 => 1,
            AnyStemType::Type2 => 2,
            AnyStemType::Type3 => 3,
            AnyStemType::Type4 => 4,
            AnyStemType::Type5 => 5,
            AnyStemType::Type6 => 6,
            AnyStemType::Type7 => 7,
            AnyStemType::Type8 => 8,
        }
    }

    /// Converts a digit to a [`AnyStemType`].
    pub fn from_digit(digit: u8) -> (r: Option<AnyStemType>)
        ensures
            r == AnyStemType::spec_from_digit(digit),
    {
        match digit {
            1 => Some(AnyStemType::Type1),
            2 => Some(AnyStemType::Type2),
            3 => Some(AnyStemType::Type3),
            4 => Some(AnyStemType::Type4),
            5 => Some(AnyStemType::Type5),
            6 => Some(AnyStemType::Type6),
            7 => Some(AnyStemType::Type7),
            8 => Some(AnyStemType::Type8),
            _ => None,
        }
    }

    /// Converts an ASCII digit to a [`AnyStemType`].
    pub fn from_ascii_digit(ascii_digit: u8) -> (r: Option<AnyStemType>)
        requires
            ascii_digit >= 0x30,
        ensures
            r == AnyStemType::spec_from_digit((ascii_digit - 0x30) as u8),
    {
        AnyStemType::from_digit(ascii_digit - 0x30)
    }

    /// Returns the digit of this stem type.
    pub fn to_digit(self) -> (r: u8)
        ensures
            r == self.spec_digit(),
            1 <= r <= 8,
    {
        match self {
            AnyStemType::Type1 => 1,
            AnyStemType::Type2 => 2,
            AnyStemType::Type3 => 3,
            AnyStemType::Type4 => 4,
            AnyStemType::Type5 => 5,
            AnyStemType::Type6 => 6,
            AnyStemType::Type7 => 7,
            AnyStemType::Type8 => 8,
        }
    }

    /// Returns the ASCII digit of this stem type.
    pub fn to_ascii_digit(self) -> (r: u8)
        ensures
            r == 0x30 + self.spec_digit(),
    {
        0x30 + self.to_digit()
    }

    /// Returns the text of this stem type: its digit.
    pub fn to_string(&self) -> (r: String)
        ensures
            r@ == seq![spec_digit_char(self.spec_digit())],
    {
        let mut s = String::new();
        push_char(&mut s, digit_char(self.to_digit()));
        s
    }

    /// Parses a stem type from a string of one digit: a digit of no such stem type is
    /// [`ParseStemTypeError::IncompatibleDigit`], anything else [`ParseStemTypeError::Invalid`].
    pub fn parse_str(s: &str) -> (r: Result<AnyStemType, ParseStemTypeError>)
        ensures
            r == spec_parse_stem_type(s@, |d: u8| AnyStemType::spec_from_digit(d)),
    {
        match parse_single_digit(s) {
            Some(d) => match AnyStemType::from_digit(d) {
                Some(x) => Ok(x),
                None => Err(ParseStemTypeError::IncompatibleDigit),
            },
            None => Err(ParseStemTypeError::Invalid),
        }
    }
}

impl std::str::FromStr for AnyStemType {
    type Err = ParseStemTypeError;

    fn from_str(s: &str) -> (r: Result<AnyStemType, ParseStemTypeError>)
        ensures
            r == spec_parse_stem_type(s@, |d: u8| AnyStemType::spec_from_digit(d)),
    {
        AnyStemType::parse_str(s)
    }
}

impl NounStemType {
    /// The stem type with the digit, if there is one.
    pub open spec fn spec_from_digit(digit: u8) -> Option<NounStemType> {
        if digit == 1 {
            Some(NounStemType::Type1)
        } else if digit == 2 {
            Some(NounStemType::Type2)
        } else if digit == 3 {
            Some(NounStemType::Type3)
        } else if digit == 4 {
            Some(NounStemType::Type4)
        } else if digit == 5 {
            Some(NounStemType::Type5)
        } else if digit == 6 {
            Some(NounStemType::Type6)
        } else if digit == 7 {
            Some(NounStemType::Type7)
        } else if digit == 8 {
            Some(NounStemType::Type8)
        } else {
            None
        }
    }

    /// The digit of this stem type.
    pub open spec fn spec_digit(self) -> u8 {
        match self {
            NounStemType::Type1 => 1,
            NounStemType::Type2 => 2,
            NounStemType::Type3 => 3,
            NounStemType::Type4 => 4,
            NounStemType::Type5 => 5,
            NounStemType::Type6 => 6,
            NounStemType::Type7 => 7,
            NounStemType::Type8 => 8,
        }
    }

    /// Converts a digit to a [`NounStemType`].
    pub fn from_digit(digit: u8) -> (r: Option<NounStemType>)
        ensures
            r == NounStemType::spec_from_digit(digit),
    {
        match digit {
            1 => Some(NounStemType::Type1),
            2 => Some(NounStemType::Type2),
            3 => Some(NounStemType::Type3),
            4 => Some(NounStemType::Type4),
            5 => Some(NounStemType::Type5),
            6 => Some(NounStemType::Type6),
            7 => Some(NounStemType::Type7),
            8 => Some(NounStemType::Type8),
            _ => None,
        }
    }

    /// Converts an ASCII digit to a [`NounStemType`].
    pub fn from_ascii_digit(ascii_digit: u8) -> (r: Option<NounStemType>)
        requires
            ascii_digit >= 0x30,
        ensures
            r == NounStemType::spec_from_digit((ascii_digit - 0x30) as u8),
    {
        NounStemType::from_digit(ascii_digit - 0x30)
    }

    /// Returns the digit of this stem type.
    pub fn to_digit(self) -> (r: u8)
        ensures
            r == self.spec_digit(),
            1 <= r <= 8,
    {
        match self {
            NounStemType::Type1 => 1,
            NounStemType::Type2 => 2,
            NounStemType::Type3 => 3,
            NounStemType::Type4 => 4,
            NounStemType::Type5 => 5,
            NounStemType::Type6 => 6,
            NounStemType::Type7 => 7,
            NounStemType::Type8 => 8,
        }
    }

    /// Returns the ASCII digit of this stem type.
    pub fn to_ascii_digit(self) -> (r: u8)
        ensures
            r == 0x30 + self.spec_digit(),
    {
        0x30 + self.to_digit()
    }

    /// Returns the text of this stem type: its digit.
    pub fn to_string(&self) -> (r: String)
        ensures
            r@ == seq![spec_digit_char(self.spec_digit())],
    {
        let mut s = String::new();
        push_char(&mut s, digit_char(self.to_digit()));
        s
    }

    /// Parses a stem type from a string of one digit: a digit of no such stem type is
    /// [`ParseStemTypeError::IncompatibleDigit`], anything else [`ParseStemTypeError::Invalid`].
    pub fn parse_str(s: &str) -> (r: Result<NounStemType, ParseStemTypeError>)
        ensures
            r == spec_parse_stem_type(s@, |d: u8| NounStemType::spec_from_digit(d)),
    {
        match parse_single_digit(s) {
            Some(d) => match NounStemType::from_digit(d) {
                Some(x) => Ok(x),
                None => Err(ParseStemTypeError::IncompatibleDigit),
            },
            None => Err(ParseStemTypeError::Invalid),
        }
    }
}

impl std::str::FromStr for NounStemType {
    type Err = ParseStemTypeError;

    fn from_str(s: &str) -> (r: Result<NounStemType, ParseStemTypeError>)
        ensures
            r == spec_parse_stem_type(s@, |d: u8| NounStemType::spec_from_digit(d)),
    {
        NounStemType::parse_str(s)
    }
}

impl PronounStemType {
    /// The stem type with the digit, if there is one.
    pub open spec fn spec_from_digit(digit: u8) -> Option<PronounStemType> {
        if digit == 1 {
            Some(PronounStemType::Type1)
        } else if digit == 2 {
            Some(PronounStemType::Type2)
        } else if digit == 4 {
            Some(PronounStemType::Type4)
        } else if digit == 6 {
            Some(PronounStemType::Type6)
        } else {
            None
        }
    }

    /// The digit of this stem type.
    pub open spec fn spec_digit(self) -> u8 {
        match self {
            PronounStemType::Type1 => 1,
            PronounStemType::Type2 => 2,
            PronounStemType::Type4 => 4,
            PronounStemType::Type6 => 6,
        }
    }

    /// Converts a digit to a [`PronounStemType`].
    pub fn from_digit(digit: u8) -> (r: Option<PronounStemType>)
        ensures
            r == PronounStemType::spec_from_digit(digit),
    {
        match digit {
            1 => Some(PronounStemType::Type1),
            2 => Some(PronounStemType::Type2),
            4 => Some(PronounStemType::Type4),
            6 => Some(PronounStemType::Type6),
            _ => None,
        }
    }

    /// Converts an ASCII digit to a [`PronounStemType`].
    pub fn from_ascii_digit(ascii_digit: u8) -> (r: Option<PronounStemType>)
        requires
            ascii_digit >= 0x30,
        ensures
            r == PronounStemType::spec_from_digit((ascii_digit - 0x30) as u8),
    {
        PronounStemType::from_digit(ascii_digit - 0x30)
    }

    /// Returns the digit of this stem type.
    pub fn to_digit(self) -> (r: u8)
        ensures
            r == self.spec_digit(),
            1 <= r <= 8,
    {
        match self {
            PronounStemType::Type1 => 1,
            PronounStemType::Type2 => 2,
            PronounStemType::Type4 => 4,
            PronounStemType::Type6 => 6,
        }
    }

    /// Returns the ASCII digit of this stem type.
    pub fn to_ascii_digit(self) -> (r: u8)
        ensures
            r == 0x30 + self.spec_digit(),
    {
        0x30 + self.to_digit()
    }

    /// Returns the text of this stem type: its digit.
    pub fn to_string(&self) -> (r: String)
        ensures
            r@ == seq![spec_digit_char(self.spec_digit())],
    {
        let mut s = String::new();
        push_char(&mut s, digit_char(self.to_digit()));
        s
    }

    /// Parses a stem type from a string of one digit: a digit of no such stem type is
    /// [`ParseStemTypeError::IncompatibleDigit`], anything else [`ParseStemTypeError::Invalid`].
    pub fn parse_str(s: &str) -> (r: Result<PronounStemType, ParseStemTypeError>)
        ensures
            r == spec_parse_stem_type(s@, |d: u8| PronounStemType::spec_from_digit(d)),
    {
        match parse_single_digit(s) {
            Some(d) => match PronounStemType::from_digit(d) {
                Some(x) => Ok(x),
                None => Err(ParseStemTypeError::IncompatibleDigit),
            },
            None => Err(ParseStemTypeError::Invalid),
        }
    }
}

impl std::str::FromStr for PronounStemType {
    type Err = ParseStemTypeError;

    fn from_str(s: &str) -> (r: Result<PronounStemType, ParseStemTypeError>)
        ensures
            r == spec_parse_stem_type(s@, |d: u8| PronounStemType::spec_from_digit(d)),
    {
        PronounStemType::parse_str(s)
    }
}

impl AdjectiveStemType {
    /// The stem type with the digit, if there is one.
    pub open spec fn spec_from_digit(digit: u8) -> Option<AdjectiveStemType> {
        if digit == 1 {
            Some(AdjectiveStemType::Type1)
        } else if digit == 2 {
            Some(AdjectiveStemType::Type2)
        } else if digit == 3 {
            Some(AdjectiveStemType::Type3)
        } else if digit == 4 {
            Some(AdjectiveStemType::Type4)
        } else if digit == 5 {
            Some(AdjectiveStemType::Type5)
        } else if digit == 6 {
            Some(AdjectiveStemType::Type6)
        } else {
            None
        }
    }

    /// The digit of this stem type.
    pub open spec fn spec_digit(self) -> u8 {
        match self {
            AdjectiveStemType::Type1 => 1,
            AdjectiveStemType::Type2 => 2,
            AdjectiveStemType::Type3 => 3,
            AdjectiveStemType::Type4 => 4,
            AdjectiveStemType::Type5 => 5,
            AdjectiveStemType::Type6 => 6,
        }
    }

    /// Converts a digit to a [`AdjectiveStemType`].
    pub fn from_digit(digit: u8) -> (r: Option<AdjectiveStemType>)
        ensures
            r == AdjectiveStemType::spec_from_digit(digit),
    {
        match digit {
            1 => Some(AdjectiveStemType::Type1),
            2 => Some(AdjectiveStemType::Type2),
            3 => Some(AdjectiveStemType::Type3),
            4 => Some(AdjectiveStemType::Type4),
            5 => Some(AdjectiveStemType::Type5),
            6 => Some(AdjectiveStemType::Type6),
            _ => None,
        }
    }

    /// Converts an ASCII digit to a [`AdjectiveStemType`].
    pub fn from_ascii_digit(ascii_digit: u8) -> (r: Option<AdjectiveStemType>)
        requires
            ascii_digit >= 0x30,
        ensures
            r == AdjectiveStemType::spec_from_digit((ascii_digit - 0x30) as u8),
    {
        AdjectiveStemType::from_digit(ascii_digit - 0x30)
    }

    /// Returns the digit of this stem type.
    pub fn to_digit(self) -> (r: u8)
        ensures
            r == self.spec_digit(),
            1 <= r <= 8,
    {
        match self {
            AdjectiveStemType::Type1 => 1,
            AdjectiveStemType::Type2 => 2,
            AdjectiveStemType::Type3 => 3,
            AdjectiveStemType::Type4 => 4,
            AdjectiveStemType::Type5 => 5,
            AdjectiveStemType::Type6 => 6,
        }
    }

    /// Returns the ASCII digit of this stem type.
    pub fn to_ascii_digit(self) -> (r: u8)
        ensures
            r == 0x30 + self.spec_digit(),
    {
        0x30 + self.to_digit()
    }

    /// Returns the text of this stem type: its digit.
    pub fn to_string(&self) -> (r: String)
        ensures
            r@ == seq![spec_digit_char(self.spec_digit())],
    {
        let mut s = String::new();
        push_char(&mut s, digit_char(self.to_digit()));
        s
    }

    /// Parses a stem type from a string of one digit: a digit of no such stem type is
    /// [`ParseStemTypeError::IncompatibleDigit`], anything else [`ParseStemTypeError::Invalid`].
    pub fn parse_str(s: &str) -> (r: Result<AdjectiveStemType, ParseStemTypeError>)
        ensures
            r == spec_parse_stem_type(s@, |d: u8| AdjectiveStemType::spec_from_digit(d)),
    {
        match parse_single_digit(s) {
            Some(d) => match AdjectiveStemType::from_digit(d) {
                Some(x) => Ok(x),
                None => Err(ParseStemTypeError::IncompatibleDigit),
            },
            None => Err(ParseStemTypeError::Invalid),
        }
    }
}

impl std::str::FromStr for AdjectiveStemType {
    type Err = ParseStemTypeError;

    fn from_str(s: &str) -> (r: Result<AdjectiveStemType, ParseStemTypeError>)
        ensures
            r == spec_parse_stem_type(s@, |d: u8| AdjectiveStemType::spec_from_digit(d)),
    {
        AdjectiveStemType::parse_str(s)
    }
}

impl NounStemType {
    /// This stem type as an [`AnyStemType`].
    pub open spec fn spec_any(self) -> AnyStemType {
        match self {
            NounStemType::Type1 => AnyStemType::Type1,
            NounStemType::Type2 => AnyStemType::Type2,
            NounStemType::Type3 => AnyStemType::Type3,
            NounStemType::Type4 => AnyStemType::Type4,
            NounStemType::Type5 => AnyStemType::Type5,
            NounStemType::Type6 => AnyStemType::Type6,
            NounStemType::Type7 => AnyStemType::Type7,
            NounStemType::Type8 => AnyStemType::Type8,
        }
    }

    /// Converts this stem type into an [`AnyStemType`].
    pub fn to_any(self) -> (r: AnyStemType)
        ensures
            r == self.spec_any(),
    {
        match self {
            NounStemType::Type1 => AnyStemType::Type1,
            NounStemType::Type2 => AnyStemType::Type2,
            NounStemType::Type3 => AnyStemType::Type3,
            NounStemType::Type4 => AnyStemType::Type4,
            NounStemType::Type5 => AnyStemType::Type5,
            NounStemType::Type6 => AnyStemType::Type6,
            NounStemType::Type7 => AnyStemType::Type7,
            NounStemType::Type8 => AnyStemType::Type8,
        }
    }
}

impl AnyStemType {
    /// This stem type as a [`NounStemType`], if it is one.
    pub open spec fn spec_noun(self) -> Option<NounStemType> {
        match self {
            AnyStemType::Type1 => Some(NounStemType::Type1),
            AnyStemType::Type2 => Some(NounStemType::Type2),
            AnyStemType::Type3 => Some(NounStemType::Type3),
            AnyStemType::Type4 => Some(NounStemType::Type4),
            AnyStemType::Type5 => Some(NounStemType::Type5),
            AnyStemType::Type6 => Some(NounStemType::Type6),
            AnyStemType::Type7 => Some(NounStemType::Type7),
            AnyStemType::Type8 => Some(NounStemType::Type8),
        }
    }

    fn to_noun(self) -> (r: Option<NounStemType>)
        ensures
            r == self.spec_noun(),
    {
        match self {
            AnyStemType::Type1 => Some(NounStemType::Type1),
            AnyStemType::Type2 => Some(NounStemType::Type2),
            AnyStemType::Type3 => Some(NounStemType::Type3),
            AnyStemType::Type4 => Some(NounStemType::Type4),
            AnyStemType::Type5 => Some(NounStemType::Type5),
            AnyStemType::Type6 => Some(NounStemType::Type6),
            AnyStemType::Type7 => Some(NounStemType::Type7),
            AnyStemType::Type8 => Some(NounStemType::Type8),
        }
    }
}

impl From<NounStemType> for AnyStemType {
    fn from(value: NounStemType) -> (r: AnyStemType) {
        value.to_any()
    }
}

impl vstd::std_specs::convert::FromSpecImpl<NounStemType> for AnyStemType {
    open spec fn obeys_from_spec() -> bool {
        true
    }

    open spec fn from_spec(v: NounStemType) -> AnyStemType {
        v.spec_any()
    }
}

impl From<AnyStemType> for NounStemType {
    fn from(value: AnyStemType) -> (r: NounStemType) {
        match value {
            AnyStemType::Type1 => NounStemType::Type1,
            AnyStemType::Type2 => NounStemType::Type2,
            AnyStemType::Type3 => NounStemType::Type3,
            AnyStemType::Type4 => NounStemType::Type4,
            AnyStemType::Type5 => NounStemType::Type5,
            AnyStemType::Type6 => NounStemType::Type6,
            AnyStemType::Type7 => NounStemType::Type7,
            AnyStemType::Type8 => NounStemType::Type8,
        }
    }
}

impl vstd::std_specs::convert::FromSpecImpl<AnyStemType> for NounStemType {
    open spec fn obeys_from_spec() -> bool {
        true
    }

    open spec fn from_spec(v: AnyStemType) -> NounStemType {
        v.spec_noun().unwrap()
    }
}

impl PronounStemType {
    /// This stem type as an [`AnyStemType`].
    pub open spec fn spec_any(self) -> AnyStemType {
        match self {
            PronounStemType::Type1 => AnyStemType::Type1,
            PronounStemType::Type2 => AnyStemType::Type2,
            PronounStemType::Type4 => AnyStemType::Type4,
            PronounStemType::Type6 => AnyStemType::Type6,
        }
    }

    /// Converts this stem type into an [`AnyStemType`].
    pub fn to_any(self) -> (r: AnyStemType)
        ensures
            r == self.spec_any(),
    {
        match self {
            PronounStemType::Type1 => AnyStemType::Type1,
            PronounStemType::Type2 => AnyStemType::Type2,
            PronounStemType::Type4 => AnyStemType::Type4,
            PronounStemType::Type6 => AnyStemType::Type6,
        }
    }
}

impl AnyStemType {
    /// This stem type as a [`PronounStemType`], if it is one.
    pub open spec fn spec_pronoun(self) -> Option<PronounStemType> {
        match self {
            AnyStemType::Type1 => Some(PronounStemType::Type1),
            AnyStemType::Type2 => Some(PronounStemType::Type2),
            AnyStemType::Type4 => Some(PronounStemType::Type4),
            AnyStemType::Type6 => Some(PronounStemType::Type6),
            _ => None,
        }
    }

    fn to_pronoun(self) -> (r: Option<PronounStemType>)
        ensures
            r == self.spec_pronoun(),
    {
        match self {
            AnyStemType::Type1 => Some(PronounStemType::Type1),
            AnyStemType::Type2 => Some(PronounStemType::Type2),
            AnyStemType::Type4 => Some(PronounStemType::Type4),
            AnyStemType::Type6 => Some(PronounStemType::Type6),
            _ => None,
        }
    }
}

impl From<PronounStemType> for AnyStemType {
    fn from(value: PronounStemType) -> (r: AnyStemType) {
        value.to_any()
    }
}

impl vstd::std_specs::convert::FromSpecImpl<PronounStemType> for AnyStemType {
    open spec fn obeys_from_spec() -> bool {
        true
    }

    open spec fn from_spec(v: PronounStemType) -> AnyStemType {
        v.spec_any()
    }
}

impl TryFrom<AnyStemType> for PronounStemType {
    type Error = PronounStemTypeError;

    fn try_from(value: AnyStemType) -> (r: Result<PronounStemType, PronounStemTypeError>) {
        match value.to_pronoun() {
            Some(x) => Ok(x),
            None => Err(PronounStemTypeError),
        }
    }
}

impl vstd::std_specs::convert::TryFromSpecImpl<AnyStemType> for PronounStemType {
    open spec fn obeys_try_from_spec() -> bool {
        true
    }

    open spec fn try_from_spec(v: AnyStemType) -> Result<PronounStemType, PronounStemTypeError> {
        match v.spec_pronoun() {
            Some(x) => Ok(x),
            None => Err(PronounStemTypeError),
        }
    }
}

impl AdjectiveStemType {
    /// This stem type as an [`AnyStemType`].
    pub open spec fn spec_any(self) -> AnyStemType {
        match self {
            AdjectiveStemType::Type1 => AnyStemType::Type1,
            AdjectiveStemType::Type2 => AnyStemType::Type2,
            AdjectiveStemType::Type3 => AnyStemType::Type3,
            AdjectiveStemType::Type4 => AnyStemType::Type4,
            AdjectiveStemType::Type5 => AnyStemType::Type5,
            AdjectiveStemType::Type6 => AnyStemType::Type6,
        }
    }

    /// Converts this stem type into an [`AnyStemType`].
    pub fn to_any(self) -> (r: AnyStemType)
        ensures
            r == self.spec_any(),
    {
        match self {
            AdjectiveStemType::Type1 => AnyStemType::Type1,
            AdjectiveStemType::Type2 => AnyStemType::Type2,
            AdjectiveStemType::Type3 => AnyStemType::Type3,
            AdjectiveStemType::Type4 => AnyStemType::Type4,
            AdjectiveStemType::Type5 => AnyStemType::Type5,
            AdjectiveStemType::Type6 => AnyStemType::Type6,
        }
    }
}

impl AnyStemType {
    /// This stem type as a [`AdjectiveStemType`], if it is one.
    pub open spec fn spec_adjective(self) -> Option<AdjectiveStemType> {
        match self {
            AnyStemType::Type1 => Some(AdjectiveStemType::Type1),
            AnyStemType::Type2 => Some(AdjectiveStemType::Type2),
            AnyStemType::Type3 => Some(AdjectiveStemType::Type3),
            AnyStemType::Type4 => Some(AdjectiveStemType::Type4),
            AnyStemType::Type5 => Some(AdjectiveStemType::Type5),
            AnyStemType::Type6 => Some(AdjectiveStemType::Type6),
            _ => None,
        }
    }

    fn to_adjective(self) -> (r: Option<AdjectiveStemType>)
        ensures
            r == self.spec_adjective(),
    {
        match self {
            AnyStemType::Type1 => Some(AdjectiveStemType::Type1),
            AnyStemType::Type2 => Some(AdjectiveStemType::Type2),
            AnyStemType::Type3 => Some(AdjectiveStemType::Type3),
            AnyStemType::Type4 => Some(AdjectiveStemType::Type4),
            AnyStemType::Type5 => Some(AdjectiveStemType::Type5),
            AnyStemType::Type6 => Some(AdjectiveStemType::Type6),
            _ => None,
        }
    }
}

impl From<AdjectiveStemType> for AnyStemType {
    fn from(value: AdjectiveStemType) -> (r: AnyStemType) {
        value.to_any()
    }
}

impl vstd::std_specs::convert::FromSpecImpl<AdjectiveStemType> for AnyStemType {
    open spec fn obeys_from_spec() -> bool {
        true
    }

    open spec fn from_spec(v: AdjectiveStemType) -> AnyStemType {
        v.spec_any()
    }
}

impl TryFrom<AnyStemType> for AdjectiveStemType {
    type Error = AdjectiveStemTypeError;

    fn try_from(value: AnyStemType) -> (r: Result<AdjectiveStemType, AdjectiveStemTypeError>) {
        match value.to_adjective() {
            Some(x) => Ok(x),
            None => Err(AdjectiveStemTypeError),
        }
    }
}

impl vstd::std_specs::convert::TryFromSpecImpl<AnyStemType> for AdjectiveStemType {
    open spec fn obeys_try_from_spec() -> bool {
        true
    }

    open spec fn try_from_spec(v: AnyStemType) -> Result<AdjectiveStemType, AdjectiveStemTypeError> {
        match v.spec_adjective() {
            Some(x) => Ok(x),
            None => Err(AdjectiveStemTypeError),
        }
    }
}

/// A noun's declension: stem type, stress schema and flags.
#[derive(Debug, Clone, Copy, PartialEq, Eq, Structural, Hash)]
pub struct NounDeclension {
    /// The stem type.
    pub stem_type: NounStemType,
    /// The stress schema.
    pub stress: NounStress,
    /// The declension flags.
    pub flags: DeclensionFlags,
}

/// A pronoun's declension: stem type, stress schema and flags.
#[derive(Debug, Clone, Copy, PartialEq, Eq, Structural, Hash)]
pub struct PronounDeclension {
    /// The stem type.
    pub stem_type: PronounStemType,
    /// The stress schema.
    pub stress: PronounStress,
    /// The declension flags.
    pub flags: DeclensionFlags,
}

/// An adjective's declension: stem type, stress schema and flags.
#[derive(Debug, Clone, Copy, PartialEq, Eq, Structural, Hash)]
pub struct AdjectiveDeclension {
    /// The stem type.
    pub stem_type: AdjectiveStemType,
    /// The stress schema.
    pub stress: AdjectiveStress,
    /// The declension flags.
    pub flags: DeclensionFlags,
}

/// A declension of any kind: noun, pronoun or adjective.
#[derive(Debug, Clone, Copy, PartialEq, Eq, Structural, Hash)]
pub enum Declension {
    /// A noun declension.
    Noun(NounDeclension),
    /// A pronoun declension.
    Pronoun(PronounDeclension),
    /// An adjective declension.
    Adjective(AdjectiveDeclension),
}

/// The kind of a declension.
#[derive(Debug, Clone, Copy, PartialEq, Eq, Structural, Hash)]
pub enum DeclensionKind {
    /// Noun declension.
    Noun,
    /// Pronoun declension.
    Pronoun,
    /// Adjective declension.
    Adjective,
}

impl Declension {
    /// Returns `true` if this is a noun declension.
    pub fn is_noun(self) -> (r: bool)
        ensures
            r == self is Noun,
    {
        matches!(self, Declension::Noun(_))
    }

    /// Returns `true` if this is a pronoun declension.
    pub fn is_pronoun(self) -> (r: bool)
        ensures
            r == self is Pronoun,
    {
        matches!(self, Declension::Pronoun(_))
    }

    /// Returns `true` if this is an adjective declension.
    pub fn is_adjective(self) -> (r: bool)
        ensures
            r == self is Adjective,
    {
        matches!(self, Declension::Adjective(_))
    }

    /// Returns the noun declension, if this is one.
    pub fn as_noun(self) -> (r: Option<NounDeclension>)
        ensures
            r == (match self {
                Declension::Noun(x) => Some(x),
                _ => None,
            }),
    {
        match self {
            Declension::Noun(x) => Some(x),
            _ => None,
        }
    }

    /// Returns the pronoun declension, if this is one.
    pub fn as_pronoun(self) -> (r: Option<PronounDeclension>)
        ensures
            r == (match self {
                Declension::Pronoun(x) => Some(x),
                _ => None,
            }),
    {
        match self {
            Declension::Pronoun(x) => Some(x),
            _ => None,
        }
    }

    /// Returns the adjective declension, if this is one.
    pub fn as_adjective(self) -> (r: Option<AdjectiveDeclension>)
        ensures
            r == (match self {
                Declension::Adjective(x) => Some(x),
                _ => None,
            }),
    {
        match self {
            Declension::Adjective(x) => Some(x),
            _ => None,
        }
    }

    /// The kind of this declension.
    pub open spec fn spec_kind(self) -> DeclensionKind {
        match self {
            Declension::Noun(_) => DeclensionKind::Noun,
            Declension::Pronoun(_) => DeclensionKind::Pronoun,
            Declension::Adjective(_) => DeclensionKind::Adjective,
        }
    }

    /// Returns the kind of this declension.
    pub fn kind(self) -> (r: DeclensionKind)
        ensures
            r == self.spec_kind(),
    {
        match self {
            Declension::Noun(_) => DeclensionKind::Noun,
            Declension::Pronoun(_) => DeclensionKind::Pronoun,
            Declension::Adjective(_) => DeclensionKind::Adjective,
        }
    }

    /// The stem type of this declension, as an [`AnyStemType`].
    pub open spec fn spec_stem_type(self) -> AnyStemType {
        match self {
            Declension::Noun(x) => x.stem_type.spec_any(),
            Declension::Pronoun(x) => x.stem_type.spec_any(),
            Declension::Adjective(x) => x.stem_type.spec_any(),
        }
    }

    /// The stress of this declension, as an [`AnyDualStress`].
    pub open spec fn spec_stress(self) -> AnyDualStress {
        match self {
            Declension::Noun(x) => AnyDualStress { main: x.stress.spec_any(), alt: None },
            Declension::Pronoun(x) => AnyDualStress { main: x.stress.spec_any(), alt: None },
            Declension::Adjective(x) => x.stress.spec_dual(),
        }
    }

    /// The flags of this declension.
    pub open spec fn spec_flags(self) -> DeclensionFlags {
        match self {
            Declension::Noun(x) => x.flags,
            Declension::Pronoun(x) => x.flags,
            Declension::Adjective(x) => x.flags,
        }
    }

    /// Returns the stem type of this declension.
    pub fn stem_type(self) -> (r: AnyStemType)
        ensures
            r == self.spec_stem_type(),
    {
        match self {
            Declension::Noun(x) => x.stem_type.to_any(),
            Declension::Pronoun(x) => x.stem_type.to_any(),
            Declension::Adjective(x) => x.stem_type.to_any(),
        }
    }

    /// Returns the stress schema of this declension.
    pub fn stress(self) -> (r: AnyDualStress)
        ensures
            r == self.spec_stress(),
    {
        match self {
            Declension::Noun(x) => AnyDualStress::from(x.stress),
            Declension::Pronoun(x) => AnyDualStress::from(x.stress),
            Declension::Adjective(x) => AnyDualStress::from(x.stress),
        }
    }

    /// Returns the flags of this declension.
    pub fn flags(self) -> (r: DeclensionFlags)
        ensures
            r == self.spec_flags(),
    {
        match self {
            Declension::Noun(x) => x.flags,
            Declension::Pronoun(x) => x.flags,
            Declension::Adjective(x) => x.flags,
        }
    }
}

impl From<NounDeclension> for Declension {
    fn from(value: NounDeclension) -> (r: Declension) {
        Declension::Noun(value)
    }
}

impl vstd::std_specs::convert::FromSpecImpl<NounDeclension> for Declension {
    open spec fn obeys_from_spec() -> bool {
        true
    }

    open spec fn from_spec(v: NounDeclension) -> Declension {
        Declension::Noun(v)
    }
}

impl From<PronounDeclension> for Declension {
    fn from(value: PronounDeclension) -> (r: Declension) {
        Declension::Pronoun(value)
    }
}

impl vstd::std_specs::convert::FromSpecImpl<PronounDeclension> for Declension {
    open spec fn obeys_from_spec() -> bool {
        true
    }

    open spec fn from_spec(v: PronounDeclension) -> Declension {
        Declension::Pronoun(v)
    }
}

impl From<AdjectiveDeclension> for Declension {
    fn from(value: AdjectiveDeclension) -> (r: Declension) {
        Declension::Adjective(value)
    }
}

impl vstd::std_specs::convert::FromSpecImpl<AdjectiveDeclension> for Declension {
    open spec fn obeys_from_spec() -> bool {
        true
    }

    open spec fn from_spec(v: AdjectiveDeclension) -> Declension {
        Declension::Adjective(v)
    }
}

impl TryFrom<Declension> for NounDeclension {
    type Error = ();

    fn try_from(value: Declension) -> (r: Result<NounDeclension, ()>) {
        match value {
            Declension::Noun(x) => Ok(x),
            _ => Err(()),
        }
    }
}

impl vstd::std_specs::convert::TryFromSpecImpl<Declension> for NounDeclension {
    open spec fn obeys_try_from_spec() -> bool {
        true
    }

    open spec fn try_from_spec(v: Declension) -> Result<NounDeclension, ()> {
        match v {
            Declension::Noun(x) => Ok(x),
            _ => Err(()),
        }
    }
}

impl TryFrom<Declension> for PronounDeclension {
    type Error = ();

    fn try_from(value: Declension) -> (r: Result<PronounDeclension, ()>) {
        match value {
            Declension::Pronoun(x) => Ok(x),
            _ => Err(()),
        }
    }
}

impl vstd::std_specs::convert::TryFromSpecImpl<Declension> for PronounDeclension {
    open spec fn obeys_try_from_spec() -> bool {
        true
    }

    open spec fn try_from_spec(v: Declension) -> Result<PronounDeclension, ()> {
        match v {
            Declension::Pronoun(x) => Ok(x),
            _ => Err(()),
        }
    }
}

impl TryFrom<Declension> for AdjectiveDeclension {
    type Error = ();

    fn try_from(value: Declension) -> (r: Result<AdjectiveDeclension, ()>) {
        match value {
            Declension::Adjective(x) => Ok(x),
            _ => Err(()),
        }
    }
}

impl vstd::std_specs::convert::TryFromSpecImpl<Declension> for AdjectiveDeclension {
    open spec fn obeys_try_from_spec() -> bool {
        true
    }

    open spec fn try_from_spec(v: Declension) -> Result<AdjectiveDeclension, ()> {
        match v {
            Declension::Adjective(x) => Ok(x),
            _ => Err(()),
        }
    }
}

/// The text of a declension: the stem type's digit, the leading flags, the stress, and the
/// trailing flags.
pub open spec fn spec_fmt_declension(stem_type: AnyStemType, stress: AnyDualStress, flags: DeclensionFlags) -> Seq<char> {
    seq![spec_digit_char(stem_type.spec_digit())] + flags.spec_fmt_leading() + stress.spec_fmt()
        + flags.spec_fmt_trailing()
}

/// Appends the text of a declension to `dst`.
#[verifier::rlimit(80)]
fn fmt_declension_any(dst: &mut String, stem_type: AnyStemType, stress: AnyDualStress, flags: DeclensionFlags)
    ensures
        final(dst)@ == old(dst)@ + spec_fmt_declension(stem_type, stress, flags),
{
    let ghost d0 = dst@;
    push_char(dst, digit_char(stem_type.to_digit()));
    let ghost d1 = dst@;
    flags.fmt_leading_to(dst);
    let ghost d2 = dst@;
    stress.fmt_to(dst);
    let ghost d3 = dst@;
    flags.fmt_trailing_to(dst);
    assert(dst@ =~= d0 + spec_fmt_declension(stem_type, stress, flags)) by {
        assert(d1 == d0 + seq![spec_digit_char(stem_type.spec_digit())]);
        assert(d2 == d1 + flags.spec_fmt_leading());
        assert(d3 == d2 + stress.spec_fmt());
        assert(dst@ == d3 + flags.spec_fmt_trailing());
    }
}

impl NounDeclension {
    /// The text of this declension, such as `3°b′, ё`.
    pub open spec fn spec_fmt(self) -> Seq<char> {
        spec_fmt_declension(
            self.stem_type.spec_any(),
            AnyDualStress { main: self.stress.spec_any(), alt: None },
            self.flags,
        )
    }

    /// Appends the text of this declension to `dst`, such as `3°b′, ё`.
    pub fn fmt_to(self, dst: &mut String)
        ensures
            final(dst)@ == old(dst)@ + self.spec_fmt(),
    {
        fmt_declension_any(dst, self.stem_type.to_any(), AnyDualStress::from(self.stress), self.flags)
    }

    /// Returns the text of this declension, such as `3°b′, ё`.
    pub fn to_string(&self) -> (r: String)
        ensures
            r@ == self.spec_fmt(),
    {
        let mut s = String::new();
        self.fmt_to(&mut s);
        assert(s@ =~= self.spec_fmt());
        s
    }
}

impl PronounDeclension {
    /// The text of this declension, such as `6*f①`.
    pub open spec fn spec_fmt(self) -> Seq<char> {
        spec_fmt_declension(
            self.stem_type.spec_any(),
            AnyDualStress { main: self.stress.spec_any(), alt: None },
            self.flags,
        )
    }

    /// Appends the text of this declension to `dst`, such as `6*f①`.
    pub fn fmt_to(self, dst: &mut String)
        ensures
            final(dst)@ == old(dst)@ + self.spec_fmt(),
    {
        fmt_declension_any(dst, self.stem_type.to_any(), AnyDualStress::from(self.stress), self.flags)
    }

    /// Returns the text of this declension, such as `6*f①`.
    pub fn to_string(&self) -> (r: String)
        ensures
            r@ == self.spec_fmt(),
    {
        let mut s = String::new();
        self.fmt_to(&mut s);
        assert(s@ =~= self.spec_fmt());
        s
    }
}

impl AdjectiveDeclension {
    /// The text of this declension, with the stress abbreviated, such as `2*a/c″`.
    pub open spec fn spec_fmt(self) -> Seq<char> {
        spec_fmt_declension(self.stem_type.spec_any(), self.stress.spec_abbr(), self.flags)
    }

    /// Appends the text of this declension to `dst`, with the stress abbreviated, such as
    /// `2*a/c″`.
    pub fn fmt_to(self, dst: &mut String)
        ensures
            final(dst)@ == old(dst)@ + self.spec_fmt(),
    {
        fmt_declension_any(dst, self.stem_type.to_any(), self.stress.abbr(), self.flags)
    }

    /// Returns the text of this declension, with the stress abbreviated, such as `2*a/c″`.
    pub fn to_string(&self) -> (r: String)
        ensures
            r@ == self.spec_fmt(),
    {
        let mut s = String::new();
        self.fmt_to(&mut s);
        assert(s@ =~= self.spec_fmt());
        s
    }
}

/// A declension of any kind, before its stem type and stress are checked against a kind.
#[derive(Debug, Clone, Copy, PartialEq, Eq, Structural, Hash)]
pub struct AnyDeclension {
    /// The stem type.
    pub stem_type: AnyStemType,
    /// The declension flags.
    pub flags: DeclensionFlags,
    /// The stress schema.
    pub stress: AnyDualStress,
}

impl AnyDeclension {
    /// This declension as a noun's: any stem type; a single noun stress.
    pub open spec fn spec_noun(self) -> Result<NounDeclension, ParseDeclensionError> {
        match (if self.stress.alt is None { self.stress.main.spec_noun() } else { None }) {
            None => Err(ParseDeclensionError::IncompatibleStress),
            Some(stress) => Ok(NounDeclension {
                stem_type: self.stem_type.spec_noun().unwrap(),
                stress,
                flags: self.flags,
            }),
        }
    }

    /// This declension as a pronoun's: stem type 1, 2, 4 or 6; a single pronoun stress.
    pub open spec fn spec_pronoun(self) -> Result<PronounDeclension, ParseDeclensionError> {
        match self.stem_type.spec_pronoun() {
            None => Err(ParseDeclensionError::IncompatibleStemType),
            Some(stem_type) => match (if self.stress.alt is None {
                self.stress.main.spec_pronoun()
            } else {
                None
            }) {
                None => Err(ParseDeclensionError::IncompatibleStress),
                Some(stress) => Ok(PronounDeclension { stem_type, stress, flags: self.flags }),
            },
        }
    }

    /// This declension as an adjective's: stem type 1-6; an adjective stress.
    pub open spec fn spec_adjective(self) -> Result<AdjectiveDeclension, ParseDeclensionError> {
        match self.stem_type.spec_adjective() {
            None => Err(ParseDeclensionError::IncompatibleStemType),
            Some(stem_type) => match spec_adjective_stress(self.stress) {
                Err(_) => Err(ParseDeclensionError::IncompatibleStress),
                Ok(stress) => Ok(AdjectiveDeclension { stem_type, stress, flags: self.flags }),
            },
        }
    }

    /// Converts this declension into a noun's; fails with
    /// [`ParseDeclensionError::IncompatibleStress`] if the stress is no noun stress.
    pub fn into_noun(self) -> (r: Result<NounDeclension, ParseDeclensionError>)
        ensures
            r == self.spec_noun(),
    {
        match NounStress::try_from(self.stress) {
            Ok(stress) => Ok(NounDeclension {
                stem_type: NounStemType::from(self.stem_type),
                stress,
                flags: self.flags,
            }),
            Err(_) => Err(ParseDeclensionError::IncompatibleStress),
        }
    }

    /// Converts this declension into a pronoun's; fails with
    /// [`ParseDeclensionError::IncompatibleStemType`] or
    /// [`ParseDeclensionError::IncompatibleStress`].
    pub fn into_pronoun(self) -> (r: Result<PronounDeclension, ParseDeclensionError>)
        ensures
            r == self.spec_pronoun(),
    {
        match PronounStemType::try_from(self.stem_type) {
            Err(_) => Err(ParseDeclensionError::IncompatibleStemType),
            Ok(stem_type) => match PronounStress::try_from(self.stress) {
                Ok(stress) => Ok(PronounDeclension { stem_type, stress, flags: self.flags }),
                Err(_) => Err(ParseDeclensionError::IncompatibleStress),
            },
        }
    }

    /// Converts this declension into an adjective's; fails with
    /// [`ParseDeclensionError::IncompatibleStemType`] or
    /// [`ParseDeclensionError::IncompatibleStress`].
    pub fn into_adjective(self) -> (r: Result<AdjectiveDeclension, ParseDeclensionError>)
        ensures
            r == self.spec_adjective(),
    {
        match AdjectiveStemType::try_from(self.stem_type) {
            Err(_) => Err(ParseDeclensionError::IncompatibleStemType),
            Ok(stem_type) => match AdjectiveStress::try_from(self.stress) {
                Ok(stress) => Ok(AdjectiveDeclension { stem_type, stress, flags: self.flags }),
                Err(_) => Err(ParseDeclensionError::IncompatibleStress),
            },
        }
    }
}

/// Parses a declension of any kind at `pos`: a stem type digit 1-8, the leading flags, the
/// stress, and the trailing flags.
pub open spec fn spec_parse_declension_any_at(s: Seq<char>, pos: int) -> Result<(AnyDeclension, int), ParseDeclensionError> {
    match spec_peek(s, pos) {
        None => Err(ParseDeclensionError::InvalidStemType),
        Some(c) => if '1' <= c <= '8' {
            let stem_type = AnyStemType::spec_from_digit(spec_char_digit(c).unwrap()).unwrap();
            let (f1, p1) = spec_parse_leading_at(s, pos + 1, DeclensionFlags::spec_empty());
            match spec_parse_dual_at(s, p1) {
                Err(e) => Err(ParseDeclensionError::InvalidStress(e)),
                Ok((stress, p2)) => match spec_parse_trailing_at(s, p2, f1) {
                    Err(e) => Err(e),
                    Ok((flags, p3)) => Ok((AnyDeclension { stem_type, flags, stress }, p3)),
                },
            }
        } else {
            Err(ParseDeclensionError::InvalidStemType)
        },
    }
}

/// Parses a declension of any kind at the parser's position.
fn parse_declension_any(parser: &mut UnsafeParser) -> (r: Result<AnyDeclension, ParseDeclensionError>)
    ensures
        final(parser).chars() == old(parser).chars(),
        match spec_parse_declension_any_at(old(parser).chars(), old(parser).pos()) {
            Ok((d, p)) => r == Ok::<AnyDeclension, ParseDeclensionError>(d) && final(parser).pos() == p,
            Err(e) => r == Err::<AnyDeclension, ParseDeclensionError>(e),
        },
{
    let stem_type = match parser.read_char() {
        Some(c) => match char_digit(c) {
            Some(d) => if 1 <= d && d <= 8 {
                match AnyStemType::from_digit(d) {
                    Some(t) => t,
                    None => return Err(ParseDeclensionError::InvalidStemType),
                }
            } else {
                return Err(ParseDeclensionError::InvalidStemType);
            },
            None => return Err(ParseDeclensionError::InvalidStemType),
        },
        None => return Err(ParseDeclensionError::InvalidStemType),
    };
    let mut flags = DeclensionFlags::empty();
    DeclensionFlags::partial_from_str_leading(&mut flags, parser);
    let stress = match AnyDualStress::partial_from_str(parser) {
        Ok(x) => x,
        Err(e) => return Err(ParseDeclensionError::InvalidStress(e)),
    };
    match DeclensionFlags::partial_from_str_trailing(&mut flags, parser) {
        Ok(()) => Ok(AnyDeclension { stem_type, flags, stress }),
        Err(e) => Err(e),
    }
}

/// Parses a whole string with a parsing function at position 0: the rest of the string must
/// be empty, else [`ParseDeclensionError::Invalid`].
pub open spec fn spec_parse_whole<T>(s: Seq<char>, r: Result<(T, int), ParseDeclensionError>) -> Result<T, ParseDeclensionError> {
    match r {
        Err(e) => Err(e),
        Ok((x, p)) => if p == s.len() {
            Ok(x)
        } else {
            Err(ParseDeclensionError::Invalid)
        },
    }
}

/// Parses a noun declension at `pos`.
pub open spec fn spec_parse_noun_declension_at(s: Seq<char>, pos: int) -> Result<(NounDeclension, int), ParseDeclensionError> {
    match spec_parse_declension_any_at(s, pos) {
        Err(e) => Err(e),
        Ok((d, p)) => match d.spec_noun() {
            Err(e) => Err(e),
            Ok(x) => Ok((x, p)),
        },
    }
}

/// Parses a pronoun declension at `pos`.
pub open spec fn spec_parse_pronoun_declension_at(s: Seq<char>, pos: int) -> Result<(PronounDeclension, int), ParseDeclensionError> {
    match spec_parse_declension_any_at(s, pos) {
        Err(e) => Err(e),
        Ok((d, p)) => match d.spec_pronoun() {
            Err(e) => Err(e),
            Ok(x) => Ok((x, p)),
        },
    }
}

/// Parses an adjective declension at `pos`.
pub open spec fn spec_parse_adjective_declension_at(s: Seq<char>, pos: int) -> Result<(AdjectiveDeclension, int), ParseDeclensionError> {
    match spec_parse_declension_any_at(s, pos) {
        Err(e) => Err(e),
        Ok((d, p)) => match d.spec_adjective() {
            Err(e) => Err(e),
            Ok(x) => Ok((x, p)),
        },
    }
}

/// The number of bytes that a character takes in UTF-8.
pub open spec fn spec_utf8_len(c: char) -> int {
    if (c as u32) < 0x80 {
        1
    } else if (c as u32) < 0x800 {
        2
    } else if (c as u32) < 0x10000 {
        3
    } else {
        4
    }
}

/// The kind of declension that the prefix at `pos` announces, and the prefix's length: `мс `
/// for pronouns, `п ` followed by at least two more bytes for adjectives, and no prefix for
/// nouns.
pub open spec fn spec_declension_prefix_at(s: Seq<char>, pos: int) -> (DeclensionKind, int) {
    if spec_peek(s, pos) == Some('м') && spec_peek(s, pos + 1) == Some('с') && spec_peek(s, pos + 2)
        == Some(' ') {
        (DeclensionKind::Pronoun, 3)
    } else if spec_peek(s, pos) == Some('п') && spec_peek(s, pos + 1) == Some(' ') && (
    spec_peek(s, pos + 3) is Some || (spec_peek(s, pos + 2) matches Some(c) && spec_utf8_len(c)
        >= 2)) {
        (DeclensionKind::Adjective, 2)
    } else {
        (DeclensionKind::Noun, 0)
    }
}

/// Parses a declension at `pos`: a declension of the kind that its prefix announces.
pub open spec fn spec_parse_declension_at(s: Seq<char>, pos: int) -> Result<(Declension, int), ParseDeclensionError> {
    let (kind, len) = spec_declension_prefix_at(s, pos);
    match spec_parse_declension_any_at(s, pos + len) {
        Err(e) => Err(e),
        Ok((d, p)) => match kind {
            DeclensionKind::Noun => match d.spec_noun() {
                Err(e) => Err(e),
                Ok(x) => Ok((Declension::Noun(x), p)),
            },
            DeclensionKind::Pronoun => match d.spec_pronoun() {
                Err(e) => Err(e),
                Ok(x) => Ok((Declension::Pronoun(x), p)),
            },
            DeclensionKind::Adjective => match d.spec_adjective() {
                Err(e) => Err(e),
                Ok(x) => Ok((Declension::Adjective(x), p)),
            },
        },
    }
}

/// Returns the number of bytes that a character takes in UTF-8.
fn utf8_len(c: char) -> (r: usize)
    ensures
        r == spec_utf8_len(c),
{
    let v = c as u32;
    if v < 0x80 {
        1
    } else if v < 0x800 {
        2
    } else if v < 0x10000 {
        3
    } else {
        4
    }
}

impl NounDeclension {
    /// Parses a noun declension at the parser's position, such as `3°b′, ё`.
    pub fn partial_from_str(parser: &mut UnsafeParser) -> (r: Result<NounDeclension, ParseDeclensionError>)
        ensures
            final(parser).chars() == old(parser).chars(),
            match spec_parse_noun_declension_at(old(parser).chars(), old(parser).pos()) {
                Ok((d, p)) => r == Ok::<NounDeclension, ParseDeclensionError>(d) && final(parser).pos() == p,
                Err(e) => r == Err::<NounDeclension, ParseDeclensionError>(e),
            },
    {
        match parse_declension_any(parser) {
            Ok(d) => d.into_noun(),
            Err(e) => Err(e),
        }
    }

    /// Parses a string as a noun declension, such as `3°b′, ё` or `4b(2)`.
    pub fn parse_str(s: &str) -> (r: Result<NounDeclension, ParseDeclensionError>)
        ensures
            r == spec_parse_whole(s@, spec_parse_noun_declension_at(s@, 0)),
    {
        let mut parser = UnsafeParser::new(s);
        match NounDeclension::partial_from_str(&mut parser) {
            Ok(d) => if parser.finished() {
                Ok(d)
            } else {
                Err(ParseDeclensionError::Invalid)
            },
            Err(e) => Err(e),
        }
    }
}

impl std::str::FromStr for NounDeclension {
    type Err = ParseDeclensionError;

    fn from_str(s: &str) -> (r: Result<NounDeclension, ParseDeclensionError>)
        ensures
            r == spec_parse_whole(s@, spec_parse_noun_declension_at(s@, 0)),
    {
        NounDeclension::parse_str(s)
    }
}

impl PronounDeclension {
    /// Parses a pronoun declension at the parser's position, such as `6*f①`.
    pub fn partial_from_str(parser: &mut UnsafeParser) -> (r: Result<PronounDeclension, ParseDeclensionError>)
        ensures
            final(parser).chars() == old(parser).chars(),
            match spec_parse_pronoun_declension_at(old(parser).chars(), old(parser).pos()) {
                Ok((d, p)) => r == Ok::<PronounDeclension, ParseDeclensionError>(d) && final(parser).pos() == p,
                Err(e) => r == Err::<PronounDeclension, ParseDeclensionError>(e),
            },
    {
        match parse_declension_any(parser) {
            Ok(d) => d.into_pronoun(),
            Err(e) => Err(e),
        }
    }

    /// Parses a string as a pronoun declension, such as `6*f(1)`.
    pub fn parse_str(s: &str) -> (r: Result<PronounDeclension, ParseDeclensionError>)
        ensures
            r == spec_parse_whole(s@, spec_parse_pronoun_declension_at(s@, 0)),
    {
        let mut parser = UnsafeParser::new(s);
        match PronounDeclension::partial_from_str(&mut parser) {
            Ok(d) => if parser.finished() {
                Ok(d)
            } else {
                Err(ParseDeclensionError::Invalid)
            },
            Err(e) => Err(e),
        }
    }
}

impl std::str::FromStr for PronounDeclension {
    type Err = ParseDeclensionError;

    fn from_str(s: &str) -> (r: Result<PronounDeclension, ParseDeclensionError>)
        ensures
            r == spec_parse_whole(s@, spec_parse_pronoun_declension_at(s@, 0)),
    {
        PronounDeclension::parse_str(s)
    }
}

impl AdjectiveDeclension {
    /// Parses an adjective declension at the parser's position, such as `2*a/c″`.
    pub fn partial_from_str(parser: &mut UnsafeParser) -> (r: Result<AdjectiveDeclension, ParseDeclensionError>)
        ensures
            final(parser).chars() == old(parser).chars(),
            match spec_parse_adjective_declension_at(old(parser).chars(), old(parser).pos()) {
                Ok((d, p)) => r == Ok::<AdjectiveDeclension, ParseDeclensionError>(d) && final(parser).pos() == p,
                Err(e) => r == Err::<AdjectiveDeclension, ParseDeclensionError>(e),
            },
    {
        match parse_declension_any(parser) {
            Ok(d) => d.into_adjective(),
            Err(e) => Err(e),
        }
    }

    /// Parses a string as an adjective declension, such as `2*a/c''`.
    pub fn parse_str(s: &str) -> (r: Result<AdjectiveDeclension, ParseDeclensionError>)
        ensures
            r == spec_parse_whole(s@, spec_parse_adjective_declension_at(s@, 0)),
    {
        let mut parser = UnsafeParser::new(s);
        match AdjectiveDeclension::partial_from_str(&mut parser) {
            Ok(d) => if parser.finished() {
                Ok(d)
            } else {
                Err(ParseDeclensionError::Invalid)
            },
            Err(e) => Err(e),
        }
    }
}

impl std::str::FromStr for AdjectiveDeclension {
    type Err = ParseDeclensionError;

    fn from_str(s: &str) -> (r: Result<AdjectiveDeclension, ParseDeclensionError>)
        ensures
            r == spec_parse_whole(s@, spec_parse_adjective_declension_at(s@, 0)),
    {
        AdjectiveDeclension::parse_str(s)
    }
}

impl Declension {
    /// Parses a declension at the parser's position: `мс ` announces a pronoun declension,
    /// `п ` an adjective declension, and anything else a noun declension.
    pub fn partial_from_str(parser: &mut UnsafeParser) -> (r: Result<Declension, ParseDeclensionError>)
        ensures
            final(parser).chars() == old(parser).chars(),
            match spec_parse_declension_at(old(parser).chars(), old(parser).pos()) {
                Ok((d, p)) => r == Ok::<Declension, ParseDeclensionError>(d) && final(parser).pos() == p,
                Err(e) => r == Err::<Declension, ParseDeclensionError>(e),
            },
    {
        let c0 = parser.peek_char();
        let c1 = parser.peek_at(1);
        let c2 = parser.peek_at(2);
        let c3 = parser.peek_at(3);
        let (kind, len): (DeclensionKind, usize) = if c0 == Some('м') && c1 == Some('с') && c2 == Some(' ') {
            (DeclensionKind::Pronoun, 3)
        } else if c0 == Some('п') && c1 == Some(' ') && (c3.is_some() || match c2 {
            Some(c) => utf8_len(c) >= 2,
            None => false,
        }) {
            (DeclensionKind::Adjective, 2)
        } else {
            (DeclensionKind::Noun, 0)
        };
        parser.forward(len);
        let d = match parse_declension_any(parser) {
            Ok(d) => d,
            Err(e) => return Err(e),
        };
        match kind {
            DeclensionKind::Noun => match d.into_noun() {
                Ok(x) => Ok(Declension::Noun(x)),
                Err(e) => Err(e),
            },
            DeclensionKind::Pronoun => match d.into_pronoun() {
                Ok(x) => Ok(Declension::Pronoun(x)),
                Err(e) => Err(e),
            },
            DeclensionKind::Adjective => match d.into_adjective() {
                Ok(x) => Ok(Declension::Adjective(x)),
                Err(e) => Err(e),
            },
        }
    }

    /// Parses a string as a declension, such as `3°b′, ё`, `мс 6*f(1)` or `п 4*b/a′(2)`.
    pub fn parse_str(s: &str) -> (r: Result<Declension, ParseDeclensionError>)
        ensures
            r == spec_parse_whole(s@, spec_parse_declension_at(s@, 0)),
    {
        let mut parser = UnsafeParser::new(s);
        match Declension::partial_from_str(&mut parser) {
            Ok(d) => if parser.finished() {
                Ok(d)
            } else {
                Err(ParseDeclensionError::Invalid)
            },
            Err(e) => Err(e),
        }
    }
}

impl std::str::FromStr for Declension {
    type Err = ParseDeclensionError;

    fn from_str(s: &str) -> (r: Result<Declension, ParseDeclensionError>)
        ensures
            r == spec_parse_whole(s@, spec_parse_declension_at(s@, 0)),
    {
        Declension::parse_str(s)
    }
}

/// The stem type that a stem's last letter gives, and the letter after it, if any: 3 after
/// г, к and х; 4 after ж, ч, ш and щ; 5 after ц; 6 after a vowel, й or ь (but и); 7 after и;
/// and after another consonant 1 if the next letter is hard (none, а, о, у, ы or э), else 2.
pub open spec fn spec_identify_any(stem: Utf8Letter, after: Option<Utf8Letter>) -> Option<AnyStemType> {
    match stem {
        Utf8Letter::G | Utf8Letter::K | Utf8Letter::Kh => Some(AnyStemType::Type3),
        Utf8Letter::Zh | Utf8Letter::Ch | Utf8Letter::Sh | Utf8Letter::Shch => Some(AnyStemType::Type4),
        Utf8Letter::Ts => Some(AnyStemType::Type5),
        Utf8Letter::A | Utf8Letter::Ye | Utf8Letter::Iy | Utf8Letter::O | Utf8Letter::U
        | Utf8Letter::Y | Utf8Letter::SoftSign | Utf8Letter::E | Utf8Letter::Yu | Utf8Letter::Ya
        | Utf8Letter::Yo => Some(AnyStemType::Type6),
        Utf8Letter::I => Some(AnyStemType::Type7),
        Utf8Letter::HardSign => None,
        _ => {
            let hard = match after {
                None => true,
                Some(a) => a == Utf8Letter::A || a == Utf8Letter::O || a == Utf8Letter::U || a
                    == Utf8Letter::Y || a == Utf8Letter::E,
            };
            if hard {
                Some(AnyStemType::Type1)
            } else {
                Some(AnyStemType::Type2)
            }
        },
    }
}

/// Identifies the stem type from a stem's last letter and the letter after it.
fn identify_any(stem: Utf8Letter, after: Option<Utf8Letter>) -> (r: Option<AnyStemType>)
    ensures
        r == spec_identify_any(stem, after),
{
    match stem {
        Utf8Letter::G | Utf8Letter::K | Utf8Letter::Kh => Some(AnyStemType::Type3),
        Utf8Letter::Zh | Utf8Letter::Ch | Utf8Letter::Sh | Utf8Letter::Shch => Some(AnyStemType::Type4),
        Utf8Letter::Ts => Some(AnyStemType::Type5),
        Utf8Letter::A | Utf8Letter::Ye | Utf8Letter::Iy | Utf8Letter::O | Utf8Letter::U
        | Utf8Letter::Y | Utf8Letter::SoftSign | Utf8Letter::E | Utf8Letter::Yu | Utf8Letter::Ya
        | Utf8Letter::Yo => Some(AnyStemType::Type6),
        Utf8Letter::I => Some(AnyStemType::Type7),
        Utf8Letter::HardSign => None,
        _ => {
            let hard = match after {
                None => true,
                Some(a) => matches!(a, Utf8Letter::A | Utf8Letter::O | Utf8Letter::U | Utf8Letter::Y | Utf8Letter::E),
            };
            if hard {
                Some(AnyStemType::Type1)
            } else {
                Some(AnyStemType::Type2)
            }
        },
    }
}

/// A noun's stem length and stem type, identified from the whole word: a trailing vowel, й or
/// ь is not part of the stem, and the stem type follows from the stem's last letter.
pub open spec fn spec_identify_noun(word: Seq<Utf8Letter>) -> Option<(int, AnyStemType)> {
    if word.len() == 0 {
        None
    } else {
        let last = word.last();
        if last.spec_is_stem_trim_letter() {
            if word.len() < 2 {
                None
            } else {
                match spec_identify_any(word[word.len() - 2], Some(last)) {
                    Some(t) => Some((word.len() - 1, t)),
                    None => None,
                }
            }
        } else {
            match spec_identify_any(last, None) {
                Some(t) => Some((word.len() as int, t)),
                None => None,
            }
        }
    }
}

/// Identifies a noun's stem length and stem type from the whole word.
fn identify_noun(word: &[Utf8Letter]) -> (r: Option<(usize, AnyStemType)>)
    ensures
        r is Some <==> spec_identify_noun(word@) is Some,
        r is Some ==> spec_identify_noun(word@) == Some((r.unwrap().0 as int, r.unwrap().1)),
        r is Some ==> r.unwrap().0 <= word@.len(),
{
    let n = word.len();
    if n == 0 {
        return None;
    }
    let last = word[n - 1];
    if last.is_stem_trim_letter() {
        if n < 2 {
            return None;
        }
        match identify_any(word[n - 2], Some(last)) {
            Some(t) => Some((n - 1, t)),
            None => None,
        }
    } else {
        match identify_any(last, None) {
            Some(t) => Some((n, t)),
            None => None,
        }
    }
}

impl NounStemType {
    /// Identifies a noun's stem and stem type from the whole word: a trailing vowel, й or ь is
    /// not part of the stem, and the stem type follows from the stem's last letter. Returns
    /// `None` if the word has no stem letter, or the stem ends with ъ.
    pub fn identify(word: &[Utf8Letter]) -> (r: Option<(&[Utf8Letter], NounStemType)>)
        ensures
            match spec_identify_noun(word@) {
                Some((n, t)) => r is Some && r.unwrap().0@ == word@.take(n) && r.unwrap().1
                    == t.spec_noun().unwrap(),
                None => r is None,
            },
    {
        match identify_noun(word) {
            Some((n, t)) => {
                let (stem, _) = word.split_at(n);
                let ty = NounStemType::from(t);
                assert(spec_identify_noun(word@) == Some((n as int, t)));
                Some((stem, ty))
            },
            None => None,
        }
    }
}

impl PronounStemType {
    /// Identifies a pronoun's stem and stem type from the whole word, as for nouns; returns
    /// `None` also if the stem type is not 1, 2, 4 or 6.
    pub fn identify(word: &[Utf8Letter]) -> (r: Option<(&[Utf8Letter], PronounStemType)>)
        ensures
            match spec_identify_noun(word@) {
                Some((n, t)) => match t.spec_pronoun() {
                    Some(pt) => r matches Some((stem, ty)) && stem@ == word@.take(n) && ty == pt,
                    None => r is None,
                },
                None => r is None,
            },
    {
        match identify_noun(word) {
            Some((n, t)) => match PronounStemType::try_from(t) {
                Ok(pt) => {
                    assert(spec_identify_noun(word@) == Some((n as int, t)));
                    let (stem, _) = word.split_at(n);
                    Some((stem, pt))
                },
                Err(_) => None,
            },
            None => None,
        }
    }
}

/// An adjective's stem length, stem type and reflexiveness, identified from the whole word: a
/// trailing ся is removed (the adjective is then reflexive), then the two-letter ending, and
/// the stem type follows from the stem's last letter and the ending's first letter.
pub open spec fn spec_identify_adjective(word: Seq<Utf8Letter>) -> Option<(int, AnyStemType, bool)> {
    let reflexive = word.len() >= 2 && word[word.len() - 2] == Utf8Letter::S && word.last()
        == Utf8Letter::Ya;
    let w = if reflexive { word.drop_last().drop_last() } else { word };
    if w.len() < 3 {
        None
    } else {
        match spec_identify_any(w[w.len() - 3], Some(w[w.len() - 2])) {
            Some(t) => Some((w.len() - 2, t, reflexive)),
            None => None,
        }
    }
}

impl AdjectiveStemType {
    /// Identifies an adjective's stem, stem type and reflexiveness from the whole word: a
    /// trailing ся is removed, then the two-letter ending. Returns `None` if no stem letter is
    /// left, or the stem type is not 1-6.
    pub fn identify(word: &[Utf8Letter]) -> (r: Option<(&[Utf8Letter], AdjectiveStemType, bool)>)
        ensures
            match spec_identify_adjective(word@) {
                Some((n, t, refl)) => match t.spec_adjective() {
                    Some(at) => r matches Some((stem, ty, is_refl)) && stem@ == word@.take(n) && ty
                        == at && is_refl == refl,
                    None => r is None,
                },
                None => r is None,
            },
    {
        let n = word.len();
        let reflexive = n >= 2 && word[n - 2] == Utf8Letter::S && word[n - 1] == Utf8Letter::Ya;
        let m = if reflexive { n - 2 } else { n };
        proof {
            let w = if reflexive { word@.drop_last().drop_last() } else { word@ };
            assert(w =~= word@.take(m as int));
        }
        if m < 3 {
            return None;
        }
        match identify_any(word[m - 3], Some(word[m - 2])) {
            Some(t) => match AdjectiveStemType::try_from(t) {
                Ok(at) => {
                    let (stem, _) = word.split_at(m - 2);
                    Some((stem, at, reflexive))
                },
                Err(_) => None,
            },
            None => None,
        }
    }
}

impl NounStemType {
    /// Identifies a noun's stem type from the whole word, and sets the word's stem length to
    /// that of the stem found. Returns `None`, and leaves the word as it is, if there is none.
    pub fn identify_trim(word: &mut WordBuf) -> (r: Option<NounStemType>)
        ensures
            final(word).letters() == old(word).letters(),
            final(word).stress_at() == old(word).stress_at(),
            match spec_identify_noun(old(word).letters()) {
                Some((n, t)) => r == t.spec_noun() && final(word).stem_len() == n,
                None => r is None && final(word).stem_len() == old(word).stem_len(),
            },
    {
        let found = match NounStemType::identify(word.as_letters()) {
            Some((stem, ty)) => Some((stem.len(), ty)),
            None => None,
        };
        match found {
            Some((n, ty)) => {
                word.set_stem_len(n);
                Some(ty)
            },
            None => None,
        }
    }
}

impl PronounStemType {
    /// Identifies a pronoun's stem type from the whole word, and sets the word's stem length
    /// to that of the stem found. Returns `None`, and leaves the word as it is, if there is
    /// none.
    pub fn identify_trim(word: &mut WordBuf) -> (r: Option<PronounStemType>)
        ensures
            final(word).letters() == old(word).letters(),
            final(word).stress_at() == old(word).stress_at(),
            match spec_identify_noun(old(word).letters()) {
                Some((n, t)) => match t.spec_pronoun() {
                    Some(pt) => r == Some(pt) && final(word).stem_len() == n,
                    None => r is None && final(word).stem_len() == old(word).stem_len(),
                },
                None => r is None && final(word).stem_len() == old(word).stem_len(),
            },
    {
        let found = match PronounStemType::identify(word.as_letters()) {
            Some((stem, ty)) => Some((stem.len(), ty)),
            None => None,
        };
        match found {
            Some((n, ty)) => {
                word.set_stem_len(n);
                Some(ty)
            },
            None => None,
        }
    }
}

impl AdjectiveStemType {
    /// Identifies an adjective's stem type and reflexiveness from the whole word, and sets the
    /// word's stem length to that of the stem found. Returns `None`, and leaves the word as it
    /// is, if there is none.
    pub fn identify_trim(word: &mut WordBuf) -> (r: Option<(AdjectiveStemType, bool)>)
        ensures
            final(word).letters() == old(word).letters(),
            final(word).stress_at() == old(word).stress_at(),
            match spec_identify_adjective(old(word).letters()) {
                Some((n, t, refl)) => match t.spec_adjective() {
                    Some(at) => r == Some((at, refl)) && final(word).stem_len() == n,
                    None => r is None && final(word).stem_len() == old(word).stem_len(),
                },
                None => r is None && final(word).stem_len() == old(word).stem_len(),
            },
    {
        let found = match AdjectiveStemType::identify(word.as_letters()) {
            Some((stem, ty, refl)) => Some((stem.len(), ty, refl)),
            None => None,
        };
        match found {
            Some((n, ty, refl)) => {
                word.set_stem_len(n);
                Some((ty, refl))
            },
            None => None,
        }
    }
}

/// The letters that may end a noun or pronoun after its stem: а, е, и, й, о, у, ы, ь, э, ю,
/// я, ё.
pub open spec fn spec_is_noun_ending_letter(l: Utf8Letter) -> bool {
    l == Utf8Letter::A || l == Utf8Letter::Ye || l == Utf8Letter::I || l == Utf8Letter::Iy || l
        == Utf8Letter::O || l == Utf8Letter::U || l == Utf8Letter::Y || l == Utf8Letter::SoftSign
        || l == Utf8Letter::E || l == Utf8Letter::Yu || l == Utf8Letter::Ya || l == Utf8Letter::Yo
}

/// A consonant that neither is a velar (г, к, х), a sibilant (ж, ч, ш, щ), ц nor ъ: б, в, д,
/// з, л, м, н, п, р, с, т, ф.
pub open spec fn spec_is_plain_consonant(l: Utf8Letter) -> bool {
    l == Utf8Letter::B || l == Utf8Letter::V || l == Utf8Letter::D || l == Utf8Letter::Z || l
        == Utf8Letter::L || l == Utf8Letter::M || l == Utf8Letter::N || l == Utf8Letter::P || l
        == Utf8Letter::R || l == Utf8Letter::S || l == Utf8Letter::T || l == Utf8Letter::F
}

/// A noun written as its stem and at most one ending letter (a vowel, й or ь) is identified
/// with exactly that stem, and its stem type is read off the stem's last letter: 3 after г, к
/// and х (книга); 4 after ж, ч, ш and щ (плечо); 5 after ц (кузнец, девица, лицо); 6 after a
/// vowel other than и, or after й or ь (линия is 7, змея 6); 7 after и; after any other
/// consonant 1 if nothing or а, о, у, ы or э follows (стол), else 2 (конь). A stem ending in ъ
/// is not identified.
pub proof fn law_noun_stem_type_by_last_letter(stem: Seq<Utf8Letter>, ending: Seq<Utf8Letter>)
    requires
        stem.len() >= 1,
        ending.len() <= 1,
        ending.len() == 1 ==> spec_is_noun_ending_letter(ending[0]),
        ending.len() == 0 ==> !spec_is_noun_ending_letter(stem.last()),
    ensures
        ({
            let found = spec_identify_noun(stem + ending);
            &&& (stem.last() == Utf8Letter::G || stem.last() == Utf8Letter::K || stem.last()
                == Utf8Letter::Kh) ==> found == Some((stem.len() as int, AnyStemType::Type3))
            &&& (stem.last() == Utf8Letter::Zh || stem.last() == Utf8Letter::Ch || stem.last()
                == Utf8Letter::Sh || stem.last() == Utf8Letter::Shch) ==> found == Some(
                (stem.len() as int, AnyStemType::Type4),
            )
            &&& stem.last() == Utf8Letter::Ts ==> found == Some(
                (stem.len() as int, AnyStemType::Type5),
            )
            &&& (spec_is_noun_ending_letter(stem.last()) && stem.last() != Utf8Letter::I)
                ==> found == Some((stem.len() as int, AnyStemType::Type6))
            &&& stem.last() == Utf8Letter::I ==> found == Some(
                (stem.len() as int, AnyStemType::Type7),
            )
            &&& stem.last() == Utf8Letter::HardSign ==> found is None
            &&& (spec_is_plain_consonant(stem.last()) && (ending.len() == 0 || ending[0]
                == Utf8Letter::A || ending[0] == Utf8Letter::O || ending[0] == Utf8Letter::U
                || ending[0] == Utf8Letter::Y || ending[0] == Utf8Letter::E)) ==> found == Some(
                (stem.len() as int, AnyStemType::Type1),
            )
            &&& (spec_is_plain_consonant(stem.last()) && ending.len() == 1 && ending[0]
                != Utf8Letter::A && ending[0] != Utf8Letter::O && ending[0] != Utf8Letter::U
                && ending[0] != Utf8Letter::Y && ending[0] != Utf8Letter::E) ==> found == Some(
                (stem.len() as int, AnyStemType::Type2),
            )
        }),
{
    let word = stem + ending;
    if ending.len() == 0 {
        assert(word =~= stem);
    } else {
        assert(word.last() == ending[0]);
        assert(word[word.len() - 2] == stem.last());
    }
}

/// An adjective written as its stem, a two-letter ending and optionally ся is identified with
/// exactly that stem, reflexive if and only if ся was there, and its stem type is read off the
/// stem's last letter and the ending's first letter: 3 after г, к and х (строгий); 4 after ж,
/// ч, ш and щ (хороший); 5 after ц (куцый); 6 after a vowel other than и, or after й or ь
/// (длинношеий); after any other consonant 1 if the ending begins with а, о, у, ы or э
/// (новый), else 2 (синий).
pub proof fn law_adjective_stem_type_by_last_letter(
    stem: Seq<Utf8Letter>,
    ending: Seq<Utf8Letter>,
    reflexive: bool,
)
    requires
        stem.len() >= 1,
        ending.len() == 2,
        !(ending[0] == Utf8Letter::S && ending[1] == Utf8Letter::Ya),
    ensures
        ({
            let word = if reflexive {
                stem + ending + seq![Utf8Letter::S, Utf8Letter::Ya]
            } else {
                stem + ending
            };
            let found = spec_identify_adjective(word);
            let n = stem.len() as int;
            &&& (stem.last() == Utf8Letter::G || stem.last() == Utf8Letter::K || stem.last()
                == Utf8Letter::Kh) ==> found == Some((n, AnyStemType::Type3, reflexive))
            &&& (stem.last() == Utf8Letter::Zh || stem.last() == Utf8Letter::Ch || stem.last()
                == Utf8Letter::Sh || stem.last() == Utf8Letter::Shch) ==> found == Some(
                (n, AnyStemType::Type4, reflexive),
            )
            &&& stem.last() == Utf8Letter::Ts ==> found == Some((n, AnyStemType::Type5, reflexive))
            &&& (spec_is_noun_ending_letter(stem.last()) && stem.last() != Utf8Letter::I)
                ==> found == Some((n, AnyStemType::Type6, reflexive))
            &&& stem.last() == Utf8Letter::I ==> found == Some((n, AnyStemType::Type7, reflexive))
            &&& stem.last() == Utf8Letter::HardSign ==> found is None
            &&& (spec_is_plain_consonant(stem.last()) && (ending[0] == Utf8Letter::A || ending[0]
                == Utf8Letter::O || ending[0] == Utf8Letter::U || ending[0] == Utf8Letter::Y
                || ending[0] == Utf8Letter::E)) ==> found == Some(
                (n, AnyStemType::Type1, reflexive),
            )
            &&& (spec_is_plain_consonant(stem.last()) && ending[0] != Utf8Letter::A && ending[0]
                != Utf8Letter::O && ending[0] != Utf8Letter::U && ending[0] != Utf8Letter::Y
                && ending[0] != Utf8Letter::E) ==> found == Some(
                (n, AnyStemType::Type2, reflexive),
            )
        }),
{
    let plain = stem + ending;
    let word = if reflexive {
        plain + seq![Utf8Letter::S, Utf8Letter::Ya]
    } else {
        plain
    };
    if reflexive {
        assert(word.drop_last().drop_last() =~= plain);
        assert(word[word.len() - 2] == Utf8Letter::S);
    } else {
        assert(word[word.len() - 2] == ending[0]);
        assert(word.last() == ending[1]);
    }
    assert(plain[plain.len() - 3] == stem.last());
    assert(plain[plain.len() - 2] == ending[0]);
}


/// A character that cannot continue a declension's text: no prime, `/`, circled digit, `(`
/// or `,`.
pub open spec fn spec_ends_declension(c: char) -> bool {
    !spec_is_prime_char(c) && c != '/' && c != '①' && c != '②' && c != '③' && c != '(' && c
        != ','
}

/// A character that cannot continue circled digits: no circled digit and no `(`.
pub open spec fn spec_ends_digits(c: char) -> bool {
    c != '①' && c != '②' && c != '③' && c != '('
}

/// The text of the circled digits of `f` greater than `last`.
pub open spec fn spec_fmt_digits_above(f: DeclensionFlags, last: u8) -> Seq<char> {
    (if last < 1 && f.circled_one { seq!['①'] } else { Seq::<char>::empty() })
        + (if last < 2 && f.circled_two { seq!['②'] } else { Seq::<char>::empty() })
        + (if last < 3 && f.circled_three { seq!['③'] } else { Seq::<char>::empty() })
}

/// `s` holds `t` at `pos`.
pub open spec fn spec_holds_at(s: Seq<char>, pos: int, t: Seq<char>) -> bool {
    0 <= pos && pos + t.len() <= s.len() && s.subrange(pos, pos + t.len()) == t
}

proof fn lemma_holds_at_split(s: Seq<char>, pos: int, a: Seq<char>, b: Seq<char>)
    requires
        spec_holds_at(s, pos, a + b),
    ensures
        spec_holds_at(s, pos, a),
        spec_holds_at(s, pos + a.len(), b),
{
    assert(s.subrange(pos, pos + a.len()) =~= a) by {
        assert forall|i: int| 0 <= i < a.len() implies s.subrange(pos, pos + a.len())[i] == a[i] by {
            assert(s.subrange(pos, pos + (a + b).len())[i] == (a + b)[i]);
        }
    }
    assert(s.subrange(pos + a.len(), pos + a.len() + b.len()) =~= b) by {
        assert forall|i: int| 0 <= i < b.len() implies s.subrange(pos + a.len(), pos + a.len() + b.len())[i] == b[i] by {
            assert(s.subrange(pos, pos + (a + b).len())[a.len() + i] == (a + b)[a.len() + i]);
        }
    }
}

/// The circled digits of `f` above `last`, written at `pos` and followed by no circled digit,
/// parse back to them, added to `acc`.
proof fn lemma_parse_digits_fmt(f: DeclensionFlags, s: Seq<char>, pos: int, last: u8, acc: DeclensionFlags)
    requires
        last <= 3,
        spec_holds_at(s, pos, spec_fmt_digits_above(f, last)),
        pos + spec_fmt_digits_above(f, last).len() < s.len() ==> spec_ends_digits(
            s[pos + spec_fmt_digits_above(f, last).len()],
        ),
    ensures
        spec_parse_digits_from(s, pos, last, acc) == Ok::<(DeclensionFlags, int), ParseDeclensionError>((
            DeclensionFlags {
                circled_one: acc.circled_one || (last < 1 && f.circled_one),
                circled_two: acc.circled_two || (last < 2 && f.circled_two),
                circled_three: acc.circled_three || (last < 3 && f.circled_three),
                ..acc
            },
            pos + spec_fmt_digits_above(f, last).len(),
        )),
    decreases 3 - last,
{
    let t = spec_fmt_digits_above(f, last);
    let next: u8 = if last < 1 && f.circled_one {
        1
    } else if last < 2 && f.circled_two {
        2
    } else if last < 3 && f.circled_three {
        3
    } else {
        0
    };
    if next == 0 {
        assert(t.len() == 0);
        if pos < s.len() {
            assert(spec_ends_digits(s[pos]));
        }
        assert(spec_circled_digit_at(s, pos) is None);
        assert(acc == DeclensionFlags {
            circled_one: acc.circled_one || (last < 1 && f.circled_one),
            circled_two: acc.circled_two || (last < 2 && f.circled_two),
            circled_three: acc.circled_three || (last < 3 && f.circled_three),
            ..acc
        });
    } else {
        assert(s[pos] == t[0]) by {
            assert(s.subrange(pos, pos + t.len())[0] == t[0]);
        }
        let rest = spec_fmt_digits_above(f, next);
        assert(t =~= t.subrange(0, 1) + rest);
        lemma_holds_at_split(s, pos, t.subrange(0, 1), rest);
        assert(spec_circled_digit_at(s, pos) == Some((next, 1int)));
        let acc2 = acc.spec_union(DeclensionFlags::spec_circled_digit(next).unwrap());
        lemma_parse_digits_fmt(f, s, pos + 1, next, acc2);
    }
}

/// The trailing flags of `f`, written at `pos` and followed by a character that ends a
/// declension, parse back to them, added to `acc`.
proof fn lemma_parse_trailing_fmt(f: DeclensionFlags, s: Seq<char>, pos: int, acc: DeclensionFlags)
    requires
        !acc.circled_one && !acc.circled_two && !acc.circled_three && !acc.alternating_yo,
        spec_holds_at(s, pos, f.spec_fmt_trailing()),
        pos + f.spec_fmt_trailing().len() < s.len() ==> spec_ends_declension(
            s[pos + f.spec_fmt_trailing().len()],
        ),
    ensures
        spec_parse_trailing_at(s, pos, acc) == Ok::<(DeclensionFlags, int), ParseDeclensionError>((
            DeclensionFlags {
                circled_one: f.circled_one,
                circled_two: f.circled_two,
                circled_three: f.circled_three,
                alternating_yo: f.alternating_yo,
                ..acc
            },
            pos + f.spec_fmt_trailing().len(),
        )),
{
    let d = spec_fmt_digits_above(f, 0);
    let y = if f.alternating_yo { seq![',', ' ', 'ё'] } else { Seq::<char>::empty() };
    assert(f.spec_fmt_trailing() =~= d + y);
    lemma_holds_at_split(s, pos, d, y);
    let p = pos + d.len();
    if p < s.len() {
        if f.alternating_yo {
            assert(s[p] == ',') by {
                assert(s.subrange(p, p + y.len())[0] == y[0]);
            }
        } else {
            assert(spec_ends_declension(s[p]));
        }
    }
    lemma_parse_digits_fmt(f, s, pos, 0, acc);
    if f.alternating_yo {
        assert(s[p + 1] == ' ' && s[p + 2] == 'ё') by {
            assert(s.subrange(p, p + y.len())[1] == y[1]);
            assert(s.subrange(p, p + y.len())[2] == y[2]);
        }
    } else if p < s.len() {
        assert(!spec_yo_at(s, p));
    }
}

/// The leading flags of `f`, written at `pos` and followed by no leading flag, parse back to
/// them.
proof fn lemma_parse_leading_fmt(f: DeclensionFlags, s: Seq<char>, pos: int)
    requires
        spec_holds_at(s, pos, f.spec_fmt_leading()),
        pos + f.spec_fmt_leading().len() < s.len() ==> s[pos + f.spec_fmt_leading().len()] != '°'
            && s[pos + f.spec_fmt_leading().len()] != '*',
    ensures
        spec_parse_leading_at(s, pos, DeclensionFlags::spec_empty()) == (
            DeclensionFlags { circle: f.circle, star: f.star, ..DeclensionFlags::spec_empty() },
            pos + f.spec_fmt_leading().len(),
        ),
{
    let t = f.spec_fmt_leading();
    if f.circle {
        assert(s[pos] == '°') by {
            assert(s.subrange(pos, pos + t.len())[0] == t[0]);
        }
    }
    if f.star {
        let i: int = if f.circle { 1 } else { 0 };
        assert(s[pos + i] == '*') by {
            assert(s.subrange(pos, pos + t.len())[i] == t[i]);
        }
    }
}

/// A stem type's digit is 1-8, and gives the stem type back.
proof fn lemma_stem_type_digit(t: AnyStemType)
    ensures
        '1' <= spec_digit_char(t.spec_digit()) <= '8',
        spec_char_digit(spec_digit_char(t.spec_digit())) == Some(t.spec_digit()),
        AnyStemType::spec_from_digit(t.spec_digit()) == Some(t),
{
    match t {
        AnyStemType::Type1 => {},
        AnyStemType::Type2 => {},
        AnyStemType::Type3 => {},
        AnyStemType::Type4 => {},
        AnyStemType::Type5 => {},
        AnyStemType::Type6 => {},
        AnyStemType::Type7 => {},
        AnyStemType::Type8 => {},
    }
}

/// A declension's text, written at `pos` and followed by the end of the string or by a
/// character that ends a declension, parses back to the declension.
#[verifier::rlimit(80)]
pub proof fn lemma_parse_declension_any_fmt(d: AnyDeclension, s: Seq<char>, pos: int)
    requires
        spec_holds_at(s, pos, spec_fmt_declension(d.stem_type, d.stress, d.flags)),
        pos + spec_fmt_declension(d.stem_type, d.stress, d.flags).len() < s.len()
            ==> spec_ends_declension(s[pos + spec_fmt_declension(d.stem_type, d.stress, d.flags).len()]),
    ensures
        spec_parse_declension_any_at(s, pos) == Ok::<(AnyDeclension, int), ParseDeclensionError>((
            d,
            pos + spec_fmt_declension(d.stem_type, d.stress, d.flags).len(),
        )),
{
    let f = d.flags;
    let dg = seq![spec_digit_char(d.stem_type.spec_digit())];
    let ld = f.spec_fmt_leading();
    let st = d.stress.spec_fmt();
    let tr = f.spec_fmt_trailing();
    let t = spec_fmt_declension(d.stem_type, d.stress, d.flags);
    assert(t =~= dg + (ld + (st + tr)));
    lemma_holds_at_split(s, pos, dg, ld + (st + tr));
    lemma_holds_at_split(s, pos + 1, ld, st + tr);
    lemma_holds_at_split(s, pos + 1 + ld.len(), st, tr);
    let p1 = pos + 1 + ld.len();
    let p2 = p1 + st.len();
    lemma_stem_type_digit(d.stem_type);
    assert(s[pos] == dg[0]) by {
        assert(s.subrange(pos, pos + 1)[0] == dg[0]);
    }
    let main = d.stress.main.spec_fmt();
    assert(st[0] == main[0]);
    assert(s[p1] == st[0]) by {
        assert(s.subrange(p1, p1 + st.len())[0] == st[0]);
    }
    lemma_parse_leading_fmt(f, s, pos + 1);
    if p2 < s.len() {
        if tr.len() > 0 {
            assert(s[p2] == tr[0]) by {
                assert(s.subrange(p2, p2 + tr.len())[0] == tr[0]);
            }
        }
    }
    lemma_parse_dual_at_fmt(d.stress, s, p1);
    let f1 = DeclensionFlags { circle: f.circle, star: f.star, ..DeclensionFlags::spec_empty() };
    lemma_parse_trailing_fmt(f, s, p2, f1);
    assert(DeclensionFlags {
        circled_one: f.circled_one,
        circled_two: f.circled_two,
        circled_three: f.circled_three,
        alternating_yo: f.alternating_yo,
        ..f1
    } == f);
}

/// Formatting declension flags and parsing the text gives the flags back.
pub proof fn law_flags_parse_fmt(f: DeclensionFlags)
    ensures
        spec_parse_flags(f.spec_fmt()) == Ok::<DeclensionFlags, ParseDeclensionError>(f),
{
    let s = f.spec_fmt();
    assert(s.subrange(0, s.len() as int) =~= s);
    lemma_holds_at_split(s, 0, f.spec_fmt_leading(), f.spec_fmt_trailing());
    let l = f.spec_fmt_leading().len() as int;
    if l < s.len() {
        assert(s[l] == f.spec_fmt_trailing()[0]);
    }
    lemma_parse_leading_fmt(f, s, 0);
    let f1 = DeclensionFlags { circle: f.circle, star: f.star, ..DeclensionFlags::spec_empty() };
    lemma_parse_trailing_fmt(f, s, l, f1);
    assert(DeclensionFlags {
        circled_one: f.circled_one,
        circled_two: f.circled_two,
        circled_three: f.circled_three,
        alternating_yo: f.alternating_yo,
        ..f1
    } == f);
}


/// A noun declension's text, alone in a string, parses back to it.
proof fn lemma_parse_noun_declension_fmt(d: NounDeclension)
    ensures
        spec_parse_declension_any_at(d.spec_fmt(), 0) == Ok::<(AnyDeclension, int), ParseDeclensionError>((
            AnyDeclension {
                stem_type: d.stem_type.spec_any(),
                flags: d.flags,
                stress: AnyDualStress { main: d.stress.spec_any(), alt: None },
            },
            d.spec_fmt().len() as int,
        )),
{
    let s = d.spec_fmt();
    assert(s.subrange(0, s.len() as int) =~= s);
    lemma_parse_declension_any_fmt(
        AnyDeclension {
            stem_type: d.stem_type.spec_any(),
            flags: d.flags,
            stress: AnyDualStress { main: d.stress.spec_any(), alt: None },
        },
        s,
        0,
    );
}

/// Formatting a noun declension and parsing the text gives the declension back.
pub proof fn law_noun_declension_parse_fmt(d: NounDeclension)
    ensures
        spec_parse_whole(d.spec_fmt(), spec_parse_noun_declension_at(d.spec_fmt(), 0)) == Ok::<
            NounDeclension,
            ParseDeclensionError,
        >(d),
{
    lemma_parse_noun_declension_fmt(d);
    law_stress_conversions_round_trip(
        d.stress,
        PronounStress::A,
        AdjectiveFullStress::A,
        AdjectiveShortStress::A,
        VerbPresentStress::A,
        VerbPastStress::A,
    );
    assert(d.stem_type.spec_any().spec_noun() == Some(d.stem_type));
}

/// Formatting a pronoun declension and parsing the text gives the declension back.
pub proof fn law_pronoun_declension_parse_fmt(d: PronounDeclension)
    ensures
        spec_parse_whole(d.spec_fmt(), spec_parse_pronoun_declension_at(d.spec_fmt(), 0)) == Ok::<
            PronounDeclension,
            ParseDeclensionError,
        >(d),
{
    let s = d.spec_fmt();
    assert(s.subrange(0, s.len() as int) =~= s);
    let a = AnyDeclension {
        stem_type: d.stem_type.spec_any(),
        flags: d.flags,
        stress: AnyDualStress { main: d.stress.spec_any(), alt: None },
    };
    lemma_parse_declension_any_fmt(a, s, 0);
    law_stress_conversions_round_trip(
        NounStress::A,
        d.stress,
        AdjectiveFullStress::A,
        AdjectiveShortStress::A,
        VerbPresentStress::A,
        VerbPastStress::A,
    );
    assert(d.stem_type.spec_any().spec_pronoun() == Some(d.stem_type));
}

/// Formatting an adjective declension (with its stress abbreviated) and parsing the text gives
/// the declension back.
pub proof fn law_adjective_declension_parse_fmt(d: AdjectiveDeclension)
    ensures
        spec_parse_whole(d.spec_fmt(), spec_parse_adjective_declension_at(d.spec_fmt(), 0)) == Ok::<
            AdjectiveDeclension,
            ParseDeclensionError,
        >(d),
{
    let s = d.spec_fmt();
    assert(s.subrange(0, s.len() as int) =~= s);
    let a = AnyDeclension { stem_type: d.stem_type.spec_any(), flags: d.flags, stress: d.stress.spec_abbr() };
    lemma_parse_declension_any_fmt(a, s, 0);
    law_adjective_stress_round_trip(d.stress);
    assert(d.stem_type.spec_any().spec_adjective() == Some(d.stem_type));
}


/// A declension's text after a prefix, alone after it in a string, parses back to the
/// declension, ending at the string's end.
proof fn lemma_parse_any_after_prefix(d: AnyDeclension, prefix: Seq<char>)
    ensures
        spec_parse_declension_any_at(
            prefix + spec_fmt_declension(d.stem_type, d.stress, d.flags),
            prefix.len() as int,
        ) == Ok::<(AnyDeclension, int), ParseDeclensionError>((
            d,
            (prefix + spec_fmt_declension(d.stem_type, d.stress, d.flags)).len() as int,
        )),
{
    let t = spec_fmt_declension(d.stem_type, d.stress, d.flags);
    let s = prefix + t;
    assert(s.subrange(prefix.len() as int, (prefix.len() + t.len()) as int) =~= t);
    lemma_parse_declension_any_fmt(d, s, prefix.len() as int);
}

/// A declension's text is at least two characters long, and starts with a digit.
proof fn lemma_fmt_declension_start(d: AnyDeclension)
    ensures
        spec_fmt_declension(d.stem_type, d.stress, d.flags).len() >= 2,
        '1' <= spec_fmt_declension(d.stem_type, d.stress, d.flags)[0] <= '8',
{
    lemma_stem_type_digit(d.stem_type);
    let main = d.stress.main.spec_fmt();
    assert(main.len() >= 1);
}

proof fn lemma_parse_declension_noun(n: NounDeclension)
    ensures
        spec_parse_whole(n.spec_fmt(), spec_parse_declension_at(n.spec_fmt(), 0)) == Ok::<
            Declension,
            ParseDeclensionError,
        >(Declension::Noun(n)),
{
    law_noun_declension_parse_fmt(n);
    let dn = AnyDeclension {
        stem_type: n.stem_type.spec_any(),
        flags: n.flags,
        stress: AnyDualStress { main: n.stress.spec_any(), alt: None },
    };
    lemma_fmt_declension_start(dn);
    lemma_parse_noun_declension_fmt(n);
    assert(spec_declension_prefix_at(n.spec_fmt(), 0) == (DeclensionKind::Noun, 0int));
}

proof fn lemma_parse_declension_pronoun(p: PronounDeclension)
    ensures
        spec_parse_whole(
            seq!['м', 'с', ' '] + p.spec_fmt(),
            spec_parse_declension_at(seq!['м', 'с', ' '] + p.spec_fmt(), 0),
        ) == Ok::<Declension, ParseDeclensionError>(Declension::Pronoun(p)),
{
    law_pronoun_declension_parse_fmt(p);
    let dp = AnyDeclension {
        stem_type: p.stem_type.spec_any(),
        flags: p.flags,
        stress: AnyDualStress { main: p.stress.spec_any(), alt: None },
    };
    let sp = seq!['м', 'с', ' '] + p.spec_fmt();
    lemma_parse_any_after_prefix(dp, seq!['м', 'с', ' ']);
    assert(spec_declension_prefix_at(sp, 0) == (DeclensionKind::Pronoun, 3int));
}

/// An adjective declension, with its stress abbreviated, converts back from a declension of
/// any kind.
proof fn lemma_adjective_declension_any(a: AdjectiveDeclension)
    ensures
        (AnyDeclension { stem_type: a.stem_type.spec_any(), flags: a.flags, stress: a.stress.spec_abbr() }).spec_adjective()
            == Ok::<AdjectiveDeclension, ParseDeclensionError>(a),
{
    law_adjective_stress_round_trip(a.stress);
    assert(a.stem_type.spec_any().spec_adjective() == Some(a.stem_type));
}

proof fn lemma_parse_declension_adjective(a: AdjectiveDeclension)
    ensures
        spec_parse_whole(
            seq!['п', ' '] + a.spec_fmt(),
            spec_parse_declension_at(seq!['п', ' '] + a.spec_fmt(), 0),
        ) == Ok::<Declension, ParseDeclensionError>(Declension::Adjective(a)),
{
    let da = AnyDeclension { stem_type: a.stem_type.spec_any(), flags: a.flags, stress: a.stress.spec_abbr() };
    lemma_adjective_declension_any(a);
    lemma_fmt_declension_start(da);
    let sa = seq!['п', ' '] + a.spec_fmt();
    lemma_parse_any_after_prefix(da, seq!['п', ' ']);
    assert(sa[3] == a.spec_fmt()[1]);
    assert(spec_declension_prefix_at(sa, 0) == (DeclensionKind::Adjective, 2int));
}

/// A noun declension's text parses as a noun declension; with the prefix `мс ` a pronoun
/// declension's text parses as a pronoun declension; with the prefix `п ` an adjective
/// declension's text parses as an adjective declension.
pub proof fn law_declension_parse_prefixed(n: NounDeclension, p: PronounDeclension, a: AdjectiveDeclension)
    ensures
        spec_parse_whole(n.spec_fmt(), spec_parse_declension_at(n.spec_fmt(), 0)) == Ok::<
            Declension,
            ParseDeclensionError,
        >(Declension::Noun(n)),
        spec_parse_whole(
            seq!['м', 'с', ' '] + p.spec_fmt(),
            spec_parse_declension_at(seq!['м', 'с', ' '] + p.spec_fmt(), 0),
        ) == Ok::<Declension, ParseDeclensionError>(Declension::Pronoun(p)),
        spec_parse_whole(
            seq!['п', ' '] + a.spec_fmt(),
            spec_parse_declension_at(seq!['п', ' '] + a.spec_fmt(), 0),
        ) == Ok::<Declension, ParseDeclensionError>(Declension::Adjective(a)),
{
    lemma_parse_declension_noun(n);
    lemma_parse_declension_pronoun(p);
    lemma_parse_declension_adjective(a);
}


/// Each stem type's text parses back to it, and its digit converts back to it.
pub proof fn law_stem_type_parse_fmt(a: AnyStemType, n: NounStemType, p: PronounStemType, j: AdjectiveStemType)
    ensures
        spec_parse_stem_type(seq![spec_digit_char(a.spec_digit())], |d: u8| AnyStemType::spec_from_digit(d))
            == Ok::<AnyStemType, ParseStemTypeError>(a),
        spec_parse_stem_type(seq![spec_digit_char(n.spec_digit())], |d: u8| NounStemType::spec_from_digit(d))
            == Ok::<NounStemType, ParseStemTypeError>(n),
        spec_parse_stem_type(seq![spec_digit_char(p.spec_digit())], |d: u8| PronounStemType::spec_from_digit(d))
            == Ok::<PronounStemType, ParseStemTypeError>(p),
        spec_parse_stem_type(seq![spec_digit_char(j.spec_digit())], |d: u8| AdjectiveStemType::spec_from_digit(d))
            == Ok::<AdjectiveStemType, ParseStemTypeError>(j),
        AnyStemType::spec_from_digit(a.spec_digit()) == Some(a),
        NounStemType::spec_from_digit(n.spec_digit()) == Some(n),
        PronounStemType::spec_from_digit(p.spec_digit()) == Some(p),
        AdjectiveStemType::spec_from_digit(j.spec_digit()) == Some(j),
{
    lemma_stem_type_digit(a);
    lemma_stem_type_digit(n.spec_any());
    lemma_stem_type_digit(p.spec_any());
    lemma_stem_type_digit(j.spec_any());
    assert(n.spec_any().spec_digit() == n.spec_digit());
    assert(p.spec_any().spec_digit() == p.spec_digit());
    assert(j.spec_any().spec_digit() == j.spec_digit());
}


/// A noun declension's text at `pos`, followed by the end of the string or by a character
/// that ends a declension, parses back to the noun declension.
pub proof fn lemma_parse_noun_declension_at_fmt(d: NounDeclension, s: Seq<char>, pos: int)
    requires
        spec_holds_at(s, pos, d.spec_fmt()),
        pos + d.spec_fmt().len() < s.len() ==> spec_ends_declension(s[pos + d.spec_fmt().len()]),
    ensures
        spec_parse_noun_declension_at(s, pos) == Ok::<(NounDeclension, int), ParseDeclensionError>((
            d,
            pos + d.spec_fmt().len(),
        )),
{
    let a = AnyDeclension {
        stem_type: d.stem_type.spec_any(),
        flags: d.flags,
        stress: AnyDualStress { main: d.stress.spec_any(), alt: None },
    };
    lemma_parse_declension_any_fmt(a, s, pos);
    law_stress_conversions_round_trip(
        d.stress,
        PronounStress::A,
        AdjectiveFullStress::A,
        AdjectiveShortStress::A,
        VerbPresentStress::A,
        VerbPastStress::A,
    );
    assert(d.stem_type.spec_any().spec_noun() == Some(d.stem_type));
}

/// An adjective declension's text at `pos`, followed by the end of the string or by a
/// character that ends a declension, parses back to the adjective declension.
pub proof fn lemma_parse_adjective_declension_at_fmt(d: AdjectiveDeclension, s: Seq<char>, pos: int)
    requires
        spec_holds_at(s, pos, d.spec_fmt()),
        pos + d.spec_fmt().len() < s.len() ==> spec_ends_declension(s[pos + d.spec_fmt().len()]),
    ensures
        spec_parse_adjective_declension_at(s, pos) == Ok::<(AdjectiveDeclension, int), ParseDeclensionError>((
            d,
            pos + d.spec_fmt().len(),
        )),
{
    let a = AnyDeclension { stem_type: d.stem_type.spec_any(), flags: d.flags, stress: d.stress.spec_abbr() };
    lemma_parse_declension_any_fmt(a, s, pos);
    lemma_adjective_declension_any(d);
}

/// A declension's text starts with its stem type's digit, 1-8.
pub proof fn lemma_declension_fmt_starts_with_digit(n: NounDeclension, a: AdjectiveDeclension)
    ensures
        n.spec_fmt().len() >= 2,
        '1' <= n.spec_fmt()[0] <= '8',
        a.spec_fmt().len() >= 2,
        '1' <= a.spec_fmt()[0] <= '8',
{
    lemma_fmt_declension_start(AnyDeclension {
        stem_type: n.stem_type.spec_any(),
        flags: n.flags,
        stress: AnyDualStress { main: n.stress.spec_any(), alt: None },
    });
    lemma_fmt_declension_start(AnyDeclension { stem_type: a.stem_type.spec_any(), flags: a.flags, stress: a.stress.spec_abbr() });
}


/// Each kind's stem type converts to [`AnyStemType`] and back unchanged, and a stem type
/// converts to a kind's exactly where the kind has it: any stem type is a noun's, 1, 2, 4 and
/// 6 are a pronoun's, 1-6 an adjective's.
pub proof fn law_stem_type_conversions_round_trip(n: NounStemType, p: PronounStemType, j: AdjectiveStemType, a: AnyStemType)
    ensures
        n.spec_any().spec_noun() == Some(n),
        p.spec_any().spec_pronoun() == Some(p),
        j.spec_any().spec_adjective() == Some(j),
        a.spec_noun() is Some,
        a.spec_pronoun() is Some <==> (a == AnyStemType::Type1 || a == AnyStemType::Type2 || a
            == AnyStemType::Type4 || a == AnyStemType::Type6),
        a.spec_adjective() is Some <==> a != AnyStemType::Type7 && a != AnyStemType::Type8,
        a.spec_noun() matches Some(x) ==> x.spec_any() == a,
        a.spec_pronoun() matches Some(x) ==> x.spec_any() == a,
        a.spec_adjective() matches Some(x) ==> x.spec_any() == a,
{
}

/// A stem type is named by its digit: converting between kinds keeps the digit, and each
/// kind's stem type is found back from its digit: 1-8 for nouns and any word, 1, 2, 4 and 6
/// for pronouns, 1-6 for adjectives.
pub proof fn law_stem_type_digits(n: NounStemType, p: PronounStemType, j: AdjectiveStemType, a: AnyStemType, d: u8)
    ensures
        n.spec_any().spec_digit() == n.spec_digit(),
        p.spec_any().spec_digit() == p.spec_digit(),
        j.spec_any().spec_digit() == j.spec_digit(),
        AnyStemType::spec_from_digit(a.spec_digit()) == Some(a),
        NounStemType::spec_from_digit(n.spec_digit()) == Some(n),
        PronounStemType::spec_from_digit(p.spec_digit()) == Some(p),
        AdjectiveStemType::spec_from_digit(j.spec_digit()) == Some(j),
        AnyStemType::spec_from_digit(d) is Some <==> 1 <= d <= 8,
        NounStemType::spec_from_digit(d) is Some <==> 1 <= d <= 8,
        PronounStemType::spec_from_digit(d) is Some <==> (d == 1 || d == 2 || d == 4 || d == 6),
        AdjectiveStemType::spec_from_digit(d) is Some <==> 1 <= d <= 6,
        AnyStemType::spec_from_digit(d) matches Some(x) ==> x.spec_digit() == d,
{
}

} // verus!
