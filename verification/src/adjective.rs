//! Adjectives: their stems and declension information, and their inflection into full,
//! short and comparative forms.

use crate::categories::{DeclInfo, Gender, Number};
use crate::declension::{Declension, DeclensionKind};
use crate::declension::AdjectiveDeclension;
use crate::inflection::{
    finish_word, lemma_first_letter_at, lemma_first_vowel_exists, lemma_last_letter_at,
    lemma_no_letter, first_letter, first_vowel, last_letter, last_vowel, place_stress, spec_first_letter_from,
    spec_first_vowel, spec_last_letter_before, spec_last_vowel, spec_place_stress, Form,
    InflectionBuf,
};
use crate::letter::Utf8Letter;
use crate::stress::{AdjectiveFullStress, AdjectiveStress, AdjectiveShortStress};
use crate::text::push_char;
use crate::word::{Word, WordBuf};
use vstd::prelude::*;

verus! {

/// An adjective: its stem, and its declension information.
#[derive(Debug, Clone, PartialEq, Eq, Hash)]
pub struct Adjective {
    stem: WordBuf,
    info: AdjectiveInfo,
}

/// Adjective flags: the short form's difficulties (— minus, ✕ cross, ⌧ both), and the lack of
/// a comparative form (~).
#[derive(Debug, Clone, Copy, PartialEq, Eq, Structural, Hash, Default)]
pub struct AdjectiveFlags {
    /// The minus flag (—); with the cross, the boxed cross (⌧).
    pub minus: bool,
    /// The cross flag (✕); with the minus, the boxed cross (⌧).
    pub cross: bool,
    /// The adjective has no comparative form (~).
    pub no_comparative_form: bool,
}

/// An adjective's declension information: its declension, flags and kind.
#[derive(Debug, Clone, Copy, PartialEq, Eq, Structural, Hash)]
pub struct AdjectiveInfo {
    /// The declension, or `None` for an indeclinable adjective.
    pub declension: Option<Declension>,
    /// The adjective flags.
    pub flags: AdjectiveFlags,
    /// The kind of the adjective.
    pub kind: AdjectiveKind,
}

/// The kind of an adjective.
#[derive(Debug, Clone, Copy, PartialEq, Eq, Structural, Hash)]
pub enum AdjectiveKind {
    /// A regular adjective.
    Regular,
    /// A pronoun adjective (мс-п).
    Pronoun,
    /// A numeral adjective (числ.-п).
    Numeral,
}

/// Error type for constructing adjectives.
#[derive(Debug, Clone, Copy, PartialEq, Eq, Structural, Hash)]
pub enum NewAdjectiveError {
    /// The stem is not valid.
    InvalidStem,
    /// The stem does not match the stem type.
    NotMatchingStemType,
}

impl Adjective {
    /// The adjective's stem.
    pub closed spec fn spec_stem(self) -> WordBuf {
        self.stem
    }

    /// The adjective's declension information.
    pub closed spec fn spec_info(self) -> AdjectiveInfo {
        self.info
    }

    /// Constructs an adjective from its stem and declension information.
    pub fn from_stem(stem: WordBuf, info: AdjectiveInfo) -> (r: Adjective)
        ensures
            r.spec_stem() == stem,
            r.spec_info() == info,
    {
        Adjective { stem, info }
    }
}

impl AdjectiveFlags {
    /// No flags.
    pub fn empty() -> (r: AdjectiveFlags)
        ensures
            r == (AdjectiveFlags { minus: false, cross: false, no_comparative_form: false }),
    {
        AdjectiveFlags { minus: false, cross: false, no_comparative_form: false }
    }

    /// Returns `true` if the minus flag (—) is set, alone or within the boxed cross (⌧).
    pub fn has_minus(self) -> (r: bool)
        ensures
            r == self.minus,
    {
        self.minus
    }

    /// Returns `true` if the cross flag (✕) is set, alone or within the boxed cross (⌧).
    pub fn has_cross(self) -> (r: bool)
        ensures
            r == self.cross,
    {
        self.cross
    }

    /// Returns `true` if the adjective has no comparative form (~).
    pub fn has_no_comparative_form(self) -> (r: bool)
        ensures
            r == self.no_comparative_form,
    {
        self.no_comparative_form
    }

    /// Whether the adjective has the short form with the parameters: `Some(true)` without
    /// difficulties; the masculine singular form is missing (`Some(false)`) with ⌧ and
    /// difficult (`None`) with — or ✕; the other forms are difficult (`None`) with ✕ or ⌧.
    pub open spec fn spec_has_short_form(self, info: DeclInfo) -> Option<bool> {
        if !self.minus && !self.cross {
            Some(true)
        } else if info.number == Number::Singular && info.gender == Gender::Masculine {
            if self.minus && self.cross {
                Some(false)
            } else {
                None
            }
        } else if self.cross {
            None
        } else {
            Some(true)
        }
    }

    /// Returns whether the adjective has the short form with the parameters: `Some(true)` if
    /// it has, `Some(false)` if it has not, `None` if it is difficult to form.
    pub fn has_short_form(self, info: DeclInfo) -> (r: Option<bool>)
        ensures
            r == self.spec_has_short_form(info),
    {
        if !self.minus && !self.cross {
            Some(true)
        } else if info.is_singular() && info.gender == Gender::Masculine {
            if self.minus && self.cross {
                Some(false)
            } else {
                None
            }
        } else if self.cross {
            None
        } else {
            Some(true)
        }
    }

    /// The text of the flags: —, ✕ or ⌧, then ~.
    pub open spec fn spec_fmt(self) -> Seq<char> {
        (if self.minus && self.cross {
            seq!['⌧']
        } else if self.cross {
            seq!['✕']
        } else if self.minus {
            seq!['—']
        } else {
            Seq::<char>::empty()
        }) + (if self.no_comparative_form {
            seq!['~']
        } else {
            Seq::<char>::empty()
        })
    }

    /// Appends the text of the flags to `dst`: —, ✕ or ⌧, then ~.
    pub fn fmt_to(self, dst: &mut String)
        ensures
            final(dst)@ == old(dst)@ + self.spec_fmt(),
    {
        if self.minus && self.cross {
            push_char(dst, '⌧');
        } else if self.cross {
            push_char(dst, '✕');
        } else if self.minus {
            push_char(dst, '—');
        }
        if self.no_comparative_form {
            push_char(dst, '~');
        }
        assert(dst@ =~= old(dst)@ + self.spec_fmt());
    }

    /// Returns the text of the flags, such as `✕~`.
    pub fn to_string(&self) -> (r: String)
        ensures
            r@ == self.spec_fmt(),
    {
        let mut s = String::new();
        self.fmt_to(&mut s);
        assert(s@ =~= self.spec_fmt());
        s
    }
}

impl AdjectiveDeclension {
    /// The е/ё alternation of adjectives: a stem's ё becomes е where the full form's ending is
    /// stressed and has a vowel; else the stem's last е becomes ё where the ending has no vowel,
    /// or where that е is the stem's first vowel and the full form's stem is stressed. `None`
    /// for a stem without ё and е.
    #[verifier::opaque]
    pub open spec fn spec_ye_yo_alternation(self, f: Form) -> Option<Form> {
        let s = f.stem();
        let ending_has_vowel = spec_first_vowel(f.ending()) is Some;
        match spec_first_letter_from(s, 0, Utf8Letter::Yo) {
            Some(i) => if self.stress.full == AdjectiveFullStress::B && ending_has_vowel {
                Some(f.set_letter(i, Utf8Letter::Ye))
            } else {
                Some(f)
            },
            None => match spec_last_letter_before(s, s.len() as int, Utf8Letter::Ye) {
                None => None,
                Some(j) => {
                    let into_yo = !ending_has_vowel || spec_first_vowel(s) == Some(j)
                        && self.stress.full == AdjectiveFullStress::A;
                    if into_yo {
                        Some(f.set_letter(j, Utf8Letter::Yo))
                    } else {
                        Some(f)
                    }
                },
            },
        }
    }

    fn apply_ye_yo_alternation(self, buf: &mut InflectionBuf)
        requires
            old(buf).form().wf(),
            self.spec_ye_yo_alternation(old(buf).form()) is Some,
        ensures
            final(buf).stress() == old(buf).stress(),
            final(buf).form() == self.spec_ye_yo_alternation(old(buf).form()).unwrap(),
            final(buf).form().wf(),
            final(buf).form().letters.len() == old(buf).form().letters.len(),
    {
        reveal(AdjectiveDeclension::spec_ye_yo_alternation);
        let ending_has_vowel = first_vowel(buf.ending()).is_some();
        match first_letter(buf.stem(), Utf8Letter::Yo) {
            Some(i) => {
                if self.stress.full == AdjectiveFullStress::B && ending_has_vowel {
                    buf.set_letter(i, Utf8Letter::Ye);
                }
            },
            None => {
                let j = match last_letter(buf.stem(), Utf8Letter::Ye) {
                    Some(j) => j,
                    None => return ,
                };
                let into_yo = !ending_has_vowel || first_vowel(buf.stem()) == Some(j)
                    && self.stress.full == AdjectiveFullStress::A;
                if into_yo {
                    buf.set_letter(j, Utf8Letter::Yo);
                }
            },
        }
    }

    /// The vowel alternation of the masculine singular short form: ь or й before the stem's
    /// last letter becomes ё (where stressed) or е; otherwise о, е or ё is inserted before the
    /// last letter. `None` for an empty stem.
    #[verifier::opaque]
    pub open spec fn spec_vowel_alternation_short(self, info: DeclInfo, f: Form) -> Option<Form> {
        if info.number == Number::Plural || info.gender != Gender::Masculine {
            Some(f)
        } else {
            let s = f.stem();
            let n = s.len();
            let ending_stressed = match self.stress.short.spec_is_stem_stressed(info.number, info.gender) {
                Some(b) => !b,
                None => true,
            };
            let stem_stressed = match self.stress.short.spec_is_stem_stressed(info.number, info.gender) {
                Some(b) => b,
                None => true,
            };
            if n == 0 {
                None
            } else {
                let last = s[n - 1];
                let pre = if n >= 2 {
                    Some(s[n - 2])
                } else {
                    None
                };
                if pre == Some(Utf8Letter::SoftSign) || pre == Some(Utf8Letter::Iy) {
                    Some(
                        f.set_letter(
                            n - 2,
                            if last != Utf8Letter::Ts && ending_stressed {
                                Utf8Letter::Yo
                            } else {
                                Utf8Letter::Ye
                            },
                        ),
                    )
                } else {
                    let velar = |l: Utf8Letter|
                        l == Utf8Letter::K || l == Utf8Letter::G || l == Utf8Letter::Kh;
                    let ins = if pre matches Some(p) && velar(p) {
                        Utf8Letter::O
                    } else if velar(last) && (pre matches Some(p) && !p.spec_is_sibilant()) {
                        Utf8Letter::O
                    } else if last == Utf8Letter::Ts || stem_stressed {
                        Utf8Letter::Ye
                    } else if pre matches Some(p) && p.spec_is_hissing() {
                        Utf8Letter::O
                    } else {
                        Utf8Letter::Yo
                    };
                    Some(f.insert_before_last_stem_letter(seq![ins]))
                }
            }
        }
    }

    fn apply_vowel_alternation_short(self, info: DeclInfo, buf: &mut InflectionBuf)
        requires
            old(buf).form().wf(),
            old(buf).form().letters.len() + 4 <= usize::MAX,
            self.spec_vowel_alternation_short(info, old(buf).form()) is Some,
        ensures
            final(buf).stress() == old(buf).stress(),
            final(buf).form() == self.spec_vowel_alternation_short(info, old(buf).form()).unwrap(),
            final(buf).form().wf(),
            final(buf).form().letters.len() <= old(buf).form().letters.len() + 1,
    {
        reveal(AdjectiveDeclension::spec_vowel_alternation_short);
        if info.is_plural() || info.gender != Gender::Masculine {
            return ;
        }
        let stem_is_stressed = self.stress.short.is_stem_stressed(info.number, info.gender);
        let ending_stressed = match stem_is_stressed {
            Some(b) => !b,
            None => true,
        };
        let stem_stressed = match stem_is_stressed {
            Some(b) => b,
            None => true,
        };
        let n = buf.stem_len();
        if n == 0 {
            return ;
        }
        let last = buf.letter(n - 1);
        let pre = if n >= 2 {
            Some(buf.letter(n - 2))
        } else {
            None
        };
        if pre == Some(Utf8Letter::SoftSign) || pre == Some(Utf8Letter::Iy) {
            buf.set_letter(
                n - 2,
                if last != Utf8Letter::Ts && ending_stressed {
                    Utf8Letter::Yo
                } else {
                    Utf8Letter::Ye
                },
            );
        } else {
            let pre_velar = match pre {
                Some(p) => p == Utf8Letter::K || p == Utf8Letter::G || p == Utf8Letter::Kh,
                None => false,
            };
            let last_velar = last == Utf8Letter::K || last == Utf8Letter::G || last
                == Utf8Letter::Kh;
            let pre_non_sibilant = match pre {
                Some(p) => !p.is_sibilant(),
                None => false,
            };
            let pre_hissing = match pre {
                Some(p) => p.is_hissing(),
                None => false,
            };
            let ins = if pre_velar {
                Utf8Letter::O
            } else if last_velar && pre_non_sibilant {
                Utf8Letter::O
            } else if last == Utf8Letter::Ts || stem_stressed {
                Utf8Letter::Ye
            } else if pre_hissing {
                Utf8Letter::O
            } else {
                Utf8Letter::Yo
            };
            let lit = [ins];
            assert(lit@ == seq![ins]);
            buf.insert_between_last_two_stem_chars(&lit);
        }
    }

    /// A full form inflected by this declension: the ending appended, then the е/ё alternation
    /// (`, ё`) applied.
    pub open spec fn spec_inflect(self, info: DeclInfo, f: Form) -> Option<Form> {
        let f1 = f.append_to_ending(self.spec_find_ending(info));
        if self.flags.alternating_yo {
            self.spec_ye_yo_alternation(f1)
        } else {
            Some(f1)
        }
    }

    /// Inflects the full form in the buffer by this declension with the declension parameters.
    pub fn inflect(self, info: DeclInfo, buf: &mut InflectionBuf)
        requires
            old(buf).form().wf(),
            old(buf).form().letters.len() + 24 <= usize::MAX,
            self.spec_inflect(info, old(buf).form()) is Some,
        ensures
            final(buf).stress() == old(buf).stress(),
            final(buf).form() == self.spec_inflect(info, old(buf).form()).unwrap(),
            final(buf).form().wf(),
    {
        let ending = self.find_ending(info);
        buf.append_to_ending(ending.as_slice());
        if self.flags.has_alternating_yo() {
            self.apply_ye_yo_alternation(buf);
        }
    }

    /// A short form inflected by this declension: the short ending appended; with ② (or ①,
    /// for the masculine), the stem's last letter н removed, else the vowel alternation (*)
    /// applied; then the е/ё alternation (`, ё`). `None` where no rule is defined.
    pub open spec fn spec_inflect_short(self, info: DeclInfo, f: Form) -> Option<Form> {
        let f1 = f.append_to_ending(self.spec_find_ending_short(info));
        let f2 = if self.flags.circled_two || self.flags.circled_one && info.gender
            == Gender::Masculine {
            if f1.stem_len >= 1 {
                Some(f1.shrink_stem_by(1))
            } else {
                None
            }
        } else if self.flags.star {
            self.spec_vowel_alternation_short(info, f1)
        } else {
            Some(f1)
        };
        match f2 {
            None => None,
            Some(f2) => if self.flags.alternating_yo {
                self.spec_ye_yo_alternation(f2)
            } else {
                Some(f2)
            },
        }
    }

    /// Inflects the short form in the buffer by this declension with the number and gender.
    pub fn inflect_short(self, info: DeclInfo, buf: &mut InflectionBuf)
        requires
            old(buf).form().wf(),
            old(buf).form().letters.len() + 24 <= usize::MAX,
            self.spec_inflect_short(info, old(buf).form()) is Some,
        ensures
            final(buf).stress() == old(buf).stress(),
            final(buf).form() == self.spec_inflect_short(info, old(buf).form()).unwrap(),
            final(buf).form().wf(),
    {
        let ending = self.find_ending_short(info);
        buf.append_to_ending(ending.as_slice());
        if self.flags.has_circled_two() || self.flags.has_circled_one() && info.gender
            == Gender::Masculine {
            buf.shrink_stem_by(1);
        } else if self.flags.has_star() {
            self.apply_vowel_alternation_short(info, buf);
        }
        if self.flags.has_alternating_yo() {
            self.apply_ye_yo_alternation(buf);
        }
    }

    /// The comparative form: the ending е, with the stem's last к, г or х becoming ч, ж or ш
    /// (and a ё that is not the stem's last vowel becoming е); otherwise the ending ее, with
    /// the stem's ё becoming е unless the stress is a/a.
    pub open spec fn spec_inflect_comparative(self, f: Form) -> Form {
        let f1 = f.append_to_ending(seq![Utf8Letter::Ye]);
        let s = f1.stem();
        let n = s.len();
        if n >= 1 && (s[n - 1] == Utf8Letter::K || s[n - 1] == Utf8Letter::G || s[n - 1]
            == Utf8Letter::Kh) {
            let c = if s[n - 1] == Utf8Letter::K {
                Utf8Letter::Ch
            } else if s[n - 1] == Utf8Letter::G {
                Utf8Letter::Zh
            } else {
                Utf8Letter::Sh
            };
            let f2 = f1.set_letter(n - 1, c);
            match spec_first_letter_from(f2.stem(), 0, Utf8Letter::Yo) {
                Some(i) => if spec_last_vowel(f2.stem()) != Some(i) {
                    f2.set_letter(i, Utf8Letter::Ye)
                } else {
                    f2
                },
                None => f2,
            }
        } else {
            let f2 = f1.append_to_ending(seq![Utf8Letter::Ye]);
            match spec_first_letter_from(f2.stem(), 0, Utf8Letter::Yo) {
                Some(i) => if self.stress != (AdjectiveStress {
                    full: AdjectiveFullStress::A,
                    short: AdjectiveShortStress::A,
                }) {
                    f2.set_letter(i, Utf8Letter::Ye)
                } else {
                    f2
                },
                None => f2,
            }
        }
    }

    /// Inflects the comparative form in the buffer by this declension.
    pub fn inflect_comparative(self, buf: &mut InflectionBuf)
        requires
            old(buf).form().wf(),
            old(buf).form().letters.len() + 24 <= usize::MAX,
        ensures
            final(buf).stress() == old(buf).stress(),
            final(buf).form() == self.spec_inflect_comparative(old(buf).form()),
            final(buf).form().wf(),
    {
        let e = [Utf8Letter::Ye];
        assert(e@ == seq![Utf8Letter::Ye]);
        buf.append_to_ending(&e);
        let n = buf.stem_len();
        let last = if n >= 1 {
            Some(buf.letter(n - 1))
        } else {
            None
        };
        let c = match last {
            Some(Utf8Letter::K) => Some(Utf8Letter::Ch),
            Some(Utf8Letter::G) => Some(Utf8Letter::Zh),
            Some(Utf8Letter::Kh) => Some(Utf8Letter::Sh),
            _ => None,
        };
        match c {
            Some(c) => {
                buf.set_letter(n - 1, c);
                if let Some(i) = first_letter(buf.stem(), Utf8Letter::Yo) {
                    if last_vowel(buf.stem()) != Some(i) {
                        buf.set_letter(i, Utf8Letter::Ye);
                    }
                }
            },
            None => {
                buf.append_to_ending(&e);
                if let Some(i) = first_letter(buf.stem(), Utf8Letter::Yo) {
                    if !(self.stress.full == AdjectiveFullStress::A && self.stress.short
                        == AdjectiveShortStress::A) {
                        buf.set_letter(i, Utf8Letter::Ye);
                    }
                }
            },
        }
    }
}

/// The text of an adjective's or pronoun's declension.
#[verifier::opaque]
pub open spec fn spec_fmt_body(decl: Declension) -> Seq<char> {
    match decl {
        Declension::Adjective(d) => d.spec_fmt(),
        Declension::Pronoun(d) => d.spec_fmt(),
        Declension::Noun(_) => Seq::<char>::empty(),
    }
}

fn fmt_body(decl: Declension, dst: &mut String)
    ensures
        final(dst)@ == old(dst)@ + spec_fmt_body(decl),
{
    reveal(spec_fmt_body);
    match decl {
        Declension::Adjective(d) => d.fmt_to(dst),
        Declension::Pronoun(d) => d.fmt_to(dst),
        Declension::Noun(_) => {
            assert(dst@ =~= old(dst)@ + spec_fmt_body(decl));
        },
    }
}

impl AdjectiveInfo {
    /// The kind of declension that the adjective's kind implies: adjective for regular ones,
    /// pronoun for pronoun adjectives, noun for numeral adjectives.
    pub open spec fn spec_assumed_kind(self) -> DeclensionKind {
        match self.kind {
            AdjectiveKind::Regular => DeclensionKind::Adjective,
            AdjectiveKind::Pronoun => DeclensionKind::Pronoun,
            AdjectiveKind::Numeral => DeclensionKind::Noun,
        }
    }

    /// The text of the kind: `п `, `мс-п ` or `числ.-п `.
    pub open spec fn spec_fmt_kind(self) -> Seq<char> {
        match self.kind {
            AdjectiveKind::Regular => seq!['п', ' '],
            AdjectiveKind::Pronoun => seq!['м', 'с', '-', 'п', ' '],
            AdjectiveKind::Numeral => seq!['ч', 'и', 'с', 'л', '.', '-', 'п', ' '],
        }
    }

    /// The text of the declension: in angle brackets (with `п ` or `мс `) where its kind is not
    /// the one the adjective's kind implies; then, for regular adjectives, the flags.
    #[verifier::opaque]
    pub open spec fn spec_fmt_declension(self) -> Seq<char> {
        match self.declension {
            None => Seq::<char>::empty(),
            Some(decl) => {
                let braces = decl.spec_kind() != self.spec_assumed_kind();
                let body = spec_fmt_body(decl);
                let inner = if braces {
                    seq!['<'] + match decl {
                        Declension::Adjective(_) => seq!['п', ' '],
                        _ => seq!['м', 'с', ' '],
                    } + body + seq!['>']
                } else {
                    body
                };
                inner + if self.kind == AdjectiveKind::Regular {
                    self.flags.spec_fmt()
                } else {
                    Seq::<char>::empty()
                }
            },
        }
    }

    /// The text of the adjective's declension information, such as `п 4*a/c′` or
    /// `числ.-п <п 1a>`.
    pub open spec fn spec_fmt(self) -> Seq<char> {
        self.spec_fmt_kind() + self.spec_fmt_declension()
    }

    fn fmt_declension_to(&self, dst: &mut String)
        requires
            !(self.declension matches Some(Declension::Noun(_))),
        ensures
            final(dst)@ == old(dst)@ + self.spec_fmt_declension(),
    {
        reveal(AdjectiveInfo::spec_fmt_declension);
        if let Some(decl) = self.declension {
            let assumed = match self.kind {
                AdjectiveKind::Regular => DeclensionKind::Adjective,
                AdjectiveKind::Pronoun => DeclensionKind::Pronoun,
                AdjectiveKind::Numeral => DeclensionKind::Noun,
            };
            let braces = decl.kind() != assumed;
            if braces {
                push_char(dst, '<');
                match decl {
                    Declension::Adjective(_) => {
                        push_char(dst, 'п');
                        push_char(dst, ' ');
                    },
                    _ => {
                        push_char(dst, 'м');
                        push_char(dst, 'с');
                        push_char(dst, ' ');
                    },
                }
            }
            fmt_body(decl, dst);
            if braces {
                push_char(dst, '>');
            }
            if self.kind == AdjectiveKind::Regular {
                self.flags.fmt_to(dst);
            }
        }
        assert(dst@ =~= old(dst)@ + self.spec_fmt_declension());
    }

    /// Appends the text of the adjective's declension information to `dst`, such as
    /// `п 4*a/c′` or `числ.-п <п 1a>`.
    pub fn fmt_to(&self, dst: &mut String)
        requires
            !(self.declension matches Some(Declension::Noun(_))),
        ensures
            final(dst)@ == old(dst)@ + self.spec_fmt(),
    {
        let ghost d0 = dst@;
        match self.kind {
            AdjectiveKind::Regular => {
                push_char(dst, 'п');
                push_char(dst, ' ');
            },
            AdjectiveKind::Pronoun => {
                push_char(dst, 'м');
                push_char(dst, 'с');
                push_char(dst, '-');
                push_char(dst, 'п');
                push_char(dst, ' ');
            },
            AdjectiveKind::Numeral => {
                push_char(dst, 'ч');
                push_char(dst, 'и');
                push_char(dst, 'с');
                push_char(dst, 'л');
                push_char(dst, '.');
                push_char(dst, '-');
                push_char(dst, 'п');
                push_char(dst, ' ');
            },
        }
        assert(dst@ =~= d0 + self.spec_fmt_kind());
        self.fmt_declension_to(dst);
        assert(dst@ =~= d0 + self.spec_fmt());
    }

    /// Returns the text of the adjective's declension information, such as `п 4*a/c′`.
    pub fn to_string(&self) -> (r: String)
        requires
            !(self.declension matches Some(Declension::Noun(_))),
        ensures
            r@ == self.spec_fmt(),
    {
        let mut s = String::new();
        self.fmt_to(&mut s);
        assert(s@ =~= self.spec_fmt());
        s
    }

    /// The adjective with these letters and stress position inflected with the declension
    /// parameters, and its stress position: by its adjective or pronoun declension, or
    /// unchanged without a declension. `None` for a noun declension, which adjectives do not
    /// have, or where the declension has no rule.
    pub open spec fn spec_inflect(self, stem: Seq<Utf8Letter>, stress_at: int, info: DeclInfo) -> Option<(Form, int)> {
        let f = Form { letters: stem, stem_len: stem.len() as int };
        match self.declension {
            None => Some((f, spec_place_stress(stress_at, f, false))),
            Some(Declension::Adjective(d)) => match d.spec_inflect(info, f) {
                Some(g) => Some(
                    (g, spec_place_stress(stress_at, g, d.stress.full == AdjectiveFullStress::B)),
                ),
                None => None,
            },
            Some(Declension::Pronoun(d)) => match d.spec_inflect(info, f) {
                Some(g) => Some(
                    (g, spec_place_stress(stress_at, g, !d.stress.spec_is_stem_stressed(info))),
                ),
                None => None,
            },
            Some(Declension::Noun(_)) => None,
        }
    }

    /// Returns the adjective with this stem inflected with the declension parameters.
    pub fn inflect(&self, stem: Word, info: DeclInfo) -> (r: WordBuf)
        requires
            stem.letters().len() + 24 <= usize::MAX,
            self.spec_inflect(stem.letters(), stem.stress_at(), info) is Some,
        ensures
            r.letters() == self.spec_inflect(stem.letters(), stem.stress_at(), info).unwrap().0.letters,
            r.stem_len() == self.spec_inflect(stem.letters(), stem.stress_at(), info).unwrap().0.stem_len,
            r.stress_at() == self.spec_inflect(stem.letters(), stem.stress_at(), info).unwrap().1,
    {
        let mut buf = InflectionBuf::new(stem.as_letters());
        let stress_at = stem.get_stress_at();
        let ending_stressed = match self.declension {
            None => false,
            Some(Declension::Adjective(d)) => {
                d.inflect(info, &mut buf);
                d.stress.full.is_ending_stressed()
            },
            Some(Declension::Pronoun(d)) => {
                d.inflect(info, &mut buf);
                d.stress.is_ending_stressed(info)
            },
            Some(Declension::Noun(_)) => false,
        };
        finish_word(buf, stress_at, ending_stressed)
    }

    /// Inflects the adjective with this stem with the declension parameters into `dst`.
    pub fn inflect_into(&self, stem: Word, info: DeclInfo, dst: &mut WordBuf)
        requires
            stem.letters().len() + 24 <= usize::MAX,
            self.spec_inflect(stem.letters(), stem.stress_at(), info) is Some,
        ensures
            final(dst).letters() == self.spec_inflect(stem.letters(), stem.stress_at(), info).unwrap().0.letters,
            final(dst).stem_len() == self.spec_inflect(stem.letters(), stem.stress_at(), info).unwrap().0.stem_len,
            final(dst).stress_at() == self.spec_inflect(stem.letters(), stem.stress_at(), info).unwrap().1,
    {
        *dst = self.inflect(stem, info);
    }

    /// The adjective has a short form with the parameters: it is a regular adjective with an
    /// adjective declension, and its flags allow the form (or it is difficult, and `force`).
    pub open spec fn spec_has_short(self, info: DeclInfo, force: bool) -> bool {
        self.kind == AdjectiveKind::Regular && match self.flags.spec_has_short_form(info) {
            Some(b) => b,
            None => force,
        } && self.declension matches Some(Declension::Adjective(_))
    }

    /// The adjective's short form with these letters and stress position, where it has one,
    /// and its stress position; the ending is taken as stressed where either may be.
    pub open spec fn spec_inflect_short(self, stem: Seq<Utf8Letter>, stress_at: int, info: DeclInfo) -> Option<(Form, int)> {
        let f = Form { letters: stem, stem_len: stem.len() as int };
        match self.declension {
            Some(Declension::Adjective(d)) => match d.spec_inflect_short(info, f) {
                Some(g) => Some(
                    (
                        g,
                        spec_place_stress(
                            stress_at,
                            g,
                            match d.stress.short.spec_is_stem_stressed(info.number, info.gender) {
                                Some(b) => !b,
                                None => true,
                            },
                        ),
                    ),
                ),
                None => None,
            },
            _ => None,
        }
    }

    /// Returns the adjective's short form with this stem, or `None` if it has none: only
    /// regular adjectives with an adjective declension have short forms, and only where the
    /// flags allow it (a difficult form is given only if `force`).
    pub fn inflect_short(&self, stem: Word, info: DeclInfo, force: bool) -> (r: Option<WordBuf>)
        requires
            stem.letters().len() + 24 <= usize::MAX,
            self.spec_has_short(info, force) ==> self.spec_inflect_short(stem.letters(), stem.stress_at(), info) is Some,
        ensures
            r is Some <==> self.spec_has_short(info, force),
            r matches Some(w) ==> w.letters() == self.spec_inflect_short(stem.letters(), stem.stress_at(), info).unwrap().0.letters
                && w.stem_len() == self.spec_inflect_short(stem.letters(), stem.stress_at(), info).unwrap().0.stem_len
                && w.stress_at() == self.spec_inflect_short(stem.letters(), stem.stress_at(), info).unwrap().1,
    {
        let allowed = match self.flags.has_short_form(info) {
            Some(b) => b,
            None => force,
        };
        if self.kind == AdjectiveKind::Regular && allowed {
            if let Some(Declension::Adjective(d)) = self.declension {
                let mut buf = InflectionBuf::new(stem.as_letters());
                d.inflect_short(info, &mut buf);
                let ending_stressed = match d.stress.short.is_stem_stressed(info.number, info.gender) {
                    Some(b) => !b,
                    None => true,
                };
                return Some(finish_word(buf, stem.get_stress_at(), ending_stressed));
            }
        }
        None
    }

    /// The adjective has a comparative form: it is a regular adjective with an adjective
    /// declension, without the ~ flag.
    pub open spec fn spec_has_comparative(self) -> bool {
        self.kind == AdjectiveKind::Regular && !self.flags.no_comparative_form
            && self.declension matches Some(Declension::Adjective(_))
    }

    /// The adjective's comparative form with these letters and stress position, and its stress
    /// position: the ending is stressed unless the stress is a/a or the stem ends with к, г or
    /// х.
    pub open spec fn spec_inflect_comparative(self, stem: Seq<Utf8Letter>, stress_at: int) -> Option<(Form, int)> {
        let f = Form { letters: stem, stem_len: stem.len() as int };
        match self.declension {
            Some(Declension::Adjective(d)) => {
                let g = d.spec_inflect_comparative(f);
                let velar = stem.len() > 0 && (stem.last() == Utf8Letter::K || stem.last()
                    == Utf8Letter::G || stem.last() == Utf8Letter::Kh);
                let a_a = d.stress.full == AdjectiveFullStress::A && d.stress.short
                    == AdjectiveShortStress::A;
                Some((g, spec_place_stress(stress_at, g, !velar && !a_a)))
            },
            _ => None,
        }
    }

    /// Returns the adjective's comparative form with this stem, or `None` if it has none.
    pub fn inflect_comparative(&self, stem: Word) -> (r: Option<WordBuf>)
        requires
            stem.letters().len() + 24 <= usize::MAX,
        ensures
            r is Some <==> self.spec_has_comparative(),
            r matches Some(w) ==> w.letters() == self.spec_inflect_comparative(stem.letters(), stem.stress_at()).unwrap().0.letters
                && w.stem_len() == self.spec_inflect_comparative(stem.letters(), stem.stress_at()).unwrap().0.stem_len
                && w.stress_at() == self.spec_inflect_comparative(stem.letters(), stem.stress_at()).unwrap().1,
    {
        if self.kind == AdjectiveKind::Regular && !self.flags.has_no_comparative_form() {
            if let Some(Declension::Adjective(d)) = self.declension {
                let letters = stem.as_letters();
                let n = letters.len();
                let velar = n > 0 && (letters[n - 1] == Utf8Letter::K || letters[n - 1]
                    == Utf8Letter::G || letters[n - 1] == Utf8Letter::Kh);
                let a_a = d.stress.full == AdjectiveFullStress::A && d.stress.short
                    == AdjectiveShortStress::A;
                let mut buf = InflectionBuf::new(letters);
                d.inflect_comparative(&mut buf);
                return Some(finish_word(buf, stem.get_stress_at(), !velar && !a_a));
            }
        }
        None
    }

    /// Inflects the adjective's short form with this stem into `dst`; returns `false`, leaving
    /// `dst` as it is, if there is none.
    pub fn inflect_short_into(&self, stem: Word, info: DeclInfo, force: bool, dst: &mut WordBuf) -> (r: bool)
        requires
            stem.letters().len() + 24 <= usize::MAX,
            self.spec_has_short(info, force) ==> self.spec_inflect_short(stem.letters(), stem.stress_at(), info) is Some,
        ensures
            r == self.spec_has_short(info, force),
            r ==> final(dst).letters() == self.spec_inflect_short(stem.letters(), stem.stress_at(), info).unwrap().0.letters
                && final(dst).stem_len() == self.spec_inflect_short(stem.letters(), stem.stress_at(), info).unwrap().0.stem_len
                && final(dst).stress_at() == self.spec_inflect_short(stem.letters(), stem.stress_at(), info).unwrap().1,
            !r ==> *final(dst) == *old(dst),
    {
        match self.inflect_short(stem, info, force) {
            Some(w) => {
                *dst = w;
                true
            },
            None => false,
        }
    }

    /// Inflects the adjective's comparative form with this stem into `dst`; returns `false`,
    /// leaving `dst` as it is, if there is none.
    pub fn inflect_comparative_into(&self, stem: Word, dst: &mut WordBuf) -> (r: bool)
        requires
            stem.letters().len() + 24 <= usize::MAX,
        ensures
            r == self.spec_has_comparative(),
            r ==> final(dst).letters() == self.spec_inflect_comparative(stem.letters(), stem.stress_at()).unwrap().0.letters
                && final(dst).stem_len() == self.spec_inflect_comparative(stem.letters(), stem.stress_at()).unwrap().0.stem_len
                && final(dst).stress_at() == self.spec_inflect_comparative(stem.letters(), stem.stress_at()).unwrap().1,
            !r ==> *final(dst) == *old(dst),
    {
        match self.inflect_comparative(stem) {
            Some(w) => {
                *dst = w;
                true
            },
            None => false,
        }
    }
}

impl Adjective {
    /// Returns the adjective's full form with the declension parameters.
    pub fn inflect(&self, info: DeclInfo) -> (r: WordBuf)
        requires
            self.spec_stem().letters().len() + 24 <= usize::MAX,
            self.spec_info().spec_inflect(self.spec_stem().letters(), self.spec_stem().stress_at(), info) is Some,
        ensures
            r.letters() == self.spec_info().spec_inflect(self.spec_stem().letters(), self.spec_stem().stress_at(), info).unwrap().0.letters,
            r.stem_len() == self.spec_info().spec_inflect(self.spec_stem().letters(), self.spec_stem().stress_at(), info).unwrap().0.stem_len,
            r.stress_at() == self.spec_info().spec_inflect(self.spec_stem().letters(), self.spec_stem().stress_at(), info).unwrap().1,
    {
        self.info.inflect(self.stem.borrow(), info)
    }

    /// Returns the adjective's short form with the number and gender, or `None` if it has none
    /// (a difficult form is given only if `force`).
    pub fn inflect_short(&self, info: DeclInfo, force: bool) -> (r: Option<WordBuf>)
        requires
            self.spec_stem().letters().len() + 24 <= usize::MAX,
            self.spec_info().spec_has_short(info, force) ==> self.spec_info().spec_inflect_short(self.spec_stem().letters(), self.spec_stem().stress_at(), info) is Some,
        ensures
            r is Some <==> self.spec_info().spec_has_short(info, force),
            r matches Some(w) ==> w.letters() == self.spec_info().spec_inflect_short(self.spec_stem().letters(), self.spec_stem().stress_at(), info).unwrap().0.letters
                && w.stem_len() == self.spec_info().spec_inflect_short(self.spec_stem().letters(), self.spec_stem().stress_at(), info).unwrap().0.stem_len
                && w.stress_at() == self.spec_info().spec_inflect_short(self.spec_stem().letters(), self.spec_stem().stress_at(), info).unwrap().1,
    {
        self.info.inflect_short(self.stem.borrow(), info, force)
    }

    /// Returns the adjective's comparative form, or `None` if it has none.
    pub fn inflect_comparative(&self) -> (r: Option<WordBuf>)
        requires
            self.spec_stem().letters().len() + 24 <= usize::MAX,
        ensures
            r is Some <==> self.spec_info().spec_has_comparative(),
            r matches Some(w) ==> w.letters() == self.spec_info().spec_inflect_comparative(self.spec_stem().letters(), self.spec_stem().stress_at()).unwrap().0.letters
                && w.stem_len() == self.spec_info().spec_inflect_comparative(self.spec_stem().letters(), self.spec_stem().stress_at()).unwrap().0.stem_len
                && w.stress_at() == self.spec_info().spec_inflect_comparative(self.spec_stem().letters(), self.spec_stem().stress_at()).unwrap().1,
    {
        self.info.inflect_comparative(self.stem.borrow())
    }

    /// Inflects the adjective's full form with the declension parameters into `dst`.
    pub fn inflect_into(&self, info: DeclInfo, dst: &mut WordBuf)
        requires
            self.spec_stem().letters().len() + 24 <= usize::MAX,
            self.spec_info().spec_inflect(self.spec_stem().letters(), self.spec_stem().stress_at(), info) is Some,
        ensures
            final(dst).letters() == self.spec_info().spec_inflect(self.spec_stem().letters(), self.spec_stem().stress_at(), info).unwrap().0.letters,
            final(dst).stem_len() == self.spec_info().spec_inflect(self.spec_stem().letters(), self.spec_stem().stress_at(), info).unwrap().0.stem_len,
            final(dst).stress_at() == self.spec_info().spec_inflect(self.spec_stem().letters(), self.spec_stem().stress_at(), info).unwrap().1,
    {
        self.info.inflect_into(self.stem.borrow(), info, dst)
    }

    /// Inflects the adjective's short form into `dst`; returns `false`, leaving `dst` as it is,
    /// if there is none.
    pub fn inflect_short_into(&self, info: DeclInfo, force: bool, dst: &mut WordBuf) -> (r: bool)
        requires
            self.spec_stem().letters().len() + 24 <= usize::MAX,
            self.spec_info().spec_has_short(info, force) ==> self.spec_info().spec_inflect_short(self.spec_stem().letters(), self.spec_stem().stress_at(), info) is Some,
        ensures
            r == self.spec_info().spec_has_short(info, force),
            r ==> final(dst).letters() == self.spec_info().spec_inflect_short(self.spec_stem().letters(), self.spec_stem().stress_at(), info).unwrap().0.letters
                && final(dst).stem_len() == self.spec_info().spec_inflect_short(self.spec_stem().letters(), self.spec_stem().stress_at(), info).unwrap().0.stem_len
                && final(dst).stress_at() == self.spec_info().spec_inflect_short(self.spec_stem().letters(), self.spec_stem().stress_at(), info).unwrap().1,
            !r ==> *final(dst) == *old(dst),
    {
        self.info.inflect_short_into(self.stem.borrow(), info, force, dst)
    }

    /// Inflects the adjective's comparative form into `dst`; returns `false`, leaving `dst` as
    /// it is, if there is none.
    pub fn inflect_comparative_into(&self, dst: &mut WordBuf) -> (r: bool)
        requires
            self.spec_stem().letters().len() + 24 <= usize::MAX,
        ensures
            r == self.spec_info().spec_has_comparative(),
            r ==> final(dst).letters() == self.spec_info().spec_inflect_comparative(self.spec_stem().letters(), self.spec_stem().stress_at()).unwrap().0.letters
                && final(dst).stem_len() == self.spec_info().spec_inflect_comparative(self.spec_stem().letters(), self.spec_stem().stress_at()).unwrap().0.stem_len
                && final(dst).stress_at() == self.spec_info().spec_inflect_comparative(self.spec_stem().letters(), self.spec_stem().stress_at()).unwrap().1,
            !r ==> *final(dst) == *old(dst),
    {
        self.info.inflect_comparative_into(self.stem.borrow(), dst)
    }
}

/// Without the е/ё alternation, an adjective's full form is its stem followed by its ending:
/// the stem is kept as it is. With stress a the stress stays where it was; with stress b and
/// an ending that begins with a vowel, the stress falls on that vowel.
pub proof fn law_adjective_inflect_appends_ending(
    info: AdjectiveInfo,
    d: AdjectiveDeclension,
    stem: Seq<Utf8Letter>,
    stress_at: int,
    di: DeclInfo,
)
    requires
        info.declension == Some(Declension::Adjective(d)),
        !d.flags.alternating_yo,
    ensures
        ({
            let ending = d.spec_find_ending(di);
            &&& info.spec_inflect(stem, stress_at, di) matches Some((g, at))
            &&& g.letters == stem + ending
            &&& g.stem_len == stem.len()
            &&& (0 < stress_at <= stem.len() && d.stress.full == AdjectiveFullStress::A) ==> at
                == stress_at
            &&& (stress_at != 0 && d.stress.full == AdjectiveFullStress::B && ending.len() > 0
                && ending[0].spec_is_vowel()) ==> at == stem.len() + 1
        }),
{
    let f = Form { letters: stem, stem_len: stem.len() as int };
    let g = f.append_to_ending(d.spec_find_ending(di));
    assert(g.ending() =~= d.spec_find_ending(di));
    let ending = d.spec_find_ending(di);
    if ending.len() > 0 && ending[0].spec_is_vowel() {
        assert(spec_first_vowel(g.ending()) == Some(0int));
    }
}

/// Without ①, ②, the vowel alternation (*) and the е/ё alternation, an adjective's short
/// form is its stem followed by its short ending: the stem is kept as it is.
pub proof fn law_adjective_short_appends_ending(
    info: AdjectiveInfo,
    d: AdjectiveDeclension,
    stem: Seq<Utf8Letter>,
    stress_at: int,
    di: DeclInfo,
)
    requires
        info.declension == Some(Declension::Adjective(d)),
        !d.flags.circled_one && !d.flags.circled_two && !d.flags.star && !d.flags.alternating_yo,
    ensures
        info.spec_inflect_short(stem, stress_at, di) matches Some((g, _)) && g.letters == stem
            + d.spec_find_ending_short(di) && g.stem_len == stem.len(),
{
}

/// The comparative of an adjective whose stem has no ё: a stem ending in к, г or х turns it
/// into ч, ж or ш and takes the ending е (строгий → строже), keeping the stress where it was;
/// any other stem takes the ending ее (новый → новее), which is stressed unless the stress is
/// a/a.
pub proof fn law_adjective_comparative(
    info: AdjectiveInfo,
    d: AdjectiveDeclension,
    stem: Seq<Utf8Letter>,
    stress_at: int,
)
    requires
        info.declension == Some(Declension::Adjective(d)),
        stem.len() >= 1,
        forall|j: int| 0 <= j < stem.len() ==> stem[j] != Utf8Letter::Yo,
    ensures
        ({
            let last = stem.last();
            let velar = last == Utf8Letter::K || last == Utf8Letter::G || last == Utf8Letter::Kh;
            let a_a = d.stress.full == AdjectiveFullStress::A && d.stress.short
                == AdjectiveShortStress::A;
            &&& info.spec_inflect_comparative(stem, stress_at) matches Some((g, at))
            &&& g.stem_len == stem.len()
            &&& last == Utf8Letter::K ==> g.letters == stem.drop_last() + seq![
                Utf8Letter::Ch,
                Utf8Letter::Ye,
            ]
            &&& last == Utf8Letter::G ==> g.letters == stem.drop_last() + seq![
                Utf8Letter::Zh,
                Utf8Letter::Ye,
            ]
            &&& last == Utf8Letter::Kh ==> g.letters == stem.drop_last() + seq![
                Utf8Letter::Sh,
                Utf8Letter::Ye,
            ]
            &&& !velar ==> g.letters == stem + seq![Utf8Letter::Ye, Utf8Letter::Ye]
            &&& ((velar || a_a) && 0 < stress_at <= stem.len()) ==> at == stress_at
            &&& (!velar && !a_a && stress_at != 0) ==> at == stem.len() + 1
        }),
{
    let n = stem.len();
    let f = Form { letters: stem, stem_len: n as int };
    let f1 = f.append_to_ending(seq![Utf8Letter::Ye]);
    assert(f1.stem() =~= stem);
    let last = stem.last();
    if last == Utf8Letter::K || last == Utf8Letter::G || last == Utf8Letter::Kh {
        let c = if last == Utf8Letter::K {
            Utf8Letter::Ch
        } else if last == Utf8Letter::G {
            Utf8Letter::Zh
        } else {
            Utf8Letter::Sh
        };
        let f2 = f1.set_letter(n - 1, c);
        assert(f2.stem() =~= stem.update(n - 1, c));
        lemma_no_letter(f2.stem(), Utf8Letter::Yo);
        assert(f2.letters =~= stem.drop_last() + seq![c, Utf8Letter::Ye]);
    } else {
        let f2 = f1.append_to_ending(seq![Utf8Letter::Ye]);
        assert(f2.stem() =~= stem);
        lemma_no_letter(f2.stem(), Utf8Letter::Yo);
        assert(f2.letters =~= stem + seq![Utf8Letter::Ye, Utf8Letter::Ye]);
        assert(f2.ending() =~= seq![Utf8Letter::Ye, Utf8Letter::Ye]);
        assert(spec_first_vowel(f2.ending()) == Some(0int));
    }
}

/// The vowel alternation (*) of an adjective's short form, which only the masculine singular
/// has (its stem is always stressed): a ь or й before the stem's last letter becomes е
/// (горький → горек, спокойный → спокоен); otherwise о is inserted before the last letter
/// after к, г or х, or before к, г or х after a letter that is not a sibilant (крепкий →
/// крепок), and е in all other cases. The short ending is appended as it is,
/// and the other short forms keep the stem.
pub proof fn law_adjective_short_fleeting_vowel(
    d: AdjectiveDeclension,
    di: DeclInfo,
    a: Seq<Utf8Letter>,
    p: Utf8Letter,
    l: Utf8Letter,
)
    requires
        d.flags.star && !d.flags.circled_one && !d.flags.circled_two && !d.flags.alternating_yo,
    ensures
        ({
            let stem = a + seq![p, l];
            let e = d.spec_find_ending_short(di);
            let r = d.spec_inflect_short(di, Form { letters: stem, stem_len: stem.len() as int });
            let masc = di.number == Number::Singular && di.gender == Gender::Masculine;
            let velar = |x: Utf8Letter|
                x == Utf8Letter::K || x == Utf8Letter::G || x == Utf8Letter::Kh;
            &&& !masc ==> r == Some(Form { letters: stem + e, stem_len: stem.len() as int })
            &&& (masc && (p == Utf8Letter::SoftSign || p == Utf8Letter::Iy)) ==> r == Some(
                Form { letters: a + seq![Utf8Letter::Ye, l] + e, stem_len: stem.len() as int },
            )
            &&& (masc && p != Utf8Letter::SoftSign && p != Utf8Letter::Iy && (velar(p) || (velar(
                l,
            ) && !p.spec_is_sibilant()))) ==> r == Some(
                Form {
                    letters: a + seq![p, Utf8Letter::O, l] + e,
                    stem_len: stem.len() + 1int,
                },
            )
            &&& (masc && p != Utf8Letter::SoftSign && p != Utf8Letter::Iy && !(velar(p) || (velar(
                l,
            ) && !p.spec_is_sibilant()))) ==> r == Some(
                Form {
                    letters: a + seq![p, Utf8Letter::Ye, l] + e,
                    stem_len: stem.len() + 1int,
                },
            )
        }),
{
    reveal(AdjectiveDeclension::spec_vowel_alternation_short);
    let stem = a + seq![p, l];
    let e = d.spec_find_ending_short(di);
    let f = Form { letters: stem, stem_len: stem.len() as int };
    let f1 = f.append_to_ending(e);
    let n = stem.len() as int;
    assert(f1.stem() =~= stem);
    assert(f1.ending() =~= e);
    assert(stem[n - 1] == l);
    assert(stem[n - 2] == p);
    assert(f1.letters.update(n - 2, Utf8Letter::Ye) =~= a + seq![Utf8Letter::Ye, l] + e);
    assert(stem.drop_last() =~= a + seq![p]);
    assert(f1.insert_before_last_stem_letter(seq![Utf8Letter::O]).letters =~= a + seq![
        p,
        Utf8Letter::O,
        l,
    ] + e);
    assert(f1.insert_before_last_stem_letter(seq![Utf8Letter::Ye]).letters =~= a + seq![
        p,
        Utf8Letter::Ye,
        l,
    ] + e);
}

/// The е/ё alternation (`, ё`) of an adjective's full form whose stem has ё: the stem's first
/// ё becomes е where the stress is b and the ending has a vowel, and stays otherwise. The
/// ending is appended as it is.
pub proof fn law_adjective_full_yo_alternation(
    d: AdjectiveDeclension,
    di: DeclInfo,
    a: Seq<Utf8Letter>,
    b: Seq<Utf8Letter>,
)
    requires
        d.flags.alternating_yo,
        forall|j: int| 0 <= j < a.len() ==> a[j] != Utf8Letter::Yo,
    ensures
        ({
            let stem = a + seq![Utf8Letter::Yo] + b;
            let e = d.spec_find_ending(di);
            let vowel_ending = exists|i: int| 0 <= i < e.len() && (#[trigger] e[i]).spec_is_vowel();
            d.spec_inflect(di, Form { letters: stem, stem_len: stem.len() as int }) == Some(
                Form {
                    letters: (if d.stress.full == AdjectiveFullStress::B && vowel_ending {
                        a + seq![Utf8Letter::Ye] + b
                    } else {
                        stem
                    }) + e,
                    stem_len: stem.len() as int,
                },
            )
        }),
{
    reveal(AdjectiveDeclension::spec_ye_yo_alternation);
    let stem = a + seq![Utf8Letter::Yo] + b;
    let e = d.spec_find_ending(di);
    let f1 = Form { letters: stem, stem_len: stem.len() as int }.append_to_ending(e);
    assert(f1.stem() =~= stem);
    assert(f1.ending() =~= e);
    let k = a.len() as int;
    assert(stem[k] == Utf8Letter::Yo);
    lemma_first_letter_at(stem, k, Utf8Letter::Yo);
    lemma_first_vowel_exists(e);
    assert(f1.letters.update(k, Utf8Letter::Ye) =~= a + seq![Utf8Letter::Ye] + b + e);
}

/// The е/ё alternation (`, ё`) of an adjective's full form whose stem has no ё: the stem's
/// last е becomes ё where the ending has no vowel, or where that е is the stem's first vowel
/// and the stress is a; it stays otherwise.
#[verifier::rlimit(100)]
pub proof fn law_adjective_full_ye_alternation(
    d: AdjectiveDeclension,
    di: DeclInfo,
    a: Seq<Utf8Letter>,
    b: Seq<Utf8Letter>,
)
    requires
        d.flags.alternating_yo,
        forall|j: int| 0 <= j < a.len() ==> a[j] != Utf8Letter::Yo,
        forall|j: int| 0 <= j < b.len() ==> b[j] != Utf8Letter::Yo && b[j] != Utf8Letter::Ye,
    ensures
        ({
            let stem = a + seq![Utf8Letter::Ye] + b;
            let e = d.spec_find_ending(di);
            let vowel_ending = exists|i: int| 0 <= i < e.len() && (#[trigger] e[i]).spec_is_vowel();
            let first_vowel = forall|j: int| 0 <= j < a.len() ==> !(#[trigger] a[j]).spec_is_vowel();
            d.spec_inflect(di, Form { letters: stem, stem_len: stem.len() as int }) == Some(
                Form {
                    letters: (if !vowel_ending || (first_vowel && d.stress.full
                        == AdjectiveFullStress::A) {
                        a + seq![Utf8Letter::Yo] + b
                    } else {
                        stem
                    }) + e,
                    stem_len: stem.len() as int,
                },
            )
        }),
{
    reveal(AdjectiveDeclension::spec_ye_yo_alternation);
    let stem = a + seq![Utf8Letter::Ye] + b;
    let e = d.spec_find_ending(di);
    let f1 = Form { letters: stem, stem_len: stem.len() as int }.append_to_ending(e);
    assert(f1.stem() =~= stem);
    assert(f1.ending() =~= e);
    let k = a.len() as int;
    assert(stem[k] == Utf8Letter::Ye);
    assert forall|j: int| 0 <= j < stem.len() implies stem[j] != Utf8Letter::Yo by {
        if j < k {
            assert(stem[j] == a[j]);
        } else if j > k {
            assert(stem[j] == b[j - k - 1]);
        }
    }
    lemma_no_letter(stem, Utf8Letter::Yo);
    assert forall|j: int| k < j < stem.len() implies stem[j] != Utf8Letter::Ye by {
        assert(stem[j] == b[j - k - 1]);
    }
    lemma_last_letter_at(stem, k, Utf8Letter::Ye);
    lemma_first_vowel_exists(e);
    lemma_first_vowel_exists(stem);
    let first_vowel = forall|j: int| 0 <= j < a.len() ==> !(#[trigger] a[j]).spec_is_vowel();
    if first_vowel {
        assert forall|j: int| 0 <= j < k implies !(#[trigger] stem[j]).spec_is_vowel() by {
            assert(stem[j] == a[j]);
        }
        assert(spec_first_vowel(stem) == Some(k));
    } else {
        let j0 = choose|j: int| 0 <= j < a.len() && (#[trigger] a[j]).spec_is_vowel();
        assert(stem[j0] == a[j0]);
        assert(spec_first_vowel(stem) != Some(k));
    }
    assert(f1.letters.update(k, Utf8Letter::Yo) =~= a + seq![Utf8Letter::Yo] + b + e);
}

/// An adjective with the е/ё alternation (`, ё`) whose stem has neither е nor ё has no full
/// form.
pub proof fn law_adjective_full_yo_alternation_needs_ye(
    d: AdjectiveDeclension,
    di: DeclInfo,
    stem: Seq<Utf8Letter>,
)
    requires
        d.flags.alternating_yo,
        forall|j: int| 0 <= j < stem.len() ==> stem[j] != Utf8Letter::Yo && stem[j] != Utf8Letter::Ye,
    ensures
        d.spec_inflect(di, Form { letters: stem, stem_len: stem.len() as int }) is None,
{
    reveal(AdjectiveDeclension::spec_ye_yo_alternation);
    let g = Form { letters: stem, stem_len: stem.len() as int }.append_to_ending(
        d.spec_find_ending(di),
    );
    assert(g.stem() =~= stem);
    lemma_no_letter(stem, Utf8Letter::Yo);
    lemma_no_letter(stem, Utf8Letter::Ye);
}

/// With ② (in every short form) or ① (in the masculine short forms), an adjective's short form
/// drops the stem's last letter, the redundant н of a stem in -нн: the short ending is
/// appended to the rest of the stem.
pub proof fn law_adjective_short_circled(
    d: AdjectiveDeclension,
    di: DeclInfo,
    stem: Seq<Utf8Letter>,
)
    requires
        d.flags.circled_two || (d.flags.circled_one && di.gender == Gender::Masculine),
        !d.flags.alternating_yo,
        stem.len() >= 1,
    ensures
        d.spec_inflect_short(di, Form { letters: stem, stem_len: stem.len() as int }) == Some(
            Form {
                letters: stem.drop_last() + d.spec_find_ending_short(di),
                stem_len: stem.len() - 1,
            },
        ),
{
    let e = d.spec_find_ending_short(di);
    let f1 = Form { letters: stem, stem_len: stem.len() as int }.append_to_ending(e);
    assert(f1.stem() =~= stem);
    assert(f1.ending() =~= e);
    assert(f1.shrink_stem_by(1).letters =~= stem.drop_last() + e);
}

} // verus!
