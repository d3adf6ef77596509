//! Nouns: their stems and declension information, and their inflection.

use crate::categories::{Animacy, Case, CaseEx, DeclInfo, Gender, GenderEx, Number};
use crate::declension::{
    lemma_declension_fmt_starts_with_digit, lemma_parse_adjective_declension_at_fmt,
    lemma_parse_noun_declension_at_fmt, spec_ends_declension, spec_holds_at,
    spec_parse_adjective_declension_at, spec_parse_noun_declension_at, AdjectiveDeclension,
    Declension, NounDeclension, NounStemType, ParseDeclensionError,
};
use crate::parser::{spec_peek, spec_starts_with_at, UnsafeParser};
use crate::inflection::{
    finish_word, lemma_first_letter_at, lemma_first_vowel_exists, lemma_last_letter_at,
    lemma_no_letter, first_letter, first_vowel, last_letter, last_vowel, lemma_last_vowel_split, place_stress,
    spec_first_letter_from, spec_first_vowel, spec_last_letter_before, spec_last_vowel,
    spec_place_stress, Form, InflectionBuf,
};
use crate::letter::Utf8Letter;
use crate::stress::NounStress;
use crate::text::{push_char, push_str};
use crate::word::{Word, WordBuf};
use vstd::prelude::*;

verus! {

/// A noun: its stem, and its declension information.
#[derive(Debug, Clone, PartialEq, Eq, Hash)]
pub struct Noun {
    stem: WordBuf,
    info: NounInfo,
}

/// A noun's declension information: its declension (none for indeclinable nouns), the gender
/// by which it declines, its gender, animacy, and the only number it has, if any.
#[derive(Debug, Clone, Copy, PartialEq, Eq, Structural, Hash)]
pub struct NounInfo {
    /// The declension, or `None` for an indeclinable noun.
    pub declension: Option<Declension>,
    /// The gender by which the noun declines.
    pub declension_gender: Gender,
    /// The noun's gender.
    pub gender: GenderEx,
    /// The noun's animacy.
    pub animacy: Animacy,
    /// The only number that the noun has (pluralia or singularia tantum), if any.
    pub tantum: Option<Number>,
}

/// Error type for constructing nouns.
#[derive(Debug, Clone, Copy, PartialEq, Eq, Structural, Hash)]
pub enum NewNounError {
    /// The stem is not valid.
    InvalidStem,
    /// The stem does not match the stem type.
    NotMatchingStemType,
}

impl Noun {
    /// The noun's stem.
    pub closed spec fn spec_stem(self) -> WordBuf {
        self.stem
    }

    /// The noun's declension information.
    pub closed spec fn spec_info(self) -> NounInfo {
        self.info
    }

    /// Constructs a noun from its stem and declension information.
    pub fn from_stem(stem: WordBuf, info: NounInfo) -> (r: Noun)
        ensures
            r.spec_stem() == stem,
            r.spec_info() == info,
    {
        Noun { stem, info }
    }
}

/// The letters `а`, `е`, `я`, and so on, as one-letter sequences.
pub open spec fn one(l: Utf8Letter) -> Seq<Utf8Letter> {
    seq![l]
}

/// The form with the nominative and genitive plural endings replaced (the others kept): `gen`
/// for the genitive, `nom` for the nominative.
pub open spec fn spec_replace_nom_gen(f: Form, is_gen: Option<bool>, nom: Seq<Utf8Letter>, gen: Seq<Utf8Letter>) -> Form {
    match is_gen {
        Some(true) => f.replace_ending(gen),
        Some(false) => f.replace_ending(nom),
        None => f,
    }
}

impl NounDeclension {
    /// The unique stem alternation (°) of a form: of -ин, -онок/-ёнок, -ок, -оночек/-ёночек,
    /// -очек, and of neuter -мя nouns. `None` for any other stem.
    #[verifier::opaque]
    pub open spec fn spec_unique_alternation(self, info: DeclInfo, f: Form) -> Option<Form> {
        let s = f.stem();
        let n = s.len();
        let pl = info.number == Number::Plural;
        let is_gen = info.case.spec_acc_is_gen(info.animacy);
        let nom = info.case.spec_is_nom_or_acc_inan(info.animacy);
        let gen = info.case.spec_is_gen_or_acc_an(info.animacy);
        if n >= 2 && s[n - 2] == Utf8Letter::I && s[n - 1] == Utf8Letter::N {
            // -ин: plural without -ин; nominative -е (unless ① gave one), genitive no ending
            if pl {
                let g = f.shrink_stem_by(2);
                if is_gen == Some(false) && self.flags.circled_one {
                    Some(g)
                } else {
                    Some(spec_replace_nom_gen(g, is_gen, one(Utf8Letter::Ye), Seq::empty()))
                }
            } else {
                Some(f)
            }
        } else if n >= 4 && (s[n - 4] == Utf8Letter::O || s[n - 4] == Utf8Letter::Yo) && s[n - 3]
            == Utf8Letter::N && s[n - 2] == Utf8Letter::O && s[n - 1] == Utf8Letter::K {
            // -онок/-ёнок: plural -ат/-ят; singular drops the second о outside the nominative
            if pl {
                let v = if s[n - 4] == Utf8Letter::O {
                    Utf8Letter::A
                } else {
                    Utf8Letter::Ya
                };
                let g = f.set_letter(n - 4, v).set_letter(n - 3, Utf8Letter::T).shrink_stem_by(2);
                Some(spec_replace_nom_gen(g, is_gen, one(Utf8Letter::A), Seq::empty()))
            } else if !nom {
                Some(f.remove_stem_letter(n - 2))
            } else {
                Some(f)
            }
        } else if n >= 3 && s[n - 2] == Utf8Letter::O && s[n - 1] == Utf8Letter::K {
            // -ок: plural -ат after a sibilant, else -ят; singular drops о outside the nominative
            if pl {
                let v = if s[n - 3].spec_is_sibilant() {
                    Utf8Letter::A
                } else {
                    Utf8Letter::Ya
                };
                let g = f.set_letter(n - 2, v).set_letter(n - 1, Utf8Letter::T);
                Some(spec_replace_nom_gen(g, is_gen, one(Utf8Letter::A), Seq::empty()))
            } else if !nom {
                Some(f.remove_stem_letter(n - 2))
            } else {
                Some(f)
            }
        } else if n >= 6 && (s[n - 6] == Utf8Letter::O || s[n - 6] == Utf8Letter::Yo) && s[n - 5]
            == Utf8Letter::N && s[n - 4] == Utf8Letter::O && s[n - 3] == Utf8Letter::Ch && s[n
            - 2] == Utf8Letter::Ye && s[n - 1] == Utf8Letter::K {
            // -оночек/-ёночек: plural -атк/-ятк, genitive -аток/-яток; singular drops е
            if pl {
                let v = if s[n - 6] == Utf8Letter::O {
                    Utf8Letter::A
                } else {
                    Utf8Letter::Ya
                };
                let g = f.set_letter(n - 6, v).set_letter(n - 5, Utf8Letter::T).set_letter(
                    n - 4,
                    Utf8Letter::K,
                ).shrink_stem_by(3);
                if gen {
                    Some(g.insert_before_last_stem_letter(one(Utf8Letter::O)).replace_ending(Seq::empty()))
                } else {
                    Some(g)
                }
            } else if !nom {
                Some(f.remove_stem_letter(n - 2))
            } else {
                Some(f)
            }
        } else if n >= 5 && s[n - 4] == Utf8Letter::O && s[n - 3] == Utf8Letter::Ch && s[n - 2]
            == Utf8Letter::Ye && s[n - 1] == Utf8Letter::K {
            // -очек: plural -атк after a sibilant, else -ятк, genitive -аток/-яток; singular
            // drops е
            if pl {
                let v = if s[n - 5].spec_is_sibilant() {
                    Utf8Letter::A
                } else {
                    Utf8Letter::Ya
                };
                let g = f.set_letter(n - 4, v).set_letter(n - 3, Utf8Letter::T).set_letter(
                    n - 2,
                    Utf8Letter::K,
                ).shrink_stem_by(1);
                if gen {
                    Some(g.insert_before_last_stem_letter(one(Utf8Letter::O)).replace_ending(Seq::empty()))
                } else {
                    Some(g)
                }
            } else if !nom {
                Some(f.remove_stem_letter(n - 2))
            } else {
                Some(f)
            }
        } else if n >= 1 && s[n - 1] == Utf8Letter::M && info.gender == Gender::Neuter {
            // -мя: plural stem -ен/-ён; singular -я in the nominative, else stem -ен and
            // ending -ем (instrumental) or -и
            if pl {
                if self.flags.alternating_yo && gen {
                    Some(f.append_to_stem(seq![Utf8Letter::Yo, Utf8Letter::N]))
                } else {
                    Some(f.append_to_stem(seq![Utf8Letter::Ye, Utf8Letter::N]))
                }
            } else if nom {
                Some(f.replace_ending(one(Utf8Letter::Ya)))
            } else {
                let g = f.append_to_stem(seq![Utf8Letter::Ye, Utf8Letter::N]);
                if info.case == Case::Instrumental {
                    Some(g.replace_ending(seq![Utf8Letter::Ye, Utf8Letter::M]))
                } else {
                    Some(g.replace_ending(one(Utf8Letter::I)))
                }
            }
        } else {
            None
        }
    }

    /// Stem type 8's endings starting with я take а after a hissing consonant.
    pub open spec fn spec_type8_fix(self, f: Form) -> Form {
        if self.stem_type == NounStemType::Type8 && f.stem().len() > 0
            && f.stem().last().spec_is_hissing() && f.ending().len() > 0 && f.ending()[0]
            == Utf8Letter::Ya {
            f.set_letter(f.stem_len, Utf8Letter::A)
        } else {
            f
        }
    }

    /// The е/ё alternation: a stem's ё becomes е where the ending is stressed and has a vowel;
    /// else the stem's last е becomes ё where it is stressed (for stresses f, f′ and f″, only
    /// if it is the stem's first vowel). `None` for a stem without ё and е.
    #[verifier::opaque]
    pub open spec fn spec_ye_yo_alternation(self, info: DeclInfo, f: Form) -> Option<Form> {
        let s = f.stem();
        let ending_has_vowel = spec_first_vowel(f.ending()) is Some;
        let stem_stressed = self.stress.spec_is_stem_stressed(info);
        match spec_first_letter_from(s, 0, Utf8Letter::Yo) {
            Some(i) => if !stem_stressed && ending_has_vowel {
                Some(f.set_letter(i, Utf8Letter::Ye))
            } else {
                Some(f)
            },
            None => match spec_last_letter_before(s, s.len() as int, Utf8Letter::Ye) {
                None => None,
                Some(j) => {
                    let into_yo = if ending_has_vowel {
                        if self.stress == NounStress::F || self.stress == NounStress::Fp
                            || self.stress == NounStress::Fpp {
                            spec_first_vowel(s) == Some(j) && stem_stressed
                        } else {
                            stem_stressed
                        }
                    } else {
                        true
                    };
                    if into_yo {
                        Some(f.set_letter(j, Utf8Letter::Yo))
                    } else {
                        Some(f)
                    }
                },
            },
        }
    }

    /// The vowel alternation (*). Masculine nouns, and feminine nouns of stem type 8, drop or
    /// change the stem's last vowel outside the nominative singular (and the instrumental
    /// singular of feminines): о is dropped; е and ё become й after a vowel, ь for stem type 6,
    /// after л, and for stem type 3 after other non-sibilant consonants, and are dropped
    /// otherwise. Neuter and feminine nouns insert or change a vowel in the genitive plural.
    /// `None` where no rule is defined.
    #[verifier::opaque]
    pub open spec fn spec_vowel_alternation(self, info: DeclInfo, f: Form) -> Option<Form> {
        let sg = info.number == Number::Singular;
        let stem_stressed = self.stress.spec_is_stem_stressed(info);
        if info.gender == Gender::Masculine || info.gender == Gender::Feminine && self.stem_type
            == NounStemType::Type8 {
            if sg && (info.case.spec_is_nom_or_acc_inan(info.animacy) || info.gender
                == Gender::Feminine && info.case == Case::Instrumental) {
                Some(f)
            } else {
                let s = f.stem();
                match spec_last_vowel(s) {
                    None => None,
                    Some(vi) => {
                        let v = s[vi];
                        if v == Utf8Letter::O {
                            Some(f.remove_stem_letter(vi))
                        } else if v == Utf8Letter::Ye || v == Utf8Letter::Yo {
                            let prec = if vi >= 1 {
                                Some(s[vi - 1])
                            } else {
                                None
                            };
                            if prec matches Some(p) && p.spec_is_vowel() {
                                Some(f.set_letter(vi, Utf8Letter::Iy))
                            } else if self.stem_type == NounStemType::Type6 || self.stem_type
                                == NounStemType::Type3 && (prec matches Some(p)
                                && p.spec_is_non_sibilant_consonant()) || prec == Some(
                                Utf8Letter::L,
                            ) {
                                Some(f.set_letter(vi, Utf8Letter::SoftSign))
                            } else {
                                Some(f.remove_stem_letter(vi))
                            }
                        } else {
                            None
                        }
                    },
                }
            }
        } else if (info.gender == Gender::Neuter || info.gender == Gender::Feminine) && !sg
            && info.case.spec_is_gen_or_acc_an(info.animacy) {
            if self.stem_type == NounStemType::Type2 && (self.stress == NounStress::B
                || self.stress == NounStress::F) {
                Some(f)
            } else if self.flags.circled_two {
                Some(f)
            } else if self.stem_type == NounStemType::Type6 {
                let s = f.stem();
                if s.len() > 0 && s.last() == Utf8Letter::SoftSign {
                    Some(
                        f.set_letter(
                            s.len() - 1,
                            if !stem_stressed {
                                Utf8Letter::Ye
                            } else {
                                Utf8Letter::I
                            },
                        ),
                    )
                } else {
                    Some(f)
                }
            } else {
                let l = f.letters;
                let f1 = if f.ending().len() == 1 && l.len() >= 2 && l[l.len() - 2] == Utf8Letter::N
                    && l[l.len() - 1] == Utf8Letter::SoftSign {
                    f.replace_ending(Seq::empty())
                } else {
                    f
                };
                let s = f1.stem();
                let n = s.len();
                if n == 0 {
                    None
                } else {
                    let last = s[n - 1];
                    let pre = if n >= 2 {
                        Some(s[n - 2])
                    } else {
                        None
                    };
                    if pre == Some(Utf8Letter::SoftSign) || pre == Some(Utf8Letter::Iy) {
                        Some(
                            f1.set_letter(
                                n - 2,
                                if last != Utf8Letter::Ts && !stem_stressed {
                                    Utf8Letter::Yo
                                } else {
                                    Utf8Letter::Ye
                                },
                            ),
                        )
                    } else {
                        let velar = |l: Utf8Letter|
                            l == Utf8Letter::K || l == Utf8Letter::G || l == Utf8Letter::Kh;
                        let ins = if pre matches Some(p) && velar(p) {
                            Utf8Letter::O
                        } else if velar(last) && (pre matches Some(p) && !p.spec_is_sibilant()) {
                            Utf8Letter::O
                        } else if last == Utf8Letter::Ts || stem_stressed {
                            Utf8Letter::Ye
                        } else if pre matches Some(p) && p.spec_is_hissing() {
                            Utf8Letter::O
                        } else {
                            Utf8Letter::Yo
                        };
                        Some(f1.insert_before_last_stem_letter(one(ins)))
                    }
                }
            }
        } else {
            Some(f)
        }
    }

    /// A form inflected by this declension with the declension parameters: the ending is
    /// appended, then the unique alternation (°), stem type 8's а after a hissing consonant,
    /// the е/ё alternation (`, ё`, without °), and the vowel alternation (*) are applied.
    pub open spec fn spec_inflect(self, info: DeclInfo, f: Form) -> Option<Form> {
        let f1 = f.append_to_ending(self.spec_find_ending(info));
        let f2 = if self.flags.circle {
            self.spec_unique_alternation(info, f1)
        } else {
            Some(f1)
        };
        match f2 {
            None => None,
            Some(f2) => {
                let f3 = self.spec_type8_fix(f2);
                let f4 = if self.flags.alternating_yo && !self.flags.circle {
                    self.spec_ye_yo_alternation(info, f3)
                } else {
                    Some(f3)
                };
                match f4 {
                    None => None,
                    Some(f4) => if self.flags.star {
                        self.spec_vowel_alternation(info, f4)
                    } else {
                        Some(f4)
                    },
                }
            },
        }
    }
}

/// The longest a word may get for its inflection to stay within `usize`.
pub open spec fn spec_fits(f: Form) -> bool {
    f.letters.len() + 16 <= usize::MAX
}

/// Replaces the nominative or genitive plural ending.
fn replace_nom_gen(buf: &mut InflectionBuf, is_gen: Option<bool>, nom: &[Utf8Letter], gen: &[Utf8Letter])
    requires
        old(buf).form().wf(),
    ensures
        final(buf).stress() == old(buf).stress(),
        final(buf).form() == spec_replace_nom_gen(old(buf).form(), is_gen, nom@, gen@),
        final(buf).form().wf(),
{
    match is_gen {
        Some(true) => buf.replace_ending(gen),
        Some(false) => buf.replace_ending(nom),
        None => {},
    }
}

impl NounDeclension {
    #[verifier::spinoff_prover]
    #[verifier::rlimit(80)]
    fn apply_unique_alternation(self, info: DeclInfo, buf: &mut InflectionBuf)
        requires
            old(buf).form().wf(),
            spec_fits(old(buf).form()),
            self.spec_unique_alternation(info, old(buf).form()) is Some,
        ensures
            final(buf).stress() == old(buf).stress(),
            final(buf).form().wf(),
            final(buf).form().letters.len() <= old(buf).form().letters.len() + 4,
            final(buf).form() == self.spec_unique_alternation(info, old(buf).form()).unwrap(),
    {
        reveal(NounDeclension::spec_unique_alternation);
        let ghost f = buf.form();
        let n = buf.stem_len();
        let pl = info.is_plural();
        let is_gen = info.case.acc_is_gen(info.animacy);
        let nom = info.case.is_nom_or_acc_inan(info.animacy);
        let gen = info.case.is_gen_or_acc_an(info.animacy);
        let empty: [Utf8Letter; 0] = [];
        assert(f.stem().len() == n);
        if n >= 2 && buf.letter(n - 2) == Utf8Letter::I && buf.letter(n - 1) == Utf8Letter::N {
            if pl {
                buf.shrink_stem_by(2);
                if !(is_gen == Some(false) && self.flags.circled_one) {
                    let ye = [Utf8Letter::Ye];
                    assert(ye@ == one(Utf8Letter::Ye));
                    replace_nom_gen(buf, is_gen, &ye, &empty);
                }
            }
        } else if n >= 4 && (buf.letter(n - 4) == Utf8Letter::O || buf.letter(n - 4)
            == Utf8Letter::Yo) && buf.letter(n - 3) == Utf8Letter::N && buf.letter(n - 2)
            == Utf8Letter::O && buf.letter(n - 1) == Utf8Letter::K {
            if pl {
                let v = if buf.letter(n - 4) == Utf8Letter::O {
                    Utf8Letter::A
                } else {
                    Utf8Letter::Ya
                };
                buf.set_letter(n - 4, v);
                buf.set_letter(n - 3, Utf8Letter::T);
                buf.shrink_stem_by(2);
                let a = [Utf8Letter::A];
                assert(a@ == one(Utf8Letter::A));
                replace_nom_gen(buf, is_gen, &a, &empty);
            } else if !nom {
                buf.remove_pre_last_stem_char();
            }
        } else if n >= 3 && buf.letter(n - 2) == Utf8Letter::O && buf.letter(n - 1)
            == Utf8Letter::K {
            if pl {
                let v = if buf.letter(n - 3).is_sibilant() {
                    Utf8Letter::A
                } else {
                    Utf8Letter::Ya
                };
                buf.set_letter(n - 2, v);
                buf.set_letter(n - 1, Utf8Letter::T);
                let a = [Utf8Letter::A];
                assert(a@ == one(Utf8Letter::A));
                replace_nom_gen(buf, is_gen, &a, &empty);
            } else if !nom {
                buf.remove_pre_last_stem_char();
            }
        } else if n >= 6 && (buf.letter(n - 6) == Utf8Letter::O || buf.letter(n - 6)
            == Utf8Letter::Yo) && buf.letter(n - 5) == Utf8Letter::N && buf.letter(n - 4)
            == Utf8Letter::O && buf.letter(n - 3) == Utf8Letter::Ch && buf.letter(n - 2)
            == Utf8Letter::Ye && buf.letter(n - 1) == Utf8Letter::K {
            if pl {
                let v = if buf.letter(n - 6) == Utf8Letter::O {
                    Utf8Letter::A
                } else {
                    Utf8Letter::Ya
                };
                buf.set_letter(n - 6, v);
                buf.set_letter(n - 5, Utf8Letter::T);
                buf.set_letter(n - 4, Utf8Letter::K);
                buf.shrink_stem_by(3);
                if gen {
                    let lit1 = [Utf8Letter::O];
                    assert(lit1@ == seq![Utf8Letter::O]);
                    buf.insert_between_last_two_stem_chars(&lit1);
                    buf.replace_ending(&empty);
                }
            } else if !nom {
                buf.remove_pre_last_stem_char();
            }
        } else if n >= 5 && buf.letter(n - 4) == Utf8Letter::O && buf.letter(n - 3)
            == Utf8Letter::Ch && buf.letter(n - 2) == Utf8Letter::Ye && buf.letter(n - 1)
            == Utf8Letter::K {
            if pl {
                let v = if buf.letter(n - 5).is_sibilant() {
                    Utf8Letter::A
                } else {
                    Utf8Letter::Ya
                };
                buf.set_letter(n - 4, v);
                buf.set_letter(n - 3, Utf8Letter::T);
                buf.set_letter(n - 2, Utf8Letter::K);
                buf.shrink_stem_by(1);
                if gen {
                    let lit2 = [Utf8Letter::O];
                    assert(lit2@ == seq![Utf8Letter::O]);
                    buf.insert_between_last_two_stem_chars(&lit2);
                    buf.replace_ending(&empty);
                }
            } else if !nom {
                buf.remove_pre_last_stem_char();
            }
        } else {
            // the only stems left with a rule are the neuter ones ending with м
            if pl {
                if self.flags.alternating_yo && gen {
                    let lit3 = [Utf8Letter::Yo, Utf8Letter::N];
                    assert(lit3@ == seq![Utf8Letter::Yo, Utf8Letter::N]);
                    buf.append_to_stem(&lit3);
                } else {
                    let lit4 = [Utf8Letter::Ye, Utf8Letter::N];
                    assert(lit4@ == seq![Utf8Letter::Ye, Utf8Letter::N]);
                    buf.append_to_stem(&lit4);
                }
            } else if nom {
                let lit5 = [Utf8Letter::Ya];
                assert(lit5@ == seq![Utf8Letter::Ya]);
                buf.replace_ending(&lit5);
            } else {
                let lit6 = [Utf8Letter::Ye, Utf8Letter::N];
                assert(lit6@ == seq![Utf8Letter::Ye, Utf8Letter::N]);
                buf.append_to_stem(&lit6);
                if info.case == Case::Instrumental {
                    let lit7 = [Utf8Letter::Ye, Utf8Letter::M];
                    assert(lit7@ == seq![Utf8Letter::Ye, Utf8Letter::M]);
                    buf.replace_ending(&lit7);
                } else {
                    let lit8 = [Utf8Letter::I];
                    assert(lit8@ == seq![Utf8Letter::I]);
                    buf.replace_ending(&lit8);
                }
            }
        }
    }
}

impl NounDeclension {
    fn apply_type8_fix(self, buf: &mut InflectionBuf)
        requires
            old(buf).form().wf(),
        ensures
            final(buf).stress() == old(buf).stress(),
            final(buf).form().wf(),
            final(buf).form().letters.len() == old(buf).form().letters.len(),
            final(buf).form() == self.spec_type8_fix(old(buf).form()),
    {
        let n = buf.stem_len();
        let len = buf.len();
        if self.stem_type == NounStemType::Type8 && n > 0 && buf.letter(n - 1).is_hissing() && len
            > n && buf.letter(n) == Utf8Letter::Ya {
            buf.set_letter(n, Utf8Letter::A);
        }
    }

    fn apply_ye_yo_alternation(self, info: DeclInfo, buf: &mut InflectionBuf)
        requires
            old(buf).form().wf(),
            self.spec_ye_yo_alternation(info, old(buf).form()) is Some,
        ensures
            final(buf).stress() == old(buf).stress(),
            final(buf).form().wf(),
            final(buf).form().letters.len() == old(buf).form().letters.len(),
            final(buf).form() == self.spec_ye_yo_alternation(info, old(buf).form()).unwrap(),
    {
        reveal(NounDeclension::spec_ye_yo_alternation);
        let ending_has_vowel = first_vowel(buf.ending()).is_some();
        let stem_stressed = self.stress.is_stem_stressed(info);
        match first_letter(buf.stem(), Utf8Letter::Yo) {
            Some(i) => {
                if !stem_stressed && ending_has_vowel {
                    buf.set_letter(i, Utf8Letter::Ye);
                }
            },
            None => {
                let j = match last_letter(buf.stem(), Utf8Letter::Ye) {
                    Some(j) => j,
                    None => return ,
                };
                let into_yo = if ending_has_vowel {
                    if self.stress == NounStress::F || self.stress == NounStress::Fp || self.stress
                        == NounStress::Fpp {
                        first_vowel(buf.stem()) == Some(j) && stem_stressed
                    } else {
                        stem_stressed
                    }
                } else {
                    true
                };
                if into_yo {
                    buf.set_letter(j, Utf8Letter::Yo);
                }
            },
        }
    }

    fn apply_vowel_alternation(self, info: DeclInfo, buf: &mut InflectionBuf)
        requires
            old(buf).form().wf(),
            spec_fits(old(buf).form()),
            self.spec_vowel_alternation(info, old(buf).form()) is Some,
        ensures
            final(buf).stress() == old(buf).stress(),
            final(buf).form().wf(),
            final(buf).form().letters.len() <= old(buf).form().letters.len() + 1,
            final(buf).form() == self.spec_vowel_alternation(info, old(buf).form()).unwrap(),
    {
        reveal(NounDeclension::spec_vowel_alternation);
        let ghost f = buf.form();
        let sg = info.is_singular();
        let stem_stressed = self.stress.is_stem_stressed(info);
        if info.gender == Gender::Masculine || info.gender == Gender::Feminine && self.stem_type
            == NounStemType::Type8 {
            if sg && (info.case.is_nom_or_acc_inan(info.animacy) || info.gender
                == Gender::Feminine && info.case == Case::Instrumental) {
                return ;
            }
            let vi = match last_vowel(buf.stem()) {
                Some(vi) => vi,
                None => return ,
            };
            let v = buf.letter(vi);
            if v == Utf8Letter::O {
                buf.remove_stem_char_at(vi);
            } else if v == Utf8Letter::Ye || v == Utf8Letter::Yo {
                let prec = if vi >= 1 {
                    Some(buf.letter(vi - 1))
                } else {
                    None
                };
                let prec_vowel = match prec {
                    Some(p) => p.is_vowel(),
                    None => false,
                };
                let prec_non_sibilant = match prec {
                    Some(p) => p.is_non_sibilant_consonant(),
                    None => false,
                };
                if prec_vowel {
                    buf.set_letter(vi, Utf8Letter::Iy);
                } else if self.stem_type == NounStemType::Type6 || self.stem_type
                    == NounStemType::Type3 && prec_non_sibilant || prec == Some(Utf8Letter::L) {
                    buf.set_letter(vi, Utf8Letter::SoftSign);
                } else {
                    buf.remove_stem_char_at(vi);
                }
            }
        } else if (info.gender == Gender::Neuter || info.gender == Gender::Feminine) && !sg
            && info.case.is_gen_or_acc_an(info.animacy) {
            if self.stem_type == NounStemType::Type2 && (self.stress == NounStress::B
                || self.stress == NounStress::F) {
                return ;
            }
            if self.flags.circled_two {
                return ;
            }
            if self.stem_type == NounStemType::Type6 {
                let n = buf.stem_len();
                if n > 0 && buf.letter(n - 1) == Utf8Letter::SoftSign {
                    buf.set_letter(
                        n - 1,
                        if !stem_stressed {
                            Utf8Letter::Ye
                        } else {
                            Utf8Letter::I
                        },
                    );
                }
                return ;
            }
            let len = buf.len();
            if len - buf.stem_len() == 1 && len >= 2 && buf.letter(len - 2) == Utf8Letter::N
                && buf.letter(len - 1) == Utf8Letter::SoftSign {
                let empty: [Utf8Letter; 0] = [];
                assert(empty@ == Seq::<Utf8Letter>::empty());
                buf.replace_ending(&empty);
            }
            let n = buf.stem_len();
            if n == 0 {
                return ;
            }
            let last = buf.letter(n - 1);
            let pre = if n >= 2 {
                Some(buf.letter(n - 2))
            } else {
                None
            };
            if pre == Some(Utf8Letter::SoftSign) || pre == Some(Utf8Letter::Iy) {
                buf.set_letter(
                    n - 2,
                    if last != Utf8Letter::Ts && !stem_stressed {
                        Utf8Letter::Yo
                    } else {
                        Utf8Letter::Ye
                    },
                );
            } else {
                let pre_velar = match pre {
                    Some(p) => p == Utf8Letter::K || p == Utf8Letter::G || p == Utf8Letter::Kh,
                    None => false,
                };
                let last_velar = last == Utf8Letter::K || last == Utf8Letter::G || last
                    == Utf8Letter::Kh;
                let pre_non_sibilant = match pre {
                    Some(p) => !p.is_sibilant(),
                    None => false,
                };
                let pre_hissing = match pre {
                    Some(p) => p.is_hissing(),
                    None => false,
                };
                let ins = if pre_velar {
                    Utf8Letter::O
                } else if last_velar && pre_non_sibilant {
                    Utf8Letter::O
                } else if last == Utf8Letter::Ts || stem_stressed {
                    Utf8Letter::Ye
                } else if pre_hissing {
                    Utf8Letter::O
                } else {
                    Utf8Letter::Yo
                };
                let lit = [ins];
                assert(lit@ == one(ins));
                buf.insert_between_last_two_stem_chars(&lit);
            }
        }
    }
}

impl NounDeclension {
    /// Inflects the form in the buffer by this declension with the declension parameters:
    /// appends the ending and applies the alternations that the flags call for.
    pub fn inflect(self, info: DeclInfo, buf: &mut InflectionBuf)
        requires
            old(buf).form().wf(),
            old(buf).form().letters.len() + 24 <= usize::MAX,
            self.spec_inflect(info, old(buf).form()) is Some,
        ensures
            final(buf).stress() == old(buf).stress(),
            final(buf).form() == self.spec_inflect(info, old(buf).form()).unwrap(),
            final(buf).form().wf(),
    {
        let ending = self.find_ending(info);
        buf.append_to_ending(ending.as_slice());
        if self.flags.has_circle() {
            self.apply_unique_alternation(info, buf);
        }
        self.apply_type8_fix(buf);
        if self.flags.has_alternating_yo() && !self.flags.has_circle() {
            self.apply_ye_yo_alternation(info, buf);
        }
        if self.flags.has_star() {
            self.apply_vowel_alternation(info, buf);
        }
    }
}

impl NounInfo {
    /// The declension parameters that a case and number give this noun: the only number it
    /// has, if any, then the case normalized with that number.
    pub open spec fn spec_decl_info(self, case: CaseEx, number: Number) -> DeclInfo {
        let number = match self.tantum {
            Some(n) => n,
            None => number,
        };
        let (case, number) = case.spec_normalize_with(number);
        DeclInfo { case, number, gender: self.declension_gender, animacy: self.animacy }
    }

    /// The noun with these letters and stress position inflected for the case and number, and
    /// its stress position: by its noun or adjective declension, or unchanged without a
    /// declension. `None` for a pronoun declension, which nouns do not have, or where the
    /// declension has no rule.
    pub open spec fn spec_inflect(self, stem: Seq<Utf8Letter>, stress_at: int, case: CaseEx, number: Number) -> Option<(Form, int)> {
        let f = Form { letters: stem, stem_len: stem.len() as int };
        let info = self.spec_decl_info(case, number);
        match self.declension {
            None => Some((f, spec_place_stress(stress_at, f, false))),
            Some(Declension::Noun(d)) => match d.spec_inflect(info, f) {
                Some(g) => Some(
                    (g, spec_place_stress(stress_at, g, !d.stress.spec_is_stem_stressed(info))),
                ),
                None => None,
            },
            Some(Declension::Adjective(d)) => match d.spec_inflect(info, f) {
                Some(g) => Some(
                    (
                        g,
                        spec_place_stress(
                            stress_at,
                            g,
                            d.stress.full == crate::stress::AdjectiveFullStress::B,
                        ),
                    ),
                ),
                None => None,
            },
            Some(Declension::Pronoun(_)) => None,
        }
    }

    /// Returns the noun with this stem inflected for the case and number.
    pub fn inflect(&self, stem: Word, case: CaseEx, number: Number) -> (r: WordBuf)
        requires
            stem.letters().len() + 24 <= usize::MAX,
            self.spec_inflect(stem.letters(), stem.stress_at(), case, number) is Some,
        ensures
            r.letters() == self.spec_inflect(stem.letters(), stem.stress_at(), case, number).unwrap().0.letters,
            r.stem_len() == self.spec_inflect(stem.letters(), stem.stress_at(), case, number).unwrap().0.stem_len,
            r.stress_at() == self.spec_inflect(stem.letters(), stem.stress_at(), case, number).unwrap().1,
    {
        let mut buf = InflectionBuf::new(stem.as_letters());
        let stress_at = stem.get_stress_at();
        let ending_stressed = match self.declension {
            None => false,
            Some(decl) => {
                let number = match self.tantum {
                    Some(n) => n,
                    None => number,
                };
                let (case, number) = case.normalize_with(number);
                let info = DeclInfo {
                    case,
                    number,
                    gender: self.declension_gender,
                    animacy: self.animacy,
                };
                match decl {
                    Declension::Noun(d) => {
                        d.inflect(info, &mut buf);
                        d.stress.is_ending_stressed(info)
                    },
                    Declension::Adjective(d) => {
                        d.inflect(info, &mut buf);
                        d.stress.full.is_ending_stressed()
                    },
                    Declension::Pronoun(_) => false,
                }
            },
        };
        finish_word(buf, stress_at, ending_stressed)
    }

    /// Inflects the noun with this stem for the case and number into `dst`.
    pub fn inflect_into(&self, stem: Word, case: CaseEx, number: Number, dst: &mut WordBuf)
        requires
            stem.letters().len() + 24 <= usize::MAX,
            self.spec_inflect(stem.letters(), stem.stress_at(), case, number) is Some,
        ensures
            final(dst).letters() == self.spec_inflect(stem.letters(), stem.stress_at(), case, number).unwrap().0.letters,
            final(dst).stem_len() == self.spec_inflect(stem.letters(), stem.stress_at(), case, number).unwrap().0.stem_len,
            final(dst).stress_at() == self.spec_inflect(stem.letters(), stem.stress_at(), case, number).unwrap().1,
    {
        *dst = self.inflect(stem, case, number);
    }
}

impl Noun {
    /// The noun inflected for the case and number, where it can be.
    pub open spec fn spec_inflect(self, case: CaseEx, number: Number) -> Option<(Form, int)> {
        self.spec_info().spec_inflect(
            self.spec_stem().letters(),
            self.spec_stem().stress_at(),
            case,
            number,
        )
    }

    /// Returns the noun inflected for the case and number.
    pub fn inflect(&self, case: CaseEx, number: Number) -> (r: WordBuf)
        requires
            self.spec_stem().letters().len() + 24 <= usize::MAX,
            self.spec_inflect(case, number) is Some,
        ensures
            r.letters() == self.spec_inflect(case, number).unwrap().0.letters,
            r.stem_len() == self.spec_inflect(case, number).unwrap().0.stem_len,
            r.stress_at() == self.spec_inflect(case, number).unwrap().1,
    {
        self.info.inflect(self.stem.borrow(), case, number)
    }

    /// Inflects the noun for the case and number into `dst`.
    pub fn inflect_into(&self, case: CaseEx, number: Number, dst: &mut WordBuf)
        requires
            self.spec_stem().letters().len() + 24 <= usize::MAX,
            self.spec_inflect(case, number) is Some,
        ensures
            final(dst).letters() == self.spec_inflect(case, number).unwrap().0.letters,
            final(dst).stem_len() == self.spec_inflect(case, number).unwrap().0.stem_len,
            final(dst).stress_at() == self.spec_inflect(case, number).unwrap().1,
    {
        *dst = self.inflect(case, number);
    }
}

/// The letter of a gender: м, с or ж.
pub open spec fn spec_gender_char(g: Gender) -> char {
    match g {
        Gender::Masculine => 'м',
        Gender::Neuter => 'с',
        Gender::Feminine => 'ж',
    }
}

fn gender_char(g: Gender) -> (r: char)
    ensures
        r == spec_gender_char(g),
{
    match g {
        Gender::Masculine => 'м',
        Gender::Neuter => 'с',
        Gender::Feminine => 'ж',
    }
}

impl NounInfo {
    /// The declension is written in angle brackets: for pluralia tantum with a declension, for
    /// an adjective declension, and where the declension's gender is not the noun's.
    pub open spec fn spec_need_braces(self) -> bool {
        if self.tantum == Some(Number::Plural) {
            self.declension is Some
        } else {
            self.declension matches Some(Declension::Adjective(_)) || self.declension_gender
                != self.gender.spec_normalize()
        }
    }

    /// The text before the space: `мн.` for pluralia tantum (with ` неод.` or ` одуш.` where
    /// the declension does not show the animacy), else the gender (м, с, ж or мо-жо), with о
    /// for animate nouns of one gender.
    #[verifier::opaque]
    pub open spec fn spec_fmt_head(self) -> Seq<char> {
        if self.tantum == Some(Number::Plural) {
            seq!['м', 'н', '.'] + if self.declension is None || self.declension matches Some(
                Declension::Adjective(_),
            ) {
                if self.animacy == Animacy::Inanimate {
                    seq![' ', 'н', 'е', 'о', 'д', '.']
                } else {
                    seq![' ', 'о', 'д', 'у', 'ш', '.']
                }
            } else {
                Seq::<char>::empty()
            }
        } else {
            (match self.gender {
                GenderEx::Masculine => seq!['м'],
                GenderEx::Neuter => seq!['с'],
                GenderEx::Feminine => seq!['ж'],
                GenderEx::Common => seq!['м', 'о', '-', 'ж', 'о'],
            }) + if self.gender != GenderEx::Common && self.animacy == Animacy::Animate {
                seq!['о']
            } else {
                Seq::<char>::empty()
            }
        }
    }

    /// The text of the declension: a noun declension, preceded in brackets by the declension's
    /// gender and animacy; `п ` and an adjective declension; or `0` without a declension.
    #[verifier::opaque]
    pub open spec fn spec_fmt_declension(self) -> Seq<char> {
        match self.declension {
            Some(Declension::Noun(d)) => (if self.spec_need_braces() {
                seq![spec_gender_char(self.declension_gender)] + (if self.animacy
                    == Animacy::Animate {
                    seq!['о']
                } else {
                    Seq::<char>::empty()
                }) + seq![' ']
            } else {
                Seq::<char>::empty()
            }) + d.spec_fmt(),
            Some(Declension::Adjective(d)) => seq!['п', ' '] + d.spec_fmt(),
            Some(Declension::Pronoun(_)) => Seq::<char>::empty(),
            None => seq!['0'],
        }
    }

    /// The text of the declension information, such as `жо 4*b②` or `мн. неод. <п 1b>`: the
    /// head, a space, then (in brackets, where needed) the declension and `—` for singularia
    /// tantum.
    pub open spec fn spec_fmt(self) -> Seq<char> {
        let braces = self.spec_need_braces();
        self.spec_fmt_head() + seq![' '] + (if braces {
            seq!['<']
        } else {
            Seq::<char>::empty()
        }) + self.spec_fmt_declension() + (if self.tantum == Some(Number::Singular) {
            seq!['—']
        } else {
            Seq::<char>::empty()
        }) + (if braces {
            seq!['>']
        } else {
            Seq::<char>::empty()
        })
    }

    fn fmt_head_to(&self, dst: &mut String)
        ensures
            final(dst)@ == old(dst)@ + self.spec_fmt_head(),
    {
        reveal(NounInfo::spec_fmt_head);
        if self.tantum == Some(Number::Plural) {
            push_str(dst, "мн.");
            proof {
                reveal_strlit("мн.");
            }
            if matches!(self.declension, None | Some(Declension::Adjective(_))) {
                match self.animacy {
                    Animacy::Inanimate => {
                        push_str(dst, " неод.");
                        proof {
                            reveal_strlit(" неод.");
                        }
                    },
                    Animacy::Animate => {
                        push_str(dst, " одуш.");
                        proof {
                            reveal_strlit(" одуш.");
                        }
                    },
                }
            }
        } else {
            match self.gender {
                GenderEx::Masculine => push_char(dst, 'м'),
                GenderEx::Neuter => push_char(dst, 'с'),
                GenderEx::Feminine => push_char(dst, 'ж'),
                GenderEx::Common => {
                    push_str(dst, "мо-жо");
                    proof {
                        reveal_strlit("мо-жо");
                    }
                },
            }
            if self.gender != GenderEx::Common && self.animacy == Animacy::Animate {
                push_char(dst, 'о');
            }
        }
        assert(dst@ =~= old(dst)@ + self.spec_fmt_head());
    }

    fn fmt_declension_to(&self, dst: &mut String, need_braces: bool)
        requires
            need_braces == self.spec_need_braces(),
        ensures
            final(dst)@ == old(dst)@ + self.spec_fmt_declension(),
    {
        reveal(NounInfo::spec_fmt_declension);
        match self.declension {
            Some(Declension::Noun(decl)) => {
                if need_braces {
                    push_char(dst, gender_char(self.declension_gender));
                    if self.animacy == Animacy::Animate {
                        push_char(dst, 'о');
                    }
                    push_char(dst, ' ');
                }
                decl.fmt_to(dst);
            },
            Some(Declension::Adjective(decl)) => {
                push_char(dst, 'п');
                push_char(dst, ' ');
                decl.fmt_to(dst);
            },
            Some(Declension::Pronoun(_)) => {},
            None => {
                push_char(dst, '0');
            },
        }
        assert(dst@ =~= old(dst)@ + self.spec_fmt_declension());
    }

    /// Appends the text of the declension information to `dst`, such as `жо 4*b②` or
    /// `мн. неод. <п 1b>`.
    pub fn fmt_to(&self, dst: &mut String)
        requires
            !(self.declension matches Some(Declension::Pronoun(_))),
        ensures
            final(dst)@ == old(dst)@ + self.spec_fmt(),
    {
        let ghost d0 = dst@;
        let need_braces = if self.tantum == Some(Number::Plural) {
            self.declension.is_some()
        } else {
            matches!(self.declension, Some(Declension::Adjective(_))) || self.declension_gender
                != self.gender.normalize()
        };
        self.fmt_head_to(dst);
        let ghost d1 = dst@;
        push_char(dst, ' ');
        if need_braces {
            push_char(dst, '<');
        }
        let ghost d2 = dst@;
        self.fmt_declension_to(dst, need_braces);
        let ghost d3 = dst@;
        if self.tantum == Some(Number::Singular) {
            push_char(dst, '—');
        }
        if need_braces {
            push_char(dst, '>');
        }
        assert(dst@ =~= d0 + self.spec_fmt());
    }

    /// Returns the text of the declension information, such as `жо 4*b②`.
    pub fn to_string(&self) -> (r: String)
        requires
            !(self.declension matches Some(Declension::Pronoun(_))),
        ensures
            r@ == self.spec_fmt(),
    {
        let mut s = String::new();
        self.fmt_to(&mut s);
        assert(s@ =~= self.spec_fmt());
        s
    }
}

/// Error type for parsing noun declension information.
#[derive(Debug, Clone, Copy, PartialEq, Eq, Structural, Hash)]
pub enum ParseNounInfoError {
    /// Invalid character in place of the gender or the type.
    InvalidGenderOrType,
    /// Error parsing the declension.
    InvalidDeclension(ParseDeclensionError),
    /// Different animacy was specified in two places.
    InconsistentAnimacy,
    /// Animacy was not specified for a plurale tantum.
    NoAnimacy,
    /// Both plurale and singulare tantum were specified.
    BothTantums,
    /// Invalid format.
    Invalid,
}

/// Parses the head at `pos`: the gender and animacy (м, мо, с, со, ж, жо, мо-жо) or `мн.` with
/// an optional ` неод.` or ` одуш.`. Gives the gender, the animacy (if given), the tantum (if
/// any) and the position after the head.
pub open spec fn spec_parse_head_at(s: Seq<char>, pos: int) -> Result<(GenderEx, Option<Animacy>, Option<Number>, int), ParseNounInfoError> {
    let c = spec_peek(s, pos);
    if c == Some('м') {
        let p = pos + 1;
        if spec_peek(s, p) == Some('о') {
            if spec_starts_with_at(s, p + 1, seq!['-', 'ж', 'о']) {
                Ok((GenderEx::Common, Some(Animacy::Animate), None, p + 4))
            } else {
                Ok((GenderEx::Masculine, Some(Animacy::Animate), None, p + 1))
            }
        } else if spec_peek(s, p) == Some('н') {
            if spec_peek(s, p + 1) != Some('.') {
                Err(ParseNounInfoError::Invalid)
            } else if spec_starts_with_at(s, p + 2, seq![' ', 'н', 'е', 'о', 'д', '.']) {
                Ok((GenderEx::Masculine, Some(Animacy::Inanimate), Some(Number::Plural), p + 8))
            } else if spec_starts_with_at(s, p + 2, seq![' ', 'о', 'д', 'у', 'ш', '.']) {
                Ok((GenderEx::Masculine, Some(Animacy::Animate), Some(Number::Plural), p + 8))
            } else {
                Ok((GenderEx::Masculine, None, Some(Number::Plural), p + 2))
            }
        } else {
            Ok((GenderEx::Masculine, Some(Animacy::Inanimate), None, p))
        }
    } else if c == Some('с') || c == Some('ж') {
        let g = if c == Some('с') {
            GenderEx::Neuter
        } else {
            GenderEx::Feminine
        };
        if spec_peek(s, pos + 1) == Some('о') {
            Ok((g, Some(Animacy::Animate), None, pos + 2))
        } else {
            Ok((g, Some(Animacy::Inanimate), None, pos + 1))
        }
    } else {
        Err(ParseNounInfoError::InvalidGenderOrType)
    }
}

/// Parses what opens a bracketed declension, after `<`: `п ` for an adjective declension, or
/// a gender letter, an optional о for animate, and a space, for a noun declension of that
/// gender. Gives whether the declension is an adjective's, its gender, the animacy (which
/// must agree with one already given), and the position after it.
pub open spec fn spec_parse_bracket_prefix_at(s: Seq<char>, pos: int, gender: Gender, animacy: Option<Animacy>) -> Result<(bool, Gender, Option<Animacy>, int), ParseNounInfoError> {
    let c = spec_peek(s, pos);
    let r: Result<(bool, Gender, Option<Animacy>, int), ParseNounInfoError> = if c == Some('п') {
        Ok((true, gender, animacy, pos + 1))
    } else if c == Some('м') || c == Some('с') || c == Some('ж') {
        let g = if c == Some('м') {
            Gender::Masculine
        } else if c == Some('с') {
            Gender::Neuter
        } else {
            Gender::Feminine
        };
        let (an, p) = if spec_peek(s, pos + 1) == Some('о') {
            (Animacy::Animate, pos + 2)
        } else {
            (Animacy::Inanimate, pos + 1)
        };
        if animacy matches Some(a) && a != an {
            Err(ParseNounInfoError::InconsistentAnimacy)
        } else {
            Ok((false, g, Some(an), p))
        }
    } else {
        Err(ParseNounInfoError::InvalidGenderOrType)
    };
    match r {
        Err(e) => Err(e),
        Ok((adj, g, an, p)) => if spec_peek(s, p) == Some(' ') {
            Ok((adj, g, an, p + 1))
        } else {
            Err(ParseNounInfoError::Invalid)
        },
    }
}

/// Parses the declension part at `pos`: `0` for no declension, or a noun declension, or in
/// angle brackets a declension that [`spec_parse_bracket_prefix_at`] announces; then `—` for
/// singulare tantum. Gives the declension, its gender, the animacy, the tantum and the
/// position after it.
pub open spec fn spec_parse_declension_part_at(s: Seq<char>, pos: int, gender: Gender, animacy: Option<Animacy>, tantum: Option<Number>) -> Result<(Option<Declension>, Gender, Option<Animacy>, Option<Number>, int), ParseNounInfoError> {
    if spec_peek(s, pos) == Some('0') {
        Ok((None, gender, animacy, tantum, pos + 1))
    } else {
        let br = spec_peek(s, pos) == Some('<');
        let pre = if br {
            spec_parse_bracket_prefix_at(s, pos + 1, gender, animacy)
        } else {
            Ok((false, gender, animacy, pos))
        };
        match pre {
            Err(e) => Err(e),
            Ok((adj, g, an, p)) => {
                let d: Result<(Declension, int), ParseDeclensionError> = if adj {
                    match spec_parse_adjective_declension_at(s, p) {
                        Err(e) => Err(e),
                        Ok((x, q)) => Ok((Declension::Adjective(x), q)),
                    }
                } else {
                    match spec_parse_noun_declension_at(s, p) {
                        Err(e) => Err(e),
                        Ok((x, q)) => Ok((Declension::Noun(x), q)),
                    }
                };
                match d {
                    Err(e) => Err(ParseNounInfoError::InvalidDeclension(e)),
                    Ok((decl, q)) => {
                        let sing = spec_peek(s, q) == Some('—');
                        if sing && tantum is Some {
                            Err(ParseNounInfoError::BothTantums)
                        } else {
                            let t = if sing {
                                Some(Number::Singular)
                            } else {
                                tantum
                            };
                            let q2 = if sing {
                                q + 1
                            } else {
                                q
                            };
                            if br && spec_peek(s, q2) != Some('>') {
                                Err(ParseNounInfoError::Invalid)
                            } else {
                                Ok((Some(decl), g, an, t, if br { q2 + 1 } else { q2 }))
                            }
                        }
                    },
                }
            },
        }
    }
}

/// Parses noun declension information at `pos`, such as `мо 3b`, `со <жо 6*f>` or
/// `мн. неод. <п 4a>`: the head, a space, and the declension part; the animacy must be
/// known in the end.
pub open spec fn spec_parse_noun_info_at(s: Seq<char>, pos: int) -> Result<(NounInfo, int), ParseNounInfoError> {
    match spec_parse_head_at(s, pos) {
        Err(e) => Err(e),
        Ok((gender, animacy, tantum, p)) => if spec_peek(s, p) != Some(' ') {
            Err(ParseNounInfoError::Invalid)
        } else {
            match spec_parse_declension_part_at(s, p + 1, gender.spec_normalize(), animacy, tantum) {
                Err(e) => Err(e),
                Ok((declension, declension_gender, animacy, tantum, q)) => match animacy {
                    None => Err(ParseNounInfoError::NoAnimacy),
                    Some(animacy) => Ok(
                        (NounInfo { declension, declension_gender, gender, animacy, tantum }, q),
                    ),
                },
            }
        },
    }
}

/// Parses a whole string as noun declension information.
pub open spec fn spec_parse_noun_info(s: Seq<char>) -> Result<NounInfo, ParseNounInfoError> {
    match spec_parse_noun_info_at(s, 0) {
        Err(e) => Err(e),
        Ok((x, p)) => if p == s.len() {
            Ok(x)
        } else {
            Err(ParseNounInfoError::Invalid)
        },
    }
}

fn parse_head(parser: &mut UnsafeParser) -> (r: Result<(GenderEx, Option<Animacy>, Option<Number>), ParseNounInfoError>)
    ensures
        final(parser).chars() == old(parser).chars(),
        match spec_parse_head_at(old(parser).chars(), old(parser).pos()) {
            Ok((g, a, t, p)) => r == Ok::<(GenderEx, Option<Animacy>, Option<Number>), ParseNounInfoError>((g, a, t)) && final(parser).pos() == p,
            Err(e) => r == Err::<(GenderEx, Option<Animacy>, Option<Number>), ParseNounInfoError>(e),
        },
{
    let ghost s = parser.chars();
    let ghost pos = parser.pos();
    proof {
        reveal_strlit("-жо");
        reveal_strlit(" неод.");
        reveal_strlit(" одуш.");
        assert("-жо"@ =~= seq!['-', 'ж', 'о']);
        assert(" неод."@ =~= seq![' ', 'н', 'е', 'о', 'д', '.']);
        assert(" одуш."@ =~= seq![' ', 'о', 'д', 'у', 'ш', '.']);
    }
    let c = parser.peek_char();
    if c == Some('м') {
        parser.forward(1);
        if parser.skip('о') {
            if parser.skip_str("-жо") {
                Ok((GenderEx::Common, Some(Animacy::Animate), None))
            } else {
                Ok((GenderEx::Masculine, Some(Animacy::Animate), None))
            }
        } else if parser.skip('н') {
            if !parser.skip('.') {
                return Err(ParseNounInfoError::Invalid);
            }
            if parser.skip_str(" неод.") {
                Ok((GenderEx::Masculine, Some(Animacy::Inanimate), Some(Number::Plural)))
            } else if parser.skip_str(" одуш.") {
                Ok((GenderEx::Masculine, Some(Animacy::Animate), Some(Number::Plural)))
            } else {
                Ok((GenderEx::Masculine, None, Some(Number::Plural)))
            }
        } else {
            Ok((GenderEx::Masculine, Some(Animacy::Inanimate), None))
        }
    } else if c == Some('с') || c == Some('ж') {
        let g = if c == Some('с') {
            GenderEx::Neuter
        } else {
            GenderEx::Feminine
        };
        parser.forward(1);
        if parser.skip('о') {
            Ok((g, Some(Animacy::Animate), None))
        } else {
            Ok((g, Some(Animacy::Inanimate), None))
        }
    } else {
        Err(ParseNounInfoError::InvalidGenderOrType)
    }
}

fn parse_bracket_prefix(parser: &mut UnsafeParser, gender: Gender, animacy: Option<Animacy>) -> (r: Result<(bool, Gender, Option<Animacy>), ParseNounInfoError>)
    ensures
        final(parser).chars() == old(parser).chars(),
        match spec_parse_bracket_prefix_at(old(parser).chars(), old(parser).pos(), gender, animacy) {
            Ok((adj, g, a, p)) => r == Ok::<(bool, Gender, Option<Animacy>), ParseNounInfoError>((adj, g, a)) && final(parser).pos() == p,
            Err(e) => r == Err::<(bool, Gender, Option<Animacy>), ParseNounInfoError>(e),
        },
{
    let c = parser.peek_char();
    let (adj, g, an) = if c == Some('п') {
        parser.forward(1);
        (true, gender, animacy)
    } else if c == Some('м') || c == Some('с') || c == Some('ж') {
        let g = if c == Some('м') {
            Gender::Masculine
        } else if c == Some('с') {
            Gender::Neuter
        } else {
            Gender::Feminine
        };
        parser.forward(1);
        let an = if parser.skip('о') {
            Animacy::Animate
        } else {
            Animacy::Inanimate
        };
        if let Some(a) = animacy {
            if a != an {
                return Err(ParseNounInfoError::InconsistentAnimacy);
            }
        }
        (false, g, Some(an))
    } else {
        return Err(ParseNounInfoError::InvalidGenderOrType);
    };
    if !parser.skip(' ') {
        return Err(ParseNounInfoError::Invalid);
    }
    Ok((adj, g, an))
}

fn parse_declension_part(parser: &mut UnsafeParser, gender: Gender, animacy: Option<Animacy>, tantum: Option<Number>) -> (r: Result<(Option<Declension>, Gender, Option<Animacy>, Option<Number>), ParseNounInfoError>)
    ensures
        final(parser).chars() == old(parser).chars(),
        match spec_parse_declension_part_at(old(parser).chars(), old(parser).pos(), gender, animacy, tantum) {
            Ok((d, g, a, t, p)) => r == Ok::<(Option<Declension>, Gender, Option<Animacy>, Option<Number>), ParseNounInfoError>((d, g, a, t)) && final(parser).pos() == p,
            Err(e) => r == Err::<(Option<Declension>, Gender, Option<Animacy>, Option<Number>), ParseNounInfoError>(e),
        },
{
    if parser.skip('0') {
        return Ok((None, gender, animacy, tantum));
    }
    let br = parser.skip('<');
    let (adj, g, an) = if br {
        match parse_bracket_prefix(parser, gender, animacy) {
            Ok(x) => x,
            Err(e) => return Err(e),
        }
    } else {
        (false, gender, animacy)
    };
    let decl = if adj {
        match AdjectiveDeclension::partial_from_str(parser) {
            Ok(x) => Declension::Adjective(x),
            Err(e) => return Err(ParseNounInfoError::InvalidDeclension(e)),
        }
    } else {
        match NounDeclension::partial_from_str(parser) {
            Ok(x) => Declension::Noun(x),
            Err(e) => return Err(ParseNounInfoError::InvalidDeclension(e)),
        }
    };
    let mut t = tantum;
    if parser.skip('—') {
        if tantum.is_some() {
            return Err(ParseNounInfoError::BothTantums);
        }
        t = Some(Number::Singular);
    }
    if br && !parser.skip('>') {
        return Err(ParseNounInfoError::Invalid);
    }
    Ok((Some(decl), g, an, t))
}

impl NounInfo {
    /// Parses noun declension information at the parser's position, such as `мо 3b`.
    pub fn partial_from_str(parser: &mut UnsafeParser) -> (r: Result<NounInfo, ParseNounInfoError>)
        ensures
            final(parser).chars() == old(parser).chars(),
            match spec_parse_noun_info_at(old(parser).chars(), old(parser).pos()) {
                Ok((x, p)) => r == Ok::<NounInfo, ParseNounInfoError>(x) && final(parser).pos() == p,
                Err(e) => r == Err::<NounInfo, ParseNounInfoError>(e),
            },
    {
        let (gender, animacy, tantum) = match parse_head(parser) {
            Ok(x) => x,
            Err(e) => return Err(e),
        };
        if !parser.skip(' ') {
            return Err(ParseNounInfoError::Invalid);
        }
        let (declension, declension_gender, animacy, tantum) = match parse_declension_part(
            parser,
            gender.normalize(),
            animacy,
            tantum,
        ) {
            Ok(x) => x,
            Err(e) => return Err(e),
        };
        match animacy {
            None => Err(ParseNounInfoError::NoAnimacy),
            Some(animacy) => Ok(NounInfo { declension, declension_gender, gender, animacy, tantum }),
        }
    }

    /// Parses a string as noun declension information, such as `мо 3b`, `со <жо 6*f>` or
    /// `мн. неод. <п 4a>`.
    pub fn parse_str(s: &str) -> (r: Result<NounInfo, ParseNounInfoError>)
        ensures
            r == spec_parse_noun_info(s@),
    {
        let mut parser = UnsafeParser::new(s);
        match NounInfo::partial_from_str(&mut parser) {
            Ok(x) => if parser.finished() {
                Ok(x)
            } else {
                Err(ParseNounInfoError::Invalid)
            },
            Err(e) => Err(e),
        }
    }
}

impl std::str::FromStr for NounInfo {
    type Err = ParseNounInfoError;

    fn from_str(s: &str) -> (r: Result<NounInfo, ParseNounInfoError>)
        ensures
            r == spec_parse_noun_info(s@),
    {
        NounInfo::parse_str(s)
    }
}


impl NounInfo {
    /// The declension information that its text describes exactly: a noun or adjective
    /// declension, or none (then no singulare tantum); animate if of common gender; declining
    /// by its own gender unless by a noun declension; masculine if a plurale tantum (whose
    /// text shows no gender).
    pub open spec fn spec_fmt_parses_back(self) -> bool {
        &&& !(self.declension matches Some(Declension::Pronoun(_)))
        &&& (self.gender == GenderEx::Common ==> self.animacy == Animacy::Animate)
        &&& (self.declension is None ==> self.tantum != Some(Number::Singular))
        &&& (!(self.declension matches Some(Declension::Noun(_))) ==> self.declension_gender
            == self.gender.spec_normalize())
        &&& (self.tantum == Some(Number::Plural) ==> self.gender == GenderEx::Masculine)
    }

    /// The text after the head and its space: the declension part.
    pub open spec fn spec_fmt_body(self) -> Seq<char> {
        let braces = self.spec_need_braces();
        (if braces {
            seq!['<']
        } else {
            Seq::<char>::empty()
        }) + self.spec_fmt_declension() + (if self.tantum == Some(Number::Singular) {
            seq!['—']
        } else {
            Seq::<char>::empty()
        }) + (if braces {
            seq!['>']
        } else {
            Seq::<char>::empty()
        })
    }

    /// The animacy that the head of the text gives: none for a plurale tantum with a noun
    /// declension (whose brackets give it).
    pub open spec fn spec_head_animacy(self) -> Option<Animacy> {
        if self.tantum == Some(Number::Plural) && self.declension matches Some(Declension::Noun(_)) {
            None
        } else {
            Some(self.animacy)
        }
    }
}

proof fn lemma_fmt_split(info: NounInfo)
    ensures
        info.spec_fmt() == info.spec_fmt_head() + seq![' '] + info.spec_fmt_body(),
{
    assert(info.spec_fmt() =~= info.spec_fmt_head() + seq![' '] + info.spec_fmt_body());
}

/// The body's first character: `<`, `0` or a digit.
proof fn lemma_body_start(info: NounInfo)
    requires
        info.spec_fmt_parses_back(),
    ensures
        info.spec_fmt_body().len() >= 1,
        info.spec_need_braces() ==> info.spec_fmt_body()[0] == '<',
        !info.spec_need_braces() ==> info.spec_fmt_body()[0] == '0' || '1' <= info.spec_fmt_body()[0]
            <= '8',
{
    reveal(NounInfo::spec_fmt_declension);
    match info.declension {
        Some(Declension::Noun(d)) => lemma_declension_fmt_starts_with_digit(d, AdjectiveDeclension {
            stem_type: crate::declension::AdjectiveStemType::Type1,
            stress: crate::stress::AdjectiveStress {
                full: crate::stress::AdjectiveFullStress::A,
                short: crate::stress::AdjectiveShortStress::A,
            },
            flags: d.flags,
        }),
        _ => {},
    }
}

/// The head of a text parses back to the gender, the animacy that it gives and the tantum.
proof fn lemma_parse_head_fmt(info: NounInfo)
    requires
        info.spec_fmt_parses_back(),
    ensures
        spec_parse_head_at(info.spec_fmt(), 0) == Ok::<
            (GenderEx, Option<Animacy>, Option<Number>, int),
            ParseNounInfoError,
        >((
            info.gender,
            info.spec_head_animacy(),
            (if info.tantum == Some(Number::Plural) {
                Some(Number::Plural)
            } else {
                None
            }),
            info.spec_fmt_head().len() as int,
        )),
{
    reveal(NounInfo::spec_fmt_head);
    lemma_fmt_split(info);
    lemma_body_start(info);
    let s = info.spec_fmt();
    let h = info.spec_fmt_head();
    let b = info.spec_fmt_body();
    assert(forall|i: int| 0 <= i < h.len() ==> s[i] == h[i]);
    assert(s[h.len() as int] == ' ');
    assert(s[h.len() as int + 1] == b[0]);
    if info.tantum == Some(Number::Plural) {
        if !(info.declension is None || info.declension matches Some(Declension::Adjective(_))) {
            assert(info.spec_need_braces());
            assert(!spec_starts_with_at(s, 3, seq![' ', 'н', 'е', 'о', 'д', '.']));
            assert(!spec_starts_with_at(s, 3, seq![' ', 'о', 'д', 'у', 'ш', '.']));
        } else if info.animacy == Animacy::Inanimate {
            assert(s.subrange(3, 9) =~= seq![' ', 'н', 'е', 'о', 'д', '.']);
        } else {
            assert(s.subrange(3, 9) =~= seq![' ', 'о', 'д', 'у', 'ш', '.']);
            assert(!spec_starts_with_at(s, 3, seq![' ', 'н', 'е', 'о', 'д', '.']));
        }
    } else if info.gender == GenderEx::Common {
        assert(s.subrange(2, 5) =~= seq!['-', 'ж', 'о']);
    } else if info.gender == GenderEx::Masculine && info.animacy == Animacy::Animate {
        assert(!spec_starts_with_at(s, 2, seq!['-', 'ж', 'о']));
    }
}


/// The result of parsing the declension part of a text back.
pub open spec fn spec_parse_body_result(info: NounInfo) -> Result<
    (Option<Declension>, Gender, Option<Animacy>, Option<Number>, int),
    ParseNounInfoError,
> {
    spec_parse_declension_part_at(
        info.spec_fmt(),
        info.spec_fmt_head().len() as int + 1,
        info.gender.spec_normalize(),
        info.spec_head_animacy(),
        (if info.tantum == Some(Number::Plural) {
            Some(Number::Plural)
        } else {
            None
        }),
    )
}

/// The text, as the head, a space and the body's characters.
proof fn lemma_body_chars(info: NounInfo)
    ensures
        info.spec_fmt().len() == info.spec_fmt_head().len() + 1 + info.spec_fmt_body().len(),
        forall|i: int|
            0 <= i < info.spec_fmt_body().len() ==> #[trigger] info.spec_fmt()[info.spec_fmt_head().len() + 1 + i]
                == info.spec_fmt_body()[i],
{
    lemma_fmt_split(info);
}

proof fn lemma_parse_body_none(info: NounInfo)
    requires
        info.spec_fmt_parses_back(),
        info.declension is None,
    ensures
        spec_parse_body_result(info) == Ok::<
            (Option<Declension>, Gender, Option<Animacy>, Option<Number>, int),
            ParseNounInfoError,
        >((info.declension, info.declension_gender, Some(info.animacy), info.tantum, info.spec_fmt().len() as int)),
{
    reveal(NounInfo::spec_fmt_declension);
    lemma_body_chars(info);
    let b = info.spec_fmt_body();
    assert(!info.spec_need_braces());
    assert(b =~= seq!['0']);
    let pos = info.spec_fmt_head().len() as int + 1;
    assert(info.spec_fmt()[pos + 0] == b[0]);
    assert(spec_peek(info.spec_fmt(), pos) == Some('0'));
    assert(info.spec_head_animacy() == Some(info.animacy));
    assert(info.tantum != Some(Number::Singular));
    match info.tantum {
        Some(Number::Plural) => {},
        Some(Number::Singular) => {},
        None => {},
    }
    assert((if info.tantum == Some(Number::Plural) { Some(Number::Plural) } else { None }) == info.tantum);
    assert(pos + 1 == info.spec_fmt().len());
    assert(info.declension_gender == info.gender.spec_normalize());
}

proof fn lemma_parse_body_noun_plain(info: NounInfo, d: NounDeclension)
    requires
        info.spec_fmt_parses_back(),
        info.declension == Some(Declension::Noun(d)),
        !info.spec_need_braces(),
    ensures
        spec_parse_body_result(info) == Ok::<
            (Option<Declension>, Gender, Option<Animacy>, Option<Number>, int),
            ParseNounInfoError,
        >((info.declension, info.declension_gender, Some(info.animacy), info.tantum, info.spec_fmt().len() as int)),
{
    reveal(NounInfo::spec_fmt_declension);
    lemma_body_chars(info);
    let s = info.spec_fmt();
    let b = info.spec_fmt_body();
    let pos = info.spec_fmt_head().len() as int + 1;
    let sing = info.tantum == Some(Number::Singular);
    let dash: Seq<char> = if sing { seq!['—'] } else { Seq::<char>::empty() };
    let f = d.spec_fmt();
    assert(b =~= f + dash);
    assert forall|i: int| 0 <= i < f.len() implies s.subrange(pos, pos + f.len())[i] == f[i] by {
        assert(s[pos + i] == b[i]);
    }
    assert(s.subrange(pos, pos + f.len()) =~= f);
    let m = f.len() as int;
    if sing {
        assert(s[pos + m] == b[m]);
    }
    lemma_parse_noun_declension_at_fmt(d, s, pos);
    assert(s[pos + 0] == b[0]);
    lemma_declension_fmt_starts_with_digit(d, AdjectiveDeclension {
        stem_type: crate::declension::AdjectiveStemType::Type1,
        stress: crate::stress::AdjectiveStress {
            full: crate::stress::AdjectiveFullStress::A,
            short: crate::stress::AdjectiveShortStress::A,
        },
        flags: d.flags,
    });
    assert(info.tantum != Some(Number::Plural));
    match info.tantum {
        Some(Number::Plural) => {},
        Some(Number::Singular) => {},
        None => {},
    }
    assert(s.len() == pos + m + dash.len());
}

#[verifier::rlimit(80)]
#[verifier::spinoff_prover]
proof fn lemma_parse_body_noun_braced(info: NounInfo, d: NounDeclension)
    requires
        info.spec_fmt_parses_back(),
        info.declension == Some(Declension::Noun(d)),
        info.spec_need_braces(),
    ensures
        spec_parse_body_result(info) == Ok::<
            (Option<Declension>, Gender, Option<Animacy>, Option<Number>, int),
            ParseNounInfoError,
        >((info.declension, info.declension_gender, Some(info.animacy), info.tantum, info.spec_fmt().len() as int)),
{
    reveal(NounInfo::spec_fmt_declension);
    lemma_body_chars(info);
    let s = info.spec_fmt();
    let b = info.spec_fmt_body();
    let pos = info.spec_fmt_head().len() as int + 1;
    let sing = info.tantum == Some(Number::Singular);
    let dash: Seq<char> = if sing { seq!['—'] } else { Seq::<char>::empty() };
    let an: Seq<char> = if info.animacy == Animacy::Animate { seq!['о'] } else { Seq::<char>::empty() };
    let pre: Seq<char> = seq!['<', spec_gender_char(info.declension_gender)] + an + seq![' '];
    let f = d.spec_fmt();
    assert(b =~= pre + f + dash + seq!['>']);
    let k = pre.len() as int;
    let start = pos + k;
    assert forall|i: int| 0 <= i < f.len() implies s.subrange(start, start + f.len())[i] == f[i] by {
        assert(s[pos + (k + i)] == b[k + i]);
    }
    assert(s.subrange(start, start + f.len()) =~= f);
    let m = k + f.len() as int;
    assert(s[pos + m] == b[m]);
    lemma_parse_noun_declension_at_fmt(d, s, start);
    assert(s[pos + 0] == b[0]);
    assert(s[pos + 1] == b[1]);
    assert(s[pos + 2] == b[2]);
    if info.animacy == Animacy::Animate {
        assert(s[pos + 3] == b[3]);
    }
    let ha = info.spec_head_animacy();
    assert(spec_parse_bracket_prefix_at(s, pos + 1, info.gender.spec_normalize(), ha) == Ok::<
        (bool, Gender, Option<Animacy>, int),
        ParseNounInfoError,
    >((false, info.declension_gender, Some(info.animacy), start)));
    assert(s[pos + (m + dash.len() as int)] == b[m + dash.len() as int]);
    match info.tantum {
        Some(Number::Plural) => {},
        Some(Number::Singular) => {},
        None => {},
    }
    assert(s.len() == pos + m + dash.len() + 1);
}

#[verifier::rlimit(40)]
proof fn lemma_parse_body_adjective(info: NounInfo, a: AdjectiveDeclension)
    requires
        info.spec_fmt_parses_back(),
        info.declension == Some(Declension::Adjective(a)),
    ensures
        spec_parse_body_result(info) == Ok::<
            (Option<Declension>, Gender, Option<Animacy>, Option<Number>, int),
            ParseNounInfoError,
        >((info.declension, info.declension_gender, Some(info.animacy), info.tantum, info.spec_fmt().len() as int)),
{
    reveal(NounInfo::spec_fmt_declension);
    lemma_body_chars(info);
    let s = info.spec_fmt();
    let b = info.spec_fmt_body();
    let pos = info.spec_fmt_head().len() as int + 1;
    let sing = info.tantum == Some(Number::Singular);
    let dash: Seq<char> = if sing { seq!['—'] } else { Seq::<char>::empty() };
    assert(info.spec_need_braces());
    let f = a.spec_fmt();
    assert(b =~= seq!['<', 'п', ' '] + f + dash + seq!['>']);
    let start = pos + 3;
    assert forall|i: int| 0 <= i < f.len() implies s.subrange(start, start + f.len())[i] == f[i] by {
        assert(s[pos + (3 + i)] == b[3 + i]);
    }
    assert(s.subrange(start, start + f.len()) =~= f);
    let m = 3 + f.len() as int;
    assert(s[pos + m] == b[m]);
    lemma_parse_adjective_declension_at_fmt(a, s, start);
    assert(s[pos + 0] == b[0]);
    assert(s[pos + 1] == b[1]);
    assert(s[pos + 2] == b[2]);
    assert(s[pos + (m + dash.len() as int)] == b[m + dash.len() as int]);
    let ha = info.spec_head_animacy();
    assert(ha == Some(info.animacy));
    assert(spec_parse_bracket_prefix_at(s, pos + 1, info.gender.spec_normalize(), ha) == Ok::<
        (bool, Gender, Option<Animacy>, int),
        ParseNounInfoError,
    >((true, info.gender.spec_normalize(), ha, pos + 3)));
    match info.tantum {
        Some(Number::Plural) => {},
        Some(Number::Singular) => {},
        None => {},
    }
    assert(s.len() == pos + m + dash.len() + 1);
}

/// Formatting declension information and parsing the text gives it back, where the text
/// describes it exactly.
pub proof fn law_noun_info_parse_fmt(info: NounInfo)
    requires
        info.spec_fmt_parses_back(),
    ensures
        spec_parse_noun_info(info.spec_fmt()) == Ok::<NounInfo, ParseNounInfoError>(info),
{
    lemma_parse_head_fmt(info);
    match info.declension {
        None => lemma_parse_body_none(info),
        Some(Declension::Noun(d)) => if info.spec_need_braces() {
            lemma_parse_body_noun_braced(info, d)
        } else {
            lemma_parse_body_noun_plain(info, d)
        },
        Some(Declension::Adjective(a)) => lemma_parse_body_adjective(info, a),
        Some(Declension::Pronoun(_)) => {},
    }
    lemma_fmt_split(info);
    let h = info.spec_fmt_head();
    assert(info.spec_fmt()[h.len() as int] == ' ');
}


/// A noun inflects for a secondary case as for the primary case it stands for (partitive as
/// genitive, locative as prepositional, translative as nominative plural), and a noun with
/// only one number inflects alike for either number.
pub proof fn law_noun_inflect_cases_and_tantum(info: NounInfo, stem: Seq<Utf8Letter>, stress_at: int, number: Number)
    ensures
        info.spec_inflect(stem, stress_at, CaseEx::Partitive, number) == info.spec_inflect(
            stem,
            stress_at,
            CaseEx::Genitive,
            number,
        ),
        info.spec_inflect(stem, stress_at, CaseEx::Locative, number) == info.spec_inflect(
            stem,
            stress_at,
            CaseEx::Prepositional,
            number,
        ),
        info.tantum is None ==> info.spec_inflect(stem, stress_at, CaseEx::Translative, number)
            == info.spec_inflect(stem, stress_at, CaseEx::Nominative, Number::Plural),
        info.tantum is Some ==> forall|c: CaseEx|
            #[trigger] info.spec_inflect(stem, stress_at, c, Number::Singular) == info.spec_inflect(
                stem,
                stress_at,
                c,
                Number::Plural,
            ),
        info.tantum is Some ==> forall|c: CaseEx, m: Number|
            #[trigger] info.spec_inflect(stem, stress_at, c, m) == info.spec_inflect(
                stem,
                stress_at,
                c,
                info.tantum.unwrap(),
            ),
{
    assert(info.spec_decl_info(CaseEx::Partitive, number) == info.spec_decl_info(CaseEx::Genitive, number));
    assert(info.spec_decl_info(CaseEx::Locative, number) == info.spec_decl_info(CaseEx::Prepositional, number));
    if info.tantum is None {
        assert(info.spec_decl_info(CaseEx::Translative, number) == info.spec_decl_info(
            CaseEx::Nominative,
            Number::Plural,
        ));
    } else {
        assert forall|c: CaseEx|
            #[trigger] info.spec_inflect(stem, stress_at, c, Number::Singular) == info.spec_inflect(
                stem,
                stress_at,
                c,
                Number::Plural,
            ) by {
            assert(info.spec_decl_info(c, Number::Singular) == info.spec_decl_info(c, Number::Plural));
        }
        assert forall|c: CaseEx, m: Number|
            #[trigger] info.spec_inflect(stem, stress_at, c, m) == info.spec_inflect(
                stem,
                stress_at,
                c,
                info.tantum.unwrap(),
            ) by {
            assert(info.spec_decl_info(c, m) == info.spec_decl_info(c, info.tantum.unwrap()));
        }
    }
}


/// The text of a plurale tantum's declension information does not depend on its gender.
pub proof fn law_noun_info_fmt_plural_gender(info: NounInfo, gender: GenderEx)
    requires
        info.tantum == Some(Number::Plural),
    ensures
        (NounInfo { gender, ..info }).spec_fmt() == info.spec_fmt(),
{
    reveal(NounInfo::spec_fmt_head);
    reveal(NounInfo::spec_fmt_declension);
    let other = NounInfo { gender, ..info };
    assert(other.spec_need_braces() == info.spec_need_braces());
    assert(other.spec_fmt_head() == info.spec_fmt_head());
    assert(other.spec_fmt_declension() == info.spec_fmt_declension());
}

/// Without the unique alternation (°), the vowel alternation (*) and the е/ё alternation, a
/// noun of a noun declension of stem type 1 to 7 is inflected by appending its ending to the
/// stem: the stem is kept as it is. Where the stem is stressed the stress stays where it was;
/// where the ending is stressed and begins with a vowel, the stress falls on that vowel.
pub proof fn law_noun_inflect_appends_ending(
    info: NounInfo,
    d: NounDeclension,
    stem: Seq<Utf8Letter>,
    stress_at: int,
    case: CaseEx,
    number: Number,
)
    requires
        info.declension == Some(Declension::Noun(d)),
        !d.flags.circle && !d.flags.star && !d.flags.alternating_yo,
        d.stem_type != NounStemType::Type8,
    ensures
        ({
            let di = info.spec_decl_info(case, number);
            let ending = d.spec_find_ending(di);
            &&& info.spec_inflect(stem, stress_at, case, number) matches Some((g, at))
            &&& g.letters == stem + ending
            &&& g.stem_len == stem.len()
            &&& (0 < stress_at <= stem.len() && d.stress.spec_is_stem_stressed(di)) ==> at
                == stress_at
            &&& (stress_at != 0 && !d.stress.spec_is_stem_stressed(di) && ending.len() > 0
                && ending[0].spec_is_vowel()) ==> at == stem.len() + 1
        }),
{
    let di = info.spec_decl_info(case, number);
    let f = Form { letters: stem, stem_len: stem.len() as int };
    let g = f.append_to_ending(d.spec_find_ending(di));
    assert(g.stem() =~= stem);
    assert(g.ending() =~= d.spec_find_ending(di));
    assert(d.spec_type8_fix(g) == g);
    assert(d.spec_inflect(di, f) == Some(g));
    let ending = d.spec_find_ending(di);
    if ending.len() > 0 && ending[0].spec_is_vowel() {
        assert(spec_first_vowel(g.ending()) == Some(0int));
    }
}

/// The vowel alternation (*) of masculine nouns (сон → сна, паёк → пайка, улей → улья, конец
/// → конца): outside the nominative singular (and the inanimate accusative singular), the
/// stem's last vowel is dropped if it is о; е or ё becomes й after a vowel, becomes ь after л,
/// for stem type 6, and for stem type 3 after a non-sibilant consonant, and is dropped
/// otherwise; a stem whose last vowel is another has no such form. The ending is appended as
/// it is, and the nominative singular keeps the stem.
pub proof fn law_noun_fleeting_vowel_masculine(
    d: NounDeclension,
    di: DeclInfo,
    a: Seq<Utf8Letter>,
    v: Utf8Letter,
    b: Seq<Utf8Letter>,
)
    requires
        d.flags.star && !d.flags.circle && !d.flags.alternating_yo,
        d.stem_type != NounStemType::Type8,
        di.gender == Gender::Masculine,
        v.spec_is_vowel(),
        forall|i: int| 0 <= i < b.len() ==> !(#[trigger] b[i]).spec_is_vowel(),
    ensures
        ({
            let stem = a + seq![v] + b;
            let e = d.spec_find_ending(di);
            let r = d.spec_inflect(di, Form { letters: stem, stem_len: stem.len() as int });
            let keeps = di.number == Number::Singular && (di.case == Case::Nominative || (di.case
                == Case::Accusative && di.animacy == Animacy::Inanimate));
            let after_vowel = a.len() > 0 && a.last().spec_is_vowel();
            let soft = d.stem_type == NounStemType::Type6 || (a.len() > 0 && a.last()
                == Utf8Letter::L) || (d.stem_type == NounStemType::Type3 && a.len() > 0
                && a.last().spec_is_non_sibilant_consonant());
            &&& keeps ==> r == Some(Form { letters: stem + e, stem_len: stem.len() as int })
            &&& (!keeps && v == Utf8Letter::O) ==> r == Some(
                Form { letters: a + b + e, stem_len: (a.len() + b.len()) as int },
            )
            &&& (!keeps && (v == Utf8Letter::Ye || v == Utf8Letter::Yo) && after_vowel) ==> r
                == Some(
                Form {
                    letters: a + seq![Utf8Letter::Iy] + b + e,
                    stem_len: stem.len() as int,
                },
            )
            &&& (!keeps && (v == Utf8Letter::Ye || v == Utf8Letter::Yo) && !after_vowel && soft)
                ==> r == Some(
                Form {
                    letters: a + seq![Utf8Letter::SoftSign] + b + e,
                    stem_len: stem.len() as int,
                },
            )
            &&& (!keeps && (v == Utf8Letter::Ye || v == Utf8Letter::Yo) && !after_vowel && !soft)
                ==> r == Some(Form { letters: a + b + e, stem_len: (a.len() + b.len()) as int })
            &&& (!keeps && v != Utf8Letter::O && v != Utf8Letter::Ye && v != Utf8Letter::Yo)
                ==> r is None
        }),
{
    reveal(NounDeclension::spec_vowel_alternation);
    let stem = a + seq![v] + b;
    let e = d.spec_find_ending(di);
    let f = Form { letters: stem, stem_len: stem.len() as int };
    let f1 = f.append_to_ending(e);
    assert(f1.stem() =~= stem);
    assert(d.spec_type8_fix(f1) == f1);
    lemma_last_vowel_split(a, v, b);
    let k = a.len() as int;
    assert(stem[k] == v);
    if k >= 1 {
        assert(stem[k - 1] == a.last());
    }
    assert(f1.letters.remove(k) =~= a + b + e);
    assert(f1.letters.update(k, Utf8Letter::Iy) =~= a + seq![Utf8Letter::Iy] + b + e);
    assert(f1.letters.update(k, Utf8Letter::SoftSign) =~= a + seq![Utf8Letter::SoftSign] + b
        + e);
}

/// The е/ё alternation (`, ё`) of a noun whose stem has ё (ёж → ежа, шёлк → шелка): the stem's
/// first ё becomes е where the ending is stressed and has a vowel, and stays otherwise. The
/// ending is appended as it is.
#[verifier::rlimit(100)]
pub proof fn law_noun_yo_alternation(
    d: NounDeclension,
    di: DeclInfo,
    a: Seq<Utf8Letter>,
    b: Seq<Utf8Letter>,
)
    requires
        d.flags.alternating_yo && !d.flags.circle && !d.flags.star,
        d.stem_type != NounStemType::Type8,
        forall|j: int| 0 <= j < a.len() ==> a[j] != Utf8Letter::Yo,
    ensures
        ({
            let stem = a + seq![Utf8Letter::Yo] + b;
            let e = d.spec_find_ending(di);
            let vowel_ending = exists|i: int| 0 <= i < e.len() && (#[trigger] e[i]).spec_is_vowel();
            d.spec_inflect(di, Form { letters: stem, stem_len: stem.len() as int }) == Some(
                Form {
                    letters: (if !d.stress.spec_is_stem_stressed(di) && vowel_ending {
                        a + seq![Utf8Letter::Ye] + b
                    } else {
                        stem
                    }) + e,
                    stem_len: stem.len() as int,
                },
            )
        }),
{
    reveal(NounDeclension::spec_ye_yo_alternation);
    let stem = a + seq![Utf8Letter::Yo] + b;
    let e = d.spec_find_ending(di);
    let f1 = Form { letters: stem, stem_len: stem.len() as int }.append_to_ending(e);
    assert(f1.stem() =~= stem);
    assert(f1.ending() =~= e);
    assert(d.spec_type8_fix(f1) == f1);
    let k = a.len() as int;
    assert(stem[k] == Utf8Letter::Yo);
    lemma_first_letter_at(stem, k, Utf8Letter::Yo);
    lemma_first_vowel_exists(e);
    assert(f1.letters.update(k, Utf8Letter::Ye) =~= a + seq![Utf8Letter::Ye] + b + e);
}

/// The е/ё alternation (`, ё`) of a noun whose stem has no ё (жена → жёны, село → сёла): the
/// stem's last е becomes ё where the ending has no vowel, or where the stem is stressed (with
/// stress f, f′ or f″, only if that е is the stem's first vowel); it stays otherwise.
#[verifier::rlimit(100)]
pub proof fn law_noun_ye_alternation(
    d: NounDeclension,
    di: DeclInfo,
    a: Seq<Utf8Letter>,
    b: Seq<Utf8Letter>,
)
    requires
        d.flags.alternating_yo && !d.flags.circle && !d.flags.star,
        d.stem_type != NounStemType::Type8,
        forall|j: int| 0 <= j < a.len() ==> a[j] != Utf8Letter::Yo,
        forall|j: int| 0 <= j < b.len() ==> b[j] != Utf8Letter::Yo && b[j] != Utf8Letter::Ye,
    ensures
        ({
            let stem = a + seq![Utf8Letter::Ye] + b;
            let e = d.spec_find_ending(di);
            let vowel_ending = exists|i: int| 0 <= i < e.len() && (#[trigger] e[i]).spec_is_vowel();
            let first_vowel = forall|j: int| 0 <= j < a.len() ==> !(#[trigger] a[j]).spec_is_vowel();
            let f_stress = d.stress == NounStress::F || d.stress == NounStress::Fp || d.stress
                == NounStress::Fpp;
            let into_yo = !vowel_ending || (d.stress.spec_is_stem_stressed(di) && (!f_stress
                || first_vowel));
            d.spec_inflect(di, Form { letters: stem, stem_len: stem.len() as int }) == Some(
                Form {
                    letters: (if into_yo {
                        a + seq![Utf8Letter::Yo] + b
                    } else {
                        stem
                    }) + e,
                    stem_len: stem.len() as int,
                },
            )
        }),
{
    reveal(NounDeclension::spec_ye_yo_alternation);
    let stem = a + seq![Utf8Letter::Ye] + b;
    let e = d.spec_find_ending(di);
    let f1 = Form { letters: stem, stem_len: stem.len() as int }.append_to_ending(e);
    assert(f1.stem() =~= stem);
    assert(f1.ending() =~= e);
    assert(d.spec_type8_fix(f1) == f1);
    let k = a.len() as int;
    assert(stem[k] == Utf8Letter::Ye);
    assert forall|j: int| 0 <= j < stem.len() implies stem[j] != Utf8Letter::Yo by {
        if j < k {
            assert(stem[j] == a[j]);
        } else if j > k {
            assert(stem[j] == b[j - k - 1]);
        }
    }
    lemma_no_letter(stem, Utf8Letter::Yo);
    assert forall|j: int| k < j < stem.len() implies stem[j] != Utf8Letter::Ye by {
        assert(stem[j] == b[j - k - 1]);
    }
    lemma_last_letter_at(stem, k, Utf8Letter::Ye);
    lemma_first_vowel_exists(e);
    lemma_first_vowel_exists(stem);
    let first_vowel = forall|j: int| 0 <= j < a.len() ==> !(#[trigger] a[j]).spec_is_vowel();
    if first_vowel {
        assert forall|j: int| 0 <= j < k implies !(#[trigger] stem[j]).spec_is_vowel() by {
            assert(stem[j] == a[j]);
        }
        assert(spec_first_vowel(stem) == Some(k));
    } else {
        let j0 = choose|j: int| 0 <= j < a.len() && (#[trigger] a[j]).spec_is_vowel();
        assert(stem[j0] == a[j0]);
        assert(spec_first_vowel(stem) != Some(k));
    }
    assert(f1.letters.update(k, Utf8Letter::Yo) =~= a + seq![Utf8Letter::Yo] + b + e);
}

} // verus!
