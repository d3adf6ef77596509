//! Pronouns: their stems and declension information, and their inflection.

use crate::categories::{Animacy, Case, DeclInfo, Gender, Number};
use crate::declension::{Declension, PronounDeclension};
use crate::inflection::{
    finish_word, last_vowel, lemma_last_vowel_split, spec_first_vowel, spec_last_vowel,
    spec_place_stress, Form, InflectionBuf, StressPos,
};
use crate::letter::Utf8Letter;
use crate::stress::AdjectiveFullStress;
use crate::word::{Word, WordBuf};
use vstd::prelude::*;

verus! {

/// A pronoun: its stem, and its declension information.
#[derive(Debug, Clone, PartialEq, Eq, Hash)]
pub struct Pronoun {
    stem: WordBuf,
    info: PronounInfo,
}

/// A pronoun's declension information: its declension, if it declines.
#[derive(Debug, Clone, Copy, PartialEq, Eq, Structural, Hash)]
pub struct PronounInfo {
    /// The declension, or `None` for an indeclinable pronoun.
    pub declension: Option<Declension>,
}

/// Error type for constructing pronouns.
#[derive(Debug, Clone, Copy, PartialEq, Eq, Structural, Hash)]
pub enum NewPronounError {
    /// The stem is not valid.
    InvalidStem,
    /// The stem does not match the stem type.
    NotMatchingStemType,
}

impl Pronoun {
    /// The pronoun's stem.
    pub closed spec fn spec_stem(self) -> WordBuf {
        self.stem
    }

    /// The pronoun's declension information.
    pub closed spec fn spec_info(self) -> PronounInfo {
        self.info
    }

    /// Constructs a pronoun from its stem and declension information.
    pub fn from_stem(stem: WordBuf, info: PronounInfo) -> (r: Pronoun)
        ensures
            r.spec_stem() == stem,
            r.spec_info() == info,
    {
        Pronoun { stem, info }
    }

    /// The pronoun inflected with the declension parameters, where it can be.
    pub open spec fn spec_inflect(self, info: DeclInfo) -> Option<(Form, int)> {
        self.spec_info().spec_inflect(
            self.spec_stem().letters(),
            self.spec_stem().stress_at(),
            info,
        )
    }

    /// Returns the pronoun inflected with the declension parameters.
    pub fn inflect(&self, info: DeclInfo) -> (r: WordBuf)
        requires
            self.spec_stem().letters().len() + 24 <= usize::MAX,
            self.spec_inflect(info) is Some,
        ensures
            r.letters() == self.spec_inflect(info).unwrap().0.letters,
            r.stem_len() == self.spec_inflect(info).unwrap().0.stem_len,
            r.stress_at() == self.spec_inflect(info).unwrap().1,
    {
        self.info.inflect(self.stem.borrow(), info)
    }
}

impl PronounDeclension {
    /// The vowel alternation (*) of pronouns: outside the masculine nominative singular, the
    /// stem's last vowel о is dropped, и becomes ь, and е or ё becomes й after a vowel, ь after
    /// л, and is dropped otherwise. `None` where no rule is defined.
    #[verifier::opaque]
    pub open spec fn spec_vowel_alternation(self, info: DeclInfo, f: Form) -> Option<Form> {
        if info.number == Number::Singular && info.gender == Gender::Masculine
            && info.case.spec_is_nom_or_acc_inan(info.animacy) {
            Some(f)
        } else {
            let s = f.stem();
            match spec_last_vowel(s) {
                None => None,
                Some(vi) => {
                    let v = s[vi];
                    if v == Utf8Letter::O {
                        Some(f.remove_stem_letter(vi))
                    } else if v == Utf8Letter::I {
                        Some(f.set_letter(vi, Utf8Letter::SoftSign))
                    } else if v == Utf8Letter::Ye || v == Utf8Letter::Yo {
                        let prec = if vi >= 1 {
                            Some(s[vi - 1])
                        } else {
                            None
                        };
                        if prec matches Some(p) && p.spec_is_vowel() {
                            Some(f.set_letter(vi, Utf8Letter::Iy))
                        } else if prec == Some(Utf8Letter::L) {
                            Some(f.set_letter(vi, Utf8Letter::SoftSign))
                        } else {
                            Some(f.remove_stem_letter(vi))
                        }
                    } else {
                        None
                    }
                },
            }
        }
    }

    fn apply_vowel_alternation(self, info: DeclInfo, buf: &mut InflectionBuf)
        requires
            old(buf).form().wf(),
            self.spec_vowel_alternation(info, old(buf).form()) is Some,
        ensures
            final(buf).form() == self.spec_vowel_alternation(info, old(buf).form()).unwrap(),
            final(buf).form().wf(),
            final(buf).stress() == old(buf).stress(),
    {
        reveal(PronounDeclension::spec_vowel_alternation);
        if info.is_singular() && info.gender == Gender::Masculine
            && info.case.is_nom_or_acc_inan(info.animacy) {
            return ;
        }
        let vi = match last_vowel(buf.stem()) {
            Some(vi) => vi,
            None => return ,
        };
        let v = buf.letter(vi);
        if v == Utf8Letter::O {
            buf.remove_stem_char_at(vi);
        } else if v == Utf8Letter::I {
            buf.set_letter(vi, Utf8Letter::SoftSign);
        } else if v == Utf8Letter::Ye || v == Utf8Letter::Yo {
            let prec = if vi >= 1 {
                Some(buf.letter(vi - 1))
            } else {
                None
            };
            let prec_vowel = match prec {
                Some(p) => p.is_vowel(),
                None => false,
            };
            if prec_vowel {
                buf.set_letter(vi, Utf8Letter::Iy);
            } else if prec == Some(Utf8Letter::L) {
                buf.set_letter(vi, Utf8Letter::SoftSign);
            } else {
                buf.remove_stem_char_at(vi);
            }
        }
    }

    /// A form inflected by this declension: the ending appended, then the vowel alternation
    /// (*) applied.
    pub open spec fn spec_inflect(self, info: DeclInfo, f: Form) -> Option<Form> {
        let f1 = f.append_to_ending(self.spec_find_ending(info));
        if self.flags.star {
            self.spec_vowel_alternation(info, f1)
        } else {
            Some(f1)
        }
    }

    /// Inflects the form in the buffer by this declension with the declension parameters, and
    /// sets the buffer's stress to where this declension puts it.
    pub fn inflect(self, info: DeclInfo, buf: &mut InflectionBuf)
        requires
            old(buf).form().wf(),
            old(buf).form().letters.len() + 24 <= usize::MAX,
            self.spec_inflect(info, old(buf).form()) is Some,
        ensures
            final(buf).form() == self.spec_inflect(info, old(buf).form()).unwrap(),
            final(buf).form().wf(),
            final(buf).stress() == (if self.stress.spec_is_stem_stressed(info) {
                StressPos::Stem
            } else {
                StressPos::Ending
            }),
    {
        buf.set_stress(
            if self.stress.is_stem_stressed(info) {
                StressPos::Stem
            } else {
                StressPos::Ending
            },
        );
        let ending = self.find_ending(info);
        buf.append_to_ending(ending.as_slice());
        if self.flags.has_star() {
            self.apply_vowel_alternation(info, buf);
        }
    }
}

impl PronounInfo {
    /// The pronoun with these letters and stress position inflected with the declension
    /// parameters, and its stress position: by its pronoun or adjective declension, or
    /// unchanged without a declension. `None` for a noun declension, which pronouns do not
    /// have, or where the declension has no rule.
    pub open spec fn spec_inflect(self, stem: Seq<Utf8Letter>, stress_at: int, info: DeclInfo) -> Option<(Form, int)> {
        let f = Form { letters: stem, stem_len: stem.len() as int };
        match self.declension {
            None => Some((f, spec_place_stress(stress_at, f, false))),
            Some(Declension::Pronoun(d)) => match d.spec_inflect(info, f) {
                Some(g) => Some(
                    (g, spec_place_stress(stress_at, g, !d.stress.spec_is_stem_stressed(info))),
                ),
                None => None,
            },
            Some(Declension::Adjective(d)) => match d.spec_inflect(info, f) {
                Some(g) => Some(
                    (g, spec_place_stress(stress_at, g, d.stress.full == AdjectiveFullStress::B)),
                ),
                None => None,
            },
            Some(Declension::Noun(_)) => None,
        }
    }

    /// Returns the pronoun with this stem inflected with the declension parameters.
    pub fn inflect(&self, stem: Word, info: DeclInfo) -> (r: WordBuf)
        requires
            stem.letters().len() + 24 <= usize::MAX,
            self.spec_inflect(stem.letters(), stem.stress_at(), info) is Some,
        ensures
            r.letters() == self.spec_inflect(stem.letters(), stem.stress_at(), info).unwrap().0.letters,
            r.stem_len() == self.spec_inflect(stem.letters(), stem.stress_at(), info).unwrap().0.stem_len,
            r.stress_at() == self.spec_inflect(stem.letters(), stem.stress_at(), info).unwrap().1,
    {
        let mut buf = InflectionBuf::new(stem.as_letters());
        let stress_at = stem.get_stress_at();
        let ending_stressed = match self.declension {
            None => false,
            Some(Declension::Pronoun(d)) => {
                d.inflect(info, &mut buf);
                d.stress.is_ending_stressed(info)
            },
            Some(Declension::Adjective(d)) => {
                d.inflect(info, &mut buf);
                d.stress.full.is_ending_stressed()
            },
            Some(Declension::Noun(_)) => false,
        };
        finish_word(buf, stress_at, ending_stressed)
    }
}

/// Without the vowel alternation (*), a pronoun of a pronoun declension is its stem followed
/// by its ending: the stem is kept as it is (мой: мо + й, моего: мо + его). Where the stem is
/// stressed the stress stays where it was; where the ending is stressed and begins with a
/// vowel, the stress falls on that vowel.
pub proof fn law_pronoun_inflect_appends_ending(
    info: PronounInfo,
    d: PronounDeclension,
    stem: Seq<Utf8Letter>,
    stress_at: int,
    di: DeclInfo,
)
    requires
        info.declension == Some(Declension::Pronoun(d)),
        !d.flags.star,
    ensures
        ({
            let ending = d.spec_find_ending(di);
            &&& info.spec_inflect(stem, stress_at, di) matches Some((g, at))
            &&& g.letters == stem + ending
            &&& g.stem_len == stem.len()
            &&& (0 < stress_at <= stem.len() && d.stress.spec_is_stem_stressed(di)) ==> at
                == stress_at
            &&& (stress_at != 0 && !d.stress.spec_is_stem_stressed(di) && ending.len() > 0
                && ending[0].spec_is_vowel()) ==> at == stem.len() + 1
        }),
{
    let f = Form { letters: stem, stem_len: stem.len() as int };
    let g = f.append_to_ending(d.spec_find_ending(di));
    assert(g.ending() =~= d.spec_find_ending(di));
    let ending = d.spec_find_ending(di);
    if ending.len() > 0 && ending[0].spec_is_vowel() {
        assert(spec_first_vowel(g.ending()) == Some(0int));
    }
}

/// The vowel alternation (*) of pronouns (весь → всего): outside the masculine nominative
/// singular (and the masculine inanimate accusative singular), the stem's
/// last vowel is dropped if it is о; и becomes ь; е or ё becomes й after a vowel, ь after л,
/// and is dropped otherwise; a stem whose last vowel is another has no such form. The ending is
/// appended as it is, and the masculine nominative singular keeps the stem.
pub proof fn law_pronoun_fleeting_vowel(
    d: PronounDeclension,
    di: DeclInfo,
    a: Seq<Utf8Letter>,
    v: Utf8Letter,
    b: Seq<Utf8Letter>,
)
    requires
        d.flags.star,
        v.spec_is_vowel(),
        forall|i: int| 0 <= i < b.len() ==> !(#[trigger] b[i]).spec_is_vowel(),
    ensures
        ({
            let stem = a + seq![v] + b;
            let e = d.spec_find_ending(di);
            let r = d.spec_inflect(di, Form { letters: stem, stem_len: stem.len() as int });
            let keeps = di.number == Number::Singular && di.gender == Gender::Masculine && (
            di.case == Case::Nominative || (di.case == Case::Accusative && di.animacy
                == Animacy::Inanimate));
            let after_vowel = a.len() > 0 && a.last().spec_is_vowel();
            let after_l = a.len() > 0 && a.last() == Utf8Letter::L;
            let ye = v == Utf8Letter::Ye || v == Utf8Letter::Yo;
            &&& keeps ==> r == Some(Form { letters: stem + e, stem_len: stem.len() as int })
            &&& (!keeps && v == Utf8Letter::O) ==> r == Some(
                Form { letters: a + b + e, stem_len: (a.len() + b.len()) as int },
            )
            &&& (!keeps && v == Utf8Letter::I) ==> r == Some(
                Form {
                    letters: a + seq![Utf8Letter::SoftSign] + b + e,
                    stem_len: stem.len() as int,
                },
            )
            &&& (!keeps && ye && after_vowel) ==> r == Some(
                Form {
                    letters: a + seq![Utf8Letter::Iy] + b + e,
                    stem_len: stem.len() as int,
                },
            )
            &&& (!keeps && ye && !after_vowel && after_l) ==> r == Some(
                Form {
                    letters: a + seq![Utf8Letter::SoftSign] + b + e,
                    stem_len: stem.len() as int,
                },
            )
            &&& (!keeps && ye && !after_vowel && !after_l) ==> r == Some(
                Form { letters: a + b + e, stem_len: (a.len() + b.len()) as int },
            )
            &&& (!keeps && v != Utf8Letter::O && v != Utf8Letter::I && !ye) ==> r is None
        }),
{
    reveal(PronounDeclension::spec_vowel_alternation);
    let stem = a + seq![v] + b;
    let e = d.spec_find_ending(di);
    let f = Form { letters: stem, stem_len: stem.len() as int };
    let f1 = f.append_to_ending(e);
    assert(f1.stem() =~= stem);
    lemma_last_vowel_split(a, v, b);
    let k = a.len() as int;
    assert(stem[k] == v);
    if k >= 1 {
        assert(stem[k - 1] == a.last());
    }
    assert(f1.letters.remove(k) =~= a + b + e);
    assert(f1.letters.update(k, Utf8Letter::Iy) =~= a + seq![Utf8Letter::Iy] + b + e);
    assert(f1.letters.update(k, Utf8Letter::SoftSign) =~= a + seq![Utf8Letter::SoftSign] + b
        + e);
}

} // verus!
