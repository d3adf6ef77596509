//! Vowel alternations (*) of nouns, prepared once from the stem and then applied to each form.

use crate::categories::{Case, DeclInfo, Gender, Number};
use crate::declension::{NounDeclension, NounStemType};
use crate::inflection::{last_vowel, spec_last_vowel, Form, InflectionBuf, StressPos};
use crate::letter::Utf8Letter;
use crate::stress::NounStress;
use vstd::prelude::*;

verus! {

/// What replaces the alternating vowel of type A: й or ь (removed where there is none).
#[derive(Debug, Clone, Copy, PartialEq, Eq, Structural, Hash)]
pub enum AReplace {
    /// The vowel becomes й.
    Iy,
    /// The vowel becomes ь.
    SoftSign,
}

/// The operation of a vowel alternation of type B, in the genitive plural.
#[derive(Debug, Clone, Copy, PartialEq, Eq, Structural, Hash)]
pub enum BOperation {
    /// The stem's last letter ь becomes и (unstressed ending) or е (stressed ending).
    ReplaceLastWithI,
    /// The stem's second-to-last letter (ь or й) becomes е.
    ReplacePreLastWithYe,
    /// The stem's second-to-last letter (ь or й) becomes е (unstressed ending) or ё (stressed).
    ReplacePreLastWithYeOrYo,
    /// е is inserted before the stem's last letter.
    InsertYe,
    /// о is inserted before the stem's last letter.
    InsertO,
    /// е (unstressed ending) or ё (stressed) is inserted before the stem's last letter.
    InsertYeOrYo,
    /// е (unstressed ending) or о (stressed) is inserted before the stem's last letter.
    InsertYeOrO,
}

/// A noun's vowel alternation: of type A (masculine nouns, and feminine nouns of stem type 8),
/// the position of the alternating vowel and what replaces it; or of type B (neuter and
/// feminine nouns), the operation on the genitive plural.
#[derive(Debug, Clone, Copy, PartialEq, Eq, Structural, Hash)]
pub enum VowelAlternation {
    /// Type A: the alternating vowel's position, and what replaces it (removed if none).
    A(u8, Option<AReplace>),
    /// Type B: the operation on the genitive plural.
    B(BOperation),
}

/// The vowel alternation of a noun with this stem, declension and gender: `Some(None)` where
/// none applies, `None` where no rule is defined (no vowel in the stem, or a last vowel
/// other than о, е and ё, for type A).
pub open spec fn spec_prepare_noun(stem: Seq<Utf8Letter>, decl: NounDeclension, gender: Gender) -> Option<Option<VowelAlternation>> {
    if gender == Gender::Masculine || gender == Gender::Feminine && decl.stem_type
        == NounStemType::Type8 {
        match spec_last_vowel(stem) {
            None => None,
            Some(vi) => {
                let v = stem[vi];
                let pos = vi as u8;
                if v == Utf8Letter::O {
                    Some(Some(VowelAlternation::A(pos, None)))
                } else if v == Utf8Letter::Ye || v == Utf8Letter::Yo {
                    let prec = if vi >= 1 {
                        Some(stem[vi - 1])
                    } else {
                        None
                    };
                    if prec matches Some(p) && p.spec_is_vowel() {
                        Some(Some(VowelAlternation::A(pos, Some(AReplace::Iy))))
                    } else if decl.stem_type == NounStemType::Type6 || decl.stem_type
                        == NounStemType::Type3 && (prec matches Some(p)
                        && p.spec_is_non_sibilant_consonant()) || prec == Some(Utf8Letter::L) {
                        Some(Some(VowelAlternation::A(pos, Some(AReplace::SoftSign))))
                    } else {
                        Some(Some(VowelAlternation::A(pos, None)))
                    }
                } else {
                    None
                }
            },
        }
    } else if decl.stem_type == NounStemType::Type2 && (decl.stress == NounStress::B
        || decl.stress == NounStress::F) {
        Some(None)
    } else if decl.flags.circled_two {
        Some(None)
    } else if decl.stem_type == NounStemType::Type6 {
        if stem.len() > 0 && stem.last() == Utf8Letter::SoftSign {
            Some(Some(VowelAlternation::B(BOperation::ReplaceLastWithI)))
        } else {
            Some(None)
        }
    } else {
        let n = stem.len();
        let last = if n >= 1 {
            Some(stem[n - 1])
        } else {
            None
        };
        let pre = if n >= 2 {
            Some(stem[n - 2])
        } else {
            None
        };
        let velar = |l: Option<Utf8Letter>|
            l == Some(Utf8Letter::K) || l == Some(Utf8Letter::G) || l == Some(Utf8Letter::Kh);
        let op = if pre == Some(Utf8Letter::SoftSign) || pre == Some(Utf8Letter::Iy) {
            if last == Some(Utf8Letter::Ts) {
                BOperation::ReplacePreLastWithYe
            } else {
                BOperation::ReplacePreLastWithYeOrYo
            }
        } else if velar(pre) {
            BOperation::InsertO
        } else if velar(last) && (pre matches Some(p) && !p.spec_is_sibilant()) {
            BOperation::InsertO
        } else if last == Some(Utf8Letter::Ts) {
            BOperation::InsertYe
        } else if pre matches Some(p) && p.spec_is_hissing() {
            BOperation::InsertYeOrO
        } else {
            BOperation::InsertYeOrYo
        };
        Some(Some(VowelAlternation::B(op)))
    }
}

impl VowelAlternation {
    /// Prepares the vowel alternation of a noun with this stem, declension and gender: `None`
    /// where no alternation applies.
    pub fn prepare_noun(stem: &[Utf8Letter], decl: NounDeclension, gender: Gender) -> (r: Option<VowelAlternation>)
        requires
            spec_prepare_noun(stem@, decl, gender) is Some,
        ensures
            r == spec_prepare_noun(stem@, decl, gender).unwrap(),
    {
        if gender == Gender::Masculine || gender == Gender::Feminine && decl.stem_type
            == NounStemType::Type8 {
            let vi = match last_vowel(stem) {
                Some(vi) => vi,
                None => return None,
            };
            let v = stem[vi];
            #[verifier::truncate]
            let pos = vi as u8;
            if v == Utf8Letter::O {
                return Some(VowelAlternation::A(pos, None));
            }
            let prec = if vi >= 1 {
                Some(stem[vi - 1])
            } else {
                None
            };
            let prec_vowel = match prec {
                Some(p) => p.is_vowel(),
                None => false,
            };
            let prec_non_sibilant = match prec {
                Some(p) => p.is_non_sibilant_consonant(),
                None => false,
            };
            if prec_vowel {
                return Some(VowelAlternation::A(pos, Some(AReplace::Iy)));
            }
            if decl.stem_type == NounStemType::Type6 || decl.stem_type == NounStemType::Type3
                && prec_non_sibilant || prec == Some(Utf8Letter::L) {
                return Some(VowelAlternation::A(pos, Some(AReplace::SoftSign)));
            }
            return Some(VowelAlternation::A(pos, None));
        }
        if decl.stem_type == NounStemType::Type2 && (decl.stress == NounStress::B || decl.stress
            == NounStress::F) {
            return None;
        }
        if decl.flags.has_circled_two() {
            return None;
        }
        let n = stem.len();
        if decl.stem_type == NounStemType::Type6 {
            if n > 0 && stem[n - 1] == Utf8Letter::SoftSign {
                return Some(VowelAlternation::B(BOperation::ReplaceLastWithI));
            }
            return None;
        }
        let last = if n >= 1 {
            Some(stem[n - 1])
        } else {
            None
        };
        let pre = if n >= 2 {
            Some(stem[n - 2])
        } else {
            None
        };
        let pre_velar = pre == Some(Utf8Letter::K) || pre == Some(Utf8Letter::G) || pre == Some(
            Utf8Letter::Kh,
        );
        let last_velar = last == Some(Utf8Letter::K) || last == Some(Utf8Letter::G) || last
            == Some(Utf8Letter::Kh);
        let pre_non_sibilant = match pre {
            Some(p) => !p.is_sibilant(),
            None => false,
        };
        let pre_hissing = match pre {
            Some(p) => p.is_hissing(),
            None => false,
        };
        let op = if pre == Some(Utf8Letter::SoftSign) || pre == Some(Utf8Letter::Iy) {
            if last == Some(Utf8Letter::Ts) {
                BOperation::ReplacePreLastWithYe
            } else {
                BOperation::ReplacePreLastWithYeOrYo
            }
        } else if pre_velar {
            BOperation::InsertO
        } else if last_velar && pre_non_sibilant {
            BOperation::InsertO
        } else if last == Some(Utf8Letter::Ts) {
            BOperation::InsertYe
        } else if pre_hissing {
            BOperation::InsertYeOrO
        } else {
            BOperation::InsertYeOrYo
        };
        Some(VowelAlternation::B(op))
    }

    /// This alternation's positions are in range for a form: type A's vowel position within
    /// the letters (within the stem, where the vowel is removed); type B's operations on a
    /// stem long enough for them.
    pub open spec fn spec_applicable(self, f: Form) -> bool {
        match self {
            VowelAlternation::A(pos, replace) => match replace {
                Some(_) => pos < f.letters.len(),
                None => pos < f.stem_len,
            },
            VowelAlternation::B(op) => match op {
                BOperation::ReplacePreLastWithYe | BOperation::ReplacePreLastWithYeOrYo => f.stem_len
                    >= 2,
                _ => f.stem_len >= 1,
            },
        }
    }

    /// The alternation changes the form with these declension parameters: type A outside the
    /// nominative singular (and the instrumental singular of feminines), type B in the
    /// genitive plural (and the animate accusative plural).
    pub open spec fn spec_acts(self, info: DeclInfo) -> bool {
        match self {
            VowelAlternation::A(_, _) => !(info.number == Number::Singular && (
            info.case.spec_is_nom_or_acc_inan(info.animacy) || info.gender == Gender::Feminine
                && info.case == Case::Instrumental)),
            VowelAlternation::B(_) => info.number == Number::Plural
                && info.case.spec_is_gen_or_acc_an(info.animacy),
        }
    }

    /// The form with this alternation applied, where the form's stress falls at `stress`.
    /// Where the alternation acts (see [`spec_acts`](VowelAlternation::spec_acts)), type A
    /// replaces the vowel with й or ь, or removes it; type B first drops the ending of a
    /// stem-stressed stem type 2, then does its operation, choosing by whether the ending is
    /// stressed. Elsewhere the form is unchanged.
    pub open spec fn spec_apply(self, decl: NounDeclension, info: DeclInfo, f: Form, stress: StressPos) -> Form {
        let ending_stressed = stress == StressPos::Ending;
        if !self.spec_acts(info) {
            f
        } else {
            match self {
                VowelAlternation::A(pos, replace) => match replace {
                    Some(AReplace::Iy) => f.set_letter(pos as int, Utf8Letter::Iy),
                    Some(AReplace::SoftSign) => f.set_letter(pos as int, Utf8Letter::SoftSign),
                    None => f.remove_stem_letter(pos as int),
                },
                VowelAlternation::B(op) => {
                    let g = if stress == StressPos::Stem && decl.stem_type == NounStemType::Type2 {
                        f.replace_ending(Seq::empty())
                    } else {
                        f
                    };
                    let n = g.stem_len;
                    match op {
                        BOperation::ReplaceLastWithI => g.set_letter(
                            n - 1,
                            if ending_stressed {
                                Utf8Letter::Ye
                            } else {
                                Utf8Letter::I
                            },
                        ),
                        BOperation::ReplacePreLastWithYe => g.set_letter(n - 2, Utf8Letter::Ye),
                        BOperation::ReplacePreLastWithYeOrYo => g.set_letter(
                            n - 2,
                            if ending_stressed {
                                Utf8Letter::Yo
                            } else {
                                Utf8Letter::Ye
                            },
                        ),
                        BOperation::InsertO => g.insert_before_last_stem_letter(seq![Utf8Letter::O]),
                        BOperation::InsertYe => g.insert_before_last_stem_letter(seq![Utf8Letter::Ye]),
                        BOperation::InsertYeOrO => g.insert_before_last_stem_letter(
                            seq![
                                if ending_stressed {
                                    Utf8Letter::O
                                } else {
                                    Utf8Letter::Ye
                                },
                            ],
                        ),
                        BOperation::InsertYeOrYo => g.insert_before_last_stem_letter(
                            seq![
                                if ending_stressed {
                                    Utf8Letter::Yo
                                } else {
                                    Utf8Letter::Ye
                                },
                            ],
                        ),
                    }
                },
            }
        }
    }

    /// Applies this alternation to the form in the buffer, for the declension and parameters.
    pub fn apply(&self, decl: NounDeclension, info: DeclInfo, buf: &mut InflectionBuf)
        requires
            old(buf).form().wf(),
            old(buf).form().letters.len() + 4 <= usize::MAX,
            self.spec_acts(info) ==> self.spec_applicable(old(buf).form()),
        ensures
            final(buf).form() == self.spec_apply(decl, info, old(buf).form(), old(buf).stress()),
            final(buf).stress() == old(buf).stress(),
    {
        let ending_stressed = buf.is_ending_stressed();
        match *self {
            VowelAlternation::A(pos, replace) => {
                if info.is_singular() && (info.case.is_nom_or_acc_inan(info.animacy) || info.gender
                    == Gender::Feminine && info.case == Case::Instrumental) {
                    return ;
                }
                match replace {
                    Some(AReplace::Iy) => buf.set_letter(pos as usize, Utf8Letter::Iy),
                    Some(AReplace::SoftSign) => buf.set_letter(pos as usize, Utf8Letter::SoftSign),
                    None => buf.remove_stem_char_at(pos as usize),
                }
            },
            VowelAlternation::B(op) => {
                if !(info.is_plural() && info.case.is_gen_or_acc_an(info.animacy)) {
                    return ;
                }
                if buf.is_stem_stressed() && decl.stem_type == NounStemType::Type2 {
                    let empty: [Utf8Letter; 0] = [];
                    assert(empty@ == Seq::<Utf8Letter>::empty());
                    buf.replace_ending(&empty);
                }
                let n = buf.stem_len();
                let insert = match op {
                    BOperation::ReplaceLastWithI => {
                        buf.set_letter(
                            n - 1,
                            if ending_stressed {
                                Utf8Letter::Ye
                            } else {
                                Utf8Letter::I
                            },
                        );
                        return ;
                    },
                    BOperation::ReplacePreLastWithYe => {
                        buf.set_letter(n - 2, Utf8Letter::Ye);
                        return ;
                    },
                    BOperation::ReplacePreLastWithYeOrYo => {
                        buf.set_letter(
                            n - 2,
                            if ending_stressed {
                                Utf8Letter::Yo
                            } else {
                                Utf8Letter::Ye
                            },
                        );
                        return ;
                    },
                    BOperation::InsertO => Utf8Letter::O,
                    BOperation::InsertYe => Utf8Letter::Ye,
                    BOperation::InsertYeOrO => if ending_stressed {
                        Utf8Letter::O
                    } else {
                        Utf8Letter::Ye
                    },
                    BOperation::InsertYeOrYo => if ending_stressed {
                        Utf8Letter::Yo
                    } else {
                        Utf8Letter::Ye
                    },
                };
                let lit = [insert];
                assert(lit@ == seq![insert]);
                buf.insert_between_last_two_stem_chars(&lit);
            },
        }
    }
}

} // verus!
