//! The endings of nouns, pronouns and adjectives, and how a declension chooses one.

use crate::categories::{Animacy, Case, DeclInfo, Gender, Number};
use crate::declension::{
    AdjectiveDeclension, AdjectiveStemType, DeclensionFlags, NounDeclension, NounStemType,
    PronounDeclension, PronounStemType,
};
use crate::letter::Utf8Letter;
use crate::stress::AdjectiveFullStress;
use vstd::prelude::*;

verus! {

/// The endings of one form: either the unstressed and the stressed ending, or, for the
/// accusative case, a reference to the nominative or genitive case, by animacy.
#[derive(Debug, Clone, Copy, PartialEq, Eq, Structural, Hash)]
pub enum Endings {
    /// The accusative case's endings are those of the nominative or the genitive case.
    Acc,
    /// The unstressed and the stressed ending.
    Forms(Ending, Ending),
}

impl Endings {
    /// Returns `true` if the endings are those of the nominative or genitive case, by animacy.
    pub fn is_acc(&self) -> (r: bool)
        ensures
            r == (*self is Acc),
    {
        matches!(self, Endings::Acc)
    }

    /// `true` if the stress does not affect the ending.
    pub open spec fn spec_invariant(self) -> bool {
        match self {
            Endings::Acc => true,
            Endings::Forms(a, b) => a == b,
        }
    }

    /// Returns `true` if the stress does not affect the ending.
    pub fn is_invariant(&self) -> (r: bool)
        ensures
            r == self.spec_invariant(),
    {
        match self {
            Endings::Acc => true,
            Endings::Forms(a, b) => *a == *b,
        }
    }

    /// The unstressed or the stressed ending's letters.
    pub open spec fn spec_get(self, is_stressed: bool) -> Seq<Utf8Letter> {
        match self {
            Endings::Acc => Seq::<Utf8Letter>::empty(),
            Endings::Forms(a, b) => if is_stressed {
                b.spec_letters()
            } else {
                a.spec_letters()
            },
        }
    }

    /// Returns the letters of the unstressed or the stressed ending.
    pub fn get(self, is_stressed: bool) -> (r: Vec<Utf8Letter>)
        requires
            !(self is Acc),
        ensures
            r@ == self.spec_get(is_stressed),
    {
        match self {
            Endings::Acc => Vec::new(),
            Endings::Forms(a, b) => if is_stressed {
                b.letters()
            } else {
                a.letters()
            },
        }
    }
}

/// The slot of a pronoun's or adjective's ending table: the gender in the singular, 3 in the
/// plural.
pub open spec fn spec_slot(info: DeclInfo) -> u8 {
    if info.number == Number::Singular {
        info.gender.spec_index() as u8
    } else {
        3
    }
}

fn slot(info: DeclInfo) -> (r: u8)
    ensures
        r == spec_slot(info),
        r < 4,
{
    if info.is_singular() {
        info.gender.index() as u8
    } else {
        3
    }
}

impl NounDeclension {
    /// The endings of this declension's form with the declension parameters: those of the
    /// nominative or the genitive case, by animacy, in place of the accusative's.
    pub open spec fn spec_lookup_endings(self, info: DeclInfo) -> Endings {
        let e = spec_noun_endings(info.case, info.number, info.gender, self.stem_type);
        if e is Acc {
            spec_noun_endings(info.animacy.spec_acc_case(), info.number, info.gender, self.stem_type)
        } else {
            e
        }
    }

    /// Looks up the endings of this declension's form with the declension parameters.
    fn lookup_endings(self, info: DeclInfo) -> (r: Endings)
        ensures
            r == self.spec_lookup_endings(info),
    {
        let e = noun_endings(info.case, info.number, info.gender, self.stem_type);
        if e.is_acc() {
            noun_endings(info.animacy.acc_case(), info.number, info.gender, self.stem_type)
        } else {
            e
        }
    }

    /// The declension and parameters that choose the ending: in the plural, ① gives the
    /// nominative case and ② the genitive case the ending of another gender (masculine for
    /// neuter and feminine, neuter for masculine); in the singular, ③ gives stem type 6's
    /// endings.
    pub open spec fn spec_ending_choice(self, info: DeclInfo) -> (NounDeclension, DeclInfo) {
        if info.number == Number::Plural {
            let is_gen = info.case.spec_acc_is_gen(info.animacy);
            if is_gen == Some(false) && self.flags.circled_one || is_gen == Some(true)
                && self.flags.circled_two {
                let g = if info.gender == Gender::Masculine {
                    Gender::Neuter
                } else {
                    Gender::Masculine
                };
                (self, DeclInfo { gender: g, ..info })
            } else {
                (self, info)
            }
        } else if self.flags.circled_three {
            (NounDeclension { stem_type: NounStemType::Type6, ..self }, info)
        } else {
            (self, info)
        }
    }

    /// The noun ending of this declension with the declension parameters: the stressed ending
    /// where the ending is stressed.
    pub open spec fn spec_find_ending(self, info: DeclInfo) -> Seq<Utf8Letter> {
        let (decl, info) = self.spec_ending_choice(info);
        let endings = decl.spec_lookup_endings(info);
        endings.spec_get(endings.spec_invariant() || !decl.stress.spec_is_stem_stressed(info))
    }

    /// Returns the noun ending of this declension with the declension parameters.
    pub fn find_ending(self, info: DeclInfo) -> (r: Vec<Utf8Letter>)
        ensures
            r@ == self.spec_find_ending(info),
    {
        let mut decl = self;
        let mut info = info;
        if self.flags.has_any_circled_digits() {
            if info.is_plural() {
                let is_gen = info.case.acc_is_gen(info.animacy);
                if is_gen == Some(false) && self.flags.has_circled_one() || is_gen == Some(true)
                    && self.flags.has_circled_two() {
                    info.gender = match info.gender {
                        Gender::Masculine => Gender::Neuter,
                        _ => Gender::Masculine,
                    };
                }
            } else if self.flags.has_circled_three() {
                decl.stem_type = NounStemType::Type6;
            }
        }
        let endings = decl.lookup_endings(info);
        let is_stressed = endings.is_invariant() || decl.stress.is_ending_stressed(info);
        assert(!(endings is Acc)) by {
            assert(!(spec_noun_endings(info.animacy.spec_acc_case(), info.number, info.gender, decl.stem_type) is Acc));
        }
        endings.get(is_stressed)
    }
}

impl PronounDeclension {
    /// The endings of this declension's form: those of the nominative or genitive case, by
    /// animacy, in place of the accusative's; an animate accusative of stem type 2 takes stem
    /// type 4's genitive endings.
    pub open spec fn spec_lookup_endings(self, info: DeclInfo) -> Endings {
        let form = info.case.spec_index() as u8;
        let slot = spec_slot(info);
        let e = spec_pronoun_endings(form, slot, self.stem_type);
        if e is Acc {
            let st = if self.stem_type == PronounStemType::Type2 && info.animacy
                == crate::categories::Animacy::Animate {
                PronounStemType::Type4
            } else {
                self.stem_type
            };
            spec_pronoun_endings(info.animacy.spec_acc_case().spec_index() as u8, slot, st)
        } else {
            e
        }
    }

    fn lookup_endings(self, info: DeclInfo) -> (r: Endings)
        ensures
            r == self.spec_lookup_endings(info),
    {
        let form = info.case.index() as u8;
        let slot = slot(info);
        let e = pronoun_endings(form, slot, self.stem_type);
        if e.is_acc() {
            let st = if self.stem_type == PronounStemType::Type2 && info.is_animate() {
                PronounStemType::Type4
            } else {
                self.stem_type
            };
            pronoun_endings(info.animacy.acc_case().index() as u8, slot, st)
        } else {
            e
        }
    }

    /// The pronoun ending of this declension with the declension parameters: the stressed
    /// ending where the ending is stressed.
    pub open spec fn spec_find_ending(self, info: DeclInfo) -> Seq<Utf8Letter> {
        let endings = self.spec_lookup_endings(info);
        endings.spec_get(endings.spec_invariant() || !self.stress.spec_is_stem_stressed(info))
    }

    /// Returns the pronoun ending of this declension with the declension parameters.
    pub fn find_ending(self, info: DeclInfo) -> (r: Vec<Utf8Letter>)
        ensures
            r@ == self.spec_find_ending(info),
    {
        let endings = self.lookup_endings(info);
        let stressed = endings.is_invariant() || self.stress.is_ending_stressed(info);
        assert(!(endings is Acc));
        endings.get(stressed)
    }
}

impl AdjectiveDeclension {
    /// The endings of this declension's form: `form` is the case's index, or 6 for the short
    /// form; the accusative takes those of the nominative or genitive case, by animacy.
    pub open spec fn spec_lookup_endings(self, info: DeclInfo, form: u8) -> Endings {
        let slot = spec_slot(info);
        let e = spec_adjective_endings(form, slot, self.stem_type);
        if e is Acc && form != 6 {
            spec_adjective_endings(info.animacy.spec_acc_case().spec_index() as u8, slot, self.stem_type)
        } else {
            e
        }
    }

    fn lookup_endings(self, info: DeclInfo, form: u8) -> (r: Endings)
        requires
            form < 7,
        ensures
            r == self.spec_lookup_endings(info, form),
    {
        let slot = slot(info);
        let e = adjective_endings(form, slot, self.stem_type);
        if e.is_acc() && form != 6 {
            adjective_endings(info.animacy.acc_case().index() as u8, slot, self.stem_type)
        } else {
            e
        }
    }

    /// The full form's ending of this declension with the declension parameters: the stressed
    /// ending where the full form's ending is stressed.
    pub open spec fn spec_find_ending(self, info: DeclInfo) -> Seq<Utf8Letter> {
        let endings = self.spec_lookup_endings(info, info.case.spec_index() as u8);
        endings.spec_get(endings.spec_invariant() || self.stress.full
            == crate::stress::AdjectiveFullStress::B)
    }

    /// Returns the full form's ending of this declension with the declension parameters.
    pub fn find_ending(self, info: DeclInfo) -> (r: Vec<Utf8Letter>)
        ensures
            r@ == self.spec_find_ending(info),
    {
        let endings = self.lookup_endings(info, info.case.index() as u8);
        let stressed = endings.is_invariant() || self.stress.full.is_ending_stressed();
        assert(!(endings is Acc));
        endings.get(stressed)
    }

    /// The short form's ending of this declension with the number and gender: the stressed
    /// ending where the short form's ending is stressed or may be.
    pub open spec fn spec_find_ending_short(self, info: DeclInfo) -> Seq<Utf8Letter> {
        let endings = self.spec_lookup_endings(info, 6);
        let ending_stressed = match self.stress.short.spec_is_stem_stressed(info.number, info.gender) {
            Some(b) => !b,
            None => true,
        };
        endings.spec_get(endings.spec_invariant() || ending_stressed)
    }

    /// Returns the short form's ending of this declension with the number and gender. Where
    /// either the stem or the ending may be stressed, the ending is taken as stressed.
    pub fn find_ending_short(self, info: DeclInfo) -> (r: Vec<Utf8Letter>)
        ensures
            r@ == self.spec_find_ending_short(info),
    {
        let endings = self.lookup_endings(info, 6);
        let stressed = endings.is_invariant() || match self.stress.short.is_ending_stressed(info.number, info.gender) {
            Some(b) => b,
            None => true,
        };
        assert(!(endings is Acc));
        endings.get(stressed)
    }
}

/// An ending of nouns, pronouns and adjectives.
#[derive(Debug, Clone, Copy, PartialEq, Eq, Structural, Hash)]
pub enum Ending {
    /// The empty ending.
    Empty,
    /// The ending `а`.
    A,
    /// The ending `е`.
    Ye,
    /// The ending `и`.
    I,
    /// The ending `й`.
    Iy,
    /// The ending `о`.
    O,
    /// The ending `у`.
    U,
    /// The ending `ы`.
    Y,
    /// The ending `ь`.
    SoftSign,
    /// The ending `ю`.
    Yu,
    /// The ending `я`.
    Ya,
    /// The ending `ё`.
    Yo,
    /// The ending `ам`.
    AM,
    /// The ending `ах`.
    AKh,
    /// The ending `ая`.
    AYa,
    /// The ending `ев`.
    YeV,
    /// The ending `ее`.
    YeYe,
    /// The ending `ей`.
    YeIy,
    /// The ending `ем`.
    YeM,
    /// The ending `ие`.
    IYe,
    /// The ending `ий`.
    IIy,
    /// The ending `им`.
    IM,
    /// The ending `их`.
    IKh,
    /// The ending `ов`.
    OV,
    /// The ending `ое`.
    OYe,
    /// The ending `ой`.
    OIy,
    /// The ending `ом`.
    OM,
    /// The ending `ую`.
    UYu,
    /// The ending `ые`.
    YYe,
    /// The ending `ый`.
    YIy,
    /// The ending `ым`.
    YM,
    /// The ending `ых`.
    YKh,
    /// The ending `ью`.
    SoftSignYu,
    /// The ending `юю`.
    YuYu,
    /// The ending `ям`.
    YaM,
    /// The ending `ях`.
    YaKh,
    /// The ending `яя`.
    YaYa,
    /// The ending `ёв`.
    YoV,
    /// The ending `ёй`.
    YoIy,
    /// The ending `ём`.
    YoM,
    /// The ending `ами`.
    AMI,
    /// The ending `его`.
    YeGO,
    /// The ending `ему`.
    YeMU,
    /// The ending `ими`.
    IMI,
    /// The ending `ого`.
    OGO,
    /// The ending `ому`.
    OMU,
    /// The ending `ыми`.
    YMI,
    /// The ending `ями`.
    YaMI,
}

impl Ending {
    /// The letters of this ending.
    pub open spec fn spec_letters(self) -> Seq<Utf8Letter> {
        match self {
            Ending::Empty => Seq::<Utf8Letter>::empty(),
            Ending::A => seq![Utf8Letter::A],
            Ending::Ye => seq![Utf8Letter::Ye],
            Ending::I => seq![Utf8Letter::I],
            Ending::Iy => seq![Utf8Letter::Iy],
            Ending::O => seq![Utf8Letter::O],
            Ending::U => seq![Utf8Letter::U],
            Ending::Y => seq![Utf8Letter::Y],
            Ending::SoftSign => seq![Utf8Letter::SoftSign],
            Ending::Yu => seq![Utf8Letter::Yu],
            Ending::Ya => seq![Utf8Letter::Ya],
            Ending::Yo => seq![Utf8Letter::Yo],
            Ending::AM => seq![Utf8Letter::A, Utf8Letter::M],
            Ending::AKh => seq![Utf8Letter::A, Utf8Letter::Kh],
            Ending::AYa => seq![Utf8Letter::A, Utf8Letter::Ya],
            Ending::YeV => seq![Utf8Letter::Ye, Utf8Letter::V],
            Ending::YeYe => seq![Utf8Letter::Ye, Utf8Letter::Ye],
            Ending::YeIy => seq![Utf8Letter::Ye, Utf8Letter::Iy],
            Ending::YeM => seq![Utf8Letter::Ye, Utf8Letter::M],
            Ending::IYe => seq![Utf8Letter::I, Utf8Letter::Ye],
            Ending::IIy => seq![Utf8Letter::I, Utf8Letter::Iy],
            Ending::IM => seq![Utf8Letter::I, Utf8Letter::M],
            Ending::IKh => seq![Utf8Letter::I, Utf8Letter::Kh],
            Ending::OV => seq![Utf8Letter::O, Utf8Letter::V],
            Ending::OYe => seq![Utf8Letter::O, Utf8Letter::Ye],
            Ending::OIy => seq![Utf8Letter::O, Utf8Letter::Iy],
            Ending::OM => seq![Utf8Letter::O, Utf8Letter::M],
            Ending::UYu => seq![Utf8Letter::U, Utf8Letter::Yu],
            Ending::YYe => seq![Utf8Letter::Y, Utf8Letter::Ye],
            Ending::YIy => seq![Utf8Letter::Y, Utf8Letter::Iy],
            Ending::YM => seq![Utf8Letter::Y, Utf8Letter::M],
            Ending::YKh => seq![Utf8Letter::Y, Utf8Letter::Kh],
            Ending::SoftSignYu => seq![Utf8Letter::SoftSign, Utf8Letter::Yu],
            Ending::YuYu => seq![Utf8Letter::Yu, Utf8Letter::Yu],
            Ending::YaM => seq![Utf8Letter::Ya, Utf8Letter::M],
            Ending::YaKh => seq![Utf8Letter::Ya, Utf8Letter::Kh],
            Ending::YaYa => seq![Utf8Letter::Ya, Utf8Letter::Ya],
            Ending::YoV => seq![Utf8Letter::Yo, Utf8Letter::V],
            Ending::YoIy => seq![Utf8Letter::Yo, Utf8Letter::Iy],
            Ending::YoM => seq![Utf8Letter::Yo, Utf8Letter::M],
            Ending::AMI => seq![Utf8Letter::A, Utf8Letter::M, Utf8Letter::I],
            Ending::YeGO => seq![Utf8Letter::Ye, Utf8Letter::G, Utf8Letter::O],
            Ending::YeMU => seq![Utf8Letter::Ye, Utf8Letter::M, Utf8Letter::U],
            Ending::IMI => seq![Utf8Letter::I, Utf8Letter::M, Utf8Letter::I],
            Ending::OGO => seq![Utf8Letter::O, Utf8Letter::G, Utf8Letter::O],
            Ending::OMU => seq![Utf8Letter::O, Utf8Letter::M, Utf8Letter::U],
            Ending::YMI => seq![Utf8Letter::Y, Utf8Letter::M, Utf8Letter::I],
            Ending::YaMI => seq![Utf8Letter::Ya, Utf8Letter::M, Utf8Letter::I],
        }
    }

    /// Returns the letters of this ending.
    pub fn letters(self) -> (r: Vec<Utf8Letter>)
        ensures
            r@ == self.spec_letters(),
    {
        match self {
            Ending::Empty => Vec::new(),
            Ending::A => vec![Utf8Letter::A],
            Ending::Ye => vec![Utf8Letter::Ye],
            Ending::I => vec![Utf8Letter::I],
            Ending::Iy => vec![Utf8Letter::Iy],
            Ending::O => vec![Utf8Letter::O],
            Ending::U => vec![Utf8Letter::U],
            Ending::Y => vec![Utf8Letter::Y],
            Ending::SoftSign => vec![Utf8Letter::SoftSign],
            Ending::Yu => vec![Utf8Letter::Yu],
            Ending::Ya => vec![Utf8Letter::Ya],
            Ending::Yo => vec![Utf8Letter::Yo],
            Ending::AM => vec![Utf8Letter::A, Utf8Letter::M],
            Ending::AKh => vec![Utf8Letter::A, Utf8Letter::Kh],
            Ending::AYa => vec![Utf8Letter::A, Utf8Letter::Ya],
            Ending::YeV => vec![Utf8Letter::Ye, Utf8Letter::V],
            Ending::YeYe => vec![Utf8Letter::Ye, Utf8Letter::Ye],
            Ending::YeIy => vec![Utf8Letter::Ye, Utf8Letter::Iy],
            Ending::YeM => vec![Utf8Letter::Ye, Utf8Letter::M],
            Ending::IYe => vec![Utf8Letter::I, Utf8Letter::Ye],
            Ending::IIy => vec![Utf8Letter::I, Utf8Letter::Iy],
            Ending::IM => vec![Utf8Letter::I, Utf8Letter::M],
            Ending::IKh => vec![Utf8Letter::I, Utf8Letter::Kh],
            Ending::OV => vec![Utf8Letter::O, Utf8Letter::V],
            Ending::OYe => vec![Utf8Letter::O, Utf8Letter::Ye],
            Ending::OIy => vec![Utf8Letter::O, Utf8Letter::Iy],
            Ending::OM => vec![Utf8Letter::O, Utf8Letter::M],
            Ending::UYu => vec![Utf8Letter::U, Utf8Letter::Yu],
            Ending::YYe => vec![Utf8Letter::Y, Utf8Letter::Ye],
            Ending::YIy => vec![Utf8Letter::Y, Utf8Letter::Iy],
            Ending::YM => vec![Utf8Letter::Y, Utf8Letter::M],
            Ending::YKh => vec![Utf8Letter::Y, Utf8Letter::Kh],
            Ending::SoftSignYu => vec![Utf8Letter::SoftSign, Utf8Letter::Yu],
            Ending::YuYu => vec![Utf8Letter::Yu, Utf8Letter::Yu],
            Ending::YaM => vec![Utf8Letter::Ya, Utf8Letter::M],
            Ending::YaKh => vec![Utf8Letter::Ya, Utf8Letter::Kh],
            Ending::YaYa => vec![Utf8Letter::Ya, Utf8Letter::Ya],
            Ending::YoV => vec![Utf8Letter::Yo, Utf8Letter::V],
            Ending::YoIy => vec![Utf8Letter::Yo, Utf8Letter::Iy],
            Ending::YoM => vec![Utf8Letter::Yo, Utf8Letter::M],
            Ending::AMI => vec![Utf8Letter::A, Utf8Letter::M, Utf8Letter::I],
            Ending::YeGO => vec![Utf8Letter::Ye, Utf8Letter::G, Utf8Letter::O],
            Ending::YeMU => vec![Utf8Letter::Ye, Utf8Letter::M, Utf8Letter::U],
            Ending::IMI => vec![Utf8Letter::I, Utf8Letter::M, Utf8Letter::I],
            Ending::OGO => vec![Utf8Letter::O, Utf8Letter::G, Utf8Letter::O],
            Ending::OMU => vec![Utf8Letter::O, Utf8Letter::M, Utf8Letter::U],
            Ending::YMI => vec![Utf8Letter::Y, Utf8Letter::M, Utf8Letter::I],
            Ending::YaMI => vec![Utf8Letter::Ya, Utf8Letter::M, Utf8Letter::I],
        }
    }
}

/// The endings of nouns by case, number, gender and stem type.
pub open spec fn spec_noun_endings(case: Case, number: Number, gender: Gender, stem_type: NounStemType) -> Endings
{
    match (case, number, gender) {
        (Case::Nominative, Number::Singular, Gender::Masculine) => match stem_type {
            NounStemType::Type1 => Endings::Forms(Ending::Empty, Ending::Empty),
            NounStemType::Type2 => Endings::Forms(Ending::SoftSign, Ending::SoftSign),
            NounStemType::Type3 => Endings::Forms(Ending::Empty, Ending::Empty),
            NounStemType::Type4 => Endings::Forms(Ending::Empty, Ending::Empty),
            NounStemType::Type5 => Endings::Forms(Ending::Empty, Ending::Empty),
            NounStemType::Type6 => Endings::Forms(Ending::Iy, Ending::Iy),
            NounStemType::Type7 => Endings::Forms(Ending::Iy, Ending::Iy),
            NounStemType::Type8 => Endings::Forms(Ending::SoftSign, Ending::SoftSign),
        },
        (Case::Nominative, Number::Singular, Gender::Neuter) => match stem_type {
            NounStemType::Type1 => Endings::Forms(Ending::O, Ending::O),
            NounStemType::Type2 => Endings::Forms(Ending::Ye, Ending::Yo),
            NounStemType::Type3 => Endings::Forms(Ending::O, Ending::O),
            NounStemType::Type4 => Endings::Forms(Ending::Ye, Ending::O),
            NounStemType::Type5 => Endings::Forms(Ending::Ye, Ending::O),
            NounStemType::Type6 => Endings::Forms(Ending::Ye, Ending::Yo),
            NounStemType::Type7 => Endings::Forms(Ending::Ye, Ending::Yo),
            NounStemType::Type8 => Endings::Forms(Ending::O, Ending::O),
        },
        (Case::Nominative, Number::Singular, Gender::Feminine) => match stem_type {
            NounStemType::Type1 => Endings::Forms(Ending::A, Ending::A),
            NounStemType::Type2 => Endings::Forms(Ending::Ya, Ending::Ya),
            NounStemType::Type3 => Endings::Forms(Ending::A, Ending::A),
            NounStemType::Type4 => Endings::Forms(Ending::A, Ending::A),
            NounStemType::Type5 => Endings::Forms(Ending::A, Ending::A),
            NounStemType::Type6 => Endings::Forms(Ending::Ya, Ending::Ya),
            NounStemType::Type7 => Endings::Forms(Ending::Ya, Ending::Ya),
            NounStemType::Type8 => Endings::Forms(Ending::SoftSign, Ending::SoftSign),
        },
        (Case::Nominative, Number::Plural, Gender::Masculine) => match stem_type {
            NounStemType::Type1 => Endings::Forms(Ending::Y, Ending::Y),
            NounStemType::Type2 => Endings::Forms(Ending::I, Ending::I),
            NounStemType::Type3 => Endings::Forms(Ending::I, Ending::I),
            NounStemType::Type4 => Endings::Forms(Ending::I, Ending::I),
            NounStemType::Type5 => Endings::Forms(Ending::Y, Ending::Y),
            NounStemType::Type6 => Endings::Forms(Ending::I, Ending::I),
            NounStemType::Type7 => Endings::Forms(Ending::I, Ending::I),
            NounStemType::Type8 => Endings::Forms(Ending::I, Ending::I),
        },
        (Case::Nominative, Number::Plural, Gender::Neuter) => match stem_type {
            NounStemType::Type1 => Endings::Forms(Ending::A, Ending::A),
            NounStemType::Type2 => Endings::Forms(Ending::Ya, Ending::Ya),
            NounStemType::Type3 => Endings::Forms(Ending::A, Ending::A),
            NounStemType::Type4 => Endings::Forms(Ending::A, Ending::A),
            NounStemType::Type5 => Endings::Forms(Ending::A, Ending::A),
            NounStemType::Type6 => Endings::Forms(Ending::Ya, Ending::Ya),
            NounStemType::Type7 => Endings::Forms(Ending::Ya, Ending::Ya),
            NounStemType::Type8 => Endings::Forms(Ending::A, Ending::A),
        },
        (Case::Nominative, Number::Plural, Gender::Feminine) => match stem_type {
            NounStemType::Type1 => Endings::Forms(Ending::Y, Ending::Y),
            NounStemType::Type2 => Endings::Forms(Ending::I, Ending::I),
            NounStemType::Type3 => Endings::Forms(Ending::I, Ending::I),
            NounStemType::Type4 => Endings::Forms(Ending::I, Ending::I),
            NounStemType::Type5 => Endings::Forms(Ending::Y, Ending::Y),
            NounStemType::Type6 => Endings::Forms(Ending::I, Ending::I),
            NounStemType::Type7 => Endings::Forms(Ending::I, Ending::I),
            NounStemType::Type8 => Endings::Forms(Ending::I, Ending::I),
        },
        (Case::Genitive, Number::Singular, Gender::Masculine) => match stem_type {
            NounStemType::Type1 => Endings::Forms(Ending::A, Ending::A),
            NounStemType::Type2 => Endings::Forms(Ending::Ya, Ending::Ya),
            NounStemType::Type3 => Endings::Forms(Ending::A, Ending::A),
            NounStemType::Type4 => Endings::Forms(Ending::A, Ending::A),
            NounStemType::Type5 => Endings::Forms(Ending::A, Ending::A),
            NounStemType::Type6 => Endings::Forms(Ending::Ya, Ending::Ya),
            NounStemType::Type7 => Endings::Forms(Ending::Ya, Ending::Ya),
            NounStemType::Type8 => Endings::Forms(Ending::I, Ending::I),
        },
        (Case::Genitive, Number::Singular, Gender::Neuter) => match stem_type {
            NounStemType::Type1 => Endings::Forms(Ending::A, Ending::A),
            NounStemType::Type2 => Endings::Forms(Ending::Ya, Ending::Ya),
            NounStemType::Type3 => Endings::Forms(Ending::A, Ending::A),
            NounStemType::Type4 => Endings::Forms(Ending::A, Ending::A),
            NounStemType::Type5 => Endings::Forms(Ending::A, Ending::A),
            NounStemType::Type6 => Endings::Forms(Ending::Ya, Ending::Ya),
            NounStemType::Type7 => Endings::Forms(Ending::Ya, Ending::Ya),
            NounStemType::Type8 => Endings::Forms(Ending::A, Ending::A),
        },
        (Case::Genitive, Number::Singular, Gender::Feminine) => match stem_type {
            NounStemType::Type1 => Endings::Forms(Ending::Y, Ending::Y),
            NounStemType::Type2 => Endings::Forms(Ending::I, Ending::I),
            NounStemType::Type3 => Endings::Forms(Ending::I, Ending::I),
            NounStemType::Type4 => Endings::Forms(Ending::I, Ending::I),
            NounStemType::Type5 => Endings::Forms(Ending::Y, Ending::Y),
            NounStemType::Type6 => Endings::Forms(Ending::I, Ending::I),
            NounStemType::Type7 => Endings::Forms(Ending::I, Ending::I),
            NounStemType::Type8 => Endings::Forms(Ending::I, Ending::I),
        },
        (Case::Genitive, Number::Plural, Gender::Masculine) => match stem_type {
            NounStemType::Type1 => Endings::Forms(Ending::OV, Ending::OV),
            NounStemType::Type2 => Endings::Forms(Ending::YeIy, Ending::YeIy),
            NounStemType::Type3 => Endings::Forms(Ending::OV, Ending::OV),
            NounStemType::Type4 => Endings::Forms(Ending::YeIy, Ending::YeIy),
            NounStemType::Type5 => Endings::Forms(Ending::YeV, Ending::OV),
            NounStemType::Type6 => Endings::Forms(Ending::YeV, Ending::YoV),
            NounStemType::Type7 => Endings::Forms(Ending::YeV, Ending::YoV),
            NounStemType::Type8 => Endings::Forms(Ending::YeIy, Ending::YeIy),
        },
        (Case::Genitive, Number::Plural, Gender::Neuter) => match stem_type {
            NounStemType::Type1 => Endings::Forms(Ending::Empty, Ending::Empty),
            NounStemType::Type2 => Endings::Forms(Ending::SoftSign, Ending::YeIy),
            NounStemType::Type3 => Endings::Forms(Ending::Empty, Ending::Empty),
            NounStemType::Type4 => Endings::Forms(Ending::Empty, Ending::YeIy),
            NounStemType::Type5 => Endings::Forms(Ending::Empty, Ending::Empty),
            NounStemType::Type6 => Endings::Forms(Ending::Iy, Ending::Iy),
            NounStemType::Type7 => Endings::Forms(Ending::Iy, Ending::Iy),
            NounStemType::Type8 => Endings::Forms(Ending::Empty, Ending::Empty),
        },
        (Case::Genitive, Number::Plural, Gender::Feminine) => match stem_type {
            NounStemType::Type1 => Endings::Forms(Ending::Empty, Ending::Empty),
            NounStemType::Type2 => Endings::Forms(Ending::SoftSign, Ending::YeIy),
            NounStemType::Type3 => Endings::Forms(Ending::Empty, Ending::Empty),
            NounStemType::Type4 => Endings::Forms(Ending::Empty, Ending::YeIy),
            NounStemType::Type5 => Endings::Forms(Ending::Empty, Ending::Empty),
            NounStemType::Type6 => Endings::Forms(Ending::Iy, Ending::Iy),
            NounStemType::Type7 => Endings::Forms(Ending::Iy, Ending::Iy),
            NounStemType::Type8 => Endings::Forms(Ending::YeIy, Ending::YeIy),
        },
        (Case::Dative, Number::Singular, Gender::Masculine) => match stem_type {
            NounStemType::Type1 => Endings::Forms(Ending::U, Ending::U),
            NounStemType::Type2 => Endings::Forms(Ending::Yu, Ending::Yu),
            NounStemType::Type3 => Endings::Forms(Ending::U, Ending::U),
            NounStemType::Type4 => Endings::Forms(Ending::U, Ending::U),
            NounStemType::Type5 => Endings::Forms(Ending::U, Ending::U),
            NounStemType::Type6 => Endings::Forms(Ending::Yu, Ending::Yu),
            NounStemType::Type7 => Endings::Forms(Ending::Yu, Ending::Yu),
            NounStemType::Type8 => Endings::Forms(Ending::I, Ending::I),
        },
        (Case::Dative, Number::Singular, Gender::Neuter) => match stem_type {
            NounStemType::Type1 => Endings::Forms(Ending::U, Ending::U),
            NounStemType::Type2 => Endings::Forms(Ending::Yu, Ending::Yu),
            NounStemType::Type3 => Endings::Forms(Ending::U, Ending::U),
            NounStemType::Type4 => Endings::Forms(Ending::U, Ending::U),
            NounStemType::Type5 => Endings::Forms(Ending::U, Ending::U),
            NounStemType::Type6 => Endings::Forms(Ending::Yu, Ending::Yu),
            NounStemType::Type7 => Endings::Forms(Ending::Yu, Ending::Yu),
            NounStemType::Type8 => Endings::Forms(Ending::U, Ending::U),
        },
        (Case::Dative, Number::Singular, Gender::Feminine) => match stem_type {
            NounStemType::Type1 => Endings::Forms(Ending::Ye, Ending::Ye),
            NounStemType::Type2 => Endings::Forms(Ending::Ye, Ending::Ye),
            NounStemType::Type3 => Endings::Forms(Ending::Ye, Ending::Ye),
            NounStemType::Type4 => Endings::Forms(Ending::Ye, Ending::Ye),
            NounStemType::Type5 => Endings::Forms(Ending::Ye, Ending::Ye),
            NounStemType::Type6 => Endings::Forms(Ending::Ye, Ending::Ye),
            NounStemType::Type7 => Endings::Forms(Ending::I, Ending::Ye),
            NounStemType::Type8 => Endings::Forms(Ending::I, Ending::I),
        },
        (Case::Dative, Number::Plural, Gender::Masculine) => match stem_type {
            NounStemType::Type1 => Endings::Forms(Ending::AM, Ending::AM),
            NounStemType::Type2 => Endings::Forms(Ending::YaM, Ending::YaM),
            NounStemType::Type3 => Endings::Forms(Ending::AM, Ending::AM),
            NounStemType::Type4 => Endings::Forms(Ending::AM, Ending::AM),
            NounStemType::Type5 => Endings::Forms(Ending::AM, Ending::AM),
            NounStemType::Type6 => Endings::Forms(Ending::YaM, Ending::YaM),
            NounStemType::Type7 => Endings::Forms(Ending::YaM, Ending::YaM),
            NounStemType::Type8 => Endings::Forms(Ending::YaM, Ending::YaM),
        },
        (Case::Dative, Number::Plural, Gender::Neuter) => match stem_type {
            NounStemType::Type1 => Endings::Forms(Ending::AM, Ending::AM),
            NounStemType::Type2 => Endings::Forms(Ending::YaM, Ending::YaM),
            NounStemType::Type3 => Endings::Forms(Ending::AM, Ending::AM),
            NounStemType::Type4 => Endings::Forms(Ending::AM, Ending::AM),
            NounStemType::Type5 => Endings::Forms(Ending::AM, Ending::AM),
            NounStemType::Type6 => Endings::Forms(Ending::YaM, Ending::YaM),
            NounStemType::Type7 => Endings::Forms(Ending::YaM, Ending::YaM),
            NounStemType::Type8 => Endings::Forms(Ending::AM, Ending::AM),
        },
        (Case::Dative, Number::Plural, Gender::Feminine) => match stem_type {
            NounStemType::Type1 => Endings::Forms(Ending::AM, Ending::AM),
            NounStemType::Type2 => Endings::Forms(Ending::YaM, Ending::YaM),
            NounStemType::Type3 => Endings::Forms(Ending::AM, Ending::AM),
            NounStemType::Type4 => Endings::Forms(Ending::AM, Ending::AM),
            NounStemType::Type5 => Endings::Forms(Ending::AM, Ending::AM),
            NounStemType::Type6 => Endings::Forms(Ending::YaM, Ending::YaM),
            NounStemType::Type7 => Endings::Forms(Ending::YaM, Ending::YaM),
            NounStemType::Type8 => Endings::Forms(Ending::YaM, Ending::YaM),
        },
        (Case::Accusative, Number::Singular, Gender::Masculine) => match stem_type {
            NounStemType::Type1 => Endings::Acc,
            NounStemType::Type2 => Endings::Acc,
            NounStemType::Type3 => Endings::Acc,
            NounStemType::Type4 => Endings::Acc,
            NounStemType::Type5 => Endings::Acc,
            NounStemType::Type6 => Endings::Acc,
            NounStemType::Type7 => Endings::Acc,
            NounStemType::Type8 => Endings::Acc,
        },
        (Case::Accusative, Number::Singular, Gender::Neuter) => match stem_type {
            NounStemType::Type1 => Endings::Acc,
            NounStemType::Type2 => Endings::Acc,
            NounStemType::Type3 => Endings::Acc,
            NounStemType::Type4 => Endings::Acc,
            NounStemType::Type5 => Endings::Acc,
            NounStemType::Type6 => Endings::Acc,
            NounStemType::Type7 => Endings::Acc,
            NounStemType::Type8 => Endings::Acc,
        },
        (Case::Accusative, Number::Singular, Gender::Feminine) => match stem_type {
            NounStemType::Type1 => Endings::Forms(Ending::U, Ending::U),
            NounStemType::Type2 => Endings::Forms(Ending::Yu, Ending::Yu),
            NounStemType::Type3 => Endings::Forms(Ending::U, Ending::U),
            NounStemType::Type4 => Endings::Forms(Ending::U, Ending::U),
            NounStemType::Type5 => Endings::Forms(Ending::U, Ending::U),
            NounStemType::Type6 => Endings::Forms(Ending::Yu, Ending::Yu),
            NounStemType::Type7 => Endings::Forms(Ending::Yu, Ending::Yu),
            NounStemType::Type8 => Endings::Forms(Ending::SoftSign, Ending::SoftSign),
        },
        (Case::Accusative, Number::Plural, Gender::Masculine) => match stem_type {
            NounStemType::Type1 => Endings::Acc,
            NounStemType::Type2 => Endings::Acc,
            NounStemType::Type3 => Endings::Acc,
            NounStemType::Type4 => Endings::Acc,
            NounStemType::Type5 => Endings::Acc,
            NounStemType::Type6 => Endings::Acc,
            NounStemType::Type7 => Endings::Acc,
            NounStemType::Type8 => Endings::Acc,
        },
        (Case::Accusative, Number::Plural, Gender::Neuter) => match stem_type {
            NounStemType::Type1 => Endings::Acc,
            NounStemType::Type2 => Endings::Acc,
            NounStemType::Type3 => Endings::Acc,
            NounStemType::Type4 => Endings::Acc,
            NounStemType::Type5 => Endings::Acc,
            NounStemType::Type6 => Endings::Acc,
            NounStemType::Type7 => Endings::Acc,
            NounStemType::Type8 => Endings::Acc,
        },
        (Case::Accusative, Number::Plural, Gender::Feminine) => match stem_type {
            NounStemType::Type1 => Endings::Acc,
            NounStemType::Type2 => Endings::Acc,
            NounStemType::Type3 => Endings::Acc,
            NounStemType::Type4 => Endings::Acc,
            NounStemType::Type5 => Endings::Acc,
            NounStemType::Type6 => Endings::Acc,
            NounStemType::Type7 => Endings::Acc,
            NounStemType::Type8 => Endings::Acc,
        },
        (Case::Instrumental, Number::Singular, Gender::Masculine) => match stem_type {
            NounStemType::Type1 => Endings::Forms(Ending::OM, Ending::OM),
            NounStemType::Type2 => Endings::Forms(Ending::YeM, Ending::YoM),
            NounStemType::Type3 => Endings::Forms(Ending::OM, Ending::OM),
            NounStemType::Type4 => Endings::Forms(Ending::YeM, Ending::OM),
            NounStemType::Type5 => Endings::Forms(Ending::YeM, Ending::OM),
            NounStemType::Type6 => Endings::Forms(Ending::YeM, Ending::YoM),
            NounStemType::Type7 => Endings::Forms(Ending::YeM, Ending::YoM),
            NounStemType::Type8 => Endings::Forms(Ending::YeM, Ending::YoM),
        },
        (Case::Instrumental, Number::Singular, Gender::Neuter) => match stem_type {
            NounStemType::Type1 => Endings::Forms(Ending::OM, Ending::OM),
            NounStemType::Type2 => Endings::Forms(Ending::YeM, Ending::YoM),
            NounStemType::Type3 => Endings::Forms(Ending::OM, Ending::OM),
            NounStemType::Type4 => Endings::Forms(Ending::YeM, Ending::OM),
            NounStemType::Type5 => Endings::Forms(Ending::YeM, Ending::OM),
            NounStemType::Type6 => Endings::Forms(Ending::YeM, Ending::YoM),
            NounStemType::Type7 => Endings::Forms(Ending::YeM, Ending::YoM),
            NounStemType::Type8 => Endings::Forms(Ending::OM, Ending::OM),
        },
        (Case::Instrumental, Number::Singular, Gender::Feminine) => match stem_type {
            NounStemType::Type1 => Endings::Forms(Ending::OIy, Ending::OIy),
            NounStemType::Type2 => Endings::Forms(Ending::YeIy, Ending::YoIy),
            NounStemType::Type3 => Endings::Forms(Ending::OIy, Ending::OIy),
            NounStemType::Type4 => Endings::Forms(Ending::YeIy, Ending::OIy),
            NounStemType::Type5 => Endings::Forms(Ending::YeIy, Ending::OIy),
            NounStemType::Type6 => Endings::Forms(Ending::YeIy, Ending::YoIy),
            NounStemType::Type7 => Endings::Forms(Ending::YeIy, Ending::YoIy),
            NounStemType::Type8 => Endings::Forms(Ending::SoftSignYu, Ending::SoftSignYu),
        },
        (Case::Instrumental, Number::Plural, Gender::Masculine) => match stem_type {
            NounStemType::Type1 => Endings::Forms(Ending::AMI, Ending::AMI),
            NounStemType::Type2 => Endings::Forms(Ending::YaMI, Ending::YaMI),
            NounStemType::Type3 => Endings::Forms(Ending::AMI, Ending::AMI),
            NounStemType::Type4 => Endings::Forms(Ending::AMI, Ending::AMI),
            NounStemType::Type5 => Endings::Forms(Ending::AMI, Ending::AMI),
            NounStemType::Type6 => Endings::Forms(Ending::YaMI, Ending::YaMI),
            NounStemType::Type7 => Endings::Forms(Ending::YaMI, Ending::YaMI),
            NounStemType::Type8 => Endings::Forms(Ending::YaMI, Ending::YaMI),
        },
        (Case::Instrumental, Number::Plural, Gender::Neuter) => match stem_type {
            NounStemType::Type1 => Endings::Forms(Ending::AMI, Ending::AMI),
            NounStemType::Type2 => Endings::Forms(Ending::YaMI, Ending::YaMI),
            NounStemType::Type3 => Endings::Forms(Ending::AMI, Ending::AMI),
            NounStemType::Type4 => Endings::Forms(Ending::AMI, Ending::AMI),
            NounStemType::Type5 => Endings::Forms(Ending::AMI, Ending::AMI),
            NounStemType::Type6 => Endings::Forms(Ending::YaMI, Ending::YaMI),
            NounStemType::Type7 => Endings::Forms(Ending::YaMI, Ending::YaMI),
            NounStemType::Type8 => Endings::Forms(Ending::AMI, Ending::AMI),
        },
        (Case::Instrumental, Number::Plural, Gender::Feminine) => match stem_type {
            NounStemType::Type1 => Endings::Forms(Ending::AMI, Ending::AMI),
            NounStemType::Type2 => Endings::Forms(Ending::YaMI, Ending::YaMI),
            NounStemType::Type3 => Endings::Forms(Ending::AMI, Ending::AMI),
            NounStemType::Type4 => Endings::Forms(Ending::AMI, Ending::AMI),
            NounStemType::Type5 => Endings::Forms(Ending::AMI, Ending::AMI),
            NounStemType::Type6 => Endings::Forms(Ending::YaMI, Ending::YaMI),
            NounStemType::Type7 => Endings::Forms(Ending::YaMI, Ending::YaMI),
            NounStemType::Type8 => Endings::Forms(Ending::YaMI, Ending::YaMI),
        },
        (Case::Prepositional, Number::Singular, Gender::Masculine) => match stem_type {
            NounStemType::Type1 => Endings::Forms(Ending::Ye, Ending::Ye),
            NounStemType::Type2 => Endings::Forms(Ending::Ye, Ending::Ye),
            NounStemType::Type3 => Endings::Forms(Ending::Ye, Ending::Ye),
            NounStemType::Type4 => Endings::Forms(Ending::Ye, Ending::Ye),
            NounStemType::Type5 => Endings::Forms(Ending::Ye, Ending::Ye),
            NounStemType::Type6 => Endings::Forms(Ending::Ye, Ending::Ye),
            NounStemType::Type7 => Endings::Forms(Ending::I, Ending::Ye),
            NounStemType::Type8 => Endings::Forms(Ending::I, Ending::I),
        },
        (Case::Prepositional, Number::Singular, Gender::Neuter) => match stem_type {
            NounStemType::Type1 => Endings::Forms(Ending::Ye, Ending::Ye),
            NounStemType::Type2 => Endings::Forms(Ending::Ye, Ending::Ye),
            NounStemType::Type3 => Endings::Forms(Ending::Ye, Ending::Ye),
            NounStemType::Type4 => Endings::Forms(Ending::Ye, Ending::Ye),
            NounStemType::Type5 => Endings::Forms(Ending::Ye, Ending::Ye),
            NounStemType::Type6 => Endings::Forms(Ending::Ye, Ending::Ye),
            NounStemType::Type7 => Endings::Forms(Ending::I, Ending::Ye),
            NounStemType::Type8 => Endings::Forms(Ending::I, Ending::I),
        },
        (Case::Prepositional, Number::Singular, Gender::Feminine) => match stem_type {
            NounStemType::Type1 => Endings::Forms(Ending::Ye, Ending::Ye),
            NounStemType::Type2 => Endings::Forms(Ending::Ye, Ending::Ye),
            NounStemType::Type3 => Endings::Forms(Ending::Ye, Ending::Ye),
            NounStemType::Type4 => Endings::Forms(Ending::Ye, Ending::Ye),
            NounStemType::Type5 => Endings::Forms(Ending::Ye, Ending::Ye),
            NounStemType::Type6 => Endings::Forms(Ending::Ye, Ending::Ye),
            NounStemType::Type7 => Endings::Forms(Ending::I, Ending::Ye),
            NounStemType::Type8 => Endings::Forms(Ending::I, Ending::I),
        },
        (Case::Prepositional, Number::Plural, Gender::Masculine) => match stem_type {
            NounStemType::Type1 => Endings::Forms(Ending::AKh, Ending::AKh),
            NounStemType::Type2 => Endings::Forms(Ending::YaKh, Ending::YaKh),
            NounStemType::Type3 => Endings::Forms(Ending::AKh, Ending::AKh),
            NounStemType::Type4 => Endings::Forms(Ending::AKh, Ending::AKh),
            NounStemType::Type5 => Endings::Forms(Ending::AKh, Ending::AKh),
            NounStemType::Type6 => Endings::Forms(Ending::YaKh, Ending::YaKh),
            NounStemType::Type7 => Endings::Forms(Ending::YaKh, Ending::YaKh),
            NounStemType::Type8 => Endings::Forms(Ending::YaKh, Ending::YaKh),
        },
        (Case::Prepositional, Number::Plural, Gender::Neuter) => match stem_type {
            NounStemType::Type1 => Endings::Forms(Ending::AKh, Ending::AKh),
            NounStemType::Type2 => Endings::Forms(Ending::YaKh, Ending::YaKh),
            NounStemType::Type3 => Endings::Forms(Ending::AKh, Ending::AKh),
            NounStemType::Type4 => Endings::Forms(Ending::AKh, Ending::AKh),
            NounStemType::Type5 => Endings::Forms(Ending::AKh, Ending::AKh),
            NounStemType::Type6 => Endings::Forms(Ending::YaKh, Ending::YaKh),
            NounStemType::Type7 => Endings::Forms(Ending::YaKh, Ending::YaKh),
            NounStemType::Type8 => Endings::Forms(Ending::AKh, Ending::AKh),
        },
        (Case::Prepositional, Number::Plural, Gender::Feminine) => match stem_type {
            NounStemType::Type1 => Endings::Forms(Ending::AKh, Ending::AKh),
            NounStemType::Type2 => Endings::Forms(Ending::YaKh, Ending::YaKh),
            NounStemType::Type3 => Endings::Forms(Ending::AKh, Ending::AKh),
            NounStemType::Type4 => Endings::Forms(Ending::AKh, Ending::AKh),
            NounStemType::Type5 => Endings::Forms(Ending::AKh, Ending::AKh),
            NounStemType::Type6 => Endings::Forms(Ending::YaKh, Ending::YaKh),
            NounStemType::Type7 => Endings::Forms(Ending::YaKh, Ending::YaKh),
            NounStemType::Type8 => Endings::Forms(Ending::YaKh, Ending::YaKh),
        },
    }
}

/// Looks up the endings of nouns by case, number, gender and stem type.
fn noun_endings(case: Case, number: Number, gender: Gender, stem_type: NounStemType) -> (r: Endings)
    ensures
        r == spec_noun_endings(case, number, gender, stem_type),
{
    match (case, number, gender) {
        (Case::Nominative, Number::Singular, Gender::Masculine) => match stem_type {
            NounStemType::Type1 => Endings::Forms(Ending::Empty, Ending::Empty),
            NounStemType::Type2 => Endings::Forms(Ending::SoftSign, Ending::SoftSign),
            NounStemType::Type3 => Endings::Forms(Ending::Empty, Ending::Empty),
            NounStemType::Type4 => Endings::Forms(Ending::Empty, Ending::Empty),
            NounStemType::Type5 => Endings::Forms(Ending::Empty, Ending::Empty),
            NounStemType::Type6 => Endings::Forms(Ending::Iy, Ending::Iy),
            NounStemType::Type7 => Endings::Forms(Ending::Iy, Ending::Iy),
            NounStemType::Type8 => Endings::Forms(Ending::SoftSign, Ending::SoftSign),
        },
        (Case::Nominative, Number::Singular, Gender::Neuter) => match stem_type {
            NounStemType::Type1 => Endings::Forms(Ending::O, Ending::O),
            NounStemType::Type2 => Endings::Forms(Ending::Ye, Ending::Yo),
            NounStemType::Type3 => Endings::Forms(Ending::O, Ending::O),
            NounStemType::Type4 => Endings::Forms(Ending::Ye, Ending::O),
            NounStemType::Type5 => Endings::Forms(Ending::Ye, Ending::O),
            NounStemType::Type6 => Endings::Forms(Ending::Ye, Ending::Yo),
            NounStemType::Type7 => Endings::Forms(Ending::Ye, Ending::Yo),
            NounStemType::Type8 => Endings::Forms(Ending::O, Ending::O),
        },
        (Case::Nominative, Number::Singular, Gender::Feminine) => match stem_type {
            NounStemType::Type1 => Endings::Forms(Ending::A, Ending::A),
            NounStemType::Type2 => Endings::Forms(Ending::Ya, Ending::Ya),
            NounStemType::Type3 => Endings::Forms(Ending::A, Ending::A),
            NounStemType::Type4 => Endings::Forms(Ending::A, Ending::A),
            NounStemType::Type5 => Endings::Forms(Ending::A, Ending::A),
            NounStemType::Type6 => Endings::Forms(Ending::Ya, Ending::Ya),
            NounStemType::Type7 => Endings::Forms(Ending::Ya, Ending::Ya),
            NounStemType::Type8 => Endings::Forms(Ending::SoftSign, Ending::SoftSign),
        },
        (Case::Nominative, Number::Plural, Gender::Masculine) => match stem_type {
            NounStemType::Type1 => Endings::Forms(Ending::Y, Ending::Y),
            NounStemType::Type2 => Endings::Forms(Ending::I, Ending::I),
            NounStemType::Type3 => Endings::Forms(Ending::I, Ending::I),
            NounStemType::Type4 => Endings::Forms(Ending::I, Ending::I),
            NounStemType::Type5 => Endings::Forms(Ending::Y, Ending::Y),
            NounStemType::Type6 => Endings::Forms(Ending::I, Ending::I),
            NounStemType::Type7 => Endings::Forms(Ending::I, Ending::I),
            NounStemType::Type8 => Endings::Forms(Ending::I, Ending::I),
        },
        (Case::Nominative, Number::Plural, Gender::Neuter) => match stem_type {
            NounStemType::Type1 => Endings::Forms(Ending::A, Ending::A),
            NounStemType::Type2 => Endings::Forms(Ending::Ya, Ending::Ya),
            NounStemType::Type3 => Endings::Forms(Ending::A, Ending::A),
            NounStemType::Type4 => Endings::Forms(Ending::A, Ending::A),
            NounStemType::Type5 => Endings::Forms(Ending::A, Ending::A),
            NounStemType::Type6 => Endings::Forms(Ending::Ya, Ending::Ya),
            NounStemType::Type7 => Endings::Forms(Ending::Ya, Ending::Ya),
            NounStemType::Type8 => Endings::Forms(Ending::A, Ending::A),
        },
        (Case::Nominative, Number::Plural, Gender::Feminine) => match stem_type {
            NounStemType::Type1 => Endings::Forms(Ending::Y, Ending::Y),
            NounStemType::Type2 => Endings::Forms(Ending::I, Ending::I),
            NounStemType::Type3 => Endings::Forms(Ending::I, Ending::I),
            NounStemType::Type4 => Endings::Forms(Ending::I, Ending::I),
            NounStemType::Type5 => Endings::Forms(Ending::Y, Ending::Y),
            NounStemType::Type6 => Endings::Forms(Ending::I, Ending::I),
            NounStemType::Type7 => Endings::Forms(Ending::I, Ending::I),
            NounStemType::Type8 => Endings::Forms(Ending::I, Ending::I),
        },
        (Case::Genitive, Number::Singular, Gender::Masculine) => match stem_type {
            NounStemType::Type1 => Endings::Forms(Ending::A, Ending::A),
            NounStemType::Type2 => Endings::Forms(Ending::Ya, Ending::Ya),
            NounStemType::Type3 => Endings::Forms(Ending::A, Ending::A),
            NounStemType::Type4 => Endings::Forms(Ending::A, Ending::A),
            NounStemType::Type5 => Endings::Forms(Ending::A, Ending::A),
            NounStemType::Type6 => Endings::Forms(Ending::Ya, Ending::Ya),
            NounStemType::Type7 => Endings::Forms(Ending::Ya, Ending::Ya),
            NounStemType::Type8 => Endings::Forms(Ending::I, Ending::I),
        },
        (Case::Genitive, Number::Singular, Gender::Neuter) => match stem_type {
            NounStemType::Type1 => Endings::Forms(Ending::A, Ending::A),
            NounStemType::Type2 => Endings::Forms(Ending::Ya, Ending::Ya),
            NounStemType::Type3 => Endings::Forms(Ending::A, Ending::A),
            NounStemType::Type4 => Endings::Forms(Ending::A, Ending::A),
            NounStemType::Type5 => Endings::Forms(Ending::A, Ending::A),
            NounStemType::Type6 => Endings::Forms(Ending::Ya, Ending::Ya),
            NounStemType::Type7 => Endings::Forms(Ending::Ya, Ending::Ya),
            NounStemType::Type8 => Endings::Forms(Ending::A, Ending::A),
        },
        (Case::Genitive, Number::Singular, Gender::Feminine) => match stem_type {
            NounStemType::Type1 => Endings::Forms(Ending::Y, Ending::Y),
            NounStemType::Type2 => Endings::Forms(Ending::I, Ending::I),
            NounStemType::Type3 => Endings::Forms(Ending::I, Ending::I),
            NounStemType::Type4 => Endings::Forms(Ending::I, Ending::I),
            NounStemType::Type5 => Endings::Forms(Ending::Y, Ending::Y),
            NounStemType::Type6 => Endings::Forms(Ending::I, Ending::I),
            NounStemType::Type7 => Endings::Forms(Ending::I, Ending::I),
            NounStemType::Type8 => Endings::Forms(Ending::I, Ending::I),
        },
        (Case::Genitive, Number::Plural, Gender::Masculine) => match stem_type {
            NounStemType::Type1 => Endings::Forms(Ending::OV, Ending::OV),
            NounStemType::Type2 => Endings::Forms(Ending::YeIy, Ending::YeIy),
            NounStemType::Type3 => Endings::Forms(Ending::OV, Ending::OV),
            NounStemType::Type4 => Endings::Forms(Ending::YeIy, Ending::YeIy),
            NounStemType::Type5 => Endings::Forms(Ending::YeV, Ending::OV),
            NounStemType::Type6 => Endings::Forms(Ending::YeV, Ending::YoV),
            NounStemType::Type7 => Endings::Forms(Ending::YeV, Ending::YoV),
            NounStemType::Type8 => Endings::Forms(Ending::YeIy, Ending::YeIy),
        },
        (Case::Genitive, Number::Plural, Gender::Neuter) => match stem_type {
            NounStemType::Type1 => Endings::Forms(Ending::Empty, Ending::Empty),
            NounStemType::Type2 => Endings::Forms(Ending::SoftSign, Ending::YeIy),
            NounStemType::Type3 => Endings::Forms(Ending::Empty, Ending::Empty),
            NounStemType::Type4 => Endings::Forms(Ending::Empty, Ending::YeIy),
            NounStemType::Type5 => Endings::Forms(Ending::Empty, Ending::Empty),
            NounStemType::Type6 => Endings::Forms(Ending::Iy, Ending::Iy),
            NounStemType::Type7 => Endings::Forms(Ending::Iy, Ending::Iy),
            NounStemType::Type8 => Endings::Forms(Ending::Empty, Ending::Empty),
        },
        (Case::Genitive, Number::Plural, Gender::Feminine) => match stem_type {
            NounStemType::Type1 => Endings::Forms(Ending::Empty, Ending::Empty),
            NounStemType::Type2 => Endings::Forms(Ending::SoftSign, Ending::YeIy),
            NounStemType::Type3 => Endings::Forms(Ending::Empty, Ending::Empty),
            NounStemType::Type4 => Endings::Forms(Ending::Empty, Ending::YeIy),
            NounStemType::Type5 => Endings::Forms(Ending::Empty, Ending::Empty),
            NounStemType::Type6 => Endings::Forms(Ending::Iy, Ending::Iy),
            NounStemType::Type7 => Endings::Forms(Ending::Iy, Ending::Iy),
            NounStemType::Type8 => Endings::Forms(Ending::YeIy, Ending::YeIy),
        },
        (Case::Dative, Number::Singular, Gender::Masculine) => match stem_type {
            NounStemType::Type1 => Endings::Forms(Ending::U, Ending::U),
            NounStemType::Type2 => Endings::Forms(Ending::Yu, Ending::Yu),
            NounStemType::Type3 => Endings::Forms(Ending::U, Ending::U),
            NounStemType::Type4 => Endings::Forms(Ending::U, Ending::U),
            NounStemType::Type5 => Endings::Forms(Ending::U, Ending::U),
            NounStemType::Type6 => Endings::Forms(Ending::Yu, Ending::Yu),
            NounStemType::Type7 => Endings::Forms(Ending::Yu, Ending::Yu),
            NounStemType::Type8 => Endings::Forms(Ending::I, Ending::I),
        },
        (Case::Dative, Number::Singular, Gender::Neuter) => match stem_type {
            NounStemType::Type1 => Endings::Forms(Ending::U, Ending::U),
            NounStemType::Type2 => Endings::Forms(Ending::Yu, Ending::Yu),
            NounStemType::Type3 => Endings::Forms(Ending::U, Ending::U),
            NounStemType::Type4 => Endings::Forms(Ending::U, Ending::U),
            NounStemType::Type5 => Endings::Forms(Ending::U, Ending::U),
            NounStemType::Type6 => Endings::Forms(Ending::Yu, Ending::Yu),
            NounStemType::Type7 => Endings::Forms(Ending::Yu, Ending::Yu),
            NounStemType::Type8 => Endings::Forms(Ending::U, Ending::U),
        },
        (Case::Dative, Number::Singular, Gender::Feminine) => match stem_type {
            NounStemType::Type1 => Endings::Forms(Ending::Ye, Ending::Ye),
            NounStemType::Type2 => Endings::Forms(Ending::Ye, Ending::Ye),
            NounStemType::Type3 => Endings::Forms(Ending::Ye, Ending::Ye),
            NounStemType::Type4 => Endings::Forms(Ending::Ye, Ending::Ye),
            NounStemType::Type5 => Endings::Forms(Ending::Ye, Ending::Ye),
            NounStemType::Type6 => Endings::Forms(Ending::Ye, Ending::Ye),
            NounStemType::Type7 => Endings::Forms(Ending::I, Ending::Ye),
            NounStemType::Type8 => Endings::Forms(Ending::I, Ending::I),
        },
        (Case::Dative, Number::Plural, Gender::Masculine) => match stem_type {
            NounStemType::Type1 => Endings::Forms(Ending::AM, Ending::AM),
            NounStemType::Type2 => Endings::Forms(Ending::YaM, Ending::YaM),
            NounStemType::Type3 => Endings::Forms(Ending::AM, Ending::AM),
            NounStemType::Type4 => Endings::Forms(Ending::AM, Ending::AM),
            NounStemType::Type5 => Endings::Forms(Ending::AM, Ending::AM),
            NounStemType::Type6 => Endings::Forms(Ending::YaM, Ending::YaM),
            NounStemType::Type7 => Endings::Forms(Ending::YaM, Ending::YaM),
            NounStemType::Type8 => Endings::Forms(Ending::YaM, Ending::YaM),
        },
        (Case::Dative, Number::Plural, Gender::Neuter) => match stem_type {
            NounStemType::Type1 => Endings::Forms(Ending::AM, Ending::AM),
            NounStemType::Type2 => Endings::Forms(Ending::YaM, Ending::YaM),
            NounStemType::Type3 => Endings::Forms(Ending::AM, Ending::AM),
            NounStemType::Type4 => Endings::Forms(Ending::AM, Ending::AM),
            NounStemType::Type5 => Endings::Forms(Ending::AM, Ending::AM),
            NounStemType::Type6 => Endings::Forms(Ending::YaM, Ending::YaM),
            NounStemType::Type7 => Endings::Forms(Ending::YaM, Ending::YaM),
            NounStemType::Type8 => Endings::Forms(Ending::AM, Ending::AM),
        },
        (Case::Dative, Number::Plural, Gender::Feminine) => match stem_type {
            NounStemType::Type1 => Endings::Forms(Ending::AM, Ending::AM),
            NounStemType::Type2 => Endings::Forms(Ending::YaM, Ending::YaM),
            NounStemType::Type3 => Endings::Forms(Ending::AM, Ending::AM),
            NounStemType::Type4 => Endings::Forms(Ending::AM, Ending::AM),
            NounStemType::Type5 => Endings::Forms(Ending::AM, Ending::AM),
            NounStemType::Type6 => Endings::Forms(Ending::YaM, Ending::YaM),
            NounStemType::Type7 => Endings::Forms(Ending::YaM, Ending::YaM),
            NounStemType::Type8 => Endings::Forms(Ending::YaM, Ending::YaM),
        },
        (Case::Accusative, Number::Singular, Gender::Masculine) => match stem_type {
            NounStemType::Type1 => Endings::Acc,
            NounStemType::Type2 => Endings::Acc,
            NounStemType::Type3 => Endings::Acc,
            NounStemType::Type4 => Endings::Acc,
            NounStemType::Type5 => Endings::Acc,
            NounStemType::Type6 => Endings::Acc,
            NounStemType::Type7 => Endings::Acc,
            NounStemType::Type8 => Endings::Acc,
        },
        (Case::Accusative, Number::Singular, Gender::Neuter) => match stem_type {
            NounStemType::Type1 => Endings::Acc,
            NounStemType::Type2 => Endings::Acc,
            NounStemType::Type3 => Endings::Acc,
            NounStemType::Type4 => Endings::Acc,
            NounStemType::Type5 => Endings::Acc,
            NounStemType::Type6 => Endings::Acc,
            NounStemType::Type7 => Endings::Acc,
            NounStemType::Type8 => Endings::Acc,
        },
        (Case::Accusative, Number::Singular, Gender::Feminine) => match stem_type {
            NounStemType::Type1 => Endings::Forms(Ending::U, Ending::U),
            NounStemType::Type2 => Endings::Forms(Ending::Yu, Ending::Yu),
            NounStemType::Type3 => Endings::Forms(Ending::U, Ending::U),
            NounStemType::Type4 => Endings::Forms(Ending::U, Ending::U),
            NounStemType::Type5 => Endings::Forms(Ending::U, Ending::U),
            NounStemType::Type6 => Endings::Forms(Ending::Yu, Ending::Yu),
            NounStemType::Type7 => Endings::Forms(Ending::Yu, Ending::Yu),
            NounStemType::Type8 => Endings::Forms(Ending::SoftSign, Ending::SoftSign),
        },
        (Case::Accusative, Number::Plural, Gender::Masculine) => match stem_type {
            NounStemType::Type1 => Endings::Acc,
            NounStemType::Type2 => Endings::Acc,
            NounStemType::Type3 => Endings::Acc,
            NounStemType::Type4 => Endings::Acc,
            NounStemType::Type5 => Endings::Acc,
            NounStemType::Type6 => Endings::Acc,
            NounStemType::Type7 => Endings::Acc,
            NounStemType::Type8 => Endings::Acc,
        },
        (Case::Accusative, Number::Plural, Gender::Neuter) => match stem_type {
            NounStemType::Type1 => Endings::Acc,
            NounStemType::Type2 => Endings::Acc,
            NounStemType::Type3 => Endings::Acc,
            NounStemType::Type4 => Endings::Acc,
            NounStemType::Type5 => Endings::Acc,
            NounStemType::Type6 => Endings::Acc,
            NounStemType::Type7 => Endings::Acc,
            NounStemType::Type8 => Endings::Acc,
        },
        (Case::Accusative, Number::Plural, Gender::Feminine) => match stem_type {
            NounStemType::Type1 => Endings::Acc,
            NounStemType::Type2 => Endings::Acc,
            NounStemType::Type3 => Endings::Acc,
            NounStemType::Type4 => Endings::Acc,
            NounStemType::Type5 => Endings::Acc,
            NounStemType::Type6 => Endings::Acc,
            NounStemType::Type7 => Endings::Acc,
            NounStemType::Type8 => Endings::Acc,
        },
        (Case::Instrumental, Number::Singular, Gender::Masculine) => match stem_type {
            NounStemType::Type1 => Endings::Forms(Ending::OM, Ending::OM),
            NounStemType::Type2 => Endings::Forms(Ending::YeM, Ending::YoM),
            NounStemType::Type3 => Endings::Forms(Ending::OM, Ending::OM),
            NounStemType::Type4 => Endings::Forms(Ending::YeM, Ending::OM),
            NounStemType::Type5 => Endings::Forms(Ending::YeM, Ending::OM),
            NounStemType::Type6 => Endings::Forms(Ending::YeM, Ending::YoM),
            NounStemType::Type7 => Endings::Forms(Ending::YeM, Ending::YoM),
            NounStemType::Type8 => Endings::Forms(Ending::YeM, Ending::YoM),
        },
        (Case::Instrumental, Number::Singular, Gender::Neuter) => match stem_type {
            NounStemType::Type1 => Endings::Forms(Ending::OM, Ending::OM),
            NounStemType::Type2 => Endings::Forms(Ending::YeM, Ending::YoM),
            NounStemType::Type3 => Endings::Forms(Ending::OM, Ending::OM),
            NounStemType::Type4 => Endings::Forms(Ending::YeM, Ending::OM),
            NounStemType::Type5 => Endings::Forms(Ending::YeM, Ending::OM),
            NounStemType::Type6 => Endings::Forms(Ending::YeM, Ending::YoM),
            NounStemType::Type7 => Endings::Forms(Ending::YeM, Ending::YoM),
            NounStemType::Type8 => Endings::Forms(Ending::OM, Ending::OM),
        },
        (Case::Instrumental, Number::Singular, Gender::Feminine) => match stem_type {
            NounStemType::Type1 => Endings::Forms(Ending::OIy, Ending::OIy),
            NounStemType::Type2 => Endings::Forms(Ending::YeIy, Ending::YoIy),
            NounStemType::Type3 => Endings::Forms(Ending::OIy, Ending::OIy),
            NounStemType::Type4 => Endings::Forms(Ending::YeIy, Ending::OIy),
            NounStemType::Type5 => Endings::Forms(Ending::YeIy, Ending::OIy),
            NounStemType::Type6 => Endings::Forms(Ending::YeIy, Ending::YoIy),
            NounStemType::Type7 => Endings::Forms(Ending::YeIy, Ending::YoIy),
            NounStemType::Type8 => Endings::Forms(Ending::SoftSignYu, Ending::SoftSignYu),
        },
        (Case::Instrumental, Number::Plural, Gender::Masculine) => match stem_type {
            NounStemType::Type1 => Endings::Forms(Ending::AMI, Ending::AMI),
            NounStemType::Type2 => Endings::Forms(Ending::YaMI, Ending::YaMI),
            NounStemType::Type3 => Endings::Forms(Ending::AMI, Ending::AMI),
            NounStemType::Type4 => Endings::Forms(Ending::AMI, Ending::AMI),
            NounStemType::Type5 => Endings::Forms(Ending::AMI, Ending::AMI),
            NounStemType::Type6 => Endings::Forms(Ending::YaMI, Ending::YaMI),
            NounStemType::Type7 => Endings::Forms(Ending::YaMI, Ending::YaMI),
            NounStemType::Type8 => Endings::Forms(Ending::YaMI, Ending::YaMI),
        },
        (Case::Instrumental, Number::Plural, Gender::Neuter) => match stem_type {
            NounStemType::Type1 => Endings::Forms(Ending::AMI, Ending::AMI),
            NounStemType::Type2 => Endings::Forms(Ending::YaMI, Ending::YaMI),
            NounStemType::Type3 => Endings::Forms(Ending::AMI, Ending::AMI),
            NounStemType::Type4 => Endings::Forms(Ending::AMI, Ending::AMI),
            NounStemType::Type5 => Endings::Forms(Ending::AMI, Ending::AMI),
            NounStemType::Type6 => Endings::Forms(Ending::YaMI, Ending::YaMI),
            NounStemType::Type7 => Endings::Forms(Ending::YaMI, Ending::YaMI),
            NounStemType::Type8 => Endings::Forms(Ending::AMI, Ending::AMI),
        },
        (Case::Instrumental, Number::Plural, Gender::Feminine) => match stem_type {
            NounStemType::Type1 => Endings::Forms(Ending::AMI, Ending::AMI),
            NounStemType::Type2 => Endings::Forms(Ending::YaMI, Ending::YaMI),
            NounStemType::Type3 => Endings::Forms(Ending::AMI, Ending::AMI),
            NounStemType::Type4 => Endings::Forms(Ending::AMI, Ending::AMI),
            NounStemType::Type5 => Endings::Forms(Ending::AMI, Ending::AMI),
            NounStemType::Type6 => Endings::Forms(Ending::YaMI, Ending::YaMI),
            NounStemType::Type7 => Endings::Forms(Ending::YaMI, Ending::YaMI),
            NounStemType::Type8 => Endings::Forms(Ending::YaMI, Ending::YaMI),
        },
        (Case::Prepositional, Number::Singular, Gender::Masculine) => match stem_type {
            NounStemType::Type1 => Endings::Forms(Ending::Ye, Ending::Ye),
            NounStemType::Type2 => Endings::Forms(Ending::Ye, Ending::Ye),
            NounStemType::Type3 => Endings::Forms(Ending::Ye, Ending::Ye),
            NounStemType::Type4 => Endings::Forms(Ending::Ye, Ending::Ye),
            NounStemType::Type5 => Endings::Forms(Ending::Ye, Ending::Ye),
            NounStemType::Type6 => Endings::Forms(Ending::Ye, Ending::Ye),
            NounStemType::Type7 => Endings::Forms(Ending::I, Ending::Ye),
            NounStemType::Type8 => Endings::Forms(Ending::I, Ending::I),
        },
        (Case::Prepositional, Number::Singular, Gender::Neuter) => match stem_type {
            NounStemType::Type1 => Endings::Forms(Ending::Ye, Ending::Ye),
            NounStemType::Type2 => Endings::Forms(Ending::Ye, Ending::Ye),
            NounStemType::Type3 => Endings::Forms(Ending::Ye, Ending::Ye),
            NounStemType::Type4 => Endings::Forms(Ending::Ye, Ending::Ye),
            NounStemType::Type5 => Endings::Forms(Ending::Ye, Ending::Ye),
            NounStemType::Type6 => Endings::Forms(Ending::Ye, Ending::Ye),
            NounStemType::Type7 => Endings::Forms(Ending::I, Ending::Ye),
            NounStemType::Type8 => Endings::Forms(Ending::I, Ending::I),
        },
        (Case::Prepositional, Number::Singular, Gender::Feminine) => match stem_type {
            NounStemType::Type1 => Endings::Forms(Ending::Ye, Ending::Ye),
            NounStemType::Type2 => Endings::Forms(Ending::Ye, Ending::Ye),
            NounStemType::Type3 => Endings::Forms(Ending::Ye, Ending::Ye),
            NounStemType::Type4 => Endings::Forms(Ending::Ye, Ending::Ye),
            NounStemType::Type5 => Endings::Forms(Ending::Ye, Ending::Ye),
            NounStemType::Type6 => Endings::Forms(Ending::Ye, Ending::Ye),
            NounStemType::Type7 => Endings::Forms(Ending::I, Ending::Ye),
            NounStemType::Type8 => Endings::Forms(Ending::I, Ending::I),
        },
        (Case::Prepositional, Number::Plural, Gender::Masculine) => match stem_type {
            NounStemType::Type1 => Endings::Forms(Ending::AKh, Ending::AKh),
            NounStemType::Type2 => Endings::Forms(Ending::YaKh, Ending::YaKh),
            NounStemType::Type3 => Endings::Forms(Ending::AKh, Ending::AKh),
            NounStemType::Type4 => Endings::Forms(Ending::AKh, Ending::AKh),
            NounStemType::Type5 => Endings::Forms(Ending::AKh, Ending::AKh),
            NounStemType::Type6 => Endings::Forms(Ending::YaKh, Ending::YaKh),
            NounStemType::Type7 => Endings::Forms(Ending::YaKh, Ending::YaKh),
            NounStemType::Type8 => Endings::Forms(Ending::YaKh, Ending::YaKh),
        },
        (Case::Prepositional, Number::Plural, Gender::Neuter) => match stem_type {
            NounStemType::Type1 => Endings::Forms(Ending::AKh, Ending::AKh),
            NounStemType::Type2 => Endings::Forms(Ending::YaKh, Ending::YaKh),
            NounStemType::Type3 => Endings::Forms(Ending::AKh, Ending::AKh),
            NounStemType::Type4 => Endings::Forms(Ending::AKh, Ending::AKh),
            NounStemType::Type5 => Endings::Forms(Ending::AKh, Ending::AKh),
            NounStemType::Type6 => Endings::Forms(Ending::YaKh, Ending::YaKh),
            NounStemType::Type7 => Endings::Forms(Ending::YaKh, Ending::YaKh),
            NounStemType::Type8 => Endings::Forms(Ending::AKh, Ending::AKh),
        },
        (Case::Prepositional, Number::Plural, Gender::Feminine) => match stem_type {
            NounStemType::Type1 => Endings::Forms(Ending::AKh, Ending::AKh),
            NounStemType::Type2 => Endings::Forms(Ending::YaKh, Ending::YaKh),
            NounStemType::Type3 => Endings::Forms(Ending::AKh, Ending::AKh),
            NounStemType::Type4 => Endings::Forms(Ending::AKh, Ending::AKh),
            NounStemType::Type5 => Endings::Forms(Ending::AKh, Ending::AKh),
            NounStemType::Type6 => Endings::Forms(Ending::YaKh, Ending::YaKh),
            NounStemType::Type7 => Endings::Forms(Ending::YaKh, Ending::YaKh),
            NounStemType::Type8 => Endings::Forms(Ending::YaKh, Ending::YaKh),
        },
    }
}

/// The endings of pronouns by case (`form` 0-5), gender or plural (`slot` 0-3: masculine,
/// neuter, feminine, plural) and stem type.
pub open spec fn spec_pronoun_endings(form: u8, slot: u8, stem_type: PronounStemType) -> Endings
{
    match (form, slot) {
        (0, 0) => match stem_type {
            PronounStemType::Type1 => Endings::Forms(Ending::Empty, Ending::Empty),
            PronounStemType::Type2 => Endings::Forms(Ending::SoftSign, Ending::SoftSign),
            PronounStemType::Type4 => Endings::Forms(Ending::Empty, Ending::Empty),
            PronounStemType::Type6 => Endings::Forms(Ending::Iy, Ending::Iy),
        },
        (0, 1) => match stem_type {
            PronounStemType::Type1 => Endings::Forms(Ending::O, Ending::O),
            PronounStemType::Type2 => Endings::Forms(Ending::Ye, Ending::Yo),
            PronounStemType::Type4 => Endings::Forms(Ending::Ye, Ending::O),
            PronounStemType::Type6 => Endings::Forms(Ending::Ye, Ending::Yo),
        },
        (0, 2) => match stem_type {
            PronounStemType::Type1 => Endings::Forms(Ending::A, Ending::A),
            PronounStemType::Type2 => Endings::Forms(Ending::Ya, Ending::Ya),
            PronounStemType::Type4 => Endings::Forms(Ending::A, Ending::A),
            PronounStemType::Type6 => Endings::Forms(Ending::Ya, Ending::Ya),
        },
        (0, 3) => match stem_type {
            PronounStemType::Type1 => Endings::Forms(Ending::Y, Ending::Y),
            PronounStemType::Type2 => Endings::Forms(Ending::I, Ending::I),
            PronounStemType::Type4 => Endings::Forms(Ending::I, Ending::I),
            PronounStemType::Type6 => Endings::Forms(Ending::I, Ending::I),
        },
        (1, 0) => match stem_type {
            PronounStemType::Type1 => Endings::Forms(Ending::A, Ending::A),
            PronounStemType::Type2 => Endings::Forms(Ending::Ya, Ending::Ya),
            PronounStemType::Type4 => Endings::Forms(Ending::YeGO, Ending::OGO),
            PronounStemType::Type6 => Endings::Forms(Ending::YeGO, Ending::YeGO),
        },
        (1, 1) => match stem_type {
            PronounStemType::Type1 => Endings::Forms(Ending::A, Ending::A),
            PronounStemType::Type2 => Endings::Forms(Ending::Ya, Ending::Ya),
            PronounStemType::Type4 => Endings::Forms(Ending::YeGO, Ending::OGO),
            PronounStemType::Type6 => Endings::Forms(Ending::YeGO, Ending::YeGO),
        },
        (1, 2) => match stem_type {
            PronounStemType::Type1 => Endings::Forms(Ending::OIy, Ending::OIy),
            PronounStemType::Type2 => Endings::Forms(Ending::YeIy, Ending::YeIy),
            PronounStemType::Type4 => Endings::Forms(Ending::YeIy, Ending::OIy),
            PronounStemType::Type6 => Endings::Forms(Ending::YeIy, Ending::YeIy),
        },
        (1, 3) => match stem_type {
            PronounStemType::Type1 => Endings::Forms(Ending::YKh, Ending::YKh),
            PronounStemType::Type2 => Endings::Forms(Ending::IKh, Ending::IKh),
            PronounStemType::Type4 => Endings::Forms(Ending::IKh, Ending::IKh),
            PronounStemType::Type6 => Endings::Forms(Ending::IKh, Ending::IKh),
        },
        (2, 0) => match stem_type {
            PronounStemType::Type1 => Endings::Forms(Ending::U, Ending::U),
            PronounStemType::Type2 => Endings::Forms(Ending::Yu, Ending::Yu),
            PronounStemType::Type4 => Endings::Forms(Ending::YeMU, Ending::OMU),
            PronounStemType::Type6 => Endings::Forms(Ending::YeMU, Ending::YeMU),
        },
        (2, 1) => match stem_type {
            PronounStemType::Type1 => Endings::Forms(Ending::U, Ending::U),
            PronounStemType::Type2 => Endings::Forms(Ending::Yu, Ending::Yu),
            PronounStemType::Type4 => Endings::Forms(Ending::YeMU, Ending::OMU),
            PronounStemType::Type6 => Endings::Forms(Ending::YeMU, Ending::YeMU),
        },
        (2, 2) => match stem_type {
            PronounStemType::Type1 => Endings::Forms(Ending::OIy, Ending::OIy),
            PronounStemType::Type2 => Endings::Forms(Ending::YeIy, Ending::YeIy),
            PronounStemType::Type4 => Endings::Forms(Ending::YeIy, Ending::OIy),
            PronounStemType::Type6 => Endings::Forms(Ending::YeIy, Ending::YeIy),
        },
        (2, 3) => match stem_type {
            PronounStemType::Type1 => Endings::Forms(Ending::YM, Ending::YM),
            PronounStemType::Type2 => Endings::Forms(Ending::IM, Ending::IM),
            PronounStemType::Type4 => Endings::Forms(Ending::IM, Ending::IM),
            PronounStemType::Type6 => Endings::Forms(Ending::IM, Ending::IM),
        },
        (3, 0) => match stem_type {
            PronounStemType::Type1 => Endings::Acc,
            PronounStemType::Type2 => Endings::Acc,
            PronounStemType::Type4 => Endings::Acc,
            PronounStemType::Type6 => Endings::Acc,
        },
        (3, 1) => match stem_type {
            PronounStemType::Type1 => Endings::Acc,
            PronounStemType::Type2 => Endings::Acc,
            PronounStemType::Type4 => Endings::Acc,
            PronounStemType::Type6 => Endings::Acc,
        },
        (3, 2) => match stem_type {
            PronounStemType::Type1 => Endings::Forms(Ending::U, Ending::U),
            PronounStemType::Type2 => Endings::Forms(Ending::Yu, Ending::Yu),
            PronounStemType::Type4 => Endings::Forms(Ending::U, Ending::U),
            PronounStemType::Type6 => Endings::Forms(Ending::Yu, Ending::Yu),
        },
        (3, 3) => match stem_type {
            PronounStemType::Type1 => Endings::Acc,
            PronounStemType::Type2 => Endings::Acc,
            PronounStemType::Type4 => Endings::Acc,
            PronounStemType::Type6 => Endings::Acc,
        },
        (4, 0) => match stem_type {
            PronounStemType::Type1 => Endings::Forms(Ending::YM, Ending::YM),
            PronounStemType::Type2 => Endings::Forms(Ending::IM, Ending::IM),
            PronounStemType::Type4 => Endings::Forms(Ending::IM, Ending::IM),
            PronounStemType::Type6 => Endings::Forms(Ending::IM, Ending::IM),
        },
        (4, 1) => match stem_type {
            PronounStemType::Type1 => Endings::Forms(Ending::YM, Ending::YM),
            PronounStemType::Type2 => Endings::Forms(Ending::IM, Ending::IM),
            PronounStemType::Type4 => Endings::Forms(Ending::IM, Ending::IM),
            PronounStemType::Type6 => Endings::Forms(Ending::IM, Ending::IM),
        },
        (4, 2) => match stem_type {
            PronounStemType::Type1 => Endings::Forms(Ending::OIy, Ending::OIy),
            PronounStemType::Type2 => Endings::Forms(Ending::YeIy, Ending::YeIy),
            PronounStemType::Type4 => Endings::Forms(Ending::YeIy, Ending::OIy),
            PronounStemType::Type6 => Endings::Forms(Ending::YeIy, Ending::YeIy),
        },
        (4, 3) => match stem_type {
            PronounStemType::Type1 => Endings::Forms(Ending::YMI, Ending::YMI),
            PronounStemType::Type2 => Endings::Forms(Ending::IMI, Ending::IMI),
            PronounStemType::Type4 => Endings::Forms(Ending::IMI, Ending::IMI),
            PronounStemType::Type6 => Endings::Forms(Ending::IMI, Ending::IMI),
        },
        (5, 0) => match stem_type {
            PronounStemType::Type1 => Endings::Forms(Ending::OM, Ending::OM),
            PronounStemType::Type2 => Endings::Forms(Ending::YeM, Ending::YoM),
            PronounStemType::Type4 => Endings::Forms(Ending::YeM, Ending::OM),
            PronounStemType::Type6 => Endings::Forms(Ending::YeM, Ending::YoM),
        },
        (5, 1) => match stem_type {
            PronounStemType::Type1 => Endings::Forms(Ending::OM, Ending::OM),
            PronounStemType::Type2 => Endings::Forms(Ending::YeM, Ending::YoM),
            PronounStemType::Type4 => Endings::Forms(Ending::YeM, Ending::OM),
            PronounStemType::Type6 => Endings::Forms(Ending::YeM, Ending::YoM),
        },
        (5, 2) => match stem_type {
            PronounStemType::Type1 => Endings::Forms(Ending::OIy, Ending::OIy),
            PronounStemType::Type2 => Endings::Forms(Ending::YeIy, Ending::YeIy),
            PronounStemType::Type4 => Endings::Forms(Ending::YeIy, Ending::OIy),
            PronounStemType::Type6 => Endings::Forms(Ending::YeIy, Ending::YeIy),
        },
        (5, 3) => match stem_type {
            PronounStemType::Type1 => Endings::Forms(Ending::YKh, Ending::YKh),
            PronounStemType::Type2 => Endings::Forms(Ending::IKh, Ending::IKh),
            PronounStemType::Type4 => Endings::Forms(Ending::IKh, Ending::IKh),
            PronounStemType::Type6 => Endings::Forms(Ending::IKh, Ending::IKh),
        },
        _ => Endings::Acc,
    }
}

/// Looks up the endings of pronouns by case, gender or plural, and stem type.
fn pronoun_endings(form: u8, slot: u8, stem_type: PronounStemType) -> (r: Endings)
    requires
        form < 6,
        slot < 4,
    ensures
        r == spec_pronoun_endings(form, slot, stem_type),
{
    match (form, slot) {
        (0, 0) => match stem_type {
            PronounStemType::Type1 => Endings::Forms(Ending::Empty, Ending::Empty),
            PronounStemType::Type2 => Endings::Forms(Ending::SoftSign, Ending::SoftSign),
            PronounStemType::Type4 => Endings::Forms(Ending::Empty, Ending::Empty),
            PronounStemType::Type6 => Endings::Forms(Ending::Iy, Ending::Iy),
        },
        (0, 1) => match stem_type {
            PronounStemType::Type1 => Endings::Forms(Ending::O, Ending::O),
            PronounStemType::Type2 => Endings::Forms(Ending::Ye, Ending::Yo),
            PronounStemType::Type4 => Endings::Forms(Ending::Ye, Ending::O),
            PronounStemType::Type6 => Endings::Forms(Ending::Ye, Ending::Yo),
        },
        (0, 2) => match stem_type {
            PronounStemType::Type1 => Endings::Forms(Ending::A, Ending::A),
            PronounStemType::Type2 => Endings::Forms(Ending::Ya, Ending::Ya),
            PronounStemType::Type4 => Endings::Forms(Ending::A, Ending::A),
            PronounStemType::Type6 => Endings::Forms(Ending::Ya, Ending::Ya),
        },
        (0, 3) => match stem_type {
            PronounStemType::Type1 => Endings::Forms(Ending::Y, Ending::Y),
            PronounStemType::Type2 => Endings::Forms(Ending::I, Ending::I),
            PronounStemType::Type4 => Endings::Forms(Ending::I, Ending::I),
            PronounStemType::Type6 => Endings::Forms(Ending::I, Ending::I),
        },
        (1, 0) => match stem_type {
            PronounStemType::Type1 => Endings::Forms(Ending::A, Ending::A),
            PronounStemType::Type2 => Endings::Forms(Ending::Ya, Ending::Ya),
            PronounStemType::Type4 => Endings::Forms(Ending::YeGO, Ending::OGO),
            PronounStemType::Type6 => Endings::Forms(Ending::YeGO, Ending::YeGO),
        },
        (1, 1) => match stem_type {
            PronounStemType::Type1 => Endings::Forms(Ending::A, Ending::A),
            PronounStemType::Type2 => Endings::Forms(Ending::Ya, Ending::Ya),
            PronounStemType::Type4 => Endings::Forms(Ending::YeGO, Ending::OGO),
            PronounStemType::Type6 => Endings::Forms(Ending::YeGO, Ending::YeGO),
        },
        (1, 2) => match stem_type {
            PronounStemType::Type1 => Endings::Forms(Ending::OIy, Ending::OIy),
            PronounStemType::Type2 => Endings::Forms(Ending::YeIy, Ending::YeIy),
            PronounStemType::Type4 => Endings::Forms(Ending::YeIy, Ending::OIy),
            PronounStemType::Type6 => Endings::Forms(Ending::YeIy, Ending::YeIy),
        },
        (1, 3) => match stem_type {
            PronounStemType::Type1 => Endings::Forms(Ending::YKh, Ending::YKh),
            PronounStemType::Type2 => Endings::Forms(Ending::IKh, Ending::IKh),
            PronounStemType::Type4 => Endings::Forms(Ending::IKh, Ending::IKh),
            PronounStemType::Type6 => Endings::Forms(Ending::IKh, Ending::IKh),
        },
        (2, 0) => match stem_type {
            PronounStemType::Type1 => Endings::Forms(Ending::U, Ending::U),
            PronounStemType::Type2 => Endings::Forms(Ending::Yu, Ending::Yu),
            PronounStemType::Type4 => Endings::Forms(Ending::YeMU, Ending::OMU),
            PronounStemType::Type6 => Endings::Forms(Ending::YeMU, Ending::YeMU),
        },
        (2, 1) => match stem_type {
            PronounStemType::Type1 => Endings::Forms(Ending::U, Ending::U),
            PronounStemType::Type2 => Endings::Forms(Ending::Yu, Ending::Yu),
            PronounStemType::Type4 => Endings::Forms(Ending::YeMU, Ending::OMU),
            PronounStemType::Type6 => Endings::Forms(Ending::YeMU, Ending::YeMU),
        },
        (2, 2) => match stem_type {
            PronounStemType::Type1 => Endings::Forms(Ending::OIy, Ending::OIy),
            PronounStemType::Type2 => Endings::Forms(Ending::YeIy, Ending::YeIy),
            PronounStemType::Type4 => Endings::Forms(Ending::YeIy, Ending::OIy),
            PronounStemType::Type6 => Endings::Forms(Ending::YeIy, Ending::YeIy),
        },
        (2, 3) => match stem_type {
            PronounStemType::Type1 => Endings::Forms(Ending::YM, Ending::YM),
            PronounStemType::Type2 => Endings::Forms(Ending::IM, Ending::IM),
            PronounStemType::Type4 => Endings::Forms(Ending::IM, Ending::IM),
            PronounStemType::Type6 => Endings::Forms(Ending::IM, Ending::IM),
        },
        (3, 0) => match stem_type {
            PronounStemType::Type1 => Endings::Acc,
            PronounStemType::Type2 => Endings::Acc,
            PronounStemType::Type4 => Endings::Acc,
            PronounStemType::Type6 => Endings::Acc,
        },
        (3, 1) => match stem_type {
            PronounStemType::Type1 => Endings::Acc,
            PronounStemType::Type2 => Endings::Acc,
            PronounStemType::Type4 => Endings::Acc,
            PronounStemType::Type6 => Endings::Acc,
        },
        (3, 2) => match stem_type {
            PronounStemType::Type1 => Endings::Forms(Ending::U, Ending::U),
            PronounStemType::Type2 => Endings::Forms(Ending::Yu, Ending::Yu),
            PronounStemType::Type4 => Endings::Forms(Ending::U, Ending::U),
            PronounStemType::Type6 => Endings::Forms(Ending::Yu, Ending::Yu),
        },
        (3, 3) => match stem_type {
            PronounStemType::Type1 => Endings::Acc,
            PronounStemType::Type2 => Endings::Acc,
            PronounStemType::Type4 => Endings::Acc,
            PronounStemType::Type6 => Endings::Acc,
        },
        (4, 0) => match stem_type {
            PronounStemType::Type1 => Endings::Forms(Ending::YM, Ending::YM),
            PronounStemType::Type2 => Endings::Forms(Ending::IM, Ending::IM),
            PronounStemType::Type4 => Endings::Forms(Ending::IM, Ending::IM),
            PronounStemType::Type6 => Endings::Forms(Ending::IM, Ending::IM),
        },
        (4, 1) => match stem_type {
            PronounStemType::Type1 => Endings::Forms(Ending::YM, Ending::YM),
            PronounStemType::Type2 => Endings::Forms(Ending::IM, Ending::IM),
            PronounStemType::Type4 => Endings::Forms(Ending::IM, Ending::IM),
            PronounStemType::Type6 => Endings::Forms(Ending::IM, Ending::IM),
        },
        (4, 2) => match stem_type {
            PronounStemType::Type1 => Endings::Forms(Ending::OIy, Ending::OIy),
            PronounStemType::Type2 => Endings::Forms(Ending::YeIy, Ending::YeIy),
            PronounStemType::Type4 => Endings::Forms(Ending::YeIy, Ending::OIy),
            PronounStemType::Type6 => Endings::Forms(Ending::YeIy, Ending::YeIy),
        },
        (4, 3) => match stem_type {
            PronounStemType::Type1 => Endings::Forms(Ending::YMI, Ending::YMI),
            PronounStemType::Type2 => Endings::Forms(Ending::IMI, Ending::IMI),
            PronounStemType::Type4 => Endings::Forms(Ending::IMI, Ending::IMI),
            PronounStemType::Type6 => Endings::Forms(Ending::IMI, Ending::IMI),
        },
        (5, 0) => match stem_type {
            PronounStemType::Type1 => Endings::Forms(Ending::OM, Ending::OM),
            PronounStemType::Type2 => Endings::Forms(Ending::YeM, Ending::YoM),
            PronounStemType::Type4 => Endings::Forms(Ending::YeM, Ending::OM),
            PronounStemType::Type6 => Endings::Forms(Ending::YeM, Ending::YoM),
        },
        (5, 1) => match stem_type {
            PronounStemType::Type1 => Endings::Forms(Ending::OM, Ending::OM),
            PronounStemType::Type2 => Endings::Forms(Ending::YeM, Ending::YoM),
            PronounStemType::Type4 => Endings::Forms(Ending::YeM, Ending::OM),
            PronounStemType::Type6 => Endings::Forms(Ending::YeM, Ending::YoM),
        },
        (5, 2) => match stem_type {
            PronounStemType::Type1 => Endings::Forms(Ending::OIy, Ending::OIy),
            PronounStemType::Type2 => Endings::Forms(Ending::YeIy, Ending::YeIy),
            PronounStemType::Type4 => Endings::Forms(Ending::YeIy, Ending::OIy),
            PronounStemType::Type6 => Endings::Forms(Ending::YeIy, Ending::YeIy),
        },
        (5, 3) => match stem_type {
            PronounStemType::Type1 => Endings::Forms(Ending::YKh, Ending::YKh),
            PronounStemType::Type2 => Endings::Forms(Ending::IKh, Ending::IKh),
            PronounStemType::Type4 => Endings::Forms(Ending::IKh, Ending::IKh),
            PronounStemType::Type6 => Endings::Forms(Ending::IKh, Ending::IKh),
        },
        _ => Endings::Acc,
    }
}

/// The endings of adjectives by case or short form (`form` 0-5 for the cases, 6 for the
/// short form), gender or plural (`slot` 0-3: masculine, neuter, feminine, plural) and stem
/// type.
pub open spec fn spec_adjective_endings(form: u8, slot: u8, stem_type: AdjectiveStemType) -> Endings
{
    match (form, slot) {
        (0, 0) => match stem_type {
            AdjectiveStemType::Type1 => Endings::Forms(Ending::YIy, Ending::OIy),
            AdjectiveStemType::Type2 => Endings::Forms(Ending::IIy, Ending::IIy),
            AdjectiveStemType::Type3 => Endings::Forms(Ending::IIy, Ending::OIy),
            AdjectiveStemType::Type4 => Endings::Forms(Ending::IIy, Ending::OIy),
            AdjectiveStemType::Type5 => Endings::Forms(Ending::YIy, Ending::OIy),
            AdjectiveStemType::Type6 => Endings::Forms(Ending::IIy, Ending::IIy),
        },
        (0, 1) => match stem_type {
            AdjectiveStemType::Type1 => Endings::Forms(Ending::OYe, Ending::OYe),
            AdjectiveStemType::Type2 => Endings::Forms(Ending::YeYe, Ending::YeYe),
            AdjectiveStemType::Type3 => Endings::Forms(Ending::OYe, Ending::OYe),
            AdjectiveStemType::Type4 => Endings::Forms(Ending::YeYe, Ending::OYe),
            AdjectiveStemType::Type5 => Endings::Forms(Ending::YeYe, Ending::OYe),
            AdjectiveStemType::Type6 => Endings::Forms(Ending::YeYe, Ending::YeYe),
        },
        (0, 2) => match stem_type {
            AdjectiveStemType::Type1 => Endings::Forms(Ending::AYa, Ending::AYa),
            AdjectiveStemType::Type2 => Endings::Forms(Ending::YaYa, Ending::YaYa),
            AdjectiveStemType::Type3 => Endings::Forms(Ending::AYa, Ending::AYa),
            AdjectiveStemType::Type4 => Endings::Forms(Ending::AYa, Ending::AYa),
            AdjectiveStemType::Type5 => Endings::Forms(Ending::AYa, Ending::AYa),
            AdjectiveStemType::Type6 => Endings::Forms(Ending::YaYa, Ending::YaYa),
        },
        (0, 3) => match stem_type {
            AdjectiveStemType::Type1 => Endings::Forms(Ending::YYe, Ending::YYe),
            AdjectiveStemType::Type2 => Endings::Forms(Ending::IYe, Ending::IYe),
            AdjectiveStemType::Type3 => Endings::Forms(Ending::IYe, Ending::IYe),
            AdjectiveStemType::Type4 => Endings::Forms(Ending::IYe, Ending::IYe),
            AdjectiveStemType::Type5 => Endings::Forms(Ending::YYe, Ending::YYe),
            AdjectiveStemType::Type6 => Endings::Forms(Ending::IYe, Ending::IYe),
        },
        (1, 0) => match stem_type {
            AdjectiveStemType::Type1 => Endings::Forms(Ending::OGO, Ending::OGO),
            AdjectiveStemType::Type2 => Endings::Forms(Ending::YeGO, Ending::YeGO),
            AdjectiveStemType::Type3 => Endings::Forms(Ending::OGO, Ending::OGO),
            AdjectiveStemType::Type4 => Endings::Forms(Ending::YeGO, Ending::OGO),
            AdjectiveStemType::Type5 => Endings::Forms(Ending::YeGO, Ending::OGO),
            AdjectiveStemType::Type6 => Endings::Forms(Ending::YeGO, Ending::YeGO),
        },
        (1, 1) => match stem_type {
            AdjectiveStemType::Type1 => Endings::Forms(Ending::OGO, Ending::OGO),
            AdjectiveStemType::Type2 => Endings::Forms(Ending::YeGO, Ending::YeGO),
            AdjectiveStemType::Type3 => Endings::Forms(Ending::OGO, Ending::OGO),
            AdjectiveStemType::Type4 => Endings::Forms(Ending::YeGO, Ending::OGO),
            AdjectiveStemType::Type5 => Endings::Forms(Ending::YeGO, Ending::OGO),
            AdjectiveStemType::Type6 => Endings::Forms(Ending::YeGO, Ending::YeGO),
        },
        (1, 2) => match stem_type {
            AdjectiveStemType::Type1 => Endings::Forms(Ending::OIy, Ending::OIy),
            AdjectiveStemType::Type2 => Endings::Forms(Ending::YeIy, Ending::YeIy),
            AdjectiveStemType::Type3 => Endings::Forms(Ending::OIy, Ending::OIy),
            AdjectiveStemType::Type4 => Endings::Forms(Ending::YeIy, Ending::OIy),
            AdjectiveStemType::Type5 => Endings::Forms(Ending::YeIy, Ending::OIy),
            AdjectiveStemType::Type6 => Endings::Forms(Ending::YeIy, Ending::YeIy),
        },
        (1, 3) => match stem_type {
            AdjectiveStemType::Type1 => Endings::Forms(Ending::YKh, Ending::YKh),
            AdjectiveStemType::Type2 => Endings::Forms(Ending::IKh, Ending::IKh),
            AdjectiveStemType::Type3 => Endings::Forms(Ending::IKh, Ending::IKh),
            AdjectiveStemType::Type4 => Endings::Forms(Ending::IKh, Ending::IKh),
            AdjectiveStemType::Type5 => Endings::Forms(Ending::YKh, Ending::YKh),
            AdjectiveStemType::Type6 => Endings::Forms(Ending::IKh, Ending::IKh),
        },
        (2, 0) => match stem_type {
            AdjectiveStemType::Type1 => Endings::Forms(Ending::OMU, Ending::OMU),
            AdjectiveStemType::Type2 => Endings::Forms(Ending::YeMU, Ending::YeMU),
            AdjectiveStemType::Type3 => Endings::Forms(Ending::OMU, Ending::OMU),
            AdjectiveStemType::Type4 => Endings::Forms(Ending::YeMU, Ending::OMU),
            AdjectiveStemType::Type5 => Endings::Forms(Ending::YeMU, Ending::OMU),
            AdjectiveStemType::Type6 => Endings::Forms(Ending::YeMU, Ending::YeMU),
        },
        (2, 1) => match stem_type {
            AdjectiveStemType::Type1 => Endings::Forms(Ending::OMU, Ending::OMU),
            AdjectiveStemType::Type2 => Endings::Forms(Ending::YeMU, Ending::YeMU),
            AdjectiveStemType::Type3 => Endings::Forms(Ending::OMU, Ending::OMU),
            AdjectiveStemType::Type4 => Endings::Forms(Ending::YeMU, Ending::OMU),
            AdjectiveStemType::Type5 => Endings::Forms(Ending::YeMU, Ending::OMU),
            AdjectiveStemType::Type6 => Endings::Forms(Ending::YeMU, Ending::YeMU),
        },
        (2, 2) => match stem_type {
            AdjectiveStemType::Type1 => Endings::Forms(Ending::OIy, Ending::OIy),
            AdjectiveStemType::Type2 => Endings::Forms(Ending::YeIy, Ending::YeIy),
            AdjectiveStemType::Type3 => Endings::Forms(Ending::OIy, Ending::OIy),
            AdjectiveStemType::Type4 => Endings::Forms(Ending::YeIy, Ending::OIy),
            AdjectiveStemType::Type5 => Endings::Forms(Ending::YeIy, Ending::OIy),
            AdjectiveStemType::Type6 => Endings::Forms(Ending::YeIy, Ending::YeIy),
        },
        (2, 3) => match stem_type {
            AdjectiveStemType::Type1 => Endings::Forms(Ending::YM, Ending::YM),
            AdjectiveStemType::Type2 => Endings::Forms(Ending::IM, Ending::IM),
            AdjectiveStemType::Type3 => Endings::Forms(Ending::IM, Ending::IM),
            AdjectiveStemType::Type4 => Endings::Forms(Ending::IM, Ending::IM),
            AdjectiveStemType::Type5 => Endings::Forms(Ending::YM, Ending::YM),
            AdjectiveStemType::Type6 => Endings::Forms(Ending::IM, Ending::IM),
        },
        (3, 0) => match stem_type {
            AdjectiveStemType::Type1 => Endings::Acc,
            AdjectiveStemType::Type2 => Endings::Acc,
            AdjectiveStemType::Type3 => Endings::Acc,
            AdjectiveStemType::Type4 => Endings::Acc,
            AdjectiveStemType::Type5 => Endings::Acc,
            AdjectiveStemType::Type6 => Endings::Acc,
        },
        (3, 1) => match stem_type {
            AdjectiveStemType::Type1 => Endings::Acc,
            AdjectiveStemType::Type2 => Endings::Acc,
            AdjectiveStemType::Type3 => Endings::Acc,
            AdjectiveStemType::Type4 => Endings::Acc,
            AdjectiveStemType::Type5 => Endings::Acc,
            AdjectiveStemType::Type6 => Endings::Acc,
        },
        (3, 2) => match stem_type {
            AdjectiveStemType::Type1 => Endings::Forms(Ending::UYu, Ending::UYu),
            AdjectiveStemType::Type2 => Endings::Forms(Ending::YuYu, Ending::YuYu),
            AdjectiveStemType::Type3 => Endings::Forms(Ending::UYu, Ending::UYu),
            AdjectiveStemType::Type4 => Endings::Forms(Ending::UYu, Ending::UYu),
            AdjectiveStemType::Type5 => Endings::Forms(Ending::UYu, Ending::UYu),
            AdjectiveStemType::Type6 => Endings::Forms(Ending::YuYu, Ending::YuYu),
        },
        (3, 3) => match stem_type {
            AdjectiveStemType::Type1 => Endings::Acc,
            AdjectiveStemType::Type2 => Endings::Acc,
            AdjectiveStemType::Type3 => Endings::Acc,
            AdjectiveStemType::Type4 => Endings::Acc,
            AdjectiveStemType::Type5 => Endings::Acc,
            AdjectiveStemType::Type6 => Endings::Acc,
        },
        (4, 0) => match stem_type {
            AdjectiveStemType::Type1 => Endings::Forms(Ending::YM, Ending::YM),
            AdjectiveStemType::Type2 => Endings::Forms(Ending::IM, Ending::IM),
            AdjectiveStemType::Type3 => Endings::Forms(Ending::IM, Ending::IM),
            AdjectiveStemType::Type4 => Endings::Forms(Ending::IM, Ending::IM),
            AdjectiveStemType::Type5 => Endings::Forms(Ending::YM, Ending::YM),
            AdjectiveStemType::Type6 => Endings::Forms(Ending::IM, Ending::IM),
        },
        (4, 1) => match stem_type {
            AdjectiveStemType::Type1 => Endings::Forms(Ending::YM, Ending::YM),
            AdjectiveStemType::Type2 => Endings::Forms(Ending::IM, Ending::IM),
            AdjectiveStemType::Type3 => Endings::Forms(Ending::IM, Ending::IM),
            AdjectiveStemType::Type4 => Endings::Forms(Ending::IM, Ending::IM),
            AdjectiveStemType::Type5 => Endings::Forms(Ending::YM, Ending::YM),
            AdjectiveStemType::Type6 => Endings::Forms(Ending::IM, Ending::IM),
        },
        (4, 2) => match stem_type {
            AdjectiveStemType::Type1 => Endings::Forms(Ending::OIy, Ending::OIy),
            AdjectiveStemType::Type2 => Endings::Forms(Ending::YeIy, Ending::YeIy),
            AdjectiveStemType::Type3 => Endings::Forms(Ending::OIy, Ending::OIy),
            AdjectiveStemType::Type4 => Endings::Forms(Ending::YeIy, Ending::OIy),
            AdjectiveStemType::Type5 => Endings::Forms(Ending::YeIy, Ending::OIy),
            AdjectiveStemType::Type6 => Endings::Forms(Ending::YeIy, Ending::YeIy),
        },
        (4, 3) => match stem_type {
            AdjectiveStemType::Type1 => Endings::Forms(Ending::YMI, Ending::YMI),
            AdjectiveStemType::Type2 => Endings::Forms(Ending::IMI, Ending::IMI),
            AdjectiveStemType::Type3 => Endings::Forms(Ending::IMI, Ending::IMI),
            AdjectiveStemType::Type4 => Endings::Forms(Ending::IMI, Ending::IMI),
            AdjectiveStemType::Type5 => Endings::Forms(Ending::YMI, Ending::YMI),
            AdjectiveStemType::Type6 => Endings::Forms(Ending::IMI, Ending::IMI),
        },
        (5, 0) => match stem_type {
            AdjectiveStemType::Type1 => Endings::Forms(Ending::OM, Ending::OM),
            AdjectiveStemType::Type2 => Endings::Forms(Ending::YeM, Ending::YeM),
            AdjectiveStemType::Type3 => Endings::Forms(Ending::OM, Ending::OM),
            AdjectiveStemType::Type4 => Endings::Forms(Ending::YeM, Ending::OM),
            AdjectiveStemType::Type5 => Endings::Forms(Ending::YeM, Ending::OM),
            AdjectiveStemType::Type6 => Endings::Forms(Ending::YeM, Ending::YeM),
        },
        (5, 1) => match stem_type {
            AdjectiveStemType::Type1 => Endings::Forms(Ending::OM, Ending::OM),
            AdjectiveStemType::Type2 => Endings::Forms(Ending::YeM, Ending::YeM),
            AdjectiveStemType::Type3 => Endings::Forms(Ending::OM, Ending::OM),
            AdjectiveStemType::Type4 => Endings::Forms(Ending::YeM, Ending::OM),
            AdjectiveStemType::Type5 => Endings::Forms(Ending::YeM, Ending::OM),
            AdjectiveStemType::Type6 => Endings::Forms(Ending::YeM, Ending::YeM),
        },
        (5, 2) => match stem_type {
            AdjectiveStemType::Type1 => Endings::Forms(Ending::OIy, Ending::OIy),
            AdjectiveStemType::Type2 => Endings::Forms(Ending::YeIy, Ending::YeIy),
            AdjectiveStemType::Type3 => Endings::Forms(Ending::OIy, Ending::OIy),
            AdjectiveStemType::Type4 => Endings::Forms(Ending::YeIy, Ending::OIy),
            AdjectiveStemType::Type5 => Endings::Forms(Ending::YeIy, Ending::OIy),
            AdjectiveStemType::Type6 => Endings::Forms(Ending::YeIy, Ending::YeIy),
        },
        (5, 3) => match stem_type {
            AdjectiveStemType::Type1 => Endings::Forms(Ending::YKh, Ending::YKh),
            AdjectiveStemType::Type2 => Endings::Forms(Ending::IKh, Ending::IKh),
            AdjectiveStemType::Type3 => Endings::Forms(Ending::IKh, Ending::IKh),
            AdjectiveStemType::Type4 => Endings::Forms(Ending::IKh, Ending::IKh),
            AdjectiveStemType::Type5 => Endings::Forms(Ending::YKh, Ending::YKh),
            AdjectiveStemType::Type6 => Endings::Forms(Ending::IKh, Ending::IKh),
        },
        (6, 0) => match stem_type {
            AdjectiveStemType::Type1 => Endings::Forms(Ending::Empty, Ending::Empty),
            AdjectiveStemType::Type2 => Endings::Forms(Ending::SoftSign, Ending::SoftSign),
            AdjectiveStemType::Type3 => Endings::Forms(Ending::Empty, Ending::Empty),
            AdjectiveStemType::Type4 => Endings::Forms(Ending::Empty, Ending::Empty),
            AdjectiveStemType::Type5 => Endings::Forms(Ending::Empty, Ending::Empty),
            AdjectiveStemType::Type6 => Endings::Forms(Ending::Iy, Ending::Iy),
        },
        (6, 1) => match stem_type {
            AdjectiveStemType::Type1 => Endings::Forms(Ending::O, Ending::O),
            AdjectiveStemType::Type2 => Endings::Forms(Ending::Ye, Ending::Yo),
            AdjectiveStemType::Type3 => Endings::Forms(Ending::O, Ending::O),
            AdjectiveStemType::Type4 => Endings::Forms(Ending::Ye, Ending::O),
            AdjectiveStemType::Type5 => Endings::Forms(Ending::Ye, Ending::O),
            AdjectiveStemType::Type6 => Endings::Forms(Ending::Ye, Ending::Yo),
        },
        (6, 2) => match stem_type {
            AdjectiveStemType::Type1 => Endings::Forms(Ending::A, Ending::A),
            AdjectiveStemType::Type2 => Endings::Forms(Ending::Ya, Ending::Ya),
            AdjectiveStemType::Type3 => Endings::Forms(Ending::A, Ending::A),
            AdjectiveStemType::Type4 => Endings::Forms(Ending::A, Ending::A),
            AdjectiveStemType::Type5 => Endings::Forms(Ending::A, Ending::A),
            AdjectiveStemType::Type6 => Endings::Forms(Ending::Ya, Ending::Ya),
        },
        (6, 3) => match stem_type {
            AdjectiveStemType::Type1 => Endings::Forms(Ending::Y, Ending::Y),
            AdjectiveStemType::Type2 => Endings::Forms(Ending::I, Ending::I),
            AdjectiveStemType::Type3 => Endings::Forms(Ending::I, Ending::I),
            AdjectiveStemType::Type4 => Endings::Forms(Ending::I, Ending::I),
            AdjectiveStemType::Type5 => Endings::Forms(Ending::Y, Ending::Y),
            AdjectiveStemType::Type6 => Endings::Forms(Ending::I, Ending::I),
        },
        _ => Endings::Acc,
    }
}

/// Looks up the endings of adjectives by case or short form, gender or plural, and stem type.
fn adjective_endings(form: u8, slot: u8, stem_type: AdjectiveStemType) -> (r: Endings)
    requires
        form < 7,
        slot < 4,
    ensures
        r == spec_adjective_endings(form, slot, stem_type),
{
    match (form, slot) {
        (0, 0) => match stem_type {
            AdjectiveStemType::Type1 => Endings::Forms(Ending::YIy, Ending::OIy),
            AdjectiveStemType::Type2 => Endings::Forms(Ending::IIy, Ending::IIy),
            AdjectiveStemType::Type3 => Endings::Forms(Ending::IIy, Ending::OIy),
            AdjectiveStemType::Type4 => Endings::Forms(Ending::IIy, Ending::OIy),
            AdjectiveStemType::Type5 => Endings::Forms(Ending::YIy, Ending::OIy),
            AdjectiveStemType::Type6 => Endings::Forms(Ending::IIy, Ending::IIy),
        },
        (0, 1) => match stem_type {
            AdjectiveStemType::Type1 => Endings::Forms(Ending::OYe, Ending::OYe),
            AdjectiveStemType::Type2 => Endings::Forms(Ending::YeYe, Ending::YeYe),
            AdjectiveStemType::Type3 => Endings::Forms(Ending::OYe, Ending::OYe),
            AdjectiveStemType::Type4 => Endings::Forms(Ending::YeYe, Ending::OYe),
            AdjectiveStemType::Type5 => Endings::Forms(Ending::YeYe, Ending::OYe),
            AdjectiveStemType::Type6 => Endings::Forms(Ending::YeYe, Ending::YeYe),
        },
        (0, 2) => match stem_type {
            AdjectiveStemType::Type1 => Endings::Forms(Ending::AYa, Ending::AYa),
            AdjectiveStemType::Type2 => Endings::Forms(Ending::YaYa, Ending::YaYa),
            AdjectiveStemType::Type3 => Endings::Forms(Ending::AYa, Ending::AYa),
            AdjectiveStemType::Type4 => Endings::Forms(Ending::AYa, Ending::AYa),
            AdjectiveStemType::Type5 => Endings::Forms(Ending::AYa, Ending::AYa),
            AdjectiveStemType::Type6 => Endings::Forms(Ending::YaYa, Ending::YaYa),
        },
        (0, 3) => match stem_type {
            AdjectiveStemType::Type1 => Endings::Forms(Ending::YYe, Ending::YYe),
            AdjectiveStemType::Type2 => Endings::Forms(Ending::IYe, Ending::IYe),
            AdjectiveStemType::Type3 => Endings::Forms(Ending::IYe, Ending::IYe),
            AdjectiveStemType::Type4 => Endings::Forms(Ending::IYe, Ending::IYe),
            AdjectiveStemType::Type5 => Endings::Forms(Ending::YYe, Ending::YYe),
            AdjectiveStemType::Type6 => Endings::Forms(Ending::IYe, Ending::IYe),
        },
        (1, 0) => match stem_type {
            AdjectiveStemType::Type1 => Endings::Forms(Ending::OGO, Ending::OGO),
            AdjectiveStemType::Type2 => Endings::Forms(Ending::YeGO, Ending::YeGO),
            AdjectiveStemType::Type3 => Endings::Forms(Ending::OGO, Ending::OGO),
            AdjectiveStemType::Type4 => Endings::Forms(Ending::YeGO, Ending::OGO),
            AdjectiveStemType::Type5 => Endings::Forms(Ending::YeGO, Ending::OGO),
            AdjectiveStemType::Type6 => Endings::Forms(Ending::YeGO, Ending::YeGO),
        },
        (1, 1) => match stem_type {
            AdjectiveStemType::Type1 => Endings::Forms(Ending::OGO, Ending::OGO),
            AdjectiveStemType::Type2 => Endings::Forms(Ending::YeGO, Ending::YeGO),
            AdjectiveStemType::Type3 => Endings::Forms(Ending::OGO, Ending::OGO),
            AdjectiveStemType::Type4 => Endings::Forms(Ending::YeGO, Ending::OGO),
            AdjectiveStemType::Type5 => Endings::Forms(Ending::YeGO, Ending::OGO),
            AdjectiveStemType::Type6 => Endings::Forms(Ending::YeGO, Ending::YeGO),
        },
        (1, 2) => match stem_type {
            AdjectiveStemType::Type1 => Endings::Forms(Ending::OIy, Ending::OIy),
            AdjectiveStemType::Type2 => Endings::Forms(Ending::YeIy, Ending::YeIy),
            AdjectiveStemType::Type3 => Endings::Forms(Ending::OIy, Ending::OIy),
            AdjectiveStemType::Type4 => Endings::Forms(Ending::YeIy, Ending::OIy),
            AdjectiveStemType::Type5 => Endings::Forms(Ending::YeIy, Ending::OIy),
            AdjectiveStemType::Type6 => Endings::Forms(Ending::YeIy, Ending::YeIy),
        },
        (1, 3) => match stem_type {
            AdjectiveStemType::Type1 => Endings::Forms(Ending::YKh, Ending::YKh),
            AdjectiveStemType::Type2 => Endings::Forms(Ending::IKh, Ending::IKh),
            AdjectiveStemType::Type3 => Endings::Forms(Ending::IKh, Ending::IKh),
            AdjectiveStemType::Type4 => Endings::Forms(Ending::IKh, Ending::IKh),
            AdjectiveStemType::Type5 => Endings::Forms(Ending::YKh, Ending::YKh),
            AdjectiveStemType::Type6 => Endings::Forms(Ending::IKh, Ending::IKh),
        },
        (2, 0) => match stem_type {
            AdjectiveStemType::Type1 => Endings::Forms(Ending::OMU, Ending::OMU),
            AdjectiveStemType::Type2 => Endings::Forms(Ending::YeMU, Ending::YeMU),
            AdjectiveStemType::Type3 => Endings::Forms(Ending::OMU, Ending::OMU),
            AdjectiveStemType::Type4 => Endings::Forms(Ending::YeMU, Ending::OMU),
            AdjectiveStemType::Type5 => Endings::Forms(Ending::YeMU, Ending::OMU),
            AdjectiveStemType::Type6 => Endings::Forms(Ending::YeMU, Ending::YeMU),
        },
        (2, 1) => match stem_type {
            AdjectiveStemType::Type1 => Endings::Forms(Ending::OMU, Ending::OMU),
            AdjectiveStemType::Type2 => Endings::Forms(Ending::YeMU, Ending::YeMU),
            AdjectiveStemType::Type3 => Endings::Forms(Ending::OMU, Ending::OMU),
            AdjectiveStemType::Type4 => Endings::Forms(Ending::YeMU, Ending::OMU),
            AdjectiveStemType::Type5 => Endings::Forms(Ending::YeMU, Ending::OMU),
            AdjectiveStemType::Type6 => Endings::Forms(Ending::YeMU, Ending::YeMU),
        },
        (2, 2) => match stem_type {
            AdjectiveStemType::Type1 => Endings::Forms(Ending::OIy, Ending::OIy),
            AdjectiveStemType::Type2 => Endings::Forms(Ending::YeIy, Ending::YeIy),
            AdjectiveStemType::Type3 => Endings::Forms(Ending::OIy, Ending::OIy),
            AdjectiveStemType::Type4 => Endings::Forms(Ending::YeIy, Ending::OIy),
            AdjectiveStemType::Type5 => Endings::Forms(Ending::YeIy, Ending::OIy),
            AdjectiveStemType::Type6 => Endings::Forms(Ending::YeIy, Ending::YeIy),
        },
        (2, 3) => match stem_type {
            AdjectiveStemType::Type1 => Endings::Forms(Ending::YM, Ending::YM),
            AdjectiveStemType::Type2 => Endings::Forms(Ending::IM, Ending::IM),
            AdjectiveStemType::Type3 => Endings::Forms(Ending::IM, Ending::IM),
            AdjectiveStemType::Type4 => Endings::Forms(Ending::IM, Ending::IM),
            AdjectiveStemType::Type5 => Endings::Forms(Ending::YM, Ending::YM),
            AdjectiveStemType::Type6 => Endings::Forms(Ending::IM, Ending::IM),
        },
        (3, 0) => match stem_type {
            AdjectiveStemType::Type1 => Endings::Acc,
            AdjectiveStemType::Type2 => Endings::Acc,
            AdjectiveStemType::Type3 => Endings::Acc,
            AdjectiveStemType::Type4 => Endings::Acc,
            AdjectiveStemType::Type5 => Endings::Acc,
            AdjectiveStemType::Type6 => Endings::Acc,
        },
        (3, 1) => match stem_type {
            AdjectiveStemType::Type1 => Endings::Acc,
            AdjectiveStemType::Type2 => Endings::Acc,
            AdjectiveStemType::Type3 => Endings::Acc,
            AdjectiveStemType::Type4 => Endings::Acc,
            AdjectiveStemType::Type5 => Endings::Acc,
            AdjectiveStemType::Type6 => Endings::Acc,
        },
        (3, 2) => match stem_type {
            AdjectiveStemType::Type1 => Endings::Forms(Ending::UYu, Ending::UYu),
            AdjectiveStemType::Type2 => Endings::Forms(Ending::YuYu, Ending::YuYu),
            AdjectiveStemType::Type3 => Endings::Forms(Ending::UYu, Ending::UYu),
            AdjectiveStemType::Type4 => Endings::Forms(Ending::UYu, Ending::UYu),
            AdjectiveStemType::Type5 => Endings::Forms(Ending::UYu, Ending::UYu),
            AdjectiveStemType::Type6 => Endings::Forms(Ending::YuYu, Ending::YuYu),
        },
        (3, 3) => match stem_type {
            AdjectiveStemType::Type1 => Endings::Acc,
            AdjectiveStemType::Type2 => Endings::Acc,
            AdjectiveStemType::Type3 => Endings::Acc,
            AdjectiveStemType::Type4 => Endings::Acc,
            AdjectiveStemType::Type5 => Endings::Acc,
            AdjectiveStemType::Type6 => Endings::Acc,
        },
        (4, 0) => match stem_type {
            AdjectiveStemType::Type1 => Endings::Forms(Ending::YM, Ending::YM),
            AdjectiveStemType::Type2 => Endings::Forms(Ending::IM, Ending::IM),
            AdjectiveStemType::Type3 => Endings::Forms(Ending::IM, Ending::IM),
            AdjectiveStemType::Type4 => Endings::Forms(Ending::IM, Ending::IM),
            AdjectiveStemType::Type5 => Endings::Forms(Ending::YM, Ending::YM),
            AdjectiveStemType::Type6 => Endings::Forms(Ending::IM, Ending::IM),
        },
        (4, 1) => match stem_type {
            AdjectiveStemType::Type1 => Endings::Forms(Ending::YM, Ending::YM),
            AdjectiveStemType::Type2 => Endings::Forms(Ending::IM, Ending::IM),
            AdjectiveStemType::Type3 => Endings::Forms(Ending::IM, Ending::IM),
            AdjectiveStemType::Type4 => Endings::Forms(Ending::IM, Ending::IM),
            AdjectiveStemType::Type5 => Endings::Forms(Ending::YM, Ending::YM),
            AdjectiveStemType::Type6 => Endings::Forms(Ending::IM, Ending::IM),
        },
        (4, 2) => match stem_type {
            AdjectiveStemType::Type1 => Endings::Forms(Ending::OIy, Ending::OIy),
            AdjectiveStemType::Type2 => Endings::Forms(Ending::YeIy, Ending::YeIy),
            AdjectiveStemType::Type3 => Endings::Forms(Ending::OIy, Ending::OIy),
            AdjectiveStemType::Type4 => Endings::Forms(Ending::YeIy, Ending::OIy),
            AdjectiveStemType::Type5 => Endings::Forms(Ending::YeIy, Ending::OIy),
            AdjectiveStemType::Type6 => Endings::Forms(Ending::YeIy, Ending::YeIy),
        },
        (4, 3) => match stem_type {
            AdjectiveStemType::Type1 => Endings::Forms(Ending::YMI, Ending::YMI),
            AdjectiveStemType::Type2 => Endings::Forms(Ending::IMI, Ending::IMI),
            AdjectiveStemType::Type3 => Endings::Forms(Ending::IMI, Ending::IMI),
            AdjectiveStemType::Type4 => Endings::Forms(Ending::IMI, Ending::IMI),
            AdjectiveStemType::Type5 => Endings::Forms(Ending::YMI, Ending::YMI),
            AdjectiveStemType::Type6 => Endings::Forms(Ending::IMI, Ending::IMI),
        },
        (5, 0) => match stem_type {
            AdjectiveStemType::Type1 => Endings::Forms(Ending::OM, Ending::OM),
            AdjectiveStemType::Type2 => Endings::Forms(Ending::YeM, Ending::YeM),
            AdjectiveStemType::Type3 => Endings::Forms(Ending::OM, Ending::OM),
            AdjectiveStemType::Type4 => Endings::Forms(Ending::YeM, Ending::OM),
            AdjectiveStemType::Type5 => Endings::Forms(Ending::YeM, Ending::OM),
            AdjectiveStemType::Type6 => Endings::Forms(Ending::YeM, Ending::YeM),
        },
        (5, 1) => match stem_type {
            AdjectiveStemType::Type1 => Endings::Forms(Ending::OM, Ending::OM),
            AdjectiveStemType::Type2 => Endings::Forms(Ending::YeM, Ending::YeM),
            AdjectiveStemType::Type3 => Endings::Forms(Ending::OM, Ending::OM),
            AdjectiveStemType::Type4 => Endings::Forms(Ending::YeM, Ending::OM),
            AdjectiveStemType::Type5 => Endings::Forms(Ending::YeM, Ending::OM),
            AdjectiveStemType::Type6 => Endings::Forms(Ending::YeM, Ending::YeM),
        },
        (5, 2) => match stem_type {
            AdjectiveStemType::Type1 => Endings::Forms(Ending::OIy, Ending::OIy),
            AdjectiveStemType::Type2 => Endings::Forms(Ending::YeIy, Ending::YeIy),
            AdjectiveStemType::Type3 => Endings::Forms(Ending::OIy, Ending::OIy),
            AdjectiveStemType::Type4 => Endings::Forms(Ending::YeIy, Ending::OIy),
            AdjectiveStemType::Type5 => Endings::Forms(Ending::YeIy, Ending::OIy),
            AdjectiveStemType::Type6 => Endings::Forms(Ending::YeIy, Ending::YeIy),
        },
        (5, 3) => match stem_type {
            AdjectiveStemType::Type1 => Endings::Forms(Ending::YKh, Ending::YKh),
            AdjectiveStemType::Type2 => Endings::Forms(Ending::IKh, Ending::IKh),
            AdjectiveStemType::Type3 => Endings::Forms(Ending::IKh, Ending::IKh),
            AdjectiveStemType::Type4 => Endings::Forms(Ending::IKh, Ending::IKh),
            AdjectiveStemType::Type5 => Endings::Forms(Ending::YKh, Ending::YKh),
            AdjectiveStemType::Type6 => Endings::Forms(Ending::IKh, Ending::IKh),
        },
        (6, 0) => match stem_type {
            AdjectiveStemType::Type1 => Endings::Forms(Ending::Empty, Ending::Empty),
            AdjectiveStemType::Type2 => Endings::Forms(Ending::SoftSign, Ending::SoftSign),
            AdjectiveStemType::Type3 => Endings::Forms(Ending::Empty, Ending::Empty),
            AdjectiveStemType::Type4 => Endings::Forms(Ending::Empty, Ending::Empty),
            AdjectiveStemType::Type5 => Endings::Forms(Ending::Empty, Ending::Empty),
            AdjectiveStemType::Type6 => Endings::Forms(Ending::Iy, Ending::Iy),
        },
        (6, 1) => match stem_type {
            AdjectiveStemType::Type1 => Endings::Forms(Ending::O, Ending::O),
            AdjectiveStemType::Type2 => Endings::Forms(Ending::Ye, Ending::Yo),
            AdjectiveStemType::Type3 => Endings::Forms(Ending::O, Ending::O),
            AdjectiveStemType::Type4 => Endings::Forms(Ending::Ye, Ending::O),
            AdjectiveStemType::Type5 => Endings::Forms(Ending::Ye, Ending::O),
            AdjectiveStemType::Type6 => Endings::Forms(Ending::Ye, Ending::Yo),
        },
        (6, 2) => match stem_type {
            AdjectiveStemType::Type1 => Endings::Forms(Ending::A, Ending::A),
            AdjectiveStemType::Type2 => Endings::Forms(Ending::Ya, Ending::Ya),
            AdjectiveStemType::Type3 => Endings::Forms(Ending::A, Ending::A),
            AdjectiveStemType::Type4 => Endings::Forms(Ending::A, Ending::A),
            AdjectiveStemType::Type5 => Endings::Forms(Ending::A, Ending::A),
            AdjectiveStemType::Type6 => Endings::Forms(Ending::Ya, Ending::Ya),
        },
        (6, 3) => match stem_type {
            AdjectiveStemType::Type1 => Endings::Forms(Ending::Y, Ending::Y),
            AdjectiveStemType::Type2 => Endings::Forms(Ending::I, Ending::I),
            AdjectiveStemType::Type3 => Endings::Forms(Ending::I, Ending::I),
            AdjectiveStemType::Type4 => Endings::Forms(Ending::I, Ending::I),
            AdjectiveStemType::Type5 => Endings::Forms(Ending::Y, Ending::Y),
            AdjectiveStemType::Type6 => Endings::Forms(Ending::I, Ending::I),
        },
        _ => Endings::Acc,
    }
}


/// The endings of nouns in the nominative case, for each number, gender and stem type,
/// in a declension without circled digits: where two are given, the first is unstressed
/// and the second stressed.
#[verifier::rlimit(100)]
pub proof fn law_noun_endings_nominative(d: NounDeclension, info: DeclInfo)
    requires
        info.case == Case::Nominative,
        !d.flags.circled_one && !d.flags.circled_two && !d.flags.circled_three,
    ensures
        info.number == Number::Singular && info.gender == Gender::Masculine && (d.stem_type == NounStemType::Type1 || d.stem_type == NounStemType::Type3 || d.stem_type == NounStemType::Type4 || d.stem_type == NounStemType::Type5) ==> d.spec_find_ending(info) == Seq::<Utf8Letter>::empty(),
        info.number == Number::Singular && info.gender == Gender::Masculine && (d.stem_type == NounStemType::Type2 || d.stem_type == NounStemType::Type8) ==> d.spec_find_ending(info) == seq![Utf8Letter::SoftSign],
        info.number == Number::Singular && info.gender == Gender::Masculine && (d.stem_type == NounStemType::Type6 || d.stem_type == NounStemType::Type7) ==> d.spec_find_ending(info) == seq![Utf8Letter::Iy],
        info.number == Number::Singular && info.gender == Gender::Neuter && (d.stem_type == NounStemType::Type1 || d.stem_type == NounStemType::Type3 || d.stem_type == NounStemType::Type8) ==> d.spec_find_ending(info) == seq![Utf8Letter::O],
        info.number == Number::Singular && info.gender == Gender::Neuter && (d.stem_type == NounStemType::Type2 || d.stem_type == NounStemType::Type6 || d.stem_type == NounStemType::Type7) ==> d.spec_find_ending(info) == (if !d.stress.spec_is_stem_stressed(info) { seq![Utf8Letter::Yo] } else { seq![Utf8Letter::Ye] }),
        info.number == Number::Singular && info.gender == Gender::Neuter && (d.stem_type == NounStemType::Type4 || d.stem_type == NounStemType::Type5) ==> d.spec_find_ending(info) == (if !d.stress.spec_is_stem_stressed(info) { seq![Utf8Letter::O] } else { seq![Utf8Letter::Ye] }),
        info.number == Number::Singular && info.gender == Gender::Feminine && (d.stem_type == NounStemType::Type1 || d.stem_type == NounStemType::Type3 || d.stem_type == NounStemType::Type4 || d.stem_type == NounStemType::Type5) ==> d.spec_find_ending(info) == seq![Utf8Letter::A],
        info.number == Number::Singular && info.gender == Gender::Feminine && (d.stem_type == NounStemType::Type2 || d.stem_type == NounStemType::Type6 || d.stem_type == NounStemType::Type7) ==> d.spec_find_ending(info) == seq![Utf8Letter::Ya],
        info.number == Number::Singular && info.gender == Gender::Feminine && (d.stem_type == NounStemType::Type8) ==> d.spec_find_ending(info) == seq![Utf8Letter::SoftSign],
        info.number == Number::Plural && info.gender == Gender::Masculine && (d.stem_type == NounStemType::Type1 || d.stem_type == NounStemType::Type5) ==> d.spec_find_ending(info) == seq![Utf8Letter::Y],
        info.number == Number::Plural && info.gender == Gender::Masculine && (d.stem_type == NounStemType::Type2 || d.stem_type == NounStemType::Type3 || d.stem_type == NounStemType::Type4 || d.stem_type == NounStemType::Type6 || d.stem_type == NounStemType::Type7 || d.stem_type == NounStemType::Type8) ==> d.spec_find_ending(info) == seq![Utf8Letter::I],
        info.number == Number::Plural && info.gender == Gender::Neuter && (d.stem_type == NounStemType::Type1 || d.stem_type == NounStemType::Type3 || d.stem_type == NounStemType::Type4 || d.stem_type == NounStemType::Type5 || d.stem_type == NounStemType::Type8) ==> d.spec_find_ending(info) == seq![Utf8Letter::A],
        info.number == Number::Plural && info.gender == Gender::Neuter && (d.stem_type == NounStemType::Type2 || d.stem_type == NounStemType::Type6 || d.stem_type == NounStemType::Type7) ==> d.spec_find_ending(info) == seq![Utf8Letter::Ya],
        info.number == Number::Plural && info.gender == Gender::Feminine && (d.stem_type == NounStemType::Type1 || d.stem_type == NounStemType::Type5) ==> d.spec_find_ending(info) == seq![Utf8Letter::Y],
        info.number == Number::Plural && info.gender == Gender::Feminine && (d.stem_type == NounStemType::Type2 || d.stem_type == NounStemType::Type3 || d.stem_type == NounStemType::Type4 || d.stem_type == NounStemType::Type6 || d.stem_type == NounStemType::Type7 || d.stem_type == NounStemType::Type8) ==> d.spec_find_ending(info) == seq![Utf8Letter::I],
{
}

/// The endings of nouns in the genitive case, for each number, gender and stem type,
/// in a declension without circled digits: where two are given, the first is unstressed
/// and the second stressed.
#[verifier::rlimit(100)]
pub proof fn law_noun_endings_genitive(d: NounDeclension, info: DeclInfo)
    requires
        info.case == Case::Genitive,
        !d.flags.circled_one && !d.flags.circled_two && !d.flags.circled_three,
    ensures
        info.number == Number::Singular && info.gender == Gender::Masculine && (d.stem_type == NounStemType::Type1 || d.stem_type == NounStemType::Type3 || d.stem_type == NounStemType::Type4 || d.stem_type == NounStemType::Type5) ==> d.spec_find_ending(info) == seq![Utf8Letter::A],
        info.number == Number::Singular && info.gender == Gender::Masculine && (d.stem_type == NounStemType::Type2 || d.stem_type == NounStemType::Type6 || d.stem_type == NounStemType::Type7) ==> d.spec_find_ending(info) == seq![Utf8Letter::Ya],
        info.number == Number::Singular && info.gender == Gender::Masculine && (d.stem_type == NounStemType::Type8) ==> d.spec_find_ending(info) == seq![Utf8Letter::I],
        info.number == Number::Singular && info.gender == Gender::Neuter && (d.stem_type == NounStemType::Type1 || d.stem_type == NounStemType::Type3 || d.stem_type == NounStemType::Type4 || d.stem_type == NounStemType::Type5 || d.stem_type == NounStemType::Type8) ==> d.spec_find_ending(info) == seq![Utf8Letter::A],
        info.number == Number::Singular && info.gender == Gender::Neuter && (d.stem_type == NounStemType::Type2 || d.stem_type == NounStemType::Type6 || d.stem_type == NounStemType::Type7) ==> d.spec_find_ending(info) == seq![Utf8Letter::Ya],
        info.number == Number::Singular && info.gender == Gender::Feminine && (d.stem_type == NounStemType::Type1 || d.stem_type == NounStemType::Type5) ==> d.spec_find_ending(info) == seq![Utf8Letter::Y],
        info.number == Number::Singular && info.gender == Gender::Feminine && (d.stem_type == NounStemType::Type2 || d.stem_type == NounStemType::Type3 || d.stem_type == NounStemType::Type4 || d.stem_type == NounStemType::Type6 || d.stem_type == NounStemType::Type7 || d.stem_type == NounStemType::Type8) ==> d.spec_find_ending(info) == seq![Utf8Letter::I],
        info.number == Number::Plural && info.gender == Gender::Masculine && (d.stem_type == NounStemType::Type1 || d.stem_type == NounStemType::Type3) ==> d.spec_find_ending(info) == seq![Utf8Letter::O, Utf8Letter::V],
        info.number == Number::Plural && info.gender == Gender::Masculine && (d.stem_type == NounStemType::Type2 || d.stem_type == NounStemType::Type4 || d.stem_type == NounStemType::Type8) ==> d.spec_find_ending(info) == seq![Utf8Letter::Ye, Utf8Letter::Iy],
        info.number == Number::Plural && info.gender == Gender::Masculine && (d.stem_type == NounStemType::Type5) ==> d.spec_find_ending(info) == (if !d.stress.spec_is_stem_stressed(info) { seq![Utf8Letter::O, Utf8Letter::V] } else { seq![Utf8Letter::Ye, Utf8Letter::V] }),
        info.number == Number::Plural && info.gender == Gender::Masculine && (d.stem_type == NounStemType::Type6 || d.stem_type == NounStemType::Type7) ==> d.spec_find_ending(info) == (if !d.stress.spec_is_stem_stressed(info) { seq![Utf8Letter::Yo, Utf8Letter::V] } else { seq![Utf8Letter::Ye, Utf8Letter::V] }),
        info.number == Number::Plural && info.gender == Gender::Neuter && (d.stem_type == NounStemType::Type1 || d.stem_type == NounStemType::Type3 || d.stem_type == NounStemType::Type5 || d.stem_type == NounStemType::Type8) ==> d.spec_find_ending(info) == Seq::<Utf8Letter>::empty(),
        info.number == Number::Plural && info.gender == Gender::Neuter && (d.stem_type == NounStemType::Type2) ==> d.spec_find_ending(info) == (if !d.stress.spec_is_stem_stressed(info) { seq![Utf8Letter::Ye, Utf8Letter::Iy] } else { seq![Utf8Letter::SoftSign] }),
        info.number == Number::Plural && info.gender == Gender::Neuter && (d.stem_type == NounStemType::Type4) ==> d.spec_find_ending(info) == (if !d.stress.spec_is_stem_stressed(info) { seq![Utf8Letter::Ye, Utf8Letter::Iy] } else { Seq::<Utf8Letter>::empty() }),
        info.number == Number::Plural && info.gender == Gender::Neuter && (d.stem_type == NounStemType::Type6 || d.stem_type == NounStemType::Type7) ==> d.spec_find_ending(info) == seq![Utf8Letter::Iy],
        info.number == Number::Plural && info.gender == Gender::Feminine && (d.stem_type == NounStemType::Type1 || d.stem_type == NounStemType::Type3 || d.stem_type == NounStemType::Type5) ==> d.spec_find_ending(info) == Seq::<Utf8Letter>::empty(),
        info.number == Number::Plural && info.gender == Gender::Feminine && (d.stem_type == NounStemType::Type2) ==> d.spec_find_ending(info) == (if !d.stress.spec_is_stem_stressed(info) { seq![Utf8Letter::Ye, Utf8Letter::Iy] } else { seq![Utf8Letter::SoftSign] }),
        info.number == Number::Plural && info.gender == Gender::Feminine && (d.stem_type == NounStemType::Type4) ==> d.spec_find_ending(info) == (if !d.stress.spec_is_stem_stressed(info) { seq![Utf8Letter::Ye, Utf8Letter::Iy] } else { Seq::<Utf8Letter>::empty() }),
        info.number == Number::Plural && info.gender == Gender::Feminine && (d.stem_type == NounStemType::Type6 || d.stem_type == NounStemType::Type7) ==> d.spec_find_ending(info) == seq![Utf8Letter::Iy],
        info.number == Number::Plural && info.gender == Gender::Feminine && (d.stem_type == NounStemType::Type8) ==> d.spec_find_ending(info) == seq![Utf8Letter::Ye, Utf8Letter::Iy],
{
}

/// The endings of nouns in the dative case, for each number, gender and stem type,
/// in a declension without circled digits: where two are given, the first is unstressed
/// and the second stressed.
#[verifier::rlimit(100)]
pub proof fn law_noun_endings_dative(d: NounDeclension, info: DeclInfo)
    requires
        info.case == Case::Dative,
        !d.flags.circled_one && !d.flags.circled_two && !d.flags.circled_three,
    ensures
        info.number == Number::Singular && info.gender == Gender::Masculine && (d.stem_type == NounStemType::Type1 || d.stem_type == NounStemType::Type3 || d.stem_type == NounStemType::Type4 || d.stem_type == NounStemType::Type5) ==> d.spec_find_ending(info) == seq![Utf8Letter::U],
        info.number == Number::Singular && info.gender == Gender::Masculine && (d.stem_type == NounStemType::Type2 || d.stem_type == NounStemType::Type6 || d.stem_type == NounStemType::Type7) ==> d.spec_find_ending(info) == seq![Utf8Letter::Yu],
        info.number == Number::Singular && info.gender == Gender::Masculine && (d.stem_type == NounStemType::Type8) ==> d.spec_find_ending(info) == seq![Utf8Letter::I],
        info.number == Number::Singular && info.gender == Gender::Neuter && (d.stem_type == NounStemType::Type1 || d.stem_type == NounStemType::Type3 || d.stem_type == NounStemType::Type4 || d.stem_type == NounStemType::Type5 || d.stem_type == NounStemType::Type8) ==> d.spec_find_ending(info) == seq![Utf8Letter::U],
        info.number == Number::Singular && info.gender == Gender::Neuter && (d.stem_type == NounStemType::Type2 || d.stem_type == NounStemType::Type6 || d.stem_type == NounStemType::Type7) ==> d.spec_find_ending(info) == seq![Utf8Letter::Yu],
        info.number == Number::Singular && info.gender == Gender::Feminine && (d.stem_type == NounStemType::Type1 || d.stem_type == NounStemType::Type2 || d.stem_type == NounStemType::Type3 || d.stem_type == NounStemType::Type4 || d.stem_type == NounStemType::Type5 || d.stem_type == NounStemType::Type6) ==> d.spec_find_ending(info) == seq![Utf8Letter::Ye],
        info.number == Number::Singular && info.gender == Gender::Feminine && (d.stem_type == NounStemType::Type7) ==> d.spec_find_ending(info) == (if !d.stress.spec_is_stem_stressed(info) { seq![Utf8Letter::Ye] } else { seq![Utf8Letter::I] }),
        info.number == Number::Singular && info.gender == Gender::Feminine && (d.stem_type == NounStemType::Type8) ==> d.spec_find_ending(info) == seq![Utf8Letter::I],
        info.number == Number::Plural && info.gender == Gender::Masculine && (d.stem_type == NounStemType::Type1 || d.stem_type == NounStemType::Type3 || d.stem_type == NounStemType::Type4 || d.stem_type == NounStemType::Type5) ==> d.spec_find_ending(info) == seq![Utf8Letter::A, Utf8Letter::M],
        info.number == Number::Plural && info.gender == Gender::Masculine && (d.stem_type == NounStemType::Type2 || d.stem_type == NounStemType::Type6 || d.stem_type == NounStemType::Type7 || d.stem_type == NounStemType::Type8) ==> d.spec_find_ending(info) == seq![Utf8Letter::Ya, Utf8Letter::M],
        info.number == Number::Plural && info.gender == Gender::Neuter && (d.stem_type == NounStemType::Type1 || d.stem_type == NounStemType::Type3 || d.stem_type == NounStemType::Type4 || d.stem_type == NounStemType::Type5 || d.stem_type == NounStemType::Type8) ==> d.spec_find_ending(info) == seq![Utf8Letter::A, Utf8Letter::M],
        info.number == Number::Plural && info.gender == Gender::Neuter && (d.stem_type == NounStemType::Type2 || d.stem_type == NounStemType::Type6 || d.stem_type == NounStemType::Type7) ==> d.spec_find_ending(info) == seq![Utf8Letter::Ya, Utf8Letter::M],
        info.number == Number::Plural && info.gender == Gender::Feminine && (d.stem_type == NounStemType::Type1 || d.stem_type == NounStemType::Type3 || d.stem_type == NounStemType::Type4 || d.stem_type == NounStemType::Type5) ==> d.spec_find_ending(info) == seq![Utf8Letter::A, Utf8Letter::M],
        info.number == Number::Plural && info.gender == Gender::Feminine && (d.stem_type == NounStemType::Type2 || d.stem_type == NounStemType::Type6 || d.stem_type == NounStemType::Type7 || d.stem_type == NounStemType::Type8) ==> d.spec_find_ending(info) == seq![Utf8Letter::Ya, Utf8Letter::M],
{
}

/// The endings of nouns in the accusative case, in a declension without circled digits:
/// those of the nominative case for inanimate nouns and of the genitive case for animate
/// ones, except in the feminine singular, which has its own.
#[verifier::rlimit(100)]
pub proof fn law_noun_endings_accusative(d: NounDeclension, info: DeclInfo)
    requires
        info.case == Case::Accusative,
        !d.flags.circled_one && !d.flags.circled_two && !d.flags.circled_three,
    ensures
        info.number == Number::Singular && info.gender == Gender::Masculine && d.stem_type == NounStemType::Type1 ==> d.spec_find_ending(info) == (if info.animacy == Animacy::Inanimate {
            Seq::<Utf8Letter>::empty()
        } else {
            seq![Utf8Letter::A]
        }),
        info.number == Number::Singular && info.gender == Gender::Masculine && d.stem_type == NounStemType::Type2 ==> d.spec_find_ending(info) == (if info.animacy == Animacy::Inanimate {
            seq![Utf8Letter::SoftSign]
        } else {
            seq![Utf8Letter::Ya]
        }),
        info.number == Number::Singular && info.gender == Gender::Masculine && d.stem_type == NounStemType::Type3 ==> d.spec_find_ending(info) == (if info.animacy == Animacy::Inanimate {
            Seq::<Utf8Letter>::empty()
        } else {
            seq![Utf8Letter::A]
        }),
        info.number == Number::Singular && info.gender == Gender::Masculine && d.stem_type == NounStemType::Type4 ==> d.spec_find_ending(info) == (if info.animacy == Animacy::Inanimate {
            Seq::<Utf8Letter>::empty()
        } else {
            seq![Utf8Letter::A]
        }),
        info.number == Number::Singular && info.gender == Gender::Masculine && d.stem_type == NounStemType::Type5 ==> d.spec_find_ending(info) == (if info.animacy == Animacy::Inanimate {
            Seq::<Utf8Letter>::empty()
        } else {
            seq![Utf8Letter::A]
        }),
        info.number == Number::Singular && info.gender == Gender::Masculine && d.stem_type == NounStemType::Type6 ==> d.spec_find_ending(info) == (if info.animacy == Animacy::Inanimate {
            seq![Utf8Letter::Iy]
        } else {
            seq![Utf8Letter::Ya]
        }),
        info.number == Number::Singular && info.gender == Gender::Masculine && d.stem_type == NounStemType::Type7 ==> d.spec_find_ending(info) == (if info.animacy == Animacy::Inanimate {
            seq![Utf8Letter::Iy]
        } else {
            seq![Utf8Letter::Ya]
        }),
        info.number == Number::Singular && info.gender == Gender::Masculine && d.stem_type == NounStemType::Type8 ==> d.spec_find_ending(info) == (if info.animacy == Animacy::Inanimate {
            seq![Utf8Letter::SoftSign]
        } else {
            seq![Utf8Letter::I]
        }),
        info.number == Number::Singular && info.gender == Gender::Neuter && d.stem_type == NounStemType::Type1 ==> d.spec_find_ending(info) == (if info.animacy == Animacy::Inanimate {
            seq![Utf8Letter::O]
        } else {
            seq![Utf8Letter::A]
        }),
        info.number == Number::Singular && info.gender == Gender::Neuter && d.stem_type == NounStemType::Type2 ==> d.spec_find_ending(info) == (if info.animacy == Animacy::Inanimate {
            (if !d.stress.spec_is_stem_stressed(info) { seq![Utf8Letter::Yo] } else { seq![Utf8Letter::Ye] })
        } else {
            seq![Utf8Letter::Ya]
        }),
        info.number == Number::Singular && info.gender == Gender::Neuter && d.stem_type == NounStemType::Type3 ==> d.spec_find_ending(info) == (if info.animacy == Animacy::Inanimate {
            seq![Utf8Letter::O]
        } else {
            seq![Utf8Letter::A]
        }),
        info.number == Number::Singular && info.gender == Gender::Neuter && d.stem_type == NounStemType::Type4 ==> d.spec_find_ending(info) == (if info.animacy == Animacy::Inanimate {
            (if !d.stress.spec_is_stem_stressed(info) { seq![Utf8Letter::O] } else { seq![Utf8Letter::Ye] })
        } else {
            seq![Utf8Letter::A]
        }),
        info.number == Number::Singular && info.gender == Gender::Neuter && d.stem_type == NounStemType::Type5 ==> d.spec_find_ending(info) == (if info.animacy == Animacy::Inanimate {
            (if !d.stress.spec_is_stem_stressed(info) { seq![Utf8Letter::O] } else { seq![Utf8Letter::Ye] })
        } else {
            seq![Utf8Letter::A]
        }),
        info.number == Number::Singular && info.gender == Gender::Neuter && d.stem_type == NounStemType::Type6 ==> d.spec_find_ending(info) == (if info.animacy == Animacy::Inanimate {
            (if !d.stress.spec_is_stem_stressed(info) { seq![Utf8Letter::Yo] } else { seq![Utf8Letter::Ye] })
        } else {
            seq![Utf8Letter::Ya]
        }),
        info.number == Number::Singular && info.gender == Gender::Neuter && d.stem_type == NounStemType::Type7 ==> d.spec_find_ending(info) == (if info.animacy == Animacy::Inanimate {
            (if !d.stress.spec_is_stem_stressed(info) { seq![Utf8Letter::Yo] } else { seq![Utf8Letter::Ye] })
        } else {
            seq![Utf8Letter::Ya]
        }),
        info.number == Number::Singular && info.gender == Gender::Neuter && d.stem_type == NounStemType::Type8 ==> d.spec_find_ending(info) == (if info.animacy == Animacy::Inanimate {
            seq![Utf8Letter::O]
        } else {
            seq![Utf8Letter::A]
        }),
        info.number == Number::Singular && info.gender == Gender::Feminine && (d.stem_type == NounStemType::Type1 || d.stem_type == NounStemType::Type3 || d.stem_type == NounStemType::Type4 || d.stem_type == NounStemType::Type5) ==> d.spec_find_ending(info) == seq![Utf8Letter::U],
        info.number == Number::Singular && info.gender == Gender::Feminine && (d.stem_type == NounStemType::Type2 || d.stem_type == NounStemType::Type6 || d.stem_type == NounStemType::Type7) ==> d.spec_find_ending(info) == seq![Utf8Letter::Yu],
        info.number == Number::Singular && info.gender == Gender::Feminine && (d.stem_type == NounStemType::Type8) ==> d.spec_find_ending(info) == seq![Utf8Letter::SoftSign],
        info.number == Number::Plural && info.gender == Gender::Masculine && d.stem_type == NounStemType::Type1 ==> d.spec_find_ending(info) == (if info.animacy == Animacy::Inanimate {
            seq![Utf8Letter::Y]
        } else {
            seq![Utf8Letter::O, Utf8Letter::V]
        }),
        info.number == Number::Plural && info.gender == Gender::Masculine && d.stem_type == NounStemType::Type2 ==> d.spec_find_ending(info) == (if info.animacy == Animacy::Inanimate {
            seq![Utf8Letter::I]
        } else {
            seq![Utf8Letter::Ye, Utf8Letter::Iy]
        }),
        info.number == Number::Plural && info.gender == Gender::Masculine && d.stem_type == NounStemType::Type3 ==> d.spec_find_ending(info) == (if info.animacy == Animacy::Inanimate {
            seq![Utf8Letter::I]
        } else {
            seq![Utf8Letter::O, Utf8Letter::V]
        }),
        info.number == Number::Plural && info.gender == Gender::Masculine && d.stem_type == NounStemType::Type4 ==> d.spec_find_ending(info) == (if info.animacy == Animacy::Inanimate {
            seq![Utf8Letter::I]
        } else {
            seq![Utf8Letter::Ye, Utf8Letter::Iy]
        }),
        info.number == Number::Plural && info.gender == Gender::Masculine && d.stem_type == NounStemType::Type5 ==> d.spec_find_ending(info) == (if info.animacy == Animacy::Inanimate {
            seq![Utf8Letter::Y]
        } else {
            (if !d.stress.spec_is_stem_stressed(info) { seq![Utf8Letter::O, Utf8Letter::V] } else { seq![Utf8Letter::Ye, Utf8Letter::V] })
        }),
        info.number == Number::Plural && info.gender == Gender::Masculine && d.stem_type == NounStemType::Type6 ==> d.spec_find_ending(info) == (if info.animacy == Animacy::Inanimate {
            seq![Utf8Letter::I]
        } else {
            (if !d.stress.spec_is_stem_stressed(info) { seq![Utf8Letter::Yo, Utf8Letter::V] } else { seq![Utf8Letter::Ye, Utf8Letter::V] })
        }),
        info.number == Number::Plural && info.gender == Gender::Masculine && d.stem_type == NounStemType::Type7 ==> d.spec_find_ending(info) == (if info.animacy == Animacy::Inanimate {
            seq![Utf8Letter::I]
        } else {
            (if !d.stress.spec_is_stem_stressed(info) { seq![Utf8Letter::Yo, Utf8Letter::V] } else { seq![Utf8Letter::Ye, Utf8Letter::V] })
        }),
        info.number == Number::Plural && info.gender == Gender::Masculine && d.stem_type == NounStemType::Type8 ==> d.spec_find_ending(info) == (if info.animacy == Animacy::Inanimate {
            seq![Utf8Letter::I]
        } else {
            seq![Utf8Letter::Ye, Utf8Letter::Iy]
        }),
        info.number == Number::Plural && info.gender == Gender::Neuter && d.stem_type == NounStemType::Type1 ==> d.spec_find_ending(info) == (if info.animacy == Animacy::Inanimate {
            seq![Utf8Letter::A]
        } else {
            Seq::<Utf8Letter>::empty()
        }),
        info.number == Number::Plural && info.gender == Gender::Neuter && d.stem_type == NounStemType::Type2 ==> d.spec_find_ending(info) == (if info.animacy == Animacy::Inanimate {
            seq![Utf8Letter::Ya]
        } else {
            (if !d.stress.spec_is_stem_stressed(info) { seq![Utf8Letter::Ye, Utf8Letter::Iy] } else { seq![Utf8Letter::SoftSign] })
        }),
        info.number == Number::Plural && info.gender == Gender::Neuter && d.stem_type == NounStemType::Type3 ==> d.spec_find_ending(info) == (if info.animacy == Animacy::Inanimate {
            seq![Utf8Letter::A]
        } else {
            Seq::<Utf8Letter>::empty()
        }),
        info.number == Number::Plural && info.gender == Gender::Neuter && d.stem_type == NounStemType::Type4 ==> d.spec_find_ending(info) == (if info.animacy == Animacy::Inanimate {
            seq![Utf8Letter::A]
        } else {
            (if !d.stress.spec_is_stem_stressed(info) { seq![Utf8Letter::Ye, Utf8Letter::Iy] } else { Seq::<Utf8Letter>::empty() })
        }),
        info.number == Number::Plural && info.gender == Gender::Neuter && d.stem_type == NounStemType::Type5 ==> d.spec_find_ending(info) == (if info.animacy == Animacy::Inanimate {
            seq![Utf8Letter::A]
        } else {
            Seq::<Utf8Letter>::empty()
        }),
        info.number == Number::Plural && info.gender == Gender::Neuter && d.stem_type == NounStemType::Type6 ==> d.spec_find_ending(info) == (if info.animacy == Animacy::Inanimate {
            seq![Utf8Letter::Ya]
        } else {
            seq![Utf8Letter::Iy]
        }),
        info.number == Number::Plural && info.gender == Gender::Neuter && d.stem_type == NounStemType::Type7 ==> d.spec_find_ending(info) == (if info.animacy == Animacy::Inanimate {
            seq![Utf8Letter::Ya]
        } else {
            seq![Utf8Letter::Iy]
        }),
        info.number == Number::Plural && info.gender == Gender::Neuter && d.stem_type == NounStemType::Type8 ==> d.spec_find_ending(info) == (if info.animacy == Animacy::Inanimate {
            seq![Utf8Letter::A]
        } else {
            Seq::<Utf8Letter>::empty()
        }),
        info.number == Number::Plural && info.gender == Gender::Feminine && d.stem_type == NounStemType::Type1 ==> d.spec_find_ending(info) == (if info.animacy == Animacy::Inanimate {
            seq![Utf8Letter::Y]
        } else {
            Seq::<Utf8Letter>::empty()
        }),
        info.number == Number::Plural && info.gender == Gender::Feminine && d.stem_type == NounStemType::Type2 ==> d.spec_find_ending(info) == (if info.animacy == Animacy::Inanimate {
            seq![Utf8Letter::I]
        } else {
            (if !d.stress.spec_is_stem_stressed(info) { seq![Utf8Letter::Ye, Utf8Letter::Iy] } else { seq![Utf8Letter::SoftSign] })
        }),
        info.number == Number::Plural && info.gender == Gender::Feminine && d.stem_type == NounStemType::Type3 ==> d.spec_find_ending(info) == (if info.animacy == Animacy::Inanimate {
            seq![Utf8Letter::I]
        } else {
            Seq::<Utf8Letter>::empty()
        }),
        info.number == Number::Plural && info.gender == Gender::Feminine && d.stem_type == NounStemType::Type4 ==> d.spec_find_ending(info) == (if info.animacy == Animacy::Inanimate {
            seq![Utf8Letter::I]
        } else {
            (if !d.stress.spec_is_stem_stressed(info) { seq![Utf8Letter::Ye, Utf8Letter::Iy] } else { Seq::<Utf8Letter>::empty() })
        }),
        info.number == Number::Plural && info.gender == Gender::Feminine && d.stem_type == NounStemType::Type5 ==> d.spec_find_ending(info) == (if info.animacy == Animacy::Inanimate {
            seq![Utf8Letter::Y]
        } else {
            Seq::<Utf8Letter>::empty()
        }),
        info.number == Number::Plural && info.gender == Gender::Feminine && d.stem_type == NounStemType::Type6 ==> d.spec_find_ending(info) == (if info.animacy == Animacy::Inanimate {
            seq![Utf8Letter::I]
        } else {
            seq![Utf8Letter::Iy]
        }),
        info.number == Number::Plural && info.gender == Gender::Feminine && d.stem_type == NounStemType::Type7 ==> d.spec_find_ending(info) == (if info.animacy == Animacy::Inanimate {
            seq![Utf8Letter::I]
        } else {
            seq![Utf8Letter::Iy]
        }),
        info.number == Number::Plural && info.gender == Gender::Feminine && d.stem_type == NounStemType::Type8 ==> d.spec_find_ending(info) == (if info.animacy == Animacy::Inanimate {
            seq![Utf8Letter::I]
        } else {
            seq![Utf8Letter::Ye, Utf8Letter::Iy]
        }),
{
}

/// The endings of nouns in the instrumental case, for each number, gender and stem type,
/// in a declension without circled digits: where two are given, the first is unstressed
/// and the second stressed.
#[verifier::rlimit(100)]
pub proof fn law_noun_endings_instrumental(d: NounDeclension, info: DeclInfo)
    requires
        info.case == Case::Instrumental,
        !d.flags.circled_one && !d.flags.circled_two && !d.flags.circled_three,
    ensures
        info.number == Number::Singular && info.gender == Gender::Masculine && (d.stem_type == NounStemType::Type1 || d.stem_type == NounStemType::Type3) ==> d.spec_find_ending(info) == seq![Utf8Letter::O, Utf8Letter::M],
        info.number == Number::Singular && info.gender == Gender::Masculine && (d.stem_type == NounStemType::Type2 || d.stem_type == NounStemType::Type6 || d.stem_type == NounStemType::Type7 || d.stem_type == NounStemType::Type8) ==> d.spec_find_ending(info) == (if !d.stress.spec_is_stem_stressed(info) { seq![Utf8Letter::Yo, Utf8Letter::M] } else { seq![Utf8Letter::Ye, Utf8Letter::M] }),
        info.number == Number::Singular && info.gender == Gender::Masculine && (d.stem_type == NounStemType::Type4 || d.stem_type == NounStemType::Type5) ==> d.spec_find_ending(info) == (if !d.stress.spec_is_stem_stressed(info) { seq![Utf8Letter::O, Utf8Letter::M] } else { seq![Utf8Letter::Ye, Utf8Letter::M] }),
        info.number == Number::Singular && info.gender == Gender::Neuter && (d.stem_type == NounStemType::Type1 || d.stem_type == NounStemType::Type3 || d.stem_type == NounStemType::Type8) ==> d.spec_find_ending(info) == seq![Utf8Letter::O, Utf8Letter::M],
        info.number == Number::Singular && info.gender == Gender::Neuter && (d.stem_type == NounStemType::Type2 || d.stem_type == NounStemType::Type6 || d.stem_type == NounStemType::Type7) ==> d.spec_find_ending(info) == (if !d.stress.spec_is_stem_stressed(info) { seq![Utf8Letter::Yo, Utf8Letter::M] } else { seq![Utf8Letter::Ye, Utf8Letter::M] }),
        info.number == Number::Singular && info.gender == Gender::Neuter && (d.stem_type == NounStemType::Type4 || d.stem_type == NounStemType::Type5) ==> d.spec_find_ending(info) == (if !d.stress.spec_is_stem_stressed(info) { seq![Utf8Letter::O, Utf8Letter::M] } else { seq![Utf8Letter::Ye, Utf8Letter::M] }),
        info.number == Number::Singular && info.gender == Gender::Feminine && (d.stem_type == NounStemType::Type1 || d.stem_type == NounStemType::Type3) ==> d.spec_find_ending(info) == seq![Utf8Letter::O, Utf8Letter::Iy],
        info.number == Number::Singular && info.gender == Gender::Feminine && (d.stem_type == NounStemType::Type2 || d.stem_type == NounStemType::Type6 || d.stem_type == NounStemType::Type7) ==> d.spec_find_ending(info) == (if !d.stress.spec_is_stem_stressed(info) { seq![Utf8Letter::Yo, Utf8Letter::Iy] } else { seq![Utf8Letter::Ye, Utf8Letter::Iy] }),
        info.number == Number::Singular && info.gender == Gender::Feminine && (d.stem_type == NounStemType::Type4 || d.stem_type == NounStemType::Type5) ==> d.spec_find_ending(info) == (if !d.stress.spec_is_stem_stressed(info) { seq![Utf8Letter::O, Utf8Letter::Iy] } else { seq![Utf8Letter::Ye, Utf8Letter::Iy] }),
        info.number == Number::Singular && info.gender == Gender::Feminine && (d.stem_type == NounStemType::Type8) ==> d.spec_find_ending(info) == seq![Utf8Letter::SoftSign, Utf8Letter::Yu],
        info.number == Number::Plural && info.gender == Gender::Masculine && (d.stem_type == NounStemType::Type1 || d.stem_type == NounStemType::Type3 || d.stem_type == NounStemType::Type4 || d.stem_type == NounStemType::Type5) ==> d.spec_find_ending(info) == seq![Utf8Letter::A, Utf8Letter::M, Utf8Letter::I],
        info.number == Number::Plural && info.gender == Gender::Masculine && (d.stem_type == NounStemType::Type2 || d.stem_type == NounStemType::Type6 || d.stem_type == NounStemType::Type7 || d.stem_type == NounStemType::Type8) ==> d.spec_find_ending(info) == seq![Utf8Letter::Ya, Utf8Letter::M, Utf8Letter::I],
        info.number == Number::Plural && info.gender == Gender::Neuter && (d.stem_type == NounStemType::Type1 || d.stem_type == NounStemType::Type3 || d.stem_type == NounStemType::Type4 || d.stem_type == NounStemType::Type5 || d.stem_type == NounStemType::Type8) ==> d.spec_find_ending(info) == seq![Utf8Letter::A, Utf8Letter::M, Utf8Letter::I],
        info.number == Number::Plural && info.gender == Gender::Neuter && (d.stem_type == NounStemType::Type2 || d.stem_type == NounStemType::Type6 || d.stem_type == NounStemType::Type7) ==> d.spec_find_ending(info) == seq![Utf8Letter::Ya, Utf8Letter::M, Utf8Letter::I],
        info.number == Number::Plural && info.gender == Gender::Feminine && (d.stem_type == NounStemType::Type1 || d.stem_type == NounStemType::Type3 || d.stem_type == NounStemType::Type4 || d.stem_type == NounStemType::Type5) ==> d.spec_find_ending(info) == seq![Utf8Letter::A, Utf8Letter::M, Utf8Letter::I],
        info.number == Number::Plural && info.gender == Gender::Feminine && (d.stem_type == NounStemType::Type2 || d.stem_type == NounStemType::Type6 || d.stem_type == NounStemType::Type7 || d.stem_type == NounStemType::Type8) ==> d.spec_find_ending(info) == seq![Utf8Letter::Ya, Utf8Letter::M, Utf8Letter::I],
{
}

/// The endings of nouns in the prepositional case, for each number, gender and stem type,
/// in a declension without circled digits: where two are given, the first is unstressed
/// and the second stressed.
#[verifier::rlimit(100)]
pub proof fn law_noun_endings_prepositional(d: NounDeclension, info: DeclInfo)
    requires
        info.case == Case::Prepositional,
        !d.flags.circled_one && !d.flags.circled_two && !d.flags.circled_three,
    ensures
        info.number == Number::Singular && info.gender == Gender::Masculine && (d.stem_type == NounStemType::Type1 || d.stem_type == NounStemType::Type2 || d.stem_type == NounStemType::Type3 || d.stem_type == NounStemType::Type4 || d.stem_type == NounStemType::Type5 || d.stem_type == NounStemType::Type6) ==> d.spec_find_ending(info) == seq![Utf8Letter::Ye],
        info.number == Number::Singular && info.gender == Gender::Masculine && (d.stem_type == NounStemType::Type7) ==> d.spec_find_ending(info) == (if !d.stress.spec_is_stem_stressed(info) { seq![Utf8Letter::Ye] } else { seq![Utf8Letter::I] }),
        info.number == Number::Singular && info.gender == Gender::Masculine && (d.stem_type == NounStemType::Type8) ==> d.spec_find_ending(info) == seq![Utf8Letter::I],
        info.number == Number::Singular && info.gender == Gender::Neuter && (d.stem_type == NounStemType::Type1 || d.stem_type == NounStemType::Type2 || d.stem_type == NounStemType::Type3 || d.stem_type == NounStemType::Type4 || d.stem_type == NounStemType::Type5 || d.stem_type == NounStemType::Type6) ==> d.spec_find_ending(info) == seq![Utf8Letter::Ye],
        info.number == Number::Singular && info.gender == Gender::Neuter && (d.stem_type == NounStemType::Type7) ==> d.spec_find_ending(info) == (if !d.stress.spec_is_stem_stressed(info) { seq![Utf8Letter::Ye] } else { seq![Utf8Letter::I] }),
        info.number == Number::Singular && info.gender == Gender::Neuter && (d.stem_type == NounStemType::Type8) ==> d.spec_find_ending(info) == seq![Utf8Letter::I],
        info.number == Number::Singular && info.gender == Gender::Feminine && (d.stem_type == NounStemType::Type1 || d.stem_type == NounStemType::Type2 || d.stem_type == NounStemType::Type3 || d.stem_type == NounStemType::Type4 || d.stem_type == NounStemType::Type5 || d.stem_type == NounStemType::Type6) ==> d.spec_find_ending(info) == seq![Utf8Letter::Ye],
        info.number == Number::Singular && info.gender == Gender::Feminine && (d.stem_type == NounStemType::Type7) ==> d.spec_find_ending(info) == (if !d.stress.spec_is_stem_stressed(info) { seq![Utf8Letter::Ye] } else { seq![Utf8Letter::I] }),
        info.number == Number::Singular && info.gender == Gender::Feminine && (d.stem_type == NounStemType::Type8) ==> d.spec_find_ending(info) == seq![Utf8Letter::I],
        info.number == Number::Plural && info.gender == Gender::Masculine && (d.stem_type == NounStemType::Type1 || d.stem_type == NounStemType::Type3 || d.stem_type == NounStemType::Type4 || d.stem_type == NounStemType::Type5) ==> d.spec_find_ending(info) == seq![Utf8Letter::A, Utf8Letter::Kh],
        info.number == Number::Plural && info.gender == Gender::Masculine && (d.stem_type == NounStemType::Type2 || d.stem_type == NounStemType::Type6 || d.stem_type == NounStemType::Type7 || d.stem_type == NounStemType::Type8) ==> d.spec_find_ending(info) == seq![Utf8Letter::Ya, Utf8Letter::Kh],
        info.number == Number::Plural && info.gender == Gender::Neuter && (d.stem_type == NounStemType::Type1 || d.stem_type == NounStemType::Type3 || d.stem_type == NounStemType::Type4 || d.stem_type == NounStemType::Type5 || d.stem_type == NounStemType::Type8) ==> d.spec_find_ending(info) == seq![Utf8Letter::A, Utf8Letter::Kh],
        info.number == Number::Plural && info.gender == Gender::Neuter && (d.stem_type == NounStemType::Type2 || d.stem_type == NounStemType::Type6 || d.stem_type == NounStemType::Type7) ==> d.spec_find_ending(info) == seq![Utf8Letter::Ya, Utf8Letter::Kh],
        info.number == Number::Plural && info.gender == Gender::Feminine && (d.stem_type == NounStemType::Type1 || d.stem_type == NounStemType::Type3 || d.stem_type == NounStemType::Type4 || d.stem_type == NounStemType::Type5) ==> d.spec_find_ending(info) == seq![Utf8Letter::A, Utf8Letter::Kh],
        info.number == Number::Plural && info.gender == Gender::Feminine && (d.stem_type == NounStemType::Type2 || d.stem_type == NounStemType::Type6 || d.stem_type == NounStemType::Type7 || d.stem_type == NounStemType::Type8) ==> d.spec_find_ending(info) == seq![Utf8Letter::Ya, Utf8Letter::Kh],
{
}


/// The endings of pronouns in the nominative case, for each number, gender and stem
/// type: where two are given, the first is unstressed and the second stressed.
#[verifier::rlimit(100)]
pub proof fn law_pronoun_endings_nominative(d: PronounDeclension, info: DeclInfo)
    requires
        info.case == Case::Nominative,
    ensures
        info.number == Number::Singular && info.gender == Gender::Masculine && (d.stem_type == PronounStemType::Type1 || d.stem_type == PronounStemType::Type4) ==> d.spec_find_ending(info) == Seq::<Utf8Letter>::empty(),
        info.number == Number::Singular && info.gender == Gender::Masculine && (d.stem_type == PronounStemType::Type2) ==> d.spec_find_ending(info) == seq![Utf8Letter::SoftSign],
        info.number == Number::Singular && info.gender == Gender::Masculine && (d.stem_type == PronounStemType::Type6) ==> d.spec_find_ending(info) == seq![Utf8Letter::Iy],
        info.number == Number::Singular && info.gender == Gender::Neuter && (d.stem_type == PronounStemType::Type1) ==> d.spec_find_ending(info) == seq![Utf8Letter::O],
        info.number == Number::Singular && info.gender == Gender::Neuter && (d.stem_type == PronounStemType::Type2 || d.stem_type == PronounStemType::Type6) ==> d.spec_find_ending(info) == (if !d.stress.spec_is_stem_stressed(info) { seq![Utf8Letter::Yo] } else { seq![Utf8Letter::Ye] }),
        info.number == Number::Singular && info.gender == Gender::Neuter && (d.stem_type == PronounStemType::Type4) ==> d.spec_find_ending(info) == (if !d.stress.spec_is_stem_stressed(info) { seq![Utf8Letter::O] } else { seq![Utf8Letter::Ye] }),
        info.number == Number::Singular && info.gender == Gender::Feminine && (d.stem_type == PronounStemType::Type1 || d.stem_type == PronounStemType::Type4) ==> d.spec_find_ending(info) == seq![Utf8Letter::A],
        info.number == Number::Singular && info.gender == Gender::Feminine && (d.stem_type == PronounStemType::Type2 || d.stem_type == PronounStemType::Type6) ==> d.spec_find_ending(info) == seq![Utf8Letter::Ya],
        info.number == Number::Plural && (d.stem_type == PronounStemType::Type1) ==> d.spec_find_ending(info) == seq![Utf8Letter::Y],
        info.number == Number::Plural && (d.stem_type == PronounStemType::Type2 || d.stem_type == PronounStemType::Type4 || d.stem_type == PronounStemType::Type6) ==> d.spec_find_ending(info) == seq![Utf8Letter::I],
{
}

/// The endings of pronouns in the genitive case, for each number, gender and stem
/// type: where two are given, the first is unstressed and the second stressed.
#[verifier::rlimit(100)]
pub proof fn law_pronoun_endings_genitive(d: PronounDeclension, info: DeclInfo)
    requires
        info.case == Case::Genitive,
    ensures
        info.number == Number::Singular && info.gender == Gender::Masculine && (d.stem_type == PronounStemType::Type1) ==> d.spec_find_ending(info) == seq![Utf8Letter::A],
        info.number == Number::Singular && info.gender == Gender::Masculine && (d.stem_type == PronounStemType::Type2) ==> d.spec_find_ending(info) == seq![Utf8Letter::Ya],
        info.number == Number::Singular && info.gender == Gender::Masculine && (d.stem_type == PronounStemType::Type4) ==> d.spec_find_ending(info) == (if !d.stress.spec_is_stem_stressed(info) { seq![Utf8Letter::O, Utf8Letter::G, Utf8Letter::O] } else { seq![Utf8Letter::Ye, Utf8Letter::G, Utf8Letter::O] }),
        info.number == Number::Singular && info.gender == Gender::Masculine && (d.stem_type == PronounStemType::Type6) ==> d.spec_find_ending(info) == seq![Utf8Letter::Ye, Utf8Letter::G, Utf8Letter::O],
        info.number == Number::Singular && info.gender == Gender::Neuter && (d.stem_type == PronounStemType::Type1) ==> d.spec_find_ending(info) == seq![Utf8Letter::A],
        info.number == Number::Singular && info.gender == Gender::Neuter && (d.stem_type == PronounStemType::Type2) ==> d.spec_find_ending(info) == seq![Utf8Letter::Ya],
        info.number == Number::Singular && info.gender == Gender::Neuter && (d.stem_type == PronounStemType::Type4) ==> d.spec_find_ending(info) == (if !d.stress.spec_is_stem_stressed(info) { seq![Utf8Letter::O, Utf8Letter::G, Utf8Letter::O] } else { seq![Utf8Letter::Ye, Utf8Letter::G, Utf8Letter::O] }),
        info.number == Number::Singular && info.gender == Gender::Neuter && (d.stem_type == PronounStemType::Type6) ==> d.spec_find_ending(info) == seq![Utf8Letter::Ye, Utf8Letter::G, Utf8Letter::O],
        info.number == Number::Singular && info.gender == Gender::Feminine && (d.stem_type == PronounStemType::Type1) ==> d.spec_find_ending(info) == seq![Utf8Letter::O, Utf8Letter::Iy],
        info.number == Number::Singular && info.gender == Gender::Feminine && (d.stem_type == PronounStemType::Type2 || d.stem_type == PronounStemType::Type6) ==> d.spec_find_ending(info) == seq![Utf8Letter::Ye, Utf8Letter::Iy],
        info.number == Number::Singular && info.gender == Gender::Feminine && (d.stem_type == PronounStemType::Type4) ==> d.spec_find_ending(info) == (if !d.stress.spec_is_stem_stressed(info) { seq![Utf8Letter::O, Utf8Letter::Iy] } else { seq![Utf8Letter::Ye, Utf8Letter::Iy] }),
        info.number == Number::Plural && (d.stem_type == PronounStemType::Type1) ==> d.spec_find_ending(info) == seq![Utf8Letter::Y, Utf8Letter::Kh],
        info.number == Number::Plural && (d.stem_type == PronounStemType::Type2 || d.stem_type == PronounStemType::Type4 || d.stem_type == PronounStemType::Type6) ==> d.spec_find_ending(info) == seq![Utf8Letter::I, Utf8Letter::Kh],
{
}

/// The endings of pronouns in the dative case, for each number, gender and stem
/// type: where two are given, the first is unstressed and the second stressed.
#[verifier::rlimit(100)]
pub proof fn law_pronoun_endings_dative(d: PronounDeclension, info: DeclInfo)
    requires
        info.case == Case::Dative,
    ensures
        info.number == Number::Singular && info.gender == Gender::Masculine && (d.stem_type == PronounStemType::Type1) ==> d.spec_find_ending(info) == seq![Utf8Letter::U],
        info.number == Number::Singular && info.gender == Gender::Masculine && (d.stem_type == PronounStemType::Type2) ==> d.spec_find_ending(info) == seq![Utf8Letter::Yu],
        info.number == Number::Singular && info.gender == Gender::Masculine && (d.stem_type == PronounStemType::Type4) ==> d.spec_find_ending(info) == (if !d.stress.spec_is_stem_stressed(info) { seq![Utf8Letter::O, Utf8Letter::M, Utf8Letter::U] } else { seq![Utf8Letter::Ye, Utf8Letter::M, Utf8Letter::U] }),
        info.number == Number::Singular && info.gender == Gender::Masculine && (d.stem_type == PronounStemType::Type6) ==> d.spec_find_ending(info) == seq![Utf8Letter::Ye, Utf8Letter::M, Utf8Letter::U],
        info.number == Number::Singular && info.gender == Gender::Neuter && (d.stem_type == PronounStemType::Type1) ==> d.spec_find_ending(info) == seq![Utf8Letter::U],
        info.number == Number::Singular && info.gender == Gender::Neuter && (d.stem_type == PronounStemType::Type2) ==> d.spec_find_ending(info) == seq![Utf8Letter::Yu],
        info.number == Number::Singular && info.gender == Gender::Neuter && (d.stem_type == PronounStemType::Type4) ==> d.spec_find_ending(info) == (if !d.stress.spec_is_stem_stressed(info) { seq![Utf8Letter::O, Utf8Letter::M, Utf8Letter::U] } else { seq![Utf8Letter::Ye, Utf8Letter::M, Utf8Letter::U] }),
        info.number == Number::Singular && info.gender == Gender::Neuter && (d.stem_type == PronounStemType::Type6) ==> d.spec_find_ending(info) == seq![Utf8Letter::Ye, Utf8Letter::M, Utf8Letter::U],
        info.number == Number::Singular && info.gender == Gender::Feminine && (d.stem_type == PronounStemType::Type1) ==> d.spec_find_ending(info) == seq![Utf8Letter::O, Utf8Letter::Iy],
        info.number == Number::Singular && info.gender == Gender::Feminine && (d.stem_type == PronounStemType::Type2 || d.stem_type == PronounStemType::Type6) ==> d.spec_find_ending(info) == seq![Utf8Letter::Ye, Utf8Letter::Iy],
        info.number == Number::Singular && info.gender == Gender::Feminine && (d.stem_type == PronounStemType::Type4) ==> d.spec_find_ending(info) == (if !d.stress.spec_is_stem_stressed(info) { seq![Utf8Letter::O, Utf8Letter::Iy] } else { seq![Utf8Letter::Ye, Utf8Letter::Iy] }),
        info.number == Number::Plural && (d.stem_type == PronounStemType::Type1) ==> d.spec_find_ending(info) == seq![Utf8Letter::Y, Utf8Letter::M],
        info.number == Number::Plural && (d.stem_type == PronounStemType::Type2 || d.stem_type == PronounStemType::Type4 || d.stem_type == PronounStemType::Type6) ==> d.spec_find_ending(info) == seq![Utf8Letter::I, Utf8Letter::M],
{
}

/// The endings of pronouns in the accusative case: those of the nominative case for
/// inanimate words and of the genitive case for animate ones, except in the feminine
/// singular, which has its own.
/// An animate pronoun of stem type 2 takes the genitive endings of stem type 4.
#[verifier::rlimit(100)]
pub proof fn law_pronoun_endings_accusative(d: PronounDeclension, info: DeclInfo)
    requires
        info.case == Case::Accusative,
    ensures
        info.number == Number::Singular && info.gender == Gender::Masculine && d.stem_type == PronounStemType::Type1 ==> d.spec_find_ending(info) == (if info.animacy == Animacy::Inanimate {
            Seq::<Utf8Letter>::empty()
        } else {
            seq![Utf8Letter::A]
        }),
        info.number == Number::Singular && info.gender == Gender::Masculine && d.stem_type == PronounStemType::Type2 ==> d.spec_find_ending(info) == (if info.animacy == Animacy::Inanimate {
            seq![Utf8Letter::SoftSign]
        } else {
            (if !d.stress.spec_is_stem_stressed(info) { seq![Utf8Letter::O, Utf8Letter::G, Utf8Letter::O] } else { seq![Utf8Letter::Ye, Utf8Letter::G, Utf8Letter::O] })
        }),
        info.number == Number::Singular && info.gender == Gender::Masculine && d.stem_type == PronounStemType::Type4 ==> d.spec_find_ending(info) == (if info.animacy == Animacy::Inanimate {
            Seq::<Utf8Letter>::empty()
        } else {
            (if !d.stress.spec_is_stem_stressed(info) { seq![Utf8Letter::O, Utf8Letter::G, Utf8Letter::O] } else { seq![Utf8Letter::Ye, Utf8Letter::G, Utf8Letter::O] })
        }),
        info.number == Number::Singular && info.gender == Gender::Masculine && d.stem_type == PronounStemType::Type6 ==> d.spec_find_ending(info) == (if info.animacy == Animacy::Inanimate {
            seq![Utf8Letter::Iy]
        } else {
            seq![Utf8Letter::Ye, Utf8Letter::G, Utf8Letter::O]
        }),
        info.number == Number::Singular && info.gender == Gender::Neuter && d.stem_type == PronounStemType::Type1 ==> d.spec_find_ending(info) == (if info.animacy == Animacy::Inanimate {
            seq![Utf8Letter::O]
        } else {
            seq![Utf8Letter::A]
        }),
        info.number == Number::Singular && info.gender == Gender::Neuter && d.stem_type == PronounStemType::Type2 ==> d.spec_find_ending(info) == (if info.animacy == Animacy::Inanimate {
            (if !d.stress.spec_is_stem_stressed(info) { seq![Utf8Letter::Yo] } else { seq![Utf8Letter::Ye] })
        } else {
            (if !d.stress.spec_is_stem_stressed(info) { seq![Utf8Letter::O, Utf8Letter::G, Utf8Letter::O] } else { seq![Utf8Letter::Ye, Utf8Letter::G, Utf8Letter::O] })
        }),
        info.number == Number::Singular && info.gender == Gender::Neuter && d.stem_type == PronounStemType::Type4 ==> d.spec_find_ending(info) == (if info.animacy == Animacy::Inanimate {
            (if !d.stress.spec_is_stem_stressed(info) { seq![Utf8Letter::O] } else { seq![Utf8Letter::Ye] })
        } else {
            (if !d.stress.spec_is_stem_stressed(info) { seq![Utf8Letter::O, Utf8Letter::G, Utf8Letter::O] } else { seq![Utf8Letter::Ye, Utf8Letter::G, Utf8Letter::O] })
        }),
        info.number == Number::Singular && info.gender == Gender::Neuter && d.stem_type == PronounStemType::Type6 ==> d.spec_find_ending(info) == (if info.animacy == Animacy::Inanimate {
            (if !d.stress.spec_is_stem_stressed(info) { seq![Utf8Letter::Yo] } else { seq![Utf8Letter::Ye] })
        } else {
            seq![Utf8Letter::Ye, Utf8Letter::G, Utf8Letter::O]
        }),
        info.number == Number::Singular && info.gender == Gender::Feminine && (d.stem_type == PronounStemType::Type1 || d.stem_type == PronounStemType::Type4) ==> d.spec_find_ending(info) == seq![Utf8Letter::U],
        info.number == Number::Singular && info.gender == Gender::Feminine && (d.stem_type == PronounStemType::Type2 || d.stem_type == PronounStemType::Type6) ==> d.spec_find_ending(info) == seq![Utf8Letter::Yu],
        info.number == Number::Plural && d.stem_type == PronounStemType::Type1 ==> d.spec_find_ending(info) == (if info.animacy == Animacy::Inanimate {
            seq![Utf8Letter::Y]
        } else {
            seq![Utf8Letter::Y, Utf8Letter::Kh]
        }),
        info.number == Number::Plural && d.stem_type == PronounStemType::Type2 ==> d.spec_find_ending(info) == (if info.animacy == Animacy::Inanimate {
            seq![Utf8Letter::I]
        } else {
            seq![Utf8Letter::I, Utf8Letter::Kh]
        }),
        info.number == Number::Plural && d.stem_type == PronounStemType::Type4 ==> d.spec_find_ending(info) == (if info.animacy == Animacy::Inanimate {
            seq![Utf8Letter::I]
        } else {
            seq![Utf8Letter::I, Utf8Letter::Kh]
        }),
        info.number == Number::Plural && d.stem_type == PronounStemType::Type6 ==> d.spec_find_ending(info) == (if info.animacy == Animacy::Inanimate {
            seq![Utf8Letter::I]
        } else {
            seq![Utf8Letter::I, Utf8Letter::Kh]
        }),
{
}

/// The endings of pronouns in the instrumental case, for each number, gender and stem
/// type: where two are given, the first is unstressed and the second stressed.
#[verifier::rlimit(100)]
pub proof fn law_pronoun_endings_instrumental(d: PronounDeclension, info: DeclInfo)
    requires
        info.case == Case::Instrumental,
    ensures
        info.number == Number::Singular && info.gender == Gender::Masculine && (d.stem_type == PronounStemType::Type1) ==> d.spec_find_ending(info) == seq![Utf8Letter::Y, Utf8Letter::M],
        info.number == Number::Singular && info.gender == Gender::Masculine && (d.stem_type == PronounStemType::Type2 || d.stem_type == PronounStemType::Type4 || d.stem_type == PronounStemType::Type6) ==> d.spec_find_ending(info) == seq![Utf8Letter::I, Utf8Letter::M],
        info.number == Number::Singular && info.gender == Gender::Neuter && (d.stem_type == PronounStemType::Type1) ==> d.spec_find_ending(info) == seq![Utf8Letter::Y, Utf8Letter::M],
        info.number == Number::Singular && info.gender == Gender::Neuter && (d.stem_type == PronounStemType::Type2 || d.stem_type == PronounStemType::Type4 || d.stem_type == PronounStemType::Type6) ==> d.spec_find_ending(info) == seq![Utf8Letter::I, Utf8Letter::M],
        info.number == Number::Singular && info.gender == Gender::Feminine && (d.stem_type == PronounStemType::Type1) ==> d.spec_find_ending(info) == seq![Utf8Letter::O, Utf8Letter::Iy],
        info.number == Number::Singular && info.gender == Gender::Feminine && (d.stem_type == PronounStemType::Type2 || d.stem_type == PronounStemType::Type6) ==> d.spec_find_ending(info) == seq![Utf8Letter::Ye, Utf8Letter::Iy],
        info.number == Number::Singular && info.gender == Gender::Feminine && (d.stem_type == PronounStemType::Type4) ==> d.spec_find_ending(info) == (if !d.stress.spec_is_stem_stressed(info) { seq![Utf8Letter::O, Utf8Letter::Iy] } else { seq![Utf8Letter::Ye, Utf8Letter::Iy] }),
        info.number == Number::Plural && (d.stem_type == PronounStemType::Type1) ==> d.spec_find_ending(info) == seq![Utf8Letter::Y, Utf8Letter::M, Utf8Letter::I],
        info.number == Number::Plural && (d.stem_type == PronounStemType::Type2 || d.stem_type == PronounStemType::Type4 || d.stem_type == PronounStemType::Type6) ==> d.spec_find_ending(info) == seq![Utf8Letter::I, Utf8Letter::M, Utf8Letter::I],
{
}

/// The endings of pronouns in the prepositional case, for each number, gender and stem
/// type: where two are given, the first is unstressed and the second stressed.
#[verifier::rlimit(100)]
pub proof fn law_pronoun_endings_prepositional(d: PronounDeclension, info: DeclInfo)
    requires
        info.case == Case::Prepositional,
    ensures
        info.number == Number::Singular && info.gender == Gender::Masculine && (d.stem_type == PronounStemType::Type1) ==> d.spec_find_ending(info) == seq![Utf8Letter::O, Utf8Letter::M],
        info.number == Number::Singular && info.gender == Gender::Masculine && (d.stem_type == PronounStemType::Type2 || d.stem_type == PronounStemType::Type6) ==> d.spec_find_ending(info) == (if !d.stress.spec_is_stem_stressed(info) { seq![Utf8Letter::Yo, Utf8Letter::M] } else { seq![Utf8Letter::Ye, Utf8Letter::M] }),
        info.number == Number::Singular && info.gender == Gender::Masculine && (d.stem_type == PronounStemType::Type4) ==> d.spec_find_ending(info) == (if !d.stress.spec_is_stem_stressed(info) { seq![Utf8Letter::O, Utf8Letter::M] } else { seq![Utf8Letter::Ye, Utf8Letter::M] }),
        info.number == Number::Singular && info.gender == Gender::Neuter && (d.stem_type == PronounStemType::Type1) ==> d.spec_find_ending(info) == seq![Utf8Letter::O, Utf8Letter::M],
        info.number == Number::Singular && info.gender == Gender::Neuter && (d.stem_type == PronounStemType::Type2 || d.stem_type == PronounStemType::Type6) ==> d.spec_find_ending(info) == (if !d.stress.spec_is_stem_stressed(info) { seq![Utf8Letter::Yo, Utf8Letter::M] } else { seq![Utf8Letter::Ye, Utf8Letter::M] }),
        info.number == Number::Singular && info.gender == Gender::Neuter && (d.stem_type == PronounStemType::Type4) ==> d.spec_find_ending(info) == (if !d.stress.spec_is_stem_stressed(info) { seq![Utf8Letter::O, Utf8Letter::M] } else { seq![Utf8Letter::Ye, Utf8Letter::M] }),
        info.number == Number::Singular && info.gender == Gender::Feminine && (d.stem_type == PronounStemType::Type1) ==> d.spec_find_ending(info) == seq![Utf8Letter::O, Utf8Letter::Iy],
        info.number == Number::Singular && info.gender == Gender::Feminine && (d.stem_type == PronounStemType::Type2 || d.stem_type == PronounStemType::Type6) ==> d.spec_find_ending(info) == seq![Utf8Letter::Ye, Utf8Letter::Iy],
        info.number == Number::Singular && info.gender == Gender::Feminine && (d.stem_type == PronounStemType::Type4) ==> d.spec_find_ending(info) == (if !d.stress.spec_is_stem_stressed(info) { seq![Utf8Letter::O, Utf8Letter::Iy] } else { seq![Utf8Letter::Ye, Utf8Letter::Iy] }),
        info.number == Number::Plural && (d.stem_type == PronounStemType::Type1) ==> d.spec_find_ending(info) == seq![Utf8Letter::Y, Utf8Letter::Kh],
        info.number == Number::Plural && (d.stem_type == PronounStemType::Type2 || d.stem_type == PronounStemType::Type4 || d.stem_type == PronounStemType::Type6) ==> d.spec_find_ending(info) == seq![Utf8Letter::I, Utf8Letter::Kh],
{
}

/// The endings of adjectives' full forms in the nominative case, for each number, gender and stem
/// type: where two are given, the first is unstressed and the second stressed.
#[verifier::rlimit(100)]
pub proof fn law_adjective_endings_nominative(d: AdjectiveDeclension, info: DeclInfo)
    requires
        info.case == Case::Nominative,
    ensures
        info.number == Number::Singular && info.gender == Gender::Masculine && (d.stem_type == AdjectiveStemType::Type1 || d.stem_type == AdjectiveStemType::Type5) ==> d.spec_find_ending(info) == (if d.stress.full == AdjectiveFullStress::B { seq![Utf8Letter::O, Utf8Letter::Iy] } else { seq![Utf8Letter::Y, Utf8Letter::Iy] }),
        info.number == Number::Singular && info.gender == Gender::Masculine && (d.stem_type == AdjectiveStemType::Type2 || d.stem_type == AdjectiveStemType::Type6) ==> d.spec_find_ending(info) == seq![Utf8Letter::I, Utf8Letter::Iy],
        info.number == Number::Singular && info.gender == Gender::Masculine && (d.stem_type == AdjectiveStemType::Type3 || d.stem_type == AdjectiveStemType::Type4) ==> d.spec_find_ending(info) == (if d.stress.full == AdjectiveFullStress::B { seq![Utf8Letter::O, Utf8Letter::Iy] } else { seq![Utf8Letter::I, Utf8Letter::Iy] }),
        info.number == Number::Singular && info.gender == Gender::Neuter && (d.stem_type == AdjectiveStemType::Type1 || d.stem_type == AdjectiveStemType::Type3) ==> d.spec_find_ending(info) == seq![Utf8Letter::O, Utf8Letter::Ye],
        info.number == Number::Singular && info.gender == Gender::Neuter && (d.stem_type == AdjectiveStemType::Type2 || d.stem_type == AdjectiveStemType::Type6) ==> d.spec_find_ending(info) == seq![Utf8Letter::Ye, Utf8Letter::Ye],
        info.number == Number::Singular && info.gender == Gender::Neuter && (d.stem_type == AdjectiveStemType::Type4 || d.stem_type == AdjectiveStemType::Type5) ==> d.spec_find_ending(info) == (if d.stress.full == AdjectiveFullStress::B { seq![Utf8Letter::O, Utf8Letter::Ye] } else { seq![Utf8Letter::Ye, Utf8Letter::Ye] }),
        info.number == Number::Singular && info.gender == Gender::Feminine && (d.stem_type == AdjectiveStemType::Type1 || d.stem_type == AdjectiveStemType::Type3 || d.stem_type == AdjectiveStemType::Type4 || d.stem_type == AdjectiveStemType::Type5) ==> d.spec_find_ending(info) == seq![Utf8Letter::A, Utf8Letter::Ya],
        info.number == Number::Singular && info.gender == Gender::Feminine && (d.stem_type == AdjectiveStemType::Type2 || d.stem_type == AdjectiveStemType::Type6) ==> d.spec_find_ending(info) == seq![Utf8Letter::Ya, Utf8Letter::Ya],
        info.number == Number::Plural && (d.stem_type == AdjectiveStemType::Type1 || d.stem_type == AdjectiveStemType::Type5) ==> d.spec_find_ending(info) == seq![Utf8Letter::Y, Utf8Letter::Ye],
        info.number == Number::Plural && (d.stem_type == AdjectiveStemType::Type2 || d.stem_type == AdjectiveStemType::Type3 || d.stem_type == AdjectiveStemType::Type4 || d.stem_type == AdjectiveStemType::Type6) ==> d.spec_find_ending(info) == seq![Utf8Letter::I, Utf8Letter::Ye],
{
}

/// The endings of adjectives' full forms in the genitive case, for each number, gender and stem
/// type: where two are given, the first is unstressed and the second stressed.
#[verifier::rlimit(100)]
pub proof fn law_adjective_endings_genitive(d: AdjectiveDeclension, info: DeclInfo)
    requires
        info.case == Case::Genitive,
    ensures
        info.number == Number::Singular && info.gender == Gender::Masculine && (d.stem_type == AdjectiveStemType::Type1 || d.stem_type == AdjectiveStemType::Type3) ==> d.spec_find_ending(info) == seq![Utf8Letter::O, Utf8Letter::G, Utf8Letter::O],
        info.number == Number::Singular && info.gender == Gender::Masculine && (d.stem_type == AdjectiveStemType::Type2 || d.stem_type == AdjectiveStemType::Type6) ==> d.spec_find_ending(info) == seq![Utf8Letter::Ye, Utf8Letter::G, Utf8Letter::O],
        info.number == Number::Singular && info.gender == Gender::Masculine && (d.stem_type == AdjectiveStemType::Type4 || d.stem_type == AdjectiveStemType::Type5) ==> d.spec_find_ending(info) == (if d.stress.full == AdjectiveFullStress::B { seq![Utf8Letter::O, Utf8Letter::G, Utf8Letter::O] } else { seq![Utf8Letter::Ye, Utf8Letter::G, Utf8Letter::O] }),
        info.number == Number::Singular && info.gender == Gender::Neuter && (d.stem_type == AdjectiveStemType::Type1 || d.stem_type == AdjectiveStemType::Type3) ==> d.spec_find_ending(info) == seq![Utf8Letter::O, Utf8Letter::G, Utf8Letter::O],
        info.number == Number::Singular && info.gender == Gender::Neuter && (d.stem_type == AdjectiveStemType::Type2 || d.stem_type == AdjectiveStemType::Type6) ==> d.spec_find_ending(info) == seq![Utf8Letter::Ye, Utf8Letter::G, Utf8Letter::O],
        info.number == Number::Singular && info.gender == Gender::Neuter && (d.stem_type == AdjectiveStemType::Type4 || d.stem_type == AdjectiveStemType::Type5) ==> d.spec_find_ending(info) == (if d.stress.full == AdjectiveFullStress::B { seq![Utf8Letter::O, Utf8Letter::G, Utf8Letter::O] } else { seq![Utf8Letter::Ye, Utf8Letter::G, Utf8Letter::O] }),
        info.number == Number::Singular && info.gender == Gender::Feminine && (d.stem_type == AdjectiveStemType::Type1 || d.stem_type == AdjectiveStemType::Type3) ==> d.spec_find_ending(info) == seq![Utf8Letter::O, Utf8Letter::Iy],
        info.number == Number::Singular && info.gender == Gender::Feminine && (d.stem_type == AdjectiveStemType::Type2 || d.stem_type == AdjectiveStemType::Type6) ==> d.spec_find_ending(info) == seq![Utf8Letter::Ye, Utf8Letter::Iy],
        info.number == Number::Singular && info.gender == Gender::Feminine && (d.stem_type == AdjectiveStemType::Type4 || d.stem_type == AdjectiveStemType::Type5) ==> d.spec_find_ending(info) == (if d.stress.full == AdjectiveFullStress::B { seq![Utf8Letter::O, Utf8Letter::Iy] } else { seq![Utf8Letter::Ye, Utf8Letter::Iy] }),
        info.number == Number::Plural && (d.stem_type == AdjectiveStemType::Type1 || d.stem_type == AdjectiveStemType::Type5) ==> d.spec_find_ending(info) == seq![Utf8Letter::Y, Utf8Letter::Kh],
        info.number == Number::Plural && (d.stem_type == AdjectiveStemType::Type2 || d.stem_type == AdjectiveStemType::Type3 || d.stem_type == AdjectiveStemType::Type4 || d.stem_type == AdjectiveStemType::Type6) ==> d.spec_find_ending(info) == seq![Utf8Letter::I, Utf8Letter::Kh],
{
}

/// The endings of adjectives' full forms in the dative case, for each number, gender and stem
/// type: where two are given, the first is unstressed and the second stressed.
#[verifier::rlimit(100)]
pub proof fn law_adjective_endings_dative(d: AdjectiveDeclension, info: DeclInfo)
    requires
        info.case == Case::Dative,
    ensures
        info.number == Number::Singular && info.gender == Gender::Masculine && (d.stem_type == AdjectiveStemType::Type1 || d.stem_type == AdjectiveStemType::Type3) ==> d.spec_find_ending(info) == seq![Utf8Letter::O, Utf8Letter::M, Utf8Letter::U],
        info.number == Number::Singular && info.gender == Gender::Masculine && (d.stem_type == AdjectiveStemType::Type2 || d.stem_type == AdjectiveStemType::Type6) ==> d.spec_find_ending(info) == seq![Utf8Letter::Ye, Utf8Letter::M, Utf8Letter::U],
        info.number == Number::Singular && info.gender == Gender::Masculine && (d.stem_type == AdjectiveStemType::Type4 || d.stem_type == AdjectiveStemType::Type5) ==> d.spec_find_ending(info) == (if d.stress.full == AdjectiveFullStress::B { seq![Utf8Letter::O, Utf8Letter::M, Utf8Letter::U] } else { seq![Utf8Letter::Ye, Utf8Letter::M, Utf8Letter::U] }),
        info.number == Number::Singular && info.gender == Gender::Neuter && (d.stem_type == AdjectiveStemType::Type1 || d.stem_type == AdjectiveStemType::Type3) ==> d.spec_find_ending(info) == seq![Utf8Letter::O, Utf8Letter::M, Utf8Letter::U],
        info.number == Number::Singular && info.gender == Gender::Neuter && (d.stem_type == AdjectiveStemType::Type2 || d.stem_type == AdjectiveStemType::Type6) ==> d.spec_find_ending(info) == seq![Utf8Letter::Ye, Utf8Letter::M, Utf8Letter::U],
        info.number == Number::Singular && info.gender == Gender::Neuter && (d.stem_type == AdjectiveStemType::Type4 || d.stem_type == AdjectiveStemType::Type5) ==> d.spec_find_ending(info) == (if d.stress.full == AdjectiveFullStress::B { seq![Utf8Letter::O, Utf8Letter::M, Utf8Letter::U] } else { seq![Utf8Letter::Ye, Utf8Letter::M, Utf8Letter::U] }),
        info.number == Number::Singular && info.gender == Gender::Feminine && (d.stem_type == AdjectiveStemType::Type1 || d.stem_type == AdjectiveStemType::Type3) ==> d.spec_find_ending(info) == seq![Utf8Letter::O, Utf8Letter::Iy],
        info.number == Number::Singular && info.gender == Gender::Feminine && (d.stem_type == AdjectiveStemType::Type2 || d.stem_type == AdjectiveStemType::Type6) ==> d.spec_find_ending(info) == seq![Utf8Letter::Ye, Utf8Letter::Iy],
        info.number == Number::Singular && info.gender == Gender::Feminine && (d.stem_type == AdjectiveStemType::Type4 || d.stem_type == AdjectiveStemType::Type5) ==> d.spec_find_ending(info) == (if d.stress.full == AdjectiveFullStress::B { seq![Utf8Letter::O, Utf8Letter::Iy] } else { seq![Utf8Letter::Ye, Utf8Letter::Iy] }),
        info.number == Number::Plural && (d.stem_type == AdjectiveStemType::Type1 || d.stem_type == AdjectiveStemType::Type5) ==> d.spec_find_ending(info) == seq![Utf8Letter::Y, Utf8Letter::M],
        info.number == Number::Plural && (d.stem_type == AdjectiveStemType::Type2 || d.stem_type == AdjectiveStemType::Type3 || d.stem_type == AdjectiveStemType::Type4 || d.stem_type == AdjectiveStemType::Type6) ==> d.spec_find_ending(info) == seq![Utf8Letter::I, Utf8Letter::M],
{
}

/// The endings of adjectives' full forms in the accusative case: those of the nominative case for
/// inanimate words and of the genitive case for animate ones, except in the feminine
/// singular, which has its own.
#[verifier::rlimit(100)]
pub proof fn law_adjective_endings_accusative(d: AdjectiveDeclension, info: DeclInfo)
    requires
        info.case == Case::Accusative,
    ensures
        info.number == Number::Singular && info.gender == Gender::Masculine && d.stem_type == AdjectiveStemType::Type1 ==> d.spec_find_ending(info) == (if info.animacy == Animacy::Inanimate {
            (if d.stress.full == AdjectiveFullStress::B { seq![Utf8Letter::O, Utf8Letter::Iy] } else { seq![Utf8Letter::Y, Utf8Letter::Iy] })
        } else {
            seq![Utf8Letter::O, Utf8Letter::G, Utf8Letter::O]
        }),
        info.number == Number::Singular && info.gender == Gender::Masculine && d.stem_type == AdjectiveStemType::Type2 ==> d.spec_find_ending(info) == (if info.animacy == Animacy::Inanimate {
            seq![Utf8Letter::I, Utf8Letter::Iy]
        } else {
            seq![Utf8Letter::Ye, Utf8Letter::G, Utf8Letter::O]
        }),
        info.number == Number::Singular && info.gender == Gender::Masculine && d.stem_type == AdjectiveStemType::Type3 ==> d.spec_find_ending(info) == (if info.animacy == Animacy::Inanimate {
            (if d.stress.full == AdjectiveFullStress::B { seq![Utf8Letter::O, Utf8Letter::Iy] } else { seq![Utf8Letter::I, Utf8Letter::Iy] })
        } else {
            seq![Utf8Letter::O, Utf8Letter::G, Utf8Letter::O]
        }),
        info.number == Number::Singular && info.gender == Gender::Masculine && d.stem_type == AdjectiveStemType::Type4 ==> d.spec_find_ending(info) == (if info.animacy == Animacy::Inanimate {
            (if d.stress.full == AdjectiveFullStress::B { seq![Utf8Letter::O, Utf8Letter::Iy] } else { seq![Utf8Letter::I, Utf8Letter::Iy] })
        } else {
            (if d.stress.full == AdjectiveFullStress::B { seq![Utf8Letter::O, Utf8Letter::G, Utf8Letter::O] } else { seq![Utf8Letter::Ye, Utf8Letter::G, Utf8Letter::O] })
        }),
        info.number == Number::Singular && info.gender == Gender::Masculine && d.stem_type == AdjectiveStemType::Type5 ==> d.spec_find_ending(info) == (if info.animacy == Animacy::Inanimate {
            (if d.stress.full == AdjectiveFullStress::B { seq![Utf8Letter::O, Utf8Letter::Iy] } else { seq![Utf8Letter::Y, Utf8Letter::Iy] })
        } else {
            (if d.stress.full == AdjectiveFullStress::B { seq![Utf8Letter::O, Utf8Letter::G, Utf8Letter::O] } else { seq![Utf8Letter::Ye, Utf8Letter::G, Utf8Letter::O] })
        }),
        info.number == Number::Singular && info.gender == Gender::Masculine && d.stem_type == AdjectiveStemType::Type6 ==> d.spec_find_ending(info) == (if info.animacy == Animacy::Inanimate {
            seq![Utf8Letter::I, Utf8Letter::Iy]
        } else {
            seq![Utf8Letter::Ye, Utf8Letter::G, Utf8Letter::O]
        }),
        info.number == Number::Singular && info.gender == Gender::Neuter && d.stem_type == AdjectiveStemType::Type1 ==> d.spec_find_ending(info) == (if info.animacy == Animacy::Inanimate {
            seq![Utf8Letter::O, Utf8Letter::Ye]
        } else {
            seq![Utf8Letter::O, Utf8Letter::G, Utf8Letter::O]
        }),
        info.number == Number::Singular && info.gender == Gender::Neuter && d.stem_type == AdjectiveStemType::Type2 ==> d.spec_find_ending(info) == (if info.animacy == Animacy::Inanimate {
            seq![Utf8Letter::Ye, Utf8Letter::Ye]
        } else {
            seq![Utf8Letter::Ye, Utf8Letter::G, Utf8Letter::O]
        }),
        info.number == Number::Singular && info.gender == Gender::Neuter && d.stem_type == AdjectiveStemType::Type3 ==> d.spec_find_ending(info) == (if info.animacy == Animacy::Inanimate {
            seq![Utf8Letter::O, Utf8Letter::Ye]
        } else {
            seq![Utf8Letter::O, Utf8Letter::G, Utf8Letter::O]
        }),
        info.number == Number::Singular && info.gender == Gender::Neuter && d.stem_type == AdjectiveStemType::Type4 ==> d.spec_find_ending(info) == (if info.animacy == Animacy::Inanimate {
            (if d.stress.full == AdjectiveFullStress::B { seq![Utf8Letter::O, Utf8Letter::Ye] } else { seq![Utf8Letter::Ye, Utf8Letter::Ye] })
        } else {
            (if d.stress.full == AdjectiveFullStress::B { seq![Utf8Letter::O, Utf8Letter::G, Utf8Letter::O] } else { seq![Utf8Letter::Ye, Utf8Letter::G, Utf8Letter::O] })
        }),
        info.number == Number::Singular && info.gender == Gender::Neuter && d.stem_type == AdjectiveStemType::Type5 ==> d.spec_find_ending(info) == (if info.animacy == Animacy::Inanimate {
            (if d.stress.full == AdjectiveFullStress::B { seq![Utf8Letter::O, Utf8Letter::Ye] } else { seq![Utf8Letter::Ye, Utf8Letter::Ye] })
        } else {
            (if d.stress.full == AdjectiveFullStress::B { seq![Utf8Letter::O, Utf8Letter::G, Utf8Letter::O] } else { seq![Utf8Letter::Ye, Utf8Letter::G, Utf8Letter::O] })
        }),
        info.number == Number::Singular && info.gender == Gender::Neuter && d.stem_type == AdjectiveStemType::Type6 ==> d.spec_find_ending(info) == (if info.animacy == Animacy::Inanimate {
            seq![Utf8Letter::Ye, Utf8Letter::Ye]
        } else {
            seq![Utf8Letter::Ye, Utf8Letter::G, Utf8Letter::O]
        }),
        info.number == Number::Singular && info.gender == Gender::Feminine && (d.stem_type == AdjectiveStemType::Type1 || d.stem_type == AdjectiveStemType::Type3 || d.stem_type == AdjectiveStemType::Type4 || d.stem_type == AdjectiveStemType::Type5) ==> d.spec_find_ending(info) == seq![Utf8Letter::U, Utf8Letter::Yu],
        info.number == Number::Singular && info.gender == Gender::Feminine && (d.stem_type == AdjectiveStemType::Type2 || d.stem_type == AdjectiveStemType::Type6) ==> d.spec_find_ending(info) == seq![Utf8Letter::Yu, Utf8Letter::Yu],
        info.number == Number::Plural && d.stem_type == AdjectiveStemType::Type1 ==> d.spec_find_ending(info) == (if info.animacy == Animacy::Inanimate {
            seq![Utf8Letter::Y, Utf8Letter::Ye]
        } else {
            seq![Utf8Letter::Y, Utf8Letter::Kh]
        }),
        info.number == Number::Plural && d.stem_type == AdjectiveStemType::Type2 ==> d.spec_find_ending(info) == (if info.animacy == Animacy::Inanimate {
            seq![Utf8Letter::I, Utf8Letter::Ye]
        } else {
            seq![Utf8Letter::I, Utf8Letter::Kh]
        }),
        info.number == Number::Plural && d.stem_type == AdjectiveStemType::Type3 ==> d.spec_find_ending(info) == (if info.animacy == Animacy::Inanimate {
            seq![Utf8Letter::I, Utf8Letter::Ye]
        } else {
            seq![Utf8Letter::I, Utf8Letter::Kh]
        }),
        info.number == Number::Plural && d.stem_type == AdjectiveStemType::Type4 ==> d.spec_find_ending(info) == (if info.animacy == Animacy::Inanimate {
            seq![Utf8Letter::I, Utf8Letter::Ye]
        } else {
            seq![Utf8Letter::I, Utf8Letter::Kh]
        }),
        info.number == Number::Plural && d.stem_type == AdjectiveStemType::Type5 ==> d.spec_find_ending(info) == (if info.animacy == Animacy::Inanimate {
            seq![Utf8Letter::Y, Utf8Letter::Ye]
        } else {
            seq![Utf8Letter::Y, Utf8Letter::Kh]
        }),
        info.number == Number::Plural && d.stem_type == AdjectiveStemType::Type6 ==> d.spec_find_ending(info) == (if info.animacy == Animacy::Inanimate {
            seq![Utf8Letter::I, Utf8Letter::Ye]
        } else {
            seq![Utf8Letter::I, Utf8Letter::Kh]
        }),
{
}

/// The endings of adjectives' full forms in the instrumental case, for each number, gender and stem
/// type: where two are given, the first is unstressed and the second stressed.
#[verifier::rlimit(100)]
pub proof fn law_adjective_endings_instrumental(d: AdjectiveDeclension, info: DeclInfo)
    requires
        info.case == Case::Instrumental,
    ensures
        info.number == Number::Singular && info.gender == Gender::Masculine && (d.stem_type == AdjectiveStemType::Type1 || d.stem_type == AdjectiveStemType::Type5) ==> d.spec_find_ending(info) == seq![Utf8Letter::Y, Utf8Letter::M],
        info.number == Number::Singular && info.gender == Gender::Masculine && (d.stem_type == AdjectiveStemType::Type2 || d.stem_type == AdjectiveStemType::Type3 || d.stem_type == AdjectiveStemType::Type4 || d.stem_type == AdjectiveStemType::Type6) ==> d.spec_find_ending(info) == seq![Utf8Letter::I, Utf8Letter::M],
        info.number == Number::Singular && info.gender == Gender::Neuter && (d.stem_type == AdjectiveStemType::Type1 || d.stem_type == AdjectiveStemType::Type5) ==> d.spec_find_ending(info) == seq![Utf8Letter::Y, Utf8Letter::M],
        info.number == Number::Singular && info.gender == Gender::Neuter && (d.stem_type == AdjectiveStemType::Type2 || d.stem_type == AdjectiveStemType::Type3 || d.stem_type == AdjectiveStemType::Type4 || d.stem_type == AdjectiveStemType::Type6) ==> d.spec_find_ending(info) == seq![Utf8Letter::I, Utf8Letter::M],
        info.number == Number::Singular && info.gender == Gender::Feminine && (d.stem_type == AdjectiveStemType::Type1 || d.stem_type == AdjectiveStemType::Type3) ==> d.spec_find_ending(info) == seq![Utf8Letter::O, Utf8Letter::Iy],
        info.number == Number::Singular && info.gender == Gender::Feminine && (d.stem_type == AdjectiveStemType::Type2 || d.stem_type == AdjectiveStemType::Type6) ==> d.spec_find_ending(info) == seq![Utf8Letter::Ye, Utf8Letter::Iy],
        info.number == Number::Singular && info.gender == Gender::Feminine && (d.stem_type == AdjectiveStemType::Type4 || d.stem_type == AdjectiveStemType::Type5) ==> d.spec_find_ending(info) == (if d.stress.full == AdjectiveFullStress::B { seq![Utf8Letter::O, Utf8Letter::Iy] } else { seq![Utf8Letter::Ye, Utf8Letter::Iy] }),
        info.number == Number::Plural && (d.stem_type == AdjectiveStemType::Type1 || d.stem_type == AdjectiveStemType::Type5) ==> d.spec_find_ending(info) == seq![Utf8Letter::Y, Utf8Letter::M, Utf8Letter::I],
        info.number == Number::Plural && (d.stem_type == AdjectiveStemType::Type2 || d.stem_type == AdjectiveStemType::Type3 || d.stem_type == AdjectiveStemType::Type4 || d.stem_type == AdjectiveStemType::Type6) ==> d.spec_find_ending(info) == seq![Utf8Letter::I, Utf8Letter::M, Utf8Letter::I],
{
}

/// The endings of adjectives' full forms in the prepositional case, for each number, gender and stem
/// type: where two are given, the first is unstressed and the second stressed.
#[verifier::rlimit(100)]
pub proof fn law_adjective_endings_prepositional(d: AdjectiveDeclension, info: DeclInfo)
    requires
        info.case == Case::Prepositional,
    ensures
        info.number == Number::Singular && info.gender == Gender::Masculine && (d.stem_type == AdjectiveStemType::Type1 || d.stem_type == AdjectiveStemType::Type3) ==> d.spec_find_ending(info) == seq![Utf8Letter::O, Utf8Letter::M],
        info.number == Number::Singular && info.gender == Gender::Masculine && (d.stem_type == AdjectiveStemType::Type2 || d.stem_type == AdjectiveStemType::Type6) ==> d.spec_find_ending(info) == seq![Utf8Letter::Ye, Utf8Letter::M],
        info.number == Number::Singular && info.gender == Gender::Masculine && (d.stem_type == AdjectiveStemType::Type4 || d.stem_type == AdjectiveStemType::Type5) ==> d.spec_find_ending(info) == (if d.stress.full == AdjectiveFullStress::B { seq![Utf8Letter::O, Utf8Letter::M] } else { seq![Utf8Letter::Ye, Utf8Letter::M] }),
        info.number == Number::Singular && info.gender == Gender::Neuter && (d.stem_type == AdjectiveStemType::Type1 || d.stem_type == AdjectiveStemType::Type3) ==> d.spec_find_ending(info) == seq![Utf8Letter::O, Utf8Letter::M],
        info.number == Number::Singular && info.gender == Gender::Neuter && (d.stem_type == AdjectiveStemType::Type2 || d.stem_type == AdjectiveStemType::Type6) ==> d.spec_find_ending(info) == seq![Utf8Letter::Ye, Utf8Letter::M],
        info.number == Number::Singular && info.gender == Gender::Neuter && (d.stem_type == AdjectiveStemType::Type4 || d.stem_type == AdjectiveStemType::Type5) ==> d.spec_find_ending(info) == (if d.stress.full == AdjectiveFullStress::B { seq![Utf8Letter::O, Utf8Letter::M] } else { seq![Utf8Letter::Ye, Utf8Letter::M] }),
        info.number == Number::Singular && info.gender == Gender::Feminine && (d.stem_type == AdjectiveStemType::Type1 || d.stem_type == AdjectiveStemType::Type3) ==> d.spec_find_ending(info) == seq![Utf8Letter::O, Utf8Letter::Iy],
        info.number == Number::Singular && info.gender == Gender::Feminine && (d.stem_type == AdjectiveStemType::Type2 || d.stem_type == AdjectiveStemType::Type6) ==> d.spec_find_ending(info) == seq![Utf8Letter::Ye, Utf8Letter::Iy],
        info.number == Number::Singular && info.gender == Gender::Feminine && (d.stem_type == AdjectiveStemType::Type4 || d.stem_type == AdjectiveStemType::Type5) ==> d.spec_find_ending(info) == (if d.stress.full == AdjectiveFullStress::B { seq![Utf8Letter::O, Utf8Letter::Iy] } else { seq![Utf8Letter::Ye, Utf8Letter::Iy] }),
        info.number == Number::Plural && (d.stem_type == AdjectiveStemType::Type1 || d.stem_type == AdjectiveStemType::Type5) ==> d.spec_find_ending(info) == seq![Utf8Letter::Y, Utf8Letter::Kh],
        info.number == Number::Plural && (d.stem_type == AdjectiveStemType::Type2 || d.stem_type == AdjectiveStemType::Type3 || d.stem_type == AdjectiveStemType::Type4 || d.stem_type == AdjectiveStemType::Type6) ==> d.spec_find_ending(info) == seq![Utf8Letter::I, Utf8Letter::Kh],
{
}

/// The endings of adjectives' short forms, for each number, gender and stem type, whatever
/// the case: where two are given, the first is unstressed and the second stressed (or possibly
/// stressed).
#[verifier::rlimit(100)]
pub proof fn law_adjective_short_endings(d: AdjectiveDeclension, info: DeclInfo)
    ensures
        info.number == Number::Singular && info.gender == Gender::Masculine && (d.stem_type == AdjectiveStemType::Type1 || d.stem_type == AdjectiveStemType::Type3 || d.stem_type == AdjectiveStemType::Type4 || d.stem_type == AdjectiveStemType::Type5) ==> d.spec_find_ending_short(info) == Seq::<Utf8Letter>::empty(),
        info.number == Number::Singular && info.gender == Gender::Masculine && (d.stem_type == AdjectiveStemType::Type2) ==> d.spec_find_ending_short(info) == seq![Utf8Letter::SoftSign],
        info.number == Number::Singular && info.gender == Gender::Masculine && (d.stem_type == AdjectiveStemType::Type6) ==> d.spec_find_ending_short(info) == seq![Utf8Letter::Iy],
        info.number == Number::Singular && info.gender == Gender::Neuter && (d.stem_type == AdjectiveStemType::Type1 || d.stem_type == AdjectiveStemType::Type3) ==> d.spec_find_ending_short(info) == seq![Utf8Letter::O],
        info.number == Number::Singular && info.gender == Gender::Neuter && (d.stem_type == AdjectiveStemType::Type2 || d.stem_type == AdjectiveStemType::Type6) ==> d.spec_find_ending_short(info) == (if d.stress.short.spec_is_stem_stressed(info.number, info.gender) != Some(true) { seq![Utf8Letter::Yo] } else { seq![Utf8Letter::Ye] }),
        info.number == Number::Singular && info.gender == Gender::Neuter && (d.stem_type == AdjectiveStemType::Type4 || d.stem_type == AdjectiveStemType::Type5) ==> d.spec_find_ending_short(info) == (if d.stress.short.spec_is_stem_stressed(info.number, info.gender) != Some(true) { seq![Utf8Letter::O] } else { seq![Utf8Letter::Ye] }),
        info.number == Number::Singular && info.gender == Gender::Feminine && (d.stem_type == AdjectiveStemType::Type1 || d.stem_type == AdjectiveStemType::Type3 || d.stem_type == AdjectiveStemType::Type4 || d.stem_type == AdjectiveStemType::Type5) ==> d.spec_find_ending_short(info) == seq![Utf8Letter::A],
        info.number == Number::Singular && info.gender == Gender::Feminine && (d.stem_type == AdjectiveStemType::Type2 || d.stem_type == AdjectiveStemType::Type6) ==> d.spec_find_ending_short(info) == seq![Utf8Letter::Ya],
        info.number == Number::Plural && (d.stem_type == AdjectiveStemType::Type1 || d.stem_type == AdjectiveStemType::Type5) ==> d.spec_find_ending_short(info) == seq![Utf8Letter::Y],
        info.number == Number::Plural && (d.stem_type == AdjectiveStemType::Type2 || d.stem_type == AdjectiveStemType::Type3 || d.stem_type == AdjectiveStemType::Type4 || d.stem_type == AdjectiveStemType::Type6) ==> d.spec_find_ending_short(info) == seq![Utf8Letter::I],
{
}

/// The circled digits change which ending a noun takes, and nothing else: ① gives the plural
/// nominative (and the inanimate accusative) the ending of another gender, and ② the plural
/// genitive (and the animate accusative): a masculine noun takes the neuter ending, a neuter
/// or feminine noun the masculine one. ③ gives the singular the endings of stem type 6. Every
/// other form takes the ending it would take without the circled digits.
pub proof fn law_noun_endings_circled(d: NounDeclension, info: DeclInfo)
    ensures
        ({
            let plain = NounDeclension {
                flags: DeclensionFlags {
                    circled_one: false,
                    circled_two: false,
                    circled_three: false,
                    ..d.flags
                },
                ..d
            };
            let other = DeclInfo {
                gender: if info.gender == Gender::Masculine {
                    Gender::Neuter
                } else {
                    Gender::Masculine
                },
                ..info
            };
            let nom_form = info.case == Case::Nominative || (info.case == Case::Accusative
                && info.animacy == Animacy::Inanimate);
            let gen_form = info.case == Case::Genitive || (info.case == Case::Accusative
                && info.animacy == Animacy::Animate);
            &&& (info.number == Number::Plural && ((nom_form && d.flags.circled_one) || (
            gen_form && d.flags.circled_two))) ==> d.spec_find_ending(info)
                == plain.spec_find_ending(other)
            &&& (info.number == Number::Plural && !((nom_form && d.flags.circled_one) || (
            gen_form && d.flags.circled_two))) ==> d.spec_find_ending(info)
                == plain.spec_find_ending(info)
            &&& (info.number == Number::Singular && d.flags.circled_three) ==> d.spec_find_ending(
                info,
            ) == (NounDeclension { stem_type: NounStemType::Type6, ..plain }).spec_find_ending(
                info,
            )
            &&& (info.number == Number::Singular && !d.flags.circled_three)
                ==> d.spec_find_ending(info) == plain.spec_find_ending(info)
        }),
{
}

} // verus!
