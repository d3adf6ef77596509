//! Grammatical categories: case, number, gender, animacy, tense and person.

use crate::parser::{spec_peek, spec_skip, spec_starts_with_at, UnsafeParser};
use crate::text::{push_char, push_str};
use vstd::prelude::*;

verus! {

/// One of the 6 primary grammatical cases (see [`Case`]) or 3 secondary cases.
#[derive(Debug, Clone, Copy, PartialEq, Eq, Structural, Hash, Default)]
pub enum CaseEx {
    /// Nominative case (who? what?).
    #[default]
    Nominative,
    /// Genitive case (whose? from who? what of?).
    Genitive,
    /// Dative case (to who? to what?).
    Dative,
    /// Accusative case (whom? what?).
    Accusative,
    /// Instrumental case (how? with who? with what?).
    Instrumental,
    /// Prepositional case (about who? about what?).
    Prepositional,
    /// Partitive case (of what?), also known as second genitive.
    Partitive,
    /// Translative case (into who? plural), also known as second accusative.
    Translative,
    /// Locative case (where? inside of what?), also known as second prepositional.
    Locative,
}

/// One of the 6 primary grammatical cases used in standard declension.
#[derive(Debug, Clone, Copy, PartialEq, Eq, Structural, Hash, Default)]
pub enum Case {
    /// Nominative case (who? what?).
    #[default]
    Nominative,
    /// Genitive case (whose? from who? what of?).
    Genitive,
    /// Dative case (to who? to what?).
    Dative,
    /// Accusative case (whom? what?).
    Accusative,
    /// Instrumental case (how? with who? with what?).
    Instrumental,
    /// Prepositional case (about who? about what?).
    Prepositional,
}

/// One of the 3 primary grammatical genders (see [`Gender`]), or the common gender.
#[derive(Debug, Clone, Copy, PartialEq, Eq, Structural, Hash, Default)]
pub enum GenderEx {
    /// Masculine gender (he).
    #[default]
    Masculine,
    /// Neuter gender (it).
    Neuter,
    /// Feminine gender (she).
    Feminine,
    /// Common gender (he/she).
    Common,
}

/// One of the 3 primary grammatical genders used in standard inflection.
#[derive(Debug, Clone, Copy, PartialEq, Eq, Structural, Hash, Default)]
pub enum Gender {
    /// Masculine gender (he).
    #[default]
    Masculine,
    /// Neuter gender (it).
    Neuter,
    /// Feminine gender (she).
    Feminine,
}

/// Grammatical animacy.
#[derive(Debug, Clone, Copy, PartialEq, Eq, Structural, Hash, Default)]
pub enum Animacy {
    /// Inanimate.
    #[default]
    Inanimate,
    /// Animate.
    Animate,
}

/// Grammatical number.
#[derive(Debug, Clone, Copy, PartialEq, Eq, Structural, Hash, Default)]
pub enum Number {
    /// Singular number.
    #[default]
    Singular,
    /// Plural number.
    Plural,
}

/// Grammatical tense.
#[derive(Debug, Clone, Copy, PartialEq, Eq, Structural, Hash, Default)]
pub enum Tense {
    /// Present (is doing) or future tense (will do), depending on the verb's aspect.
    #[default]
    Present,
    /// Past tense (was doing/did).
    Past,
}

/// Grammatical person.
#[derive(Debug, Clone, Copy, PartialEq, Eq, Structural, Hash, Default)]
pub enum Person {
    /// First person (I/we).
    #[default]
    First,
    /// Second person (you).
    Second,
    /// Third person (he/it/she/they).
    Third,
}

impl CaseEx {
    /// The position of this value in the declaration order, starting at 0.
    pub open spec fn spec_index(self) -> nat {
        match self {
            CaseEx::Nominative => 0,
            CaseEx::Genitive => 1,
            CaseEx::Dative => 2,
            CaseEx::Accusative => 3,
            CaseEx::Instrumental => 4,
            CaseEx::Prepositional => 5,
            CaseEx::Partitive => 6,
            CaseEx::Translative => 7,
            CaseEx::Locative => 8,
        }
    }

    /// Returns the position of this value in the declaration order, starting at 0.
    pub fn index(self) -> (r: usize)
        ensures
            r == self.spec_index(),
    {
        match self {
            CaseEx::Nominative => 0,
            CaseEx::Genitive => 1,
            CaseEx::Dative => 2,
            CaseEx::Accusative => 3,
            CaseEx::Instrumental => 4,
            CaseEx::Prepositional => 5,
            CaseEx::Partitive => 6,
            CaseEx::Translative => 7,
            CaseEx::Locative => 8,
        }
    }
}

impl Case {
    /// The position of this value in the declaration order, starting at 0.
    pub open spec fn spec_index(self) -> nat {
        match self {
            Case::Nominative => 0,
            Case::Genitive => 1,
            Case::Dative => 2,
            Case::Accusative => 3,
            Case::Instrumental => 4,
            Case::Prepositional => 5,
        }
    }

    /// Returns the position of this value in the declaration order, starting at 0.
    pub fn index(self) -> (r: usize)
        ensures
            r == self.spec_index(),
    {
        match self {
            Case::Nominative => 0,
            Case::Genitive => 1,
            Case::Dative => 2,
            Case::Accusative => 3,
            Case::Instrumental => 4,
            Case::Prepositional => 5,
        }
    }
}

impl GenderEx {
    /// The position of this value in the declaration order, starting at 0.
    pub open spec fn spec_index(self) -> nat {
        match self {
            GenderEx::Masculine => 0,
            GenderEx::Neuter => 1,
            GenderEx::Feminine => 2,
            GenderEx::Common => 3,
        }
    }

    /// Returns the position of this value in the declaration order, starting at 0.
    pub fn index(self) -> (r: usize)
        ensures
            r == self.spec_index(),
    {
        match self {
            GenderEx::Masculine => 0,
            GenderEx::Neuter => 1,
            GenderEx::Feminine => 2,
            GenderEx::Common => 3,
        }
    }
}

impl Gender {
    /// The position of this value in the declaration order, starting at 0.
    pub open spec fn spec_index(self) -> nat {
        match self {
            Gender::Masculine => 0,
            Gender::Neuter => 1,
            Gender::Feminine => 2,
        }
    }

    /// Returns the position of this value in the declaration order, starting at 0.
    pub fn index(self) -> (r: usize)
        ensures
            r == self.spec_index(),
    {
        match self {
            Gender::Masculine => 0,
            Gender::Neuter => 1,
            Gender::Feminine => 2,
        }
    }
}

impl Animacy {
    /// The position of this value in the declaration order, starting at 0.
    pub open spec fn spec_index(self) -> nat {
        match self {
            Animacy::Inanimate => 0,
            Animacy::Animate => 1,
        }
    }

    /// Returns the position of this value in the declaration order, starting at 0.
    pub fn index(self) -> (r: usize)
        ensures
            r == self.spec_index(),
    {
        match self {
            Animacy::Inanimate => 0,
            Animacy::Animate => 1,
        }
    }
}

impl Number {
    /// The position of this value in the declaration order, starting at 0.
    pub open spec fn spec_index(self) -> nat {
        match self {
            Number::Singular => 0,
            Number::Plural => 1,
        }
    }

    /// Returns the position of this value in the declaration order, starting at 0.
    pub fn index(self) -> (r: usize)
        ensures
            r == self.spec_index(),
    {
        match self {
            Number::Singular => 0,
            Number::Plural => 1,
        }
    }
}

impl Tense {
    /// The position of this value in the declaration order, starting at 0.
    pub open spec fn spec_index(self) -> nat {
        match self {
            Tense::Present => 0,
            Tense::Past => 1,
        }
    }

    /// Returns the position of this value in the declaration order, starting at 0.
    pub fn index(self) -> (r: usize)
        ensures
            r == self.spec_index(),
    {
        match self {
            Tense::Present => 0,
            Tense::Past => 1,
        }
    }
}

impl Person {
    /// The position of this value in the declaration order, starting at 0.
    pub open spec fn spec_index(self) -> nat {
        match self {
            Person::First => 0,
            Person::Second => 1,
            Person::Third => 2,
        }
    }

    /// Returns the position of this value in the declaration order, starting at 0.
    pub fn index(self) -> (r: usize)
        ensures
            r == self.spec_index(),
    {
        match self {
            Person::First => 0,
            Person::Second => 1,
            Person::Third => 2,
        }
    }
}

impl CaseEx {
    /// The abbreviation of this value in upper case: NOM, GEN, DAT, ACC, INS, PRP, PRT, TRANSL, LOC.
    pub open spec fn spec_abbr_upper(self) -> Seq<char> {
        match self {
            CaseEx::Nominative => "NOM"@,
            CaseEx::Genitive => "GEN"@,
            CaseEx::Dative => "DAT"@,
            CaseEx::Accusative => "ACC"@,
            CaseEx::Instrumental => "INS"@,
            CaseEx::Prepositional => "PRP"@,
            CaseEx::Partitive => "PRT"@,
            CaseEx::Translative => "TRANSL"@,
            CaseEx::Locative => "LOC"@,
        }
    }

    /// Abbreviates this value in upper case: NOM, GEN, DAT, ACC, INS, PRP, PRT, TRANSL, LOC.
    pub fn abbr_upper(self) -> (r: &'static str)
        ensures
            r@ == self.spec_abbr_upper(),
    {
        match self {
            CaseEx::Nominative => "NOM",
            CaseEx::Genitive => "GEN",
            CaseEx::Dative => "DAT",
            CaseEx::Accusative => "ACC",
            CaseEx::Instrumental => "INS",
            CaseEx::Prepositional => "PRP",
            CaseEx::Partitive => "PRT",
            CaseEx::Translative => "TRANSL",
            CaseEx::Locative => "LOC",
        }
    }

    /// The abbreviation of this value in lower case: nom, gen, dat, acc, ins, prp, prt, transl, loc.
    pub open spec fn spec_abbr_lower(self) -> Seq<char> {
        match self {
            CaseEx::Nominative => "nom"@,
            CaseEx::Genitive => "gen"@,
            CaseEx::Dative => "dat"@,
            CaseEx::Accusative => "acc"@,
            CaseEx::Instrumental => "ins"@,
            CaseEx::Prepositional => "prp"@,
            CaseEx::Partitive => "prt"@,
            CaseEx::Translative => "transl"@,
            CaseEx::Locative => "loc"@,
        }
    }

    /// Abbreviates this value in lower case: nom, gen, dat, acc, ins, prp, prt, transl, loc.
    pub fn abbr_lower(self) -> (r: &'static str)
        ensures
            r@ == self.spec_abbr_lower(),
    {
        match self {
            CaseEx::Nominative => "nom",
            CaseEx::Genitive => "gen",
            CaseEx::Dative => "dat",
            CaseEx::Accusative => "acc",
            CaseEx::Instrumental => "ins",
            CaseEx::Prepositional => "prp",
            CaseEx::Partitive => "prt",
            CaseEx::Translative => "transl",
            CaseEx::Locative => "loc",
        }
    }

    /// The abbreviation of this value in small caps: ɴᴏᴍ, ɢᴇɴ, ᴅᴀᴛ, ᴀᴄᴄ, ɪɴꜱ, ᴘʀᴘ, ᴘʀᴛ, ᴛʀᴀɴꜱʟ, ʟᴏᴄ.
    pub open spec fn spec_abbr_smcp(self) -> Seq<char> {
        match self {
            CaseEx::Nominative => "ɴᴏᴍ"@,
            CaseEx::Genitive => "ɢᴇɴ"@,
            CaseEx::Dative => "ᴅᴀᴛ"@,
            CaseEx::Accusative => "ᴀᴄᴄ"@,
            CaseEx::Instrumental => "ɪɴꜱ"@,
            CaseEx::Prepositional => "ᴘʀᴘ"@,
            CaseEx::Partitive => "ᴘʀᴛ"@,
            CaseEx::Translative => "ᴛʀᴀɴꜱʟ"@,
            CaseEx::Locative => "ʟᴏᴄ"@,
        }
    }

    /// Abbreviates this value in small caps: ɴᴏᴍ, ɢᴇɴ, ᴅᴀᴛ, ᴀᴄᴄ, ɪɴꜱ, ᴘʀᴘ, ᴘʀᴛ, ᴛʀᴀɴꜱʟ, ʟᴏᴄ.
    pub fn abbr_smcp(self) -> (r: &'static str)
        ensures
            r@ == self.spec_abbr_smcp(),
    {
        match self {
            CaseEx::Nominative => "ɴᴏᴍ",
            CaseEx::Genitive => "ɢᴇɴ",
            CaseEx::Dative => "ᴅᴀᴛ",
            CaseEx::Accusative => "ᴀᴄᴄ",
            CaseEx::Instrumental => "ɪɴꜱ",
            CaseEx::Prepositional => "ᴘʀᴘ",
            CaseEx::Partitive => "ᴘʀᴛ",
            CaseEx::Translative => "ᴛʀᴀɴꜱʟ",
            CaseEx::Locative => "ʟᴏᴄ",
        }
    }

}

impl GenderEx {
    /// The abbreviation of this value in upper case: MASC, NEUT, FEM, MASC/FEM.
    pub open spec fn spec_abbr_upper(self) -> Seq<char> {
        match self {
            GenderEx::Masculine => "MASC"@,
            GenderEx::Neuter => "NEUT"@,
            GenderEx::Feminine => "FEM"@,
            GenderEx::Common => "MASC/FEM"@,
        }
    }

    /// Abbreviates this value in upper case: MASC, NEUT, FEM, MASC/FEM.
    pub fn abbr_upper(self) -> (r: &'static str)
        ensures
            r@ == self.spec_abbr_upper(),
    {
        match self {
            GenderEx::Masculine => "MASC",
            GenderEx::Neuter => "NEUT",
            GenderEx::Feminine => "FEM",
            GenderEx::Common => "MASC/FEM",
        }
    }

    /// The abbreviation of this value in lower case: masc, neut, fem, masc/fem.
    pub open spec fn spec_abbr_lower(self) -> Seq<char> {
        match self {
            GenderEx::Masculine => "masc"@,
            GenderEx::Neuter => "neut"@,
            GenderEx::Feminine => "fem"@,
            GenderEx::Common => "masc/fem"@,
        }
    }

    /// Abbreviates this value in lower case: masc, neut, fem, masc/fem.
    pub fn abbr_lower(self) -> (r: &'static str)
        ensures
            r@ == self.spec_abbr_lower(),
    {
        match self {
            GenderEx::Masculine => "masc",
            GenderEx::Neuter => "neut",
            GenderEx::Feminine => "fem",
            GenderEx::Common => "masc/fem",
        }
    }

    /// The abbreviation of this value in small caps: ᴍᴀꜱᴄ, ɴᴇᴜᴛ, ꜰᴇᴍ, ᴍᴀꜱᴄ/ꜰᴇᴍ.
    pub open spec fn spec_abbr_smcp(self) -> Seq<char> {
        match self {
            GenderEx::Masculine => "ᴍᴀꜱᴄ"@,
            GenderEx::Neuter => "ɴᴇᴜᴛ"@,
            GenderEx::Feminine => "ꜰᴇᴍ"@,
            GenderEx::Common => "ᴍᴀꜱᴄ/ꜰᴇᴍ"@,
        }
    }

    /// Abbreviates this value in small caps: ᴍᴀꜱᴄ, ɴᴇᴜᴛ, ꜰᴇᴍ, ᴍᴀꜱᴄ/ꜰᴇᴍ.
    pub fn abbr_smcp(self) -> (r: &'static str)
        ensures
            r@ == self.spec_abbr_smcp(),
    {
        match self {
            GenderEx::Masculine => "ᴍᴀꜱᴄ",
            GenderEx::Neuter => "ɴᴇᴜᴛ",
            GenderEx::Feminine => "ꜰᴇᴍ",
            GenderEx::Common => "ᴍᴀꜱᴄ/ꜰᴇᴍ",
        }
    }

}

impl Animacy {
    /// The abbreviation of this value in upper case: INAN, AN.
    pub open spec fn spec_abbr_upper(self) -> Seq<char> {
        match self {
            Animacy::Inanimate => "INAN"@,
            Animacy::Animate => "AN"@,
        }
    }

    /// Abbreviates this value in upper case: INAN, AN.
    pub fn abbr_upper(self) -> (r: &'static str)
        ensures
            r@ == self.spec_abbr_upper(),
    {
        match self {
            Animacy::Inanimate => "INAN",
            Animacy::Animate => "AN",
        }
    }

    /// The abbreviation of this value in lower case: inan, an.
    pub open spec fn spec_abbr_lower(self) -> Seq<char> {
        match self {
            Animacy::Inanimate => "inan"@,
            Animacy::Animate => "an"@,
        }
    }

    /// Abbreviates this value in lower case: inan, an.
    pub fn abbr_lower(self) -> (r: &'static str)
        ensures
            r@ == self.spec_abbr_lower(),
    {
        match self {
            Animacy::Inanimate => "inan",
            Animacy::Animate => "an",
        }
    }

    /// The abbreviation of this value in small caps: ɪɴᴀɴ, ᴀɴ.
    pub open spec fn spec_abbr_smcp(self) -> Seq<char> {
        match self {
            Animacy::Inanimate => "ɪɴᴀɴ"@,
            Animacy::Animate => "ᴀɴ"@,
        }
    }

    /// Abbreviates this value in small caps: ɪɴᴀɴ, ᴀɴ.
    pub fn abbr_smcp(self) -> (r: &'static str)
        ensures
            r@ == self.spec_abbr_smcp(),
    {
        match self {
            Animacy::Inanimate => "ɪɴᴀɴ",
            Animacy::Animate => "ᴀɴ",
        }
    }

}

impl Number {
    /// The abbreviation of this value in upper case: SG, PL.
    pub open spec fn spec_abbr_upper(self) -> Seq<char> {
        match self {
            Number::Singular => "SG"@,
            Number::Plural => "PL"@,
        }
    }

    /// Abbreviates this value in upper case: SG, PL.
    pub fn abbr_upper(self) -> (r: &'static str)
        ensures
            r@ == self.spec_abbr_upper(),
    {
        match self {
            Number::Singular => "SG",
            Number::Plural => "PL",
        }
    }

    /// The abbreviation of this value in lower case: sg, pl.
    pub open spec fn spec_abbr_lower(self) -> Seq<char> {
        match self {
            Number::Singular => "sg"@,
            Number::Plural => "pl"@,
        }
    }

    /// Abbreviates this value in lower case: sg, pl.
    pub fn abbr_lower(self) -> (r: &'static str)
        ensures
            r@ == self.spec_abbr_lower(),
    {
        match self {
            Number::Singular => "sg",
            Number::Plural => "pl",
        }
    }

    /// The abbreviation of this value in small caps: ꜱɢ, ᴘʟ.
    pub open spec fn spec_abbr_smcp(self) -> Seq<char> {
        match self {
            Number::Singular => "ꜱɢ"@,
            Number::Plural => "ᴘʟ"@,
        }
    }

    /// Abbreviates this value in small caps: ꜱɢ, ᴘʟ.
    pub fn abbr_smcp(self) -> (r: &'static str)
        ensures
            r@ == self.spec_abbr_smcp(),
    {
        match self {
            Number::Singular => "ꜱɢ",
            Number::Plural => "ᴘʟ",
        }
    }

}

impl Tense {
    /// The abbreviation of this value in upper case: PRS, PST.
    pub open spec fn spec_abbr_upper(self) -> Seq<char> {
        match self {
            Tense::Present => "PRS"@,
            Tense::Past => "PST"@,
        }
    }

    /// Abbreviates this value in upper case: PRS, PST.
    pub fn abbr_upper(self) -> (r: &'static str)
        ensures
            r@ == self.spec_abbr_upper(),
    {
        match self {
            Tense::Present => "PRS",
            Tense::Past => "PST",
        }
    }

    /// The abbreviation of this value in lower case: prs, pst.
    pub open spec fn spec_abbr_lower(self) -> Seq<char> {
        match self {
            Tense::Present => "prs"@,
            Tense::Past => "pst"@,
        }
    }

    /// Abbreviates this value in lower case: prs, pst.
    pub fn abbr_lower(self) -> (r: &'static str)
        ensures
            r@ == self.spec_abbr_lower(),
    {
        match self {
            Tense::Present => "prs",
            Tense::Past => "pst",
        }
    }

    /// The abbreviation of this value in small caps: ᴘʀꜱ, ᴘꜱᴛ.
    pub open spec fn spec_abbr_smcp(self) -> Seq<char> {
        match self {
            Tense::Present => "ᴘʀꜱ"@,
            Tense::Past => "ᴘꜱᴛ"@,
        }
    }

    /// Abbreviates this value in small caps: ᴘʀꜱ, ᴘꜱᴛ.
    pub fn abbr_smcp(self) -> (r: &'static str)
        ensures
            r@ == self.spec_abbr_smcp(),
    {
        match self {
            Tense::Present => "ᴘʀꜱ",
            Tense::Past => "ᴘꜱᴛ",
        }
    }

}

impl Case {
    /// Abbreviates this value in upper case, like the corresponding [`CaseEx`].
    pub fn abbr_upper(self) -> (r: &'static str)
        ensures
            r@ == self.spec_case_ex().spec_abbr_upper(),
    {
        self.case_ex().abbr_upper()
    }

    /// Abbreviates this value in lower case, like the corresponding [`CaseEx`].
    pub fn abbr_lower(self) -> (r: &'static str)
        ensures
            r@ == self.spec_case_ex().spec_abbr_lower(),
    {
        self.case_ex().abbr_lower()
    }

    /// Abbreviates this value in small caps, like the corresponding [`CaseEx`].
    pub fn abbr_smcp(self) -> (r: &'static str)
        ensures
            r@ == self.spec_case_ex().spec_abbr_smcp(),
    {
        self.case_ex().abbr_smcp()
    }

}

impl Gender {
    /// Abbreviates this value in upper case, like the corresponding [`GenderEx`].
    pub fn abbr_upper(self) -> (r: &'static str)
        ensures
            r@ == self.spec_gender_ex().spec_abbr_upper(),
    {
        self.gender_ex().abbr_upper()
    }

    /// Abbreviates this value in lower case, like the corresponding [`GenderEx`].
    pub fn abbr_lower(self) -> (r: &'static str)
        ensures
            r@ == self.spec_gender_ex().spec_abbr_lower(),
    {
        self.gender_ex().abbr_lower()
    }

    /// Abbreviates this value in small caps, like the corresponding [`GenderEx`].
    pub fn abbr_smcp(self) -> (r: &'static str)
        ensures
            r@ == self.spec_gender_ex().spec_abbr_smcp(),
    {
        self.gender_ex().abbr_smcp()
    }
}

impl CaseEx {
    /// Returns the text of this value: its upper-case abbreviation.
    pub fn to_string(&self) -> (r: String)
        ensures
            r@ == self.spec_abbr_upper(),
    {
        let mut s = String::new();
        push_str(&mut s, self.abbr_upper());
        assert(s@ =~= self.spec_abbr_upper());
        s
    }
}

impl Case {
    /// Returns the text of this value: its upper-case abbreviation.
    pub fn to_string(&self) -> (r: String)
        ensures
            r@ == self.spec_case_ex().spec_abbr_upper(),
    {
        let mut s = String::new();
        push_str(&mut s, self.abbr_upper());
        assert(s@ =~= self.spec_case_ex().spec_abbr_upper());
        s
    }
}

impl GenderEx {
    /// Returns the text of this value: its upper-case abbreviation.
    pub fn to_string(&self) -> (r: String)
        ensures
            r@ == self.spec_abbr_upper(),
    {
        let mut s = String::new();
        push_str(&mut s, self.abbr_upper());
        assert(s@ =~= self.spec_abbr_upper());
        s
    }
}

impl Gender {
    /// Returns the text of this value: its upper-case abbreviation.
    pub fn to_string(&self) -> (r: String)
        ensures
            r@ == self.spec_gender_ex().spec_abbr_upper(),
    {
        let mut s = String::new();
        push_str(&mut s, self.abbr_upper());
        assert(s@ =~= self.spec_gender_ex().spec_abbr_upper());
        s
    }
}

impl Animacy {
    /// Returns the text of this value: its upper-case abbreviation.
    pub fn to_string(&self) -> (r: String)
        ensures
            r@ == self.spec_abbr_upper(),
    {
        let mut s = String::new();
        push_str(&mut s, self.abbr_upper());
        assert(s@ =~= self.spec_abbr_upper());
        s
    }
}

impl Number {
    /// Returns the text of this value: its upper-case abbreviation.
    pub fn to_string(&self) -> (r: String)
        ensures
            r@ == self.spec_abbr_upper(),
    {
        let mut s = String::new();
        push_str(&mut s, self.abbr_upper());
        assert(s@ =~= self.spec_abbr_upper());
        s
    }
}

impl Tense {
    /// Returns the text of this value: its upper-case abbreviation.
    pub fn to_string(&self) -> (r: String)
        ensures
            r@ == self.spec_abbr_upper(),
    {
        let mut s = String::new();
        push_str(&mut s, self.abbr_upper());
        assert(s@ =~= self.spec_abbr_upper());
        s
    }
}

impl Person {
    /// Returns the text of this person: its digit.
    pub fn to_string(&self) -> (r: String)
        ensures
            r@ == seq![(0x30 + self.spec_digit()) as char],
    {
        let mut s = String::new();
        let c = match self {
            Person::First => '1',
            Person::Second => '2',
            Person::Third => '3',
        };
        push_char(&mut s, c);
        assert(s@ =~= seq![(0x30 + self.spec_digit()) as char]);
        s
    }
}
/// The error type for conversion from [`CaseEx`] to [`Case`].
#[derive(Debug, Clone, Copy, PartialEq, Eq, Structural, Hash, Default)]
pub struct CaseError;

/// The error type for conversion from [`GenderEx`] to [`Gender`].
#[derive(Debug, Clone, Copy, PartialEq, Eq, Structural, Hash, Default)]
pub struct GenderError;

impl Case {
    /// This case as a [`CaseEx`].
    pub open spec fn spec_case_ex(self) -> CaseEx {
        match self {
            Case::Nominative => CaseEx::Nominative,
            Case::Genitive => CaseEx::Genitive,
            Case::Dative => CaseEx::Dative,
            Case::Accusative => CaseEx::Accusative,
            Case::Instrumental => CaseEx::Instrumental,
            Case::Prepositional => CaseEx::Prepositional,
        }
    }

    /// Converts this case into a [`CaseEx`].
    pub fn case_ex(self) -> (r: CaseEx)
        ensures
            r == self.spec_case_ex(),
    {
        match self {
            Case::Nominative => CaseEx::Nominative,
            Case::Genitive => CaseEx::Genitive,
            Case::Dative => CaseEx::Dative,
            Case::Accusative => CaseEx::Accusative,
            Case::Instrumental => CaseEx::Instrumental,
            Case::Prepositional => CaseEx::Prepositional,
        }
    }
}

impl CaseEx {
    /// This case as a [`Case`], if it is one of the 6 primary cases.
    pub open spec fn spec_case(self) -> Option<Case> {
        match self {
            CaseEx::Nominative => Some(Case::Nominative),
            CaseEx::Genitive => Some(Case::Genitive),
            CaseEx::Dative => Some(Case::Dative),
            CaseEx::Accusative => Some(Case::Accusative),
            CaseEx::Instrumental => Some(Case::Instrumental),
            CaseEx::Prepositional => Some(Case::Prepositional),
            _ => None,
        }
    }

    /// Converts this case into a [`Case`]. Fails with [`CaseError`] on a secondary case.
    pub fn try_case(self) -> (r: Result<Case, CaseError>)
        ensures
            r == match self.spec_case() {
                Some(c) => Ok(c),
                None => Err(CaseError),
            },
    {
        match self {
            CaseEx::Nominative => Ok(Case::Nominative),
            CaseEx::Genitive => Ok(Case::Genitive),
            CaseEx::Dative => Ok(Case::Dative),
            CaseEx::Accusative => Ok(Case::Accusative),
            CaseEx::Instrumental => Ok(Case::Instrumental),
            CaseEx::Prepositional => Ok(Case::Prepositional),
            _ => Err(CaseError),
        }
    }

    /// This case normalized with a number, as [`normalize_with`](CaseEx::normalize_with)
    /// computes it.
    pub open spec fn spec_normalize_with(self, number: Number) -> (Case, Number) {
        match self {
            CaseEx::Partitive => (Case::Genitive, number),
            CaseEx::Translative => (Case::Nominative, Number::Plural),
            CaseEx::Locative => (Case::Prepositional, number),
            _ => (self.spec_case().unwrap(), number),
        }
    }

    /// Normalizes this case, converting secondary cases into primary cases: partitive into
    /// genitive, translative into nominative plural, and locative into prepositional.
    pub fn normalize_with(self, number: Number) -> (r: (Case, Number))
        ensures
            r == self.spec_normalize_with(number),
    {
        match self {
            CaseEx::Partitive => (Case::Genitive, number),
            CaseEx::Translative => (Case::Nominative, Number::Plural),
            CaseEx::Locative => (Case::Prepositional, number),
            CaseEx::Nominative => (Case::Nominative, number),
            CaseEx::Genitive => (Case::Genitive, number),
            CaseEx::Dative => (Case::Dative, number),
            CaseEx::Accusative => (Case::Accusative, number),
            CaseEx::Instrumental => (Case::Instrumental, number),
            CaseEx::Prepositional => (Case::Prepositional, number),
        }
    }
}

impl Gender {
    /// This gender as a [`GenderEx`].
    pub open spec fn spec_gender_ex(self) -> GenderEx {
        match self {
            Gender::Masculine => GenderEx::Masculine,
            Gender::Neuter => GenderEx::Neuter,
            Gender::Feminine => GenderEx::Feminine,
        }
    }

    /// Converts this gender into a [`GenderEx`].
    pub fn gender_ex(self) -> (r: GenderEx)
        ensures
            r == self.spec_gender_ex(),
    {
        match self {
            Gender::Masculine => GenderEx::Masculine,
            Gender::Neuter => GenderEx::Neuter,
            Gender::Feminine => GenderEx::Feminine,
        }
    }
}

impl GenderEx {
    /// This gender as a [`Gender`], if it is one of the 3 primary genders.
    pub open spec fn spec_gender(self) -> Option<Gender> {
        match self {
            GenderEx::Masculine => Some(Gender::Masculine),
            GenderEx::Neuter => Some(Gender::Neuter),
            GenderEx::Feminine => Some(Gender::Feminine),
            GenderEx::Common => None,
        }
    }

    /// Converts this gender into a [`Gender`]. Fails with [`GenderError`] on the common gender.
    pub fn try_gender(self) -> (r: Result<Gender, GenderError>)
        ensures
            r == match self.spec_gender() {
                Some(g) => Ok(g),
                None => Err(GenderError),
            },
    {
        match self {
            GenderEx::Masculine => Ok(Gender::Masculine),
            GenderEx::Neuter => Ok(Gender::Neuter),
            GenderEx::Feminine => Ok(Gender::Feminine),
            GenderEx::Common => Err(GenderError),
        }
    }

    /// This gender normalized, as [`normalize`](GenderEx::normalize) computes it.
    pub open spec fn spec_normalize(self) -> Gender {
        match self.spec_gender() {
            Some(g) => g,
            None => Gender::Feminine,
        }
    }

    /// Normalizes this gender, converting [`GenderEx::Common`] to
    /// [`Feminine`](Gender::Feminine).
    pub fn normalize(self) -> (r: Gender)
        ensures
            r == self.spec_normalize(),
    {
        match self.try_gender() {
            Ok(g) => g,
            Err(_) => Gender::Feminine,
        }
    }
}

impl Case {
    /// Determines whether the accusative case's default form for the animacy is nominative
    /// (`Some(false)`) or genitive (`Some(true)`): nominative gives `Some(false)`, genitive
    /// `Some(true)`, accusative `Some(animate)`, any other case `None`.
    pub open spec fn spec_acc_is_gen(self, animacy: Animacy) -> Option<bool> {
        match self {
            Case::Nominative => Some(false),
            Case::Genitive => Some(true),
            Case::Accusative => Some(animacy == Animacy::Animate),
            _ => None,
        }
    }

    /// Determines whether the accusative case's default form for the animacy is nominative
    /// (`Some(false)`) or genitive (`Some(true)`). Returns `None` for the other cases.
    pub fn acc_is_gen(self, animacy: Animacy) -> (r: Option<bool>)
        ensures
            r == self.spec_acc_is_gen(animacy),
    {
        match self {
            Case::Nominative => Some(false),
            Case::Genitive => Some(true),
            Case::Accusative => Some(animacy.is_animate()),
            _ => None,
        }
    }

    /// `true` if the case is nominative, or accusative with inanimate animacy.
    pub open spec fn spec_is_nom_or_acc_inan(self, animacy: Animacy) -> bool {
        self == Case::Nominative || (self == Case::Accusative && animacy == Animacy::Inanimate)
    }

    /// Returns `true` if either the case is nominative, or the case is accusative and the
    /// animacy is inanimate.
    pub fn is_nom_or_acc_inan(self, animacy: Animacy) -> (r: bool)
        ensures
            r == self.spec_is_nom_or_acc_inan(animacy),
    {
        self == Case::Nominative || (self == Case::Accusative && animacy.is_inanimate())
    }

    /// `true` if the case is genitive, or accusative with animate animacy.
    pub open spec fn spec_is_gen_or_acc_an(self, animacy: Animacy) -> bool {
        self == Case::Genitive || (self == Case::Accusative && animacy == Animacy::Animate)
    }

    /// Returns `true` if either the case is genitive, or the case is accusative and the
    /// animacy is animate.
    pub fn is_gen_or_acc_an(self, animacy: Animacy) -> (r: bool)
        ensures
            r == self.spec_is_gen_or_acc_an(animacy),
    {
        self == Case::Genitive || (self == Case::Accusative && animacy.is_animate())
    }
}

impl Animacy {
    /// Returns `true` if the animacy is inanimate.
    pub fn is_inanimate(self) -> (r: bool)
        ensures
            r == (self == Animacy::Inanimate),
    {
        self == Animacy::Inanimate
    }

    /// Returns `true` if the animacy is animate.
    pub fn is_animate(self) -> (r: bool)
        ensures
            r == (self == Animacy::Animate),
    {
        self == Animacy::Animate
    }

    /// The accusative case's default form for this animacy.
    pub open spec fn spec_acc_case(self) -> Case {
        match self {
            Animacy::Inanimate => Case::Nominative,
            Animacy::Animate => Case::Genitive,
        }
    }

    /// Returns the accusative case's default form for this animacy: nominative for inanimate,
    /// genitive for animate.
    pub fn acc_case(self) -> (r: Case)
        ensures
            r == self.spec_acc_case(),
    {
        match self {
            Animacy::Inanimate => Case::Nominative,
            Animacy::Animate => Case::Genitive,
        }
    }
}

impl Number {
    /// Returns `true` if the number is singular.
    pub fn is_singular(self) -> (r: bool)
        ensures
            r == (self == Number::Singular),
    {
        self == Number::Singular
    }

    /// Returns `true` if the number is plural.
    pub fn is_plural(self) -> (r: bool)
        ensures
            r == (self == Number::Plural),
    {
        self == Number::Plural
    }
}

impl Tense {
    /// Returns `true` if the tense is present.
    pub fn is_present(self) -> (r: bool)
        ensures
            r == (self == Tense::Present),
    {
        self == Tense::Present
    }

    /// Returns `true` if the tense is past.
    pub fn is_past(self) -> (r: bool)
        ensures
            r == (self == Tense::Past),
    {
        self == Tense::Past
    }
}

impl Person {
    /// The digit of this person: 1, 2 or 3.
    pub open spec fn spec_digit(self) -> u8 {
        match self {
            Person::First => 1,
            Person::Second => 2,
            Person::Third => 3,
        }
    }

    /// Converts this person to its corresponding digit: 1, 2 or 3.
    pub fn to_digit(self) -> (r: u8)
        ensures
            r == self.spec_digit(),
    {
        match self {
            Person::First => 1,
            Person::Second => 2,
            Person::Third => 3,
        }
    }

    /// Converts this person to its corresponding ASCII digit: `b'1'`, `b'2'` or `b'3'`.
    pub fn to_ascii_digit(self) -> (r: u8)
        ensures
            r == 0x30 + self.spec_digit(),
    {
        0x30 + self.to_digit()
    }

    /// Returns `true` if the person is first.
    pub fn is_first(self) -> (r: bool)
        ensures
            r == (self == Person::First),
    {
        self == Person::First
    }

    /// Returns `true` if the person is second.
    pub fn is_second(self) -> (r: bool)
        ensures
            r == (self == Person::Second),
    {
        self == Person::Second
    }

    /// Returns `true` if the person is third.
    pub fn is_third(self) -> (r: bool)
        ensures
            r == (self == Person::Third),
    {
        self == Person::Third
    }
}

/// Standard declension parameters: case, number, gender and animacy.
#[derive(Debug, Clone, Copy, PartialEq, Eq, Structural, Hash, Default)]
pub struct DeclInfo {
    /// The grammatical case.
    pub case: Case,
    /// The grammatical number.
    pub number: Number,
    /// The grammatical gender.
    pub gender: Gender,
    /// The grammatical animacy.
    pub animacy: Animacy,
}

/// Standard conjugation parameters: tense, number, gender and person.
#[derive(Debug, Clone, Copy, PartialEq, Eq, Structural, Hash, Default)]
pub struct ConjInfo {
    /// The grammatical tense.
    pub tense: Tense,
    /// The grammatical number.
    pub number: Number,
    /// The grammatical gender.
    pub gender: Gender,
    /// The grammatical person.
    pub person: Person,
}

impl DeclInfo {
    /// Returns `true` if the number is singular.
    pub fn is_singular(&self) -> (r: bool)
        ensures
            r == (self.number == Number::Singular),
    {
        self.number.is_singular()
    }

    /// Returns `true` if the number is plural.
    pub fn is_plural(&self) -> (r: bool)
        ensures
            r == (self.number == Number::Plural),
    {
        self.number.is_plural()
    }

    /// Returns `true` if the animacy is animate.
    pub fn is_animate(&self) -> (r: bool)
        ensures
            r == (self.animacy == Animacy::Animate),
    {
        self.animacy.is_animate()
    }

    /// Returns `true` if the animacy is inanimate.
    pub fn is_inanimate(&self) -> (r: bool)
        ensures
            r == (self.animacy == Animacy::Inanimate),
    {
        self.animacy.is_inanimate()
    }
}
/// One part of an abbreviated description of declension parameters.
pub enum DeclInfoPart {
    /// A case, such as `И` or `Р.п.`.
    Case(Case),
    /// A number, `ед.` or `мн.`.
    Number(Number),
    /// A gender, such as `м` or `ж.р.`.
    Gender(Gender),
    /// An animacy, `одуш.` or `неод.`.
    Animacy(Animacy),
}

/// The part read at `pos`, and the position after its letters; `None` if no part stands there.
pub open spec fn spec_read_decl_info_part(s: Seq<char>, pos: int) -> Option<(DeclInfoPart, int)> {
    if !(0 <= pos < s.len()) {
        None
    } else {
        let c = s[pos];
        let p = pos + 1;
        if c == 'И' {
            Some((DeclInfoPart::Case(Case::Nominative), p))
        } else if c == 'Р' {
            Some((DeclInfoPart::Case(Case::Genitive), p))
        } else if c == 'Д' {
            Some((DeclInfoPart::Case(Case::Dative), p))
        } else if c == 'В' {
            Some((DeclInfoPart::Case(Case::Accusative), p))
        } else if c == 'Т' {
            Some((DeclInfoPart::Case(Case::Instrumental), p))
        } else if c == 'П' {
            Some((DeclInfoPart::Case(Case::Prepositional), p))
        } else if c == 'е' && spec_peek(s, p) == Some('д') {
            Some((DeclInfoPart::Number(Number::Singular), p + 1))
        } else if c == 'м' && spec_peek(s, p) == Some('н') {
            Some((DeclInfoPart::Number(Number::Plural), p + 1))
        } else if c == 'м' {
            Some((DeclInfoPart::Gender(Gender::Masculine), p))
        } else if c == 'с' {
            Some((DeclInfoPart::Gender(Gender::Neuter), p))
        } else if c == 'ж' {
            Some((DeclInfoPart::Gender(Gender::Feminine), p))
        } else if c == 'о' && spec_starts_with_at(s, p, "душ"@) {
            Some((DeclInfoPart::Animacy(Animacy::Animate), p + 3))
        } else if c == 'н' && spec_starts_with_at(s, p, "еод"@) {
            Some((DeclInfoPart::Animacy(Animacy::Inanimate), p + 3))
        } else {
            None
        }
    }
}

/// The position after an optional `.` and then an optional ` `.
pub open spec fn spec_skip_dot_space(s: Seq<char>, pos: int) -> int {
    spec_skip(s, spec_skip(s, pos, '.'), ' ')
}

/// The letter that may follow a part's abbreviation: `п` (падеж) after a case, `ч` (число)
/// after a number, and `р` (род) after a gender.
pub open spec fn spec_part_suffix(part: DeclInfoPart) -> Option<char> {
    match part {
        DeclInfoPart::Case(_) => Some('п'),
        DeclInfoPart::Number(_) => Some('ч'),
        DeclInfoPart::Gender(_) => Some('р'),
        DeclInfoPart::Animacy(_) => None,
    }
}

/// The position after a part's trailing `.`, ` `, and its optional suffix letter with its own
/// trailing `.` and ` `.
pub open spec fn spec_after_part(s: Seq<char>, pos: int, part: DeclInfoPart) -> int {
    let p = spec_skip_dot_space(s, pos);
    match spec_part_suffix(part) {
        Some(c) => if spec_peek(s, p) == Some(c) {
            spec_skip_dot_space(s, p + 1)
        } else {
            p
        },
        None => p,
    }
}

/// The parameters collected so far while parsing.
pub struct DeclInfoParts {
    /// The case, if one was given.
    pub case: Option<Case>,
    /// The number, if one was given.
    pub number: Option<Number>,
    /// The gender, if one was given.
    pub gender: Option<Gender>,
    /// The animacy, if one was given.
    pub animacy: Option<Animacy>,
}

/// The parameters with one more part: a later part of the same kind replaces an earlier one.
pub open spec fn spec_with_part(acc: DeclInfoParts, part: DeclInfoPart) -> DeclInfoParts {
    match part {
        DeclInfoPart::Case(x) => DeclInfoParts { case: Some(x), ..acc },
        DeclInfoPart::Number(x) => DeclInfoParts { number: Some(x), ..acc },
        DeclInfoPart::Gender(x) => DeclInfoParts { gender: Some(x), ..acc },
        DeclInfoPart::Animacy(x) => DeclInfoParts { animacy: Some(x), ..acc },
    }
}

/// The declension parameters, with the defaults (nominative, singular, masculine, inanimate)
/// for the parameters that were not given.
pub open spec fn spec_finish_decl_info(acc: DeclInfoParts) -> DeclInfo {
    DeclInfo {
        case: match acc.case {
            Some(x) => x,
            None => Case::Nominative,
        },
        number: match acc.number {
            Some(x) => x,
            None => Number::Singular,
        },
        gender: match acc.gender {
            Some(x) => x,
            None => Gender::Masculine,
        },
        animacy: match acc.animacy {
            Some(x) => x,
            None => Animacy::Inanimate,
        },
    }
}

/// The positions only move forward, and never past the end.
pub proof fn lemma_after_part_bounds(s: Seq<char>, pos: int, part: DeclInfoPart)
    requires
        0 <= pos <= s.len(),
    ensures
        pos <= spec_after_part(s, pos, part) <= s.len(),
{
}

/// A part's letters take at least one character, and never run past the end.
pub proof fn lemma_read_part_bounds(s: Seq<char>, pos: int)
    ensures
        spec_read_decl_info_part(s, pos) matches Some((_, p)) ==> pos < p <= s.len(),
{
    reveal_strlit("душ");
    reveal_strlit("еод");
}

/// The result of parsing the parts from `pos` onwards, given the parts collected so far.
pub open spec fn spec_parse_decl_info_from(s: Seq<char>, pos: int, acc: DeclInfoParts) -> Result<
    DeclInfo,
    (),
>
    decreases s.len() - pos,
{
    if pos < 0 || pos >= s.len() {
        Ok(spec_finish_decl_info(acc))
    } else {
        match spec_read_decl_info_part(s, pos) {
            None => Err(()),
            Some((part, p)) => {
                let next = spec_after_part(s, p, part);
                if pos < next <= s.len() {
                    spec_parse_decl_info_from(s, next, spec_with_part(acc, part))
                } else {
                    Err(())
                }
            },
        }
    }
}

/// The result of parsing declension parameters from the string `s`.
pub open spec fn spec_parse_decl_info(s: Seq<char>) -> Result<DeclInfo, ()> {
    spec_parse_decl_info_from(
        s,
        0,
        DeclInfoParts { case: None, number: None, gender: None, animacy: None },
    )
}

/// The case that a capital letter abbreviates: И nominative, Р genitive, Д dative, В
/// accusative, Т instrumental, П prepositional; `None` for any other character.
pub open spec fn spec_case_abbreviation(c: char) -> Option<Case> {
    if c == 'И' {
        Some(Case::Nominative)
    } else if c == 'Р' {
        Some(Case::Genitive)
    } else if c == 'Д' {
        Some(Case::Dative)
    } else if c == 'В' {
        Some(Case::Accusative)
    } else if c == 'Т' {
        Some(Case::Instrumental)
    } else if c == 'П' {
        Some(Case::Prepositional)
    } else {
        None
    }
}

/// The case abbreviated by the last case letter in `s`, if it holds any.
pub open spec fn spec_last_case_abbreviation(s: Seq<char>) -> Option<Case>
    decreases s.len(),
{
    if s.len() == 0 {
        None
    } else {
        match spec_case_abbreviation(s.last()) {
            Some(c) => Some(c),
            None => spec_last_case_abbreviation(s.drop_last()),
        }
    }
}

/// No character of `s` from `a` up to `b` abbreviates a case.
pub open spec fn spec_no_case_letter_in(s: Seq<char>, a: int, b: int) -> bool {
    forall|i: int| a <= i < b ==> spec_case_abbreviation(#[trigger] s[i]) is None
}

/// Extending a prefix by characters that abbreviate no case keeps its last case letter.
proof fn lemma_last_case_extend(s: Seq<char>, a: int, b: int)
    requires
        0 <= a <= b <= s.len(),
        spec_no_case_letter_in(s, a, b),
    ensures
        spec_last_case_abbreviation(s.take(b)) == spec_last_case_abbreviation(s.take(a)),
    decreases b - a,
{
    if a < b {
        lemma_last_case_extend(s, a, b - 1);
        assert(s.take(b).drop_last() =~= s.take(b - 1));
        assert(s.take(b).last() == s[b - 1]);
    }
}

/// What the separators after a part skip abbreviates no case.
proof fn lemma_after_part_no_case(s: Seq<char>, pos: int, part: DeclInfoPart)
    requires
        0 <= pos <= s.len(),
    ensures
        spec_no_case_letter_in(s, pos, spec_after_part(s, pos, part)),
{
}

/// The letters of a part after its first one abbreviate no case.
proof fn lemma_read_part_no_case(s: Seq<char>, pos: int)
    ensures
        spec_read_decl_info_part(s, pos) matches Some((_, p)) ==> spec_no_case_letter_in(
            s,
            pos + 1,
            p,
        ),
{
    reveal_strlit("душ");
    reveal_strlit("еод");
    if let Some((part, p)) = spec_read_decl_info_part(s, pos) {
        if s[pos] == 'о' || s[pos] == 'н' {
            assert forall|i: int| pos + 1 <= i < p implies spec_case_abbreviation(
                #[trigger] s[i],
            ) is None by {
                assert(s[i] == s.subrange(pos + 1, pos + 4)[i - pos - 1]);
            }
        }
    }
}

proof fn lemma_parse_decl_info_case_from(s: Seq<char>, pos: int, acc: DeclInfoParts)
    requires
        0 <= pos <= s.len(),
        acc.case == spec_last_case_abbreviation(s.take(pos)),
    ensures
        spec_parse_decl_info_from(s, pos, acc) matches Ok(x) ==> Some(x.case)
            == spec_last_case_abbreviation(s) || (x.case == Case::Nominative
            && spec_last_case_abbreviation(s) is None),
    decreases s.len() - pos,
{
    if pos >= s.len() {
        assert(s.take(pos) =~= s);
    } else {
        lemma_read_part_bounds(s, pos);
        lemma_read_part_no_case(s, pos);
        if let Some((part, p)) = spec_read_decl_info_part(s, pos) {
            let next = spec_after_part(s, p, part);
            lemma_after_part_bounds(s, p, part);
            lemma_after_part_no_case(s, p, part);
            let acc2 = spec_with_part(acc, part);
            assert(spec_no_case_letter_in(s, pos + 1, next));
            lemma_last_case_extend(s, pos + 1, next);
            assert(s.take(pos + 1).drop_last() =~= s.take(pos));
            assert(s.take(pos + 1).last() == s[pos]);
            assert(acc2.case == spec_last_case_abbreviation(s.take(pos + 1)));
            lemma_parse_decl_info_case_from(s, next, acc2);
        }
    }
}

/// The case of parsed declension parameters is the one that the last case letter of the text
/// abbreviates (И nominative, Р genitive, Д dative, В accusative, Т instrumental, П
/// prepositional), and nominative where the text holds none: `Д.п. ед.ч.` is dative.
pub proof fn law_decl_info_case_is_last_case_letter(s: Seq<char>)
    ensures
        spec_parse_decl_info(s) matches Ok(x) ==> x.case == match spec_last_case_abbreviation(s) {
            Some(c) => c,
            None => Case::Nominative,
        },
{
    assert(s.take(0) =~= Seq::<char>::empty());
    lemma_parse_decl_info_case_from(
        s,
        0,
        DeclInfoParts { case: None, number: None, gender: None, animacy: None },
    );
}

/// The number abbreviated at `i` in `s`: ед singular, мн plural.
pub open spec fn spec_number_abbreviation_at(s: Seq<char>, i: int) -> Option<Number> {
    if 0 <= i && i + 1 < s.len() && s[i] == 'е' && s[i + 1] == 'д' {
        Some(Number::Singular)
    } else if 0 <= i && i + 1 < s.len() && s[i] == 'м' && s[i + 1] == 'н' {
        Some(Number::Plural)
    } else {
        None
    }
}

/// The gender abbreviated at `i` in `s`: м (but not the м of мн) masculine, с neuter, ж
/// feminine.
pub open spec fn spec_gender_abbreviation_at(s: Seq<char>, i: int) -> Option<Gender> {
    if !(0 <= i < s.len()) {
        None
    } else if s[i] == 'м' && !(i + 1 < s.len() && s[i + 1] == 'н') {
        Some(Gender::Masculine)
    } else if s[i] == 'с' {
        Some(Gender::Neuter)
    } else if s[i] == 'ж' {
        Some(Gender::Feminine)
    } else {
        None
    }
}

/// The animacy abbreviated at `i` in `s`: одуш animate, неод inanimate.
pub open spec fn spec_animacy_abbreviation_at(s: Seq<char>, i: int) -> Option<Animacy> {
    if 0 <= i && i + 3 < s.len() && s[i] == 'о' && s[i + 1] == 'д' && s[i + 2] == 'у' && s[i
        + 3] == 'ш' {
        Some(Animacy::Animate)
    } else if 0 <= i && i + 3 < s.len() && s[i] == 'н' && s[i + 1] == 'е' && s[i + 2] == 'о'
        && s[i + 3] == 'д' {
        Some(Animacy::Inanimate)
    } else {
        None
    }
}

/// The value found at the last position before `n` where `f` finds one.
pub open spec fn spec_last_found<A>(f: spec_fn(int) -> Option<A>, n: int) -> Option<A>
    decreases n,
{
    if n <= 0 {
        None
    } else {
        match f(n - 1) {
            Some(x) => Some(x),
            None => spec_last_found(f, n - 1),
        }
    }
}

/// The number of the last number abbreviation in `s` before `n`.
pub open spec fn spec_last_number_abbreviation(s: Seq<char>, n: int) -> Option<Number> {
    spec_last_found(|i: int| spec_number_abbreviation_at(s, i), n)
}

/// The gender of the last gender abbreviation in `s` before `n`.
pub open spec fn spec_last_gender_abbreviation(s: Seq<char>, n: int) -> Option<Gender> {
    spec_last_found(|i: int| spec_gender_abbreviation_at(s, i), n)
}

/// The animacy of the last animacy abbreviation in `s` before `n`.
pub open spec fn spec_last_animacy_abbreviation(s: Seq<char>, n: int) -> Option<Animacy> {
    spec_last_found(|i: int| spec_animacy_abbreviation_at(s, i), n)
}

/// Positions where `f` finds nothing do not change the last value found.
proof fn lemma_last_found_extend<A>(f: spec_fn(int) -> Option<A>, a: int, b: int)
    requires
        0 <= a <= b,
        forall|i: int| a <= i < b ==> #[trigger] f(i) is None,
    ensures
        spec_last_found(f, b) == spec_last_found(f, a),
    decreases b - a,
{
    if a < b {
        lemma_last_found_extend(f, a, b - 1);
    }
}

proof fn lemma_parse_decl_info_fields_from(s: Seq<char>, pos: int, acc: DeclInfoParts)
    requires
        0 <= pos <= s.len(),
        acc.number == spec_last_number_abbreviation(s, pos),
        acc.gender == spec_last_gender_abbreviation(s, pos),
        acc.animacy == spec_last_animacy_abbreviation(s, pos),
    ensures
        spec_parse_decl_info_from(s, pos, acc) matches Ok(x) ==> {
            &&& Some(x.number) == spec_last_number_abbreviation(s, s.len() as int) || (x.number
                == Number::Singular && spec_last_number_abbreviation(s, s.len() as int) is None)
            &&& Some(x.gender) == spec_last_gender_abbreviation(s, s.len() as int) || (x.gender
                == Gender::Masculine && spec_last_gender_abbreviation(s, s.len() as int) is None)
            &&& Some(x.animacy) == spec_last_animacy_abbreviation(s, s.len() as int) || (
            x.animacy == Animacy::Inanimate && spec_last_animacy_abbreviation(s, s.len() as int)
                is None)
        },
    decreases s.len() - pos,
{
    reveal_strlit("душ");
    reveal_strlit("еод");
    if pos < s.len() {
        lemma_read_part_bounds(s, pos);
        if let Some((part, p)) = spec_read_decl_info_part(s, pos) {
            let next = spec_after_part(s, p, part);
            lemma_after_part_bounds(s, p, part);
            let acc2 = spec_with_part(acc, part);
            if pos < next <= s.len() && spec_parse_decl_info_from(s, next, acc2) is Ok {
                let fnum = |i: int| spec_number_abbreviation_at(s, i);
                let fgen = |i: int| spec_gender_abbreviation_at(s, i);
                let fani = |i: int| spec_animacy_abbreviation_at(s, i);
                if s[pos] == 'о' || s[pos] == 'н' {
                    assert(s.subrange(pos + 1, pos + 4)[0] == s[pos + 1]);
                    assert(s.subrange(pos + 1, pos + 4)[1] == s[pos + 2]);
                    assert(s.subrange(pos + 1, pos + 4)[2] == s[pos + 3]);
                }
                assert forall|i: int| pos + 1 <= i < next implies #[trigger] fnum(i) is None
                    && fgen(i) is None && fani(i) is None by {
                    if i == pos + 2 && part == DeclInfoPart::Animacy(Animacy::Inanimate) {
                        assert(fani(i) is None);
                    }
                }
                lemma_last_found_extend(fnum, pos + 1, next);
                lemma_last_found_extend(fgen, pos + 1, next);
                lemma_last_found_extend(fani, pos + 1, next);
                lemma_parse_decl_info_fields_from(s, next, acc2);
            }
        }
    }
}

/// The number, gender and animacy of parsed declension parameters are those that the last
/// abbreviation of each in the text gives (ед singular, мн plural; м masculine, с neuter, ж
/// feminine; одуш animate, неод inanimate), and singular, masculine and inanimate where the
/// text holds none: `мн.ч. ж.р. одуш.` is plural, feminine and animate.
pub proof fn law_decl_info_fields_are_last_abbreviations(s: Seq<char>)
    ensures
        spec_parse_decl_info(s) matches Ok(x) ==> {
            &&& x.number == match spec_last_number_abbreviation(s, s.len() as int) {
                Some(v) => v,
                None => Number::Singular,
            }
            &&& x.gender == match spec_last_gender_abbreviation(s, s.len() as int) {
                Some(v) => v,
                None => Gender::Masculine,
            }
            &&& x.animacy == match spec_last_animacy_abbreviation(s, s.len() as int) {
                Some(v) => v,
                None => Animacy::Inanimate,
            }
        },
{
    lemma_parse_decl_info_fields_from(
        s,
        0,
        DeclInfoParts { case: None, number: None, gender: None, animacy: None },
    );
}

impl DeclInfo {
    /// Parses declension parameters from their Russian abbreviations, in any order: a case
    /// (`И`, `Р`, `Д`, `В`, `Т`, `П`, optionally followed by `.п.`), a number (`ед.` or `мн.`,
    /// optionally followed by `ч.`), a gender (`м`, `с`, `ж`, optionally followed by `.р.`) and
    /// an animacy (`одуш.` or `неод.`), separated by optional dots and spaces. The parameters
    /// that are not given take their defaults: nominative, singular, masculine, inanimate.
    pub fn parse_str(s: &str) -> (r: Result<DeclInfo, ()>)
        ensures
            r == spec_parse_decl_info(s@),
    {
        let mut parser = UnsafeParser::new(s);
        let ghost chars = parser.chars();
        let mut case: Option<Case> = None;
        let mut number: Option<Number> = None;
        let mut gender: Option<Gender> = None;
        let mut animacy: Option<Animacy> = None;
        while !parser.finished()
            invariant
                parser.chars() == chars,
                chars == s@,
                0 <= parser.pos() <= chars.len(),
                spec_parse_decl_info(chars) == spec_parse_decl_info_from(
                    chars,
                    parser.pos(),
                    DeclInfoParts { case, number, gender, animacy },
                ),
            decreases chars.len() - parser.pos(),
        {
            let ghost start = parser.pos();
            let ghost acc = DeclInfoParts { case, number, gender, animacy };
            let part = match Self::read_part(&mut parser) {
                Some(part) => part,
                None => {
                    assert(spec_parse_decl_info_from(chars, start, acc) == Err::<DeclInfo, ()>(()));
                    return Err(());
                },
            };
            let ghost p = parser.pos();
            proof {
                lemma_read_part_bounds(chars, start);
            }
            proof {
                lemma_after_part_bounds(chars, p, part);
            }
            parser.skip('.');
            parser.skip(' ');
            match part {
                DeclInfoPart::Case(x) => {
                    case = Some(x);
                    if parser.skip('п') {
                        parser.skip('.');
                        parser.skip(' ');
                    }
                },
                DeclInfoPart::Number(x) => {
                    number = Some(x);
                    if parser.skip('ч') {
                        parser.skip('.');
                        parser.skip(' ');
                    }
                },
                DeclInfoPart::Gender(x) => {
                    gender = Some(x);
                    if parser.skip('р') {
                        parser.skip('.');
                        parser.skip(' ');
                    }
                },
                DeclInfoPart::Animacy(x) => {
                    animacy = Some(x);
                },
            }
            assert(parser.pos() == spec_after_part(chars, p, part));
            assert(DeclInfoParts { case, number, gender, animacy } == spec_with_part(acc, part));
        }
        Ok(DeclInfo {
            case: match case {
                Some(x) => x,
                None => Case::Nominative,
            },
            number: match number {
                Some(x) => x,
                None => Number::Singular,
            },
            gender: match gender {
                Some(x) => x,
                None => Gender::Masculine,
            },
            animacy: match animacy {
                Some(x) => x,
                None => Animacy::Inanimate,
            },
        })
    }

    /// Reads one part's abbreviation, leaving the parser after its letters.
    fn read_part(parser: &mut UnsafeParser) -> (r: Option<DeclInfoPart>)
        requires
            old(parser).pos() < old(parser).chars().len(),
        ensures
            final(parser).chars() == old(parser).chars(),
            r matches Some(part) ==> spec_read_decl_info_part(old(parser).chars(), old(parser).pos())
                == Some((part, final(parser).pos())),
            r is None ==> spec_read_decl_info_part(old(parser).chars(), old(parser).pos()) is None,
    {
        let ghost s = old(parser).chars();
        let ghost pos = old(parser).pos();
        let c = match parser.read_char() {
            Some(c) => c,
            None => {
                return None;
            },
        };
        if c == 'И' {
            Some(DeclInfoPart::Case(Case::Nominative))
        } else if c == 'Р' {
            Some(DeclInfoPart::Case(Case::Genitive))
        } else if c == 'Д' {
            Some(DeclInfoPart::Case(Case::Dative))
        } else if c == 'В' {
            Some(DeclInfoPart::Case(Case::Accusative))
        } else if c == 'Т' {
            Some(DeclInfoPart::Case(Case::Instrumental))
        } else if c == 'П' {
            Some(DeclInfoPart::Case(Case::Prepositional))
        } else if c == 'е' && parser.skip('д') {
            Some(DeclInfoPart::Number(Number::Singular))
        } else if c == 'м' && parser.skip('н') {
            Some(DeclInfoPart::Number(Number::Plural))
        } else if c == 'м' {
            Some(DeclInfoPart::Gender(Gender::Masculine))
        } else if c == 'с' {
            Some(DeclInfoPart::Gender(Gender::Neuter))
        } else if c == 'ж' {
            Some(DeclInfoPart::Gender(Gender::Feminine))
        } else if c == 'о' && parser.skip_str("душ") {
            proof {
                reveal_strlit("душ");
            }
            Some(DeclInfoPart::Animacy(Animacy::Animate))
        } else if c == 'н' && parser.skip_str("еод") {
            proof {
                reveal_strlit("еод");
            }
            Some(DeclInfoPart::Animacy(Animacy::Inanimate))
        } else {
            None
        }
    }
}

impl std::str::FromStr for DeclInfo {
    type Err = ();

    fn from_str(s: &str) -> (r: Result<Self, Self::Err>)
        ensures
            r == spec_parse_decl_info(s@),
    {
        DeclInfo::parse_str(s)
    }
}



impl From<Case> for CaseEx {
    fn from(value: Case) -> (r: CaseEx) {
        value.case_ex()
    }
}

impl vstd::std_specs::convert::FromSpecImpl<Case> for CaseEx {
    open spec fn obeys_from_spec() -> bool {
        true
    }

    open spec fn from_spec(v: Case) -> CaseEx {
        v.spec_case_ex()
    }
}

impl TryFrom<CaseEx> for Case {
    type Error = CaseError;

    fn try_from(value: CaseEx) -> (r: Result<Case, CaseError>) {
        value.try_case()
    }
}

impl vstd::std_specs::convert::TryFromSpecImpl<CaseEx> for Case {
    open spec fn obeys_try_from_spec() -> bool {
        true
    }

    open spec fn try_from_spec(v: CaseEx) -> Result<Case, CaseError> {
        match v.spec_case() {
            Some(c) => Ok(c),
            None => Err(CaseError),
        }
    }
}

impl From<Gender> for GenderEx {
    fn from(value: Gender) -> (r: GenderEx) {
        value.gender_ex()
    }
}

impl vstd::std_specs::convert::FromSpecImpl<Gender> for GenderEx {
    open spec fn obeys_from_spec() -> bool {
        true
    }

    open spec fn from_spec(v: Gender) -> GenderEx {
        v.spec_gender_ex()
    }
}

impl TryFrom<GenderEx> for Gender {
    type Error = GenderError;

    fn try_from(value: GenderEx) -> (r: Result<Gender, GenderError>) {
        value.try_gender()
    }
}

impl vstd::std_specs::convert::TryFromSpecImpl<GenderEx> for Gender {
    open spec fn obeys_try_from_spec() -> bool {
        true
    }

    open spec fn try_from_spec(v: GenderEx) -> Result<Gender, GenderError> {
        match v.spec_gender() {
            Some(g) => Ok(g),
            None => Err(GenderError),
        }
    }
}

/// Converting a primary case into a [`CaseEx`] and back gives the same case, and a [`CaseEx`]
/// converts into a primary case exactly when it is not a secondary case.
pub proof fn law_case_round_trip(c: Case, x: CaseEx)
    ensures
        c.spec_case_ex().spec_case() == Some(c),
        x.spec_case() matches Some(c2) ==> c2.spec_case_ex() == x,
        x.spec_case() is None <==> (x == CaseEx::Partitive || x == CaseEx::Translative
            || x == CaseEx::Locative),
{
}

/// Converting a primary gender into a [`GenderEx`] and back gives the same gender, and the
/// common gender is the only one that is not primary.
pub proof fn law_gender_round_trip(g: Gender, x: GenderEx)
    ensures
        g.spec_gender_ex().spec_gender() == Some(g),
        x.spec_gender() matches Some(g2) ==> g2.spec_gender_ex() == x,
        x.spec_gender() is None <==> x == GenderEx::Common,
        x.spec_normalize() == (if x == GenderEx::Common { Gender::Feminine } else { x.spec_gender().unwrap() }),
{
}

/// The lower-case ASCII letter of an upper-case one; any other character unchanged.
pub open spec fn spec_ascii_lowercase(c: char) -> char {
    if c == 'A' {
        'a'
    } else if c == 'B' {
        'b'
    } else if c == 'C' {
        'c'
    } else if c == 'D' {
        'd'
    } else if c == 'E' {
        'e'
    } else if c == 'F' {
        'f'
    } else if c == 'G' {
        'g'
    } else if c == 'H' {
        'h'
    } else if c == 'I' {
        'i'
    } else if c == 'J' {
        'j'
    } else if c == 'K' {
        'k'
    } else if c == 'L' {
        'l'
    } else if c == 'M' {
        'm'
    } else if c == 'N' {
        'n'
    } else if c == 'O' {
        'o'
    } else if c == 'P' {
        'p'
    } else if c == 'Q' {
        'q'
    } else if c == 'R' {
        'r'
    } else if c == 'S' {
        's'
    } else if c == 'T' {
        't'
    } else if c == 'U' {
        'u'
    } else if c == 'V' {
        'v'
    } else if c == 'W' {
        'w'
    } else if c == 'X' {
        'x'
    } else if c == 'Y' {
        'y'
    } else if c == 'Z' {
        'z'
    } else {
        c
    }
}

/// The small capital of an upper-case ASCII letter that the abbreviations use (ᴀ for A, ɴ
/// for N, ...); any other character unchanged.
pub open spec fn spec_small_capital(c: char) -> char {
    if c == 'A' {
        'ᴀ'
    } else if c == 'C' {
        'ᴄ'
    } else if c == 'D' {
        'ᴅ'
    } else if c == 'E' {
        'ᴇ'
    } else if c == 'F' {
        'ꜰ'
    } else if c == 'G' {
        'ɢ'
    } else if c == 'I' {
        'ɪ'
    } else if c == 'L' {
        'ʟ'
    } else if c == 'M' {
        'ᴍ'
    } else if c == 'N' {
        'ɴ'
    } else if c == 'O' {
        'ᴏ'
    } else if c == 'P' {
        'ᴘ'
    } else if c == 'R' {
        'ʀ'
    } else if c == 'S' {
        'ꜱ'
    } else if c == 'T' {
        'ᴛ'
    } else if c == 'U' {
        'ᴜ'
    } else {
        c
    }
}

/// The abbreviations of a case spell the same letters in each style: the lower-case
/// abbreviation is the upper-case one in lower case, and the small-caps one is it in small
/// capitals; and no two values share an abbreviation.
pub proof fn law_case_abbreviations(x: CaseEx, y: CaseEx)
    ensures
        x.spec_abbr_lower() == x.spec_abbr_upper().map_values(|c: char| spec_ascii_lowercase(c)),
        x.spec_abbr_smcp() == x.spec_abbr_upper().map_values(|c: char| spec_small_capital(c)),
        x != y ==> x.spec_abbr_upper() != y.spec_abbr_upper(),
{
    reveal_strlit("NOM");
    reveal_strlit("nom");
    reveal_strlit("ɴᴏᴍ");
    reveal_strlit("GEN");
    reveal_strlit("gen");
    reveal_strlit("ɢᴇɴ");
    reveal_strlit("DAT");
    reveal_strlit("dat");
    reveal_strlit("ᴅᴀᴛ");
    reveal_strlit("ACC");
    reveal_strlit("acc");
    reveal_strlit("ᴀᴄᴄ");
    reveal_strlit("INS");
    reveal_strlit("ins");
    reveal_strlit("ɪɴꜱ");
    reveal_strlit("PRP");
    reveal_strlit("prp");
    reveal_strlit("ᴘʀᴘ");
    reveal_strlit("PRT");
    reveal_strlit("prt");
    reveal_strlit("ᴘʀᴛ");
    reveal_strlit("TRANSL");
    reveal_strlit("transl");
    reveal_strlit("ᴛʀᴀɴꜱʟ");
    reveal_strlit("LOC");
    reveal_strlit("loc");
    reveal_strlit("ʟᴏᴄ");
    assert(x.spec_abbr_lower() =~= x.spec_abbr_upper().map_values(|c: char| spec_ascii_lowercase(c)));
    assert(x.spec_abbr_smcp() =~= x.spec_abbr_upper().map_values(|c: char| spec_small_capital(c)));
    if x != y && x.spec_abbr_upper() == y.spec_abbr_upper() {
        let s = x.spec_abbr_upper();
        let t = y.spec_abbr_upper();
        assert(s[0] == t[0] && s[1] == t[1]);
        if s.len() > 2 {
            assert(s[2] == t[2]);
        }
    }
}

/// The abbreviations of a gender spell the same letters in each style: the lower-case
/// abbreviation is the upper-case one in lower case, and the small-caps one is it in small
/// capitals; and no two values share an abbreviation.
pub proof fn law_gender_abbreviations(x: GenderEx, y: GenderEx)
    ensures
        x.spec_abbr_lower() == x.spec_abbr_upper().map_values(|c: char| spec_ascii_lowercase(c)),
        x.spec_abbr_smcp() == x.spec_abbr_upper().map_values(|c: char| spec_small_capital(c)),
        x != y ==> x.spec_abbr_upper() != y.spec_abbr_upper(),
{
    reveal_strlit("MASC");
    reveal_strlit("masc");
    reveal_strlit("ᴍᴀꜱᴄ");
    reveal_strlit("NEUT");
    reveal_strlit("neut");
    reveal_strlit("ɴᴇᴜᴛ");
    reveal_strlit("FEM");
    reveal_strlit("fem");
    reveal_strlit("ꜰᴇᴍ");
    reveal_strlit("MASC/FEM");
    reveal_strlit("masc/fem");
    reveal_strlit("ᴍᴀꜱᴄ/ꜰᴇᴍ");
    assert(x.spec_abbr_lower() =~= x.spec_abbr_upper().map_values(|c: char| spec_ascii_lowercase(c)));
    assert(x.spec_abbr_smcp() =~= x.spec_abbr_upper().map_values(|c: char| spec_small_capital(c)));
    if x != y && x.spec_abbr_upper() == y.spec_abbr_upper() {
        let s = x.spec_abbr_upper();
        let t = y.spec_abbr_upper();
        assert(s[0] == t[0] && s[1] == t[1]);
        if s.len() > 2 {
            assert(s[2] == t[2]);
        }
    }
}

/// The abbreviations of a animacy spell the same letters in each style: the lower-case
/// abbreviation is the upper-case one in lower case, and the small-caps one is it in small
/// capitals; and no two values share an abbreviation.
pub proof fn law_animacy_abbreviations(x: Animacy, y: Animacy)
    ensures
        x.spec_abbr_lower() == x.spec_abbr_upper().map_values(|c: char| spec_ascii_lowercase(c)),
        x.spec_abbr_smcp() == x.spec_abbr_upper().map_values(|c: char| spec_small_capital(c)),
        x != y ==> x.spec_abbr_upper() != y.spec_abbr_upper(),
{
    reveal_strlit("INAN");
    reveal_strlit("inan");
    reveal_strlit("ɪɴᴀɴ");
    reveal_strlit("AN");
    reveal_strlit("an");
    reveal_strlit("ᴀɴ");
    assert(x.spec_abbr_lower() =~= x.spec_abbr_upper().map_values(|c: char| spec_ascii_lowercase(c)));
    assert(x.spec_abbr_smcp() =~= x.spec_abbr_upper().map_values(|c: char| spec_small_capital(c)));
    if x != y && x.spec_abbr_upper() == y.spec_abbr_upper() {
        let s = x.spec_abbr_upper();
        let t = y.spec_abbr_upper();
        assert(s[0] == t[0] && s[1] == t[1]);
        if s.len() > 2 {
            assert(s[2] == t[2]);
        }
    }
}

/// The abbreviations of a number spell the same letters in each style: the lower-case
/// abbreviation is the upper-case one in lower case, and the small-caps one is it in small
/// capitals; and no two values share an abbreviation.
pub proof fn law_number_abbreviations(x: Number, y: Number)
    ensures
        x.spec_abbr_lower() == x.spec_abbr_upper().map_values(|c: char| spec_ascii_lowercase(c)),
        x.spec_abbr_smcp() == x.spec_abbr_upper().map_values(|c: char| spec_small_capital(c)),
        x != y ==> x.spec_abbr_upper() != y.spec_abbr_upper(),
{
    reveal_strlit("SG");
    reveal_strlit("sg");
    reveal_strlit("ꜱɢ");
    reveal_strlit("PL");
    reveal_strlit("pl");
    reveal_strlit("ᴘʟ");
    assert(x.spec_abbr_lower() =~= x.spec_abbr_upper().map_values(|c: char| spec_ascii_lowercase(c)));
    assert(x.spec_abbr_smcp() =~= x.spec_abbr_upper().map_values(|c: char| spec_small_capital(c)));
    if x != y && x.spec_abbr_upper() == y.spec_abbr_upper() {
        let s = x.spec_abbr_upper();
        let t = y.spec_abbr_upper();
        assert(s[0] == t[0] && s[1] == t[1]);
        if s.len() > 2 {
            assert(s[2] == t[2]);
        }
    }
}

/// The abbreviations of a tense spell the same letters in each style: the lower-case
/// abbreviation is the upper-case one in lower case, and the small-caps one is it in small
/// capitals; and no two values share an abbreviation.
pub proof fn law_tense_abbreviations(x: Tense, y: Tense)
    ensures
        x.spec_abbr_lower() == x.spec_abbr_upper().map_values(|c: char| spec_ascii_lowercase(c)),
        x.spec_abbr_smcp() == x.spec_abbr_upper().map_values(|c: char| spec_small_capital(c)),
        x != y ==> x.spec_abbr_upper() != y.spec_abbr_upper(),
{
    reveal_strlit("PRS");
    reveal_strlit("prs");
    reveal_strlit("ᴘʀꜱ");
    reveal_strlit("PST");
    reveal_strlit("pst");
    reveal_strlit("ᴘꜱᴛ");
    assert(x.spec_abbr_lower() =~= x.spec_abbr_upper().map_values(|c: char| spec_ascii_lowercase(c)));
    assert(x.spec_abbr_smcp() =~= x.spec_abbr_upper().map_values(|c: char| spec_small_capital(c)));
    if x != y && x.spec_abbr_upper() == y.spec_abbr_upper() {
        let s = x.spec_abbr_upper();
        let t = y.spec_abbr_upper();
        assert(s[0] == t[0] && s[1] == t[1]);
        if s.len() > 2 {
            assert(s[2] == t[2]);
        }
    }
}

} // verus!
