//! Stress schemas, according to Zaliznyak's classification.
//!
//! There are 13 stress schemas: 6 primary letters (a, b, c, d, e, f), 5 with a single prime
//! (a′, b′, c′, d′, f′), and 2 with a double prime (c″ and f″). Nouns and pronouns have single
//! stress schemas, and adjectives and verbs have dual stress schemas (such as a/b), which can
//! sometimes be abbreviated to one letter.

use crate::categories::{Case, DeclInfo, Gender, Number, Person};
use crate::parser::{spec_peek, UnsafeParser};
use crate::text::push_char;
use vstd::prelude::*;

verus! {

/// Any word's single stress schema. Can be converted to and from any other stress type.
#[derive(Debug, Clone, Copy, PartialEq, Eq, Structural, Hash)]
pub enum AnyStress {
    /// Stress schema a. The stress is always on the stem.
    A,
    /// Stress schema b. The stress is always on the ending.
    B,
    /// Stress schema c.
    C,
    /// Stress schema d.
    D,
    /// Stress schema e.
    E,
    /// Stress schema f.
    F,
    /// Stress schema a′ (a with single prime).
    Ap,
    /// Stress schema b′ (b with single prime).
    Bp,
    /// Stress schema c′ (c with single prime).
    Cp,
    /// Stress schema d′ (d with single prime).
    Dp,
    /// Stress schema e′ (e with single prime).
    Ep,
    /// Stress schema f′ (f with single prime).
    Fp,
    /// Stress schema c″ (c with double prime).
    Cpp,
    /// Stress schema f″ (f with double prime).
    Fpp,
}

/// A noun stress schema.
#[derive(Debug, Clone, Copy, PartialEq, Eq, Structural, Hash)]
pub enum NounStress {
    /// Stress schema a. The stress is always on the stem.
    A,
    /// Stress schema b. The stress is always on the ending.
    B,
    /// Stress schema c.
    C,
    /// Stress schema d.
    D,
    /// Stress schema e.
    E,
    /// Stress schema f.
    F,
    /// Stress schema b′ (b with single prime).
    Bp,
    /// Stress schema d′ (d with single prime).
    Dp,
    /// Stress schema f′ (f with single prime).
    Fp,
    /// Stress schema f″ (f with double prime).
    Fpp,
}

/// Error type for conversion to [`NounStress`]: nouns can only have stresses a-f, b′, d′, f′ and f″.
#[derive(Debug, Clone, Copy, PartialEq, Eq, Structural, Hash, Default)]
pub struct NounStressError;

/// A pronoun stress schema.
#[derive(Debug, Clone, Copy, PartialEq, Eq, Structural, Hash)]
pub enum PronounStress {
    /// Stress schema a. The stress is always on the stem.
    A,
    /// Stress schema b. The stress is always on the ending.
    B,
    /// Stress schema f.
    F,
}

/// Error type for conversion to [`PronounStress`]: pronouns can only have stresses a, b and f.
#[derive(Debug, Clone, Copy, PartialEq, Eq, Structural, Hash, Default)]
pub struct PronounStressError;

/// An adjective's full form stress schema.
#[derive(Debug, Clone, Copy, PartialEq, Eq, Structural, Hash)]
pub enum AdjectiveFullStress {
    /// Stress schema a. The stress is always on the stem.
    A,
    /// Stress schema b. The stress is always on the ending.
    B,
}

/// Error type for conversion to [`AdjectiveFullStress`]: adjectives (full form) can only have stresses a and b.
#[derive(Debug, Clone, Copy, PartialEq, Eq, Structural, Hash, Default)]
pub struct AdjectiveFullStressError;

/// An adjective's short form stress schema.
#[derive(Debug, Clone, Copy, PartialEq, Eq, Structural, Hash)]
pub enum AdjectiveShortStress {
    /// Stress schema a. The stress is always on the stem.
    A,
    /// Stress schema b. The stress is always on the ending.
    B,
    /// Stress schema c.
    C,
    /// Stress schema a′ (a with single prime).
    Ap,
    /// Stress schema b′ (b with single prime).
    Bp,
    /// Stress schema c′ (c with single prime).
    Cp,
    /// Stress schema c″ (c with double prime).
    Cpp,
}

/// Error type for conversion to [`AdjectiveShortStress`]: adjectives (short form) can only have stresses a-c, a′-c′ and c″.
#[derive(Debug, Clone, Copy, PartialEq, Eq, Structural, Hash, Default)]
pub struct AdjectiveShortStressError;

/// A verb's present tense form stress schema.
#[derive(Debug, Clone, Copy, PartialEq, Eq, Structural, Hash)]
pub enum VerbPresentStress {
    /// Stress schema a. The stress is always on the stem.
    A,
    /// Stress schema b. The stress is always on the ending.
    B,
    /// Stress schema c.
    C,
    /// Stress schema c′ (c with single prime).
    Cp,
}

/// Error type for conversion to [`VerbPresentStress`]: verbs (present tense) can only have stresses a, b, c and c′.
#[derive(Debug, Clone, Copy, PartialEq, Eq, Structural, Hash, Default)]
pub struct VerbPresentStressError;

/// A verb's past tense form stress schema.
#[derive(Debug, Clone, Copy, PartialEq, Eq, Structural, Hash)]
pub enum VerbPastStress {
    /// Stress schema a. The stress is always on the stem.
    A,
    /// Stress schema b. The stress is always on the ending.
    B,
    /// Stress schema c.
    C,
    /// Stress schema c′ (c with single prime).
    Cp,
    /// Stress schema c″ (c with double prime).
    Cpp,
}

/// Error type for conversion to [`VerbPastStress`]: verbs (past tense) can only have stresses a, b, c, c′ and c″.
#[derive(Debug, Clone, Copy, PartialEq, Eq, Structural, Hash, Default)]
pub struct VerbPastStressError;

/// Error type for parsing stress types.
#[derive(Debug, Clone, Copy, PartialEq, Eq, Structural, Hash)]
pub enum ParseStressError {
    /// The first character is not a valid latin letter.
    InvalidLetter,
    /// Attempted to construct a double-primed stress other than c″ and f″.
    InvalidPrime,
    /// The parsed value is not compatible with the specified stress type.
    Incompatible,
    /// Invalid format.
    Invalid,
}

/// Error type for conversion to any stress type: words can only have stresses a-f, a′-f′, c″
/// and f″.
#[derive(Debug, Clone, Copy, PartialEq, Eq, Structural, Hash, Default)]
pub struct AnyStressError;

/// Error type for conversion to [`AdjectiveStress`].
#[derive(Debug, Clone, Copy, PartialEq, Eq, Structural, Hash)]
pub enum AdjectiveStressError {
    /// The full form's stress was not compatible.
    Full(AdjectiveFullStressError),
    /// The short form's stress was not compatible.
    Short(AdjectiveShortStressError),
}

/// Error type for conversion to [`VerbStress`].
#[derive(Debug, Clone, Copy, PartialEq, Eq, Structural, Hash)]
pub enum VerbStressError {
    /// The present tense form's stress was not compatible.
    Present(VerbPresentStressError),
    /// The past tense form's stress was not compatible.
    Past(VerbPastStressError),
}

/// Any word's dual stress schema. Can be converted to and from any other stress type.
#[derive(Debug, Clone, Copy, PartialEq, Eq, Structural, Hash)]
pub struct AnyDualStress {
    /// The main form's stress schema.
    pub main: AnyStress,
    /// The optional alternative form's stress schema.
    pub alt: Option<AnyStress>,
}

/// A complete adjective stress schema: the full form's and the short form's stress schemas.
#[derive(Debug, Clone, Copy, PartialEq, Eq, Structural, Hash)]
pub struct AdjectiveStress {
    /// The full form's stress schema.
    pub full: AdjectiveFullStress,
    /// The short form's stress schema.
    pub short: AdjectiveShortStress,
}

/// A complete verb stress schema: the present and the past tense forms' stress schemas.
#[derive(Debug, Clone, Copy, PartialEq, Eq, Structural, Hash)]
pub struct VerbStress {
    /// The present tense form's stress schema.
    pub present: VerbPresentStress,
    /// The past tense form's stress schema.
    pub past: VerbPastStress,
}

impl NounStress {
    /// This stress as an [`AnyStress`].
    pub open spec fn spec_any(self) -> AnyStress {
        match self {
            NounStress::A => AnyStress::A,
            NounStress::B => AnyStress::B,
            NounStress::C => AnyStress::C,
            NounStress::D => AnyStress::D,
            NounStress::E => AnyStress::E,
            NounStress::F => AnyStress::F,
            NounStress::Bp => AnyStress::Bp,
            NounStress::Dp => AnyStress::Dp,
            NounStress::Fp => AnyStress::Fp,
            NounStress::Fpp => AnyStress::Fpp,
        }
    }

    /// Converts this stress into an [`AnyStress`].
    pub fn to_any(self) -> (r: AnyStress)
        ensures
            r == self.spec_any(),
    {
        match self {
            NounStress::A => AnyStress::A,
            NounStress::B => AnyStress::B,
            NounStress::C => AnyStress::C,
            NounStress::D => AnyStress::D,
            NounStress::E => AnyStress::E,
            NounStress::F => AnyStress::F,
            NounStress::Bp => AnyStress::Bp,
            NounStress::Dp => AnyStress::Dp,
            NounStress::Fp => AnyStress::Fp,
            NounStress::Fpp => AnyStress::Fpp,
        }
    }
}

impl PronounStress {
    /// This stress as an [`AnyStress`].
    pub open spec fn spec_any(self) -> AnyStress {
        match self {
            PronounStress::A => AnyStress::A,
            PronounStress::B => AnyStress::B,
            PronounStress::F => AnyStress::F,
        }
    }

    /// Converts this stress into an [`AnyStress`].
    pub fn to_any(self) -> (r: AnyStress)
        ensures
            r == self.spec_any(),
    {
        match self {
            PronounStress::A => AnyStress::A,
            PronounStress::B => AnyStress::B,
            PronounStress::F => AnyStress::F,
        }
    }
}

impl AdjectiveFullStress {
    /// This stress as an [`AnyStress`].
    pub open spec fn spec_any(self) -> AnyStress {
        match self {
            AdjectiveFullStress::A => AnyStress::A,
            AdjectiveFullStress::B => AnyStress::B,
        }
    }

    /// Converts this stress into an [`AnyStress`].
    pub fn to_any(self) -> (r: AnyStress)
        ensures
            r == self.spec_any(),
    {
        match self {
            AdjectiveFullStress::A => AnyStress::A,
            AdjectiveFullStress::B => AnyStress::B,
        }
    }
}

impl AdjectiveShortStress {
    /// This stress as an [`AnyStress`].
    pub open spec fn spec_any(self) -> AnyStress {
        match self {
            AdjectiveShortStress::A => AnyStress::A,
            AdjectiveShortStress::B => AnyStress::B,
            AdjectiveShortStress::C => AnyStress::C,
            AdjectiveShortStress::Ap => AnyStress::Ap,
            AdjectiveShortStress::Bp => AnyStress::Bp,
            AdjectiveShortStress::Cp => AnyStress::Cp,
            AdjectiveShortStress::Cpp => AnyStress::Cpp,
        }
    }

    /// Converts this stress into an [`AnyStress`].
    pub fn to_any(self) -> (r: AnyStress)
        ensures
            r == self.spec_any(),
    {
        match self {
            AdjectiveShortStress::A => AnyStress::A,
            AdjectiveShortStress::B => AnyStress::B,
            AdjectiveShortStress::C => AnyStress::C,
            AdjectiveShortStress::Ap => AnyStress::Ap,
            AdjectiveShortStress::Bp => AnyStress::Bp,
            AdjectiveShortStress::Cp => AnyStress::Cp,
            AdjectiveShortStress::Cpp => AnyStress::Cpp,
        }
    }
}

impl VerbPresentStress {
    /// This stress as an [`AnyStress`].
    pub open spec fn spec_any(self) -> AnyStress {
        match self {
            VerbPresentStress::A => AnyStress::A,
            VerbPresentStress::B => AnyStress::B,
            VerbPresentStress::C => AnyStress::C,
            VerbPresentStress::Cp => AnyStress::Cp,
        }
    }

    /// Converts this stress into an [`AnyStress`].
    pub fn to_any(self) -> (r: AnyStress)
        ensures
            r == self.spec_any(),
    {
        match self {
            VerbPresentStress::A => AnyStress::A,
            VerbPresentStress::B => AnyStress::B,
            VerbPresentStress::C => AnyStress::C,
            VerbPresentStress::Cp => AnyStress::Cp,
        }
    }
}

impl VerbPastStress {
    /// This stress as an [`AnyStress`].
    pub open spec fn spec_any(self) -> AnyStress {
        match self {
            VerbPastStress::A => AnyStress::A,
            VerbPastStress::B => AnyStress::B,
            VerbPastStress::C => AnyStress::C,
            VerbPastStress::Cp => AnyStress::Cp,
            VerbPastStress::Cpp => AnyStress::Cpp,
        }
    }

    /// Converts this stress into an [`AnyStress`].
    pub fn to_any(self) -> (r: AnyStress)
        ensures
            r == self.spec_any(),
    {
        match self {
            VerbPastStress::A => AnyStress::A,
            VerbPastStress::B => AnyStress::B,
            VerbPastStress::C => AnyStress::C,
            VerbPastStress::Cp => AnyStress::Cp,
            VerbPastStress::Cpp => AnyStress::Cpp,
        }
    }
}

impl AnyStress {
    /// This stress as a [`NounStress`], if it is one.
    pub open spec fn spec_noun(self) -> Option<NounStress> {
        match self {
            AnyStress::A => Some(NounStress::A),
            AnyStress::B => Some(NounStress::B),
            AnyStress::C => Some(NounStress::C),
            AnyStress::D => Some(NounStress::D),
            AnyStress::E => Some(NounStress::E),
            AnyStress::F => Some(NounStress::F),
            AnyStress::Bp => Some(NounStress::Bp),
            AnyStress::Dp => Some(NounStress::Dp),
            AnyStress::Fp => Some(NounStress::Fp),
            AnyStress::Fpp => Some(NounStress::Fpp),
            _ => None,
        }
    }

    /// Converts this stress into a [`NounStress`]; fails if nouns can only have stresses a-f, b′, d′, f′ and f″.
    fn to_noun(self) -> (r: Result<NounStress, NounStressError>)
        ensures
            r == match self.spec_noun() {
                Some(x) => Ok(x),
                None => Err(NounStressError),
            },
    {
        match self {
            AnyStress::A => Ok(NounStress::A),
            AnyStress::B => Ok(NounStress::B),
            AnyStress::C => Ok(NounStress::C),
            AnyStress::D => Ok(NounStress::D),
            AnyStress::E => Ok(NounStress::E),
            AnyStress::F => Ok(NounStress::F),
            AnyStress::Bp => Ok(NounStress::Bp),
            AnyStress::Dp => Ok(NounStress::Dp),
            AnyStress::Fp => Ok(NounStress::Fp),
            AnyStress::Fpp => Ok(NounStress::Fpp),
            _ => Err(NounStressError),
        }
    }

    /// This stress as a [`PronounStress`], if it is one.
    pub open spec fn spec_pronoun(self) -> Option<PronounStress> {
        match self {
            AnyStress::A => Some(PronounStress::A),
            AnyStress::B => Some(PronounStress::B),
            AnyStress::F => Some(PronounStress::F),
            _ => None,
        }
    }

    /// Converts this stress into a [`PronounStress`]; fails if pronouns can only have stresses a, b and f.
    fn to_pronoun(self) -> (r: Result<PronounStress, PronounStressError>)
        ensures
            r == match self.spec_pronoun() {
                Some(x) => Ok(x),
                None => Err(PronounStressError),
            },
    {
        match self {
            AnyStress::A => Ok(PronounStress::A),
            AnyStress::B => Ok(PronounStress::B),
            AnyStress::F => Ok(PronounStress::F),
            _ => Err(PronounStressError),
        }
    }

    /// This stress as a [`AdjectiveFullStress`], if it is one.
    pub open spec fn spec_adjective_full(self) -> Option<AdjectiveFullStress> {
        match self {
            AnyStress::A => Some(AdjectiveFullStress::A),
            AnyStress::B => Some(AdjectiveFullStress::B),
            _ => None,
        }
    }

    /// Converts this stress into a [`AdjectiveFullStress`]; fails if adjectives (full form) can only have stresses a and b.
    fn to_adjective_full(self) -> (r: Result<AdjectiveFullStress, AdjectiveFullStressError>)
        ensures
            r == match self.spec_adjective_full() {
                Some(x) => Ok(x),
                None => Err(AdjectiveFullStressError),
            },
    {
        match self {
            AnyStress::A => Ok(AdjectiveFullStress::A),
            AnyStress::B => Ok(AdjectiveFullStress::B),
            _ => Err(AdjectiveFullStressError),
        }
    }

    /// This stress as a [`AdjectiveShortStress`], if it is one.
    pub open spec fn spec_adjective_short(self) -> Option<AdjectiveShortStress> {
        match self {
            AnyStress::A => Some(AdjectiveShortStress::A),
            AnyStress::B => Some(AdjectiveShortStress::B),
            AnyStress::C => Some(AdjectiveShortStress::C),
            AnyStress::Ap => Some(AdjectiveShortStress::Ap),
            AnyStress::Bp => Some(AdjectiveShortStress::Bp),
            AnyStress::Cp => Some(AdjectiveShortStress::Cp),
            AnyStress::Cpp => Some(AdjectiveShortStress::Cpp),
            _ => None,
        }
    }

    /// Converts this stress into a [`AdjectiveShortStress`]; fails if adjectives (short form) can only have stresses a-c, a′-c′ and c″.
    fn to_adjective_short(self) -> (r: Result<AdjectiveShortStress, AdjectiveShortStressError>)
        ensures
            r == match self.spec_adjective_short() {
                Some(x) => Ok(x),
                None => Err(AdjectiveShortStressError),
            },
    {
        match self {
            AnyStress::A => Ok(AdjectiveShortStress::A),
            AnyStress::B => Ok(AdjectiveShortStress::B),
            AnyStress::C => Ok(AdjectiveShortStress::C),
            AnyStress::Ap => Ok(AdjectiveShortStress::Ap),
            AnyStress::Bp => Ok(AdjectiveShortStress::Bp),
            AnyStress::Cp => Ok(AdjectiveShortStress::Cp),
            AnyStress::Cpp => Ok(AdjectiveShortStress::Cpp),
            _ => Err(AdjectiveShortStressError),
        }
    }

    /// This stress as a [`VerbPresentStress`], if it is one.
    pub open spec fn spec_verb_present(self) -> Option<VerbPresentStress> {
        match self {
            AnyStress::A => Some(VerbPresentStress::A),
            AnyStress::B => Some(VerbPresentStress::B),
            AnyStress::C => Some(VerbPresentStress::C),
            AnyStress::Cp => Some(VerbPresentStress::Cp),
            _ => None,
        }
    }

    /// Converts this stress into a [`VerbPresentStress`]; fails if verbs (present tense) can only have stresses a, b, c and c′.
    fn to_verb_present(self) -> (r: Result<VerbPresentStress, VerbPresentStressError>)
        ensures
            r == match self.spec_verb_present() {
                Some(x) => Ok(x),
                None => Err(VerbPresentStressError),
            },
    {
        match self {
            AnyStress::A => Ok(VerbPresentStress::A),
            AnyStress::B => Ok(VerbPresentStress::B),
            AnyStress::C => Ok(VerbPresentStress::C),
            AnyStress::Cp => Ok(VerbPresentStress::Cp),
            _ => Err(VerbPresentStressError),
        }
    }

    /// This stress as a [`VerbPastStress`], if it is one.
    pub open spec fn spec_verb_past(self) -> Option<VerbPastStress> {
        match self {
            AnyStress::A => Some(VerbPastStress::A),
            AnyStress::B => Some(VerbPastStress::B),
            AnyStress::C => Some(VerbPastStress::C),
            AnyStress::Cp => Some(VerbPastStress::Cp),
            AnyStress::Cpp => Some(VerbPastStress::Cpp),
            _ => None,
        }
    }

    /// Converts this stress into a [`VerbPastStress`]; fails if verbs (past tense) can only have stresses a, b, c, c′ and c″.
    fn to_verb_past(self) -> (r: Result<VerbPastStress, VerbPastStressError>)
        ensures
            r == match self.spec_verb_past() {
                Some(x) => Ok(x),
                None => Err(VerbPastStressError),
            },
    {
        match self {
            AnyStress::A => Ok(VerbPastStress::A),
            AnyStress::B => Ok(VerbPastStress::B),
            AnyStress::C => Ok(VerbPastStress::C),
            AnyStress::Cp => Ok(VerbPastStress::Cp),
            AnyStress::Cpp => Ok(VerbPastStress::Cpp),
            _ => Err(VerbPastStressError),
        }
    }

}

impl From<NounStress> for AnyStress {
    fn from(value: NounStress) -> (r: AnyStress) {
        value.to_any()
    }
}

impl vstd::std_specs::convert::FromSpecImpl<NounStress> for AnyStress {
    open spec fn obeys_from_spec() -> bool {
        true
    }

    open spec fn from_spec(v: NounStress) -> AnyStress {
        v.spec_any()
    }
}

impl TryFrom<AnyStress> for NounStress {
    type Error = NounStressError;

    fn try_from(value: AnyStress) -> (r: Result<NounStress, NounStressError>) {
        value.to_noun()
    }
}

impl vstd::std_specs::convert::TryFromSpecImpl<AnyStress> for NounStress {
    open spec fn obeys_try_from_spec() -> bool {
        true
    }

    open spec fn try_from_spec(v: AnyStress) -> Result<NounStress, NounStressError> {
        match v.spec_noun() {
            Some(x) => Ok(x),
            None => Err(NounStressError),
        }
    }
}

impl From<NounStress> for AnyDualStress {
    fn from(value: NounStress) -> (r: AnyDualStress) {
        AnyDualStress { main: value.to_any(), alt: None }
    }
}

impl vstd::std_specs::convert::FromSpecImpl<NounStress> for AnyDualStress {
    open spec fn obeys_from_spec() -> bool {
        true
    }

    open spec fn from_spec(v: NounStress) -> AnyDualStress {
        AnyDualStress { main: v.spec_any(), alt: None }
    }
}

impl TryFrom<AnyDualStress> for NounStress {
    type Error = NounStressError;

    fn try_from(value: AnyDualStress) -> (r: Result<NounStress, NounStressError>) {
        if value.alt.is_none() {
            value.main.to_noun()
        } else {
            Err(NounStressError)
        }
    }
}

impl vstd::std_specs::convert::TryFromSpecImpl<AnyDualStress> for NounStress {
    open spec fn obeys_try_from_spec() -> bool {
        true
    }

    open spec fn try_from_spec(v: AnyDualStress) -> Result<NounStress, NounStressError> {
        match v.alt {
            None => match v.main.spec_noun() {
                Some(x) => Ok(x),
                None => Err(NounStressError),
            },
            Some(_) => Err(NounStressError),
        }
    }
}

impl From<PronounStress> for AnyStress {
    fn from(value: PronounStress) -> (r: AnyStress) {
        value.to_any()
    }
}

impl vstd::std_specs::convert::FromSpecImpl<PronounStress> for AnyStress {
    open spec fn obeys_from_spec() -> bool {
        true
    }

    open spec fn from_spec(v: PronounStress) -> AnyStress {
        v.spec_any()
    }
}

impl TryFrom<AnyStress> for PronounStress {
    type Error = PronounStressError;

    fn try_from(value: AnyStress) -> (r: Result<PronounStress, PronounStressError>) {
        value.to_pronoun()
    }
}

impl vstd::std_specs::convert::TryFromSpecImpl<AnyStress> for PronounStress {
    open spec fn obeys_try_from_spec() -> bool {
        true
    }

    open spec fn try_from_spec(v: AnyStress) -> Result<PronounStress, PronounStressError> {
        match v.spec_pronoun() {
            Some(x) => Ok(x),
            None => Err(PronounStressError),
        }
    }
}

impl From<PronounStress> for AnyDualStress {
    fn from(value: PronounStress) -> (r: AnyDualStress) {
        AnyDualStress { main: value.to_any(), alt: None }
    }
}

impl vstd::std_specs::convert::FromSpecImpl<PronounStress> for AnyDualStress {
    open spec fn obeys_from_spec() -> bool {
        true
    }

    open spec fn from_spec(v: PronounStress) -> AnyDualStress {
        AnyDualStress { main: v.spec_any(), alt: None }
    }
}

impl TryFrom<AnyDualStress> for PronounStress {
    type Error = PronounStressError;

    fn try_from(value: AnyDualStress) -> (r: Result<PronounStress, PronounStressError>) {
        if value.alt.is_none() {
            value.main.to_pronoun()
        } else {
            Err(PronounStressError)
        }
    }
}

impl vstd::std_specs::convert::TryFromSpecImpl<AnyDualStress> for PronounStress {
    open spec fn obeys_try_from_spec() -> bool {
        true
    }

    open spec fn try_from_spec(v: AnyDualStress) -> Result<PronounStress, PronounStressError> {
        match v.alt {
            None => match v.main.spec_pronoun() {
                Some(x) => Ok(x),
                None => Err(PronounStressError),
            },
            Some(_) => Err(PronounStressError),
        }
    }
}

impl From<AdjectiveFullStress> for AnyStress {
    fn from(value: AdjectiveFullStress) -> (r: AnyStress) {
        value.to_any()
    }
}

impl vstd::std_specs::convert::FromSpecImpl<AdjectiveFullStress> for AnyStress {
    open spec fn obeys_from_spec() -> bool {
        true
    }

    open spec fn from_spec(v: AdjectiveFullStress) -> AnyStress {
        v.spec_any()
    }
}

impl TryFrom<AnyStress> for AdjectiveFullStress {
    type Error = AdjectiveFullStressError;

    fn try_from(value: AnyStress) -> (r: Result<AdjectiveFullStress, AdjectiveFullStressError>) {
        value.to_adjective_full()
    }
}

impl vstd::std_specs::convert::TryFromSpecImpl<AnyStress> for AdjectiveFullStress {
    open spec fn obeys_try_from_spec() -> bool {
        true
    }

    open spec fn try_from_spec(v: AnyStress) -> Result<AdjectiveFullStress, AdjectiveFullStressError> {
        match v.spec_adjective_full() {
            Some(x) => Ok(x),
            None => Err(AdjectiveFullStressError),
        }
    }
}

impl From<AdjectiveFullStress> for AnyDualStress {
    fn from(value: AdjectiveFullStress) -> (r: AnyDualStress) {
        AnyDualStress { main: value.to_any(), alt: None }
    }
}

impl vstd::std_specs::convert::FromSpecImpl<AdjectiveFullStress> for AnyDualStress {
    open spec fn obeys_from_spec() -> bool {
        true
    }

    open spec fn from_spec(v: AdjectiveFullStress) -> AnyDualStress {
        AnyDualStress { main: v.spec_any(), alt: None }
    }
}

impl TryFrom<AnyDualStress> for AdjectiveFullStress {
    type Error = AdjectiveFullStressError;

    fn try_from(value: AnyDualStress) -> (r: Result<AdjectiveFullStress, AdjectiveFullStressError>) {
        if value.alt.is_none() {
            value.main.to_adjective_full()
        } else {
            Err(AdjectiveFullStressError)
        }
    }
}

impl vstd::std_specs::convert::TryFromSpecImpl<AnyDualStress> for AdjectiveFullStress {
    open spec fn obeys_try_from_spec() -> bool {
        true
    }

    open spec fn try_from_spec(v: AnyDualStress) -> Result<AdjectiveFullStress, AdjectiveFullStressError> {
        match v.alt {
            None => match v.main.spec_adjective_full() {
                Some(x) => Ok(x),
                None => Err(AdjectiveFullStressError),
            },
            Some(_) => Err(AdjectiveFullStressError),
        }
    }
}

impl From<AdjectiveShortStress> for AnyStress {
    fn from(value: AdjectiveShortStress) -> (r: AnyStress) {
        value.to_any()
    }
}

impl vstd::std_specs::convert::FromSpecImpl<AdjectiveShortStress> for AnyStress {
    open spec fn obeys_from_spec() -> bool {
        true
    }

    open spec fn from_spec(v: AdjectiveShortStress) -> AnyStress {
        v.spec_any()
    }
}

impl TryFrom<AnyStress> for AdjectiveShortStress {
    type Error = AdjectiveShortStressError;

    fn try_from(value: AnyStress) -> (r: Result<AdjectiveShortStress, AdjectiveShortStressError>) {
        value.to_adjective_short()
    }
}

impl vstd::std_specs::convert::TryFromSpecImpl<AnyStress> for AdjectiveShortStress {
    open spec fn obeys_try_from_spec() -> bool {
        true
    }

    open spec fn try_from_spec(v: AnyStress) -> Result<AdjectiveShortStress, AdjectiveShortStressError> {
        match v.spec_adjective_short() {
            Some(x) => Ok(x),
            None => Err(AdjectiveShortStressError),
        }
    }
}

impl From<AdjectiveShortStress> for AnyDualStress {
    fn from(value: AdjectiveShortStress) -> (r: AnyDualStress) {
        AnyDualStress { main: value.to_any(), alt: None }
    }
}

impl vstd::std_specs::convert::FromSpecImpl<AdjectiveShortStress> for AnyDualStress {
    open spec fn obeys_from_spec() -> bool {
        true
    }

    open spec fn from_spec(v: AdjectiveShortStress) -> AnyDualStress {
        AnyDualStress { main: v.spec_any(), alt: None }
    }
}

impl TryFrom<AnyDualStress> for AdjectiveShortStress {
    type Error = AdjectiveShortStressError;

    fn try_from(value: AnyDualStress) -> (r: Result<AdjectiveShortStress, AdjectiveShortStressError>) {
        if value.alt.is_none() {
            value.main.to_adjective_short()
        } else {
            Err(AdjectiveShortStressError)
        }
    }
}

impl vstd::std_specs::convert::TryFromSpecImpl<AnyDualStress> for AdjectiveShortStress {
    open spec fn obeys_try_from_spec() -> bool {
        true
    }

    open spec fn try_from_spec(v: AnyDualStress) -> Result<AdjectiveShortStress, AdjectiveShortStressError> {
        match v.alt {
            None => match v.main.spec_adjective_short() {
                Some(x) => Ok(x),
                None => Err(AdjectiveShortStressError),
            },
            Some(_) => Err(AdjectiveShortStressError),
        }
    }
}

impl From<VerbPresentStress> for AnyStress {
    fn from(value: VerbPresentStress) -> (r: AnyStress) {
        value.to_any()
    }
}

impl vstd::std_specs::convert::FromSpecImpl<VerbPresentStress> for AnyStress {
    open spec fn obeys_from_spec() -> bool {
        true
    }

    open spec fn from_spec(v: VerbPresentStress) -> AnyStress {
        v.spec_any()
    }
}

impl TryFrom<AnyStress> for VerbPresentStress {
    type Error = VerbPresentStressError;

    fn try_from(value: AnyStress) -> (r: Result<VerbPresentStress, VerbPresentStressError>) {
        value.to_verb_present()
    }
}

impl vstd::std_specs::convert::TryFromSpecImpl<AnyStress> for VerbPresentStress {
    open spec fn obeys_try_from_spec() -> bool {
        true
    }

    open spec fn try_from_spec(v: AnyStress) -> Result<VerbPresentStress, VerbPresentStressError> {
        match v.spec_verb_present() {
            Some(x) => Ok(x),
            None => Err(VerbPresentStressError),
        }
    }
}

impl From<VerbPresentStress> for AnyDualStress {
    fn from(value: VerbPresentStress) -> (r: AnyDualStress) {
        AnyDualStress { main: value.to_any(), alt: None }
    }
}

impl vstd::std_specs::convert::FromSpecImpl<VerbPresentStress> for AnyDualStress {
    open spec fn obeys_from_spec() -> bool {
        true
    }

    open spec fn from_spec(v: VerbPresentStress) -> AnyDualStress {
        AnyDualStress { main: v.spec_any(), alt: None }
    }
}

impl TryFrom<AnyDualStress> for VerbPresentStress {
    type Error = VerbPresentStressError;

    fn try_from(value: AnyDualStress) -> (r: Result<VerbPresentStress, VerbPresentStressError>) {
        if value.alt.is_none() {
            value.main.to_verb_present()
        } else {
            Err(VerbPresentStressError)
        }
    }
}

impl vstd::std_specs::convert::TryFromSpecImpl<AnyDualStress> for VerbPresentStress {
    open spec fn obeys_try_from_spec() -> bool {
        true
    }

    open spec fn try_from_spec(v: AnyDualStress) -> Result<VerbPresentStress, VerbPresentStressError> {
        match v.alt {
            None => match v.main.spec_verb_present() {
                Some(x) => Ok(x),
                None => Err(VerbPresentStressError),
            },
            Some(_) => Err(VerbPresentStressError),
        }
    }
}

impl From<VerbPastStress> for AnyStress {
    fn from(value: VerbPastStress) -> (r: AnyStress) {
        value.to_any()
    }
}

impl vstd::std_specs::convert::FromSpecImpl<VerbPastStress> for AnyStress {
    open spec fn obeys_from_spec() -> bool {
        true
    }

    open spec fn from_spec(v: VerbPastStress) -> AnyStress {
        v.spec_any()
    }
}

impl TryFrom<AnyStress> for VerbPastStress {
    type Error = VerbPastStressError;

    fn try_from(value: AnyStress) -> (r: Result<VerbPastStress, VerbPastStressError>) {
        value.to_verb_past()
    }
}

impl vstd::std_specs::convert::TryFromSpecImpl<AnyStress> for VerbPastStress {
    open spec fn obeys_try_from_spec() -> bool {
        true
    }

    open spec fn try_from_spec(v: AnyStress) -> Result<VerbPastStress, VerbPastStressError> {
        match v.spec_verb_past() {
            Some(x) => Ok(x),
            None => Err(VerbPastStressError),
        }
    }
}

impl From<VerbPastStress> for AnyDualStress {
    fn from(value: VerbPastStress) -> (r: AnyDualStress) {
        AnyDualStress { main: value.to_any(), alt: None }
    }
}

impl vstd::std_specs::convert::FromSpecImpl<VerbPastStress> for AnyDualStress {
    open spec fn obeys_from_spec() -> bool {
        true
    }

    open spec fn from_spec(v: VerbPastStress) -> AnyDualStress {
        AnyDualStress { main: v.spec_any(), alt: None }
    }
}

impl TryFrom<AnyDualStress> for VerbPastStress {
    type Error = VerbPastStressError;

    fn try_from(value: AnyDualStress) -> (r: Result<VerbPastStress, VerbPastStressError>) {
        if value.alt.is_none() {
            value.main.to_verb_past()
        } else {
            Err(VerbPastStressError)
        }
    }
}

impl vstd::std_specs::convert::TryFromSpecImpl<AnyDualStress> for VerbPastStress {
    open spec fn obeys_try_from_spec() -> bool {
        true
    }

    open spec fn try_from_spec(v: AnyDualStress) -> Result<VerbPastStress, VerbPastStressError> {
        match v.alt {
            None => match v.main.spec_verb_past() {
                Some(x) => Ok(x),
                None => Err(VerbPastStressError),
            },
            Some(_) => Err(VerbPastStressError),
        }
    }
}

impl AnyDualStress {
    /// Constructs a new `AnyDualStress` from provided stress schemas.
    pub fn new(main: AnyStress, alt: Option<AnyStress>) -> (r: AnyDualStress)
        ensures
            r == (AnyDualStress { main, alt }),
    {
        AnyDualStress { main, alt }
    }
}

impl AdjectiveStress {
    /// Constructs a new `AdjectiveStress` from provided stress schemas.
    pub fn new(full: AdjectiveFullStress, short: AdjectiveShortStress) -> (r: AdjectiveStress)
        ensures
            r == (AdjectiveStress { full, short }),
    {
        AdjectiveStress { full, short }
    }
}

impl VerbStress {
    /// Constructs a new `VerbStress` from provided stress schemas.
    pub fn new(present: VerbPresentStress, past: VerbPastStress) -> (r: VerbStress)
        ensures
            r == (VerbStress { present, past }),
    {
        VerbStress { present, past }
    }
}

/// Named adjective stress schemas. A name of one schema stands for its abbreviated form
/// (`A` for a/a, `Ap` for a/a′, `Bp` for b/b′).
#[allow(non_snake_case)]
impl AdjectiveStress {
    /// The adjective stress schema a/a.
    pub fn A() -> (r: AdjectiveStress)
        ensures
            r == (AdjectiveStress { full: AdjectiveFullStress::A, short: AdjectiveShortStress::A }),
    {
        AdjectiveStress::new(AdjectiveFullStress::A, AdjectiveShortStress::A)
    }

    /// The adjective stress schema a/a.
    pub fn A_A() -> (r: AdjectiveStress)
        ensures
            r == (AdjectiveStress { full: AdjectiveFullStress::A, short: AdjectiveShortStress::A }),
    {
        AdjectiveStress::new(AdjectiveFullStress::A, AdjectiveShortStress::A)
    }

    /// The adjective stress schema a/b.
    pub fn A_B() -> (r: AdjectiveStress)
        ensures
            r == (AdjectiveStress { full: AdjectiveFullStress::A, short: AdjectiveShortStress::B }),
    {
        AdjectiveStress::new(AdjectiveFullStress::A, AdjectiveShortStress::B)
    }

    /// The adjective stress schema a/c.
    pub fn A_C() -> (r: AdjectiveStress)
        ensures
            r == (AdjectiveStress { full: AdjectiveFullStress::A, short: AdjectiveShortStress::C }),
    {
        AdjectiveStress::new(AdjectiveFullStress::A, AdjectiveShortStress::C)
    }

    /// The adjective stress schema a/a′.
    pub fn A_Ap() -> (r: AdjectiveStress)
        ensures
            r == (AdjectiveStress { full: AdjectiveFullStress::A, short: AdjectiveShortStress::Ap }),
    {
        AdjectiveStress::new(AdjectiveFullStress::A, AdjectiveShortStress::Ap)
    }

    /// The adjective stress schema a/b′.
    pub fn A_Bp() -> (r: AdjectiveStress)
        ensures
            r == (AdjectiveStress { full: AdjectiveFullStress::A, short: AdjectiveShortStress::Bp }),
    {
        AdjectiveStress::new(AdjectiveFullStress::A, AdjectiveShortStress::Bp)
    }

    /// The adjective stress schema a/c′.
    pub fn A_Cp() -> (r: AdjectiveStress)
        ensures
            r == (AdjectiveStress { full: AdjectiveFullStress::A, short: AdjectiveShortStress::Cp }),
    {
        AdjectiveStress::new(AdjectiveFullStress::A, AdjectiveShortStress::Cp)
    }

    /// The adjective stress schema a/c″.
    pub fn A_Cpp() -> (r: AdjectiveStress)
        ensures
            r == (AdjectiveStress { full: AdjectiveFullStress::A, short: AdjectiveShortStress::Cpp }),
    {
        AdjectiveStress::new(AdjectiveFullStress::A, AdjectiveShortStress::Cpp)
    }

    /// The adjective stress schema b/b.
    pub fn B() -> (r: AdjectiveStress)
        ensures
            r == (AdjectiveStress { full: AdjectiveFullStress::B, short: AdjectiveShortStress::B }),
    {
        AdjectiveStress::new(AdjectiveFullStress::B, AdjectiveShortStress::B)
    }

    /// The adjective stress schema b/a.
    pub fn B_A() -> (r: AdjectiveStress)
        ensures
            r == (AdjectiveStress { full: AdjectiveFullStress::B, short: AdjectiveShortStress::A }),
    {
        AdjectiveStress::new(AdjectiveFullStress::B, AdjectiveShortStress::A)
    }

    /// The adjective stress schema b/b.
    pub fn B_B() -> (r: AdjectiveStress)
        ensures
            r == (AdjectiveStress { full: AdjectiveFullStress::B, short: AdjectiveShortStress::B }),
    {
        AdjectiveStress::new(AdjectiveFullStress::B, AdjectiveShortStress::B)
    }

    /// The adjective stress schema b/c.
    pub fn B_C() -> (r: AdjectiveStress)
        ensures
            r == (AdjectiveStress { full: AdjectiveFullStress::B, short: AdjectiveShortStress::C }),
    {
        AdjectiveStress::new(AdjectiveFullStress::B, AdjectiveShortStress::C)
    }

    /// The adjective stress schema b/a′.
    pub fn B_Ap() -> (r: AdjectiveStress)
        ensures
            r == (AdjectiveStress { full: AdjectiveFullStress::B, short: AdjectiveShortStress::Ap }),
    {
        AdjectiveStress::new(AdjectiveFullStress::B, AdjectiveShortStress::Ap)
    }

    /// The adjective stress schema b/b′.
    pub fn B_Bp() -> (r: AdjectiveStress)
        ensures
            r == (AdjectiveStress { full: AdjectiveFullStress::B, short: AdjectiveShortStress::Bp }),
    {
        AdjectiveStress::new(AdjectiveFullStress::B, AdjectiveShortStress::Bp)
    }

    /// The adjective stress schema b/c′.
    pub fn B_Cp() -> (r: AdjectiveStress)
        ensures
            r == (AdjectiveStress { full: AdjectiveFullStress::B, short: AdjectiveShortStress::Cp }),
    {
        AdjectiveStress::new(AdjectiveFullStress::B, AdjectiveShortStress::Cp)
    }

    /// The adjective stress schema b/c″.
    pub fn B_Cpp() -> (r: AdjectiveStress)
        ensures
            r == (AdjectiveStress { full: AdjectiveFullStress::B, short: AdjectiveShortStress::Cpp }),
    {
        AdjectiveStress::new(AdjectiveFullStress::B, AdjectiveShortStress::Cpp)
    }

    /// The adjective stress schema a/a′.
    pub fn Ap() -> (r: AdjectiveStress)
        ensures
            r == (AdjectiveStress { full: AdjectiveFullStress::A, short: AdjectiveShortStress::Ap }),
    {
        AdjectiveStress::new(AdjectiveFullStress::A, AdjectiveShortStress::Ap)
    }

    /// The adjective stress schema b/b′.
    pub fn Bp() -> (r: AdjectiveStress)
        ensures
            r == (AdjectiveStress { full: AdjectiveFullStress::B, short: AdjectiveShortStress::Bp }),
    {
        AdjectiveStress::new(AdjectiveFullStress::B, AdjectiveShortStress::Bp)
    }
}

/// Named verb stress schemas. A name of one schema stands for that present tense schema with
/// past tense schema a.
#[allow(non_snake_case)]
impl VerbStress {
    /// The verb stress schema a/a.
    pub fn A() -> (r: VerbStress)
        ensures
            r == (VerbStress { present: VerbPresentStress::A, past: VerbPastStress::A }),
    {
        VerbStress::new(VerbPresentStress::A, VerbPastStress::A)
    }

    /// The verb stress schema a/a.
    pub fn A_A() -> (r: VerbStress)
        ensures
            r == (VerbStress { present: VerbPresentStress::A, past: VerbPastStress::A }),
    {
        VerbStress::new(VerbPresentStress::A, VerbPastStress::A)
    }

    /// The verb stress schema a/b.
    pub fn A_B() -> (r: VerbStress)
        ensures
            r == (VerbStress { present: VerbPresentStress::A, past: VerbPastStress::B }),
    {
        VerbStress::new(VerbPresentStress::A, VerbPastStress::B)
    }

    /// The verb stress schema a/c.
    pub fn A_C() -> (r: VerbStress)
        ensures
            r == (VerbStress { present: VerbPresentStress::A, past: VerbPastStress::C }),
    {
        VerbStress::new(VerbPresentStress::A, VerbPastStress::C)
    }

    /// The verb stress schema a/c′.
    pub fn A_Cp() -> (r: VerbStress)
        ensures
            r == (VerbStress { present: VerbPresentStress::A, past: VerbPastStress::Cp }),
    {
        VerbStress::new(VerbPresentStress::A, VerbPastStress::Cp)
    }

    /// The verb stress schema a/c″.
    pub fn A_Cpp() -> (r: VerbStress)
        ensures
            r == (VerbStress { present: VerbPresentStress::A, past: VerbPastStress::Cpp }),
    {
        VerbStress::new(VerbPresentStress::A, VerbPastStress::Cpp)
    }

    /// The verb stress schema b/a.
    pub fn B() -> (r: VerbStress)
        ensures
            r == (VerbStress { present: VerbPresentStress::B, past: VerbPastStress::A }),
    {
        VerbStress::new(VerbPresentStress::B, VerbPastStress::A)
    }

    /// The verb stress schema b/a.
    pub fn B_A() -> (r: VerbStress)
        ensures
            r == (VerbStress { present: VerbPresentStress::B, past: VerbPastStress::A }),
    {
        VerbStress::new(VerbPresentStress::B, VerbPastStress::A)
    }

    /// The verb stress schema b/b.
    pub fn B_B() -> (r: VerbStress)
        ensures
            r == (VerbStress { present: VerbPresentStress::B, past: VerbPastStress::B }),
    {
        VerbStress::new(VerbPresentStress::B, VerbPastStress::B)
    }

    /// The verb stress schema b/c.
    pub fn B_C() -> (r: VerbStress)
        ensures
            r == (VerbStress { present: VerbPresentStress::B, past: VerbPastStress::C }),
    {
        VerbStress::new(VerbPresentStress::B, VerbPastStress::C)
    }

    /// The verb stress schema b/c′.
    pub fn B_Cp() -> (r: VerbStress)
        ensures
            r == (VerbStress { present: VerbPresentStress::B, past: VerbPastStress::Cp }),
    {
        VerbStress::new(VerbPresentStress::B, VerbPastStress::Cp)
    }

    /// The verb stress schema b/c″.
    pub fn B_Cpp() -> (r: VerbStress)
        ensures
            r == (VerbStress { present: VerbPresentStress::B, past: VerbPastStress::Cpp }),
    {
        VerbStress::new(VerbPresentStress::B, VerbPastStress::Cpp)
    }

    /// The verb stress schema c/a.
    pub fn C() -> (r: VerbStress)
        ensures
            r == (VerbStress { present: VerbPresentStress::C, past: VerbPastStress::A }),
    {
        VerbStress::new(VerbPresentStress::C, VerbPastStress::A)
    }

    /// The verb stress schema c/a.
    pub fn C_A() -> (r: VerbStress)
        ensures
            r == (VerbStress { present: VerbPresentStress::C, past: VerbPastStress::A }),
    {
        VerbStress::new(VerbPresentStress::C, VerbPastStress::A)
    }

    /// The verb stress schema c/b.
    pub fn C_B() -> (r: VerbStress)
        ensures
            r == (VerbStress { present: VerbPresentStress::C, past: VerbPastStress::B }),
    {
        VerbStress::new(VerbPresentStress::C, VerbPastStress::B)
    }

    /// The verb stress schema c/c.
    pub fn C_C() -> (r: VerbStress)
        ensures
            r == (VerbStress { present: VerbPresentStress::C, past: VerbPastStress::C }),
    {
        VerbStress::new(VerbPresentStress::C, VerbPastStress::C)
    }

    /// The verb stress schema c/c′.
    pub fn C_Cp() -> (r: VerbStress)
        ensures
            r == (VerbStress { present: VerbPresentStress::C, past: VerbPastStress::Cp }),
    {
        VerbStress::new(VerbPresentStress::C, VerbPastStress::Cp)
    }

    /// The verb stress schema c/c″.
    pub fn C_Cpp() -> (r: VerbStress)
        ensures
            r == (VerbStress { present: VerbPresentStress::C, past: VerbPastStress::Cpp }),
    {
        VerbStress::new(VerbPresentStress::C, VerbPastStress::Cpp)
    }

    /// The verb stress schema c′/a.
    pub fn Cp() -> (r: VerbStress)
        ensures
            r == (VerbStress { present: VerbPresentStress::Cp, past: VerbPastStress::A }),
    {
        VerbStress::new(VerbPresentStress::Cp, VerbPastStress::A)
    }

    /// The verb stress schema c′/a.
    pub fn Cp_A() -> (r: VerbStress)
        ensures
            r == (VerbStress { present: VerbPresentStress::Cp, past: VerbPastStress::A }),
    {
        VerbStress::new(VerbPresentStress::Cp, VerbPastStress::A)
    }

    /// The verb stress schema c′/b.
    pub fn Cp_B() -> (r: VerbStress)
        ensures
            r == (VerbStress { present: VerbPresentStress::Cp, past: VerbPastStress::B }),
    {
        VerbStress::new(VerbPresentStress::Cp, VerbPastStress::B)
    }

    /// The verb stress schema c′/c.
    pub fn Cp_C() -> (r: VerbStress)
        ensures
            r == (VerbStress { present: VerbPresentStress::Cp, past: VerbPastStress::C }),
    {
        VerbStress::new(VerbPresentStress::Cp, VerbPastStress::C)
    }

    /// The verb stress schema c′/c′.
    pub fn Cp_Cp() -> (r: VerbStress)
        ensures
            r == (VerbStress { present: VerbPresentStress::Cp, past: VerbPastStress::Cp }),
    {
        VerbStress::new(VerbPresentStress::Cp, VerbPastStress::Cp)
    }

    /// The verb stress schema c′/c″.
    pub fn Cp_Cpp() -> (r: VerbStress)
        ensures
            r == (VerbStress { present: VerbPresentStress::Cp, past: VerbPastStress::Cpp }),
    {
        VerbStress::new(VerbPresentStress::Cp, VerbPastStress::Cpp)
    }
}

impl From<(AnyStress, Option<AnyStress>)> for AnyDualStress {
    fn from(value: (AnyStress, Option<AnyStress>)) -> (r: AnyDualStress) {
        AnyDualStress { main: value.0, alt: value.1 }
    }
}

impl vstd::std_specs::convert::FromSpecImpl<(AnyStress, Option<AnyStress>)> for AnyDualStress {
    open spec fn obeys_from_spec() -> bool {
        true
    }

    open spec fn from_spec(v: (AnyStress, Option<AnyStress>)) -> AnyDualStress {
        AnyDualStress { main: v.0, alt: v.1 }
    }
}

impl From<(AnyStress, AnyStress)> for AnyDualStress {
    fn from(value: (AnyStress, AnyStress)) -> (r: AnyDualStress) {
        AnyDualStress { main: value.0, alt: Some(value.1) }
    }
}

impl vstd::std_specs::convert::FromSpecImpl<(AnyStress, AnyStress)> for AnyDualStress {
    open spec fn obeys_from_spec() -> bool {
        true
    }

    open spec fn from_spec(v: (AnyStress, AnyStress)) -> AnyDualStress {
        AnyDualStress { main: v.0, alt: Some(v.1) }
    }
}

impl From<AnyStress> for AnyDualStress {
    fn from(value: AnyStress) -> (r: AnyDualStress) {
        AnyDualStress { main: value, alt: None }
    }
}

impl vstd::std_specs::convert::FromSpecImpl<AnyStress> for AnyDualStress {
    open spec fn obeys_from_spec() -> bool {
        true
    }

    open spec fn from_spec(v: AnyStress) -> AnyDualStress {
        AnyDualStress { main: v, alt: None }
    }
}

impl TryFrom<AnyDualStress> for AnyStress {
    type Error = ();

    fn try_from(value: AnyDualStress) -> (r: Result<AnyStress, ()>) {
        match value.alt {
            None => Ok(value.main),
            Some(_) => Err(()),
        }
    }
}

impl vstd::std_specs::convert::TryFromSpecImpl<AnyDualStress> for AnyStress {
    open spec fn obeys_try_from_spec() -> bool {
        true
    }

    open spec fn try_from_spec(v: AnyDualStress) -> Result<AnyStress, ()> {
        match v.alt {
            None => Ok(v.main),
            Some(_) => Err(()),
        }
    }
}

impl AnyStress {
    /// `true` for the primary letter stresses a-f, which have no primes.
    pub open spec fn spec_is_primary(self) -> bool {
        self is A || self is B || self is C || self is D || self is E || self is F
    }

    /// `true` for the stresses with exactly one prime.
    pub open spec fn spec_has_single_prime(self) -> bool {
        self is Ap || self is Bp || self is Cp || self is Dp || self is Ep || self is Fp
    }

    /// `true` for the stresses with exactly two primes.
    pub open spec fn spec_has_double_prime(self) -> bool {
        self is Cpp || self is Fpp
    }

    /// The primary letter stress that this stress is based on.
    pub open spec fn spec_unprime(self) -> AnyStress {
        match self {
            AnyStress::A | AnyStress::Ap => AnyStress::A,
            AnyStress::B | AnyStress::Bp => AnyStress::B,
            AnyStress::C | AnyStress::Cp | AnyStress::Cpp => AnyStress::C,
            AnyStress::D | AnyStress::Dp => AnyStress::D,
            AnyStress::E | AnyStress::Ep => AnyStress::E,
            AnyStress::F | AnyStress::Fp | AnyStress::Fpp => AnyStress::F,
        }
    }

    /// The single prime version of a primary letter stress.
    pub open spec fn spec_add_single_prime(self) -> Option<AnyStress> {
        match self {
            AnyStress::A => Some(AnyStress::Ap),
            AnyStress::B => Some(AnyStress::Bp),
            AnyStress::C => Some(AnyStress::Cp),
            AnyStress::D => Some(AnyStress::Dp),
            AnyStress::E => Some(AnyStress::Ep),
            AnyStress::F => Some(AnyStress::Fp),
            _ => None,
        }
    }

    /// The double prime version of a primary letter stress, where there is one.
    pub open spec fn spec_add_double_prime(self) -> Option<AnyStress> {
        match self {
            AnyStress::C => Some(AnyStress::Cpp),
            AnyStress::F => Some(AnyStress::Fpp),
            _ => None,
        }
    }

    /// Returns `true` if this stress is a primary letter stress, with no primes.
    pub fn is_primary(self) -> (r: bool)
        ensures
            r == self.spec_is_primary(),
    {
        matches!(self, AnyStress::A | AnyStress::B | AnyStress::C | AnyStress::D | AnyStress::E | AnyStress::F)
    }

    /// Returns `true` if this stress has a single or double prime.
    pub fn has_any_primes(self) -> (r: bool)
        ensures
            r == !self.spec_is_primary(),
            r == (self.spec_has_single_prime() || self.spec_has_double_prime()),
    {
        !self.is_primary()
    }

    /// Returns `true` if this stress has exactly one prime.
    pub fn has_single_prime(self) -> (r: bool)
        ensures
            r == self.spec_has_single_prime(),
    {
        matches!(self, AnyStress::Ap | AnyStress::Bp | AnyStress::Cp | AnyStress::Dp | AnyStress::Ep | AnyStress::Fp)
    }

    /// Returns `true` if this stress has exactly two primes.
    pub fn has_double_prime(self) -> (r: bool)
        ensures
            r == self.spec_has_double_prime(),
    {
        matches!(self, AnyStress::Cpp | AnyStress::Fpp)
    }

    /// Returns the primary letter stress that this stress is based on.
    pub fn unprime(self) -> (r: AnyStress)
        ensures
            r == self.spec_unprime(),
    {
        match self {
            AnyStress::A | AnyStress::Ap => AnyStress::A,
            AnyStress::B | AnyStress::Bp => AnyStress::B,
            AnyStress::C | AnyStress::Cp | AnyStress::Cpp => AnyStress::C,
            AnyStress::D | AnyStress::Dp => AnyStress::D,
            AnyStress::E | AnyStress::Ep => AnyStress::E,
            AnyStress::F | AnyStress::Fp | AnyStress::Fpp => AnyStress::F,
        }
    }

    /// Returns the single prime version of this primary letter stress, or `None` if this stress
    /// is not a primary letter stress.
    pub fn add_single_prime(self) -> (r: Option<AnyStress>)
        ensures
            r == self.spec_add_single_prime(),
    {
        match self {
            AnyStress::A => Some(AnyStress::Ap),
            AnyStress::B => Some(AnyStress::Bp),
            AnyStress::C => Some(AnyStress::Cp),
            AnyStress::D => Some(AnyStress::Dp),
            AnyStress::E => Some(AnyStress::Ep),
            AnyStress::F => Some(AnyStress::Fp),
            _ => None,
        }
    }

    /// Returns the double prime version of this primary letter stress, or `None` if this stress
    /// is not a primary letter stress or has no double prime version.
    pub fn add_double_prime(self) -> (r: Option<AnyStress>)
        ensures
            r == self.spec_add_double_prime(),
    {
        match self {
            AnyStress::C => Some(AnyStress::Cpp),
            AnyStress::F => Some(AnyStress::Fpp),
            _ => None,
        }
    }
}

impl AnyDualStress {
    /// The dual stress normalized with the adjective abbreviation rules: both stresses when both
    /// are given, else the unprimed main stress followed by the main stress.
    pub open spec fn spec_normalize_adj(self) -> (AnyStress, AnyStress) {
        match self.alt {
            Some(alt) => (self.main, alt),
            None => (self.main.spec_unprime(), self.main),
        }
    }

    /// The dual stress normalized with the verb abbreviation rules: a missing alternative
    /// stress is a.
    pub open spec fn spec_normalize_verb(self) -> (AnyStress, AnyStress) {
        match self.alt {
            Some(alt) => (self.main, alt),
            None => (self.main, AnyStress::A),
        }
    }

    /// The adjective abbreviation of a dual stress x/y: y, when x is a primary letter stress
    /// and y is x with or without primes.
    pub open spec fn spec_try_abbr_adj(self) -> Option<AnyStress> {
        match self.alt {
            Some(alt) => if self.main.spec_is_primary() && self.main == alt.spec_unprime() {
                Some(alt)
            } else {
                None
            },
            None => None,
        }
    }

    /// The verb abbreviation of a dual stress x/a: x.
    pub open spec fn spec_try_abbr_verb(self) -> Option<AnyStress> {
        if self.alt == Some(AnyStress::A) {
            Some(self.main)
        } else {
            None
        }
    }

    /// The dual stress abbreviated with the adjective rules where it can be, else unchanged.
    pub open spec fn spec_abbr_adj(self) -> AnyDualStress {
        match self.spec_try_abbr_adj() {
            Some(s) => AnyDualStress { main: s, alt: None },
            None => self,
        }
    }

    /// The dual stress abbreviated with the verb rules where it can be, else unchanged.
    pub open spec fn spec_abbr_verb(self) -> AnyDualStress {
        match self.spec_try_abbr_verb() {
            Some(s) => AnyDualStress { main: s, alt: None },
            None => self,
        }
    }

    /// Returns `true` if this dual stress has both stresses specified.
    pub fn is_dual(self) -> (r: bool)
        ensures
            r == self.alt is Some,
    {
        self.alt.is_some()
    }

    /// Normalizes this dual stress using adjective stress abbreviation rules: a --- a/a,
    /// b′ --- b/b′, c″ --- c/c″; both stresses are kept when both are given.
    pub fn normalize_adj(self) -> (r: (AnyStress, AnyStress))
        ensures
            r == self.spec_normalize_adj(),
    {
        match self.alt {
            Some(alt) => (self.main, alt),
            None => (self.main.unprime(), self.main),
        }
    }

    /// Normalizes this dual stress using verb stress abbreviation rules: a missing alternative
    /// stress is set to a.
    pub fn normalize_verb(self) -> (r: (AnyStress, AnyStress))
        ensures
            r == self.spec_normalize_verb(),
    {
        match self.alt {
            Some(alt) => (self.main, alt),
            None => (self.main, AnyStress::A),
        }
    }

    /// Tries to abbreviate this dual stress using adjective stress abbreviation rules: a/a ---
    /// a, b/b′ --- b′, c/c″ --- c″. Returns `None` if it is already abbreviated or cannot be.
    pub fn try_abbr_adj(self) -> (r: Option<AnyStress>)
        ensures
            r == self.spec_try_abbr_adj(),
    {
        match self.alt {
            Some(alt) => if self.main.is_primary() && self.main == alt.unprime() {
                Some(alt)
            } else {
                None
            },
            None => None,
        }
    }

    /// Tries to abbreviate this dual stress using verb stress abbreviation rules: x/a --- x.
    /// Returns `None` if it is already abbreviated or cannot be.
    pub fn try_abbr_verb(self) -> (r: Option<AnyStress>)
        ensures
            r == self.spec_try_abbr_verb(),
    {
        match self.alt {
            Some(AnyStress::A) => Some(self.main),
            _ => None,
        }
    }

    /// Abbreviates this dual stress using adjective stress abbreviation rules, or returns it
    /// unchanged if it cannot be abbreviated.
    pub fn abbr_adj(self) -> (r: AnyDualStress)
        ensures
            r == self.spec_abbr_adj(),
    {
        match self.try_abbr_adj() {
            Some(s) => AnyDualStress { main: s, alt: None },
            None => self,
        }
    }

    /// Abbreviates this dual stress using verb stress abbreviation rules, or returns it
    /// unchanged if it cannot be abbreviated.
    pub fn abbr_verb(self) -> (r: AnyDualStress)
        ensures
            r == self.spec_abbr_verb(),
    {
        match self.try_abbr_verb() {
            Some(s) => AnyDualStress { main: s, alt: None },
            None => self,
        }
    }
}

impl AdjectiveStress {
    /// This stress as an [`AnyDualStress`] with both stresses given.
    pub open spec fn spec_dual(self) -> AnyDualStress {
        AnyDualStress { main: self.full.spec_any(), alt: Some(self.short.spec_any()) }
    }

    /// The abbreviation of a/a, b/b, a/a′ and b/b′: the short form's stress.
    pub open spec fn spec_try_abbr(self) -> Option<AdjectiveShortStress> {
        match (self.full, self.short) {
            (AdjectiveFullStress::A, AdjectiveShortStress::A)
            | (AdjectiveFullStress::B, AdjectiveShortStress::B)
            | (AdjectiveFullStress::A, AdjectiveShortStress::Ap)
            | (AdjectiveFullStress::B, AdjectiveShortStress::Bp) => Some(self.short),
            _ => None,
        }
    }

    /// The abbreviated form of this stress, as an [`AnyDualStress`].
    pub open spec fn spec_abbr(self) -> AnyDualStress {
        match self.spec_try_abbr() {
            Some(s) => AnyDualStress { main: s.spec_any(), alt: None },
            None => self.spec_dual(),
        }
    }

    /// Tries to abbreviate this dual adjective stress into an [`AdjectiveShortStress`]:
    /// a/a --- a, b/b --- b, a/a′ --- a′, b/b′ --- b′.
    pub fn try_abbr(self) -> (r: Option<AdjectiveShortStress>)
        ensures
            r == self.spec_try_abbr(),
    {
        match (self.full, self.short) {
            (AdjectiveFullStress::A, AdjectiveShortStress::A)
            | (AdjectiveFullStress::B, AdjectiveShortStress::B)
            | (AdjectiveFullStress::A, AdjectiveShortStress::Ap)
            | (AdjectiveFullStress::B, AdjectiveShortStress::Bp) => Some(self.short),
            _ => None,
        }
    }

    /// Abbreviates this dual adjective stress into an [`AnyDualStress`]: a/a --- a,
    /// b/b --- b, a/a′ --- a′, b/b′ --- b′; any other stays dual.
    pub fn abbr(self) -> (r: AnyDualStress)
        ensures
            r == self.spec_abbr(),
    {
        match self.try_abbr() {
            Some(s) => AnyDualStress { main: s.to_any(), alt: None },
            None => AnyDualStress { main: self.full.to_any(), alt: Some(self.short.to_any()) },
        }
    }
}

impl VerbStress {
    /// This stress as an [`AnyDualStress`] with both stresses given.
    pub open spec fn spec_dual(self) -> AnyDualStress {
        AnyDualStress { main: self.present.spec_any(), alt: Some(self.past.spec_any()) }
    }

    /// The abbreviation of x/a: x.
    pub open spec fn spec_try_abbr(self) -> Option<VerbPresentStress> {
        if self.past == VerbPastStress::A {
            Some(self.present)
        } else {
            None
        }
    }

    /// The abbreviated form of this stress, as an [`AnyDualStress`].
    pub open spec fn spec_abbr(self) -> AnyDualStress {
        match self.spec_try_abbr() {
            Some(s) => AnyDualStress { main: s.spec_any(), alt: None },
            None => self.spec_dual(),
        }
    }

    /// Tries to abbreviate this dual verb stress into a [`VerbPresentStress`]: if the past
    /// form's stress is a, returns the present form's stress.
    pub fn try_abbr(self) -> (r: Option<VerbPresentStress>)
        ensures
            r == self.spec_try_abbr(),
    {
        if self.past == VerbPastStress::A {
            Some(self.present)
        } else {
            None
        }
    }

    /// Abbreviates this dual verb stress into an [`AnyDualStress`]: a past form's stress a is
    /// removed.
    pub fn abbr(self) -> (r: AnyDualStress)
        ensures
            r == self.spec_abbr(),
    {
        match self.try_abbr() {
            Some(s) => AnyDualStress { main: s.to_any(), alt: None },
            None => AnyDualStress { main: self.present.to_any(), alt: Some(self.past.to_any()) },
        }
    }
}

impl From<AdjectiveStress> for AnyDualStress {
    fn from(value: AdjectiveStress) -> (r: AnyDualStress) {
        AnyDualStress { main: value.full.to_any(), alt: Some(value.short.to_any()) }
    }
}

impl vstd::std_specs::convert::FromSpecImpl<AdjectiveStress> for AnyDualStress {
    open spec fn obeys_from_spec() -> bool {
        true
    }

    open spec fn from_spec(v: AdjectiveStress) -> AnyDualStress {
        v.spec_dual()
    }
}

impl From<VerbStress> for AnyDualStress {
    fn from(value: VerbStress) -> (r: AnyDualStress) {
        AnyDualStress { main: value.present.to_any(), alt: Some(value.past.to_any()) }
    }
}

impl vstd::std_specs::convert::FromSpecImpl<VerbStress> for AnyDualStress {
    open spec fn obeys_from_spec() -> bool {
        true
    }

    open spec fn from_spec(v: VerbStress) -> AnyDualStress {
        v.spec_dual()
    }
}

/// The adjective stress that a dual stress stands for, after normalization with the adjective
/// abbreviation rules.
pub open spec fn spec_adjective_stress(v: AnyDualStress) -> Result<AdjectiveStress, AdjectiveStressError> {
    let (main, alt) = v.spec_normalize_adj();
    match main.spec_adjective_full() {
        None => Err(AdjectiveStressError::Full(AdjectiveFullStressError)),
        Some(full) => match alt.spec_adjective_short() {
            None => Err(AdjectiveStressError::Short(AdjectiveShortStressError)),
            Some(short) => Ok(AdjectiveStress { full, short }),
        },
    }
}

/// The verb stress that a dual stress stands for, after normalization with the verb
/// abbreviation rules.
pub open spec fn spec_verb_stress(v: AnyDualStress) -> Result<VerbStress, VerbStressError> {
    let (main, alt) = v.spec_normalize_verb();
    match main.spec_verb_present() {
        None => Err(VerbStressError::Present(VerbPresentStressError)),
        Some(present) => match alt.spec_verb_past() {
            None => Err(VerbStressError::Past(VerbPastStressError)),
            Some(past) => Ok(VerbStress { present, past }),
        },
    }
}

impl TryFrom<AnyDualStress> for AdjectiveStress {
    type Error = AdjectiveStressError;

    fn try_from(value: AnyDualStress) -> (r: Result<AdjectiveStress, AdjectiveStressError>) {
        let (main, alt) = value.normalize_adj();
        match main.to_adjective_full() {
            Err(e) => Err(AdjectiveStressError::Full(e)),
            Ok(full) => match alt.to_adjective_short() {
                Err(e) => Err(AdjectiveStressError::Short(e)),
                Ok(short) => Ok(AdjectiveStress { full, short }),
            },
        }
    }
}

impl vstd::std_specs::convert::TryFromSpecImpl<AnyDualStress> for AdjectiveStress {
    open spec fn obeys_try_from_spec() -> bool {
        true
    }

    open spec fn try_from_spec(v: AnyDualStress) -> Result<AdjectiveStress, AdjectiveStressError> {
        spec_adjective_stress(v)
    }
}

impl TryFrom<AnyDualStress> for VerbStress {
    type Error = VerbStressError;

    fn try_from(value: AnyDualStress) -> (r: Result<VerbStress, VerbStressError>) {
        let (main, alt) = value.normalize_verb();
        match main.to_verb_present() {
            Err(e) => Err(VerbStressError::Present(e)),
            Ok(present) => match alt.to_verb_past() {
                Err(e) => Err(VerbStressError::Past(e)),
                Ok(past) => Ok(VerbStress { present, past }),
            },
        }
    }
}

impl vstd::std_specs::convert::TryFromSpecImpl<AnyDualStress> for VerbStress {
    open spec fn obeys_try_from_spec() -> bool {
        true
    }

    open spec fn try_from_spec(v: AnyDualStress) -> Result<VerbStress, VerbStressError> {
        spec_verb_stress(v)
    }
}

impl NounStress {
    /// Whether the noun's stem is stressed in the form with the declension parameters.
    pub open spec fn spec_is_stem_stressed(self, info: DeclInfo) -> bool {
        let sg = info.number == Number::Singular;
        let nom = info.case.spec_is_nom_or_acc_inan(info.animacy);
        match self {
            NounStress::A => true,
            NounStress::B => false,
            NounStress::C => sg,
            NounStress::D => !sg,
            NounStress::E => sg || nom,
            NounStress::F => !sg && nom,
            NounStress::Bp => sg && info.case == Case::Instrumental,
            NounStress::Dp => !sg || info.case == Case::Accusative,
            NounStress::Fp => if sg {
                info.case == Case::Accusative
            } else {
                nom
            },
            NounStress::Fpp => if sg {
                info.case == Case::Instrumental
            } else {
                nom
            },
        }
    }

    /// Returns `true` if the noun's stem should be stressed.
    pub fn is_stem_stressed(self, info: DeclInfo) -> (r: bool)
        ensures
            r == self.spec_is_stem_stressed(info),
    {
        match self {
            NounStress::A => true,
            NounStress::B => false,
            NounStress::C => info.is_singular(),
            NounStress::D => info.is_plural(),
            NounStress::E => info.is_singular() || info.case.is_nom_or_acc_inan(info.animacy),
            NounStress::F => info.is_plural() && info.case.is_nom_or_acc_inan(info.animacy),
            NounStress::Bp => info.is_singular() && info.case == Case::Instrumental,
            NounStress::Dp => info.is_plural() || info.case == Case::Accusative,
            NounStress::Fp => match info.number {
                Number::Singular => info.case == Case::Accusative,
                Number::Plural => info.case.is_nom_or_acc_inan(info.animacy),
            },
            NounStress::Fpp => match info.number {
                Number::Singular => info.case == Case::Instrumental,
                Number::Plural => info.case.is_nom_or_acc_inan(info.animacy),
            },
        }
    }

    /// Returns `true` if the noun's ending should be stressed.
    pub fn is_ending_stressed(self, info: DeclInfo) -> (r: bool)
        ensures
            r == !self.spec_is_stem_stressed(info),
    {
        !self.is_stem_stressed(info)
    }
}

impl PronounStress {
    /// Whether the pronoun's stem is stressed in the form with the declension parameters.
    pub open spec fn spec_is_stem_stressed(self, info: DeclInfo) -> bool {
        match self {
            PronounStress::A => true,
            PronounStress::B => false,
            PronounStress::F => info.number == Number::Plural
                && info.case.spec_is_nom_or_acc_inan(info.animacy),
        }
    }

    /// Returns `true` if the pronoun's stem should be stressed.
    pub fn is_stem_stressed(self, info: DeclInfo) -> (r: bool)
        ensures
            r == self.spec_is_stem_stressed(info),
    {
        match self {
            PronounStress::A => true,
            PronounStress::B => false,
            PronounStress::F => info.is_plural() && info.case.is_nom_or_acc_inan(info.animacy),
        }
    }

    /// Returns `true` if the pronoun's ending should be stressed.
    pub fn is_ending_stressed(self, info: DeclInfo) -> (r: bool)
        ensures
            r == !self.spec_is_stem_stressed(info),
    {
        !self.is_stem_stressed(info)
    }
}

impl AdjectiveFullStress {
    /// Returns `true` if the adjective's full form's stem should be stressed.
    pub fn is_stem_stressed(self) -> (r: bool)
        ensures
            r == (self == AdjectiveFullStress::A),
    {
        self == AdjectiveFullStress::A
    }

    /// Returns `true` if the adjective's full form's ending should be stressed.
    pub fn is_ending_stressed(self) -> (r: bool)
        ensures
            r == (self == AdjectiveFullStress::B),
    {
        !self.is_stem_stressed()
    }
}

/// Negates a known answer, and keeps an unknown one unknown.
pub open spec fn spec_negate(x: Option<bool>) -> Option<bool> {
    match x {
        Some(b) => Some(!b),
        None => None,
    }
}

impl AdjectiveShortStress {
    /// Whether the short form's stem is stressed: `Some(true)` for the stem, `Some(false)` for
    /// the ending, `None` where either may be stressed.
    pub open spec fn spec_is_stem_stressed(self, number: Number, gender: Gender) -> Option<bool> {
        let pl = number == Number::Plural;
        match self {
            AdjectiveShortStress::A => Some(true),
            AdjectiveShortStress::B => Some(!pl && gender == Gender::Masculine),
            AdjectiveShortStress::C => Some(pl || gender != Gender::Feminine),
            AdjectiveShortStress::Ap => if pl || gender != Gender::Feminine {
                Some(true)
            } else {
                None
            },
            AdjectiveShortStress::Bp => if pl {
                None
            } else {
                Some(gender == Gender::Masculine)
            },
            AdjectiveShortStress::Cp => if pl {
                None
            } else {
                Some(gender != Gender::Feminine)
            },
            AdjectiveShortStress::Cpp => if pl || gender == Gender::Neuter {
                None
            } else {
                Some(gender == Gender::Masculine)
            },
        }
    }

    /// Returns whether the adjective's short form's stem should be stressed: `None` if either
    /// the stem or the ending may be stressed.
    pub fn is_stem_stressed(self, number: Number, gender: Gender) -> (r: Option<bool>)
        ensures
            r == self.spec_is_stem_stressed(number, gender),
    {
        match self {
            AdjectiveShortStress::A => Some(true),
            AdjectiveShortStress::B => Some(number.is_singular() && gender == Gender::Masculine),
            AdjectiveShortStress::C => Some(number.is_plural() || gender != Gender::Feminine),
            AdjectiveShortStress::Ap => match (number, gender) {
                (Number::Plural, _) => Some(true),
                (_, Gender::Masculine) => Some(true),
                (_, Gender::Neuter) => Some(true),
                (_, Gender::Feminine) => None,
            },
            AdjectiveShortStress::Bp => match (number, gender) {
                (Number::Plural, _) => None,
                (_, Gender::Masculine) => Some(true),
                (_, Gender::Neuter) => Some(false),
                (_, Gender::Feminine) => Some(false),
            },
            AdjectiveShortStress::Cp => match (number, gender) {
                (Number::Plural, _) => None,
                (_, Gender::Masculine) => Some(true),
                (_, Gender::Neuter) => Some(true),
                (_, Gender::Feminine) => Some(false),
            },
            AdjectiveShortStress::Cpp => match (number, gender) {
                (Number::Plural, _) => None,
                (_, Gender::Masculine) => Some(true),
                (_, Gender::Neuter) => None,
                (_, Gender::Feminine) => Some(false),
            },
        }
    }

    /// Returns whether the adjective's short form's ending should be stressed: `None` if either
    /// the stem or the ending may be stressed.
    pub fn is_ending_stressed(self, number: Number, gender: Gender) -> (r: Option<bool>)
        ensures
            r == spec_negate(self.spec_is_stem_stressed(number, gender)),
    {
        match self.is_stem_stressed(number, gender) {
            Some(b) => Some(!b),
            None => None,
        }
    }
}

impl VerbPresentStress {
    /// Whether the present tense form's stem is stressed.
    pub open spec fn spec_is_stem_stressed(self, number: Number, person: Person) -> bool {
        match self {
            VerbPresentStress::A => true,
            VerbPresentStress::B => false,
            VerbPresentStress::C => number == Number::Plural || person != Person::First,
            VerbPresentStress::Cp => number == Number::Singular && person != Person::First,
        }
    }

    /// Returns `true` if the verb's present tense form's stem should be stressed.
    pub fn is_stem_stressed(self, number: Number, person: Person) -> (r: bool)
        ensures
            r == self.spec_is_stem_stressed(number, person),
    {
        match self {
            VerbPresentStress::A => true,
            VerbPresentStress::B => false,
            VerbPresentStress::C => number.is_plural() || !person.is_first(),
            VerbPresentStress::Cp => number.is_singular() && !person.is_first(),
        }
    }

    /// Returns `true` if the verb's present tense form's ending should be stressed.
    pub fn is_ending_stressed(self, number: Number, person: Person) -> (r: bool)
        ensures
            r == !self.spec_is_stem_stressed(number, person),
    {
        !self.is_stem_stressed(number, person)
    }
}

impl VerbPastStress {
    /// Whether the past tense form's stem is stressed: `Some(true)` for the stem, `Some(false)`
    /// for the ending, `None` where either may be stressed.
    pub open spec fn spec_is_stem_stressed(self, number: Number, gender: Gender) -> Option<bool> {
        let pl = number == Number::Plural;
        match self {
            VerbPastStress::A => Some(true),
            VerbPastStress::B => Some(false),
            VerbPastStress::C => Some(pl || gender != Gender::Feminine),
            VerbPastStress::Cp => if pl || gender == Gender::Masculine {
                Some(true)
            } else if gender == Gender::Neuter {
                None
            } else {
                Some(false)
            },
            VerbPastStress::Cpp => if pl || gender == Gender::Neuter {
                None
            } else {
                Some(gender == Gender::Masculine)
            },
        }
    }

    /// Returns whether the verb's past tense form's stem should be stressed: `None` if either
    /// the stem or the ending may be stressed.
    pub fn is_stem_stressed(self, number: Number, gender: Gender) -> (r: Option<bool>)
        ensures
            r == self.spec_is_stem_stressed(number, gender),
    {
        match self {
            VerbPastStress::A => Some(true),
            VerbPastStress::B => Some(false),
            VerbPastStress::C => Some(number.is_plural() || gender != Gender::Feminine),
            VerbPastStress::Cp => match (number, gender) {
                (Number::Plural, _) => Some(true),
                (_, Gender::Masculine) => Some(true),
                (_, Gender::Neuter) => None,
                (_, Gender::Feminine) => Some(false),
            },
            VerbPastStress::Cpp => match (number, gender) {
                (Number::Plural, _) => None,
                (_, Gender::Masculine) => Some(true),
                (_, Gender::Neuter) => None,
                (_, Gender::Feminine) => Some(false),
            },
        }
    }

    /// Returns whether the verb's past tense form's ending should be stressed: `None` if either
    /// the stem or the ending may be stressed.
    pub fn is_ending_stressed(self, number: Number, gender: Gender) -> (r: Option<bool>)
        ensures
            r == spec_negate(self.spec_is_stem_stressed(number, gender)),
    {
        match self.is_stem_stressed(number, gender) {
            Some(b) => Some(!b),
            None => None,
        }
    }
}

impl AnyStress {
    /// The latin letter of this stress's primary letter stress.
    pub open spec fn spec_letter(self) -> char {
        match self.spec_unprime() {
            AnyStress::A => 'a',
            AnyStress::B => 'b',
            AnyStress::C => 'c',
            AnyStress::D => 'd',
            AnyStress::E => 'e',
            _ => 'f',
        }
    }

    /// The text of this stress: its latin letter, followed by ′ or ″ for its primes.
    pub open spec fn spec_fmt(self) -> Seq<char> {
        seq![self.spec_letter()] + if self.spec_has_double_prime() {
            seq!['″']
        } else if self.spec_has_single_prime() {
            seq!['′']
        } else {
            Seq::<char>::empty()
        }
    }

    /// Appends the text of this stress to `dst`: its latin letter, followed by ′ or ″.
    pub fn fmt_to(self, dst: &mut String)
        ensures
            final(dst)@ == old(dst)@ + self.spec_fmt(),
    {
        let letter = match self.unprime() {
            AnyStress::A => 'a',
            AnyStress::B => 'b',
            AnyStress::C => 'c',
            AnyStress::D => 'd',
            AnyStress::E => 'e',
            _ => 'f',
        };
        push_char(dst, letter);
        if self.has_double_prime() {
            push_char(dst, '″');
        } else if self.has_single_prime() {
            push_char(dst, '′');
        }
        assert(dst@ =~= old(dst)@ + self.spec_fmt());
    }

    /// Returns the text of this stress, such as `a` or `c″`.
    pub fn to_string(&self) -> (r: String)
        ensures
            r@ == self.spec_fmt(),
    {
        let mut s = String::new();
        self.fmt_to(&mut s);
        assert(s@ =~= self.spec_fmt());
        s
    }
}

impl AnyDualStress {
    /// The text of this dual stress: the main stress, then `/` and the alternative one, if any.
    pub open spec fn spec_fmt(self) -> Seq<char> {
        self.main.spec_fmt() + match self.alt {
            Some(alt) => seq!['/'] + alt.spec_fmt(),
            None => Seq::<char>::empty(),
        }
    }

    /// Appends the text of this dual stress to `dst`: the main stress, then `/` and the
    /// alternative stress, if there is one.
    pub fn fmt_to(self, dst: &mut String)
        ensures
            final(dst)@ == old(dst)@ + self.spec_fmt(),
    {
        self.main.fmt_to(dst);
        if let Some(alt) = self.alt {
            push_char(dst, '/');
            alt.fmt_to(dst);
        }
        assert(dst@ =~= old(dst)@ + self.spec_fmt());
    }

    /// Returns the text of this dual stress, such as `a/c′` or `b`.
    pub fn to_string(&self) -> (r: String)
        ensures
            r@ == self.spec_fmt(),
    {
        let mut s = String::new();
        self.fmt_to(&mut s);
        assert(s@ =~= self.spec_fmt());
        s
    }
}

impl NounStress {
    /// Returns the text of this stress, such as `b′`.
    pub fn to_string(&self) -> (r: String)
        ensures
            r@ == self.spec_any().spec_fmt(),
    {
        self.to_any().to_string()
    }
}

impl PronounStress {
    /// Returns the text of this stress, such as `f`.
    pub fn to_string(&self) -> (r: String)
        ensures
            r@ == self.spec_any().spec_fmt(),
    {
        self.to_any().to_string()
    }
}

impl AdjectiveFullStress {
    /// Returns the text of this stress, such as `a`.
    pub fn to_string(&self) -> (r: String)
        ensures
            r@ == self.spec_any().spec_fmt(),
    {
        self.to_any().to_string()
    }
}

impl AdjectiveShortStress {
    /// Returns the text of this stress, such as `c″`.
    pub fn to_string(&self) -> (r: String)
        ensures
            r@ == self.spec_any().spec_fmt(),
    {
        self.to_any().to_string()
    }
}

impl VerbPresentStress {
    /// Returns the text of this stress, such as `c′`.
    pub fn to_string(&self) -> (r: String)
        ensures
            r@ == self.spec_any().spec_fmt(),
    {
        self.to_any().to_string()
    }
}

impl VerbPastStress {
    /// Returns the text of this stress, such as `c″`.
    pub fn to_string(&self) -> (r: String)
        ensures
            r@ == self.spec_any().spec_fmt(),
    {
        self.to_any().to_string()
    }
}

impl AdjectiveStress {
    /// Returns the text of this stress, abbreviated with the adjective rules, such as `a/c′`
    /// or `b′`.
    pub fn to_string(&self) -> (r: String)
        ensures
            r@ == self.spec_abbr().spec_fmt(),
    {
        self.abbr().to_string()
    }
}

impl VerbStress {
    /// Returns the text of this stress, abbreviated with the verb rules, such as `c′/b` or `c`.
    pub fn to_string(&self) -> (r: String)
        ensures
            r@ == self.spec_abbr().spec_fmt(),
    {
        self.abbr().to_string()
    }
}

/// The primary letter stress that a latin letter stands for.
pub open spec fn spec_letter_stress(c: char) -> Option<AnyStress> {
    if c == 'a' {
        Some(AnyStress::A)
    } else if c == 'b' {
        Some(AnyStress::B)
    } else if c == 'c' {
        Some(AnyStress::C)
    } else if c == 'd' {
        Some(AnyStress::D)
    } else if c == 'e' {
        Some(AnyStress::E)
    } else if c == 'f' {
        Some(AnyStress::F)
    } else {
        None
    }
}

/// The number of primes written at `pos`, and the number of characters they take: ′ and `'`
/// are one prime, ″, `''` and `"` are two.
pub open spec fn spec_primes_at(s: Seq<char>, pos: int) -> (int, int) {
    let c = spec_peek(s, pos);
    if c == Some('′') {
        (1, 1)
    } else if c == Some('″') {
        (2, 1)
    } else if c == Some('\'') && spec_peek(s, pos + 1) == Some('\'') {
        (2, 2)
    } else if c == Some('\'') {
        (1, 1)
    } else if c == Some('"') {
        (2, 1)
    } else {
        (0, 0)
    }
}

/// Parses a single stress at `pos`: a latin letter a-f, followed by its primes. Gives the
/// stress and the position after it.
pub open spec fn spec_parse_any_at(s: Seq<char>, pos: int) -> Result<(AnyStress, int), ParseStressError> {
    match spec_peek(s, pos) {
        None => Err(ParseStressError::InvalidLetter),
        Some(c) => match spec_letter_stress(c) {
            None => Err(ParseStressError::InvalidLetter),
            Some(letter) => {
                let (primes, len) = spec_primes_at(s, pos + 1);
                let end = pos + 1 + len;
                if primes == 0 {
                    Ok((letter, end))
                } else if primes == 1 {
                    match letter.spec_add_single_prime() {
                        Some(x) => Ok((x, end)),
                        None => Err(ParseStressError::InvalidPrime),
                    }
                } else {
                    match letter.spec_add_double_prime() {
                        Some(x) => Ok((x, end)),
                        None => Err(ParseStressError::InvalidPrime),
                    }
                }
            },
        },
    }
}

/// Parses a dual stress at `pos`: a single stress, optionally followed by `/` and another one.
pub open spec fn spec_parse_dual_at(s: Seq<char>, pos: int) -> Result<(AnyDualStress, int), ParseStressError> {
    match spec_parse_any_at(s, pos) {
        Err(e) => Err(e),
        Ok((main, p)) => if spec_peek(s, p) == Some('/') {
            match spec_parse_any_at(s, p + 1) {
                Err(e) => Err(e),
                Ok((alt, q)) => Ok((AnyDualStress { main, alt: Some(alt) }, q)),
            }
        } else {
            Ok((AnyDualStress { main, alt: None }, p))
        },
    }
}

/// Parses a whole string as a single stress.
pub open spec fn spec_parse_any(s: Seq<char>) -> Result<AnyStress, ParseStressError> {
    match spec_parse_any_at(s, 0) {
        Err(e) => Err(e),
        Ok((x, p)) => if p == s.len() {
            Ok(x)
        } else {
            Err(ParseStressError::Invalid)
        },
    }
}

/// Parses a whole string as a dual stress.
pub open spec fn spec_parse_dual(s: Seq<char>) -> Result<AnyDualStress, ParseStressError> {
    match spec_parse_dual_at(s, 0) {
        Err(e) => Err(e),
        Ok((x, p)) => if p == s.len() {
            Ok(x)
        } else {
            Err(ParseStressError::Invalid)
        },
    }
}

/// Parses a whole string as a single stress, then converts it with `conv`: a stress that
/// `conv` refuses is [`ParseStressError::Incompatible`].
pub open spec fn spec_parse_as<T>(s: Seq<char>, conv: spec_fn(AnyStress) -> Option<T>) -> Result<T, ParseStressError> {
    match spec_parse_any(s) {
        Err(e) => Err(e),
        Ok(x) => match conv(x) {
            Some(y) => Ok(y),
            None => Err(ParseStressError::Incompatible),
        },
    }
}

impl AnyStress {
    /// Parses a single stress at the parser's position: a latin letter a-f, followed by an
    /// optional prime (′ or `'`) or double prime (″, `''` or `"`).
    pub fn partial_from_str(parser: &mut UnsafeParser) -> (r: Result<AnyStress, ParseStressError>)
        ensures
            final(parser).chars() == old(parser).chars(),
            match spec_parse_any_at(old(parser).chars(), old(parser).pos()) {
                Ok((x, p)) => r == Ok::<AnyStress, ParseStressError>(x) && final(parser).pos() == p,
                Err(e) => r == Err::<AnyStress, ParseStressError>(e),
            },
    {
        let letter = match parser.read_char() {
            Some('a') => AnyStress::A,
            Some('b') => AnyStress::B,
            Some('c') => AnyStress::C,
            Some('d') => AnyStress::D,
            Some('e') => AnyStress::E,
            Some('f') => AnyStress::F,
            _ => return Err(ParseStressError::InvalidLetter),
        };
        let c0 = parser.peek_char();
        let c1 = parser.peek_at(1);
        let (primes, len): (u8, usize) = match (c0, c1) {
            (Some('′'), _) => (1, 1),
            (Some('″'), _) => (2, 1),
            (Some('\''), Some('\'')) => (2, 2),
            (Some('\''), _) => (1, 1),
            (Some('"'), _) => (2, 1),
            _ => (0, 0),
        };
        parser.forward(len);
        if primes == 0 {
            Ok(letter)
        } else if primes == 1 {
            match letter.add_single_prime() {
                Some(x) => Ok(x),
                None => Err(ParseStressError::InvalidPrime),
            }
        } else {
            match letter.add_double_prime() {
                Some(x) => Ok(x),
                None => Err(ParseStressError::InvalidPrime),
            }
        }
    }

    /// Parses a string as a single stress, such as `a`, `b′`, `e'` or `c''`.
    pub fn parse_str(s: &str) -> (r: Result<AnyStress, ParseStressError>)
        ensures
            r == spec_parse_any(s@),
    {
        let mut parser = UnsafeParser::new(s);
        match AnyStress::partial_from_str(&mut parser) {
            Ok(x) => if parser.finished() {
                Ok(x)
            } else {
                Err(ParseStressError::Invalid)
            },
            Err(e) => Err(e),
        }
    }
}

impl AnyDualStress {
    /// Parses a dual stress at the parser's position: a single stress, optionally followed by
    /// `/` and another one.
    pub fn partial_from_str(parser: &mut UnsafeParser) -> (r: Result<AnyDualStress, ParseStressError>)
        ensures
            final(parser).chars() == old(parser).chars(),
            match spec_parse_dual_at(old(parser).chars(), old(parser).pos()) {
                Ok((x, p)) => r == Ok::<AnyDualStress, ParseStressError>(x) && final(parser).pos() == p,
                Err(e) => r == Err::<AnyDualStress, ParseStressError>(e),
            },
    {
        let main = match AnyStress::partial_from_str(parser) {
            Ok(x) => x,
            Err(e) => return Err(e),
        };
        if parser.skip('/') {
            match AnyStress::partial_from_str(parser) {
                Ok(alt) => Ok(AnyDualStress { main, alt: Some(alt) }),
                Err(e) => Err(e),
            }
        } else {
            Ok(AnyDualStress { main, alt: None })
        }
    }

    /// Parses a string as a dual stress, such as `a`, `a/c′` or `f"/f''`.
    pub fn parse_str(s: &str) -> (r: Result<AnyDualStress, ParseStressError>)
        ensures
            r == spec_parse_dual(s@),
    {
        let mut parser = UnsafeParser::new(s);
        match AnyDualStress::partial_from_str(&mut parser) {
            Ok(x) => if parser.finished() {
                Ok(x)
            } else {
                Err(ParseStressError::Invalid)
            },
            Err(e) => Err(e),
        }
    }
}

impl NounStress {
    /// Parses a string as a stress of nouns; a valid stress that nouns cannot have is
    /// [`ParseStressError::Incompatible`].
    pub fn parse_str(s: &str) -> (r: Result<NounStress, ParseStressError>)
        ensures
            r == spec_parse_as(s@, |x: AnyStress| x.spec_noun()),
    {
        match AnyStress::parse_str(s) {
            Ok(x) => match x.to_noun() {
                Ok(y) => Ok(y),
                Err(_) => Err(ParseStressError::Incompatible),
            },
            Err(e) => Err(e),
        }
    }
}

impl std::str::FromStr for NounStress {
    type Err = ParseStressError;

    fn from_str(s: &str) -> (r: Result<NounStress, ParseStressError>)
        ensures
            r == spec_parse_as(s@, |x: AnyStress| x.spec_noun()),
    {
        NounStress::parse_str(s)
    }
}

impl PronounStress {
    /// Parses a string as a stress of pronouns; a valid stress that pronouns cannot have is
    /// [`ParseStressError::Incompatible`].
    pub fn parse_str(s: &str) -> (r: Result<PronounStress, ParseStressError>)
        ensures
            r == spec_parse_as(s@, |x: AnyStress| x.spec_pronoun()),
    {
        match AnyStress::parse_str(s) {
            Ok(x) => match x.to_pronoun() {
                Ok(y) => Ok(y),
                Err(_) => Err(ParseStressError::Incompatible),
            },
            Err(e) => Err(e),
        }
    }
}

impl std::str::FromStr for PronounStress {
    type Err = ParseStressError;

    fn from_str(s: &str) -> (r: Result<PronounStress, ParseStressError>)
        ensures
            r == spec_parse_as(s@, |x: AnyStress| x.spec_pronoun()),
    {
        PronounStress::parse_str(s)
    }
}

impl AdjectiveFullStress {
    /// Parses a string as a stress of adjectives' full forms; a valid stress that adjectives' full forms cannot have is
    /// [`ParseStressError::Incompatible`].
    pub fn parse_str(s: &str) -> (r: Result<AdjectiveFullStress, ParseStressError>)
        ensures
            r == spec_parse_as(s@, |x: AnyStress| x.spec_adjective_full()),
    {
        match AnyStress::parse_str(s) {
            Ok(x) => match x.to_adjective_full() {
                Ok(y) => Ok(y),
                Err(_) => Err(ParseStressError::Incompatible),
            },
            Err(e) => Err(e),
        }
    }
}

impl std::str::FromStr for AdjectiveFullStress {
    type Err = ParseStressError;

    fn from_str(s: &str) -> (r: Result<AdjectiveFullStress, ParseStressError>)
        ensures
            r == spec_parse_as(s@, |x: AnyStress| x.spec_adjective_full()),
    {
        AdjectiveFullStress::parse_str(s)
    }
}

impl AdjectiveShortStress {
    /// Parses a string as a stress of adjectives' short forms; a valid stress that adjectives' short forms cannot have is
    /// [`ParseStressError::Incompatible`].
    pub fn parse_str(s: &str) -> (r: Result<AdjectiveShortStress, ParseStressError>)
        ensures
            r == spec_parse_as(s@, |x: AnyStress| x.spec_adjective_short()),
    {
        match AnyStress::parse_str(s) {
            Ok(x) => match x.to_adjective_short() {
                Ok(y) => Ok(y),
                Err(_) => Err(ParseStressError::Incompatible),
            },
            Err(e) => Err(e),
        }
    }
}

impl std::str::FromStr for AdjectiveShortStress {
    type Err = ParseStressError;

    fn from_str(s: &str) -> (r: Result<AdjectiveShortStress, ParseStressError>)
        ensures
            r == spec_parse_as(s@, |x: AnyStress| x.spec_adjective_short()),
    {
        AdjectiveShortStress::parse_str(s)
    }
}

impl VerbPresentStress {
    /// Parses a string as a stress of verbs' present tense forms; a valid stress that verbs' present tense forms cannot have is
    /// [`ParseStressError::Incompatible`].
    pub fn parse_str(s: &str) -> (r: Result<VerbPresentStress, ParseStressError>)
        ensures
            r == spec_parse_as(s@, |x: AnyStress| x.spec_verb_present()),
    {
        match AnyStress::parse_str(s) {
            Ok(x) => match x.to_verb_present() {
                Ok(y) => Ok(y),
                Err(_) => Err(ParseStressError::Incompatible),
            },
            Err(e) => Err(e),
        }
    }
}

impl std::str::FromStr for VerbPresentStress {
    type Err = ParseStressError;

    fn from_str(s: &str) -> (r: Result<VerbPresentStress, ParseStressError>)
        ensures
            r == spec_parse_as(s@, |x: AnyStress| x.spec_verb_present()),
    {
        VerbPresentStress::parse_str(s)
    }
}

impl VerbPastStress {
    /// Parses a string as a stress of verbs' past tense forms; a valid stress that verbs' past tense forms cannot have is
    /// [`ParseStressError::Incompatible`].
    pub fn parse_str(s: &str) -> (r: Result<VerbPastStress, ParseStressError>)
        ensures
            r == spec_parse_as(s@, |x: AnyStress| x.spec_verb_past()),
    {
        match AnyStress::parse_str(s) {
            Ok(x) => match x.to_verb_past() {
                Ok(y) => Ok(y),
                Err(_) => Err(ParseStressError::Incompatible),
            },
            Err(e) => Err(e),
        }
    }
}

impl std::str::FromStr for VerbPastStress {
    type Err = ParseStressError;

    fn from_str(s: &str) -> (r: Result<VerbPastStress, ParseStressError>)
        ensures
            r == spec_parse_as(s@, |x: AnyStress| x.spec_verb_past()),
    {
        VerbPastStress::parse_str(s)
    }
}

impl std::str::FromStr for AnyStress {
    type Err = ParseStressError;

    fn from_str(s: &str) -> (r: Result<AnyStress, ParseStressError>)
        ensures
            r == spec_parse_any(s@),
    {
        AnyStress::parse_str(s)
    }
}

impl std::str::FromStr for AnyDualStress {
    type Err = ParseStressError;

    fn from_str(s: &str) -> (r: Result<AnyDualStress, ParseStressError>)
        ensures
            r == spec_parse_dual(s@),
    {
        AnyDualStress::parse_str(s)
    }
}

impl AdjectiveStress {
    /// Parses a string as a adjective stress, such as `a/c′` or `b`; an abbreviated stress is
    /// expanded with the adjective abbreviation rules, and a valid dual stress that is no adjective stress
    /// is [`ParseStressError::Incompatible`].
    pub fn parse_str(s: &str) -> (r: Result<AdjectiveStress, ParseStressError>)
        ensures
            r == match spec_parse_dual(s@) {
                Err(e) => Err(e),
                Ok(x) => match spec_adjective_stress(x) {
                    Ok(y) => Ok(y),
                    Err(_) => Err(ParseStressError::Incompatible),
                },
            },
    {
        match AnyDualStress::parse_str(s) {
            Ok(x) => match AdjectiveStress::try_from(x) {
                Ok(y) => Ok(y),
                Err(_) => Err(ParseStressError::Incompatible),
            },
            Err(e) => Err(e),
        }
    }
}

impl std::str::FromStr for AdjectiveStress {
    type Err = ParseStressError;

    fn from_str(s: &str) -> (r: Result<AdjectiveStress, ParseStressError>)
        ensures
            r == match spec_parse_dual(s@) {
                Err(e) => Err(e),
                Ok(x) => match spec_adjective_stress(x) {
                    Ok(y) => Ok(y),
                    Err(_) => Err(ParseStressError::Incompatible),
                },
            },
    {
        AdjectiveStress::parse_str(s)
    }
}

impl VerbStress {
    /// Parses a string as a verb stress, such as `a/c′` or `b`; an abbreviated stress is
    /// expanded with the verb abbreviation rules, and a valid dual stress that is no verb stress
    /// is [`ParseStressError::Incompatible`].
    pub fn parse_str(s: &str) -> (r: Result<VerbStress, ParseStressError>)
        ensures
            r == match spec_parse_dual(s@) {
                Err(e) => Err(e),
                Ok(x) => match spec_verb_stress(x) {
                    Ok(y) => Ok(y),
                    Err(_) => Err(ParseStressError::Incompatible),
                },
            },
    {
        match AnyDualStress::parse_str(s) {
            Ok(x) => match VerbStress::try_from(x) {
                Ok(y) => Ok(y),
                Err(_) => Err(ParseStressError::Incompatible),
            },
            Err(e) => Err(e),
        }
    }
}

impl std::str::FromStr for VerbStress {
    type Err = ParseStressError;

    fn from_str(s: &str) -> (r: Result<VerbStress, ParseStressError>)
        ensures
            r == match spec_parse_dual(s@) {
                Err(e) => Err(e),
                Ok(x) => match spec_verb_stress(x) {
                    Ok(y) => Ok(y),
                    Err(_) => Err(ParseStressError::Incompatible),
                },
            },
    {
        VerbStress::parse_str(s)
    }
}

/// A character that can continue a stress's text: a prime (′, ″, `'` or `"`).
pub open spec fn spec_is_prime_char(c: char) -> bool {
    c == '′' || c == '″' || c == '\'' || c == '"'
}

/// A single stress's text at `pos`, followed by the end of the string or by a character that
/// is no prime, parses back to the stress, ending right after its text.
pub proof fn lemma_parse_any_at_fmt(x: AnyStress, s: Seq<char>, pos: int)
    requires
        0 <= pos,
        pos + x.spec_fmt().len() <= s.len(),
        s.subrange(pos, pos + x.spec_fmt().len()) == x.spec_fmt(),
        pos + x.spec_fmt().len() < s.len() ==> !spec_is_prime_char(s[pos + x.spec_fmt().len()]),
    ensures
        spec_parse_any_at(s, pos) == Ok::<(AnyStress, int), ParseStressError>((x, pos + x.spec_fmt().len())),
{
    let f = x.spec_fmt();
    assert(s[pos] == f[0]);
    if f.len() == 2 {
        assert(s[pos + 1] == f[1]);
    }
}

/// A dual stress's text at `pos`, followed by the end of the string or by a character that is
/// neither a prime nor `/`, parses back to the dual stress, ending right after its text.
pub proof fn lemma_parse_dual_at_fmt(x: AnyDualStress, s: Seq<char>, pos: int)
    requires
        0 <= pos,
        pos + x.spec_fmt().len() <= s.len(),
        s.subrange(pos, pos + x.spec_fmt().len()) == x.spec_fmt(),
        pos + x.spec_fmt().len() < s.len() ==> !spec_is_prime_char(s[pos + x.spec_fmt().len()])
            && s[pos + x.spec_fmt().len()] != '/',
    ensures
        spec_parse_dual_at(s, pos) == Ok::<(AnyDualStress, int), ParseStressError>((x, pos + x.spec_fmt().len())),
{
    let f = x.spec_fmt();
    let m = x.main.spec_fmt();
    let ml = m.len() as int;
    assert(s.subrange(pos, pos + ml) =~= m) by {
        assert forall|i: int| 0 <= i < ml implies s.subrange(pos, pos + ml)[i] == m[i] by {
            assert(s.subrange(pos, pos + f.len())[i] == f[i]);
        }
    }
    match x.alt {
        None => {
            assert(f =~= m);
            lemma_parse_any_at_fmt(x.main, s, pos);
        },
        Some(alt) => {
            let a = alt.spec_fmt();
            assert(f =~= m + seq!['/'] + a);
            assert(s[pos + ml] == '/') by {
                assert(s.subrange(pos, pos + f.len())[ml] == f[ml]);
            }
            lemma_parse_any_at_fmt(x.main, s, pos);
            assert(s.subrange(pos + ml + 1, pos + ml + 1 + a.len()) =~= a) by {
                assert forall|i: int| 0 <= i < a.len() implies s.subrange(pos + ml + 1, pos + ml + 1 + a.len())[i] == a[i] by {
                    assert(s.subrange(pos, pos + f.len())[ml + 1 + i] == f[ml + 1 + i]);
                }
            }
            lemma_parse_any_at_fmt(alt, s, pos + ml + 1);
        },
    }
}

/// Formatting a single stress and parsing the text gives the stress back.
pub proof fn law_stress_parse_fmt(x: AnyStress)
    ensures
        spec_parse_any(x.spec_fmt()) == Ok::<AnyStress, ParseStressError>(x),
{
    let s = x.spec_fmt();
    assert(s.subrange(0, s.len() as int) =~= s);
    lemma_parse_any_at_fmt(x, s, 0);
}

/// Formatting a dual stress and parsing the text gives the dual stress back.
pub proof fn law_dual_stress_parse_fmt(x: AnyDualStress)
    ensures
        spec_parse_dual(x.spec_fmt()) == Ok::<AnyDualStress, ParseStressError>(x),
{
    let s = x.spec_fmt();
    assert(s.subrange(0, s.len() as int) =~= s);
    lemma_parse_dual_at_fmt(x, s, 0);
}

/// Abbreviating a dual stress with the adjective rules keeps what it normalizes to, and so
/// does abbreviating it with the verb rules.
pub proof fn law_abbr_keeps_normal_form(x: AnyDualStress)
    ensures
        x.spec_abbr_adj().spec_normalize_adj() == x.spec_normalize_adj(),
        x.spec_abbr_verb().spec_normalize_verb() == x.spec_normalize_verb(),
{
}

/// An adjective stress converts back from its dual stress, and from its abbreviation.
pub proof fn law_adjective_stress_round_trip(s: AdjectiveStress)
    ensures
        spec_adjective_stress(s.spec_dual()) == Ok::<AdjectiveStress, AdjectiveStressError>(s),
        spec_adjective_stress(s.spec_abbr()) == Ok::<AdjectiveStress, AdjectiveStressError>(s),
{
}

/// A verb stress converts back from its dual stress, and from its abbreviation.
pub proof fn law_verb_stress_round_trip(s: VerbStress)
    ensures
        spec_verb_stress(s.spec_dual()) == Ok::<VerbStress, VerbStressError>(s),
        spec_verb_stress(s.spec_abbr()) == Ok::<VerbStress, VerbStressError>(s),
{
}

/// Each word's stress converts to [`AnyStress`] and back unchanged.
pub proof fn law_stress_conversions_round_trip(
    n: NounStress,
    p: PronounStress,
    af: AdjectiveFullStress,
    ash: AdjectiveShortStress,
    vpr: VerbPresentStress,
    vpa: VerbPastStress,
)
    ensures
        n.spec_any().spec_noun() == Some(n),
        p.spec_any().spec_pronoun() == Some(p),
        af.spec_any().spec_adjective_full() == Some(af),
        ash.spec_any().spec_adjective_short() == Some(ash),
        vpr.spec_any().spec_verb_present() == Some(vpr),
        vpa.spec_any().spec_verb_past() == Some(vpa),
{
}


/// Stress schema a always stresses the stem, and stress schema b always the ending, for each
/// kind of word (the masculine short form of an adjective has no ending, and b stresses its
/// stem).
pub proof fn law_schemas_a_and_b(info: DeclInfo, number: Number, gender: Gender, person: Person)
    ensures
        NounStress::A.spec_is_stem_stressed(info),
        !NounStress::B.spec_is_stem_stressed(info),
        PronounStress::A.spec_is_stem_stressed(info),
        !PronounStress::B.spec_is_stem_stressed(info),
        AdjectiveShortStress::A.spec_is_stem_stressed(number, gender) == Some(true),
        number == Number::Plural || gender != Gender::Masculine ==> AdjectiveShortStress::B.spec_is_stem_stressed(number, gender)
            == Some(false),
        VerbPresentStress::A.spec_is_stem_stressed(number, person),
        !VerbPresentStress::B.spec_is_stem_stressed(number, person),
        VerbPastStress::A.spec_is_stem_stressed(number, gender) == Some(true),
        VerbPastStress::B.spec_is_stem_stressed(number, gender) == Some(false),
{
}

/// Where each noun and pronoun stress schema puts the stress: c stresses the stem in the
/// singular and the ending in the plural, d the other way round; e stresses the stem in the
/// singular and the plural nominative, f only in the plural nominative; b′ only in the
/// singular instrumental; d′ in the singular accusative and the whole plural; f′ in the
/// singular accusative and the plural nominative; f″ in the singular instrumental and the
/// plural nominative. Every other form is stressed on the ending. The inanimate accusative
/// plural, which takes the nominative's form, takes its stress too.
pub proof fn law_noun_stress_schemas(info: DeclInfo)
    ensures
        ({
            let sg = info.number == Number::Singular;
            let pl_nom = info.number == Number::Plural && (info.case == Case::Nominative || (
            info.case == Case::Accusative && info.animacy == crate::categories::Animacy::Inanimate));
            &&& NounStress::C.spec_is_stem_stressed(info) == sg
            &&& NounStress::D.spec_is_stem_stressed(info) == !sg
            &&& NounStress::E.spec_is_stem_stressed(info) == (sg || pl_nom)
            &&& NounStress::F.spec_is_stem_stressed(info) == pl_nom
            &&& NounStress::Bp.spec_is_stem_stressed(info) == (sg && info.case
                == Case::Instrumental)
            &&& NounStress::Dp.spec_is_stem_stressed(info) == (!sg || info.case
                == Case::Accusative)
            &&& NounStress::Fp.spec_is_stem_stressed(info) == ((sg && info.case
                == Case::Accusative) || pl_nom)
            &&& NounStress::Fpp.spec_is_stem_stressed(info) == ((sg && info.case
                == Case::Instrumental) || pl_nom)
            &&& PronounStress::F.spec_is_stem_stressed(info) == pl_nom
        }),
{
}

/// Where each short-form adjective and past-tense verb stress schema puts the stress
/// (`Some(true)` on the stem, `Some(false)` on the ending, `None` either): c stresses the
/// ending of the feminine singular and the stem elsewhere; a′ lets the feminine singular take
/// either and stresses the stem elsewhere; b′ stresses the ending of the neuter and feminine
/// singular and lets the plural take either; c′ of a short form stresses the ending of the
/// feminine singular, the stem of the masculine and neuter singular, and lets the plural take
/// either; c′ of the past tense stresses the ending of the feminine singular, lets the neuter
/// singular take either, and stresses the stem elsewhere; c″ stresses the stem of the
/// masculine singular and the ending of the feminine singular, and lets the rest take either.
pub proof fn law_short_and_past_stress_schemas(number: Number, gender: Gender)
    ensures
        ({
            let sg = number == Number::Singular;
            let fem = sg && gender == Gender::Feminine;
            let masc = sg && gender == Gender::Masculine;
            let neut = sg && gender == Gender::Neuter;
            &&& AdjectiveShortStress::C.spec_is_stem_stressed(number, gender) == Some(!fem)
            &&& AdjectiveShortStress::Ap.spec_is_stem_stressed(number, gender) == if fem {
                None
            } else {
                Some(true)
            }
            &&& AdjectiveShortStress::Bp.spec_is_stem_stressed(number, gender) == if !sg {
                None
            } else {
                Some(masc)
            }
            &&& AdjectiveShortStress::Cp.spec_is_stem_stressed(number, gender) == if !sg {
                None
            } else {
                Some(!fem)
            }
            &&& AdjectiveShortStress::Cpp.spec_is_stem_stressed(number, gender) == if masc {
                Some(true)
            } else if fem {
                Some(false)
            } else {
                None
            }
            &&& VerbPastStress::C.spec_is_stem_stressed(number, gender) == Some(!fem)
            &&& VerbPastStress::Cp.spec_is_stem_stressed(number, gender) == if neut {
                None
            } else {
                Some(!fem)
            }
            &&& VerbPastStress::Cpp.spec_is_stem_stressed(number, gender) == if masc {
                Some(true)
            } else if fem {
                Some(false)
            } else {
                None
            }
        }),
{
}

/// Where each present-tense verb stress schema puts the stress: c stresses the ending of the
/// first person singular only, and c′ the stem of the second and third person singular only.
pub proof fn law_present_stress_schemas(number: Number, person: Person)
    ensures
        VerbPresentStress::C.spec_is_stem_stressed(number, person) == !(number == Number::Singular
            && person == Person::First),
        VerbPresentStress::Cp.spec_is_stem_stressed(number, person) == (number
            == Number::Singular && person != Person::First),
{
}

} // verus!
