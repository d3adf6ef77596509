use lib::declension::{
    AdjectiveDeclension, AdjectiveStemType, Declension, DeclensionFlags, NounDeclension,
    NounStemType, ParseDeclensionError, PronounDeclension, PronounStemType,
};
use lib::stress::{
    AdjectiveFullStress, AdjectiveShortStress, AdjectiveStress, NounStress, ParseStressError,
    PronounStress,
};
use AdjectiveFullStress as F;
use AdjectiveShortStress as S;
use ParseDeclensionError as Error;

struct DF;

impl DF {
    fn empty() -> DeclensionFlags {
        DeclensionFlags::empty()
    }
    fn all() -> DeclensionFlags {
        DeclensionFlags::all()
    }
    fn circle() -> DeclensionFlags {
        DeclensionFlags { circle: true, ..DeclensionFlags::empty() }
    }
    fn star() -> DeclensionFlags {
        DeclensionFlags { star: true, ..DeclensionFlags::empty() }
    }
    fn one() -> DeclensionFlags {
        DeclensionFlags { circled_one: true, ..DeclensionFlags::empty() }
    }
    fn two() -> DeclensionFlags {
        DeclensionFlags { circled_two: true, ..DeclensionFlags::empty() }
    }
    fn three() -> DeclensionFlags {
        DeclensionFlags { circled_three: true, ..DeclensionFlags::empty() }
    }
    fn yo() -> DeclensionFlags {
        DeclensionFlags { alternating_yo: true, ..DeclensionFlags::empty() }
    }
}

fn u(flags: &[DeclensionFlags]) -> DeclensionFlags {
    let mut r = DeclensionFlags::empty();
    for f in flags {
        r = r.union(*f);
    }
    r
}

fn adj(full: AdjectiveFullStress, short: AdjectiveShortStress) -> AdjectiveStress {
    AdjectiveStress::new(full, short)
}

#[test]
fn fmt_flags() {
    assert_eq!(DF::empty().to_string(), "");
    assert_eq!(DF::star().to_string(), "*");
    assert_eq!(DF::circle().to_string(), "°");
    assert_eq!(DF::one().to_string(), "①");
    assert_eq!(DF::two().to_string(), "②");
    assert_eq!(DF::three().to_string(), "③");
    assert_eq!(DF::yo().to_string(), ", ё");
    assert_eq!(u(&[DF::circle(), DF::star()]).to_string(), "°*");
    assert_eq!(u(&[DF::circle(), DF::one(), DF::yo()]).to_string(), "°①, ё");
    assert_eq!(DF::all().to_string(), "°*①②③, ё");
}

#[test]
fn fmt_noun() {

    let assert_fmt = |stem_type, stress, flags, expected: &str| {
        assert_eq!(NounDeclension { stem_type, stress, flags }.to_string(), expected);
    };

    assert_fmt(NounStemType::Type1, NounStress::A, DF::empty(), "1a");
    assert_fmt(NounStemType::Type2, NounStress::Bp, DF::empty(), "2b′");
    assert_fmt(NounStemType::Type3, NounStress::F, DF::circle(), "3°f");
    assert_fmt(NounStemType::Type4, NounStress::Fp, DF::star(), "4*f′");
    assert_fmt(NounStemType::Type5, NounStress::Fpp, u(&[DF::circle(), DF::star()]), "5°*f″");
    assert_fmt(NounStemType::Type6, NounStress::C, u(&[DF::star(), DF::yo()]), "6*c, ё");
    assert_fmt(NounStemType::Type7, NounStress::Dp, u(&[DF::star(), DF::one(), DF::yo()]), "7*d′①, ё");
    assert_fmt(NounStemType::Type8, NounStress::E, u(&[DF::one(), DF::two(), DF::three()]), "8e①②③");
    assert_fmt(NounStemType::Type8, NounStress::Fpp, DF::all(), "8°*f″①②③, ё");
}

#[test]
fn fmt_pronoun() {

    let assert_fmt = |stem_type, stress, flags, expected: &str| {
        assert_eq!(PronounDeclension { stem_type, stress, flags }.to_string(), expected);
    };

    assert_fmt(PronounStemType::Type1, PronounStress::A, DF::empty(), "1a");
    assert_fmt(PronounStemType::Type2, PronounStress::B, DF::star(), "2*b");
    assert_fmt(PronounStemType::Type4, PronounStress::F, u(&[DF::star(), DF::one(), DF::two()]), "4*f①②");
    assert_fmt(PronounStemType::Type6, PronounStress::B, u(&[DF::circle(), DF::star(), DF::yo()]), "6°*b, ё");
    assert_fmt(PronounStemType::Type6, PronounStress::F, DF::all(), "6°*f①②③, ё");
}

#[test]
fn fmt_adjective() {

    let assert_fmt = |stem_type, stress, flags, expected: &str| {
        assert_eq!(AdjectiveDeclension { stem_type, stress, flags }.to_string(), expected);
    };

    assert_fmt(AdjectiveStemType::Type1, adj(F::A, S::A), DF::empty(), "1a");
    assert_fmt(AdjectiveStemType::Type2, adj(F::A, S::B), DF::empty(), "2a/b");
    assert_fmt(AdjectiveStemType::Type3, adj(F::B, S::B), DF::star(), "3*b");
    assert_fmt(AdjectiveStemType::Type4, adj(F::B, S::C), DF::circle(), "4°b/c");
    assert_fmt(AdjectiveStemType::Type5, adj(F::A, S::Ap), u(&[DF::one(), DF::three()]), "5a′①③");
    assert_fmt(AdjectiveStemType::Type6, adj(F::B, S::Cp), u(&[DF::circle(), DF::star(), DF::two()]), "6°*b/c′②");
    assert_fmt(AdjectiveStemType::Type1, adj(F::A, S::Cpp), u(&[DF::star(), DF::one()]), "1*a/c″①");
    assert_fmt(AdjectiveStemType::Type6, adj(F::B, S::Cpp), DF::all(), "6°*b/c″①②③, ё");
}

#[test]
fn parse_flags() {

    let assert_ok = |s: &str, flags| assert_eq!(s.parse(), Ok(flags));
    let assert_err = |s: &str, err| assert_eq!(s.parse::<DeclensionFlags>(), Err(err));

    assert_ok("", DF::empty());
    assert_ok("°", DF::circle());
    assert_ok("*", DF::star());
    assert_ok("(1)", DF::one());
    assert_ok("(1)②", u(&[DF::one(), DF::two()]));
    assert_ok("①(2)③", u(&[DF::one(), DF::two(), DF::three()]));
    assert_ok("°②(3)", u(&[DF::circle(), DF::two(), DF::three()]));
    assert_ok(", ё", DF::yo());
    assert_ok("°, ё", u(&[DF::circle(), DF::yo()]));
    assert_ok("°*①②③, ё", DF::all());
    assert_ok("°*(1)②(3), ё", DF::all());

    assert_err("(1)(1)", Error::InvalidFlags);
    assert_err("②②", Error::InvalidFlags);
    assert_err("(2)(1)", Error::InvalidFlags);
    assert_err("(3)(2)", Error::InvalidFlags);
    assert_err("(1)(2)(1)", Error::InvalidFlags);
    assert_err("①②(1)", Error::InvalidFlags);
}

#[test]
fn parse_noun() {

    let assert_ok = |s: &str, stem_type, stress, flags| {
        assert_eq!(s.parse(), Ok(NounDeclension { stem_type, stress, flags }))
    };
    let assert_err = |s: &str, err| assert_eq!(s.parse::<NounDeclension>(), Err(err));

    assert_ok("1b", NounStemType::Type1, NounStress::B, DF::empty());
    assert_ok("2a", NounStemType::Type2, NounStress::A, DF::empty());
    assert_ok("3°d′", NounStemType::Type3, NounStress::Dp, DF::circle());
    assert_ok("4*f", NounStemType::Type4, NounStress::F, DF::star());
    assert_ok("5f'(1)", NounStemType::Type5, NounStress::Fp, DF::one());
    assert_ok("6e②(3)", NounStemType::Type6, NounStress::E, u(&[DF::two(), DF::three()]));
    assert_ok("7f\"(2), ё", NounStemType::Type7, NounStress::Fpp, u(&[DF::two(), DF::yo()]));
    assert_ok("8°b′③", NounStemType::Type8, NounStress::Bp, u(&[DF::circle(), DF::three()]));
    assert_ok("8°*f″①(2)③, ё", NounStemType::Type8, NounStress::Fpp, DF::all());

    assert_err("", Error::InvalidStemType);
    assert_err("0", Error::InvalidStemType);
    assert_err("9", Error::InvalidStemType);
    assert_err("z", Error::InvalidStemType);
    assert_err("4", Error::InvalidStress(ParseStressError::InvalidLetter));
    assert_err("4z", Error::InvalidStress(ParseStressError::InvalidLetter));
    assert_err("42", Error::InvalidStress(ParseStressError::InvalidLetter));
    assert_err("4b″", Error::InvalidStress(ParseStressError::InvalidPrime));
    assert_err("4a′", Error::IncompatibleStress);
    assert_err("4a/a", Error::IncompatibleStress);
}

#[test]
fn parse_pronoun() {

    let assert_ok = |s: &str, stem_type, stress, flags| {
        assert_eq!(s.parse(), Ok(PronounDeclension { stem_type, stress, flags }))
    };
    let assert_err = |s: &str, err| assert_eq!(s.parse::<PronounDeclension>(), Err(err));

    assert_ok("1a", PronounStemType::Type1, PronounStress::A, DF::empty());
    assert_ok("2f(1)", PronounStemType::Type2, PronounStress::F, DF::one());
    assert_ok("4°*b", PronounStemType::Type4, PronounStress::B, u(&[DF::circle(), DF::star()]));
    assert_ok("6°*f①②(3), ё", PronounStemType::Type6, PronounStress::F, DF::all());

    assert_err("2c", Error::IncompatibleStress);
    assert_err("2a/a", Error::IncompatibleStress);
}

#[test]
fn parse_adjective() {

    let assert_ok = |s: &str, stem_type, stress, flags| {
        assert_eq!(s.parse(), Ok(AdjectiveDeclension { stem_type, stress, flags }))
    };
    let assert_err = |s: &str, err| assert_eq!(s.parse::<AdjectiveDeclension>(), Err(err));

    assert_ok("1b/b", AdjectiveStemType::Type1, adj(F::B, S::B), DF::empty());
    assert_ok("2°a", AdjectiveStemType::Type2, adj(F::A, S::A), DF::circle());
    assert_ok("3*b/a", AdjectiveStemType::Type3, adj(F::B, S::A), DF::star());
    assert_ok("4b(1)②", AdjectiveStemType::Type4, adj(F::B, S::B), u(&[DF::one(), DF::two()]));
    assert_ok("5b/c(1), ё", AdjectiveStemType::Type5, adj(F::B, S::C), u(&[DF::one(), DF::yo()]));
    assert_ok("6a/c′②", AdjectiveStemType::Type6, adj(F::A, S::Cp), DF::two());

    assert_err("2c", Error::IncompatibleStress);
    assert_err("2a/f", Error::IncompatibleStress);
}

#[test]
fn parse_declension() {
    let decl = Declension::Noun(NounDeclension {
        stem_type: NounStemType::Type3,
        stress: NounStress::Bp,
        flags: u(&[DF::circle(), DF::yo()]),
    });
    assert_eq!("3°b′, ё".parse(), Ok(decl));

    let decl = Declension::Pronoun(PronounDeclension {
        stem_type: PronounStemType::Type6,
        stress: PronounStress::F,
        flags: u(&[DF::star(), DF::one()]),
    });
    assert_eq!("мс 6*f(1)".parse(), Ok(decl));

    let decl = Declension::Adjective(AdjectiveDeclension {
        stem_type: AdjectiveStemType::Type4,
        stress: adj(AdjectiveFullStress::B, AdjectiveShortStress::Ap),
        flags: u(&[DF::star(), DF::two()]),
    });
    assert_eq!("п 4*b/a′(2)".parse(), Ok(decl));
}

#[test]
fn declension_mod_examples() {
    // 4b② parses from ASCII circled digits too, and formats with Unicode ones
    let x: NounDeclension = "4b(2)".parse().unwrap();
    let y: NounDeclension = "4b②".parse().unwrap();
    assert_eq!(x, y);
    assert_eq!(x.to_string(), "4b②");

    let x: AdjectiveDeclension = "2*a/c''".parse().unwrap();
    let y: AdjectiveDeclension = "2*a/c\"".parse().unwrap();
    assert_eq!(x, y);
    assert_eq!(x.to_string(), "2*a/c″");

    let decl: AdjectiveDeclension = "3*a/c''".parse().unwrap();
    assert_eq!(decl.stem_type, AdjectiveStemType::Type3);
    assert_eq!(decl.stress, adj(AdjectiveFullStress::A, AdjectiveShortStress::Cpp));
    assert_eq!(decl.flags, DF::star());

    // An adjective of stem type 7 does not exist
    assert_eq!(
        "7°*b/c''(1)(2)③, ё".parse::<AdjectiveDeclension>(),
        Err(ParseDeclensionError::IncompatibleStemType)
    );
    // "мс" without a space announces no pronoun
    assert_eq!("мс6a".parse::<Declension>(), Err(ParseDeclensionError::InvalidStemType));
}

#[test]
fn stem_types() {
    assert_eq!(NounStemType::from_digit(0), None);
    assert_eq!(NounStemType::from_digit(4), Some(NounStemType::Type4));
    assert_eq!(NounStemType::from_digit(9), None);
    assert_eq!(PronounStemType::from_ascii_digit(b'3'), None);
    assert_eq!(AdjectiveStemType::Type6.to_ascii_digit(), b'6');
    assert_eq!(NounStemType::Type4.to_digit(), 4);
    assert_eq!(AdjectiveStemType::Type3.to_string(), "3");
    assert_eq!("7".parse::<AdjectiveStemType>(), Err(lib::declension::ParseStemTypeError::IncompatibleDigit));
    assert_eq!("x".parse::<NounStemType>(), Err(lib::declension::ParseStemTypeError::Invalid));
    assert_eq!("5".parse::<NounStemType>(), Ok(NounStemType::Type5));
    assert_eq!("55".parse::<NounStemType>(), Err(lib::declension::ParseStemTypeError::Invalid));
}
