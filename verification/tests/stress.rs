use lib::stress::{
    AdjectiveFullStress, AdjectiveShortStress, AdjectiveStress, AnyDualStress, AnyStress,
    NounStress, ParseStressError, PronounStress, VerbPastStress, VerbPresentStress, VerbStress,
};
use AdjectiveFullStress as F;
use AdjectiveShortStress as S;
use ParseStressError as Error;
use VerbPastStress as Pa;
use VerbPresentStress as Pr;

fn adj(full: AdjectiveFullStress, short: AdjectiveShortStress) -> AdjectiveStress {
    AdjectiveStress::new(full, short)
}

fn verb(present: VerbPresentStress, past: VerbPastStress) -> VerbStress {
    VerbStress::new(present, past)
}

#[test]
fn fmt_any() {
    assert_eq!(AnyStress::A.to_string(), "a");
    assert_eq!(AnyStress::B.to_string(), "b");
    assert_eq!(AnyStress::C.to_string(), "c");
    assert_eq!(AnyStress::D.to_string(), "d");
    assert_eq!(AnyStress::E.to_string(), "e");
    assert_eq!(AnyStress::F.to_string(), "f");
    assert_eq!(AnyStress::Ap.to_string(), "a′");
    assert_eq!(AnyStress::Bp.to_string(), "b′");
    assert_eq!(AnyStress::Cp.to_string(), "c′");
    assert_eq!(AnyStress::Dp.to_string(), "d′");
    assert_eq!(AnyStress::Ep.to_string(), "e′");
    assert_eq!(AnyStress::Fp.to_string(), "f′");
    assert_eq!(AnyStress::Cpp.to_string(), "c″");
    assert_eq!(AnyStress::Fpp.to_string(), "f″");
}

#[test]
fn fmt_dual() {

    assert_eq!(AnyDualStress::new(AnyStress::A, None).to_string(), "a");
    assert_eq!(AnyDualStress::new(AnyStress::F, None).to_string(), "f");
    assert_eq!(AnyDualStress::new(AnyStress::Bp, None).to_string(), "b′");
    assert_eq!(AnyDualStress::new(AnyStress::Ep, None).to_string(), "e′");
    assert_eq!(AnyDualStress::new(AnyStress::Cpp, None).to_string(), "c″");
    assert_eq!(AnyDualStress::new(AnyStress::Fpp, None).to_string(), "f″");
    assert_eq!(AnyDualStress::new(AnyStress::A, Some(AnyStress::A)).to_string(), "a/a");
    assert_eq!(AnyDualStress::new(AnyStress::A, Some(AnyStress::Fp)).to_string(), "a/f′");
    assert_eq!(AnyDualStress::new(AnyStress::Cp, Some(AnyStress::E)).to_string(), "c′/e");
    assert_eq!(AnyDualStress::new(AnyStress::Fpp, Some(AnyStress::Cpp)).to_string(), "f″/c″");
}

#[test]
fn fmt_adj() {

    assert_eq!(adj(F::A, S::A).to_string(), "a");
    assert_eq!(adj(F::B, S::B).to_string(), "b");
    assert_eq!(adj(F::A, S::Ap).to_string(), "a′");
    assert_eq!(adj(F::B, S::Bp).to_string(), "b′");
    assert_eq!(adj(F::B, S::A).to_string(), "b/a");
    assert_eq!(adj(F::A, S::Cp).to_string(), "a/c′");
    assert_eq!(adj(F::B, S::Cpp).to_string(), "b/c″");
}

#[test]
fn fmt_verb() {

    assert_eq!(verb(Pr::A, Pa::A).to_string(), "a");
    assert_eq!(verb(Pr::B, Pa::A).to_string(), "b");
    assert_eq!(verb(Pr::C, Pa::A).to_string(), "c");
    assert_eq!(verb(Pr::A, Pa::C).to_string(), "a/c");
    assert_eq!(verb(Pr::B, Pa::B).to_string(), "b/b");
    assert_eq!(verb(Pr::C, Pa::Cpp).to_string(), "c/c″");
    assert_eq!(verb(Pr::Cp, Pa::C).to_string(), "c′/c");
}

#[test]
fn parse_any() {

    assert_eq!("a".parse::<AnyStress>(), Ok(AnyStress::A));
    assert_eq!("f".parse::<AnyStress>(), Ok(AnyStress::F));
    assert_eq!("e'".parse::<AnyStress>(), Ok(AnyStress::Ep));
    assert_eq!("c\"".parse::<AnyStress>(), Ok(AnyStress::Cpp));
    assert_eq!("a′".parse::<AnyStress>(), Ok(AnyStress::Ap));
    assert_eq!("c''".parse::<AnyStress>(), Ok(AnyStress::Cpp));
    assert_eq!("f″".parse::<AnyStress>(), Ok(AnyStress::Fpp));

    assert_eq!("".parse::<AnyStress>(), Err(Error::InvalidLetter));
    assert_eq!("/".parse::<AnyStress>(), Err(Error::InvalidLetter));
    assert_eq!("a/".parse::<AnyStress>(), Err(Error::Invalid));
    assert_eq!("/b".parse::<AnyStress>(), Err(Error::InvalidLetter));
    assert_eq!("a/b".parse::<AnyStress>(), Err(Error::Invalid));
    assert_eq!("z".parse::<AnyStress>(), Err(Error::InvalidLetter));
    assert_eq!("A".parse::<AnyStress>(), Err(Error::InvalidLetter));
    assert_eq!("ab".parse::<AnyStress>(), Err(Error::Invalid));
    assert_eq!("$a".parse::<AnyStress>(), Err(Error::InvalidLetter));
    assert_eq!("a$".parse::<AnyStress>(), Err(Error::Invalid));
}

#[test]
fn parse_dual() {

    assert_eq!("a".parse::<AnyDualStress>(), Ok(AnyStress::A.into()));
    assert_eq!("f".parse::<AnyDualStress>(), Ok(AnyStress::F.into()));
    assert_eq!("e'".parse::<AnyDualStress>(), Ok(AnyStress::Ep.into()));
    assert_eq!("c\"".parse::<AnyDualStress>(), Ok(AnyStress::Cpp.into()));
    assert_eq!("a/b".parse::<AnyDualStress>(), Ok((AnyStress::A, AnyStress::B).into()));
    assert_eq!("d'/b′".parse::<AnyDualStress>(), Ok((AnyStress::Dp, AnyStress::Bp).into()));
    assert_eq!("e′/c\"".parse::<AnyDualStress>(), Ok((AnyStress::Ep, AnyStress::Cpp).into()));
    assert_eq!("f″/e'".parse::<AnyDualStress>(), Ok((AnyStress::Fpp, AnyStress::Ep).into()));
    assert_eq!("e′/c''".parse::<AnyDualStress>(), Ok((AnyStress::Ep, AnyStress::Cpp).into()));

    assert_eq!("".parse::<AnyDualStress>(), Err(Error::InvalidLetter));
    assert_eq!("/".parse::<AnyDualStress>(), Err(Error::InvalidLetter));
    assert_eq!("a/".parse::<AnyDualStress>(), Err(Error::InvalidLetter));
    assert_eq!("/b".parse::<AnyDualStress>(), Err(Error::InvalidLetter));
    assert_eq!("z".parse::<AnyDualStress>(), Err(Error::InvalidLetter));
    assert_eq!("a/z".parse::<AnyDualStress>(), Err(Error::InvalidLetter));
    assert_eq!("AnyStress::A".parse::<AnyDualStress>(), Err(Error::InvalidLetter));
    assert_eq!("ab".parse::<AnyDualStress>(), Err(Error::Invalid));
    assert_eq!("$a/b".parse::<AnyDualStress>(), Err(Error::InvalidLetter));
    assert_eq!("a/b$".parse::<AnyDualStress>(), Err(Error::Invalid));
}

#[test]
fn stress_conversions_and_abbreviations() {
    // Same letters are converted to same values
    let x: AnyStress = NounStress::Bp.into();
    let y: AnyStress = AdjectiveShortStress::Bp.into();
    assert_eq!(x, y);

    // Adjective stress b abbreviates b/b, verb stress b abbreviates b/a
    let x: AnyDualStress = adj(AdjectiveFullStress::B, AdjectiveShortStress::B).into();
    let y: AnyDualStress = verb(VerbPresentStress::B, VerbPastStress::A).into();
    assert!(x != y);
    assert_eq!(
        adj(AdjectiveFullStress::B, AdjectiveShortStress::B).abbr(),
        verb(VerbPresentStress::B, VerbPastStress::A).abbr()
    );

    assert_eq!("a".parse::<NounStress>(), Ok(NounStress::A));
    assert_eq!("c".parse::<PronounStress>(), Err(ParseStressError::Incompatible));
    assert_eq!(
        "f\"/f''".parse::<AnyDualStress>(),
        Ok(AnyDualStress::new(AnyStress::Fpp, Some(AnyStress::Fpp)))
    );
    assert_eq!("f\"/f''".parse::<AnyDualStress>().unwrap().to_string(), "f″/f″");
    assert_eq!(
        "a′".parse::<AdjectiveStress>(),
        Ok(adj(AdjectiveFullStress::A, AdjectiveShortStress::Ap))
    );
    assert_eq!(
        "c".parse::<VerbStress>(),
        Ok(verb(VerbPresentStress::C, VerbPastStress::A))
    );
    assert_eq!("a/f".parse::<AdjectiveStress>(), Err(ParseStressError::Incompatible));
}

#[test]
fn stress_methods() {
    assert!(AnyStress::F.is_primary());
    assert!(!AnyStress::Ap.is_primary());
    assert!(AnyStress::Cpp.has_any_primes());
    assert!(AnyStress::Ap.has_single_prime());
    assert!(AnyStress::Cpp.has_double_prime());
    assert_eq!(AnyStress::Cpp.unprime(), AnyStress::C);
    assert_eq!(AnyStress::F.add_single_prime(), Some(AnyStress::Fp));
    assert_eq!(AnyStress::Ap.add_single_prime(), None);
    assert_eq!(AnyStress::A.add_double_prime(), None);
    assert_eq!(AnyStress::F.add_double_prime(), Some(AnyStress::Fpp));

    let x = AnyDualStress::new(AnyStress::Bp, None);
    assert_eq!(x.normalize_adj(), (AnyStress::B, AnyStress::Bp));
    assert_eq!(AnyDualStress::new(AnyStress::Dp, None).normalize_verb(), (AnyStress::Dp, AnyStress::A));
    assert_eq!(AnyDualStress::new(AnyStress::C, Some(AnyStress::Cpp)).try_abbr_adj(), Some(AnyStress::Cpp));
    assert_eq!(AnyDualStress::new(AnyStress::Bp, Some(AnyStress::C)).try_abbr_adj(), None);
    assert_eq!(AnyDualStress::new(AnyStress::Fpp, Some(AnyStress::A)).try_abbr_verb(), Some(AnyStress::Fpp));
    assert_eq!(
        AnyDualStress::new(AnyStress::D, Some(AnyStress::D)).abbr_adj(),
        AnyDualStress::new(AnyStress::D, None)
    );
    assert_eq!(
        adj(AdjectiveFullStress::A, AdjectiveShortStress::B).try_abbr(),
        None
    );
    assert_eq!(verb(VerbPresentStress::Cp, VerbPastStress::A).try_abbr(), Some(VerbPresentStress::Cp));
}

#[test]
fn named_schemas() {
    assert_eq!(AdjectiveStress::A_Cp(), adj(F::A, S::Cp));
    assert_eq!(AdjectiveStress::B(), adj(F::B, S::B));
    assert_eq!(AdjectiveStress::Ap(), adj(F::A, S::Ap));
    assert_eq!(AdjectiveStress::B_Cpp().to_string(), "b/c″");
    assert_eq!(VerbStress::B(), verb(Pr::B, Pa::A));
    assert_eq!(VerbStress::Cp_Cpp(), verb(Pr::Cp, Pa::Cpp));
    assert_eq!(VerbStress::C_B().to_string(), "c/b");
}
