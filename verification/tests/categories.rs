use lib::categories::{
    Animacy, Case, CaseError, CaseEx, DeclInfo, Gender, GenderError, GenderEx, Number, Person,
    Tense,
};

#[test]
fn abbreviations() {
    assert_eq!(CaseEx::Translative.abbr_upper(), "TRANSL");
    assert_eq!(CaseEx::Locative.abbr_lower(), "loc");
    assert_eq!(CaseEx::Instrumental.abbr_smcp(), "ɪɴꜱ");
    assert_eq!(Case::Prepositional.abbr_upper(), "PRP");
    assert_eq!(Case::Genitive.abbr_lower(), "gen");
    assert_eq!(GenderEx::Common.abbr_upper(), "MASC/FEM");
    assert_eq!(GenderEx::Common.abbr_smcp(), "ᴍᴀꜱᴄ/ꜰᴇᴍ");
    assert_eq!(Gender::Neuter.abbr_lower(), "neut");
    assert_eq!(Animacy::Inanimate.abbr_upper(), "INAN");
    assert_eq!(Animacy::Animate.abbr_smcp(), "ᴀɴ");
    assert_eq!(Number::Plural.abbr_lower(), "pl");
    assert_eq!(Number::Singular.abbr_smcp(), "ꜱɢ");
    assert_eq!(Tense::Past.abbr_upper(), "PST");
    assert_eq!(Tense::Present.abbr_smcp(), "ᴘʀꜱ");

    // The text of a value is its upper-case abbreviation.
    assert_eq!(CaseEx::Partitive.to_string(), "PRT");
    assert_eq!(Case::Dative.to_string(), "DAT");
    assert_eq!(GenderEx::Feminine.to_string(), "FEM");
    assert_eq!(Gender::Masculine.to_string(), "MASC");
    assert_eq!(Animacy::Animate.to_string(), "AN");
    assert_eq!(Number::Singular.to_string(), "SG");
    assert_eq!(Tense::Present.to_string(), "PRS");
    assert_eq!(Person::Third.to_string(), "3");
}

#[test]
fn person_digits() {
    assert_eq!(Person::First.to_digit(), 1);
    assert_eq!(Person::Second.to_digit(), 2);
    assert_eq!(Person::Third.to_digit(), 3);
    assert_eq!(Person::First.to_ascii_digit(), b'1');
    assert_eq!(Person::Second.to_ascii_digit(), b'2');
    assert_eq!(Person::Third.to_ascii_digit(), b'3');
}

#[test]
fn normalization_and_conversions() {
    assert_eq!(CaseEx::Partitive.normalize_with(Number::Singular), (Case::Genitive, Number::Singular));
    assert_eq!(CaseEx::Translative.normalize_with(Number::Singular), (Case::Nominative, Number::Plural));
    assert_eq!(CaseEx::Locative.normalize_with(Number::Plural), (Case::Prepositional, Number::Plural));
    assert_eq!(CaseEx::Dative.normalize_with(Number::Plural), (Case::Dative, Number::Plural));
    assert_eq!(GenderEx::Common.normalize(), Gender::Feminine);
    assert_eq!(GenderEx::Neuter.normalize(), Gender::Neuter);

    assert_eq!(CaseEx::from(Case::Accusative), CaseEx::Accusative);
    assert_eq!(Case::try_from(CaseEx::Instrumental), Ok(Case::Instrumental));
    assert_eq!(Case::try_from(CaseEx::Locative), Err(CaseError));
    assert_eq!(GenderEx::from(Gender::Feminine), GenderEx::Feminine);
    assert_eq!(Gender::try_from(GenderEx::Masculine), Ok(Gender::Masculine));
    assert_eq!(Gender::try_from(GenderEx::Common), Err(GenderError));
}

#[test]
fn accusative_rules() {
    assert_eq!(Case::Nominative.acc_is_gen(Animacy::Animate), Some(false));
    assert_eq!(Case::Genitive.acc_is_gen(Animacy::Inanimate), Some(true));
    assert_eq!(Case::Accusative.acc_is_gen(Animacy::Inanimate), Some(false));
    assert_eq!(Case::Accusative.acc_is_gen(Animacy::Animate), Some(true));
    assert_eq!(Case::Dative.acc_is_gen(Animacy::Animate), None);

    assert!(Case::Nominative.is_nom_or_acc_inan(Animacy::Animate));
    assert!(Case::Accusative.is_nom_or_acc_inan(Animacy::Inanimate));
    assert!(!Case::Accusative.is_nom_or_acc_inan(Animacy::Animate));
    assert!(Case::Genitive.is_gen_or_acc_an(Animacy::Inanimate));
    assert!(Case::Accusative.is_gen_or_acc_an(Animacy::Animate));
    assert!(!Case::Accusative.is_gen_or_acc_an(Animacy::Inanimate));

    assert_eq!(Animacy::Inanimate.acc_case(), Case::Nominative);
    assert_eq!(Animacy::Animate.acc_case(), Case::Genitive);
}

#[test]
fn decl_info_parse() {
    let info = |case, number, gender, animacy| DeclInfo { case, number, gender, animacy };
    assert_eq!(
        DeclInfo::parse_str(""),
        Ok(info(Case::Nominative, Number::Singular, Gender::Masculine, Animacy::Inanimate)),
    );
    assert_eq!(
        DeclInfo::parse_str("Р.п. мн.ч. ж.р. одуш."),
        Ok(info(Case::Genitive, Number::Plural, Gender::Feminine, Animacy::Animate)),
    );
    assert_eq!(
        DeclInfo::parse_str("неод. с Т ед."),
        Ok(info(Case::Instrumental, Number::Singular, Gender::Neuter, Animacy::Inanimate)),
    );
    assert_eq!(DeclInfo::parse_str("X"), Err(()));
}
