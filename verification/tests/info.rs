use lib::adjective::{AdjectiveFlags, AdjectiveInfo, AdjectiveKind};
use lib::categories::{Animacy, Gender, GenderEx, Number};
use lib::declension::{
    AdjectiveDeclension, AdjectiveStemType, Declension, DeclensionFlags, NounDeclension,
    NounStemType, PronounDeclension, PronounStemType,
};
use lib::noun::{NounInfo, ParseNounInfoError};
use lib::stress::{AdjectiveFullStress, AdjectiveShortStress, AdjectiveStress, NounStress, PronounStress};

fn flags(circle: bool, star: bool, one: bool, two: bool, three: bool, yo: bool) -> DeclensionFlags {
    DeclensionFlags {
        circle,
        star,
        circled_one: one,
        circled_two: two,
        circled_three: three,
        alternating_yo: yo,
    }
}

fn adj(full: AdjectiveFullStress, short: AdjectiveShortStress) -> AdjectiveStress {
    AdjectiveStress::new(full, short)
}

#[test]
fn fmt_fmt() {
    // Nouns: some uncomplicated nouns
    assert_eq!(
        NounInfo {
            gender: GenderEx::Feminine,
            declension_gender: Gender::Feminine,
            animacy: Animacy::Animate,
            tantum: None,
            declension: Some(Declension::Noun(NounDeclension {
                stem_type: NounStemType::Type4,
                stress: NounStress::B,
                flags: flags(false, true, false, true, false, false),
            })),
        }
        .to_string(),
        "жо 4*b②",
    );
    assert_eq!(
        NounInfo {
            gender: GenderEx::Neuter,
            declension_gender: Gender::Masculine,
            animacy: Animacy::Inanimate,
            tantum: None,
            declension: Some(Declension::Noun(NounDeclension {
                stem_type: NounStemType::Type6,
                stress: NounStress::Fp,
                flags: flags(true, false, true, false, false, false),
            })),
        }
        .to_string(),
        "с <м 6°f′①>",
    );

    // Common gender and tantums
    assert_eq!(
        NounInfo {
            gender: GenderEx::Common,
            declension_gender: Gender::Feminine,
            animacy: Animacy::Animate,
            tantum: None,
            declension: Some(Declension::Noun(NounDeclension {
                stem_type: NounStemType::Type2,
                stress: NounStress::C,
                flags: flags(false, true, false, false, false, true),
            })),
        }
        .to_string(),
        "мо-жо 2*c, ё",
    );
    assert_eq!(
        NounInfo {
            gender: GenderEx::Common,
            declension_gender: Gender::Neuter,
            animacy: Animacy::Animate,
            tantum: Some(Number::Singular),
            declension: Some(Declension::Noun(NounDeclension {
                stem_type: NounStemType::Type2,
                stress: NounStress::A,
                flags: DeclensionFlags::empty(),
            })),
        }
        .to_string(),
        "мо-жо <со 2a—>",
    );
    assert_eq!(
        NounInfo {
            gender: GenderEx::Masculine,
            declension_gender: Gender::Masculine,
            animacy: Animacy::Animate,
            tantum: Some(Number::Plural),
            declension: Some(Declension::Noun(NounDeclension {
                stem_type: NounStemType::Type3,
                stress: NounStress::A,
                flags: flags(false, true, false, false, false, false),
            })),
        }
        .to_string(),
        "мн. <мо 3*a>",
    );

    // Pluralia tantums, with animacy specified
    assert_eq!(
        NounInfo {
            gender: GenderEx::Neuter,
            declension_gender: Gender::Neuter,
            animacy: Animacy::Inanimate,
            tantum: Some(Number::Plural),
            declension: None,
        }
        .to_string(),
        "мн. неод. 0",
    );
    assert_eq!(
        NounInfo {
            gender: GenderEx::Neuter,
            declension_gender: Gender::Neuter,
            animacy: Animacy::Inanimate,
            tantum: Some(Number::Plural),
            declension: Some(Declension::Adjective(AdjectiveDeclension {
                stem_type: AdjectiveStemType::Type1,
                stress: adj(AdjectiveFullStress::B, AdjectiveShortStress::B),
                flags: DeclensionFlags::empty(),
            })),
        }
        .to_string(),
        "мн. неод. <п 1b>",
    );
}

#[test]
fn fmt() {
    // Adjectives: some simple adjectives
    assert_eq!(
        AdjectiveInfo {
            kind: AdjectiveKind::Regular,
            flags: AdjectiveFlags::empty(),
            declension: Some(Declension::Adjective(AdjectiveDeclension {
                stem_type: AdjectiveStemType::Type4,
                stress: adj(AdjectiveFullStress::A, AdjectiveShortStress::Cp),
                flags: flags(false, true, false, false, false, false),
            })),
        }
        .to_string(),
        "п 4*a/c′",
    );
    assert_eq!(
        AdjectiveInfo {
            kind: AdjectiveKind::Pronoun,
            flags: AdjectiveFlags::empty(),
            declension: Some(Declension::Pronoun(PronounDeclension {
                stem_type: PronounStemType::Type2,
                stress: PronounStress::B,
                flags: flags(false, true, false, false, false, false),
            })),
        }
        .to_string(),
        "мс-п 2*b",
    );

    // Adjectives with different declension
    assert_eq!(
        AdjectiveInfo {
            kind: AdjectiveKind::Numeral,
            flags: AdjectiveFlags::empty(),
            declension: Some(Declension::Adjective(AdjectiveDeclension {
                stem_type: AdjectiveStemType::Type1,
                stress: adj(AdjectiveFullStress::A, AdjectiveShortStress::A),
                flags: DeclensionFlags::empty(),
            })),
        }
        .to_string(),
        "числ.-п <п 1a>",
    );
    assert_eq!(
        AdjectiveInfo {
            kind: AdjectiveKind::Regular,
            flags: AdjectiveFlags::empty(),
            declension: Some(Declension::Pronoun(PronounDeclension {
                stem_type: PronounStemType::Type6,
                stress: PronounStress::F,
                flags: flags(false, true, false, false, false, false),
            })),
        }
        .to_string(),
        "п <мс 6*f>",
    );

    // Adjectives with flags
    assert_eq!(
        AdjectiveInfo {
            kind: AdjectiveKind::Regular,
            flags: AdjectiveFlags { minus: false, cross: true, no_comparative_form: true },
            declension: Some(Declension::Adjective(AdjectiveDeclension {
                stem_type: AdjectiveStemType::Type3,
                stress: adj(AdjectiveFullStress::A, AdjectiveShortStress::B),
                flags: DeclensionFlags::empty(),
            })),
        }
        .to_string(),
        "п 3a/b✕~",
    );
    assert_eq!(
        AdjectiveInfo {
            kind: AdjectiveKind::Regular,
            flags: AdjectiveFlags { minus: true, cross: true, no_comparative_form: false },
            declension: Some(Declension::Adjective(AdjectiveDeclension {
                stem_type: AdjectiveStemType::Type1,
                stress: adj(AdjectiveFullStress::B, AdjectiveShortStress::C),
                flags: DeclensionFlags::empty(),
            })),
        }
        .to_string(),
        "п 1b/c⌧",
    );
}

#[test]
fn parse() {
    // Some uncomplicated nouns
    assert_eq!(
        "мо 3b".parse(),
        Ok(NounInfo {
            gender: GenderEx::Masculine,
            declension_gender: Gender::Masculine,
            animacy: Animacy::Animate,
            tantum: None,
            declension: Some(Declension::Noun(NounDeclension {
                stem_type: NounStemType::Type3,
                stress: NounStress::B,
                flags: DeclensionFlags::empty(),
            })),
        }),
    );
    assert_eq!(
        "с 4a①—".parse(),
        Ok(NounInfo {
            gender: GenderEx::Neuter,
            declension_gender: Gender::Neuter,
            animacy: Animacy::Inanimate,
            tantum: Some(Number::Singular),
            declension: Some(Declension::Noun(NounDeclension {
                stem_type: NounStemType::Type4,
                stress: NounStress::A,
                flags: flags(false, false, true, false, false, false),
            })),
        }),
    );
    assert_eq!(
        "со <жо 6*f>".parse(),
        Ok(NounInfo {
            gender: GenderEx::Neuter,
            declension_gender: Gender::Feminine,
            animacy: Animacy::Animate,
            tantum: None,
            declension: Some(Declension::Noun(NounDeclension {
                stem_type: NounStemType::Type6,
                stress: NounStress::F,
                flags: flags(false, true, false, false, false, false),
            })),
        }),
    );

    // Common gender and plurale tantum
    assert_eq!(
        "мо-жо 5c①".parse(),
        Ok(NounInfo {
            gender: GenderEx::Common,
            declension_gender: Gender::Feminine,
            animacy: Animacy::Animate,
            tantum: None,
            declension: Some(Declension::Noun(NounDeclension {
                stem_type: NounStemType::Type5,
                stress: NounStress::C,
                flags: flags(false, false, true, false, false, false),
            })),
        }),
    );
    assert_eq!(
        "мн. <мо 4a>".parse(),
        Ok(NounInfo {
            gender: GenderEx::Masculine,
            declension_gender: Gender::Masculine,
            animacy: Animacy::Animate,
            tantum: Some(Number::Plural),
            declension: Some(Declension::Noun(NounDeclension {
                stem_type: NounStemType::Type4,
                stress: NounStress::A,
                flags: DeclensionFlags::empty(),
            })),
        }),
    );

    // Plurale tantum with animacy explicitly specified
    assert_eq!(
        "мн. одуш. 0".parse(),
        Ok(NounInfo {
            gender: GenderEx::Masculine,
            declension_gender: Gender::Masculine,
            animacy: Animacy::Animate,
            tantum: Some(Number::Plural),
            declension: None,
        }),
    );
    assert_eq!(
        "мн. неод. <п 4a>".parse(),
        Ok(NounInfo {
            gender: GenderEx::Masculine,
            declension_gender: Gender::Masculine,
            animacy: Animacy::Inanimate,
            tantum: Some(Number::Plural),
            declension: Some(Declension::Adjective(AdjectiveDeclension {
                stem_type: AdjectiveStemType::Type4,
                stress: adj(AdjectiveFullStress::A, AdjectiveShortStress::A),
                flags: DeclensionFlags::empty(),
            })),
        }),
    );

    assert_eq!("мн. 0".parse::<NounInfo>(), Err(ParseNounInfoError::NoAnimacy));
    assert_eq!("мн. <п 4a>".parse::<NounInfo>(), Err(ParseNounInfoError::NoAnimacy));

    // Adjective declension
    assert_eq!(
        "со <п 3b—>".parse(),
        Ok(NounInfo {
            gender: GenderEx::Neuter,
            declension_gender: Gender::Neuter,
            animacy: Animacy::Animate,
            tantum: Some(Number::Singular),
            declension: Some(Declension::Adjective(AdjectiveDeclension {
                stem_type: AdjectiveStemType::Type3,
                stress: adj(AdjectiveFullStress::B, AdjectiveShortStress::B),
                flags: DeclensionFlags::empty(),
            })),
        }),
    );
}

#[test]
fn parse_errors() {
    assert_eq!("x 1a".parse::<NounInfo>(), Err(ParseNounInfoError::InvalidGenderOrType));
    assert_eq!("м1a".parse::<NounInfo>(), Err(ParseNounInfoError::Invalid));
    assert_eq!("мо <ж 1a>".parse::<NounInfo>(), Err(ParseNounInfoError::InconsistentAnimacy));
    assert_eq!("мн. <мо 1a—>".parse::<NounInfo>(), Err(ParseNounInfoError::BothTantums));
    assert_eq!("мн 0".parse::<NounInfo>(), Err(ParseNounInfoError::Invalid));
    assert_eq!("м <ф 1a>".parse::<NounInfo>(), Err(ParseNounInfoError::InvalidGenderOrType));
    assert_eq!("м <м 1a".parse::<NounInfo>(), Err(ParseNounInfoError::Invalid));
    assert_eq!(
        "м 9a".parse::<NounInfo>(),
        Err(ParseNounInfoError::InvalidDeclension(lib::declension::ParseDeclensionError::InvalidStemType))
    );
    assert_eq!("м 1a!".parse::<NounInfo>(), Err(ParseNounInfoError::Invalid));
}

#[test]
fn plurale_tantum_gender_not_shown() {
    let info = |gender| NounInfo {
        gender,
        declension_gender: Gender::Masculine,
        animacy: Animacy::Animate,
        tantum: Some(Number::Plural),
        declension: Some(Declension::Noun(NounDeclension {
            stem_type: NounStemType::Type3,
            stress: NounStress::A,
            flags: flags(false, true, false, false, false, false),
        })),
    };
    assert_eq!(info(GenderEx::Feminine).to_string(), "мн. <мо 3*a>");
    assert_eq!(info(GenderEx::Common).to_string(), info(GenderEx::Masculine).to_string());
}
