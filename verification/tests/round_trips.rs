use lib::categories::{Animacy, Gender, GenderEx, Number};
use lib::declension::{
    AdjectiveDeclension, AdjectiveStemType, Declension, DeclensionFlags, NounDeclension,
    NounStemType, PronounDeclension, PronounStemType,
};
use lib::letter::Utf8Letter::{A, B, K, L, O, R, S, Sh, T, U, Ye, Yo};
use lib::noun::NounInfo;
use lib::stress::{AdjectiveFullStress, AdjectiveShortStress, AdjectiveStress, NounStress, PronounStress};
use lib::word::{Display, WordBuf};

fn all_flags() -> [DeclensionFlags; 4] {
    [
        DeclensionFlags::empty(),
        DeclensionFlags::all(),
        DeclensionFlags { star: true, circled_two: true, ..DeclensionFlags::empty() },
        DeclensionFlags { circle: true, circled_one: true, circled_three: true, alternating_yo: true, ..DeclensionFlags::empty() },
    ]
}

#[test]
fn flags_round_trip() {
    for f in all_flags() {
        assert_eq!(DeclensionFlags::parse_str(&f.to_string()), Ok(f));
    }
    assert_eq!(DeclensionFlags::all().to_string(), "°*①②③, ё");
}

#[test]
fn declension_round_trips() {
    for flags in all_flags() {
        let n = NounDeclension { stem_type: NounStemType::Type8, stress: NounStress::Fpp, flags };
        assert_eq!(NounDeclension::parse_str(&n.to_string()), Ok(n));
        assert_eq!(Declension::parse_str(&n.to_string()), Ok(Declension::Noun(n)));

        let p = PronounDeclension { stem_type: PronounStemType::Type6, stress: PronounStress::F, flags };
        assert_eq!(PronounDeclension::parse_str(&p.to_string()), Ok(p));
        let prefixed = format!("мс {}", p.to_string());
        assert_eq!(Declension::parse_str(&prefixed), Ok(Declension::Pronoun(p)));

        let a = AdjectiveDeclension {
            stem_type: AdjectiveStemType::Type3,
            stress: AdjectiveStress::new(AdjectiveFullStress::B, AdjectiveShortStress::Cpp),
            flags,
        };
        assert_eq!(AdjectiveDeclension::parse_str(&a.to_string()), Ok(a));
        let prefixed = format!("п {}", a.to_string());
        assert_eq!(Declension::parse_str(&prefixed), Ok(Declension::Adjective(a)));
    }
    // An abbreviated adjective stress parses back to the same stress.
    let a = AdjectiveDeclension {
        stem_type: AdjectiveStemType::Type1,
        stress: AdjectiveStress::new(AdjectiveFullStress::A, AdjectiveShortStress::A),
        flags: DeclensionFlags::empty(),
    };
    assert_eq!(a.to_string(), "1a");
    assert_eq!(AdjectiveDeclension::parse_str("1a"), Ok(a));
}

#[test]
fn stem_type_round_trips() {
    for t in [NounStemType::Type1, NounStemType::Type5, NounStemType::Type8] {
        assert_eq!(NounStemType::parse_str(&t.to_string()), Ok(t));
    }
    for t in [PronounStemType::Type2, PronounStemType::Type6] {
        assert_eq!(PronounStemType::parse_str(&t.to_string()), Ok(t));
    }
    for t in [AdjectiveStemType::Type4, AdjectiveStemType::Type6] {
        assert_eq!(AdjectiveStemType::parse_str(&t.to_string()), Ok(t));
    }
}

#[test]
fn noun_info_round_trips() {
    let noun = |stem_type, stress, flags| {
        Some(Declension::Noun(NounDeclension { stem_type, stress, flags }))
    };
    let infos = [
        NounInfo {
            declension: noun(NounStemType::Type4, NounStress::B, DeclensionFlags { star: true, ..DeclensionFlags::empty() }),
            declension_gender: Gender::Feminine,
            gender: GenderEx::Feminine,
            animacy: Animacy::Animate,
            tantum: None,
        },
        NounInfo {
            declension: noun(NounStemType::Type6, NounStress::Fp, DeclensionFlags { circled_one: true, ..DeclensionFlags::empty() }),
            declension_gender: Gender::Masculine,
            gender: GenderEx::Neuter,
            animacy: Animacy::Inanimate,
            tantum: Some(Number::Singular),
        },
        NounInfo {
            declension: noun(NounStemType::Type3, NounStress::A, DeclensionFlags::empty()),
            declension_gender: Gender::Masculine,
            gender: GenderEx::Masculine,
            animacy: Animacy::Animate,
            tantum: Some(Number::Plural),
        },
        NounInfo {
            declension: None,
            declension_gender: Gender::Masculine,
            gender: GenderEx::Masculine,
            animacy: Animacy::Inanimate,
            tantum: Some(Number::Plural),
        },
        NounInfo {
            declension: Some(Declension::Adjective(AdjectiveDeclension {
                stem_type: AdjectiveStemType::Type1,
                stress: AdjectiveStress::new(AdjectiveFullStress::B, AdjectiveShortStress::B),
                flags: DeclensionFlags::empty(),
            })),
            declension_gender: Gender::Feminine,
            gender: GenderEx::Common,
            animacy: Animacy::Animate,
            tantum: None,
        },
    ];
    for info in infos {
        let text = info.to_string();
        assert_eq!(text.parse::<NounInfo>(), Ok(info), "{}", text);
    }
}

fn debug(w: &WordBuf) -> String {
    Display::default_debug(w.borrow(), false).to_string()
}

#[test]
fn word_display_round_trips() {
    let words = [
        WordBuf::new(vec![S, Ye, S, T, Yo, R], 6, 5),
        WordBuf::new(vec![Sh, A, L, O, K, U], 5, 6),
        WordBuf::new(vec![B, O, R, O, K], 5, 2),
        WordBuf::new(vec![K, O, T], 3, 2),
    ];
    for w in words {
        let text = debug(&w);
        let back: WordBuf = text.parse().unwrap();
        assert_eq!(back, w, "{}", text);
    }
    assert_eq!(debug(&WordBuf::new(vec![Sh, A, L, O, K, U], 5, 6)), "шалок-у́");

    // Without a separator, the whole word parses back as the stem.
    let w = WordBuf::new(vec![Sh, A, L, O, K, U], 5, 6);
    let text = w.to_string();
    assert_eq!(text, "шалоку́");
    let back: WordBuf = text.parse().unwrap();
    assert_eq!(back, WordBuf::new(vec![Sh, A, L, O, K, U], 6, 6));
    // A stress that the letters imply is not marked, and is inferred back.
    let w = WordBuf::new(vec![K, O, T], 3, 2);
    assert_eq!(w.to_string(), "кот");
    assert_eq!(w.to_string().parse::<WordBuf>(), Ok(w));
}
