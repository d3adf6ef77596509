use lib::categories::{Animacy, Case, DeclInfo, Gender, Number};
use lib::declension::{
    AdjectiveDeclension, AdjectiveStemType, DeclensionFlags, NounDeclension, NounStemType,
    PronounDeclension, PronounStemType,
};
use lib::letter::{letters_as_bytes, letters_as_str, ByteLetter, Utf8Letter};
use lib::stress::{AdjectiveFullStress, AdjectiveShortStress, AdjectiveStress, NounStress, PronounStress};

fn text(ls: &[Utf8Letter]) -> String {
    letters_as_str(ls)
}

#[test]
fn letter_encodings() {
    assert_eq!(Utf8Letter::from_utf8([0xD0, 0xB0]), Some(Utf8Letter::A));
    assert_eq!(Utf8Letter::from_utf8([0xD1, 0x8F]), Some(Utf8Letter::Ya));
    assert_eq!(Utf8Letter::from_utf8([0xD1, 0x91]), Some(Utf8Letter::Yo));
    assert_eq!(Utf8Letter::from_utf8([0xD1, 0x90]), None);
    assert_eq!(Utf8Letter::from_utf8([0xD0, 0x90]), None);
    assert_eq!(Utf8Letter::from_char('щ'), Some(Utf8Letter::Shch));
    assert_eq!(Utf8Letter::from_char('Щ'), None);
    assert_eq!(Utf8Letter::from_char('w'), None);
    assert_eq!(Utf8Letter::Yo.to_utf8(), [0xD1, 0x91]);
    assert_eq!(Utf8Letter::Yo.as_str(), "ё");
    assert_eq!(Utf8Letter::HardSign.to_char(), 'ъ');
    assert_eq!(Utf8Letter::P.to_byte(), ByteLetter::P);

    assert_eq!(ByteLetter::from_utf8([0xD1, 0x80]), Some(ByteLetter::R));
    assert_eq!(ByteLetter::from_char('э'), Some(ByteLetter::E));
    assert_eq!(ByteLetter::Yu.to_utf8(), Utf8Letter::Yu);
    assert_eq!(ByteLetter::Yo.to_char(), 'ё');
    assert_eq!(ByteLetter::A.to_u8(), 0xB0);
    assert_eq!(ByteLetter::Yo.to_u8(), 0x91);

    let word = [Utf8Letter::Yo, Utf8Letter::Zh];
    assert_eq!(letters_as_bytes(&word), vec![0xD1, 0x91, 0xD0, 0xB6]);
    assert_eq!(text(&word), "ёж");
}

#[test]
fn letter_classes() {
    for c in "аеиоуыэюяё".chars() {
        let l = Utf8Letter::from_char(c).unwrap();
        assert!(l.is_vowel() && !l.is_consonant(), "{}", c);
    }
    for c in "бвгдзйклмнпрстфх".chars() {
        let l = Utf8Letter::from_char(c).unwrap();
        assert!(l.is_consonant() && l.is_non_sibilant_consonant() && !l.is_sibilant(), "{}", c);
    }
    for c in "жцчшщ".chars() {
        let l = Utf8Letter::from_char(c).unwrap();
        assert!(l.is_consonant() && l.is_sibilant() && l.is_sibilant_consonant(), "{}", c);
        assert_eq!(l.is_hissing(), c != 'ц');
        assert_eq!(l.is_hissing_consonant(), c != 'ц');
        assert_eq!(l.to_byte().is_hissing(), c != 'ц');
    }
    for c in "ъь".chars() {
        let l = Utf8Letter::from_char(c).unwrap();
        assert!(!l.is_vowel() && !l.is_consonant(), "{}", c);
    }
}

fn info(case: Case, number: Number, gender: Gender, animacy: Animacy) -> DeclInfo {
    DeclInfo { case, number, gender, animacy }
}

#[test]
fn endings() {
    let m1b = NounDeclension { stem_type: NounStemType::Type1, stress: NounStress::B, flags: DeclensionFlags::empty() };
    let gen_pl = info(Case::Genitive, Number::Plural, Gender::Masculine, Animacy::Inanimate);
    assert_eq!(text(&m1b.find_ending(gen_pl)), "ов");
    let ins_sg = info(Case::Instrumental, Number::Singular, Gender::Masculine, Animacy::Inanimate);
    assert_eq!(text(&m1b.find_ending(ins_sg)), "ом");
    // The animate accusative takes the genitive's ending.
    let acc_pl_an = info(Case::Accusative, Number::Plural, Gender::Masculine, Animacy::Animate);
    assert_eq!(text(&m1b.find_ending(acc_pl_an)), "ов");

    // Stem type 4 (hissing): stressed instrumental ом, unstressed ем.
    let m4a = NounDeclension { stem_type: NounStemType::Type4, stress: NounStress::A, flags: DeclensionFlags::empty() };
    let m4b = NounDeclension { stress: NounStress::B, ..m4a };
    assert_eq!(text(&m4a.find_ending(ins_sg)), "ем");
    assert_eq!(text(&m4b.find_ending(ins_sg)), "ом");

    let p4a = PronounDeclension { stem_type: PronounStemType::Type4, stress: PronounStress::A, flags: DeclensionFlags::empty() };
    let dat_sg = info(Case::Dative, Number::Singular, Gender::Masculine, Animacy::Inanimate);
    assert_eq!(text(&p4a.find_ending(dat_sg)), "ему");

    let a1a = AdjectiveDeclension {
        stem_type: AdjectiveStemType::Type1,
        stress: AdjectiveStress::new(AdjectiveFullStress::A, AdjectiveShortStress::A),
        flags: DeclensionFlags::empty(),
    };
    let a1b = AdjectiveDeclension {
        stress: AdjectiveStress::new(AdjectiveFullStress::B, AdjectiveShortStress::B),
        ..a1a
    };
    let nom_sg = info(Case::Nominative, Number::Singular, Gender::Masculine, Animacy::Inanimate);
    assert_eq!(text(&a1a.find_ending(nom_sg)), "ый");
    assert_eq!(text(&a1b.find_ending(nom_sg)), "ой");
    let fem = info(Case::Nominative, Number::Singular, Gender::Feminine, Animacy::Inanimate);
    assert_eq!(text(&a1a.find_ending_short(fem)), "а");
    assert_eq!(text(&a1a.find_ending_short(nom_sg)), "");
}
