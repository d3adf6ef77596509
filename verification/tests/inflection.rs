use lib::adjective::{Adjective, AdjectiveFlags, AdjectiveInfo, AdjectiveKind};
use lib::categories::{Animacy, Case, DeclInfo, Gender, Number};
use lib::declension::{
    AdjectiveDeclension, AdjectiveStemType, Declension, DeclensionFlags, NounDeclension,
    NounStemType, PronounDeclension, PronounStemType,
};
use lib::inflection::{InflectionBuf, StressPos};
use lib::letter::Utf8Letter;
use lib::pronoun::{Pronoun, PronounInfo};
use lib::stress::{AdjectiveFullStress, AdjectiveShortStress, AdjectiveStress, NounStress, PronounStress};
use lib::vowel_alternation::{AReplace, BOperation, VowelAlternation};
use lib::word::WordBuf;

fn letters(s: &str) -> Vec<Utf8Letter> {
    s.chars().map(|c| Utf8Letter::from_char(c).unwrap()).collect()
}

fn text(ls: &[Utf8Letter]) -> String {
    ls.iter().map(|l| l.to_char()).collect()
}

fn stem(s: &str) -> WordBuf {
    let ls = letters(s);
    let n = ls.len();
    WordBuf::new(ls, n, 0)
}

fn star() -> DeclensionFlags {
    DeclensionFlags { star: true, ..DeclensionFlags::empty() }
}

fn adjective(s: &str, stem_type: AdjectiveStemType, full: AdjectiveFullStress, short: AdjectiveShortStress, flags: DeclensionFlags) -> Adjective {
    let info = AdjectiveInfo {
        kind: AdjectiveKind::Regular,
        flags: AdjectiveFlags::empty(),
        declension: Some(Declension::Adjective(AdjectiveDeclension {
            stem_type,
            stress: AdjectiveStress::new(full, short),
            flags,
        })),
    };
    Adjective::from_stem(stem(s), info)
}

fn info(case: Case, number: Number, gender: Gender, animacy: Animacy) -> DeclInfo {
    DeclInfo { case, number, gender, animacy }
}

const CASES: [Case; 6] = [
    Case::Nominative,
    Case::Genitive,
    Case::Dative,
    Case::Accusative,
    Case::Instrumental,
    Case::Prepositional,
];

fn full_forms(adj: &Adjective, number: Number, gender: Gender) -> String {
    CASES
        .map(|case| adj.inflect(info(case, number, gender, Animacy::Inanimate)).as_str())
        .join(", ")
}

fn pronoun_forms(p: &Pronoun, number: Number, gender: Gender, animacy: Animacy) -> String {
    CASES
        .map(|case| p.inflect(info(case, number, gender, animacy)).as_str())
        .join(", ")
}

fn short_form(adj: &Adjective, number: Number, gender: Gender) -> Option<String> {
    adj.inflect_short(info(Case::Nominative, number, gender, Animacy::Inanimate), false)
        .map(|w| w.as_str())
}

#[test]
fn adjective_full_forms() {
    let adj = adjective("нов", AdjectiveStemType::Type1, AdjectiveFullStress::A, AdjectiveShortStress::A, DeclensionFlags::empty());
    assert_eq!(full_forms(&adj, Number::Singular, Gender::Masculine), "новый, нового, новому, новый, новым, новом");
    assert_eq!(full_forms(&adj, Number::Singular, Gender::Feminine), "новая, новой, новой, новую, новой, новой");
    assert_eq!(full_forms(&adj, Number::Singular, Gender::Neuter), "новое, нового, новому, новое, новым, новом");
    assert_eq!(full_forms(&adj, Number::Plural, Gender::Masculine), "новые, новых, новым, новые, новыми, новых");
    // The animate accusative takes the genitive's form.
    let acc_an = adj.inflect(info(Case::Accusative, Number::Singular, Gender::Masculine, Animacy::Animate));
    assert_eq!(acc_an.as_str(), "нового");

    let adj = adjective("тих", AdjectiveStemType::Type3, AdjectiveFullStress::A, AdjectiveShortStress::C, DeclensionFlags::empty());
    assert_eq!(full_forms(&adj, Number::Singular, Gender::Masculine), "тихий, тихого, тихому, тихий, тихим, тихом");
}

#[test]
fn adjective_short_forms() {
    let adj = adjective("нов", AdjectiveStemType::Type1, AdjectiveFullStress::A, AdjectiveShortStress::A, DeclensionFlags::empty());
    assert_eq!(short_form(&adj, Number::Singular, Gender::Masculine).as_deref(), Some("нов"));
    assert_eq!(short_form(&adj, Number::Singular, Gender::Feminine).as_deref(), Some("нова"));
    assert_eq!(short_form(&adj, Number::Singular, Gender::Neuter).as_deref(), Some("ново"));
    assert_eq!(short_form(&adj, Number::Plural, Gender::Masculine).as_deref(), Some("новы"));

    // Vowel alternation in the masculine short form
    let adj = adjective("крепк", AdjectiveStemType::Type3, AdjectiveFullStress::A, AdjectiveShortStress::C, star());
    assert_eq!(short_form(&adj, Number::Singular, Gender::Masculine).as_deref(), Some("крепок"));
    assert_eq!(short_form(&adj, Number::Singular, Gender::Feminine).as_deref(), Some("крепка"));
    let adj = adjective("спокойн", AdjectiveStemType::Type1, AdjectiveFullStress::A, AdjectiveShortStress::A, star());
    assert_eq!(short_form(&adj, Number::Singular, Gender::Masculine).as_deref(), Some("спокоен"));
    let adj = adjective("горьк", AdjectiveStemType::Type3, AdjectiveFullStress::A, AdjectiveShortStress::Cp, star());
    assert_eq!(short_form(&adj, Number::Singular, Gender::Masculine).as_deref(), Some("горек"));
    let adj = adjective("светл", AdjectiveStemType::Type1, AdjectiveFullStress::A, AdjectiveShortStress::Cp, star());
    assert_eq!(short_form(&adj, Number::Singular, Gender::Masculine).as_deref(), Some("светел"));

    // (1): the masculine short form drops the stem's last н
    let one = DeclensionFlags { circled_one: true, ..DeclensionFlags::empty() };
    let adj = adjective("длинн", AdjectiveStemType::Type1, AdjectiveFullStress::A, AdjectiveShortStress::A, one);
    assert_eq!(short_form(&adj, Number::Singular, Gender::Masculine).as_deref(), Some("длин"));
    assert_eq!(short_form(&adj, Number::Singular, Gender::Feminine).as_deref(), Some("длинна"));
}

#[test]
fn adjective_short_form_flags() {
    let decl = Declension::Adjective(AdjectiveDeclension {
        stem_type: AdjectiveStemType::Type1,
        stress: AdjectiveStress::new(AdjectiveFullStress::A, AdjectiveShortStress::A),
        flags: DeclensionFlags::empty(),
    });
    let nom_m = info(Case::Nominative, Number::Singular, Gender::Masculine, Animacy::Inanimate);

    // Pronoun-like adjectives have no short form.
    let pron = Adjective::from_stem(stem("нов"), AdjectiveInfo {
        kind: AdjectiveKind::Pronoun,
        flags: AdjectiveFlags::empty(),
        declension: Some(decl),
    });
    assert!(pron.inflect_short(nom_m, true).is_none());
    assert!(pron.inflect_comparative().is_none());

    // ✕: the short form is difficult, given only when forced.
    let cross = Adjective::from_stem(stem("нов"), AdjectiveInfo {
        kind: AdjectiveKind::Regular,
        flags: AdjectiveFlags { cross: true, ..AdjectiveFlags::empty() },
        declension: Some(decl),
    });
    assert!(cross.inflect_short(nom_m, false).is_none());
    assert_eq!(cross.inflect_short(nom_m, true).unwrap().as_str(), "нов");

    // ~: no comparative form.
    let no_comp = Adjective::from_stem(stem("нов"), AdjectiveInfo {
        kind: AdjectiveKind::Regular,
        flags: AdjectiveFlags { no_comparative_form: true, ..AdjectiveFlags::empty() },
        declension: Some(decl),
    });
    assert!(no_comp.inflect_comparative().is_none());

    // into-variants leave the destination as it is when there is no form.
    let mut dst = stem("старое");
    assert!(!no_comp.inflect_comparative_into(&mut dst));
    assert_eq!(dst.as_str(), "старое");
    let adj = adjective("нов", AdjectiveStemType::Type1, AdjectiveFullStress::A, AdjectiveShortStress::A, DeclensionFlags::empty());
    assert!(adj.inflect_comparative_into(&mut dst));
    assert_eq!(dst.as_str(), "новее");
}

#[test]
fn adjective_comparative() {
    let comparative = |s: &str, stem_type, full, short| {
        adjective(s, stem_type, full, short, DeclensionFlags::empty())
            .inflect_comparative()
            .unwrap()
            .as_str()
    };
    assert_eq!(comparative("нов", AdjectiveStemType::Type1, AdjectiveFullStress::A, AdjectiveShortStress::A), "новее");
    assert_eq!(comparative("тих", AdjectiveStemType::Type3, AdjectiveFullStress::A, AdjectiveShortStress::C), "тише");
    assert_eq!(comparative("крепк", AdjectiveStemType::Type3, AdjectiveFullStress::A, AdjectiveShortStress::C), "крепче");
    assert_eq!(comparative("дорог", AdjectiveStemType::Type3, AdjectiveFullStress::A, AdjectiveShortStress::C), "дороже");
    // An unstressed ё becomes е before the stressed ending.
    assert_eq!(comparative("весёл", AdjectiveStemType::Type1, AdjectiveFullStress::A, AdjectiveShortStress::Cp), "веселее");
}

#[test]
fn pronoun_declension() {
    let p = Pronoun::from_stem(stem("наш"), PronounInfo {
        declension: Some(Declension::Pronoun(PronounDeclension {
            stem_type: PronounStemType::Type4,
            stress: PronounStress::A,
            flags: DeclensionFlags::empty(),
        })),
    });
    assert_eq!(pronoun_forms(&p, Number::Singular, Gender::Masculine, Animacy::Inanimate), "наш, нашего, нашему, наш, нашим, нашем");
    assert_eq!(pronoun_forms(&p, Number::Singular, Gender::Feminine, Animacy::Inanimate), "наша, нашей, нашей, нашу, нашей, нашей");
    assert_eq!(pronoun_forms(&p, Number::Plural, Gender::Masculine, Animacy::Animate), "наши, наших, нашим, наших, нашими, наших");

    // An indeclinable pronoun keeps its stem.
    let p = Pronoun::from_stem(stem("их"), PronounInfo { declension: None });
    assert_eq!(p.inflect(info(Case::Dative, Number::Plural, Gender::Masculine, Animacy::Animate)).as_str(), "их");
}

fn alternate(word: &str, decl: NounDeclension, gender: Gender, di: DeclInfo, ending: &str) -> String {
    let ls = letters(word);
    let alt = VowelAlternation::prepare_noun(&ls, decl, gender).unwrap();
    let mut buf = InflectionBuf::new(&ls);
    buf.append_to_ending(&letters(ending));
    alt.apply(decl, di, &mut buf);
    text(buf.as_slice())
}

fn noun_decl(stem_type: NounStemType, stress: NounStress) -> NounDeclension {
    NounDeclension { stem_type, stress, flags: star() }
}

#[test]
fn vowel_alternation_prepare() {
    let m1b = noun_decl(NounStemType::Type1, NounStress::B);
    assert_eq!(VowelAlternation::prepare_noun(&letters("сон"), m1b, Gender::Masculine), Some(VowelAlternation::A(1, None)));
    let m5b = noun_decl(NounStemType::Type5, NounStress::B);
    assert_eq!(VowelAlternation::prepare_noun(&letters("боец"), m5b, Gender::Masculine), Some(VowelAlternation::A(2, Some(AReplace::Iy))));
    let m5a = noun_decl(NounStemType::Type5, NounStress::A);
    assert_eq!(VowelAlternation::prepare_noun(&letters("палец"), m5a, Gender::Masculine), Some(VowelAlternation::A(3, Some(AReplace::SoftSign))));

    let f1a = noun_decl(NounStemType::Type1, NounStress::A);
    assert_eq!(VowelAlternation::prepare_noun(&letters("сестр"), f1a, Gender::Feminine), Some(VowelAlternation::B(BOperation::InsertYeOrYo)));
    let f3a = noun_decl(NounStemType::Type3, NounStress::A);
    assert_eq!(VowelAlternation::prepare_noun(&letters("кукл"), f3a, Gender::Feminine), Some(VowelAlternation::B(BOperation::InsertO)));
    let n5a = noun_decl(NounStemType::Type5, NounStress::A);
    assert_eq!(VowelAlternation::prepare_noun(&letters("кольц"), n5a, Gender::Neuter), Some(VowelAlternation::B(BOperation::ReplacePreLastWithYe)));
    // Stem type 2 with stress b has no alternation.
    let f2b = noun_decl(NounStemType::Type2, NounStress::B);
    assert_eq!(VowelAlternation::prepare_noun(&letters("земл"), f2b, Gender::Feminine), None);
}

#[test]
fn vowel_alternation_apply() {
    let gen_sg = info(Case::Genitive, Number::Singular, Gender::Masculine, Animacy::Inanimate);
    let nom_sg = info(Case::Nominative, Number::Singular, Gender::Masculine, Animacy::Inanimate);
    let m1b = noun_decl(NounStemType::Type1, NounStress::B);
    assert_eq!(alternate("сон", m1b, Gender::Masculine, gen_sg, "а"), "сна");
    assert_eq!(alternate("сон", m1b, Gender::Masculine, nom_sg, ""), "сон");
    let m5b = noun_decl(NounStemType::Type5, NounStress::B);
    assert_eq!(alternate("боец", m5b, Gender::Masculine, gen_sg, "а"), "бойца");
    let m5a = noun_decl(NounStemType::Type5, NounStress::A);
    assert_eq!(alternate("палец", m5a, Gender::Masculine, gen_sg, "а"), "пальца");

    let gen_pl = info(Case::Genitive, Number::Plural, Gender::Feminine, Animacy::Inanimate);
    let dat_pl = info(Case::Dative, Number::Plural, Gender::Feminine, Animacy::Inanimate);
    let f1a = noun_decl(NounStemType::Type1, NounStress::A);
    assert_eq!(alternate("сестр", f1a, Gender::Feminine, gen_pl, ""), "сестер");
    assert_eq!(alternate("сестр", f1a, Gender::Feminine, dat_pl, "ам"), "сестрам");
    let f3a = noun_decl(NounStemType::Type3, NounStress::A);
    assert_eq!(alternate("кукл", f3a, Gender::Feminine, gen_pl, ""), "кукол");
    let n5a = noun_decl(NounStemType::Type5, NounStress::A);
    assert_eq!(alternate("кольц", n5a, Gender::Neuter, gen_pl, ""), "колец");
}

#[test]
fn vowel_alternation_stress_and_no_op() {
    // With the ending stressed, type B inserts ё in place of е.
    let f1a = noun_decl(NounStemType::Type1, NounStress::A);
    let gen_pl = info(Case::Genitive, Number::Plural, Gender::Feminine, Animacy::Inanimate);
    let ls = letters("сестр");
    let alt = VowelAlternation::prepare_noun(&ls, f1a, Gender::Feminine).unwrap();
    let mut buf = InflectionBuf::new(&ls);
    assert!(buf.is_stem_stressed());
    buf.set_stress(StressPos::Ending);
    assert!(buf.is_ending_stressed());
    alt.apply(f1a, gen_pl, &mut buf);
    assert_eq!(text(buf.as_slice()), "сестёр");
    assert!(buf.is_ending_stressed());

    // Where an alternation does not act, the buffer stays as it is, whatever its positions.
    let nom_sg = info(Case::Nominative, Number::Singular, Gender::Masculine, Animacy::Inanimate);
    let m1b = noun_decl(NounStemType::Type1, NounStress::B);
    let mut buf = InflectionBuf::new(&letters("сон"));
    VowelAlternation::A(10, None).apply(m1b, nom_sg, &mut buf);
    assert_eq!(text(buf.as_slice()), "сон");
    let mut buf = InflectionBuf::new(&[]);
    VowelAlternation::B(BOperation::ReplacePreLastWithYe).apply(f1a, nom_sg, &mut buf);
    assert_eq!(buf.len(), 0);
}
