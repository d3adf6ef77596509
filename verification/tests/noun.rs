use lib::categories::{Case, CaseEx, Number};
use lib::declension::NounStemType;
use lib::letter::Utf8Letter;
use lib::noun::{Noun, NounInfo};
use lib::word::{Accent, Display, WordBuf, ACUTE};

/// The letters of a word, and the stress position that a combining acute accent (U+0301)
/// marks in it, or 0 where none does.
fn letters_and_stress(word: &str) -> (Vec<Utf8Letter>, usize) {
    let mut letters = Vec::new();
    let mut stress_at = 0;
    for c in word.chars() {
        if c == '\u{0301}' {
            stress_at = letters.len();
        } else {
            letters.push(Utf8Letter::from_char(c).unwrap());
        }
    }
    (letters, stress_at)
}

/// The text of a form, with its stress marked where it is known.
fn shown(w: &WordBuf) -> String {
    Display::new(w.borrow(), Accent::explicit(ACUTE), None).to_string()
}

fn decl(word: &str, info: &str) -> [String; 2] {
    let (letters, stress_at) = letters_and_stress(word);

    let stem = NounStemType::identify(&letters).unwrap().0.to_vec();
    let stem_len = stem.len();
    let stress_at = if stress_at <= stem_len { stress_at } else { 0 };
    let stem = WordBuf::new(stem, stem_len, stress_at);

    let info: NounInfo = info.parse().unwrap();
    let noun = Noun::from_stem(stem, info);

    let cases = [
        Case::Nominative,
        Case::Genitive,
        Case::Dative,
        Case::Accusative,
        Case::Instrumental,
        Case::Prepositional,
    ];
    [Number::Singular, Number::Plural].map(|number| {
        cases
            .map(|case| shown(&noun.inflect(CaseEx::from(case), number)))
            .join(", ")
    })
}

#[test]
fn simple_stem_types() {
    // Simple stem type 1
    assert_eq!(decl("топо́р", "м 1b"), [
        "топо́р, топора́, топору́, топо́р, топоро́м, топоре́",
        "топоры́, топоро́в, топора́м, топоры́, топора́ми, топора́х",
    ]);
    assert_eq!(decl("кобра", "жо 1a"), [
        "кобра, кобры, кобре, кобру, коброй, кобре",
        "кобры, кобр, кобрам, кобр, кобрами, кобрах",
    ]);
    assert_eq!(decl("олово", "с 1a"), [
        "олово, олова, олову, олово, оловом, олове",
        "олова, олов, оловам, олова, оловами, оловах",
    ]);

    // Simple stem type 2
    assert_eq!(decl("искатель", "мо 2a"), [
        "искатель, искателя, искателю, искателя, искателем, искателе",
        "искатели, искателей, искателям, искателей, искателями, искателях",
    ]);
    assert_eq!(decl("баня", "ж 2a"), [
        "баня, бани, бане, баню, баней, бане",
        "бани, бань, баням, бани, банями, банях",
    ]);
    assert_eq!(decl("поле", "с 2c"), [
        "поле, поля, полю, поле, полем, поле",
        "поля, полей, полям, поля, полями, полях",
    ]);

    // Simple stem type 3
    assert_eq!(decl("блинчик", "мо 3a"), [
        "блинчик, блинчика, блинчику, блинчика, блинчиком, блинчике",
        "блинчики, блинчиков, блинчикам, блинчиков, блинчиками, блинчиках",
    ]);
    assert_eq!(decl("коряга", "ж 3a"), [
        "коряга, коряги, коряге, корягу, корягой, коряге",
        "коряги, коряг, корягам, коряги, корягами, корягах",
    ]);
    assert_eq!(decl("войско", "с 3c"), [
        "войско, войска, войску, войско, войском, войске",
        "войска, войск, войскам, войска, войсками, войсках",
    ]);

    // Simple stem type 4
    assert_eq!(decl("калач", "м 4b"), [
        "калач, калача, калачу, калач, калачом, калаче",
        "калачи, калачей, калачам, калачи, калачами, калачах",
    ]);
    assert_eq!(decl("галоша", "ж 4a"), [
        "галоша, галоши, галоше, галошу, галошей, галоше",
        "галоши, галош, галошам, галоши, галошами, галошах",
    ]);
    assert_eq!(decl("жилище", "с 4a"), [
        "жилище, жилища, жилищу, жилище, жилищем, жилище",
        "жилища, жилищ, жилищам, жилища, жилищами, жилищах",
    ]);

    // Simple stem type 5
    assert_eq!(decl("кузнец", "мо 5b"), [
        "кузнец, кузнеца, кузнецу, кузнеца, кузнецом, кузнеце",
        "кузнецы, кузнецов, кузнецам, кузнецов, кузнецами, кузнецах",
    ]);
    assert_eq!(decl("девица", "жо 5a"), [
        "девица, девицы, девице, девицу, девицей, девице",
        "девицы, девиц, девицам, девиц, девицами, девицах",
    ]);
    assert_eq!(decl("лицо", "с 5d"), [
        "лицо, лица, лицу, лицо, лицом, лице",
        "лица, лиц, лицам, лица, лицами, лицах",
    ]);

    // Simple stem type 6
    assert_eq!(decl("бой", "м 6c"), [
        "бой, боя, бою, бой, боем, бое",
        "бои, боёв, боям, бои, боями, боях",
    ]);
    assert_eq!(decl("шея", "ж 6a"), [
        "шея, шеи, шее, шею, шеей, шее",
        "шеи, шей, шеям, шеи, шеями, шеях",
    ]);
    // All stem type 6 neuters have vowel alternations

    // Simple stem type 7
    assert_eq!(decl("полоний", "м 7a"), [
        "полоний, полония, полонию, полоний, полонием, полонии",
        "полонии, полониев, полониям, полонии, полониями, полониях",
    ]);
    assert_eq!(decl("магия", "ж 7a"), [
        "магия, магии, магии, магию, магией, магии",
        "магии, магий, магиям, магии, магиями, магиях",
    ]);
    assert_eq!(decl("сложение", "с 7a"), [
        "сложение, сложения, сложению, сложение, сложением, сложении",
        "сложения, сложений, сложениям, сложения, сложениями, сложениях",
    ]);

    // Simple stem type 8
    assert_eq!(decl("путь", "м 8b"), [
        "путь, пути, пути, путь, путём, пути",
        "пути, путей, путям, пути, путями, путях",
    ]);
    assert_eq!(decl("боль", "ж 8a"), [
        "боль, боли, боли, боль, болью, боли",
        "боли, болей, болям, боли, болями, болях",
    ]);
    assert_eq!(decl("брешь", "ж 8a"), [
        "брешь, бреши, бреши, брешь, брешью, бреши",
        "бреши, брешей, брешам, бреши, брешами, брешах",
    ]);
    // All stem type 8 neuters have unique stem alternations

    // assert_eq!(decl("", ""), [
    //     "",
    //     "",
    // ]);
}

#[test]
fn unique_alternation() {
    // -ин
    assert_eq!(decl("крестьянин", "мо 1°a"), [
        "крестьянин, крестьянина, крестьянину, крестьянина, крестьянином, крестьянине",
        "крестьяне, крестьян, крестьянам, крестьян, крестьянами, крестьянах",
    ]);
    assert_eq!(decl("марсианин", "мо 1°a"), [
        "марсианин, марсианина, марсианину, марсианина, марсианином, марсианине",
        "марсиане, марсиан, марсианам, марсиан, марсианами, марсианах",
    ]);
    assert_eq!(decl("боярин", "мо 1°a"), [
        "боярин, боярина, боярину, боярина, боярином, боярине",
        "бояре, бояр, боярам, бояр, боярами, боярах",
    ]);
    assert_eq!(decl("господин", "мо 1°c(1)"), [
        "господин, господина, господину, господина, господином, господине",
        "господа, господ, господам, господ, господами, господах",
    ]);

    // -[оё]нок
    assert_eq!(decl("ребёнок", "мо 3°a"), [
        "ребёнок, ребёнка, ребёнку, ребёнка, ребёнком, ребёнке",
        "ребята, ребят, ребятам, ребят, ребятами, ребятах",
    ]);
    assert_eq!(decl("зайчонок", "мо 3°a"), [
        "зайчонок, зайчонка, зайчонку, зайчонка, зайчонком, зайчонке",
        "зайчата, зайчат, зайчатам, зайчат, зайчатами, зайчатах",
    ]);

    // -ок
    assert_eq!(decl("щенок", "мо 3°d"), [
        "щенок, щенка, щенку, щенка, щенком, щенке",
        "щенята, щенят, щенятам, щенят, щенятами, щенятах",
    ]);
    assert_eq!(decl("внучок", "мо 3°b"), [
        "внучок, внучка, внучку, внучка, внучком, внучке",
        "внучата, внучат, внучатам, внучат, внучатами, внучатах",
    ]);

    // -[оё]ночек
    assert_eq!(decl("поросёночек", "мо 3°a"), [
        "поросёночек, поросёночка, поросёночку, поросёночка, поросёночком, поросёночке",
        "поросятки, поросяток, поросяткам, поросяток, поросятками, поросятках",
    ]);
    assert_eq!(decl("мышоночек", "мо 3°a"), [
        "мышоночек, мышоночка, мышоночку, мышоночка, мышоночком, мышоночке",
        "мышатки, мышаток, мышаткам, мышаток, мышатками, мышатках",
    ]);

    // -очек
    assert_eq!(decl("щеночек", "мо 3°d"), [
        "щеночек, щеночка, щеночку, щеночка, щеночком, щеночке",
        "щенятки, щеняток, щеняткам, щеняток, щенятками, щенятках",
    ]);
    assert_eq!(decl("внучочек", "мо 3°b"), [
        "внучочек, внучочка, внучочку, внучочка, внучочком, внучочке",
        "внучатки, внучаток, внучаткам, внучаток, внучатками, внучатках",
    ]);

    // -мя
    assert_eq!(decl("время", "с 8°c, ё"), [
        "время, времени, времени, время, временем, времени",
        "времена, времён, временам, времена, временами, временах",
    ]);
    assert_eq!(decl("имя", "с 8°c, ё"), [
        "имя, имени, имени, имя, именем, имени",
        "имена, имён, именам, имена, именами, именах",
    ]);

    // assert_eq!(decl("", ""), [
    //     "",
    //     "",
    // ]);
}

#[test]
fn vowel_alternation() {
    // Vowel alternation type A (masc any / fem 8*)
    assert_eq!(decl("сон", "м 1*b"), [
        "сон, сна, сну, сон, сном, сне",
        "сны, снов, снам, сны, снами, снах",
    ]);
    assert_eq!(decl("любовь", "ж 8*b'"), [
        "любовь, любви, любви, любовь, любовью, любви",
        "любви, любвей, любвям, любви, любвями, любвях",
    ]);
    assert_eq!(decl("ветвь", "ж 8e"), [
        "ветвь, ветви, ветви, ветвь, ветвью, ветви",
        "ветви, ветвей, ветвям, ветви, ветвями, ветвях",
    ]);
    assert_eq!(decl("боец", "мо 5*b"), [
        "боец, бойца, бойцу, бойца, бойцом, бойце",
        "бойцы, бойцов, бойцам, бойцов, бойцами, бойцах",
    ]);
    assert_eq!(decl("паёк", "м 3*b"), [
        "паёк, пайка, пайку, паёк, пайком, пайке",
        "пайки, пайков, пайкам, пайки, пайками, пайках",
    ]);
    assert_eq!(decl("улей", "м 6*a"), [
        "улей, улья, улью, улей, ульем, улье",
        "ульи, ульев, ульям, ульи, ульями, ульях",
    ]);
    assert_eq!(decl("зверёк", "мо 3*b"), [
        "зверёк, зверька, зверьку, зверька, зверьком, зверьке",
        "зверьки, зверьков, зверькам, зверьков, зверьками, зверьках",
    ]);
    assert_eq!(decl("лёд", "м 1*b"), [
        "лёд, льда, льду, лёд, льдом, льде",
        "льды, льдов, льдам, льды, льдами, льдах",
    ]);
    assert_eq!(decl("палец", "м 5*a"), [
        "палец, пальца, пальцу, палец, пальцем, пальце",
        "пальцы, пальцев, пальцам, пальцы, пальцами, пальцах",
    ]);
    assert_eq!(decl("орёл", "мо 1*b"), [
        "орёл, орла, орлу, орла, орлом, орле",
        "орлы, орлов, орлам, орлов, орлами, орлах",
    ]);
    assert_eq!(decl("кашель", "м 2*a"), [
        "кашель, кашля, кашлю, кашель, кашлем, кашле",
        "кашли, кашлей, кашлям, кашли, кашлями, кашлях",
    ]);
    assert_eq!(decl("конец", "м 5*b"), [
        "конец, конца, концу, конец, концом, конце",
        "концы, концов, концам, концы, концами, концах",
    ]);

    // Vowel alternation type B (neuter any / fem 1-7*)
    assert_eq!(decl("гостья", "жо 6*a"), [
        "гостья, гостьи, гостье, гостью, гостьей, гостье",
        "гостьи, гостий, гостьям, гостий, гостьями, гостьях",
    ]);
    assert_eq!(decl("ущелье", "с 6*a"), [
        "ущелье, ущелья, ущелью, ущелье, ущельем, ущелье",
        "ущелья, ущелий, ущельям, ущелья, ущельями, ущельях",
    ]);
    assert_eq!(decl("статья", "ж 6*b"), [
        "статья, статьи, статье, статью, статьёй, статье",
        "статьи, статей, статьям, статьи, статьями, статьях",
    ]);
    assert_eq!(decl("питьё", "с 6*b"), [
        "питьё, питья, питью, питьё, питьём, питье",
        "питья, питей, питьям, питья, питьями, питьях",
    ]);
    assert_eq!(decl("шпилька", "ж 3*a"), [
        "шпилька, шпильки, шпильке, шпильку, шпилькой, шпильке",
        "шпильки, шпилек, шпилькам, шпильки, шпильками, шпильках",
    ]);
    assert_eq!(decl("письмо", "с 1*d"), [
        "письмо, письма, письму, письмо, письмом, письме",
        "письма, писем, письмам, письма, письмами, письмах",
    ]);
    assert_eq!(decl("чайка", "жо 3*a"), [
        "чайка, чайки, чайке, чайку, чайкой, чайке",
        "чайки, чаек, чайкам, чаек, чайками, чайках",
    ]);
    assert_eq!(decl("серьга", "ж 3*f"), [
        "серьга, серьги, серьге, серьгу, серьгой, серьге",
        "серьги, серёг, серьгам, серьги, серьгами, серьгах",
    ]);
    assert_eq!(decl("кайма", "ж 1*b"), [
        "кайма, каймы, кайме, кайму, каймой, кайме",
        "каймы, каём, каймам, каймы, каймами, каймах",
    ]);
    assert_eq!(decl("кольцо", "с 5*d"), [
        // Note: Genitive Plural form has anomalous stress
        "кольцо, кольца, кольцу, кольцо, кольцом, кольце",
        "кольца, колец, кольцам, кольца, кольцами, кольцах",
    ]);
    assert_eq!(decl("кукла", "ж 1*a"), [
        "кукла, куклы, кукле, куклу, куклой, кукле",
        "куклы, кукол, куклам, куклы, куклами, куклах",
    ]);
    assert_eq!(decl("окно", "с 1*d"), [
        "окно, окна, окну, окно, окном, окне",
        "окна, окон, окнам, окна, окнами, окнах",
    ]);
    assert_eq!(decl("сказка", "ж 3*a"), [
        "сказка, сказки, сказке, сказку, сказкой, сказке",
        "сказки, сказок, сказкам, сказки, сказками, сказках",
    ]);
    assert_eq!(decl("сосна", "ж 1*d"), [
        "сосна, сосны, сосне, сосну, сосной, сосне",
        "сосны, сосен, соснам, сосны, соснами, соснах",
    ]);
    assert_eq!(decl("число", "с 1*d"), [
        "число, числа, числу, число, числом, числе",
        "числа, чисел, числам, числа, числами, числах",
    ]);
    assert_eq!(decl("ножна", "ж 1*a"), [
        "ножна, ножны, ножне, ножну, ножной, ножне",
        "ножны, ножен, ножнам, ножны, ножнами, ножнах",
    ]);
    assert_eq!(decl("кишка", "ж 3*b"), [
        "кишка, кишки, кишке, кишку, кишкой, кишке",
        "кишки, кишок, кишкам, кишки, кишками, кишках",
    ]);
    assert_eq!(decl("овца", "жо 5*d"), [
        // Note: Genitive/Accusative Plural form has anomalous stress
        "овца, овцы, овце, овцу, овцой, овце",
        "овцы, овец, овцам, овец, овцами, овцах",
    ]);

    assert_eq!(decl("кошка", "жо 3*a"), [
        "кошка, кошки, кошке, кошку, кошкой, кошке",
        "кошки, кошек, кошкам, кошек, кошками, кошках",
    ]);
    assert_eq!(decl("платок", "м 3*b"), [
        "платок, платка, платку, платок, платком, платке",
        "платки, платков, платкам, платки, платками, платках",
    ]);
    assert_eq!(decl("сердце", "с 5*c"), [
        "сердце, сердца, сердцу, сердце, сердцем, сердце",
        "сердца, сердец, сердцам, сердца, сердцами, сердцах",
    ]);

    // Special case for feminine 2*a, ending with 'ня'
    assert_eq!(decl("башня", "ж 2*a"), [
        "башня, башни, башне, башню, башней, башне",
        "башни, башен, башням, башни, башнями, башнях",
    ]);
    assert_eq!(decl("пекарня", "ж 2*a"), [
        "пекарня, пекарни, пекарне, пекарню, пекарней, пекарне",
        "пекарни, пекарен, пекарням, пекарни, пекарнями, пекарнях",
    ]);

    // Exceptions 2*b, 2*f, and (2)
    assert_eq!(decl("лыжня", "ж 2*b"), [
        "лыжня, лыжни, лыжне, лыжню, лыжнёй, лыжне",
        "лыжни, лыжней, лыжням, лыжни, лыжнями, лыжнях",
    ]);
    assert_eq!(decl("сходня", "ж 2*a(2)"), [
        "сходня, сходни, сходне, сходню, сходней, сходне",
        "сходни, сходней, сходням, сходни, сходнями, сходнях",
    ]);
    assert_eq!(decl("платье", "с 6*a(2)"), [
        "платье, платья, платью, платье, платьем, платье",
        "платья, платьев, платьям, платья, платьями, платьях",
    ]);
    assert_eq!(decl("облачко", "с 3*c(2)"), [
        "облачко, облачка, облачку, облачко, облачком, облачке",
        "облачка, облачков, облачкам, облачка, облачками, облачках",
    ]);
    assert_eq!(decl("жальце", "с 5*a"), [
        "жальце, жальца, жальцу, жальце, жальцем, жальце",
        "жальца, жалец, жальцам, жальца, жальцами, жальцах",
    ]);
    assert_eq!(decl("жальце", "с 5*a(2)"), [
        "жальце, жальца, жальцу, жальце, жальцем, жальце",
        "жальца, жальцев, жальцам, жальца, жальцами, жальцах",
    ]);

    // assert_eq!(decl("", ""), [
    //     "",
    //     "",
    // ]);
}

#[test]
fn ye_yo_alternation() {
    // Alternation with ё in the stem
    assert_eq!(decl("ёж", "мо 4b, ё"), [
        "ёж, ежа, ежу, ежа, ежом, еже",
        "ежи, ежей, ежам, ежей, ежами, ежах",
    ]);
    assert_eq!(decl("делёж", "мо 4b, ё"), [
        "делёж, дележа, дележу, дележа, дележом, дележе",
        "дележи, дележей, дележам, дележей, дележами, дележах",
    ]);
    assert_eq!(decl("черёд", "м 1b, ё"), [
        "черёд, череда, череду, черёд, чередом, череде",
        "череды, чередов, чередам, череды, чередами, чередах",
    ]);
    assert_eq!(decl("шёлк", "м 3c(1), ё"), [
        "шёлк, шёлка, шёлку, шёлк, шёлком, шёлке",
        "шелка, шелков, шелкам, шелка, шелками, шелках",
    ]);
    assert_eq!(decl("жёлудь", "м 2e, ё"), [
        "жёлудь, жёлудя, жёлудю, жёлудь, жёлудем, жёлуде",
        "жёлуди, желудей, желудям, жёлуди, желудями, желудях",
    ]);
    assert_eq!(decl("щёлочь", "ж 8e, ё"), [
        "щёлочь, щёлочи, щёлочи, щёлочь, щёлочью, щёлочи",
        "щёлочи, щелочей, щелочам, щёлочи, щелочами, щелочах",
    ]);

    // Alternation without ё in the stem
    assert_eq!(decl("стега", "ж 3b, ё"), [
        "стега, стеги, стеге, стегу, стегой, стеге",
        "стеги, стёг, стегам, стеги, стегами, стегах",
    ]);
    assert_eq!(decl("середа", "ж 1f', ё"), [
        "середа, середы, середе, середу, середой, середе",
        "середы, серёд, середам, середы, середами, середах",
    ]);
    assert_eq!(decl("череда", "ж 1b, ё"), [
        "череда, череды, череде, череду, чередой, череде",
        "череды, черёд, чередам, череды, чередами, чередах",
    ]);
    assert_eq!(decl("село", "с 1d, ё"), [
        "село, села, селу, село, селом, селе",
        "сёла, сёл, сёлам, сёла, сёлами, сёлах",
    ]);
    assert_eq!(decl("веретено", "с 1d, ё"), [
        "веретено, веретена, веретену, веретено, веретеном, веретене",
        "веретёна, веретён, веретёнам, веретёна, веретёнами, веретёнах",
    ]);
    assert_eq!(decl("жена", "жо 1d, ё"), [
        "жена, жены, жене, жену, женой, жене",
        "жёны, жён, жёнам, жён, жёнами, жёнах",
    ]);
    assert_eq!(decl("слеза", "ж 1f, ё"), [
        "слеза, слезы, слезе, слезу, слезой, слезе",
        "слёзы, слёз, слезам, слёзы, слезами, слезах",
    ]);
    assert_eq!(decl("железа", "ж 1f, ё"), [
        "железа, железы, железе, железу, железой, железе",
        "железы, желёз, железам, железы, железами, железах",
    ]);

    // Alternation without ё in the stem, and also with alternating vowels
    assert_eq!(decl("стекло", "с 1*d, ё"), [
        "стекло, стекла, стеклу, стекло, стеклом, стекле",
        "стёкла, стёкол, стёклам, стёкла, стёклами, стёклах",
    ]);
    assert_eq!(decl("бронестекло", "с 1*d, ё"), [
        "бронестекло, бронестекла, бронестеклу, бронестекло, бронестеклом, бронестекле",
        "бронестёкла, бронестёкол, бронестёклам, бронестёкла, бронестёклами, бронестёклах",
    ]);
    assert_eq!(decl("метла", "ж 1*d, ё"), [
        "метла, метлы, метле, метлу, метлой, метле",
        "мётлы, мётел, мётлам, мётлы, мётлами, мётлах",
    ]);
    assert_eq!(decl("сестра", "жо 1*d, ё"), [
        // Note: Genitive Plural form is anomalous (сестёр), but we'll ignore that here
        "сестра, сестры, сестре, сестру, сестрой, сестре",
        "сёстры, сёстер, сёстрам, сёстер, сёстрами, сёстрах",
    ]);

    // assert_eq!(decl("", ""), [
    //     "",
    //     "",
    // ]);
}

#[test]
fn circled_digits() {
    // Circled one, ①
    assert_eq!(decl("жвало", "с 1a(1)"), [
        "жвало, жвала, жвалу, жвало, жвалом, жвале",
        "жвалы, жвал, жвалам, жвалы, жвалами, жвалах",
    ]);
    assert_eq!(decl("горлышко", "с 3*a(1)"), [
        "горлышко, горлышка, горлышку, горлышко, горлышком, горлышке",
        "горлышки, горлышек, горлышкам, горлышки, горлышками, горлышках",
    ]);
    assert_eq!(decl("ветер", "м 1*c(1)"), [
        "ветер, ветра, ветру, ветер, ветром, ветре",
        "ветра, ветров, ветрам, ветра, ветрами, ветрах",
    ]);
    assert_eq!(decl("край", "м 6c(1)"), [
        "край, края, краю, край, краем, крае",
        "края, краёв, краям, края, краями, краях",
    ]);

    // Circled two, ②
    assert_eq!(decl("облако", "с 3c(2)"), [
        "облако, облака, облаку, облако, облаком, облаке",
        "облака, облаков, облакам, облака, облаками, облаках",
    ]);
    assert_eq!(decl("оконце", "с 5*a(2)"), [
        "оконце, оконца, оконцу, оконце, оконцем, оконце",
        "оконца, оконцев, оконцам, оконца, оконцами, оконцах",
    ]);
    assert_eq!(decl("мясцо", "с 5*b(2)"), [
        "мясцо, мясца, мясцу, мясцо, мясцом, мясце",
        "мясца, мясцов, мясцам, мясца, мясцами, мясцах",
    ]);
    assert_eq!(decl("подполье", "с 6*a(2)"), [
        "подполье, подполья, подполью, подполье, подпольем, подполье",
        "подполья, подпольев, подпольям, подполья, подпольями, подпольях",
    ]);
    assert_eq!(decl("жнивьё", "с 6*b(2)"), [
        "жнивьё, жнивья, жнивью, жнивьё, жнивьём, жнивье",
        "жнивья, жнивьёв, жнивьям, жнивья, жнивьями, жнивьях",
    ]);
    assert_eq!(decl("байт", "м 1a(2)"), [
        "байт, байта, байту, байт, байтом, байте",
        "байты, байт, байтам, байты, байтами, байтах",
    ]);
    // Note: There are no masculine nouns with ②, of type 2/6/7/8?
    assert_eq!(decl("ноздря", "ж 2f(2)"), [
        "ноздря, ноздри, ноздре, ноздрю, ноздрёй, ноздре",
        "ноздри, ноздрей, ноздрям, ноздри, ноздрями, ноздрях",
    ]);

    // Circled one and two, ①②
    assert_eq!(decl("глаз", "м 1c(1)(2)"), [
        "глаз, глаза, глазу, глаз, глазом, глазе",
        "глаза, глаз, глазам, глаза, глазами, глазах",
    ]);
    assert_eq!(decl("очко", "с 3*b(1)(2)"), [
        "очко, очка, очку, очко, очком, очке",
        "очки, очков, очкам, очки, очками, очках",
    ]);

    // Circled three, ③
    assert_eq!(decl("чий", "м 7a(3)"), [
        "чий, чия, чию, чий, чием, чие",
        "чии, чиев, чиям, чии, чиями, чиях",
    ]);
    assert_eq!(decl("лия", "жо 7a(3)"), [
        "лия, лии, лие, лию, лией, лие",
        "лии, лий, лиям, лий, лиями, лиях",
    ]);

    // assert_eq!(decl("", ""), [
    //     "",
    //     "",
    // ]);
}

fn noun(word: &str, info: &str) -> Noun {
    let (letters, stress_at) = letters_and_stress(word);
    let stem = NounStemType::identify(&letters).unwrap().0.to_vec();
    let stem_len = stem.len();
    let stress_at = if stress_at <= stem_len { stress_at } else { 0 };
    Noun::from_stem(WordBuf::new(stem, stem_len, stress_at), info.parse().unwrap())
}

#[test]
fn secondary_cases_and_tantums() {
    let n = noun("сон", "м 1*b");
    let form = |case, number| shown(&n.inflect(case, number));
    assert_eq!(form(CaseEx::Partitive, Number::Singular), form(CaseEx::Genitive, Number::Singular));
    assert_eq!(form(CaseEx::Locative, Number::Singular), form(CaseEx::Prepositional, Number::Singular));
    assert_eq!(form(CaseEx::Translative, Number::Singular), form(CaseEx::Nominative, Number::Plural));
    assert_eq!(form(CaseEx::Genitive, Number::Singular), "сна");

    let n = noun("брюки", "мн. <ж 3a>");
    let form = |case, number| shown(&n.inflect(case, number));
    assert_eq!(form(CaseEx::Dative, Number::Singular), "брюкам");
    assert_eq!(form(CaseEx::Dative, Number::Singular), form(CaseEx::Dative, Number::Plural));
}
