use lib::letter::Utf8Letter::{self, A, B, D, G, I, K, L, M, N, O, R, S, Sh, T, U, Ya, Ye, Yo, Zh};
use lib::word::{Display, ParseWordError, WordBuf};

fn word(letters: &[Utf8Letter], stem_len: usize, stress_at: usize) -> WordBuf {
    WordBuf::new(letters.to_vec(), stem_len, stress_at)
}

fn display(w: &WordBuf) -> String {
    w.to_string()
}

fn display_alt(w: &WordBuf) -> String {
    Display::default_display(w.borrow(), true).to_string()
}

fn debug(w: &WordBuf) -> String {
    Display::default_debug(w.borrow(), false).to_string()
}

fn debug_alt(w: &WordBuf) -> String {
    Display::default_debug(w.borrow(), true).to_string()
}

#[test]
fn display_fmt() {
    // Display indicates stress only if it can't be inferred automatically
    //   and uses the acute accent by default, without the ending separator.
    assert_eq!(display(&word(&[Ya, B, L, O, K, O], 5, 1)), "я́блоко");
    assert_eq!(display(&word(&[S, Ye, S, T, Yo, R], 6, 5)), "сестёр");
    assert_eq!(display(&word(&[R, O, D], 3, 2)), "род");

    // Debug always indicates stress (even on 'ё') and uses the acute accent by
    //   default, and also separates the non-empty ending from the stem with '-'.
    assert_eq!(debug(&word(&[Sh, Ye, S, T, Ye, R, N, Ya], 7, 8)), "шестерн-я́");
    assert_eq!(debug(&word(&[S, Ye, S, T, Yo, R], 6, 5)), "сестё́р");
    assert_eq!(debug(&word(&[R, O, D], 3, 2)), "ро́д");

    // Alternate formatting mode uses grave accent instead of acute.
    assert_eq!(display_alt(&word(&[G, R, U, Sh, A], 4, 3)), "гру̀ша");
    assert_eq!(debug_alt(&word(&[G, R, U, Sh, A], 4, 3)), "гру̀ш-а");

    // Letter 'ё' always receives stress, unless explicitly specified otherwise.
    // Debug always indicates stress, even on 'ё', for maximum clarity.
    assert_eq!(display(&word(&[S, Yo, R, A], 3, 4)), "сёра́");
    assert_eq!(debug(&word(&[S, Yo, R, A], 3, 4)), "сёр-а́");
}

#[test]
fn from_str() {
    // Explicit stress and explicit ending
    assert_eq!("я́блок-о".parse(), Ok(word(&[Ya, B, L, O, K, O], 5, 1)));
    assert_eq!("гру̀ш-а".parse(), Ok(word(&[G, R, U, Sh, A], 4, 3)));
    assert_eq!("шестерн-я'".parse(), Ok(word(&[Sh, Ye, S, T, Ye, R, N, Ya], 7, 8)));

    // Implicit stress on the only vowel
    assert_eq!("род".parse(), Ok(word(&[R, O, D], 3, 2)));
    assert_eq!("рж-и".parse(), Ok(word(&[R, Zh, I], 2, 3)));

    // Implicit and explicit stress, with 'ё' present
    assert_eq!("сестёр".parse(), Ok(word(&[S, Ye, S, T, Yo, R], 6, 5)));
    assert_eq!("сёр-а́".parse(), Ok(word(&[S, Yo, R, A], 3, 4)));
}

/// A word from its stem and ending, with the stress after the letter at `stress_pos`.
fn new(stem: &str, ending: &str, stress_pos: usize) -> WordBuf {
    let letters: Vec<Utf8Letter> =
        stem.chars().chain(ending.chars()).map(|c| Utf8Letter::from_char(c).unwrap()).collect();
    WordBuf::new(letters, stem.chars().count(), stress_pos + 1)
}

#[test]
fn word_buf_fmt() {
    assert_eq!(display(&new("яблок", "о", 0)), "я́блоко");
    assert_eq!(display_alt(&new("яблок", "о", 0)), "я̀блоко");
    assert_eq!(display(&new("груш", "а", 2)), "гру́ша");
    assert_eq!(display_alt(&new("груш", "а", 2)), "гру̀ша");
    assert_eq!(display(&new("шестерн", "я", 7)), "шестерня́");
    assert_eq!(display_alt(&new("шестерн", "я", 7)), "шестерня̀");

    assert_eq!(display(&new("род", "", 1)), "род");
    assert_eq!(display_alt(&new("род", "", 1)), "род");
    assert_eq!(display(&new("сестёр", "", 4)), "сестёр");
    assert_eq!(display_alt(&new("сестёр", "", 4)), "сестёр");
    assert_eq!(display(&new("сёр", "а", 3)), "сёра́");
    assert_eq!(display_alt(&new("сёр", "а", 3)), "сёра̀");
}

#[test]
fn word_parse_errors_and_parts() {
    assert_eq!("слов-о".parse::<WordBuf>(), Err(ParseWordError::NoStress));
    assert_eq!("слово!".parse::<WordBuf>(), Err(ParseWordError::NonCyrillic));
    assert_eq!("Слово".parse::<WordBuf>(), Err(ParseWordError::NonCyrillic));

    let buf: WordBuf = "сло́в-о".parse().unwrap();
    assert_eq!(buf.as_str(), "слово");
    assert_eq!(buf.stem(), "слов");
    assert_eq!(buf.ending(), "о");
    assert_eq!(display(&buf), "сло́во");
    assert_eq!(debug(&buf), "сло́в-о");

    let buf: WordBuf = "сло'в-о".parse().unwrap();
    assert_eq!(debug(&buf), "сло́в-о");
    let buf: WordBuf = "порт".parse().unwrap();
    assert_eq!(debug(&buf), "по́рт");
    let buf: WordBuf = "мёд-ом".parse().unwrap();
    assert_eq!(debug(&buf), "мё́д-ом");
    assert_eq!(buf.as_letters(), [M, Yo, D, O, M]);
    assert_eq!(buf.stem_letters(), [M, Yo, D]);
    assert_eq!(buf.ending_letters(), [O, M]);
    let buf: WordBuf = "сёра̀".parse().unwrap();
    assert_eq!(debug(&buf), "сёра́");

    // No known stress: the letters imply none, so the display marks the start of the word
    assert_eq!(display(&word(&[K, O, B, R, A], 5, 0)), "\u{301}кобра");
    assert_eq!(lib::word::find_implicit_insert_stress_pos(&[K, O, B, R, A]), None);
    assert_eq!(lib::word::find_implicit_insert_stress_pos(&[S, Ye, S, T, Yo, R]), Some(5));
}

#[test]
fn word_buf_capacity_and_inflect() {
    let mut w = WordBuf::with_capacity(8);
    assert!(w.is_empty());
    assert_eq!((w.get_stem_len(), w.get_stress_at()), (0, 0));
    let empty = WordBuf::with_capacity_for(&[R, O, D]);
    assert!(empty.is_empty());
    w.inflect(|| word(&[R, O, D, A], 3, 4));
    assert_eq!(w, word(&[R, O, D, A], 3, 4));
    assert_eq!(w.ending(), "а");
}

#[test]
fn implicit_accent_without_known_stress() {
    // With no stress known, the letters' implied stress differs from it, so the mark stands
    // at the start of the word.
    assert_eq!(display(&word(&[D, O, M], 3, 0)), "\u{301}дом");
    // The explicit mode marks no unknown stress.
    assert_eq!(debug(&word(&[D, O, M], 3, 0)), "дом");
}
