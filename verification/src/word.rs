//! Lowercase Russian words: letters, with the stem's length and the stress position.
//!
//! A word's stress position `stress_at` is the number of letters before the stress mark, so
//! that the stressed vowel is the letter at `stress_at - 1`; `0` means that no stress is known.

use crate::letter::{
    is_lowercase_russian_char, lemma_letters_chars, letters_as_str, letters_of_chars,
    letters_to_chars, Utf8Letter,
};
use crate::text::{push_char, str_chars};
use vstd::prelude::*;

verus! {

/// An owned word: its letters, the length of its stem, and its stress position.
#[derive(Debug, PartialEq, Eq, Hash)]
pub struct WordBuf {
    buf: Vec<Utf8Letter>,
    stem_len: usize,
    stress_at: usize,
}

/// A borrowed word: its letters, the length of its stem, and its stress position.
#[derive(Debug, Clone, Copy, PartialEq, Eq, Hash)]
pub struct Word<'a> {
    buf: &'a [Utf8Letter],
    stem_len: usize,
    stress_at: usize,
}

/// The stress position implied by a word's letters: just after its first `ё`, if it has one;
/// else just after its only vowel, if it has exactly one.
pub open spec fn spec_implicit_stress(word: Seq<Utf8Letter>) -> Option<int> {
    spec_implicit_stress_from(word, 0, None, false)
}

/// The implicit stress position, scanning from `i`: `one` is the position after the only vowel
/// seen so far, `many` whether more than one was seen.
pub open spec fn spec_implicit_stress_from(word: Seq<Utf8Letter>, i: int, one: Option<int>, many: bool) -> Option<int>
    decreases word.len() - i,
{
    if i < 0 || i >= word.len() {
        if many {
            None
        } else {
            one
        }
    } else if word[i] == Utf8Letter::Yo {
        Some(i + 1)
    } else if word[i].spec_is_vowel() {
        if one is None && !many {
            spec_implicit_stress_from(word, i + 1, Some(i + 1), false)
        } else {
            spec_implicit_stress_from(word, i + 1, None, true)
        }
    } else {
        spec_implicit_stress_from(word, i + 1, one, many)
    }
}

/// No `ё` stands in the word before `n`.
pub open spec fn spec_no_yo_before(word: Seq<Utf8Letter>, n: int) -> bool {
    forall|j: int| 0 <= j < n ==> word[j] != Utf8Letter::Yo
}

/// The word's only vowel stands at `k`.
pub open spec fn spec_only_vowel_at(word: Seq<Utf8Letter>, k: int) -> bool {
    &&& 0 <= k < word.len()
    &&& word[k].spec_is_vowel()
    &&& forall|j: int| 0 <= j < word.len() && j != k ==> !(#[trigger] word[j]).spec_is_vowel()
}

/// What the scan from `i` has seen of the letters before `i`: no `ё`; then no vowel (`one`
/// `None`, `many` false), exactly one (`one` the position after it), or at least two (`many`).
pub open spec fn spec_scan_state(word: Seq<Utf8Letter>, i: int, one: Option<int>, many: bool) -> bool {
    &&& 0 <= i <= word.len()
    &&& spec_no_yo_before(word, i)
    &&& (one is None && !many ==> forall|j: int| 0 <= j < i ==> !(#[trigger] word[j]).spec_is_vowel())
    &&& (one matches Some(p) ==> !many && 1 <= p <= i && word[p - 1].spec_is_vowel() && forall|j: int|
        0 <= j < i && j != p - 1 ==> !(#[trigger] word[j]).spec_is_vowel())
    &&& (many ==> one is None && exists|a: int, b: int|
        0 <= a < b < i && (#[trigger] word[a]).spec_is_vowel() && (#[trigger] word[b]).spec_is_vowel())
}

proof fn lemma_implicit_stress_scan(word: Seq<Utf8Letter>, i: int, one: Option<int>, many: bool)
    requires
        spec_scan_state(word, i, one, many),
    ensures
        forall|k: int|
            0 <= k < word.len() && word[k] == Utf8Letter::Yo && spec_no_yo_before(word, k)
                ==> spec_implicit_stress_from(word, i, one, many) == Some(k + 1),
        spec_no_yo_before(word, word.len() as int) ==> forall|k: int|
            spec_implicit_stress_from(word, i, one, many) == Some(k + 1) <==> #[trigger] spec_only_vowel_at(word, k),
        spec_implicit_stress_from(word, i, one, many) matches Some(p) ==> p >= 1,
    decreases word.len() - i,
{
    if i >= word.len() {
        if many {
            let (a, b) = choose|a: int, b: int|
                0 <= a < b < i && (#[trigger] word[a]).spec_is_vowel() && (#[trigger] word[b]).spec_is_vowel();
            assert forall|k: int| !spec_only_vowel_at(word, k) by {
                if spec_only_vowel_at(word, k) {
                    if a != k {
                        assert(!word[a].spec_is_vowel());
                    } else {
                        assert(!word[b].spec_is_vowel());
                    }
                }
            }
        } else if one is Some {
            let p = one.unwrap();
            assert forall|k: int| spec_implicit_stress_from(word, i, one, many) == Some(k + 1) <==> #[trigger] spec_only_vowel_at(word, k) by {
                if spec_only_vowel_at(word, k) && k != p - 1 {
                    assert(!word[p - 1].spec_is_vowel());
                }
            }
        } else {
            assert forall|k: int| !spec_only_vowel_at(word, k) by {
                if 0 <= k < word.len() {
                    assert(!word[k].spec_is_vowel());
                }
            }
        }
    } else if word[i] == Utf8Letter::Yo {
        assert forall|k: int|
            0 <= k < word.len() && word[k] == Utf8Letter::Yo && spec_no_yo_before(word, k) implies k == i by {
            if k > i {
                assert(word[i] != Utf8Letter::Yo);
            }
        }
    } else if word[i].spec_is_vowel() {
        if one is None && !many {
            assert(spec_scan_state(word, i + 1, Some(i + 1), false));
            lemma_implicit_stress_scan(word, i + 1, Some(i + 1), false);
        } else {
            let w = if many {
                choose|a: int, b: int|
                    0 <= a < b < i && (#[trigger] word[a]).spec_is_vowel() && (#[trigger] word[b]).spec_is_vowel()
            } else {
                (one.unwrap() - 1, i)
            };
            assert(0 <= w.0 < w.1 < i + 1 && word[w.0].spec_is_vowel() && word[w.1].spec_is_vowel());
            assert(spec_scan_state(word, i + 1, None, true));
            lemma_implicit_stress_scan(word, i + 1, None, true);
        }
        assert forall|k: int|
            0 <= k < word.len() && word[k] == Utf8Letter::Yo && spec_no_yo_before(word, k) implies k > i by {
            if k < i {
                assert(word[k] != Utf8Letter::Yo);
            }
        }
    } else {
        if many {
            let (a, b) = choose|a: int, b: int|
                0 <= a < b < i && (#[trigger] word[a]).spec_is_vowel() && (#[trigger] word[b]).spec_is_vowel();
            assert(0 <= a < b < i + 1 && word[a].spec_is_vowel() && word[b].spec_is_vowel());
        }
        assert(spec_scan_state(word, i + 1, one, many));
        lemma_implicit_stress_scan(word, i + 1, one, many);
        assert forall|k: int|
            0 <= k < word.len() && word[k] == Utf8Letter::Yo && spec_no_yo_before(word, k) implies k > i by {
            if k < i {
                assert(word[k] != Utf8Letter::Yo);
            }
        }
    }
}

/// The stress position implied by a word's letters is just after its first `ё`, if it has
/// one; else just after its only vowel, if it has exactly one; else there is none.
pub proof fn lemma_implicit_stress(word: Seq<Utf8Letter>)
    ensures
        forall|k: int|
            0 <= k < word.len() && word[k] == Utf8Letter::Yo && spec_no_yo_before(word, k)
                ==> spec_implicit_stress(word) == Some(k + 1),
        spec_no_yo_before(word, word.len() as int) ==> forall|k: int|
            spec_implicit_stress(word) == Some(k + 1) <==> #[trigger] spec_only_vowel_at(word, k),
        spec_implicit_stress(word) matches Some(p) ==> p >= 1,
{
    lemma_implicit_stress_scan(word, 0, None, false);
}

/// Returns the stress position implied by a word's letters: just after its first `ё`, if it
/// has one; else just after its only vowel, if it has exactly one; else `None`.
pub fn find_implicit_insert_stress_pos(word: &[Utf8Letter]) -> (r: Option<usize>)
    ensures
        r is Some <==> spec_implicit_stress(word@) is Some,
        r is Some ==> spec_implicit_stress(word@) == Some(r.unwrap() as int) && 0 < r.unwrap()
            <= word@.len(),
{
    let mut one: Option<usize> = None;
    let mut many = false;
    let mut i: usize = 0;
    while i < word.len()
        invariant
            i <= word.len(),
            spec_implicit_stress(word@) == spec_implicit_stress_from(
                word@,
                i as int,
                match one {
                    Some(p) => Some(p as int),
                    None => None,
                },
                many,
            ),
            one matches Some(p) ==> 0 < p <= i,
            many ==> one is None,
        decreases word.len() - i,
    {
        let l = word[i];
        if l == Utf8Letter::Yo {
            return Some(i + 1);
        } else if l.is_vowel() {
            if one.is_none() && !many {
                one = Some(i + 1);
            } else {
                one = None;
                many = true;
            }
        }
        i = i + 1;
    }
    if many {
        None
    } else {
        one
    }
}

impl WordBuf {
    #[verifier::type_invariant]
    spec fn inv(self) -> bool {
        self.stem_len <= self.buf.len() && self.stress_at <= self.buf.len()
    }

    /// The letters of the word.
    pub closed spec fn letters(self) -> Seq<Utf8Letter> {
        self.buf@
    }

    /// The length of the word's stem.
    pub closed spec fn stem_len(self) -> int {
        self.stem_len as int
    }

    /// The word's stress position: the number of letters before the stress mark, or 0.
    pub closed spec fn stress_at(self) -> int {
        self.stress_at as int
    }

    /// The word's stem letters and stress position are in range.
    pub open spec fn wf(self) -> bool {
        0 <= self.stem_len() <= self.letters().len() && 0 <= self.stress_at()
            <= self.letters().len()
    }

    /// Constructs a word from its letters, stem length and stress position (the number of
    /// letters before the stress mark, or 0 if no stress is known).
    pub fn new(letters: Vec<Utf8Letter>, stem_len: usize, stress_at: usize) -> (r: WordBuf)
        requires
            stem_len <= letters@.len(),
            stress_at <= letters@.len(),
        ensures
            r.letters() == letters@,
            r.stem_len() == stem_len,
            r.stress_at() == stress_at,
    {
        WordBuf { buf: letters, stem_len, stress_at }
    }

    /// Constructs an empty word, with room for `cap` letters.
    pub fn with_capacity(cap: usize) -> (r: WordBuf)
        ensures
            r.letters() == Seq::<Utf8Letter>::empty(),
            r.stem_len() == 0,
            r.stress_at() == 0,
    {
        WordBuf { buf: Vec::with_capacity(cap), stem_len: 0, stress_at: 0 }
    }

    /// Constructs an empty word, with room for the forms inflected from the stem: its letters,
    /// and the longest ending with an inserted vowel.
    pub fn with_capacity_for(stem: &[Utf8Letter]) -> (r: WordBuf)
        ensures
            r.letters() == Seq::<Utf8Letter>::empty(),
            r.stem_len() == 0,
            r.stress_at() == 0,
    {
        let cap = if stem.len() <= usize::MAX - 4 {
            stem.len() + 4
        } else {
            stem.len()
        };
        WordBuf::with_capacity(cap)
    }

    /// Replaces this word with the one that `f` inflects.
    pub fn inflect<F: FnOnce() -> WordBuf>(&mut self, f: F)
        requires
            call_requires(f, ()),
        ensures
            call_ensures(f, (), *final(self)),
    {
        *self = f();
    }

    /// Returns the length of the word's stem.
    pub fn get_stem_len(&self) -> (r: usize)
        ensures
            r == self.stem_len(),
            self.wf(),
    {
        proof {
            use_type_invariant(self);
        }
        self.stem_len
    }

    /// Returns the word's stress position: the number of letters before the stress mark, or 0
    /// if no stress is known.
    pub fn get_stress_at(&self) -> (r: usize)
        ensures
            r == self.stress_at(),
            self.wf(),
    {
        proof {
            use_type_invariant(self);
        }
        self.stress_at
    }

    /// Sets the length of the word's stem.
    pub(crate) fn set_stem_len(&mut self, stem_len: usize)
        requires
            stem_len <= old(self).letters().len(),
        ensures
            final(self).letters() == old(self).letters(),
            final(self).stem_len() == stem_len,
            final(self).stress_at() == old(self).stress_at(),
    {
        proof {
            use_type_invariant(&*self);
        }
        self.stem_len = stem_len;
    }

    /// Returns `true` if the word has no letters.
    pub fn is_empty(&self) -> (r: bool)
        ensures
            r == (self.letters().len() == 0),
    {
        self.buf.len() == 0
    }

    /// Returns the word's letters.
    pub fn as_letters(&self) -> (r: &[Utf8Letter])
        ensures
            r@ == self.letters(),
            self.wf(),
    {
        proof {
            use_type_invariant(self);
        }
        self.buf.as_slice()
    }

    /// Returns the stem's letters.
    pub fn stem_letters(&self) -> (r: &[Utf8Letter])
        ensures
            r@ == self.letters().take(self.stem_len()),
    {
        proof {
            use_type_invariant(self);
        }
        self.buf.as_slice().split_at(self.stem_len).0
    }

    /// Returns the ending's letters.
    pub fn ending_letters(&self) -> (r: &[Utf8Letter])
        ensures
            r@ == self.letters().skip(self.stem_len()),
    {
        proof {
            use_type_invariant(self);
        }
        let r = self.buf.as_slice().split_at(self.stem_len).1;
        assert(r@ =~= self.letters().skip(self.stem_len()));
        r
    }

    /// Returns the word's text, without stress marks.
    pub fn as_str(&self) -> (r: String)
        ensures
            r@ == letters_to_chars(self.letters()),
    {
        letters_as_str(self.buf.as_slice())
    }

    /// Returns the stem's text.
    pub fn stem(&self) -> (r: String)
        ensures
            r@ == letters_to_chars(self.letters().take(self.stem_len())),
    {
        letters_as_str(self.stem_letters())
    }

    /// Returns the ending's text.
    pub fn ending(&self) -> (r: String)
        ensures
            r@ == letters_to_chars(self.letters().skip(self.stem_len())),
    {
        letters_as_str(self.ending_letters())
    }

    /// Returns the word's text split at the stress: the letters up to the stressed one, and
    /// the letters after it.
    pub fn split_by_stress(&self) -> (r: (String, String))
        ensures
            r.0@ == letters_to_chars(self.letters().take(self.stress_at())),
            r.1@ == letters_to_chars(self.letters().skip(self.stress_at())),
    {
        self.borrow().split_by_stress()
    }

    /// Returns a borrowed view of this word.
    pub fn borrow(&self) -> (r: Word<'_>)
        ensures
            r.letters() == self.letters(),
            r.stem_len() == self.stem_len(),
            r.stress_at() == self.stress_at(),
    {
        proof {
            use_type_invariant(self);
        }
        Word { buf: self.buf.as_slice(), stem_len: self.stem_len, stress_at: self.stress_at }
    }

    /// Returns the word's text, without stress marks.
    pub fn into_string(self) -> (r: String)
        ensures
            r@ == letters_to_chars(self.letters()),
    {
        letters_as_str(self.buf.as_slice())
    }
}

impl Clone for WordBuf {
    fn clone(&self) -> (r: WordBuf)
        ensures
            r.letters() == self.letters(),
            r.stem_len() == self.stem_len(),
            r.stress_at() == self.stress_at(),
    {
        self.borrow().to_owned()
    }
}

impl<'a> Word<'a> {
    #[verifier::type_invariant]
    spec fn inv(self) -> bool {
        self.stem_len <= self.buf.len() && self.stress_at <= self.buf.len()
    }

    /// The letters of the word.
    pub closed spec fn letters(self) -> Seq<Utf8Letter> {
        self.buf@
    }

    /// The length of the word's stem.
    pub closed spec fn stem_len(self) -> int {
        self.stem_len as int
    }

    /// The word's stress position: the number of letters before the stress mark, or 0.
    pub closed spec fn stress_at(self) -> int {
        self.stress_at as int
    }

    /// The word's stem letters and stress position are in range.
    pub open spec fn wf(self) -> bool {
        0 <= self.stem_len() <= self.letters().len() && 0 <= self.stress_at()
            <= self.letters().len()
    }

    /// Constructs a borrowed word from its letters, stem length and stress position.
    pub fn new(buf: &'a [Utf8Letter], stem_len: usize, stress_at: usize) -> (r: Word<'a>)
        requires
            stem_len <= buf@.len(),
            stress_at <= buf@.len(),
        ensures
            r.letters() == buf@,
            r.stem_len() == stem_len,
            r.stress_at() == stress_at,
    {
        Word { buf, stem_len, stress_at }
    }

    /// Returns the length of the word's stem.
    pub fn get_stem_len(&self) -> (r: usize)
        ensures
            r == self.stem_len(),
            self.wf(),
    {
        proof {
            use_type_invariant(self);
        }
        self.stem_len
    }

    /// Returns the word's stress position: the number of letters before the stress mark, or 0
    /// if no stress is known.
    pub fn get_stress_at(&self) -> (r: usize)
        ensures
            r == self.stress_at(),
            self.wf(),
    {
        proof {
            use_type_invariant(self);
        }
        self.stress_at
    }

    /// Returns `true` if the word has no letters.
    pub fn is_empty(&self) -> (r: bool)
        ensures
            r == (self.letters().len() == 0),
    {
        self.buf.len() == 0
    }

    /// Returns the word's letters.
    pub fn as_letters(&self) -> (r: &'a [Utf8Letter])
        ensures
            r@ == self.letters(),
            self.wf(),
    {
        proof {
            use_type_invariant(self);
        }
        self.buf
    }

    /// Returns the stem's letters.
    pub fn stem_letters(&self) -> (r: &'a [Utf8Letter])
        ensures
            r@ == self.letters().take(self.stem_len()),
    {
        proof {
            use_type_invariant(self);
        }
        self.buf.split_at(self.stem_len).0
    }

    /// Returns the ending's letters.
    pub fn ending_letters(&self) -> (r: &'a [Utf8Letter])
        ensures
            r@ == self.letters().skip(self.stem_len()),
    {
        proof {
            use_type_invariant(self);
        }
        let r = self.buf.split_at(self.stem_len).1;
        assert(r@ =~= self.letters().skip(self.stem_len()));
        r
    }

    /// Returns the word's text, without stress marks.
    pub fn as_str(&self) -> (r: String)
        ensures
            r@ == letters_to_chars(self.letters()),
    {
        letters_as_str(self.buf)
    }

    /// Returns the stem's text.
    pub fn stem(&self) -> (r: String)
        ensures
            r@ == letters_to_chars(self.letters().take(self.stem_len())),
    {
        letters_as_str(self.stem_letters())
    }

    /// Returns the ending's text.
    pub fn ending(&self) -> (r: String)
        ensures
            r@ == letters_to_chars(self.letters().skip(self.stem_len())),
    {
        letters_as_str(self.ending_letters())
    }

    /// Returns the word's text split at the stress: the letters up to the stressed one, and
    /// the letters after it.
    pub fn split_by_stress(&self) -> (r: (String, String))
        ensures
            r.0@ == letters_to_chars(self.letters().take(self.stress_at())),
            r.1@ == letters_to_chars(self.letters().skip(self.stress_at())),
    {
        proof {
            use_type_invariant(self);
        }
        let (left, right) = self.buf.split_at(self.stress_at);
        assert(right@ =~= self.letters().skip(self.stress_at()));
        (letters_as_str(left), letters_as_str(right))
    }

    /// Returns an owned copy of this word.
    pub fn to_owned(&self) -> (r: WordBuf)
        ensures
            r.letters() == self.letters(),
            r.stem_len() == self.stem_len(),
            r.stress_at() == self.stress_at(),
    {
        proof {
            use_type_invariant(self);
        }
        let mut v: Vec<Utf8Letter> = Vec::new();
        let mut i: usize = 0;
        while i < self.buf.len()
            invariant
                i <= self.buf@.len(),
                v@ == self.buf@.take(i as int),
            decreases self.buf@.len() - i,
        {
            v.push(self.buf[i]);
            i = i + 1;
            assert(v@ =~= self.buf@.take(i as int));
        }
        assert(v@ =~= self.buf@);
        WordBuf::new(v, self.stem_len, self.stress_at)
    }
}

/// Error type for parsing words.
#[derive(Debug, Clone, Copy, PartialEq, Eq, Structural, Hash)]
pub enum ParseWordError {
    /// The string contains characters other than lowercase Russian letters (besides one stress
    /// mark and one ending separator).
    NonCyrillic,
    /// The string does not mark the stress, and it cannot be inferred.
    NoStress,
}

/// A stress mark: U+0301 (combining acute accent), U+0300 (combining grave accent) or `'`.
pub open spec fn spec_is_accent(c: char) -> bool {
    c == '\u{0301}' || c == '\u{0300}' || c == '\''
}

/// The index of the first stress mark from `i` on.
pub open spec fn spec_first_accent_from(s: Seq<char>, i: int) -> Option<int>
    decreases s.len() - i,
{
    if i < 0 || i >= s.len() {
        None
    } else if spec_is_accent(s[i]) {
        Some(i)
    } else {
        spec_first_accent_from(s, i + 1)
    }
}

/// The index of the first `-` from `i` on.
pub open spec fn spec_first_dash_from(s: Seq<char>, i: int) -> Option<int>
    decreases s.len() - i,
{
    if i < 0 || i >= s.len() {
        None
    } else if s[i] == '-' {
        Some(i)
    } else {
        spec_first_dash_from(s, i + 1)
    }
}

/// The characters without the one at `i`, if any.
pub open spec fn spec_remove_at(s: Seq<char>, i: Option<int>) -> Seq<char> {
    match i {
        Some(k) => s.remove(k),
        None => s,
    }
}

/// Parses a word: the first stress mark gives the stress position and is removed, then the
/// first `-` gives the stem's length and is removed; what is left must be lowercase Russian
/// letters. Without a stress mark, the stress is inferred from the letters (see
/// [`spec_implicit_stress`]). Gives the letters, the stem's length and the stress position.
pub open spec fn spec_parse_word(s: Seq<char>) -> Result<(Seq<Utf8Letter>, int, int), ParseWordError> {
    let a = spec_first_accent_from(s, 0);
    let s1 = spec_remove_at(s, a);
    let d = spec_first_dash_from(s1, 0);
    let s2 = spec_remove_at(s1, d);
    if !(forall|i: int| 0 <= i < s2.len() ==> is_lowercase_russian_char(#[trigger] s2[i])) {
        Err(ParseWordError::NonCyrillic)
    } else {
        let letters = letters_of_chars(s2);
        let stem_len = match d {
            Some(k) => k,
            None => s2.len() as int,
        };
        match a {
            Some(k) => Ok(
                (letters, stem_len, if d is Some && d.unwrap() < k {
                    k - 1
                } else {
                    k
                }),
            ),
            None => match spec_implicit_stress(letters) {
                Some(p) => Ok((letters, stem_len, p)),
                None => Err(ParseWordError::NoStress),
            },
        }
    }
}

/// Returns the index of the first stress mark.
fn find_accent(s: &[char]) -> (r: Option<usize>)
    ensures
        r is Some <==> spec_first_accent_from(s@, 0) is Some,
        r is Some ==> spec_first_accent_from(s@, 0) == Some(r.unwrap() as int) && r.unwrap() < s@.len(),
{
    let mut i: usize = 0;
    while i < s.len()
        invariant
            i <= s@.len(),
            spec_first_accent_from(s@, 0) == spec_first_accent_from(s@, i as int),
        decreases s@.len() - i,
    {
        let c = s[i];
        if c == '\u{0301}' || c == '\u{0300}' || c == '\'' {
            return Some(i);
        }
        i = i + 1;
    }
    None
}

/// Returns the index of the first `-`.
fn find_dash(s: &[char]) -> (r: Option<usize>)
    ensures
        r is Some <==> spec_first_dash_from(s@, 0) is Some,
        r is Some ==> spec_first_dash_from(s@, 0) == Some(r.unwrap() as int) && r.unwrap() < s@.len(),
{
    let mut i: usize = 0;
    while i < s.len()
        invariant
            i <= s@.len(),
            spec_first_dash_from(s@, 0) == spec_first_dash_from(s@, i as int),
        decreases s@.len() - i,
    {
        if s[i] == '-' {
            return Some(i);
        }
        i = i + 1;
    }
    None
}

/// Returns the characters without the one at `i`, if any.
fn remove_at(s: &[char], i: Option<usize>) -> (r: Vec<char>)
    requires
        i matches Some(k) ==> k < s@.len(),
    ensures
        r@ == spec_remove_at(
            s@,
            match i {
                Some(k) => Some(k as int),
                None => None,
            },
        ),
{
    let mut r: Vec<char> = Vec::new();
    let mut j: usize = 0;
    while j < s.len()
        invariant
            j <= s@.len(),
            r@ == match i {
                Some(k) => if j <= k {
                    s@.take(j as int)
                } else {
                    s@.take(j as int).remove(k as int)
                },
                None => s@.take(j as int),
            },
        decreases s@.len() - j,
    {
        if i != Some(j) {
            r.push(s[j]);
        }
        j = j + 1;
        assert(r@ =~= match i {
            Some(k) => if j <= k {
                s@.take(j as int)
            } else {
                s@.take(j as int).remove(k as int)
            },
            None => s@.take(j as int),
        });
    }
    assert(s@.take(j as int) =~= s@);
    r
}

impl WordBuf {
    /// Parses a word, such as `сло́в-о` or `сло'в-о`. The first stress mark (U+0301, U+0300 or
    /// `'`) marks the stress after the letter before it; the first `-` separates the stem from
    /// the ending (without one, the whole word is the stem). Without a stress mark, the stress
    /// is on the first `ё`, or on the only vowel.
    pub fn parse_str(s: &str) -> (r: Result<WordBuf, ParseWordError>)
        ensures
            match spec_parse_word(s@) {
                Ok((letters, stem_len, stress_at)) => r is Ok && r.unwrap().letters() == letters
                    && r.unwrap().stem_len() == stem_len && r.unwrap().stress_at() == stress_at,
                Err(e) => r == Err::<WordBuf, ParseWordError>(e),
            },
    {
        let chars = str_chars(s);
        let a = find_accent(chars.as_slice());
        let s1 = remove_at(chars.as_slice(), a);
        let s1_slice = s1.as_slice();
        let d = find_dash(s1_slice);
        let s2 = remove_at(s1.as_slice(), d);
        let ghost ga = match a {
            Some(k) => Some(k as int),
            None => None::<int>,
        };
        let ghost gd = match d {
            Some(k) => Some(k as int),
            None => None::<int>,
        };
        assert(s1@ == spec_remove_at(s@, ga));
        let mut letters: Vec<Utf8Letter> = Vec::new();
        let mut i: usize = 0;
        while i < s2.len()
            invariant
                i <= s2@.len(),
                ga == spec_first_accent_from(s@, 0),
                s1@ == spec_remove_at(s@, ga),
                gd == spec_first_dash_from(s1@, 0),
                s2@ == spec_remove_at(s1@, gd),
                forall|j: int| 0 <= j < i ==> is_lowercase_russian_char(#[trigger] s2@[j]),
                letters@ == letters_of_chars(s2@.take(i as int)),
            decreases s2@.len() - i,
        {
            match Utf8Letter::from_char(s2[i]) {
                Some(l) => {
                    letters.push(l);
                },
                None => {
                    assert(!is_lowercase_russian_char(s2@[i as int]));
                    return Err(ParseWordError::NonCyrillic);
                },
            }
            i = i + 1;
            assert(letters@ =~= letters_of_chars(s2@.take(i as int)));
        }
        assert(s2@.take(i as int) =~= s2@);
        let n = letters.len();
        let stem_len = match d {
            Some(k) => k,
            None => n,
        };
        let stress_at = match a {
            Some(k) => match d {
                Some(dk) => if dk < k {
                    k - 1
                } else {
                    k
                },
                None => k,
            },
            None => match find_implicit_insert_stress_pos(letters.as_slice()) {
                Some(p) => p,
                None => {
                    return Err(ParseWordError::NoStress);
                },
            },
        };
        Ok(WordBuf::new(letters, stem_len, stress_at))
    }
}

impl std::str::FromStr for WordBuf {
    type Err = ParseWordError;

    fn from_str(s: &str) -> (r: Result<WordBuf, ParseWordError>)
        ensures
            match spec_parse_word(s@) {
                Ok((letters, stem_len, stress_at)) => r is Ok && r.unwrap().letters() == letters
                    && r.unwrap().stem_len() == stem_len && r.unwrap().stress_at() == stress_at,
                Err(e) => r == Err::<WordBuf, ParseWordError>(e),
            },
    {
        WordBuf::parse_str(s)
    }
}

/// How a word's display marks the stress.
#[derive(Debug, Clone, Copy, PartialEq, Eq, Structural, Hash, Default)]
pub enum AccentMode {
    /// The stress is not marked.
    #[default]
    Off,
    /// The stress is always marked, where it is known.
    Explicit,
    /// The stress is marked only where it cannot be inferred from the letters (at its position,
    /// which is the start of the word where no stress is known).
    Implicit,
}

/// A stress mark: how it is used, and its character.
#[derive(Debug, Clone, Copy, PartialEq, Eq, Structural, Hash)]
pub struct Accent {
    mode: AccentMode,
    ch: char,
}

/// The combining grave accent, U+0300.
pub const GRAVE: char = '\u{0300}';

/// The combining acute accent, U+0301.
pub const ACUTE: char = '\u{0301}';

impl Accent {
    /// The accent's mode.
    pub closed spec fn spec_mode(self) -> AccentMode {
        self.mode
    }

    /// The accent's character: `'\0'` where the stress is not marked.
    pub closed spec fn spec_char(self) -> char {
        self.ch
    }

    /// Constructs an accent with the mode and character; without a mode, the character is
    /// `'\0'`.
    pub fn new(mode: AccentMode, ch: char) -> (r: Accent)
        ensures
            r.spec_mode() == mode,
            r.spec_char() == (if mode == AccentMode::Off {
                '\0'
            } else {
                ch
            }),
    {
        let ch = if mode == AccentMode::Off {
            '\0'
        } else {
            ch
        };
        Accent { mode, ch }
    }

    /// An accent that does not mark the stress.
    pub fn none() -> (r: Accent)
        ensures
            r.spec_mode() == AccentMode::Off,
            r.spec_char() == '\0',
    {
        Accent::new(AccentMode::Off, '\0')
    }

    /// An accent that always marks a known stress, with the character.
    pub fn explicit(ch: char) -> (r: Accent)
        ensures
            r.spec_mode() == AccentMode::Explicit,
            r.spec_char() == ch,
    {
        Accent::new(AccentMode::Explicit, ch)
    }

    /// An accent that marks a known stress where the letters do not imply it, with the
    /// character.
    pub fn implicit(ch: char) -> (r: Accent)
        ensures
            r.spec_mode() == AccentMode::Implicit,
            r.spec_char() == ch,
    {
        Accent::new(AccentMode::Implicit, ch)
    }

    /// Returns the accent's mode.
    pub fn mode(&self) -> (r: AccentMode)
        ensures
            r == self.spec_mode(),
    {
        self.mode
    }

    /// Returns the accent's character.
    pub fn char(&self) -> (r: char)
        ensures
            r == self.spec_char(),
    {
        self.ch
    }
}

impl Accent {
    /// The accent that marks the stress with the acute accent, where the letters do not imply
    /// it.
    pub closed spec fn spec_implicit_acute() -> Accent {
        Accent { mode: AccentMode::Implicit, ch: ACUTE }
    }

    /// The implicit acute accent is in the implicit mode, with the acute accent as its
    /// character.
    pub proof fn lemma_implicit_acute()
        ensures
            Accent::spec_implicit_acute().spec_mode() == AccentMode::Implicit,
            Accent::spec_implicit_acute().spec_char() == ACUTE,
    {
    }
}

impl Default for Accent {
    fn default() -> (r: Accent)
        ensures
            r.spec_mode() == AccentMode::Off,
            r.spec_char() == '\0',
    {
        Accent::none()
    }
}

/// A way to display a word: the word, its accent, and the ending separator, if any.
#[derive(Debug, Clone, Copy, PartialEq, Eq, Hash)]
pub struct Display<'a> {
    word: Word<'a>,
    accent: Accent,
    ending_sep: Option<char>,
}

/// Whether a word's display marks its stress.
pub open spec fn spec_adds_accent(letters: Seq<Utf8Letter>, stress_at: int, accent: Accent) -> bool {
    match accent.spec_mode() {
        AccentMode::Off => false,
        AccentMode::Explicit => stress_at > 0,
        AccentMode::Implicit => spec_implicit_stress(letters) != Some(stress_at),
    }
}

/// The characters of letters, with `mark` inserted after the first `at` of them if `add`.
pub open spec fn spec_with_mark(s: Seq<Utf8Letter>, add: bool, at: int, mark: char) -> Seq<char> {
    if add {
        letters_to_chars(s.take(at)) + seq![mark] + letters_to_chars(s.skip(at))
    } else {
        letters_to_chars(s)
    }
}

/// The text that displays a word: the stem, the ending separator (only where the ending is
/// not empty), and the ending, with the accent's character after the stressed letter where the
/// stress is marked.
pub open spec fn spec_display(letters: Seq<Utf8Letter>, stem_len: int, stress_at: int, accent: Accent, ending_sep: Option<char>) -> Seq<char> {
    let add = spec_adds_accent(letters, stress_at, accent);
    let stem = letters.take(stem_len);
    let ending = letters.skip(stem_len);
    spec_with_mark(stem, add && stress_at <= stem_len, stress_at, accent.spec_char()) + (
    match ending_sep {
        Some(c) => if stem_len != letters.len() {
            seq![c]
        } else {
            Seq::<char>::empty()
        },
        None => Seq::<char>::empty(),
    }) + spec_with_mark(ending, add && stress_at > stem_len, stress_at - stem_len, accent.spec_char())
}

/// Appends the characters of letters to `dst`, with `mark` inserted after the first `at` of
/// them if `add`.
fn push_with_mark(dst: &mut String, s: &[Utf8Letter], add: bool, at: usize, mark: char)
    requires
        at <= s@.len(),
    ensures
        final(dst)@ == old(dst)@ + spec_with_mark(s@, add, at as int, mark),
{
    let mut i: usize = 0;
    while i < s.len()
        invariant
            i <= s@.len(),
            at <= s@.len(),
            dst@ == old(dst)@ + if add && i > at {
                letters_to_chars(s@.take(at as int)) + seq![mark] + letters_to_chars(
                    s@.subrange(at as int, i as int),
                )
            } else {
                letters_to_chars(s@.take(i as int))
            },
        decreases s@.len() - i,
    {
        if add && i == at {
            push_char(dst, mark);
        }
        push_char(dst, s[i].to_char());
        i = i + 1;
        assert(dst@ =~= old(dst)@ + if add && i > at {
            letters_to_chars(s@.take(at as int)) + seq![mark] + letters_to_chars(
                s@.subrange(at as int, i as int),
            )
        } else {
            letters_to_chars(s@.take(i as int))
        });
    }
    if add && i == at {
        push_char(dst, mark);
    }
    assert(s@.take(i as int) =~= s@);
    assert(s@.subrange(at as int, i as int) =~= s@.skip(at as int));
    assert(dst@ =~= old(dst)@ + spec_with_mark(s@, add, at as int, mark));
}

impl<'a> Display<'a> {
    /// The word displayed.
    pub closed spec fn spec_word(self) -> Word<'a> {
        self.word
    }

    /// The accent of the display.
    pub closed spec fn spec_accent(self) -> Accent {
        self.accent
    }

    /// The ending separator of the display.
    pub closed spec fn spec_ending_sep(self) -> Option<char> {
        self.ending_sep
    }

    /// The text of this display.
    pub open spec fn spec_text(self) -> Seq<char> {
        spec_display(
            self.spec_word().letters(),
            self.spec_word().stem_len(),
            self.spec_word().stress_at(),
            self.spec_accent(),
            self.spec_ending_sep(),
        )
    }

    /// Constructs a display of the word, with the accent and the ending separator.
    pub fn new(word: Word<'a>, accent: Accent, ending_sep: Option<char>) -> (r: Display<'a>)
        ensures
            r.spec_word() == word,
            r.spec_accent() == accent,
            r.spec_ending_sep() == ending_sep,
    {
        Display { word, accent, ending_sep }
    }

    /// The display used for showing a word: the stress is marked where it cannot be inferred,
    /// with the acute accent (or the grave one, if `alternate`), and no ending separator.
    pub fn default_display(word: Word<'a>, alternate: bool) -> (r: Display<'a>)
        ensures
            r.spec_word() == word,
            r.spec_accent().spec_mode() == AccentMode::Implicit,
            r.spec_accent().spec_char() == if alternate { GRAVE } else { ACUTE },
            r.spec_ending_sep() is None,
    {
        let ch = if alternate {
            GRAVE
        } else {
            ACUTE
        };
        Display::new(word, Accent::implicit(ch), None)
    }

    /// The display used for debugging a word: the stress is always marked, with the acute
    /// accent (or the grave one, if `alternate`), and a non-empty ending is separated by `-`.
    pub fn default_debug(word: Word<'a>, alternate: bool) -> (r: Display<'a>)
        ensures
            r.spec_word() == word,
            r.spec_accent().spec_mode() == AccentMode::Explicit,
            r.spec_accent().spec_char() == if alternate { GRAVE } else { ACUTE },
            r.spec_ending_sep() == Some('-'),
    {
        let ch = if alternate {
            GRAVE
        } else {
            ACUTE
        };
        Display::new(word, Accent::explicit(ch), Some('-'))
    }

    /// Returns this display with another accent.
    pub fn accent(self, accent: Accent) -> (r: Display<'a>)
        ensures
            r.spec_word() == self.spec_word(),
            r.spec_accent() == accent,
            r.spec_ending_sep() == self.spec_ending_sep(),
    {
        Display { accent, ..self }
    }

    /// Returns this display with another ending separator.
    pub fn ending_separator(self, ending_sep: Option<char>) -> (r: Display<'a>)
        ensures
            r.spec_word() == self.spec_word(),
            r.spec_accent() == self.spec_accent(),
            r.spec_ending_sep() == ending_sep,
    {
        Display { ending_sep, ..self }
    }

    /// Returns the accent of this display.
    pub fn get_accent(&self) -> (r: Accent)
        ensures
            r == self.spec_accent(),
    {
        self.accent
    }

    /// Returns the ending separator of this display.
    pub fn get_ending_sep(&self) -> (r: Option<char>)
        ensures
            r == self.spec_ending_sep(),
    {
        self.ending_sep
    }

    /// Appends the text of this display to `dst`.
    pub fn fmt_to(&self, dst: &mut String)
        ensures
            final(dst)@ == old(dst)@ + self.spec_text(),
    {
        let letters = self.word.as_letters();
        let stem_len = self.word.get_stem_len();
        let stress_at = self.word.get_stress_at();
        let add = match self.accent.mode() {
            AccentMode::Off => false,
            AccentMode::Explicit => stress_at > 0,
            AccentMode::Implicit => match find_implicit_insert_stress_pos(letters) {
                Some(p) => p != stress_at,
                None => true,
            },
        };
        let (stem, ending) = letters.split_at(stem_len);
        let ghost d0 = dst@;
        push_with_mark(dst, stem, add && stress_at <= stem_len, if stress_at <= stem_len { stress_at } else { 0 }, self.accent.char());
        let ghost d1 = dst@;
        if let Some(c) = self.ending_sep {
            if stem_len != letters.len() {
                push_char(dst, c);
            }
        }
        let ghost d2 = dst@;
        push_with_mark(dst, ending, add && stress_at > stem_len, if stress_at > stem_len { stress_at - stem_len } else { 0 }, self.accent.char());
        proof {
            assert(add == spec_adds_accent(letters@, stress_at as int, self.accent));
            let t = self.spec_text();
            assert(stem@ == letters@.take(stem_len as int));
            assert(ending@ =~= letters@.skip(stem_len as int));
            assert(d1 == d0 + spec_with_mark(stem@, add && stress_at <= stem_len, stress_at as int, self.accent.spec_char()));
            assert(dst@ =~= d0 + t);
        }
    }

    /// Returns the text of this display.
    pub fn to_string(&self) -> (r: String)
        ensures
            r@ == self.spec_text(),
    {
        let mut s = String::new();
        self.fmt_to(&mut s);
        assert(s@ =~= self.spec_text());
        s
    }
}

impl<'a> Word<'a> {
    /// Returns the display used for showing this word: the stress is marked with the acute
    /// accent where it cannot be inferred from the letters.
    pub fn display(self) -> (r: Display<'a>)
        ensures
            r.spec_word() == self,
            r.spec_accent().spec_mode() == AccentMode::Implicit,
            r.spec_accent().spec_char() == ACUTE,
            r.spec_ending_sep() is None,
    {
        Display::default_display(self, false)
    }

    /// Returns the text of this word, with the stress marked by the acute accent where it
    /// cannot be inferred from the letters.
    pub fn to_string(&self) -> (r: String)
        ensures
            r@ == spec_display(self.letters(), self.stem_len(), self.stress_at(), Accent::spec_implicit_acute(), None),
    {
        Display::default_display(*self, false).to_string()
    }
}

impl WordBuf {
    /// Returns the display used for showing this word: the stress is marked with the acute
    /// accent where it cannot be inferred from the letters.
    pub fn display(&self) -> (r: Display<'_>)
        ensures
            r.spec_word().letters() == self.letters(),
            r.spec_word().stem_len() == self.stem_len(),
            r.spec_word().stress_at() == self.stress_at(),
            r.spec_accent().spec_mode() == AccentMode::Implicit,
            r.spec_accent().spec_char() == ACUTE,
            r.spec_ending_sep() is None,
    {
        Display::default_display(self.borrow(), false)
    }

    /// Returns the text of this word, with the stress marked by the acute accent where it
    /// cannot be inferred from the letters.
    pub fn to_string(&self) -> (r: String)
        ensures
            r@ == spec_display(self.letters(), self.stem_len(), self.stress_at(), Accent::spec_implicit_acute(), None),
    {
        Display::default_display(self.borrow(), false).to_string()
    }
}


/// The first stress mark from `i` on is at `j`, where one stands at `j` and none before it.
proof fn lemma_first_accent_at(s: Seq<char>, i: int, j: int)
    requires
        0 <= i <= j < s.len(),
        forall|m: int| i <= m < j ==> !spec_is_accent(#[trigger] s[m]),
        spec_is_accent(s[j]),
    ensures
        spec_first_accent_from(s, i) == Some(j),
    decreases j - i,
{
    if i < j {
        lemma_first_accent_at(s, i + 1, j);
    }
}

/// No `-` stands from `i` on.
proof fn lemma_no_dash_from(s: Seq<char>, i: int)
    requires
        0 <= i <= s.len(),
        forall|m: int| i <= m < s.len() ==> #[trigger] s[m] != '-',
    ensures
        spec_first_dash_from(s, i) is None,
    decreases s.len() - i,
{
    if i < s.len() {
        lemma_no_dash_from(s, i + 1);
    }
}

/// The first `-` from `i` on is at `j`, where one stands at `j` and none before it.
proof fn lemma_first_dash_at(s: Seq<char>, i: int, j: int)
    requires
        0 <= i <= j < s.len(),
        forall|m: int| i <= m < j ==> #[trigger] s[m] != '-',
        s[j] == '-',
    ensures
        spec_first_dash_from(s, i) == Some(j),
    decreases j - i,
{
    if i < j {
        lemma_first_dash_at(s, i + 1, j);
    }
}

/// The characters of letters, split at `at`.
proof fn lemma_chars_split(s: Seq<Utf8Letter>, at: int)
    requires
        0 <= at <= s.len(),
    ensures
        letters_to_chars(s) == letters_to_chars(s.take(at)) + letters_to_chars(s.skip(at)),
        letters_to_chars(s.take(at)).len() == at,
{
    assert(letters_to_chars(s) =~= letters_to_chars(s.take(at)) + letters_to_chars(s.skip(at)));
}

/// No stress mark stands from `i` on.
proof fn lemma_no_accent_from(s: Seq<char>, i: int)
    requires
        0 <= i <= s.len(),
        forall|m: int| i <= m < s.len() ==> !spec_is_accent(#[trigger] s[m]),
    ensures
        spec_first_accent_from(s, i) is None,
    decreases s.len() - i,
{
    if i < s.len() {
        lemma_no_accent_from(s, i + 1);
    }
}

/// The text that a display gives of a word, without its stress mark: the stem's characters,
/// the separator (if any) before a non-empty ending, and the ending's characters.
pub open spec fn spec_unmarked_display(letters: Seq<Utf8Letter>, stem_len: int, sep: Option<char>) -> Seq<char> {
    letters_to_chars(letters.take(stem_len)) + (match sep {
        Some(c) => if stem_len != letters.len() {
            seq![c]
        } else {
            Seq::<char>::empty()
        },
        None => Seq::<char>::empty(),
    }) + letters_to_chars(letters.skip(stem_len))
}

/// Removing the first stress mark from the text that a display gives of a word leaves the
/// unmarked text; the mark stands at the stress position (after the separator, if the ending
/// is stressed), where the display marks the stress.
#[verifier::rlimit(40)]
proof fn lemma_display_accent(letters: Seq<Utf8Letter>, stem_len: int, stress_at: int, accent: Accent, sep: Option<char>)
    requires
        0 <= stem_len <= letters.len(),
        1 <= stress_at <= letters.len(),
        sep == Some('-') || sep is None,
        spec_is_accent(accent.spec_char()),
    ensures
        spec_remove_at(
            spec_display(letters, stem_len, stress_at, accent, sep),
            spec_first_accent_from(spec_display(letters, stem_len, stress_at, accent, sep), 0),
        ) == spec_unmarked_display(letters, stem_len, sep),
        spec_first_accent_from(spec_display(letters, stem_len, stress_at, accent, sep), 0) == (
        if spec_adds_accent(letters, stress_at, accent) {
            Some(
                if stress_at <= stem_len {
                    stress_at
                } else if sep is Some {
                    stress_at + 1
                } else {
                    stress_at
                },
            )
        } else {
            None
        }),
{
    let mark = accent.spec_char();
    let stem = letters.take(stem_len);
    let ending = letters.skip(stem_len);
    let cs = letters_to_chars(stem);
    let ce = letters_to_chars(ending);
    lemma_letters_chars(stem);
    lemma_letters_chars(ending);
    let dash: Seq<char> = if sep is Some && stem_len != letters.len() {
        seq!['-']
    } else {
        Seq::<char>::empty()
    };
    let t = spec_display(letters, stem_len, stress_at, accent, sep);
    let s1 = cs + dash + ce;
    assert(s1 =~= spec_unmarked_display(letters, stem_len, sep));
    let k: int = if stress_at <= stem_len { stress_at } else { stress_at + dash.len() };
    if !spec_adds_accent(letters, stress_at, accent) {
        assert(t =~= s1);
        assert forall|m: int| 0 <= m < t.len() implies !spec_is_accent(#[trigger] t[m]) by {
            if m < stem_len {
                assert(t[m] == cs[m]);
            } else if m >= stem_len + dash.len() {
                assert(t[m] == ce[m - stem_len - dash.len()]);
            }
        }
        lemma_no_accent_from(t, 0);
    } else if stress_at <= stem_len {
        lemma_chars_split(stem, stress_at);
        assert(t =~= letters_to_chars(stem.take(stress_at)) + seq![mark] + letters_to_chars(
            stem.skip(stress_at),
        ) + dash + ce);
        assert(t.remove(k) =~= s1);
        assert forall|m: int| 0 <= m < k implies !spec_is_accent(#[trigger] t[m]) by {
            assert(t[m] == cs[m]);
        }
        lemma_first_accent_at(t, 0, k);
    } else {
        let r = stress_at - stem_len;
        lemma_chars_split(ending, r);
        assert(t =~= cs + dash + letters_to_chars(ending.take(r)) + seq![mark] + letters_to_chars(
            ending.skip(r),
        ));
        assert(t.remove(k) =~= s1);
        assert forall|m: int| 0 <= m < k implies !spec_is_accent(#[trigger] t[m]) by {
            if m < stem_len {
                assert(t[m] == cs[m]);
            } else if m >= stem_len + dash.len() {
                assert(t[m] == ce[m - stem_len - dash.len()]);
            }
        }
        lemma_first_accent_at(t, 0, k);
    }
}

/// The first `-` in the unmarked text of a word is at the stem's end, where the separator is
/// shown before a non-empty ending; removing it leaves the word's characters.
proof fn lemma_unmarked_dash(letters: Seq<Utf8Letter>, stem_len: int, sep: Option<char>)
    requires
        0 <= stem_len <= letters.len(),
        sep == Some('-') || sep is None,
    ensures
        spec_first_dash_from(spec_unmarked_display(letters, stem_len, sep), 0) == (if sep is Some
            && stem_len != letters.len() {
            Some(stem_len)
        } else {
            None
        }),
        spec_remove_at(
            spec_unmarked_display(letters, stem_len, sep),
            spec_first_dash_from(spec_unmarked_display(letters, stem_len, sep), 0),
        ) == letters_to_chars(letters),
{
    let cs = letters_to_chars(letters.take(stem_len));
    let ce = letters_to_chars(letters.skip(stem_len));
    lemma_letters_chars(letters);
    lemma_letters_chars(letters.take(stem_len));
    lemma_chars_split(letters, stem_len);
    let s1 = spec_unmarked_display(letters, stem_len, sep);
    if sep is Some && stem_len != letters.len() {
        assert forall|m: int| 0 <= m < stem_len implies #[trigger] s1[m] != '-' by {
            assert(s1[m] == cs[m]);
        }
        lemma_first_dash_at(s1, 0, stem_len);
        assert(s1.remove(stem_len) =~= cs + ce);
    } else {
        assert(s1 =~= cs + ce);
        assert forall|m: int| 0 <= m < s1.len() implies #[trigger] s1[m] != '-' by {
            assert(is_lowercase_russian_char(letters_to_chars(letters)[m]));
        }
        lemma_no_dash_from(s1, 0);
    }
}

/// Parsing the text that a display gives of a word with a known stress gives the word back:
/// its letters, with the stress mark after the stressed letter (unless the letters imply the
/// stress, where the display marks it implicitly); with `-` as the ending separator, shown
/// before a non-empty ending, the stem's length too, and without a separator the whole word
/// as the stem.
pub proof fn law_word_parse_display(letters: Seq<Utf8Letter>, stem_len: int, stress_at: int, accent: Accent, sep: Option<char>)
    requires
        0 <= stem_len <= letters.len(),
        1 <= stress_at <= letters.len(),
        accent.spec_mode() == AccentMode::Explicit || accent.spec_mode() == AccentMode::Implicit,
        accent.spec_char() == ACUTE || accent.spec_char() == GRAVE,
        sep == Some('-') || sep is None,
    ensures
        spec_parse_word(spec_display(letters, stem_len, stress_at, accent, sep)) == Ok::<
            (Seq<Utf8Letter>, int, int),
            ParseWordError,
        >((letters, if sep is Some { stem_len } else { letters.len() as int }, stress_at)),
{
    let t = spec_display(letters, stem_len, stress_at, accent, sep);
    lemma_display_accent(letters, stem_len, stress_at, accent, sep);
    lemma_unmarked_dash(letters, stem_len, sep);
    lemma_letters_chars(letters);
    let s2 = letters_to_chars(letters);
    assert(forall|i: int| 0 <= i < s2.len() ==> is_lowercase_russian_char(#[trigger] s2[i]));
}

} // verus!
