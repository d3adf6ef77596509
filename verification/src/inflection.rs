//! A buffer in which a word is inflected: its letters, split into a stem and an ending.

use crate::letter::Utf8Letter;
use crate::word::WordBuf;
use vstd::prelude::*;

verus! {

/// A word form being inflected: its letters and the length of its stem.
pub struct Form {
    /// The letters of the form.
    pub letters: Seq<Utf8Letter>,
    /// The length of the stem.
    pub stem_len: int,
}

impl Form {
    /// The stem's length is within the letters.
    pub open spec fn wf(self) -> bool {
        0 <= self.stem_len <= self.letters.len()
    }

    /// The stem's letters.
    pub open spec fn stem(self) -> Seq<Utf8Letter> {
        self.letters.take(self.stem_len)
    }

    /// The ending's letters.
    pub open spec fn ending(self) -> Seq<Utf8Letter> {
        self.letters.skip(self.stem_len)
    }

    /// The form with `e` appended to the ending.
    pub open spec fn append_to_ending(self, e: Seq<Utf8Letter>) -> Form {
        Form { letters: self.letters + e, stem_len: self.stem_len }
    }

    /// The form with the ending replaced by `e`.
    pub open spec fn replace_ending(self, e: Seq<Utf8Letter>) -> Form {
        Form { letters: self.stem() + e, stem_len: self.stem_len }
    }

    /// The form with `s` appended to the stem.
    pub open spec fn append_to_stem(self, s: Seq<Utf8Letter>) -> Form {
        Form { letters: self.stem() + s + self.ending(), stem_len: self.stem_len + s.len() }
    }

    /// The form with the stem's last `n` letters removed.
    pub open spec fn shrink_stem_by(self, n: int) -> Form {
        Form {
            letters: self.stem().take(self.stem_len - n) + self.ending(),
            stem_len: self.stem_len - n,
        }
    }

    /// The form with `s` inserted before the stem's last letter.
    pub open spec fn insert_before_last_stem_letter(self, s: Seq<Utf8Letter>) -> Form {
        Form {
            letters: self.stem().drop_last() + s + seq![self.stem().last()] + self.ending(),
            stem_len: self.stem_len + s.len(),
        }
    }

    /// The form without the stem's letter at `i`.
    pub open spec fn remove_stem_letter(self, i: int) -> Form {
        Form { letters: self.letters.remove(i), stem_len: self.stem_len - 1 }
    }

    /// The form with the letter at `i` replaced by `l`.
    pub open spec fn set_letter(self, i: int, l: Utf8Letter) -> Form {
        Form { letters: self.letters.update(i, l), stem_len: self.stem_len }
    }
}

/// Where the stress of a form falls: on the stem or on the ending.
#[derive(Debug, Clone, Copy, PartialEq, Eq, Structural, Hash)]
pub enum StressPos {
    /// The stem is stressed.
    Stem,
    /// The ending is stressed.
    Ending,
}

/// A buffer in which a word is inflected: its letters, split into a stem and an ending, and
/// where the form's stress falls.
pub struct InflectionBuf {
    buf: Vec<Utf8Letter>,
    stem_len: usize,
    stress: StressPos,
}

impl InflectionBuf {
    /// The form in the buffer.
    pub closed spec fn form(self) -> Form {
        Form { letters: self.buf@, stem_len: self.stem_len as int }
    }

    /// Where the stress of the form in the buffer falls.
    pub closed spec fn stress(self) -> StressPos {
        self.stress
    }

    /// Constructs a buffer with the stem's letters and an empty ending, stressed on the stem.
    pub fn new(stem: &[Utf8Letter]) -> (r: InflectionBuf)
        ensures
            r.form() == (Form { letters: stem@, stem_len: stem@.len() as int }),
            r.stress() == StressPos::Stem,
    {
        let mut buf: Vec<Utf8Letter> = Vec::new();
        let mut i: usize = 0;
        while i < stem.len()
            invariant
                i <= stem@.len(),
                buf@ == stem@.take(i as int),
            decreases stem@.len() - i,
        {
            buf.push(stem[i]);
            i = i + 1;
            assert(buf@ =~= stem@.take(i as int));
        }
        assert(buf@ =~= stem@);
        InflectionBuf { buf, stem_len: stem.len(), stress: StressPos::Stem }
    }

    /// Returns `true` if the form's stem is stressed.
    pub fn is_stem_stressed(&self) -> (r: bool)
        ensures
            r == (self.stress() == StressPos::Stem),
    {
        self.stress == StressPos::Stem
    }

    /// Returns `true` if the form's ending is stressed.
    pub fn is_ending_stressed(&self) -> (r: bool)
        ensures
            r == (self.stress() == StressPos::Ending),
    {
        self.stress == StressPos::Ending
    }

    /// Sets where the form's stress falls.
    pub fn set_stress(&mut self, stress: StressPos)
        ensures
            final(self).form() == old(self).form(),
            final(self).stress() == stress,
    {
        self.stress = stress;
    }

    /// Returns the length of the stem.
    pub fn stem_len(&self) -> (r: usize)
        ensures
            r == self.form().stem_len,
    {
        self.stem_len
    }

    /// Returns the number of letters.
    pub fn len(&self) -> (r: usize)
        ensures
            r == self.form().letters.len(),
    {
        self.buf.len()
    }

    /// Returns the letter at `i`.
    pub fn letter(&self, i: usize) -> (r: Utf8Letter)
        requires
            i < self.form().letters.len(),
        ensures
            r == self.form().letters[i as int],
    {
        self.buf[i]
    }

    /// Returns all letters.
    pub fn as_slice(&self) -> (r: &[Utf8Letter])
        ensures
            r@ == self.form().letters,
    {
        self.buf.as_slice()
    }

    /// Returns the stem's letters.
    pub fn stem(&self) -> (r: &[Utf8Letter])
        requires
            self.form().wf(),
        ensures
            r@ == self.form().stem(),
    {
        self.buf.as_slice().split_at(self.stem_len).0
    }

    /// Returns the ending's letters.
    pub fn ending(&self) -> (r: &[Utf8Letter])
        requires
            self.form().wf(),
        ensures
            r@ == self.form().ending(),
    {
        let r = self.buf.as_slice().split_at(self.stem_len).1;
        assert(r@ =~= self.form().ending());
        r
    }

    /// Replaces the letter at `i` by `l`.
    pub fn set_letter(&mut self, i: usize, l: Utf8Letter)
        requires
            old(self).form().wf(),
            i < old(self).form().letters.len(),
        ensures
            final(self).form().wf(),
            final(self).stress() == old(self).stress(),
            final(self).form() == old(self).form().set_letter(i as int, l),
    {
        let mut buf = Vec::new();
        std::mem::swap(&mut buf, &mut self.buf);
        buf.set(i, l);
        self.buf = buf;
    }

    /// Appends letters to the ending.
    pub fn append_to_ending(&mut self, append: &[Utf8Letter])
        requires
            old(self).form().wf(),
        ensures
            final(self).form().wf(),
            final(self).stress() == old(self).stress(),
            final(self).form() == old(self).form().append_to_ending(append@),
    {
        let mut buf = Vec::new();
        std::mem::swap(&mut buf, &mut self.buf);
        let mut i: usize = 0;
        while i < append.len()
            invariant
                i <= append@.len(),
                buf@ == old(self).form().letters + append@.take(i as int),
            decreases append@.len() - i,
        {
            buf.push(append[i]);
            i = i + 1;
            assert(buf@ =~= old(self).form().letters + append@.take(i as int));
        }
        assert(append@.take(i as int) =~= append@);
        self.buf = buf;
    }

    /// Replaces the ending with letters.
    pub fn replace_ending(&mut self, replace: &[Utf8Letter])
        requires
            old(self).form().wf(),
        ensures
            final(self).form().wf(),
            final(self).stress() == old(self).stress(),
            final(self).form() == old(self).form().replace_ending(replace@),
    {
        let mut buf = Vec::new();
        std::mem::swap(&mut buf, &mut self.buf);
        buf.truncate(self.stem_len);
        assert(buf@ =~= old(self).form().stem());
        self.buf = buf;
        self.append_to_ending(replace);
        assert(self.form().letters =~= old(self).form().replace_ending(replace@).letters);
    }

    /// Appends letters to the stem, before the ending.
    pub fn append_to_stem(&mut self, insert: &[Utf8Letter])
        requires
            old(self).form().wf(),
            old(self).form().letters.len() + insert@.len() <= usize::MAX,
        ensures
            final(self).form().wf(),
            final(self).stress() == old(self).stress(),
            final(self).form() == old(self).form().append_to_stem(insert@),
    {
        let mut old_buf = Vec::new();
        std::mem::swap(&mut old_buf, &mut self.buf);
        let mut buf: Vec<Utf8Letter> = Vec::new();
        let ghost f = old(self).form();
        let mut i: usize = 0;
        while i < self.stem_len
            invariant
                i <= self.stem_len <= old_buf@.len(),
                old_buf@ == f.letters,
                self.stem_len == f.stem_len,
                buf@ == f.letters.take(i as int),
            decreases self.stem_len - i,
        {
            buf.push(old_buf[i]);
            i = i + 1;
            assert(buf@ =~= f.letters.take(i as int));
        }
        let mut j: usize = 0;
        while j < insert.len()
            invariant
                j <= insert@.len(),
                buf@ == f.stem() + insert@.take(j as int),
            decreases insert@.len() - j,
        {
            buf.push(insert[j]);
            j = j + 1;
            assert(buf@ =~= f.stem() + insert@.take(j as int));
        }
        let mut k: usize = self.stem_len;
        while k < old_buf.len()
            invariant
                self.stem_len <= k <= old_buf@.len(),
                old_buf@ == f.letters,
                self.stem_len == f.stem_len,
                buf@ == f.stem() + insert@ + f.letters.subrange(f.stem_len, k as int),
            decreases old_buf@.len() - k,
        {
            buf.push(old_buf[k]);
            k = k + 1;
            assert(buf@ =~= f.stem() + insert@ + f.letters.subrange(f.stem_len, k as int));
        }
        assert(insert@.take(j as int) =~= insert@);
        assert(f.letters.subrange(f.stem_len, k as int) =~= f.ending());
        self.buf = buf;
        self.stem_len = self.stem_len + insert.len();
    }

    /// Removes the stem's last `n` letters.
    pub fn shrink_stem_by(&mut self, n: usize)
        requires
            old(self).form().wf(),
            n <= old(self).form().stem_len,
        ensures
            final(self).form().wf(),
            final(self).stress() == old(self).stress(),
            final(self).form() == old(self).form().shrink_stem_by(n as int),
    {
        let ghost f = old(self).form();
        let mut old_buf = Vec::new();
        std::mem::swap(&mut old_buf, &mut self.buf);
        let keep = self.stem_len - n;
        let mut buf: Vec<Utf8Letter> = Vec::new();
        let mut i: usize = 0;
        while i < keep
            invariant
                i <= keep <= f.stem_len <= old_buf@.len(),
                old_buf@ == f.letters,
                buf@ == f.letters.take(i as int),
            decreases keep - i,
        {
            buf.push(old_buf[i]);
            i = i + 1;
            assert(buf@ =~= f.letters.take(i as int));
        }
        let mut k: usize = self.stem_len;
        while k < old_buf.len()
            invariant
                keep <= self.stem_len <= k <= old_buf@.len(),
                self.stem_len == f.stem_len,
                old_buf@ == f.letters,
                buf@ == f.letters.take(keep as int) + f.letters.subrange(f.stem_len, k as int),
            decreases old_buf@.len() - k,
        {
            buf.push(old_buf[k]);
            k = k + 1;
            assert(buf@ =~= f.letters.take(keep as int) + f.letters.subrange(f.stem_len, k as int));
        }
        assert(f.letters.subrange(f.stem_len, k as int) =~= f.ending());
        assert(f.letters.take(keep as int) =~= f.stem().take(keep as int));
        self.buf = buf;
        self.stem_len = keep;
    }

    /// Inserts letters before the stem's last letter.
    pub fn insert_between_last_two_stem_chars(&mut self, insert: &[Utf8Letter])
        requires
            old(self).form().wf(),
            old(self).form().stem_len >= 1,
            old(self).form().letters.len() + insert@.len() <= usize::MAX,
        ensures
            final(self).form().wf(),
            final(self).stress() == old(self).stress(),
            final(self).form() == old(self).form().insert_before_last_stem_letter(insert@),
    {
        let ghost f = old(self).form();
        let last = self.buf[self.stem_len - 1];
        self.remove_stem_letter(self.stem_len - 1);
        let ghost g = self.form();
        self.append_to_stem(insert);
        let one = [last];
        self.append_to_stem(&one);
        assert(self.form().letters =~= f.insert_before_last_stem_letter(insert@).letters);
    }

    /// Removes the stem's second-to-last letter.
    pub fn remove_pre_last_stem_char(&mut self)
        requires
            old(self).form().wf(),
            old(self).form().stem_len >= 2,
        ensures
            final(self).form().wf(),
            final(self).stress() == old(self).stress(),
            final(self).form() == old(self).form().remove_stem_letter(
                old(self).form().stem_len - 2,
            ),
    {
        self.remove_stem_letter(self.stem_len - 2);
    }

    /// Removes the stem's letter at `i`.
    pub fn remove_stem_letter(&mut self, i: usize)
        requires
            old(self).form().wf(),
            i < old(self).form().stem_len,
        ensures
            final(self).form().wf(),
            final(self).stress() == old(self).stress(),
            final(self).form() == old(self).form().remove_stem_letter(i as int),
    {
        let mut buf = Vec::new();
        std::mem::swap(&mut buf, &mut self.buf);
        buf.remove(i);
        self.buf = buf;
        self.stem_len = self.stem_len - 1;
    }

    /// Removes the stem's letter at `i`.
    pub fn remove_stem_char_at(&mut self, i: usize)
        requires
            old(self).form().wf(),
            i < old(self).form().stem_len,
        ensures
            final(self).form().wf(),
            final(self).stress() == old(self).stress(),
            final(self).form() == old(self).form().remove_stem_letter(i as int),
    {
        self.remove_stem_letter(i)
    }

    /// Returns the letters and the stem's length.
    pub fn finish(self) -> (r: (Vec<Utf8Letter>, usize))
        requires
            self.form().wf(),
        ensures
            r.0@ == self.form().letters,
            r.1 == self.form().stem_len,
            r.1 <= r.0@.len(),
    {
        (self.buf, self.stem_len)
    }
}

/// The index of the first vowel in `s` from `i` on.
pub open spec fn spec_first_vowel_from(s: Seq<Utf8Letter>, i: int) -> Option<int>
    decreases s.len() - i,
{
    if i < 0 || i >= s.len() {
        None
    } else if s[i].spec_is_vowel() {
        Some(i)
    } else {
        spec_first_vowel_from(s, i + 1)
    }
}

/// The index of the last vowel in `s` before `i`.
pub open spec fn spec_last_vowel_before(s: Seq<Utf8Letter>, i: int) -> Option<int>
    decreases i,
{
    if i <= 0 || i > s.len() {
        None
    } else if s[i - 1].spec_is_vowel() {
        Some(i - 1)
    } else {
        spec_last_vowel_before(s, i - 1)
    }
}

/// The index of the first `l` in `s` from `i` on.
pub open spec fn spec_first_letter_from(s: Seq<Utf8Letter>, i: int, l: Utf8Letter) -> Option<int>
    decreases s.len() - i,
{
    if i < 0 || i >= s.len() {
        None
    } else if s[i] == l {
        Some(i)
    } else {
        spec_first_letter_from(s, i + 1, l)
    }
}

/// The index of the last `l` in `s` before `i`.
pub open spec fn spec_last_letter_before(s: Seq<Utf8Letter>, i: int, l: Utf8Letter) -> Option<int>
    decreases i,
{
    if i <= 0 || i > s.len() {
        None
    } else if s[i - 1] == l {
        Some(i - 1)
    } else {
        spec_last_letter_before(s, i - 1, l)
    }
}

/// The index of the first vowel in `s`.
pub open spec fn spec_first_vowel(s: Seq<Utf8Letter>) -> Option<int> {
    spec_first_vowel_from(s, 0)
}

/// The index of the last vowel in `s`.
pub open spec fn spec_last_vowel(s: Seq<Utf8Letter>) -> Option<int> {
    spec_last_vowel_before(s, s.len() as int)
}

/// Returns the index of the first vowel.
pub fn first_vowel(s: &[Utf8Letter]) -> (r: Option<usize>)
    ensures
        r is Some <==> spec_first_vowel(s@) is Some,
        r is Some ==> spec_first_vowel(s@) == Some(r.unwrap() as int) && r.unwrap() < s@.len(),
{
    let mut i: usize = 0;
    while i < s.len()
        invariant
            i <= s@.len(),
            spec_first_vowel(s@) == spec_first_vowel_from(s@, i as int),
        decreases s@.len() - i,
    {
        if s[i].is_vowel() {
            return Some(i);
        }
        i = i + 1;
    }
    None
}

/// Returns the index of the last vowel.
pub fn last_vowel(s: &[Utf8Letter]) -> (r: Option<usize>)
    ensures
        r is Some <==> spec_last_vowel(s@) is Some,
        r is Some ==> spec_last_vowel(s@) == Some(r.unwrap() as int) && r.unwrap() < s@.len(),
{
    let mut i: usize = s.len();
    while i > 0
        invariant
            i <= s@.len(),
            spec_last_vowel(s@) == spec_last_vowel_before(s@, i as int),
        decreases i,
    {
        if s[i - 1].is_vowel() {
            return Some(i - 1);
        }
        i = i - 1;
    }
    None
}

/// Returns the index of the first `l`.
pub fn first_letter(s: &[Utf8Letter], l: Utf8Letter) -> (r: Option<usize>)
    ensures
        r is Some <==> spec_first_letter_from(s@, 0, l) is Some,
        r is Some ==> spec_first_letter_from(s@, 0, l) == Some(r.unwrap() as int) && r.unwrap()
            < s@.len(),
{
    let mut i: usize = 0;
    while i < s.len()
        invariant
            i <= s@.len(),
            spec_first_letter_from(s@, 0, l) == spec_first_letter_from(s@, i as int, l),
        decreases s@.len() - i,
    {
        if s[i] == l {
            return Some(i);
        }
        i = i + 1;
    }
    None
}

/// Returns the index of the last `l`.
pub fn last_letter(s: &[Utf8Letter], l: Utf8Letter) -> (r: Option<usize>)
    ensures
        r is Some <==> spec_last_letter_before(s@, s@.len() as int, l) is Some,
        r is Some ==> spec_last_letter_before(s@, s@.len() as int, l) == Some(r.unwrap() as int)
            && r.unwrap() < s@.len(),
{
    let mut i: usize = s.len();
    while i > 0
        invariant
            i <= s@.len(),
            spec_last_letter_before(s@, s@.len() as int, l) == spec_last_letter_before(
                s@,
                i as int,
                l,
            ),
        decreases i,
    {
        if s[i - 1] == l {
            return Some(i - 1);
        }
        i = i - 1;
    }
    None
}

/// The stress position after inflection: just after the ending's first vowel where the
/// ending is stressed and has one, else the stem's own stress position, where it is known
/// (non-zero) and still within the word.
pub open spec fn spec_place_stress(stem_stress_at: int, form: Form, ending_stressed: bool) -> int {
    if stem_stress_at == 0 {
        0
    } else if ending_stressed && spec_first_vowel(form.ending()) is Some {
        form.stem_len + spec_first_vowel(form.ending()).unwrap() + 1
    } else if stem_stress_at <= form.letters.len() {
        stem_stress_at
    } else {
        0
    }
}

/// Returns the stress position after inflection: just after the ending's first vowel where
/// the ending is stressed and has one, else the stem's own stress position, where it is known
/// (non-zero) and still within the word.
pub fn place_stress(stem_stress_at: usize, buf: &InflectionBuf, ending_stressed: bool) -> (r: usize)
    requires
        buf.form().wf(),
    ensures
        r == spec_place_stress(stem_stress_at as int, buf.form(), ending_stressed),
        r <= buf.form().letters.len(),
{
    if stem_stress_at == 0 {
        return 0;
    }
    let n = buf.len();
    if ending_stressed {
        if let Some(i) = first_vowel(buf.ending()) {
            return buf.stem_len() + i + 1;
        }
    }
    if stem_stress_at <= n {
        stem_stress_at
    } else {
        0
    }
}

/// Returns the word in the buffer, with the stress placed after inflection.
pub fn finish_word(buf: InflectionBuf, stem_stress_at: usize, ending_stressed: bool) -> (r: WordBuf)
    requires
        buf.form().wf(),
    ensures
        r.letters() == buf.form().letters,
        r.stem_len() == buf.form().stem_len,
        r.stress_at() == spec_place_stress(stem_stress_at as int, buf.form(), ending_stressed),
{
    let stress_at = place_stress(stem_stress_at, &buf, ending_stressed);
    let (letters, stem_len) = buf.finish();
    WordBuf::new(letters, stem_len, stress_at)
}

/// The last vowel of a word made of `a`, a vowel and letters without a vowel is that vowel.
pub proof fn lemma_last_vowel_split(a: Seq<Utf8Letter>, v: Utf8Letter, b: Seq<Utf8Letter>)
    requires
        v.spec_is_vowel(),
        forall|i: int| 0 <= i < b.len() ==> !(#[trigger] b[i]).spec_is_vowel(),
    ensures
        spec_last_vowel(a + seq![v] + b) == Some(a.len() as int),
{
    let s = a + seq![v] + b;
    lemma_last_vowel_before_split(s, a.len() as int, s.len() as int);
}

proof fn lemma_last_vowel_before_split(s: Seq<Utf8Letter>, k: int, i: int)
    requires
        0 <= k < i <= s.len(),
        s[k].spec_is_vowel(),
        forall|j: int| k < j < s.len() ==> !(#[trigger] s[j]).spec_is_vowel(),
    ensures
        spec_last_vowel_before(s, i) == Some(k),
    decreases i,
{
    if i - 1 > k {
        lemma_last_vowel_before_split(s, k, i - 1);
    }
}

/// The first `l` in `s` is at `k` where `s` holds `l` at `k` and not before.
pub proof fn lemma_first_letter_at(s: Seq<Utf8Letter>, k: int, l: Utf8Letter)
    requires
        0 <= k < s.len(),
        s[k] == l,
        forall|j: int| 0 <= j < k ==> s[j] != l,
    ensures
        spec_first_letter_from(s, 0, l) == Some(k),
{
    lemma_first_letter_from_at(s, 0, k, l);
}

proof fn lemma_first_letter_from_at(s: Seq<Utf8Letter>, i: int, k: int, l: Utf8Letter)
    requires
        0 <= i <= k < s.len(),
        s[k] == l,
        forall|j: int| 0 <= j < k ==> s[j] != l,
    ensures
        spec_first_letter_from(s, i, l) == Some(k),
    decreases k - i,
{
    if i < k {
        lemma_first_letter_from_at(s, i + 1, k, l);
    }
}

/// No `l` is found in `s` where it holds none.
pub proof fn lemma_no_letter(s: Seq<Utf8Letter>, l: Utf8Letter)
    requires
        forall|j: int| 0 <= j < s.len() ==> s[j] != l,
    ensures
        spec_first_letter_from(s, 0, l) is None,
        spec_last_letter_before(s, s.len() as int, l) is None,
{
    lemma_no_letter_from(s, 0, l);
    lemma_no_letter_before(s, s.len() as int, l);
}

proof fn lemma_no_letter_from(s: Seq<Utf8Letter>, i: int, l: Utf8Letter)
    requires
        forall|j: int| 0 <= j < s.len() ==> s[j] != l,
    ensures
        spec_first_letter_from(s, i, l) is None,
    decreases s.len() - i,
{
    if 0 <= i < s.len() {
        lemma_no_letter_from(s, i + 1, l);
    }
}

proof fn lemma_no_letter_before(s: Seq<Utf8Letter>, i: int, l: Utf8Letter)
    requires
        forall|j: int| 0 <= j < s.len() ==> s[j] != l,
    ensures
        spec_last_letter_before(s, i, l) is None,
    decreases i,
{
    if 0 < i <= s.len() {
        lemma_no_letter_before(s, i - 1, l);
    }
}

/// The last `l` in `s` is at `k` where `s` holds `l` at `k` and not after.
pub proof fn lemma_last_letter_at(s: Seq<Utf8Letter>, k: int, l: Utf8Letter)
    requires
        0 <= k < s.len(),
        s[k] == l,
        forall|j: int| k < j < s.len() ==> s[j] != l,
    ensures
        spec_last_letter_before(s, s.len() as int, l) == Some(k),
{
    lemma_last_letter_before_at(s, s.len() as int, k, l);
}

proof fn lemma_last_letter_before_at(s: Seq<Utf8Letter>, i: int, k: int, l: Utf8Letter)
    requires
        0 <= k < i <= s.len(),
        s[k] == l,
        forall|j: int| k < j < s.len() ==> s[j] != l,
    ensures
        spec_last_letter_before(s, i, l) == Some(k),
    decreases i,
{
    if i - 1 > k {
        lemma_last_letter_before_at(s, i - 1, k, l);
    }
}

/// A word has a first vowel exactly where it holds a vowel, and it is at `k` where `s` holds
/// a vowel at `k` and none before.
pub proof fn lemma_first_vowel_exists(s: Seq<Utf8Letter>)
    ensures
        spec_first_vowel(s) is Some <==> exists|i: int| 0 <= i < s.len() && (#[trigger] s[i]).spec_is_vowel(),
        spec_first_vowel(s) matches Some(k) ==> 0 <= k < s.len() && s[k].spec_is_vowel() && (
        forall|j: int| 0 <= j < k ==> !(#[trigger] s[j]).spec_is_vowel()),
        forall|k: int|
            0 <= k < s.len() && (#[trigger] s[k]).spec_is_vowel() && (forall|j: int|
                0 <= j < k ==> !s[j].spec_is_vowel()) ==> spec_first_vowel(s) == Some(k),
{
    lemma_first_vowel_from_exists(s, 0);
}

proof fn lemma_first_vowel_from_exists(s: Seq<Utf8Letter>, i: int)
    requires
        0 <= i,
    ensures
        spec_first_vowel_from(s, i) is Some <==> exists|j: int| i <= j < s.len() && (#[trigger] s[j]).spec_is_vowel(),
        spec_first_vowel_from(s, i) matches Some(k) ==> i <= k < s.len() && s[k].spec_is_vowel() && (
        forall|j: int| i <= j < k ==> !(#[trigger] s[j]).spec_is_vowel()),
        forall|k: int|
            i <= k < s.len() && (#[trigger] s[k]).spec_is_vowel() && (forall|j: int|
                i <= j < k ==> !s[j].spec_is_vowel()) ==> spec_first_vowel_from(s, i) == Some(k),
    decreases s.len() - i,
{
    if i < s.len() {
        lemma_first_vowel_from_exists(s, i + 1);
        if !s[i].spec_is_vowel() {
            assert forall|k: int|
                i <= k < s.len() && (#[trigger] s[k]).spec_is_vowel() && (forall|j: int|
                    i <= j < k ==> !s[j].spec_is_vowel()) implies spec_first_vowel_from(s, i) == Some(k) by {
                assert(k != i);
            }
        }
    }
}

} // verus!
