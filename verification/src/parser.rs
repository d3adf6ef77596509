//! A cursor over the characters of a string, used by all the parsers of this crate.

use crate::letter::Utf8Letter;
use crate::text::str_chars;
use vstd::prelude::*;

verus! {

/// The position after `c`, if `c` stands at `pos` in `s`; otherwise `pos`.
pub open spec fn spec_skip(s: Seq<char>, pos: int, c: char) -> int {
    if 0 <= pos < s.len() && s[pos] == c {
        pos + 1
    } else {
        pos
    }
}

/// `true` if the string `t` stands at `pos` in `s`.
pub open spec fn spec_starts_with_at(s: Seq<char>, pos: int, t: Seq<char>) -> bool {
    0 <= pos && pos + t.len() <= s.len() && s.subrange(pos, pos + t.len()) == t
}

/// The position after `t`, if `t` stands at `pos` in `s`; otherwise `pos`.
pub open spec fn spec_skip_str(s: Seq<char>, pos: int, t: Seq<char>) -> int {
    if spec_starts_with_at(s, pos, t) {
        pos + t.len()
    } else {
        pos
    }
}

/// The character at `pos` in `s`, if there is one.
pub open spec fn spec_peek(s: Seq<char>, pos: int) -> Option<char> {
    if 0 <= pos < s.len() {
        Some(s[pos])
    } else {
        None
    }
}

/// A cursor over the characters of a string.
///
/// The cursor only moves forward; every reading method either consumes what it reads, or
/// leaves the cursor where it was.
pub struct UnsafeParser {
    chars: Vec<char>,
    pos: usize,
}

impl UnsafeParser {
    #[verifier::type_invariant]
    spec fn inv(self) -> bool {
        self.pos <= self.chars.len()
    }

    /// The characters of the parsed string.
    pub closed spec fn chars(self) -> Seq<char> {
        self.chars@
    }

    /// The current position in the parsed string, counted in characters.
    pub closed spec fn pos(self) -> int {
        self.pos as int
    }

    /// Constructs a parser at the start of the string.
    pub fn new(s: &str) -> (r: Self)
        ensures
            0 <= r.pos() <= r.chars().len(),
            r.chars() == s@,
            r.pos() == 0,
    {
        UnsafeParser { chars: str_chars(s), pos: 0 }
    }

    /// Returns the number of characters left to parse.
    pub fn remaining_len(&self) -> (r: usize)
        ensures
            0 <= self.pos() <= self.chars().len(),
            r == self.chars().len() - self.pos(),
    {
        proof {
            use_type_invariant(self);
        }
        self.chars.len() - self.pos
    }

    /// Returns the characters left to parse.
    pub fn remaining(&self) -> (r: Vec<char>)
        ensures
            r@ == self.chars().skip(self.pos()),
    {
        proof {
            use_type_invariant(self);
        }
        let mut r: Vec<char> = Vec::new();
        let mut i = self.pos;
        while i < self.chars.len()
            invariant
                self.pos <= i <= self.chars.len(),
                r@ == self.chars@.subrange(self.pos as int, i as int),
            decreases self.chars.len() - i,
        {
            r.push(self.chars[i]);
            i = i + 1;
            assert(r@ =~= self.chars@.subrange(self.pos as int, i as int));
        }
        assert(r@ =~= self.chars@.skip(self.pos as int));
        r
    }

    /// Returns `true` if there is nothing left to parse.
    pub fn finished(&self) -> (r: bool)
        ensures
            0 <= self.pos() <= self.chars().len(),
            r == (self.pos() >= self.chars().len()),
    {
        proof {
            use_type_invariant(self);
        }
        self.pos == self.chars.len()
    }

    /// Moves the cursor forward by `dist` characters.
    pub fn forward(&mut self, dist: usize)
        requires
            old(self).pos() + dist <= old(self).chars().len(),
        ensures
            0 <= final(self).pos() <= final(self).chars().len(),
            final(self).chars() == old(self).chars(),
            final(self).pos() == old(self).pos() + dist,
    {
        proof {
            use_type_invariant(&*self);
        }
        self.pos = self.pos + dist;
    }

    /// Returns the next character, without consuming it.
    pub fn peek_char(&self) -> (r: Option<char>)
        ensures
            0 <= self.pos() <= self.chars().len(),
            r == spec_peek(self.chars(), self.pos()),
    {
        proof {
            use_type_invariant(self);
        }
        if self.pos < self.chars.len() {
            Some(self.chars[self.pos])
        } else {
            None
        }
    }

    /// Returns the character `offset` characters ahead of the cursor, without consuming it.
    pub fn peek_at(&self, offset: usize) -> (r: Option<char>)
        ensures
            0 <= self.pos() <= self.chars().len(),
            r == spec_peek(self.chars(), self.pos() + offset),
    {
        proof {
            use_type_invariant(self);
        }
        if offset < self.chars.len() - self.pos {
            Some(self.chars[self.pos + offset])
        } else {
            None
        }
    }

    /// Returns the next character as a letter, without consuming it. Returns `None` if there
    /// is nothing left, or if the next character is not a lowercase Russian letter.
    pub fn peek_letter(&self) -> (r: Option<Utf8Letter>)
        ensures
            r matches Some(l) ==> spec_peek(self.chars(), self.pos()) == Some(l.spec_char()),
            r is None ==> !(spec_peek(self.chars(), self.pos()) matches Some(c)
                && crate::letter::is_lowercase_russian_char(c)),
    {
        match self.peek_char() {
            Some(c) => Utf8Letter::from_char(c),
            None => None,
        }
    }

    /// Reads the next character.
    pub fn read_char(&mut self) -> (r: Option<char>)
        ensures
            0 <= final(self).pos() <= final(self).chars().len(),
            final(self).chars() == old(self).chars(),
            r == spec_peek(old(self).chars(), old(self).pos()),
            final(self).pos() == if r is Some {
                old(self).pos() + 1
            } else {
                old(self).pos()
            },
    {
        proof {
            use_type_invariant(&*self);
        }
        if self.pos < self.chars.len() {
            let c = self.chars[self.pos];
            self.pos = self.pos + 1;
            Some(c)
        } else {
            None
        }
    }

    /// Skips the next character, if there is one. Returns `true` if a character was skipped.
    pub fn skip_char(&mut self) -> (r: bool)
        ensures
            0 <= final(self).pos() <= final(self).chars().len(),
            final(self).chars() == old(self).chars(),
            r == (old(self).pos() < old(self).chars().len()),
            final(self).pos() == if r {
                old(self).pos() + 1
            } else {
                old(self).pos()
            },
    {
        self.read_char().is_some()
    }

    /// Skips the character `c`, if it is next. Returns `true` if it was skipped.
    pub fn skip(&mut self, c: char) -> (r: bool)
        ensures
            0 <= final(self).pos() <= final(self).chars().len(),
            final(self).chars() == old(self).chars(),
            final(self).pos() == spec_skip(old(self).chars(), old(self).pos(), c),
            r == (final(self).pos() != old(self).pos()),
    {
        proof {
            use_type_invariant(&*self);
        }
        if self.pos < self.chars.len() && self.chars[self.pos] == c {
            self.pos = self.pos + 1;
            true
        } else {
            false
        }
    }

    /// Returns `true` if the characters `t` come next.
    pub fn starts_with(&self, t: &[char]) -> (r: bool)
        ensures
            0 <= self.pos() <= self.chars().len(),
            r == spec_starts_with_at(self.chars(), self.pos(), t@),
    {
        proof {
            use_type_invariant(self);
        }
        if t.len() > self.chars.len() - self.pos {
            return false;
        }
        let mut i: usize = 0;
        while i < t.len()
            invariant
                self.pos + t.len() <= self.chars.len(),
                i <= t.len(),
                forall|j: int| 0 <= j < i ==> self.chars@[self.pos + j] == t@[j],
            decreases t.len() - i,
        {
            if self.chars[self.pos + i] != t[i] {
                assert(self.chars@.subrange(self.pos as int, self.pos + t.len())[i as int]
                    != t@[i as int]);
                return false;
            }
            i = i + 1;
        }
        assert(self.chars@.subrange(self.pos as int, self.pos + t.len()) =~= t@);
        true
    }

    /// Skips the string `s`, if it comes next. Returns `true` if it was skipped.
    pub fn skip_str(&mut self, s: &str) -> (r: bool)
        ensures
            0 <= final(self).pos() <= final(self).chars().len(),
            final(self).chars() == old(self).chars(),
            final(self).pos() == spec_skip_str(old(self).chars(), old(self).pos(), s@),
            r == spec_starts_with_at(old(self).chars(), old(self).pos(), s@),
    {
        proof {
            use_type_invariant(&*self);
        }
        let t = str_chars(s);
        if self.starts_with(t.as_slice()) {
            self.pos = self.pos + t.len();
            true
        } else {
            false
        }
    }
}

} // verus!
