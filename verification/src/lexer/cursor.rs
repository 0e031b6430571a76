//! A position in the characters of a source text.
use vstd::prelude::*;

use crate::lexer::rules::{char_in_class, lemma_skip_class_bounds, skip_class, CharClass};
use crate::text::{byte_len, byte_offset, chars_of, lemma_byte_offset_mono, lemma_byte_offset_step, utf8_width};

verus! {

/// The characters of a text together with a current index into them and the
/// byte offset of that index.
pub struct Cursor {
    pub chars: Vec<char>,
    pub index: usize,
    pub pos: usize,
}

impl Cursor {
    /// The cursor's index is in range, its byte offset is that of the index,
    /// and the whole text's byte length fits in a `usize`.
    pub open spec fn wf(&self) -> bool {
        &&& self.index <= self.chars@.len()
        &&& self.pos == byte_offset(self.chars@, self.index as int)
        &&& byte_len(self.chars@) <= usize::MAX
    }

    /// A cursor at the start of `text`.
    pub fn new(text: &str) -> (c: Cursor)
        ensures
            c.wf(),
            c.chars@ == text@,
            c.index == 0,
    {
        let bytes = text.as_bytes();
        let chars = chars_of(text);
        proof {
            assert(bytes@ == vstd::utf8::encode_utf8(text@));
            assert(chars@.take(0) =~= Seq::<char>::empty());
            assert(bytes@.len() == bytes.len());
            assert(byte_len(chars@) <= usize::MAX);
            assert(byte_offset(chars@, 0) == 0);
        }
        Cursor { chars, index: 0, pos: 0 }
    }

    /// Byte offset of the current position.
    pub fn position(&self) -> (p: usize)
        requires
            self.wf(),
        ensures
            p == byte_offset(self.chars@, self.index as int),
    {
        self.pos
    }

    /// Whether every character has been consumed.
    pub fn is_eof(&self) -> (b: bool)
        requires
            self.wf(),
        ensures
            b == (self.index == self.chars@.len()),
    {
        self.index >= self.chars.len()
    }

    /// The character `k` places after the current one, if there is one.
    pub fn peek_at(&self, k: usize) -> (r: Option<char>)
        requires
            self.wf(),
        ensures
            (self.index + k < self.chars@.len()) ==> r == Some(self.chars@[self.index + k]),
            (self.index + k >= self.chars@.len()) ==> r is None,
    {
        if k < self.chars.len() - self.index {
            Some(self.chars[self.index + k])
        } else {
            None
        }
    }

    /// The current character, if there is one.
    pub fn peek(&self) -> (r: Option<char>)
        requires
            self.wf(),
        ensures
            (self.index < self.chars@.len()) ==> r == Some(self.chars@[self.index as int]),
            (self.index >= self.chars@.len()) ==> r is None,
    {
        self.peek_at(0)
    }

    /// Consumes and returns the current character; does nothing at the end.
    pub fn bump(&mut self) -> (r: Option<char>)
        requires
            old(self).wf(),
        ensures
            final(self).wf(),
            final(self).chars@ == old(self).chars@,
            old(self).index < old(self).chars@.len() ==> final(self).index == old(self).index + 1
                && r == Some(old(self).chars@[old(self).index as int]),
            old(self).index >= old(self).chars@.len() ==> final(self).index == old(self).index
                && r is None,
    {
        if self.index < self.chars.len() {
            let c = self.chars[self.index];
            proof {
                lemma_byte_offset_step(self.chars@, self.index as int);
                lemma_byte_offset_mono(self.chars@, self.index + 1, self.chars@.len() as int);
            }
            let w = utf8_width(c);
            self.pos = self.pos + w;
            self.index = self.index + 1;
            Some(c)
        } else {
            None
        }
    }

    /// Consumes the current character if it is `c`, and says whether it did.
    pub fn bump_if(&mut self, c: char) -> (b: bool)
        requires
            old(self).wf(),
        ensures
            final(self).wf(),
            final(self).chars@ == old(self).chars@,
            b == (old(self).index < old(self).chars@.len() && old(self).chars@[old(
                self,
            ).index as int] == c),
            b ==> final(self).index == old(self).index + 1,
            !b ==> final(self).index == old(self).index,
    {
        if self.index < self.chars.len() && self.chars[self.index] == c {
            self.bump();
            true
        } else {
            false
        }
    }

    /// Consumes characters of `class` for as long as there are any.
    pub fn skip_class(&mut self, class: CharClass)
        requires
            old(self).wf(),
        ensures
            final(self).wf(),
            final(self).chars@ == old(self).chars@,
            final(self).index == skip_class(old(self).chars@, old(self).index as int, class),
    {
        let ghost start = self.index as int;
        let ghost cs = self.chars@;
        while self.index < self.chars.len() && char_in_class(&class, self.chars[self.index])
            invariant
                self.wf(),
                self.chars@ == cs,
                start <= self.index,
                skip_class(cs, start, class) == skip_class(cs, self.index as int, class),
            decreases self.chars@.len() - self.index,
        {
            self.bump();
        }
    }
}

} // verus!
