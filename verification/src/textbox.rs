//! Editable bounded text and single changing text lines.

use vstd::prelude::*;

use crate::ops::Font;

verus! {

/// Height of one changing text line in pixels.
pub const TEXT_LINE_HEIGHT: i16 = 16;

/// Characters of a string slice, in order.
pub fn str_chars(s: &str) -> (r: Vec<char>)
    ensures
        r@ == s@,
{
    let n = s.unicode_len();
    let mut r: Vec<char> = Vec::new();
    let mut i: usize = 0;
    while i < n
        invariant
            n == s@.len(),
            i <= n,
            r@ == s@.take(i as int),
        decreases n - i,
    {
        r.push(s.get_char(i));
        proof {
            assert(s@.take(i + 1) =~= s@.take(i as int).push(s@[i as int]));
        }
        i += 1;
    }
    proof {
        assert(s@.take(n as int) =~= s@);
    }
    r
}

/// A text being typed, holding at most `N` characters.
pub struct TextBox<const N: usize> {
    pub chars: Vec<char>,
}

impl<const N: usize> TextBox<N> {
    /// The content never exceeds the capacity.
    pub open spec fn wf(&self) -> bool {
        self.chars@.len() <= N
    }

    pub fn empty() -> (r: TextBox<N>)
        ensures
            r.chars@ == Seq::<char>::empty(),
            r.wf(),
    {
        TextBox { chars: Vec::new() }
    }

    pub fn content(&self) -> (r: &Vec<char>)
        ensures
            r@ == self.chars@,
    {
        &self.chars
    }

    pub fn len(&self) -> (n: usize)
        ensures
            n == self.chars@.len(),
    {
        self.chars.len()
    }

    pub fn is_empty(&self) -> (r: bool)
        ensures
            r == (self.chars@.len() == 0),
    {
        self.chars.len() == 0
    }

    pub fn is_full(&self) -> (r: bool)
        ensures
            r == (self.chars@.len() >= N),
    {
        self.chars.len() >= N
    }

    /// Appends one character; the caller checks for room first.
    pub fn append(&mut self, c: char)
        requires
            old(self).chars@.len() < N,
        ensures
            final(self).chars@ == old(self).chars@.push(c),
    {
        self.chars.push(c);
    }

    /// Removes the last character, if any.
    pub fn delete_last(&mut self)
        ensures
            old(self).chars@.len() == 0 ==> final(self).chars@ == old(self).chars@,
            old(self).chars@.len() > 0 ==> final(self).chars@ == old(self).chars@.drop_last(),
    {
        if self.chars.len() > 0 {
            let _dropped = self.chars.pop();
        }
    }
}

/// A single line of changing text, shown or hidden as a whole.
pub struct ChangingTextLine {
    pub chars: Vec<char>,
    pub font: Font,
    pub centered: bool,
    pub visible: bool,
}

impl ChangingTextLine {
    /// A centered bold line.
    pub fn center_bold(chars: Vec<char>) -> (r: ChangingTextLine)
        ensures
            r.chars@ == chars@,
            r.font == Font::Bold,
            r.centered,
            r.visible,
    {
        ChangingTextLine { chars, font: Font::Bold, centered: true, visible: true }
    }

    /// A centered monospace line.
    pub fn center_mono(chars: Vec<char>) -> (r: ChangingTextLine)
        ensures
            r.chars@ == chars@,
            r.font == Font::Mono,
            r.centered,
            r.visible,
    {
        ChangingTextLine { chars, font: Font::Mono, centered: true, visible: true }
    }

    pub fn update_text(&mut self, chars: Vec<char>)
        ensures
            *final(self) == (ChangingTextLine { chars: final(self).chars, ..*old(self) }),
            final(self).chars@ == chars@,
    {
        self.chars = chars;
    }

    pub fn get_text(&self) -> (r: &Vec<char>)
        ensures
            r@ == self.chars@,
    {
        &self.chars
    }

    /// Shows or hides the line.
    pub fn show_or_not(&mut self, show: bool)
        ensures
            *final(self) == (ChangingTextLine { visible: show, ..*old(self) }),
    {
        self.visible = show;
    }

    /// Vertical space the line needs: one line when visible, none when not.
    pub fn needed_height(&self) -> (h: i16)
        ensures
            self.visible ==> h == TEXT_LINE_HEIGHT,
            !self.visible ==> h == 0,
    {
        if self.visible {
            TEXT_LINE_HEIGHT
        } else {
            0
        }
    }
}

} // verus!
