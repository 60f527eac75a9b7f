//! The one-line command input.

use vstd::prelude::*;
use vstd::string::*;
use crate::text::characters;

verus! {

/// Whether keystrokes go to the input line or to the player controls.
#[derive(Debug, Clone, Copy, PartialEq, Eq, Structural)]
pub enum InputMode {
    Normal,
    Editing,
}

/// Number of bytes that UTF-8 takes for `c`.
pub open spec fn utf8_width(c: char) -> nat {
    if (c as u32) < 0x80 {
        1
    } else if (c as u32) < 0x800 {
        2
    } else if (c as u32) < 0x10000 {
        3
    } else {
        4
    }
}

/// Number of bytes that UTF-8 takes for `s`: the widths of its characters, added up.
pub open spec fn byte_len(s: Seq<char>) -> nat
    decreases s.len(),
{
    if s.len() == 0 {
        0
    } else {
        byte_len(s.drop_last()) + utf8_width(s.last())
    }
}

/// Whether byte offset `at` of the UTF-8 form of `s` is where a character
/// starts, or the end of the text.
pub open spec fn on_boundary(s: Seq<char>, at: int) -> bool {
    exists|k: int| 0 <= k <= s.len() && #[trigger] byte_len(s.take(k)) == at
}

/// The number of characters before byte offset `at`, for an offset on a boundary.
pub open spec fn chars_before(s: Seq<char>, at: int) -> int {
    choose|k: int| 0 <= k <= s.len() && #[trigger] byte_len(s.take(k)) == at
}

/// A prefix longer by one character is longer by that character's width.
pub proof fn lemma_byte_len_step(s: Seq<char>, k: int)
    requires
        0 <= k < s.len(),
    ensures
        byte_len(s.take(k + 1)) == byte_len(s.take(k)) + utf8_width(s[k]),
{
    assert(s.take(k + 1).drop_last() =~= s.take(k));
}

/// Longer prefixes take more bytes, at least one for each further character.
pub proof fn lemma_byte_len_grows(s: Seq<char>, i: int, j: int)
    requires
        0 <= i <= j <= s.len(),
    ensures
        byte_len(s.take(i)) + (j - i) <= byte_len(s.take(j)),
    decreases j - i,
{
    if i < j {
        lemma_byte_len_grows(s, i, j - 1);
        lemma_byte_len_step(s, j - 1);
    }
}

/// A boundary belongs to exactly one character count.
pub proof fn lemma_boundary_unique(s: Seq<char>, i: int, j: int)
    requires
        0 <= i <= s.len(),
        0 <= j <= s.len(),
        byte_len(s.take(i)) == byte_len(s.take(j)),
    ensures
        i == j,
{
    if i < j {
        lemma_byte_len_grows(s, i, j);
    } else if j < i {
        lemma_byte_len_grows(s, j, i);
    }
}

/// The character count of the boundary that `k` characters end on is `k`.
pub proof fn lemma_chars_before(s: Seq<char>, k: int)
    requires
        0 <= k <= s.len(),
    ensures
        on_boundary(s, byte_len(s.take(k)) as int),
        chars_before(s, byte_len(s.take(k)) as int) == k,
{
    let at = byte_len(s.take(k)) as int;
    let c = chars_before(s, at);
    lemma_boundary_unique(s, c, k);
}

/// `String::insert` of std puts one character at a byte offset. The offset
/// has to be on a character boundary. The text afterwards is the old text
/// with the character in front of the one that started at the offset, and
/// its UTF-8 length is a `usize`, as every `String`'s is.
pub assume_specification[ String::insert ](s: &mut String, idx: usize, ch: char)
    requires
        on_boundary(old(s)@, idx as int),
    ensures
        final(s)@ == old(s)@.insert(chars_before(old(s)@, idx as int), ch),
        byte_len(final(s)@) <= usize::MAX,
;

/// `String::remove` of std takes out the character that starts at a byte
/// offset and returns it. The offset has to be where a character starts.
pub assume_specification[ String::remove ](s: &mut String, idx: usize) -> (ch: char)
    requires
        on_boundary(old(s)@, idx as int),
        chars_before(old(s)@, idx as int) < old(s)@.len(),
    ensures
        ch == old(s)@[chars_before(old(s)@, idx as int)],
        final(s)@ == old(s)@.remove(chars_before(old(s)@, idx as int)),
;

/// Number of bytes that UTF-8 takes for `c`.
pub fn char_width(c: char) -> (w: usize)
    ensures
        w == utf8_width(c),
        1 <= w <= 4,
{
    let code = c as u32;
    if code < 0x80 {
        1
    } else if code < 0x800 {
        2
    } else if code < 0x10000 {
        3
    } else {
        4
    }
}

/// The input line: its text, the byte offset of the caret in the text's
/// UTF-8 form, and the mode.
#[derive(Debug, PartialEq, Eq)]
pub struct InputState {
    pub text: String,
    pub cursor: usize,
    pub mode: InputMode,
}

/// What an [`InputState`] is, as plain mathematical values.
pub ghost struct InputView {
    pub text: Seq<char>,
    pub cursor: usize,
    pub mode: InputMode,
}

impl InputView {
    /// The caret stands on a character boundary of the text.
    pub open spec fn wf(self) -> bool {
        on_boundary(self.text, self.cursor as int)
    }

    /// Number of characters in front of the caret.
    pub open spec fn caret(self) -> int {
        chars_before(self.text, self.cursor as int)
    }

    /// The empty line in the same mode.
    pub open spec fn cleared(self) -> InputView {
        InputView { text: Seq::empty(), cursor: 0, mode: self.mode }
    }

    /// The line after typing `c`: `c` stands where the caret was and the
    /// caret has moved behind it.
    pub open spec fn typed(self, c: char) -> InputView {
        InputView {
            text: self.text.insert(self.caret(), c),
            cursor: (self.cursor + utf8_width(c)) as usize,
            mode: self.mode,
        }
    }

    /// The line after a backspace: the character in front of the caret is
    /// gone and the caret stands where it started. At the start of the line
    /// nothing changes.
    pub open spec fn erased(self) -> InputView {
        if self.cursor == 0 {
            self
        } else {
            InputView {
                text: self.text.remove(self.caret() - 1),
                cursor: (self.cursor - utf8_width(self.text[self.caret() - 1])) as usize,
                mode: self.mode,
            }
        }
    }
}

impl View for InputState {
    type V = InputView;

    open spec fn view(&self) -> InputView {
        InputView { text: self.text@, cursor: self.cursor, mode: self.mode }
    }
}

impl Clone for InputState {
    fn clone(&self) -> (r: Self)
        ensures
            r@ == self@,
    {
        InputState { text: self.text.clone(), cursor: self.cursor, mode: self.mode }
    }
}

impl Default for InputState {
    fn default() -> (r: Self)
        ensures
            r@ == (InputView { text: Seq::empty(), cursor: 0, mode: InputMode::Normal }),
            r@.wf(),
    {
        let r = InputState { text: String::new(), cursor: 0, mode: InputMode::Normal };
        proof {
            lemma_chars_before(r@.text, 0);
        }
        r
    }
}

impl InputState {
    /// Whether the caret stands on a character boundary of the text, which
    /// is what [`InputState::insert`] and [`InputState::backspace`] ask for.
    pub fn is_well_formed(&self) -> (ok: bool)
        ensures
            ok == self@.wf(),
    {
        let chars = characters(self.text.as_str());
        let n = chars.len();
        let mut i: usize = 0;
        let mut pos: usize = 0;
        proof {
            lemma_chars_before(self@.text, 0);
        }
        while i < n && pos < self.cursor
            invariant
                chars@ == self@.text,
                n == self@.text.len(),
                0 <= i <= n,
                pos == byte_len(self@.text.take(i as int)),
                pos <= self.cursor || !self@.wf(),
                forall|k: int| 0 <= k < i ==> byte_len(#[trigger] self@.text.take(k)) != self.cursor,
            decreases n - i,
        {
            let w = char_width(chars[i]);
            proof {
                lemma_byte_len_step(self@.text, i as int);
            }
            if w > self.cursor - pos {
                proof {
                    // the caret lies strictly inside character `i`
                    assert forall|k: int| 0 <= k <= n implies byte_len(
                        #[trigger] self@.text.take(k),
                    ) != self.cursor by {
                        if k > i {
                            lemma_byte_len_grows(self@.text, i as int + 1, k);
                        }
                    }
                }
                return false;
            }
            pos = pos + w;
            i = i + 1;
        }
        proof {
            if pos == self.cursor {
                lemma_chars_before(self@.text, i as int);
            } else if pos < self.cursor {
                assert forall|k: int| 0 <= k <= n implies byte_len(
                    #[trigger] self@.text.take(k),
                ) != self.cursor by {
                    if k < n {
                    } else {
                    }
                }
            }
        }
        pos == self.cursor
    }

    /// Types `c` at the caret.
    pub fn insert(&mut self, c: char)
        requires
            old(self)@.wf(),
        ensures
            final(self)@ == old(self)@.typed(c),
            final(self)@.wf(),
            final(self)@.caret() == old(self)@.caret() + 1,
    {
        let ghost k = self@.caret();
        let ghost before = self@.text;
        self.text.insert(self.cursor, c);
        let w = char_width(c);
        proof {
            let after = self@.text;
            assert(after.take(k + 1).drop_last() =~= before.take(k));
            assert(after.take(k + 1).last() == c);
            lemma_byte_len_grows(after, k + 1, after.len() as int);
            assert(after.take(after.len() as int) =~= after);
            lemma_chars_before(after, k + 1);
        }
        self.cursor = self.cursor + w;
    }

    /// Removes the character in front of the caret, if there is one.
    pub fn backspace(&mut self)
        requires
            old(self)@.wf(),
        ensures
            final(self)@ == old(self)@.erased(),
            final(self)@.wf(),
            old(self)@.cursor > 0 ==> final(self)@.caret() == old(self)@.caret() - 1,
    {
        if self.cursor > 0 {
            let ghost k = self@.caret();
            let ghost before = self@.text;
            let chars = characters(self.text.as_str());
            let n = chars.len();
            let mut i: usize = 0;
            let mut pos: usize = 0;
            let mut prev: usize = 0;
            while pos < self.cursor
                invariant
                    chars@ == before,
                    n == before.len(),
                    before == self@.text,
                    0 <= k <= n,
                    byte_len(before.take(k)) == self.cursor,
                    0 <= i <= k,
                    pos == byte_len(before.take(i as int)),
                    pos <= self.cursor,
                    i > 0 ==> prev == byte_len(before.take(i - 1)),
                decreases k - i,
            {
                proof {
                    if i == k {
                        assert(false);
                    }
                    lemma_byte_len_step(before, i as int);
                    lemma_byte_len_grows(before, i as int + 1, k);
                }
                prev = pos;
                pos = pos + char_width(chars[i]);
                i = i + 1;
            }
            proof {
                lemma_boundary_unique(before, i as int, k);
                assert(before.take(0) =~= Seq::<char>::empty());
                lemma_chars_before(before, k - 1);
                lemma_byte_len_step(before, k - 1);
            }
            let _ = self.text.remove(prev);
            proof {
                let after = self@.text;
                assert(after.take(k - 1) =~= before.take(k - 1));
                lemma_chars_before(after, k - 1);
            }
            self.cursor = prev;
        }
    }

    /// Empties the line and puts the caret at its start.
    pub fn clear(&mut self)
        ensures
            final(self)@ == old(self)@.cleared(),
            final(self)@.wf(),
    {
        self.text = String::new();
        self.cursor = 0;
        proof {
            lemma_chars_before(self@.text, 0);
        }
    }

    /// Hands out the text typed so far and empties the line.
    pub fn submit(&mut self) -> (text: String)
        ensures
            text@ == old(self)@.text,
            final(self)@ == old(self)@.cleared(),
            final(self)@.wf(),
    {
        let text = self.text.clone();
        self.clear();
        text
    }
}

} // verus!
