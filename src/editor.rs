//! The text being edited, its cursor, and the terminal output that keeps the
//! visible line in step with it.
use vstd::prelude::*;
use crate::echo::{PrintChar, echo, repeat, push_echo, push_repeat};

verus! {

/// Moves the terminal cursor one column left.
pub const BS: char = '\u{8}';

/// The control sequence `ESC [ 1 C`, `n` times: moves the terminal cursor `n`
/// columns right without printing.
pub open spec fn cursor_right(n: nat) -> Seq<char>
    decreases n,
{
    if n == 0 {
        Seq::empty()
    } else {
        cursor_right((n - 1) as nat) + seq!['\u{1b}', '[', '1', 'C']
    }
}

/// The text of a line and the cursor position in it.
pub struct LineModel {
    pub chars: Seq<char>,
    pub cursor: int,
}

/// Terminal output that is shown only when the policy prints something.
pub open spec fn shown(pc: PrintChar, out: Seq<char>) -> Seq<char> {
    if pc is Suppress {
        Seq::empty()
    } else {
        out
    }
}

/// Typing `ch`: it goes in at the cursor; the rest of the line is printed
/// again and the terminal cursor brought back to just after `ch`.
pub open spec fn insert_spec(m: LineModel, ch: char, pc: PrintChar) -> (LineModel, Seq<char>) {
    let nb = m.chars.insert(m.cursor, ch);
    (
        LineModel { chars: nb, cursor: m.cursor + 1 },
        shown(pc, echo(pc, nb.subrange(m.cursor, nb.len() as int)) + repeat(BS, (nb.len() - 1 - m.cursor) as nat)),
    )
}

/// Backspace: removes the character before the cursor, prints the rest of
/// the line and a space over its old last column, and returns the terminal
/// cursor. Nothing happens at the start of the line.
pub open spec fn backspace_spec(m: LineModel, pc: PrintChar) -> (LineModel, Seq<char>) {
    if m.cursor == 0 {
        (m, Seq::empty())
    } else {
        let nb = m.chars.remove(m.cursor - 1);
        (
            LineModel { chars: nb, cursor: m.cursor - 1 },
            shown(pc, seq![BS] + echo(pc, nb.subrange(m.cursor - 1, nb.len() as int)) + seq![' ']
                + repeat(BS, (nb.len() + 2 - m.cursor) as nat)),
        )
    }
}

/// Delete: removes the character under the cursor, which stays where it is.
/// Nothing happens where the cursor is on the last character or past it.
pub open spec fn delete_spec(m: LineModel, pc: PrintChar) -> (LineModel, Seq<char>) {
    if m.cursor + 1 >= m.chars.len() {
        (m, Seq::empty())
    } else {
        let nb = m.chars.remove(m.cursor);
        (
            LineModel { chars: nb, cursor: m.cursor },
            shown(pc, echo(pc, nb.subrange(m.cursor, nb.len() as int)) + seq![' ']
                + repeat(BS, (nb.len() + 1 - m.cursor) as nat)),
        )
    }
}

/// One column left, where there is one.
pub open spec fn left_spec(m: LineModel, pc: PrintChar) -> (LineModel, Seq<char>) {
    if m.cursor == 0 {
        (m, Seq::empty())
    } else {
        (LineModel { chars: m.chars, cursor: m.cursor - 1 }, shown(pc, seq![BS]))
    }
}

/// One column right, where there is one.
pub open spec fn right_spec(m: LineModel, pc: PrintChar) -> (LineModel, Seq<char>) {
    if m.cursor >= m.chars.len() {
        (m, Seq::empty())
    } else {
        (LineModel { chars: m.chars, cursor: m.cursor + 1 }, shown(pc, cursor_right(1)))
    }
}

/// To the start of the line.
pub open spec fn home_spec(m: LineModel, pc: PrintChar) -> (LineModel, Seq<char>) {
    (LineModel { chars: m.chars, cursor: 0 }, shown(pc, repeat(BS, m.cursor as nat)))
}

/// To the end of the line.
pub open spec fn end_spec(m: LineModel, pc: PrintChar) -> (LineModel, Seq<char>) {
    (
        LineModel { chars: m.chars, cursor: m.chars.len() as int },
        shown(pc, cursor_right((m.chars.len() - m.cursor) as nat)),
    )
}

/// Replacing the whole line by `text`, with the cursor at its end: the
/// terminal cursor goes back by the old length, `text` is printed, and the
/// columns that the old line held past it are blanked.
pub open spec fn replace_spec(m: LineModel, text: Seq<char>, pc: PrintChar) -> (LineModel, Seq<char>) {
    let old_len = m.chars.len();
    let tail = if old_len > text.len() {
        repeat(' ', (old_len - text.len()) as nat) + repeat(BS, (old_len - text.len()) as nat)
    } else {
        Seq::empty()
    };
    (LineModel { chars: text, cursor: text.len() as int }, shown(pc, repeat(BS, old_len) + echo(pc, text) + tail))
}

/// Delete with the cursor on the last character changes nothing and prints
/// nothing.
pub proof fn lemma_delete_on_last_char(m: LineModel, pc: PrintChar)
    requires
        m.chars.len() > 0,
        m.cursor == m.chars.len() - 1,
    ensures
        delete_spec(m, pc) == (m, Seq::<char>::empty()),
{
}

/// Relies on String::push: appends one character to the string.
#[verifier::external_body]
pub(crate) fn push_char(s: &mut String, c: char)
    ensures
        final(s)@ == old(s)@.push(c),
{
    s.push(c)
}

/// Appends the control sequence that moves the terminal cursor right, `n` times.
fn push_cursor_right(out: &mut Vec<char>, n: usize)
    ensures
        final(out)@ == old(out)@ + cursor_right(n as nat),
{
    let mut i: usize = 0;
    while i < n
        invariant
            i <= n,
            out@ == old(out)@ + cursor_right(i as nat),
        decreases n - i,
    {
        out.push('\u{1b}');
        out.push('[');
        out.push('1');
        out.push('C');
        assert(cursor_right((i + 1) as nat) == cursor_right(i as nat) + seq!['\u{1b}', '[', '1', 'C']);
        assert(old(out)@ + cursor_right((i + 1) as nat) =~= old(out)@ + cursor_right(i as nat) + seq!['\u{1b}', '[', '1', 'C']);
        i = i + 1;
    }
}

/// The line being edited.
pub struct LineBuffer {
    chars: Vec<char>,
    cursor: usize,
}

impl View for LineBuffer {
    type V = LineModel;

    closed spec fn view(&self) -> LineModel {
        LineModel { chars: self.chars@, cursor: self.cursor as int }
    }
}

impl LineBuffer {
    /// The cursor lies within the line or just past its end.
    pub open spec fn wf(&self) -> bool {
        0 <= self@.cursor <= self@.chars.len()
    }

    /// An empty line.
    pub fn new() -> (r: Self)
        ensures
            r.wf(),
            r@.chars == Seq::<char>::empty(),
            r@.cursor == 0,
    {
        LineBuffer { chars: Vec::new(), cursor: 0 }
    }

    pub fn cursor(&self) -> (r: usize)
        ensures
            r == self@.cursor,
    {
        self.cursor
    }

    pub fn len(&self) -> (r: usize)
        ensures
            r == self@.chars.len(),
    {
        self.chars.len()
    }

    /// The line as a string.
    pub fn text(&self) -> (r: String)
        ensures
            r@ == self@.chars,
    {
        let mut s = String::new();
        let mut i: usize = 0;
        while i < self.chars.len()
            invariant
                i <= self.chars@.len(),
                s@ == self.chars@.subrange(0, i as int),
            decreases self.chars@.len() - i,
        {
            push_char(&mut s, self.chars[i]);
            assert(self.chars@.subrange(0, i + 1) =~= self.chars@.subrange(0, i as int).push(self.chars@[i as int]));
            i = i + 1;
        }
        assert(self.chars@.subrange(0, self.chars@.len() as int) =~= self.chars@);
        s
    }

    pub fn insert(&mut self, ch: char, pc: PrintChar) -> (out: Vec<char>)
        requires
            old(self).wf(),
        ensures
            final(self).wf(),
            (final(self)@, out@) == insert_spec(old(self)@, ch, pc),
    {
        self.chars.insert(self.cursor, ch);
        let len = self.chars.len();
        let mut out: Vec<char> = Vec::new();
        if pc != PrintChar::Suppress {
            push_echo(&mut out, pc, &self.chars, self.cursor);
            push_repeat(&mut out, BS, len - 1 - self.cursor);
        }
        self.cursor = self.cursor + 1;
        assert(out@ =~= insert_spec(old(self)@, ch, pc).1);
        assert(self@ == insert_spec(old(self)@, ch, pc).0);
        out
    }

    pub fn backspace(&mut self, pc: PrintChar) -> (out: Vec<char>)
        requires
            old(self).wf(),
        ensures
            final(self).wf(),
            (final(self)@, out@) == backspace_spec(old(self)@, pc),
    {
        let mut out: Vec<char> = Vec::new();
        if self.cursor == 0 {
            return out;
        }
        let _ = self.chars.remove(self.cursor - 1);
        self.cursor = self.cursor - 1;
        if pc != PrintChar::Suppress {
            out.push(BS);
            push_echo(&mut out, pc, &self.chars, self.cursor);
            out.push(' ');
            push_repeat(&mut out, BS, self.chars.len() - self.cursor);
            push_repeat(&mut out, BS, 1);
        }
        assert(out@ =~= backspace_spec(old(self)@, pc).1);
        assert(self@ == backspace_spec(old(self)@, pc).0);
        out
    }

    pub fn delete(&mut self, pc: PrintChar) -> (out: Vec<char>)
        requires
            old(self).wf(),
        ensures
            final(self).wf(),
            (final(self)@, out@) == delete_spec(old(self)@, pc),
    {
        let mut out: Vec<char> = Vec::new();
        if self.chars.len() == 0 || self.cursor >= self.chars.len() - 1 {
            return out;
        }
        let _ = self.chars.remove(self.cursor);
        if pc != PrintChar::Suppress {
            push_echo(&mut out, pc, &self.chars, self.cursor);
            out.push(' ');
            push_repeat(&mut out, BS, self.chars.len() - self.cursor);
            push_repeat(&mut out, BS, 1);
        }
        assert(out@ =~= delete_spec(old(self)@, pc).1);
        assert(self@ == delete_spec(old(self)@, pc).0);
        out
    }

    pub fn left(&mut self, pc: PrintChar) -> (out: Vec<char>)
        requires
            old(self).wf(),
        ensures
            final(self).wf(),
            (final(self)@, out@) == left_spec(old(self)@, pc),
    {
        let mut out: Vec<char> = Vec::new();
        if self.cursor > 0 {
            self.cursor = self.cursor - 1;
            if pc != PrintChar::Suppress {
                out.push(BS);
            }
        }
        assert(out@ =~= left_spec(old(self)@, pc).1);
        out
    }

    pub fn right(&mut self, pc: PrintChar) -> (out: Vec<char>)
        requires
            old(self).wf(),
        ensures
            final(self).wf(),
            (final(self)@, out@) == right_spec(old(self)@, pc),
    {
        let mut out: Vec<char> = Vec::new();
        if self.cursor < self.chars.len() {
            self.cursor = self.cursor + 1;
            if pc != PrintChar::Suppress {
                push_cursor_right(&mut out, 1);
            }
        }
        assert(out@ =~= right_spec(old(self)@, pc).1);
        out
    }

    pub fn home(&mut self, pc: PrintChar) -> (out: Vec<char>)
        requires
            old(self).wf(),
        ensures
            final(self).wf(),
            (final(self)@, out@) == home_spec(old(self)@, pc),
    {
        let mut out: Vec<char> = Vec::new();
        if pc != PrintChar::Suppress {
            push_repeat(&mut out, BS, self.cursor);
        }
        self.cursor = 0;
        assert(out@ =~= home_spec(old(self)@, pc).1);
        out
    }

    pub fn end(&mut self, pc: PrintChar) -> (out: Vec<char>)
        requires
            old(self).wf(),
        ensures
            final(self).wf(),
            (final(self)@, out@) == end_spec(old(self)@, pc),
    {
        let mut out: Vec<char> = Vec::new();
        if pc != PrintChar::Suppress {
            push_cursor_right(&mut out, self.chars.len() - self.cursor);
        }
        self.cursor = self.chars.len();
        assert(out@ =~= end_spec(old(self)@, pc).1);
        out
    }

    pub fn replace(&mut self, text: &str, pc: PrintChar) -> (out: Vec<char>)
        requires
            old(self).wf(),
        ensures
            final(self).wf(),
            (final(self)@, out@) == replace_spec(old(self)@, text@, pc),
    {
        let old_len = self.chars.len();
        let mut chars: Vec<char> = Vec::new();
        let n = text.unicode_len();
        let mut i: usize = 0;
        while i < n
            invariant
                n == text@.len(),
                i <= n,
                chars@ == text@.subrange(0, i as int),
            decreases n - i,
        {
            chars.push(text.get_char(i));
            assert(text@.subrange(0, i + 1) =~= text@.subrange(0, i as int).push(text@[i as int]));
            i = i + 1;
        }
        assert(text@.subrange(0, n as int) =~= text@);
        self.chars = chars;
        self.cursor = self.chars.len();
        let mut out: Vec<char> = Vec::new();
        if pc != PrintChar::Suppress {
            push_repeat(&mut out, BS, old_len);
            push_echo(&mut out, pc, &self.chars, 0);
            if old_len > self.chars.len() {
                push_repeat(&mut out, ' ', old_len - self.chars.len());
                push_repeat(&mut out, BS, old_len - self.chars.len());
            }
        }
        assert(self.chars@.subrange(0, self.chars@.len() as int) =~= self.chars@);
        assert(out@ =~= replace_spec(old(self)@, text@, pc).1);
        out
    }
}

} // verus!
