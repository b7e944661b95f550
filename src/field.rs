//! One editing session: bytes from the keyboard go in, terminal output comes
//! out, and on Enter the finished line is handed back and kept in the history.
use vstd::prelude::*;
use crate::echo::PrintChar;
use crate::editor::{
    LineBuffer, LineModel, backspace_spec, delete_spec, end_spec, home_spec, insert_spec, left_spec,
    replace_spec, right_spec,
};
use crate::history::{InputList, history_slot};
use crate::keys::{DecoderState, KeyEvent, step, decode_byte};

verus! {

/// The state of a session.
pub struct FieldModel {
    pub line: LineModel,
    pub decoder: DecoderState,
    /// How far the user has scrolled into the history (up is positive).
    pub offset: i32,
    /// Enter has been pressed.
    pub done: bool,
}

/// The history entry shown at scroll offset `offset`, if there is one.
pub open spec fn history_entry(entries: Seq<Seq<char>>, cap: nat, offset: i32) -> Option<Seq<char>> {
    let slot = history_slot(offset as int, entries.len(), cap);
    if 0 <= slot < entries.len() {
        Some(entries[slot])
    } else {
        None
    }
}

/// Scrolling to `offset`: the line becomes the history entry there, if any.
pub open spec fn scroll_spec(
    m: FieldModel,
    offset: i32,
    entries: Seq<Seq<char>>,
    cap: nat,
    pc: PrintChar,
) -> (FieldModel, Seq<char>) {
    match history_entry(entries, cap, offset) {
        Some(text) => {
            let (line, out) = replace_spec(m.line, text, pc);
            (FieldModel { line, offset, ..m }, out)
        },
        None => (FieldModel { offset, ..m }, Seq::empty()),
    }
}

pub open spec fn with_line(m: FieldModel, r: (LineModel, Seq<char>)) -> (FieldModel, Seq<char>) {
    (FieldModel { line: r.0, ..m }, r.1)
}

/// The new state and the terminal output after the key `ev`, with the
/// history holding `entries` and keeping at most `cap` of them.
pub open spec fn apply_spec(
    m: FieldModel,
    ev: KeyEvent,
    entries: Seq<Seq<char>>,
    cap: nat,
    pc: PrintChar,
    newline: bool,
) -> (FieldModel, Seq<char>) {
    match ev {
        KeyEvent::PrintableByte(b) => with_line(m, insert_spec(m.line, b as char, pc)),
        KeyEvent::Enter => (FieldModel { done: true, ..m }, if newline { seq!['\n'] } else { Seq::empty() }),
        KeyEvent::Backspace => with_line(m, backspace_spec(m.line, pc)),
        KeyEvent::Delete => with_line(m, delete_spec(m.line, pc)),
        KeyEvent::ArrowLeft => with_line(m, left_spec(m.line, pc)),
        KeyEvent::ArrowRight => with_line(m, right_spec(m.line, pc)),
        KeyEvent::Home => with_line(m, home_spec(m.line, pc)),
        KeyEvent::End => with_line(m, end_spec(m.line, pc)),
        KeyEvent::ArrowUp => scroll_spec(m, m.offset.wrapping_add(1), entries, cap, pc),
        KeyEvent::ArrowDown => scroll_spec(m, m.offset.wrapping_sub(1), entries, cap, pc),
    }
}

/// The new state and the terminal output after the byte `b`. Once Enter has
/// been pressed, further bytes change nothing.
pub open spec fn feed_spec(
    m: FieldModel,
    b: u8,
    entries: Seq<Seq<char>>,
    cap: nat,
    pc: PrintChar,
    newline: bool,
) -> (FieldModel, Seq<char>) {
    if m.done {
        (m, Seq::empty())
    } else {
        let (decoder, e) = step(m.decoder, b);
        let m1 = FieldModel { decoder, ..m };
        match e {
            Some(ev) => apply_spec(m1, ev, entries, cap, pc, newline),
            None => (m1, Seq::empty()),
        }
    }
}

/// The state at the start of a session.
pub open spec fn initial_model() -> FieldModel {
    FieldModel {
        line: LineModel { chars: Seq::empty(), cursor: 0 },
        decoder: DecoderState::Idle,
        offset: 0,
        done: false,
    }
}

/// The state and all terminal output after the bytes `bytes`, fed one by one.
pub open spec fn run_spec(
    m: FieldModel,
    bytes: Seq<u8>,
    entries: Seq<Seq<char>>,
    cap: nat,
    pc: PrintChar,
    newline: bool,
) -> (FieldModel, Seq<char>)
    decreases bytes.len(),
{
    if bytes.len() == 0 {
        (m, Seq::empty())
    } else {
        let (mid, out1) = run_spec(m, bytes.drop_last(), entries, cap, pc, newline);
        let (end, out2) = feed_spec(mid, bytes.last(), entries, cap, pc, newline);
        (end, out1 + out2)
    }
}

/// With echo suppressed, a key writes nothing to the terminal; the one
/// exception is Enter when a trailing newline was asked for.
pub proof fn lemma_suppress_key_prints_nothing(
    m: FieldModel,
    ev: KeyEvent,
    entries: Seq<Seq<char>>,
    cap: nat,
    newline: bool,
)
    requires
        !(ev is Enter && newline),
    ensures
        apply_spec(m, ev, entries, cap, PrintChar::Suppress, newline).1 == Seq::<char>::empty(),
{
}

/// With echo suppressed and no trailing newline, no stream of bytes writes
/// anything to the terminal.
pub proof fn lemma_suppress_prints_nothing(
    m: FieldModel,
    bytes: Seq<u8>,
    entries: Seq<Seq<char>>,
    cap: nat,
)
    ensures
        run_spec(m, bytes, entries, cap, PrintChar::Suppress, false).1 == Seq::<char>::empty(),
    decreases bytes.len(),
{
    if bytes.len() > 0 {
        lemma_suppress_prints_nothing(m, bytes.drop_last(), entries, cap);
        let mid = run_spec(m, bytes.drop_last(), entries, cap, PrintChar::Suppress, false).0;
        let (decoder, e) = step(mid.decoder, bytes.last());
        if let Some(ev) = e {
            lemma_suppress_key_prints_nothing(FieldModel { decoder, ..mid }, ev, entries, cap, false);
        }
        assert(Seq::<char>::empty() + Seq::<char>::empty() =~= Seq::<char>::empty());
    }
}

/// What is typed does not depend on how it is echoed: two sessions fed the
/// same bytes with different echo policies end in the same state.
pub proof fn lemma_echo_does_not_change_text(
    m: FieldModel,
    bytes: Seq<u8>,
    entries: Seq<Seq<char>>,
    cap: nat,
    pc1: PrintChar,
    pc2: PrintChar,
    newline: bool,
)
    ensures
        run_spec(m, bytes, entries, cap, pc1, newline).0 == run_spec(m, bytes, entries, cap, pc2, newline).0,
    decreases bytes.len(),
{
    if bytes.len() > 0 {
        lemma_echo_does_not_change_text(m, bytes.drop_last(), entries, cap, pc1, pc2, newline);
    }
}

/// The bytes that print as themselves: neither control bytes nor `DEL`.
pub open spec fn is_printable_ascii(b: u8) -> bool {
    0x20 <= b <= 0x7E
}

/// The characters that the bytes `bytes` stand for, one for one.
pub open spec fn bytes_as_chars(bytes: Seq<u8>) -> Seq<char> {
    bytes.map_values(|b: u8| b as char)
}

/// Printable bytes typed into a fresh session simply append themselves.
pub proof fn lemma_typing_printable(
    bytes: Seq<u8>,
    entries: Seq<Seq<char>>,
    cap: nat,
    pc: PrintChar,
    newline: bool,
)
    requires
        forall|i: int| 0 <= i < bytes.len() ==> is_printable_ascii(#[trigger] bytes[i]),
    ensures
        run_spec(initial_model(), bytes, entries, cap, pc, newline).0 == (FieldModel {
            line: LineModel { chars: bytes_as_chars(bytes), cursor: bytes.len() as int },
            decoder: DecoderState::Idle,
            offset: 0,
            done: false,
        }),
    decreases bytes.len(),
{
    if bytes.len() > 0 {
        let pre = bytes.drop_last();
        assert forall|i: int| 0 <= i < pre.len() implies is_printable_ascii(#[trigger] pre[i]) by {
            assert(pre[i] == bytes[i]);
        }
        lemma_typing_printable(pre, entries, cap, pc, newline);
        assert(is_printable_ascii(bytes[bytes.len() - 1]));
        let c = bytes.last() as char;
        assert(bytes_as_chars(pre).insert(pre.len() as int, c) =~= bytes_as_chars(bytes));
    } else {
        assert(bytes_as_chars(bytes) =~= Seq::<char>::empty());
    }
}

/// Printable bytes followed by Enter end the session with exactly the text
/// that was typed, whatever the history holds and however it is echoed.
pub proof fn lemma_printable_round_trip(
    bytes: Seq<u8>,
    entries: Seq<Seq<char>>,
    cap: nat,
    pc: PrintChar,
    newline: bool,
)
    requires
        forall|i: int| 0 <= i < bytes.len() ==> is_printable_ascii(#[trigger] bytes[i]),
    ensures
        ({
            let end = run_spec(initial_model(), bytes.push(crate::keys::LINE_FEED), entries, cap, pc, newline).0;
            end.done && end.line.chars == bytes_as_chars(bytes)
        }),
{
    lemma_typing_printable(bytes, entries, cap, pc, newline);
    assert(bytes.push(crate::keys::LINE_FEED).drop_last() =~= bytes);
}

/// An input field: the line being typed, how it is echoed, and where the
/// user stands in the history.
pub struct InputField {
    line: LineBuffer,
    decoder: DecoderState,
    offset: i32,
    done: bool,
    pc: PrintChar,
    newline: bool,
}

impl View for InputField {
    type V = FieldModel;

    closed spec fn view(&self) -> FieldModel {
        FieldModel { line: self.line@, decoder: self.decoder, offset: self.offset, done: self.done }
    }
}

impl InputField {
    pub closed spec fn wf(&self) -> bool {
        self.line.wf()
    }

    /// How typed characters are echoed.
    pub closed spec fn print_char(&self) -> PrintChar {
        self.pc
    }

    /// Whether a newline is printed when Enter is pressed.
    pub closed spec fn newline(&self) -> bool {
        self.newline
    }

    /// A fresh session: empty line, idle decoder, not scrolled.
    pub fn new(pc: PrintChar, newline: bool) -> (r: Self)
        ensures
            r.wf(),
            r@ == initial_model(),
            r.print_char() == pc,
            r.newline() == newline,
    {
        InputField {
            line: LineBuffer::new(),
            decoder: DecoderState::Idle,
            offset: 0,
            done: false,
            pc,
            newline,
        }
    }

    /// Whether Enter has been pressed.
    pub fn is_done(&self) -> (r: bool)
        ensures
            r == self@.done,
    {
        self.done
    }

    /// The line typed so far.
    pub fn text(&self) -> (r: String)
        ensures
            r@ == self@.line.chars,
    {
        self.line.text()
    }

    /// Applies one key; returns what to write to the terminal.
    pub fn apply(&mut self, history: &InputList, ev: KeyEvent) -> (out: Vec<char>)
        requires
            old(self).wf(),
        ensures
            final(self).wf(),
            final(self).print_char() == old(self).print_char(),
            final(self).newline() == old(self).newline(),
            (final(self)@, out@) == apply_spec(
                old(self)@,
                ev,
                history.entries(),
                history.capacity(),
                old(self).print_char(),
                old(self).newline(),
            ),
    {
        let pc = self.pc;
        match ev {
            KeyEvent::PrintableByte(b) => self.line.insert(b as char, pc),
            KeyEvent::Enter => {
                self.done = true;
                let mut out: Vec<char> = Vec::new();
                if self.newline {
                    out.push('\n');
                }
                assert(out@ =~= (if self.newline { seq!['\n'] } else { Seq::<char>::empty() }));
                out
            },
            KeyEvent::Backspace => self.line.backspace(pc),
            KeyEvent::Delete => self.line.delete(pc),
            KeyEvent::ArrowLeft => self.line.left(pc),
            KeyEvent::ArrowRight => self.line.right(pc),
            KeyEvent::Home => self.line.home(pc),
            KeyEvent::End => self.line.end(pc),
            KeyEvent::ArrowUp => {
                let offset = self.offset.wrapping_add(1);
                self.scroll(history, offset)
            },
            KeyEvent::ArrowDown => {
                let offset = self.offset.wrapping_sub(1);
                self.scroll(history, offset)
            },
        }
    }

    fn scroll(&mut self, history: &InputList, offset: i32) -> (out: Vec<char>)
        requires
            old(self).wf(),
        ensures
            final(self).wf(),
            final(self).print_char() == old(self).print_char(),
            final(self).newline() == old(self).newline(),
            (final(self)@, out@) == scroll_spec(
                old(self)@,
                offset,
                history.entries(),
                history.capacity(),
                old(self).print_char(),
            ),
    {
        self.offset = offset;
        match history.get_index(offset) {
            Some(text) => self.line.replace(text.as_str(), self.pc),
            None => Vec::new(),
        }
    }

    /// Takes one byte that the caller read from the keyboard; returns what
    /// to write to the terminal. After Enter, bytes are ignored.
    pub fn feed(&mut self, history: &InputList, b: u8) -> (out: Vec<char>)
        requires
            old(self).wf(),
        ensures
            final(self).wf(),
            final(self).print_char() == old(self).print_char(),
            final(self).newline() == old(self).newline(),
            (final(self)@, out@) == feed_spec(
                old(self)@,
                b,
                history.entries(),
                history.capacity(),
                old(self).print_char(),
                old(self).newline(),
            ),
    {
        if self.done {
            return Vec::new();
        }
        let (decoder, e) = decode_byte(self.decoder, b);
        self.decoder = decoder;
        match e {
            Some(ev) => self.apply(history, ev),
            None => Vec::new(),
        }
    }

    /// Takes a chunk of bytes that the caller read from the keyboard; returns
    /// what to write to the terminal for all of them.
    pub fn feed_bytes(&mut self, history: &InputList, bytes: &[u8]) -> (out: Vec<char>)
        requires
            old(self).wf(),
        ensures
            final(self).wf(),
            final(self).print_char() == old(self).print_char(),
            final(self).newline() == old(self).newline(),
            (final(self)@, out@) == run_spec(
                old(self)@,
                bytes@,
                history.entries(),
                history.capacity(),
                old(self).print_char(),
                old(self).newline(),
            ),
    {
        let mut out: Vec<char> = Vec::new();
        let mut i: usize = 0;
        while i < bytes.len()
            invariant
                self.wf(),
                self.print_char() == old(self).print_char(),
                self.newline() == old(self).newline(),
                i <= bytes@.len(),
                (self@, out@) == run_spec(
                    old(self)@,
                    bytes@.subrange(0, i as int),
                    history.entries(),
                    history.capacity(),
                    old(self).print_char(),
                    old(self).newline(),
                ),
            decreases bytes.len() - i,
        {
            proof {
                let pre = bytes@.subrange(0, i as int + 1);
                assert(pre.drop_last() =~= bytes@.subrange(0, i as int));
                assert(pre.last() == bytes@[i as int]);
            }
            let mut more = self.feed(history, bytes[i]);
            out.append(&mut more);
            i = i + 1;
        }
        assert(bytes@.subrange(0, bytes@.len() as int) =~= bytes@);
        out
    }

    /// Ends the session: the line is added to the history and returned.
    pub fn finish(self, history: &mut InputList) -> (r: String)
        requires
            self.wf(),
        ensures
            r@ == self@.line.chars,
            final(history).entries() == crate::history::keep_last(
                old(history).entries().push(self@.line.chars),
                old(history).capacity(),
            ),
            final(history).capacity() == old(history).capacity(),
    {
        let s = self.line.text();
        history.add(s.as_str());
        s
    }
}

} // verus!
