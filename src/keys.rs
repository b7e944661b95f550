//! Turning raw keyboard bytes into logical key events.
use vstd::prelude::*;

verus! {

/// One logical keystroke.
#[derive(Clone, Copy, Debug, PartialEq, Eq, Structural)]
pub enum KeyEvent {
    PrintableByte(u8),
    Enter,
    Backspace,
    ArrowUp,
    ArrowDown,
    ArrowLeft,
    ArrowRight,
    Home,
    End,
    Delete,
}

/// How much of an escape sequence has been seen so far.
#[derive(Clone, Copy, Debug, PartialEq, Eq, Structural)]
pub enum DecoderState {
    Idle,
    /// After `ESC`.
    Escaped,
    /// After `ESC [`.
    Bracketed,
    /// After `ESC [ 3` or `ESC [ 4`: a `~` completes the given key.
    AwaitTilde(KeyEvent),
}

pub const ESC: u8 = 0x1B;
pub const LINE_FEED: u8 = 0x0A;
pub const BACKSPACE: u8 = 0x08;
pub const DEL: u8 = 0x7F;

/// The next state and the event (if any) after reading `b` in state `s`.
/// `ESC` always starts a new sequence and is never taken as a character; a
/// byte that does not continue the sequence under way is taken as a literal
/// keystroke, and the sequence is dropped.
pub open spec fn step(s: DecoderState, b: u8) -> (DecoderState, Option<KeyEvent>) {
    if b == ESC {
        (DecoderState::Escaped, None)
    } else {
        match s {
            DecoderState::Idle => {
                if b == LINE_FEED {
                    (DecoderState::Idle, Some(KeyEvent::Enter))
                } else if b == BACKSPACE || b == DEL {
                    (DecoderState::Idle, Some(KeyEvent::Backspace))
                } else {
                    (DecoderState::Idle, Some(KeyEvent::PrintableByte(b)))
                }
            },
            DecoderState::Escaped => {
                if b == 0x5B {
                    (DecoderState::Bracketed, None)
                } else {
                    (DecoderState::Idle, Some(KeyEvent::PrintableByte(b)))
                }
            },
            DecoderState::Bracketed => {
                if b == 0x41 {
                    (DecoderState::Idle, Some(KeyEvent::ArrowUp))
                } else if b == 0x42 {
                    (DecoderState::Idle, Some(KeyEvent::ArrowDown))
                } else if b == 0x43 {
                    (DecoderState::Idle, Some(KeyEvent::ArrowRight))
                } else if b == 0x44 {
                    (DecoderState::Idle, Some(KeyEvent::ArrowLeft))
                } else if b == 0x48 {
                    (DecoderState::Idle, Some(KeyEvent::Home))
                } else if b == 0x46 {
                    (DecoderState::Idle, Some(KeyEvent::End))
                } else if b == 0x50 {
                    (DecoderState::Idle, Some(KeyEvent::Delete))
                } else if b == 0x33 {
                    (DecoderState::AwaitTilde(KeyEvent::Delete), None)
                } else if b == 0x34 {
                    (DecoderState::AwaitTilde(KeyEvent::End), None)
                } else {
                    (DecoderState::Idle, Some(KeyEvent::PrintableByte(b)))
                }
            },
            DecoderState::AwaitTilde(k) => {
                if b == 0x7E {
                    (DecoderState::Idle, Some(k))
                } else {
                    (DecoderState::Idle, Some(KeyEvent::PrintableByte(b)))
                }
            },
        }
    }
}

pub open spec fn opt_seq(e: Option<KeyEvent>) -> Seq<KeyEvent> {
    match e {
        Some(k) => seq![k],
        None => Seq::empty(),
    }
}

/// The state reached and the events emitted after reading `bytes` from state `s`.
pub open spec fn decode_from(s: DecoderState, bytes: Seq<u8>) -> (DecoderState, Seq<KeyEvent>)
    decreases bytes.len(),
{
    if bytes.len() == 0 {
        (s, Seq::empty())
    } else {
        let (mid, evs) = decode_from(s, bytes.drop_last());
        let (next, e) = step(mid, bytes.last());
        (next, evs + opt_seq(e))
    }
}

/// Reads one byte in state `s`.
pub fn decode_byte(s: DecoderState, b: u8) -> (r: (DecoderState, Option<KeyEvent>))
    ensures
        r == step(s, b),
{
    if b == ESC {
        return (DecoderState::Escaped, None);
    }
    match s {
        DecoderState::Idle => {
            if b == LINE_FEED {
                (DecoderState::Idle, Some(KeyEvent::Enter))
            } else if b == BACKSPACE || b == DEL {
                (DecoderState::Idle, Some(KeyEvent::Backspace))
            } else {
                (DecoderState::Idle, Some(KeyEvent::PrintableByte(b)))
            }
        },
        DecoderState::Escaped => {
            if b == 0x5B {
                (DecoderState::Bracketed, None)
            } else {
                (DecoderState::Idle, Some(KeyEvent::PrintableByte(b)))
            }
        },
        DecoderState::Bracketed => {
            let key = match b {
                0x41 => KeyEvent::ArrowUp,
                0x42 => KeyEvent::ArrowDown,
                0x43 => KeyEvent::ArrowRight,
                0x44 => KeyEvent::ArrowLeft,
                0x48 => KeyEvent::Home,
                0x46 => KeyEvent::End,
                0x50 => KeyEvent::Delete,
                0x33 => return (DecoderState::AwaitTilde(KeyEvent::Delete), None),
                0x34 => return (DecoderState::AwaitTilde(KeyEvent::End), None),
                _ => KeyEvent::PrintableByte(b),
            };
            (DecoderState::Idle, Some(key))
        },
        DecoderState::AwaitTilde(k) => {
            if b == 0x7E {
                (DecoderState::Idle, Some(k))
            } else {
                (DecoderState::Idle, Some(KeyEvent::PrintableByte(b)))
            }
        },
    }
}

/// A decoder that keeps its state between reads, so that an escape sequence may
/// arrive split over several chunks.
pub struct KeyDecoder {
    state: DecoderState,
}

impl KeyDecoder {
    pub closed spec fn state(&self) -> DecoderState {
        self.state
    }

    pub fn new() -> (r: Self)
        ensures
            r.state() == DecoderState::Idle,
    {
        KeyDecoder { state: DecoderState::Idle }
    }

    /// Reads one byte; returns the event it completes, if any.
    pub fn push(&mut self, b: u8) -> (r: Option<KeyEvent>)
        ensures
            (final(self).state(), r) == step(old(self).state(), b),
    {
        let (next, e) = decode_byte(self.state, b);
        self.state = next;
        e
    }

    /// Reads a chunk of bytes; returns the events it completes, in order.
    pub fn feed(&mut self, bytes: &[u8]) -> (r: Vec<KeyEvent>)
        ensures
            (final(self).state(), r@) == decode_from(old(self).state(), bytes@),
    {
        let mut out: Vec<KeyEvent> = Vec::new();
        let mut i: usize = 0;
        while i < bytes.len()
            invariant
                i <= bytes@.len(),
                (self.state(), out@) == decode_from(old(self).state(), bytes@.subrange(0, i as int)),
            decreases bytes.len() - i,
        {
            proof {
                let pre = bytes@.subrange(0, i as int + 1);
                assert(pre.drop_last() =~= bytes@.subrange(0, i as int));
                assert(pre.last() == bytes@[i as int]);
            }
            let e = self.push(bytes[i]);
            match e {
                Some(k) => out.push(k),
                None => {},
            }
            i = i + 1;
        }
        assert(bytes@.subrange(0, bytes@.len() as int) =~= bytes@);
        out
    }
}

/// Decoding is independent of how the input is cut into chunks: reading `a`
/// and then, from the state reached, reading `b` gives the same state and the
/// same events as reading `a + b` at once.
pub proof fn lemma_decode_chunks(s: DecoderState, a: Seq<u8>, b: Seq<u8>)
    ensures
        decode_from(s, a + b) == ({
            let (mid, first) = decode_from(s, a);
            let (end, second) = decode_from(mid, b);
            (end, first + second)
        }),
    decreases b.len(),
{
    if b.len() == 0 {
        assert(a + b =~= a);
        assert(decode_from(s, a).1 + Seq::<KeyEvent>::empty() =~= decode_from(s, a).1);
    } else {
        lemma_decode_chunks(s, a, b.drop_last());
        assert((a + b).drop_last() =~= a + b.drop_last());
        assert((a + b).last() == b.last());
        let (mid, first) = decode_from(s, a);
        let (m2, second) = decode_from(mid, b.drop_last());
        let (end, e) = step(m2, b.last());
        assert(first + second + opt_seq(e) =~= first + (second + opt_seq(e)));
    }
}

/// `ESC [ A` read from the idle state is one `ArrowUp`, and leaves the decoder idle.
pub proof fn lemma_arrow_up_sequence()
    ensures
        decode_from(DecoderState::Idle, seq![ESC, 0x5Bu8, 0x41u8])
            == (DecoderState::Idle, seq![KeyEvent::ArrowUp]),
{
    let bytes = seq![ESC, 0x5Bu8, 0x41u8];
    assert(bytes.drop_last() =~= seq![ESC, 0x5Bu8]);
    assert(bytes.drop_last().drop_last() =~= seq![ESC]);
    assert(bytes.drop_last().drop_last().drop_last() =~= Seq::<u8>::empty());
    reveal_with_fuel(decode_from, 4);
    assert(Seq::<KeyEvent>::empty() + Seq::<KeyEvent>::empty() + Seq::<KeyEvent>::empty()
        + seq![KeyEvent::ArrowUp] =~= seq![KeyEvent::ArrowUp]);
}

/// However the bytes `ESC [ A` are cut into chunks (`a`, then `b`, then `c`),
/// reading them one chunk after another from the idle state yields exactly one
/// `ArrowUp` and leaves the decoder idle.
pub proof fn lemma_arrow_up_any_chunking(a: Seq<u8>, b: Seq<u8>, c: Seq<u8>)
    requires
        a + b + c == seq![ESC, 0x5Bu8, 0x41u8],
    ensures
        ({
            let (s1, e1) = decode_from(DecoderState::Idle, a);
            let (s2, e2) = decode_from(s1, b);
            let (s3, e3) = decode_from(s2, c);
            s3 == DecoderState::Idle && e1 + e2 + e3 == seq![KeyEvent::ArrowUp]
        }),
{
    lemma_arrow_up_sequence();
    lemma_decode_chunks(DecoderState::Idle, a + b, c);
    lemma_decode_chunks(DecoderState::Idle, a, b);
}

} // verus!
