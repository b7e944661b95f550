use term_basics_linux::{DecoderState, KeyDecoder, KeyEvent};

fn decode_chunks(chunks: &[&[u8]]) -> Vec<KeyEvent> {
    let mut d = KeyDecoder::new();
    let mut out = Vec::new();
    for c in chunks {
        out.extend(d.feed(c));
    }
    out
}

#[test]
fn arrow_up_in_any_chunking() {
    let up = vec![KeyEvent::ArrowUp];
    assert_eq!(decode_chunks(&[&[0x1B], &[0x5B], &[0x41]]), up);
    assert_eq!(decode_chunks(&[&[0x1B, 0x5B], &[0x41]]), up);
    assert_eq!(decode_chunks(&[&[0x1B], &[0x5B, 0x41]]), up);
    assert_eq!(decode_chunks(&[&[0x1B, 0x5B, 0x41]]), up);
    assert_eq!(decode_chunks(&[&[], &[0x1B, 0x5B, 0x41], &[]]), up);
}

#[test]
fn bracketed_keys() {
    let keys = [
        (0x41, KeyEvent::ArrowUp),
        (0x42, KeyEvent::ArrowDown),
        (0x43, KeyEvent::ArrowRight),
        (0x44, KeyEvent::ArrowLeft),
        (0x48, KeyEvent::Home),
        (0x46, KeyEvent::End),
        (0x50, KeyEvent::Delete),
    ];
    for (b, k) in keys {
        assert_eq!(decode_chunks(&[&[0x1B, 0x5B, b]]), vec![k]);
    }
}

#[test]
fn tilde_keys() {
    assert_eq!(decode_chunks(&[b"\x1b[3~"]), vec![KeyEvent::Delete]);
    assert_eq!(decode_chunks(&[b"\x1b[4~"]), vec![KeyEvent::End]);
    assert_eq!(decode_chunks(&[b"\x1b[3x"]), vec![KeyEvent::PrintableByte(b'x')]);
}

#[test]
fn plain_bytes() {
    assert_eq!(
        decode_chunks(&[b"a\n\x08\x7f"]),
        vec![
            KeyEvent::PrintableByte(b'a'),
            KeyEvent::Enter,
            KeyEvent::Backspace,
            KeyEvent::Backspace,
        ]
    );
}

#[test]
fn broken_sequences_become_literal_bytes() {
    assert_eq!(decode_chunks(&[b"\x1bx"]), vec![KeyEvent::PrintableByte(b'x')]);
    assert_eq!(decode_chunks(&[b"\x1b[Z"]), vec![KeyEvent::PrintableByte(b'Z')]);
    assert_eq!(decode_chunks(&[b"\x1b\x1b[A"]), vec![KeyEvent::ArrowUp]);
}

#[test]
fn decoder_state_is_kept_between_pushes() {
    let mut d = KeyDecoder::new();
    assert_eq!(d.push(0x1B), None);
    assert_eq!(d.push(0x5B), None);
    assert_eq!(d.push(0x33), None);
    assert_eq!(d.push(0x7E), Some(KeyEvent::Delete));
    assert_eq!(d.push(b'q'), Some(KeyEvent::PrintableByte(b'q')));
    let _ = DecoderState::Idle;
}
