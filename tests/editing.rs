use term_basics_linux::{InputField, InputList, LineBuffer, PrintChar};

fn shown(out: Vec<char>) -> String {
    out.into_iter().collect()
}

fn typed(line: &mut LineBuffer, s: &str) -> String {
    let mut out = String::new();
    for c in s.chars() {
        out.push_str(&shown(line.insert(c, PrintChar::Copy)));
    }
    out
}

#[test]
fn type_backspace_type() {
    let mut line = LineBuffer::new();
    typed(&mut line, "abc");
    assert_eq!(shown(line.backspace(PrintChar::Copy)), "\x08 \x08");
    typed(&mut line, "d");
    assert_eq!(line.text(), "abd");
    assert_eq!(line.cursor(), 3);
}

#[test]
fn home_right_right_insert() {
    let mut line = LineBuffer::new();
    assert_eq!(typed(&mut line, "abc"), "abc");
    assert_eq!(shown(line.home(PrintChar::Copy)), "\x08\x08\x08");
    assert_eq!(shown(line.right(PrintChar::Copy)), "\x1b[1C");
    assert_eq!(shown(line.right(PrintChar::Copy)), "\x1b[1C");
    assert_eq!(typed(&mut line, "X"), "Xc\x08");
    assert_eq!(line.text(), "abXc");
    assert_eq!(line.cursor(), 3);
}

#[test]
fn delete_on_last_char_does_nothing() {
    let mut line = LineBuffer::new();
    typed(&mut line, "abc");
    line.left(PrintChar::Copy);
    assert_eq!(line.cursor(), 2);
    assert_eq!(shown(line.delete(PrintChar::Copy)), "");
    assert_eq!(line.text(), "abc");
    assert_eq!(line.cursor(), 2);
    line.end(PrintChar::Copy);
    assert_eq!(shown(line.delete(PrintChar::Copy)), "");
    assert_eq!(line.text(), "abc");
}

#[test]
fn delete_mid_line() {
    let mut line = LineBuffer::new();
    typed(&mut line, "abc");
    line.home(PrintChar::Copy);
    assert_eq!(shown(line.delete(PrintChar::Copy)), "bc \x08\x08\x08");
    assert_eq!(line.text(), "bc");
    assert_eq!(line.cursor(), 0);
}

#[test]
fn backspace_mid_line_and_at_start() {
    let mut line = LineBuffer::new();
    typed(&mut line, "abcd");
    line.left(PrintChar::Copy);
    line.left(PrintChar::Copy);
    assert_eq!(shown(line.backspace(PrintChar::Copy)), "\x08cd \x08\x08\x08");
    assert_eq!(line.text(), "acd");
    assert_eq!(line.cursor(), 1);
    line.home(PrintChar::Copy);
    assert_eq!(shown(line.backspace(PrintChar::Copy)), "");
    assert_eq!(line.text(), "acd");
}

#[test]
fn moves_are_clamped() {
    let mut line = LineBuffer::new();
    assert_eq!(shown(line.left(PrintChar::Copy)), "");
    assert_eq!(shown(line.right(PrintChar::Copy)), "");
    typed(&mut line, "ab");
    assert_eq!(shown(line.right(PrintChar::Copy)), "");
    assert_eq!(shown(line.left(PrintChar::Copy)), "\x08");
    assert_eq!(shown(line.end(PrintChar::Copy)), "\x1b[1C");
    assert_eq!(line.cursor(), 2);
}

#[test]
fn substitute_masks_every_char() {
    let mut line = LineBuffer::new();
    let mut out = String::new();
    for c in "pw".chars() {
        out.push_str(&shown(line.insert(c, PrintChar::Substitute('*'))));
    }
    line.home(PrintChar::Substitute('*'));
    out.push_str(&shown(line.insert('x', PrintChar::Substitute('*'))));
    assert_eq!(out, "*****\x08\x08");
    assert_eq!(line.text(), "xpw");
}

#[test]
fn replace_blanks_the_longer_old_line() {
    let mut line = LineBuffer::new();
    typed(&mut line, "hello");
    assert_eq!(shown(line.replace("hi", PrintChar::Copy)), "\x08\x08\x08\x08\x08hi   \x08\x08\x08");
    assert_eq!(line.text(), "hi");
    assert_eq!(line.cursor(), 2);
    assert_eq!(shown(line.replace("world", PrintChar::Copy)), "\x08\x08world");
}

fn session(h: &InputList, pc: PrintChar, newline: bool, bytes: &[u8]) -> (InputField, String) {
    let mut f = InputField::new(pc, newline);
    let mut out = String::new();
    for b in bytes {
        out.push_str(&shown(f.feed(h, *b)));
    }
    (f, out)
}

#[test]
fn session_type_backspace_type() {
    let h = InputList::new(0);
    let (f, out) = session(&h, PrintChar::Copy, true, b"abc\x7fd\n");
    assert!(f.is_done());
    assert_eq!(f.text(), "abd");
    assert_eq!(out, "abc\x08 \x08d\n");
}

#[test]
fn session_home_right_right_insert() {
    let h = InputList::new(0);
    let (f, _) = session(&h, PrintChar::Copy, false, b"abc\x1b[H\x1b[C\x1b[CX\n");
    assert_eq!(f.text(), "abXc");
}

#[test]
fn suppress_writes_nothing() {
    let mut h = InputList::new(2);
    h.add("secret");
    let bytes = b"ab\x1b[Dc\x7f\x1b[H\x1b[3~\x1b[Fxy\x1b[A\x1b[B\x1b[C\n";
    let (f, out) = session(&h, PrintChar::Suppress, false, bytes);
    assert_eq!(out, "");
    let (g, _) = session(&h, PrintChar::Copy, false, bytes);
    assert_eq!(f.text(), g.text());
    assert_eq!(f.text(), "secret");
}

#[test]
fn suppress_still_ends_with_the_asked_newline() {
    let h = InputList::new(0);
    let (f, out) = session(&h, PrintChar::Suppress, true, b"hidden\n");
    assert_eq!(out, "\n");
    assert_eq!(f.text(), "hidden");
}

#[test]
fn printable_bytes_come_back_unchanged() {
    let mut h = InputList::new(3);
    let line: Vec<u8> = (0x20u8..=0x7E).collect();
    let mut bytes = line.clone();
    bytes.push(b'\n');
    let (f, out) = session(&h, PrintChar::Copy, false, &bytes);
    assert!(f.is_done());
    let expected = String::from_utf8(line).unwrap();
    assert_eq!(out, expected);
    let r = f.finish(&mut h);
    assert_eq!(r, expected);
    assert_eq!(h.get_index(0), Some(&expected));
}

#[test]
fn bytes_after_enter_are_ignored() {
    let h = InputList::new(0);
    let (f, out) = session(&h, PrintChar::Copy, false, b"ok\nmore");
    assert_eq!(out, "ok");
    assert_eq!(f.text(), "ok");
}

#[test]
fn scrolling_through_history() {
    let mut h = InputList::new(2);
    h.add("1");
    h.add("2");
    let mut f = InputField::new(PrintChar::Copy, true);
    assert_eq!(shown(f.feed_bytes(&h, b"hello")), "hello");
    assert_eq!(shown(f.feed_bytes(&h, b"\x1b[A")), "\x08\x08\x08\x08\x082    \x08\x08\x08\x08");
    assert_eq!(f.text(), "2");
    assert_eq!(shown(f.feed_bytes(&h, b"\x1b[A")), "\x081");
    assert_eq!(f.text(), "1");
    assert_eq!(shown(f.feed_bytes(&h, b"\x1b[B")), "\x082");
    assert_eq!(f.text(), "2");
    assert_eq!(shown(f.feed_bytes(&h, b"!\n")), "!\n");
    let r = f.finish(&mut h);
    assert_eq!(r, "2!");
    assert_eq!(h.get_index(0), Some(&"2".to_string()));
    assert_eq!(h.get_index(1), Some(&"2!".to_string()));
}

#[test]
fn scrolling_an_empty_history_does_nothing() {
    let h = InputList::new(5);
    let (f, out) = session(&h, PrintChar::Copy, false, b"ab\x1b[A\x1b[B");
    assert_eq!(out, "ab");
    assert_eq!(f.text(), "ab");
}

#[test]
fn finish_with_capacity_zero_keeps_nothing() {
    let mut h = InputList::new(0);
    let (f, _) = session(&h, PrintChar::Copy, false, b"x\n");
    assert_eq!(f.finish(&mut h), "x");
    assert_eq!(h.get_index(0), None);
}
