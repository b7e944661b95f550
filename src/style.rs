//! Escape codes for text colours and styles.
use vstd::prelude::*;
use crate::editor::push_char;

verus! {

/// Colours available. The user has defined the exact values of these colours
/// for their terminal or emulator.
#[derive(Clone, Copy, Debug, PartialEq, Eq, Structural)]
pub enum UserColour {
    Std,
    Black,
    Red,
    Green,
    Yellow,
    Blue,
    Magenta,
    Cyan,
    Grey,
}

/// All styles that do not alter the foreground or background colours.
#[derive(Clone, Copy, Debug, PartialEq, Eq, Structural)]
pub enum TextStyle {
    Std,
    Bold,
    Faint,
    Italic,
    Underlined,
    Blink,
    Hidden,
    Crossed,
}

/// Whether a colour is for the text (foreground) or behind it (background).
#[derive(Clone, Copy, Debug, PartialEq, Eq, Structural)]
pub enum FGBG {
    FG,
    BG,
}

/// The terminal's number for a colour.
pub open spec fn colour_id(c: UserColour) -> u8 {
    match c {
        UserColour::Std => 99,
        UserColour::Black => 0,
        UserColour::Red => 1,
        UserColour::Green => 2,
        UserColour::Yellow => 3,
        UserColour::Blue => 4,
        UserColour::Magenta => 5,
        UserColour::Cyan => 6,
        UserColour::Grey => 7,
    }
}

/// The terminal's number for a style.
pub open spec fn style_id(s: TextStyle) -> u8 {
    match s {
        TextStyle::Std => 0,
        TextStyle::Bold => 1,
        TextStyle::Faint => 2,
        TextStyle::Italic => 3,
        TextStyle::Underlined => 4,
        TextStyle::Blink => 5,
        TextStyle::Hidden => 8,
        TextStyle::Crossed => 9,
    }
}

/// The decimal digits of `n`, most significant first.
pub open spec fn decimal(n: nat) -> Seq<char>
    decreases n,
{
    if n < 10 {
        seq![((48 + n) as u8) as char]
    } else {
        decimal(n / 10) + seq![((48 + n % 10) as u8) as char]
    }
}

/// The code that resets colours and styles to the terminal's defaults.
pub open spec fn reset_code() -> Seq<char> {
    seq!['\u{1b}', '[', '0', '0', 'm']
}

/// The code that sets colour `col` for the text or its background. The
/// default colour is preceded by a reset.
pub open spec fn colour_code(col: UserColour, fgbg: FGBG) -> Seq<char> {
    let layer = if fgbg is FG {
        '3'
    } else {
        '4'
    };
    let set = seq!['\u{1b}', '[', layer] + decimal(colour_id(col) as nat) + seq!['m'];
    if col is Std {
        reset_code() + set
    } else {
        set
    }
}

/// The code that sets style `sty`.
pub open spec fn style_code(sty: TextStyle) -> Seq<char> {
    seq!['\u{1b}', '[', '0'] + decimal(style_id(sty) as nat) + seq!['m']
}

impl UserColour {
    /// Every colour, `Std` first.
    pub fn iterator() -> (r: Vec<UserColour>)
        ensures
            r@ == seq![
                UserColour::Std,
                UserColour::Black,
                UserColour::Red,
                UserColour::Green,
                UserColour::Yellow,
                UserColour::Blue,
                UserColour::Magenta,
                UserColour::Cyan,
                UserColour::Grey,
            ],
    {
        let mut v: Vec<UserColour> = Vec::new();
        v.push(UserColour::Std);
        v.push(UserColour::Black);
        v.push(UserColour::Red);
        v.push(UserColour::Green);
        v.push(UserColour::Yellow);
        v.push(UserColour::Blue);
        v.push(UserColour::Magenta);
        v.push(UserColour::Cyan);
        v.push(UserColour::Grey);
        assert(v@ =~= seq![
            UserColour::Std,
            UserColour::Black,
            UserColour::Red,
            UserColour::Green,
            UserColour::Yellow,
            UserColour::Blue,
            UserColour::Magenta,
            UserColour::Cyan,
            UserColour::Grey,
        ]);
        v
    }

    /// The terminal's number for this colour.
    pub fn id(&self) -> (r: u8)
        ensures
            r == colour_id(*self),
    {
        match self {
            UserColour::Std => 99,
            UserColour::Black => 0,
            UserColour::Red => 1,
            UserColour::Green => 2,
            UserColour::Yellow => 3,
            UserColour::Blue => 4,
            UserColour::Magenta => 5,
            UserColour::Cyan => 6,
            UserColour::Grey => 7,
        }
    }
}

impl TextStyle {
    /// Every style, `Std` first.
    pub fn iterator() -> (r: Vec<TextStyle>)
        ensures
            r@ == seq![
                TextStyle::Std,
                TextStyle::Bold,
                TextStyle::Faint,
                TextStyle::Italic,
                TextStyle::Underlined,
                TextStyle::Blink,
                TextStyle::Hidden,
                TextStyle::Crossed,
            ],
    {
        let mut v: Vec<TextStyle> = Vec::new();
        v.push(TextStyle::Std);
        v.push(TextStyle::Bold);
        v.push(TextStyle::Faint);
        v.push(TextStyle::Italic);
        v.push(TextStyle::Underlined);
        v.push(TextStyle::Blink);
        v.push(TextStyle::Hidden);
        v.push(TextStyle::Crossed);
        assert(v@ =~= seq![
            TextStyle::Std,
            TextStyle::Bold,
            TextStyle::Faint,
            TextStyle::Italic,
            TextStyle::Underlined,
            TextStyle::Blink,
            TextStyle::Hidden,
            TextStyle::Crossed,
        ]);
        v
    }

    /// The terminal's number for this style.
    pub fn id(&self) -> (r: u8)
        ensures
            r == style_id(*self),
    {
        match self {
            TextStyle::Std => 0,
            TextStyle::Bold => 1,
            TextStyle::Faint => 2,
            TextStyle::Italic => 3,
            TextStyle::Underlined => 4,
            TextStyle::Blink => 5,
            TextStyle::Hidden => 8,
            TextStyle::Crossed => 9,
        }
    }
}

/// Appends the decimal digits of `n` to `s`.
fn push_decimal(s: &mut String, n: u8)
    ensures
        final(s)@ == old(s)@ + decimal(n as nat),
    decreases n,
{
    if n >= 10 {
        push_decimal(s, n / 10);
    }
    push_char(s, (48u8 + n % 10) as char);
    proof {
        if n >= 10 {
            assert(decimal(n as nat) == decimal((n / 10) as nat) + seq![((48 + n % 10) as u8) as char]);
        } else {
            assert(n % 10 == n);
        }
    }
    assert(final(s)@ =~= old(s)@ + decimal(n as nat));
}

/// Appends the characters `w` to `s`.
fn push_all(s: &mut String, w: &Vec<char>)
    ensures
        final(s)@ == old(s)@ + w@,
{
    let mut i: usize = 0;
    while i < w.len()
        invariant
            i <= w@.len(),
            s@ == old(s)@ + w@.subrange(0, i as int),
        decreases w@.len() - i,
    {
        push_char(s, w[i]);
        assert(w@.subrange(0, i + 1) =~= w@.subrange(0, i as int).push(w@[i as int]));
        i = i + 1;
    }
    assert(w@.subrange(0, w@.len() as int) =~= w@);
}

/// The escape code that sets colour `col` for the text (`FG`) or its
/// background (`BG`); write it to the terminal to apply it.
pub fn set_colour(col: UserColour, fgbg: FGBG) -> (r: String)
    ensures
        r@ == colour_code(col, fgbg),
{
    let mut s = String::new();
    if col == UserColour::Std {
        push_all(&mut s, &vec!['\u{1b}', '[', '0', '0', 'm']);
    }
    push_char(&mut s, '\u{1b}');
    push_char(&mut s, '[');
    push_char(&mut s, if fgbg == FGBG::FG { '3' } else { '4' });
    push_decimal(&mut s, col.id());
    push_char(&mut s, 'm');
    assert(s@ =~= colour_code(col, fgbg));
    s
}

/// The escape codes that set both the text colour `fg` and the background
/// colour `bg`.
pub fn set_colours(fg: UserColour, bg: UserColour) -> (r: String)
    ensures
        r@ == colour_code(fg, FGBG::FG) + colour_code(bg, FGBG::BG),
{
    let mut s = set_colour(fg, FGBG::FG);
    let b = set_colour(bg, FGBG::BG);
    s.append(b.as_str());
    s
}

/// The escape code that sets style `sty`.
pub fn set_style(sty: TextStyle) -> (r: String)
    ensures
        r@ == style_code(sty),
{
    let mut s = String::new();
    push_char(&mut s, '\u{1b}');
    push_char(&mut s, '[');
    push_char(&mut s, '0');
    push_decimal(&mut s, sty.id());
    push_char(&mut s, 'm');
    assert(s@ =~= style_code(sty));
    s
}

} // verus!
