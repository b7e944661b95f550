//! What the terminal shows for each character the user types.
use vstd::prelude::*;

verus! {

/// What kind of character the input field prints.
/// `Copy` prints what the user types, `Substitute(c)` prints `c` in its place
/// (for masked entry), `Suppress` prints nothing at all.
#[derive(Clone, Copy, Debug, PartialEq, Eq, Structural)]
pub enum PrintChar {
    Copy,
    Substitute(char),
    Suppress,
}

/// What is shown for the characters `s`.
pub open spec fn echo(pc: PrintChar, s: Seq<char>) -> Seq<char> {
    match pc {
        PrintChar::Copy => s,
        PrintChar::Substitute(c) => Seq::new(s.len(), |i: int| c),
        PrintChar::Suppress => Seq::empty(),
    }
}

/// `n` copies of `c`.
pub open spec fn repeat(c: char, n: nat) -> Seq<char> {
    Seq::new(n, |i: int| c)
}

/// Appends what is shown for `s[from..]` to `out`.
pub fn push_echo(out: &mut Vec<char>, pc: PrintChar, s: &Vec<char>, from: usize)
    requires
        from <= s@.len(),
    ensures
        final(out)@ == old(out)@ + echo(pc, s@.subrange(from as int, s@.len() as int)),
{
    let mut i: usize = from;
    while i < s.len()
        invariant
            from <= i <= s@.len(),
            out@ == old(out)@ + echo(pc, s@.subrange(from as int, i as int)),
        decreases s@.len() - i,
    {
        let ghost prev = out@;
        match pc {
            PrintChar::Copy => out.push(s[i]),
            PrintChar::Substitute(c) => out.push(c),
            PrintChar::Suppress => {},
        }
        assert(s@.subrange(from as int, i + 1) =~= s@.subrange(from as int, i as int).push(s@[i as int]));
        assert(echo(pc, s@.subrange(from as int, i + 1)) =~= echo(pc, s@.subrange(from as int, i as int)) + (
        match pc {
            PrintChar::Suppress => Seq::<char>::empty(),
            PrintChar::Copy => seq![s@[i as int]],
            PrintChar::Substitute(c) => seq![c],
        }));
        i = i + 1;
    }
}

/// Appends `n` copies of `c` to `out`.
pub fn push_repeat(out: &mut Vec<char>, c: char, n: usize)
    ensures
        final(out)@ == old(out)@ + repeat(c, n as nat),
{
    let mut i: usize = 0;
    while i < n
        invariant
            i <= n,
            out@ == old(out)@ + repeat(c, i as nat),
        decreases n - i,
    {
        out.push(c);
        assert(repeat(c, (i + 1) as nat) =~= repeat(c, i as nat).push(c));
        i = i + 1;
    }
}

} // verus!
