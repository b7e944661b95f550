//! Reading values out of what the user typed.
use vstd::prelude::*;

verus! {

/// The words taken for "yes": `y`, `ye`, `yes`, `ok`, `+`, `t`, `tr`, `tru`
/// and `true`.
pub open spec fn is_yes_word(s: Seq<char>) -> bool {
    s == seq!['y'] || s == seq!['y', 'e'] || s == seq!['y', 'e', 's'] || s == seq!['o', 'k']
        || s == seq!['+'] || s == seq!['t'] || s == seq!['t', 'r'] || s == seq!['t', 'r', 'u']
        || s == seq!['t', 'r', 'u', 'e']
}

/// Whether `string` is one of the words taken for "yes".
pub fn string_to_bool(string: &str) -> (r: bool)
    ensures
        r == is_yes_word(string@),
{
    let n = string.unicode_len();
    let ghost s = string@;
    if n == 1 {
        let a = string.get_char(0);
        assert(s =~= seq![a]);
        a == 'y' || a == '+' || a == 't'
    } else if n == 2 {
        let a = string.get_char(0);
        let b = string.get_char(1);
        assert(s =~= seq![a, b]);
        (a == 'y' && b == 'e') || (a == 'o' && b == 'k') || (a == 't' && b == 'r')
    } else if n == 3 {
        let a = string.get_char(0);
        let b = string.get_char(1);
        let c = string.get_char(2);
        assert(s =~= seq![a, b, c]);
        (a == 'y' && b == 'e' && c == 's') || (a == 't' && b == 'r' && c == 'u')
    } else if n == 4 {
        let a = string.get_char(0);
        let b = string.get_char(1);
        let c = string.get_char(2);
        let d = string.get_char(3);
        assert(s =~= seq![a, b, c, d]);
        a == 't' && b == 'r' && c == 'u' && d == 'e'
    } else {
        false
    }
}

/// Relies on str::parse: reads a `T` from the text as `T`'s `FromStr` does;
/// its error becomes `None`.
#[verifier::external_body]
fn parse_str<T: std::str::FromStr>(s: &str) -> (r: Option<T>) {
    s.parse::<T>().ok()
}

/// The value that `string` spells, or `None` where it spells no `T`. Which
/// value that is, and whether there is one, is decided by `T`'s `FromStr`
/// impl alone: no contract over this generic `T` can name it, so none is
/// stated.
pub fn string_to_value<T: std::str::FromStr>(string: &str) -> (r: Option<T>) {
    parse_str::<T>(string)
}

} // verus!
