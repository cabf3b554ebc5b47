//! Key codes as the interface core reads them: a printable character, a
//! function key, or a bare modifier (which widgets may not bind), together
//! with the canonical display text of a key hint.

use vstd::prelude::*;

verus! {

/// A key code, as far as the interface core needs to tell keys apart.
///
/// A bare modifier key carries no information the core reads beyond the fact
/// that it is a modifier: widgets refuse it as a trigger, so the display
/// rules never have to render one.
#[derive(Clone, Copy, Debug, PartialEq, Eq, Structural)]
pub enum Key {
    /// A printable character key.
    Char(char),
    /// A function key, rendered as `F` followed by its number.
    F(u8),
    /// A bare modifier key (shift, control, and the like).
    Modifier,
}

/// A key may serve as a widget trigger exactly when it is not a bare
/// modifier key.
pub open spec fn valid_trigger(k: Key) -> bool {
    !(k is Modifier)
}

/// The uppercase mapping of a character, as the Unicode case tables give it.
/// It depends on the character alone.
pub uninterp spec fn upper_of(c: char) -> Seq<char>;

/// Relies on char::to_uppercase: yields the uppercase mapping of the
/// character, a function of the character alone; when no conversion exists
/// it yields the character itself, so the result is never empty.
#[verifier::external_body]
fn upper(c: char) -> (r: String)
    ensures
        r@ == upper_of(c),
        r@.len() >= 1,
{
    c.to_uppercase().collect()
}

/// The character that writes a single decimal digit.
pub open spec fn digit_char(d: nat) -> char {
    if d == 0 {
        '0'
    } else if d == 1 {
        '1'
    } else if d == 2 {
        '2'
    } else if d == 3 {
        '3'
    } else if d == 4 {
        '4'
    } else if d == 5 {
        '5'
    } else if d == 6 {
        '6'
    } else if d == 7 {
        '7'
    } else if d == 8 {
        '8'
    } else {
        '9'
    }
}

/// The decimal notation of a number, most significant digit first, with no
/// leading zeroes (a single `'0'` for zero).
pub open spec fn dec_rep(n: nat) -> Seq<char>
    decreases n,
{
    if n < 10 {
        seq![digit_char(n)]
    } else {
        dec_rep(n / 10) + seq![digit_char(n % 10)]
    }
}

/// The one-character string of a single decimal digit.
fn digit_str(d: u8) -> (r: &'static str)
    requires
        d < 10,
    ensures
        r@ == seq![digit_char(d as nat)],
{
    proof {
        reveal_strlit("0");
        reveal_strlit("1");
        reveal_strlit("2");
        reveal_strlit("3");
        reveal_strlit("4");
        reveal_strlit("5");
        reveal_strlit("6");
        reveal_strlit("7");
        reveal_strlit("8");
        reveal_strlit("9");
    }
    match d {
        0 => "0",
        1 => "1",
        2 => "2",
        3 => "3",
        4 => "4",
        5 => "5",
        6 => "6",
        7 => "7",
        8 => "8",
        _ => "9",
    }
}

/// Appends the decimal notation of `n` to `out`.
pub fn push_dec(n: u8, out: &mut String)
    ensures
        final(out)@ == old(out)@ + dec_rep(n as nat),
    decreases n,
{
    if n >= 10 {
        push_dec(n / 10, out);
    }
    out.append(digit_str(n % 10));
    proof {
        if n < 10 {
            assert(n % 10 == n);
        }
        assert(out@ =~= old(out)@ + dec_rep(n as nat));
    }
}

/// The display text of a key hint: a printable character renders as its
/// uppercase mapping, a function key as `F` followed by its number.
/// Defined only for keys a widget may bind.
pub open spec fn key_display(k: Key) -> Seq<char>
    recommends
        valid_trigger(k),
{
    match k {
        Key::Char(c) => upper_of(c),
        Key::F(n) => seq!['F'] + dec_rep(n as nat),
        Key::Modifier => Seq::empty(),
    }
}

/// Appends the display text of a key hint to `out`.
pub fn push_key_display(k: Key, out: &mut String)
    requires
        valid_trigger(k),
    ensures
        final(out)@ == old(out)@ + key_display(k),
{
    match k {
        Key::Char(c) => {
            let u = upper(c);
            out.append(u.as_str());
        },
        Key::F(n) => {
            proof {
                reveal_strlit("F");
            }
            out.append("F");
            push_dec(n, out);
            proof {
                assert(out@ =~= old(out)@ + key_display(k));
            }
        },
        Key::Modifier => {
            proof {
                assert(false);
            }
        },
    }
}

} // verus!
