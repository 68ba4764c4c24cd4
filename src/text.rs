//! Plain-text building blocks: decimal numbers and board addresses.
use vstd::prelude::*;
use crate::coord::{Dim, JsCoord};

verus! {

/// The character of a decimal digit.
pub open spec fn digit_char(d: nat) -> char {
    if d == 0 { '0' }
    else if d == 1 { '1' }
    else if d == 2 { '2' }
    else if d == 3 { '3' }
    else if d == 4 { '4' }
    else if d == 5 { '5' }
    else if d == 6 { '6' }
    else if d == 7 { '7' }
    else if d == 8 { '8' }
    else { '9' }
}

/// The decimal digits of `n`, most significant first, without leading zeros.
pub open spec fn decimal(n: nat) -> Seq<char>
    decreases n,
{
    if n < 10 {
        seq![digit_char(n)]
    } else {
        decimal(n / 10).push(digit_char(n % 10))
    }
}

/// The letters that name the board's rows, first row first.
pub open spec fn row_letters() -> Seq<char> {
    seq!['A', 'B', 'C', 'D', 'E', 'F', 'G', 'H', 'I', 'J', 'K', 'L', 'M',
         'N', 'O', 'P', 'Q', 'R', 'S', 'T', 'U', 'V', 'W', 'X', 'Y', 'Z']
}

/// The letter of a row; a row past the alphabet shows as `?`.
pub open spec fn row_char(row: nat) -> char {
    if row < 26 { row_letters()[row as int] } else { '?' }
}

/// A cell written as its row letter followed by its column number (`B3`).
pub open spec fn coord_text(c: JsCoord) -> Seq<char> {
    seq![row_char(c.row as nat)] + decimal(c.col as nat)
}

fn digit_str(d: usize) -> (r: &'static str)
    requires
        d < 10,
    ensures
        r@ == seq![digit_char(d as nat)],
{
    if d == 0 { proof { reveal_strlit("0"); } "0" }
    else if d == 1 { proof { reveal_strlit("1"); } "1" }
    else if d == 2 { proof { reveal_strlit("2"); } "2" }
    else if d == 3 { proof { reveal_strlit("3"); } "3" }
    else if d == 4 { proof { reveal_strlit("4"); } "4" }
    else if d == 5 { proof { reveal_strlit("5"); } "5" }
    else if d == 6 { proof { reveal_strlit("6"); } "6" }
    else if d == 7 { proof { reveal_strlit("7"); } "7" }
    else if d == 8 { proof { reveal_strlit("8"); } "8" }
    else { proof { reveal_strlit("9"); } "9" }
}

/// Appends the decimal digits of `n` to `s`.
pub fn push_decimal(s: &mut String, n: usize)
    ensures
        final(s)@ == old(s)@ + decimal(n as nat),
    decreases n,
{
    if n >= 10 {
        push_decimal(s, n / 10);
    }
    s.append(digit_str(n % 10));
    proof {
        if n >= 10 {
            assert(old(s)@ + decimal(n as nat) =~= old(s)@ + decimal((n / 10) as nat) + seq![
                digit_char((n % 10) as nat),
            ]);
        } else {
            assert(old(s)@ + decimal(n as nat) =~= old(s)@ + seq![digit_char((n % 10) as nat)]);
        }
    }
}

/// Appends the letter of row `r` to `s`.
pub fn push_row_char(s: &mut String, r: usize)
    ensures
        final(s)@ == old(s)@ + seq![row_char(r as nat)],
{
    let letters = "ABCDEFGHIJKLMNOPQRSTUVWXYZ";
    proof {
        reveal_strlit("ABCDEFGHIJKLMNOPQRSTUVWXYZ");
        reveal_strlit("?");
        assert(letters@ =~= row_letters());
    }
    if r < 26 {
        s.append(letters.substring_char(r, r + 1));
    } else {
        s.append("?");
    }
    assert(final(s)@ =~= old(s)@ + seq![row_char(r as nat)]);
}

/// Writes a cell as the host shows it: row letter, then column number.
pub fn coord_string(from_row: Dim, from_col: Dim) -> (r: String)
    ensures
        r@ == coord_text(JsCoord { row: from_row, col: from_col }),
{
    let mut s = String::new();
    push_row_char(&mut s, from_row as usize);
    push_decimal(&mut s, from_col as usize);
    assert(s@ =~= coord_text(JsCoord { row: from_row, col: from_col }));
    s
}

} // verus!
