//! The text of a rendered list row: the item's 1-based position in
//! decimal, a colon and a tab, then the item's own text.

use vstd::prelude::*;

use crate::state::Todo;

verus! {

/// The decimal digit character for `d`.
pub open spec fn spec_digit(d: nat) -> char
    recommends
        d < 10,
{
    if d == 0 {
        '0'
    } else if d == 1 {
        '1'
    } else if d == 2 {
        '2'
    } else if d == 3 {
        '3'
    } else if d == 4 {
        '4'
    } else if d == 5 {
        '5'
    } else if d == 6 {
        '6'
    } else if d == 7 {
        '7'
    } else if d == 8 {
        '8'
    } else {
        '9'
    }
}

/// The usual decimal rendering of `n`: most significant digit first, no
/// leading zeros (a single `'0'` for zero itself).
pub open spec fn spec_decimal(n: nat) -> Seq<char>
    decreases n,
{
    if n < 10 {
        seq![spec_digit(n)]
    } else {
        spec_decimal(n / 10).push(spec_digit(n % 10))
    }
}

/// The text of the row label for the item at the given display position:
/// the position in decimal, `':'`, `'\t'`, then the item's text.
pub open spec fn spec_label(display_position: nat, text: Seq<char>) -> Seq<char> {
    spec_decimal(display_position) + seq![':', '\t'] + text
}

/// The one-character string holding the decimal digit of `d`.
fn digit_string(d: usize) -> (s: String)
    requires
        d < 10,
    ensures
        s@ =~= seq![spec_digit(d as nat)],
{
    proof {
        reveal_strlit("0");
        reveal_strlit("1");
        reveal_strlit("2");
        reveal_strlit("3");
        reveal_strlit("4");
        reveal_strlit("5");
        reveal_strlit("6");
        reveal_strlit("7");
        reveal_strlit("8");
        reveal_strlit("9");
    }
    if d == 0 {
        String::from_str("0")
    } else if d == 1 {
        String::from_str("1")
    } else if d == 2 {
        String::from_str("2")
    } else if d == 3 {
        String::from_str("3")
    } else if d == 4 {
        String::from_str("4")
    } else if d == 5 {
        String::from_str("5")
    } else if d == 6 {
        String::from_str("6")
    } else if d == 7 {
        String::from_str("7")
    } else if d == 8 {
        String::from_str("8")
    } else {
        String::from_str("9")
    }
}

/// The decimal rendering of `n`, as [`spec_decimal`] states it.
pub fn decimal_string(n: usize) -> (s: String)
    ensures
        s@ == spec_decimal(n as nat),
    decreases n,
{
    if n < 10 {
        digit_string(n)
    } else {
        let high = decimal_string(n / 10);
        let low = digit_string(n % 10);
        let s = high.concat(low.as_str());
        proof {
            assert(s@ =~= spec_decimal(n as nat));
        }
        s
    }
}

/// The full row label for the item `todo` shown at 0-based `position`:
/// the 1-based position in decimal, a colon and a tab, then the item's
/// text.
pub fn label_text(position: usize, todo: &Todo) -> (s: String)
    requires
        position < usize::MAX,
    ensures
        s@ == spec_label((position + 1) as nat, todo@.text),
{
    proof {
        reveal_strlit(":\t");
    }
    let number = decimal_string(position + 1);
    let with_sep = number.concat(":\t");
    let s = with_sep.concat(todo.todo_text.as_str());
    proof {
        assert(s@ =~= spec_label((position + 1) as nat, todo@.text));
    }
    s
}

} // verus!
