//! Textual rendering of a list.
//!
//! A list renders as each value in order followed by a comma, with the
//! literal terminator `NIL` at the end: the list holding 1, 2, 3 renders
//! as `1,2,3,NIL` and the empty list as `NIL`.

use vstd::prelude::*;
use vstd::string::StringExecFns;
use crate::list::List;

verus! {

/// The decimal digit character for `d`, which must lie in `0 ..= 9`.
pub open spec fn digit_char(d: int) -> char {
    if d == 0 {
        '0'
    } else if d == 1 {
        '1'
    } else if d == 2 {
        '2'
    } else if d == 3 {
        '3'
    } else if d == 4 {
        '4'
    } else if d == 5 {
        '5'
    } else if d == 6 {
        '6'
    } else if d == 7 {
        '7'
    } else if d == 8 {
        '8'
    } else {
        '9'
    }
}

/// The decimal digits of `n`, most significant first, with no sign and no
/// leading zeros (a single `'0'` for zero).
pub open spec fn spec_digits(n: nat) -> Seq<char>
    decreases n,
{
    if n < 10 {
        seq![digit_char(n as int)]
    } else {
        spec_digits(n / 10) + seq![digit_char((n % 10) as int)]
    }
}

/// The textual form of one value: a minus sign for negative values, then
/// the decimal digits of the magnitude.
pub open spec fn spec_int_text(v: i32) -> Seq<char> {
    if v < 0 {
        seq!['-'] + spec_digits((-(v as int)) as nat)
    } else {
        spec_digits(v as nat)
    }
}

/// The rendering of a sequence of values: each value followed by a comma,
/// and the terminator `NIL` at the end.
pub open spec fn spec_render(s: Seq<i32>) -> Seq<char>
    decreases s.len(),
{
    if s.len() == 0 {
        seq!['N', 'I', 'L']
    } else {
        spec_int_text(s[0]) + seq![','] + spec_render(s.skip(1))
    }
}

/// The single-character string for the decimal digit `d`.
fn digit_str(d: u64) -> (r: &'static str)
    requires
        d < 10,
    ensures
        r@ == seq![digit_char(d as int)],
{
    proof {
        reveal_strlit("0");
        reveal_strlit("1");
        reveal_strlit("2");
        reveal_strlit("3");
        reveal_strlit("4");
        reveal_strlit("5");
        reveal_strlit("6");
        reveal_strlit("7");
        reveal_strlit("8");
        reveal_strlit("9");
    }
    match d {
        0 => "0",
        1 => "1",
        2 => "2",
        3 => "3",
        4 => "4",
        5 => "5",
        6 => "6",
        7 => "7",
        8 => "8",
        _ => "9",
    }
}

/// The decimal digits of `n`, most significant first.
fn digits_string(n: u64) -> (r: String)
    ensures
        r@ == spec_digits(n as nat),
    decreases n,
{
    if n < 10 {
        digit_str(n).to_owned()
    } else {
        let mut s = digits_string(n / 10);
        let d = digit_str(n % 10);
        s.append(d);
        s
    }
}

/// The textual form of `v`: a minus sign for negative values, then the
/// decimal digits of the magnitude.
fn int_string(v: i32) -> (r: String)
    ensures
        r@ == spec_int_text(v),
{
    if v < 0 {
        let m: i64 = -(v as i64);
        let mut s = "-".to_owned();
        let d = digits_string(m as u64);
        s.append(d.as_str());
        proof {
            reveal_strlit("-");
            assert(s@ =~= spec_int_text(v));
        }
        s
    } else {
        digits_string(v as u64)
    }
}

impl List {
    /// Renders the list as text: each value in order followed by a comma,
    /// then the terminator `NIL`.
    pub fn render(&self) -> (r: String)
        ensures
            r@ == spec_render(self@),
        decreases self,
    {
        match self {
            List::Nil => {
                let r = "NIL".to_owned();
                proof {
                    reveal_strlit("NIL");
                    assert(r@ =~= seq!['N', 'I', 'L']);
                }
                r
            },
            List::Cons(v, rest) => {
                let mut s = int_string(*v);
                s.append(",");
                let tail = rest.render();
                s.append(tail.as_str());
                proof {
                    reveal_strlit(",");
                    assert(self@.skip(1) =~= rest@);
                    assert(s@ =~= spec_render(self@));
                }
                s
            },
        }
    }
}

} // verus!
