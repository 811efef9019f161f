//! Small verified string-rendering helpers: decimal digits and joining,
//! used to build diagnostic and display lines.

use vstd::prelude::*;

verus! {

/// The decimal digit character for `d` (only meaningful for `d < 10`).
pub open spec fn digit_char(d: nat) -> char {
    if d == 0 {
        '0'
    } else if d == 1 {
        '1'
    } else if d == 2 {
        '2'
    } else if d == 3 {
        '3'
    } else if d == 4 {
        '4'
    } else if d == 5 {
        '5'
    } else if d == 6 {
        '6'
    } else if d == 7 {
        '7'
    } else if d == 8 {
        '8'
    } else {
        '9'
    }
}

/// The decimal rendering of `n`, most significant digit first.
pub open spec fn dec_str(n: nat) -> Seq<char>
    decreases n,
{
    if n < 10 {
        seq![digit_char(n)]
    } else {
        dec_str(n / 10).push(digit_char(n % 10))
    }
}

fn digit_str(d: u64) -> (s: &'static str)
    requires
        d < 10,
    ensures
        s@ == seq![digit_char(d as nat)],
{
    proof {
        reveal_strlit("0");
        reveal_strlit("1");
        reveal_strlit("2");
        reveal_strlit("3");
        reveal_strlit("4");
        reveal_strlit("5");
        reveal_strlit("6");
        reveal_strlit("7");
        reveal_strlit("8");
        reveal_strlit("9");
    }
    let s = match d {
        0 => "0",
        1 => "1",
        2 => "2",
        3 => "3",
        4 => "4",
        5 => "5",
        6 => "6",
        7 => "7",
        8 => "8",
        _ => "9",
    };
    proof {
        assert(s@ =~= seq![digit_char(d as nat)]);
    }
    s
}

/// Render `n` in decimal.
pub fn u64_to_string(n: u64) -> (s: String)
    ensures
        s@ == dec_str(n as nat),
    decreases n,
{
    if n < 10 {
        String::from_str(digit_str(n))
    } else {
        let mut s = u64_to_string(n / 10);
        s.append(digit_str(n % 10));
        proof {
            assert(s@ =~= dec_str(n as nat));
        }
        s
    }
}

/// Render `n` in decimal.
pub fn usize_to_string(n: usize) -> (s: String)
    ensures
        s@ == dec_str(n as nat),
{
    u64_to_string(n as u64)
}

/// The decimal renderings of `xs` joined by `sep`, in order.
pub open spec fn joined_dec(xs: Seq<u64>, sep: Seq<char>) -> Seq<char>
    decreases xs.len(),
{
    if xs.len() == 0 {
        Seq::empty()
    } else if xs.len() == 1 {
        dec_str(xs[0] as nat)
    } else {
        joined_dec(xs.drop_last(), sep) + sep + dec_str(xs.last() as nat)
    }
}

/// Render each number of `xs` in decimal and join them with `sep`.
pub fn join_dec(xs: &Vec<u64>, sep: &str) -> (s: String)
    ensures
        s@ == joined_dec(xs@, sep@),
{
    let mut s = String::new();
    let n: usize = xs.len();
    for i in 0..n
        invariant
            n == xs@.len(),
            s@ == joined_dec(xs@.subrange(0, i as int), sep@),
    {
        if i > 0 {
            s.append(sep);
        }
        let d = u64_to_string(xs[i]);
        s.append(d.as_str());
        proof {
            assert(xs@.subrange(0, i + 1).drop_last() =~= xs@.subrange(0, i as int));
            assert(s@ =~= joined_dec(xs@.subrange(0, i + 1), sep@));
        }
    }
    proof {
        assert(xs@.subrange(0, n as int) =~= xs@);
    }
    s
}

} // verus!
