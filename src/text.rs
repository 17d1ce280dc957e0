//! Text pieces of the report: decimal numbers, joined version ranges and the
//! closing count line.

use vstd::prelude::*;

verus! {

/// The decimal digit character for `d < 10`.
pub open spec fn digit_char(d: nat) -> char {
    if d == 0 {
        '0'
    } else if d == 1 {
        '1'
    } else if d == 2 {
        '2'
    } else if d == 3 {
        '3'
    } else if d == 4 {
        '4'
    } else if d == 5 {
        '5'
    } else if d == 6 {
        '6'
    } else if d == 7 {
        '7'
    } else if d == 8 {
        '8'
    } else {
        '9'
    }
}

/// The decimal notation of `n`, without leading zeros.
pub open spec fn decimal(n: nat) -> Seq<char>
    decreases n,
{
    if n < 10 {
        seq![digit_char(n)]
    } else {
        decimal(n / 10) + seq![digit_char(n % 10)]
    }
}

/// `parts` joined with `sep` between consecutive elements.
pub open spec fn joined(parts: Seq<String>, sep: Seq<char>) -> Seq<char>
    decreases parts.len(),
{
    if parts.len() == 0 {
        Seq::empty()
    } else if parts.len() == 1 {
        parts[0]@
    } else {
        joined(parts.drop_last(), sep) + sep + parts.last()@
    }
}

/// The closing line of a report with `count` vulnerabilities.
pub open spec fn count_text(count: nat) -> Seq<char> {
    if count == 1 {
        "1 vulnerability found!"@
    } else {
        decimal(count) + " vulnerabilities found!"@
    }
}

fn digit_str(d: usize) -> (r: &'static str)
    requires
        d < 10,
    ensures
        r@ == seq![digit_char(d as nat)],
{
    if d == 0 {
        proof { reveal_strlit("0"); }
        "0"
    } else if d == 1 {
        proof { reveal_strlit("1"); }
        "1"
    } else if d == 2 {
        proof { reveal_strlit("2"); }
        "2"
    } else if d == 3 {
        proof { reveal_strlit("3"); }
        "3"
    } else if d == 4 {
        proof { reveal_strlit("4"); }
        "4"
    } else if d == 5 {
        proof { reveal_strlit("5"); }
        "5"
    } else if d == 6 {
        proof { reveal_strlit("6"); }
        "6"
    } else if d == 7 {
        proof { reveal_strlit("7"); }
        "7"
    } else if d == 8 {
        proof { reveal_strlit("8"); }
        "8"
    } else {
        proof { reveal_strlit("9"); }
        "9"
    }
}

/// Writes `n` in decimal.
pub fn decimal_string(n: usize) -> (r: String)
    ensures
        r@ == decimal(n as nat),
    decreases n,
{
    if n < 10 {
        String::from_str(digit_str(n))
    } else {
        let mut s = decimal_string(n / 10);
        s.append(digit_str(n % 10));
        s
    }
}

/// Joins the patched version ranges of an advisory with `" OR "`; no ranges
/// give the empty string.
pub fn solution_text(patched: &Vec<String>) -> (r: String)
    ensures
        r@ == joined(patched@, " OR "@),
{
    let mut r = String::new();
    let mut i: usize = 0;
    while i < patched.len()
        invariant
            i <= patched@.len(),
            r@ == joined(patched@.take(i as int), " OR "@),
        decreases patched@.len() - i,
    {
        assert(patched@.take(i + 1).drop_last() =~= patched@.take(i as int));
        if i > 0 {
            r.append(" OR ");
        }
        r.append(patched[i].as_str());
        i = i + 1;
    }
    assert(patched@.take(patched@.len() as int) =~= patched@);
    r
}

/// The closing line: singular for exactly one vulnerability, plural for any
/// other count.
pub fn count_message(count: usize) -> (r: String)
    ensures
        r@ == count_text(count as nat),
{
    if count == 1 {
        String::from_str("1 vulnerability found!")
    } else {
        let mut s = decimal_string(count);
        s.append(" vulnerabilities found!");
        s
    }
}

} // verus!
