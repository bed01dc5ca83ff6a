//! Decimal digits as text: rendering a number into its digit string and
//! reading a digit run back, with the spec-level model both sides share.

use vstd::prelude::*;

verus! {

/// An ASCII decimal digit.
pub open spec fn is_digit_char(c: char) -> bool {
    48 <= c as int <= 57
}

/// An ASCII letter.
pub open spec fn is_alpha_char(c: char) -> bool {
    (65 <= c as int <= 90) || (97 <= c as int <= 122)
}

/// The numeric value of a digit character.
pub open spec fn digit_val(c: char) -> int {
    c as int - 48
}

/// The digit character for a value below ten.
pub open spec fn digit_char_of(d: int) -> char {
    if d == 0 {
        '0'
    } else if d == 1 {
        '1'
    } else if d == 2 {
        '2'
    } else if d == 3 {
        '3'
    } else if d == 4 {
        '4'
    } else if d == 5 {
        '5'
    } else if d == 6 {
        '6'
    } else if d == 7 {
        '7'
    } else if d == 8 {
        '8'
    } else {
        '9'
    }
}

/// The decimal rendering of a non-negative number, most significant digit
/// first, without leading zeros (except for zero itself).
pub open spec fn dec_digits(n: int) -> Seq<char>
    recommends
        n >= 0,
    decreases n,
{
    if n < 10 {
        seq![digit_char_of(n)]
    } else {
        dec_digits(n / 10).push(digit_char_of(n % 10))
    }
}

/// The number a digit sequence denotes, read most significant digit first.
pub open spec fn digits_to_int(s: Seq<char>) -> int
    decreases s.len(),
{
    if s.len() == 0 {
        0
    } else {
        digits_to_int(s.drop_last()) * 10 + digit_val(s.last())
    }
}

/// A sequence of digit characters denotes a non-negative number.
pub proof fn lemma_digits_nonneg(s: Seq<char>)
    requires
        forall|k: int| 0 <= k < s.len() ==> is_digit_char(#[trigger] s[k]),
    ensures
        digits_to_int(s) >= 0,
    decreases s.len(),
{
    if s.len() > 0 {
        lemma_digits_nonneg(s.drop_last());
    }
}

/// Extending a digit run on the right never shrinks the number it denotes.
pub proof fn lemma_digits_prefix_le(s: Seq<char>, i: int, j: int)
    requires
        0 <= i <= j <= s.len(),
        forall|k: int| 0 <= k < s.len() ==> is_digit_char(#[trigger] s[k]),
    ensures
        digits_to_int(s.subrange(0, i)) <= digits_to_int(s.subrange(0, j)),
    decreases j - i,
{
    if i < j {
        lemma_digits_prefix_le(s, i, j - 1);
        let p = s.subrange(0, j - 1);
        let q = s.subrange(0, j);
        assert(q.drop_last() =~= p);
        assert(forall|k: int| 0 <= k < p.len() ==> is_digit_char(#[trigger] p[k]));
        lemma_digits_nonneg(p);
        assert(digits_to_int(q) == digits_to_int(p) * 10 + digit_val(q.last()));
        assert(digits_to_int(p) * 10 >= digits_to_int(p)) by (nonlinear_arith)
            requires
                digits_to_int(p) >= 0,
        ;
    }
}

/// The digit character for `d`, as a one-character string slice.
pub fn digit_str(d: u32) -> (r: &'static str)
    requires
        d < 10,
    ensures
        r@ == seq![digit_char_of(d as int)],
{
    proof {
        reveal_strlit("0");
        reveal_strlit("1");
        reveal_strlit("2");
        reveal_strlit("3");
        reveal_strlit("4");
        reveal_strlit("5");
        reveal_strlit("6");
        reveal_strlit("7");
        reveal_strlit("8");
        reveal_strlit("9");
    }
    let r: &'static str = match d {
        0 => "0",
        1 => "1",
        2 => "2",
        3 => "3",
        4 => "4",
        5 => "5",
        6 => "6",
        7 => "7",
        8 => "8",
        _ => "9",
    };
    proof {
        assert(r@ =~= seq![digit_char_of(d as int)]);
    }
    r
}

/// Renders `n` in decimal.
pub fn u32_to_string(n: u32) -> (s: String)
    ensures
        s@ == dec_digits(n as int),
    decreases n,
{
    if n < 10 {
        String::from_str(digit_str(n))
    } else {
        let mut s = u32_to_string(n / 10);
        s.append(digit_str(n % 10));
        proof {
            assert(s@ =~= dec_digits(n as int));
        }
        s
    }
}

/// Reads the digit run `s[from..to]` as a `u32`; `None` when the run
/// denotes a number above `u32::MAX`.
pub fn parse_digit_run(s: &str, from: usize, to: usize) -> (r: Option<u32>)
    requires
        from <= to <= s@.len(),
        from < to,
        forall|k: int| from <= k < to ==> is_digit_char(#[trigger] s@[k]),
    ensures
        match r {
            Some(v) => v as int == digits_to_int(s@.subrange(from as int, to as int)),
            None => digits_to_int(s@.subrange(from as int, to as int)) > u32::MAX,
        },
{
    let ghost whole = s@.subrange(from as int, to as int);
    let mut acc: u32 = 0;
    let mut i: usize = from;
    while i < to
        invariant
            from <= i <= to <= s@.len(),
            forall|k: int| from <= k < to ==> is_digit_char(#[trigger] s@[k]),
            acc as int == digits_to_int(s@.subrange(from as int, i as int)),
        decreases to - i,
    {
        let c = s.get_char(i);
        assert(is_digit_char(c));
        let d: u32 = c as u32 - 48;
        let ghost part = s@.subrange(from as int, i as int);
        let ghost ext = s@.subrange(from as int, i as int + 1);
        proof {
            assert(ext.drop_last() =~= part);
            assert(ext.last() == s@[i as int]);
        }
        if acc > (u32::MAX - d) / 10 {
            proof {
                assert(acc as int * 10 + d as int > u32::MAX) by (nonlinear_arith)
                    requires
                        acc as int > (u32::MAX - d as int) / 10,
                        0 <= d as int <= 9,
                ;
                assert(digits_to_int(ext) == acc as int * 10 + d as int);
                lemma_run_tail_ge(s@, from as int, i as int + 1, to as int);
            }
            return None;
        }
        proof {
            assert(acc as int * 10 + d as int <= u32::MAX) by (nonlinear_arith)
                requires
                    acc as int <= (u32::MAX - d as int) / 10,
                    0 <= d as int <= 9,
                    acc as int >= 0,
            ;
        }
        acc = acc * 10 + d;
        i = i + 1;
    }
    proof {
        assert(s@.subrange(from as int, i as int) =~= whole);
    }
    Some(acc)
}

/// Compares a string against a literal by text.
pub fn string_is(a: &String, lit: &str) -> (r: bool)
    ensures
        r == (a@ == lit@),
{
    let other = String::from_str(lit);
    a.eq(&other)
}

/// Within one digit run, a longer slice denotes at least as large a number.
proof fn lemma_run_tail_ge(s: Seq<char>, from: int, mid: int, to: int)
    requires
        0 <= from <= mid <= to <= s.len(),
        forall|k: int| from <= k < to ==> is_digit_char(#[trigger] s[k]),
    ensures
        digits_to_int(s.subrange(from, to)) >= digits_to_int(s.subrange(from, mid)),
{
    let run = s.subrange(from, to);
    assert(forall|k: int| 0 <= k < run.len() ==> is_digit_char(#[trigger] run[k]));
    lemma_digits_prefix_le(run, mid - from, to - from);
    assert(run.subrange(0, mid - from) =~= s.subrange(from, mid));
    assert(run.subrange(0, to - from) =~= run);
}

} // verus!
