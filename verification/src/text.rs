//! Small string-building helpers shared by the editors and diagnostics.

use vstd::prelude::*;

verus! {

/// Relies on String::push: appends the given character to the end of the
/// string, so the new view is the old view with `c` appended.
#[verifier::external_body]
pub fn string_push(s: &mut String, c: char)
    ensures
        final(s)@ == old(s)@.push(c),
{
    s.push(c);
}

/// The string holding exactly the given characters.
pub fn chars_to_string(cs: &Vec<char>) -> (r: String)
    ensures
        r@ == cs@,
{
    let mut r = String::new();
    let mut i: usize = 0;
    while i < cs.len()
        invariant
            i <= cs.len(),
            r@ == cs@.take(i as int),
        decreases cs.len() - i,
    {
        string_push(&mut r, cs[i]);
        i += 1;
        proof {
            assert(r@ =~= cs@.take(i as int));
        }
    }
    proof {
        assert(cs@.take(cs@.len() as int) =~= cs@);
    }
    r
}

/// The character standing for one decimal digit.
pub open spec fn spec_digit_char(d: int) -> char {
    if d == 0 {
        '0'
    } else if d == 1 {
        '1'
    } else if d == 2 {
        '2'
    } else if d == 3 {
        '3'
    } else if d == 4 {
        '4'
    } else if d == 5 {
        '5'
    } else if d == 6 {
        '6'
    } else if d == 7 {
        '7'
    } else if d == 8 {
        '8'
    } else {
        '9'
    }
}

/// The decimal digits of a number, most significant first.
pub open spec fn spec_digits(n: int) -> Seq<char>
    decreases n,
{
    if n < 10 {
        seq![spec_digit_char(n)]
    } else {
        spec_digits(n / 10).push(spec_digit_char(n % 10))
    }
}

fn digit_char(d: usize) -> (c: char)
    requires
        d < 10,
    ensures
        c == spec_digit_char(d as int),
{
    match d {
        0 => '0',
        1 => '1',
        2 => '2',
        3 => '3',
        4 => '4',
        5 => '5',
        6 => '6',
        7 => '7',
        8 => '8',
        _ => '9',
    }
}

/// Renders a number in decimal.
pub fn fmt_usize(n: usize) -> (r: String)
    ensures
        r@ == spec_digits(n as int),
{
    let mut rev: Vec<char> = Vec::new();
    let mut m: usize = n;
    if m == 0 {
        let r = String::from_str("0");
        proof {
            reveal_strlit("0");
            assert(r@ =~= seq![spec_digit_char(0)]);
        }
        return r;
    }
    while m > 0
        invariant
            m > 0 ==> spec_digits(n as int) == spec_digits(m as int) + rev@.reverse(),
            m == 0 ==> spec_digits(n as int) == rev@.reverse(),
        decreases m,
    {
        let ghost pre = rev@;
        let d = m % 10;
        rev.push(digit_char(d));
        proof {
            assert(rev@.reverse() =~= seq![spec_digit_char(d as int)] + pre.reverse());
            if m >= 10 {
                assert(spec_digits(m as int) == spec_digits(m as int / 10).push(
                    spec_digit_char(d as int),
                ));
                assert(spec_digits(m as int / 10) + (seq![spec_digit_char(d as int)]
                    + pre.reverse()) =~= spec_digits(m as int) + pre.reverse());
            } else {
                assert(spec_digits(m as int) =~= seq![spec_digit_char(d as int)]);
            }
        }
        m = m / 10;
    }
    let mut r = String::new();
    let k = rev.len();
    let mut j: usize = 0;
    while j < k
        invariant
            k == rev@.len(),
            j <= k,
            r@ == rev@.reverse().take(j as int),
        decreases k - j,
    {
        string_push(&mut r, rev[k - 1 - j]);
        j += 1;
        proof {
            assert(r@ =~= rev@.reverse().take(j as int));
        }
    }
    proof {
        assert(rev@.reverse().take(k as int) =~= rev@.reverse());
    }
    r
}

/// Character-for-character equality of two string slices.
pub fn str_eq(a: &str, b: &str) -> (r: bool)
    ensures
        r == (a@ == b@),
{
    let an = a.unicode_len();
    let bn = b.unicode_len();
    if an != bn {
        return false;
    }
    let mut i: usize = 0;
    while i < an
        invariant
            an == a@.len(),
            an == b@.len(),
            i <= an,
            forall|j: int| 0 <= j < i ==> a@[j] == b@[j],
        decreases an - i,
    {
        if a.get_char(i) != b.get_char(i) {
            return false;
        }
        i += 1;
    }
    proof {
        assert(a@ =~= b@);
    }
    true
}

} // verus!
