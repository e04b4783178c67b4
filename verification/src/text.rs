//! Small verified text utilities the dispatch layer is built on: stripping
//! the trailing slashes of a base URL, rendering integers in decimal for path
//! interpolation, and plain string comparison.

use vstd::prelude::*;

verus! {

/// `s` with every trailing `'/'` removed.
pub open spec fn strip_slashes(s: Seq<char>) -> Seq<char>
    decreases s.len(),
{
    if s.len() > 0 && s.last() == '/' {
        strip_slashes(s.drop_last())
    } else {
        s
    }
}

/// A stripped sequence is empty or no longer ends in `'/'`.
pub proof fn lemma_strip_slashes_no_tail(s: Seq<char>)
    ensures
        strip_slashes(s).len() == 0 || strip_slashes(s).last() != '/',
    decreases s.len(),
{
    if s.len() > 0 && s.last() == '/' {
        lemma_strip_slashes_no_tail(s.drop_last());
    }
}

/// Removes every trailing `'/'` of `s`, as [`strip_slashes`] describes.
pub fn strip_trailing_slashes(s: &str) -> (r: String)
    ensures
        r@ == strip_slashes(s@),
{
    let len = s.unicode_len();
    let mut n = len;
    proof {
        assert(s@.subrange(0, n as int) =~= s@);
    }
    loop
        invariant
            n <= len,
            len == s@.len(),
            strip_slashes(s@.subrange(0, n as int)) == strip_slashes(s@),
        ensures
            n <= len,
            len == s@.len(),
            strip_slashes(s@.subrange(0, n as int)) == strip_slashes(s@),
            n == 0 || s@[n - 1] != '/',
        decreases n,
    {
        if n == 0 {
            break;
        }
        let c = s.get_char(n - 1);
        if c != '/' {
            break;
        }
        proof {
            let cur = s@.subrange(0, n as int);
            assert(cur.last() == s@[n - 1]);
            assert(cur.drop_last() =~= s@.subrange(0, (n - 1) as int));
        }
        n = n - 1;
    }
    let kept = s.substring_char(0, n);
    proof {
        let cur = s@.subrange(0, n as int);
        if n > 0 {
            assert(cur.last() == s@[n - 1]);
        }
        assert(strip_slashes(cur) == cur);
    }
    String::from_str(kept)
}

/// The decimal digit character for `d`, which must lie in `0 ..= 9`.
pub open spec fn dec_digit(d: int) -> char {
    if d == 0 {
        '0'
    } else if d == 1 {
        '1'
    } else if d == 2 {
        '2'
    } else if d == 3 {
        '3'
    } else if d == 4 {
        '4'
    } else if d == 5 {
        '5'
    } else if d == 6 {
        '6'
    } else if d == 7 {
        '7'
    } else if d == 8 {
        '8'
    } else {
        '9'
    }
}

/// The decimal digits of `n`, most significant first, without a sign.
pub open spec fn dec_nat(n: nat) -> Seq<char>
    decreases n,
{
    if n < 10 {
        seq![dec_digit(n as int)]
    } else {
        dec_nat(n / 10) + seq![dec_digit((n % 10) as int)]
    }
}

/// The decimal rendering of `i`, with a leading `'-'` when `i` is negative.
pub open spec fn dec_int(i: int) -> Seq<char> {
    if i < 0 {
        seq!['-'] + dec_nat((-i) as nat)
    } else {
        dec_nat(i as nat)
    }
}

/// The one-character string for the decimal digit `d`.
fn digit_str(d: u32) -> (r: &'static str)
    requires
        d < 10,
    ensures
        r@ == seq![dec_digit(d as int)],
{
    if d == 0 {
        proof {
            reveal_strlit("0");
            assert("0"@ =~= seq![dec_digit(d as int)]);
        }
        "0"
    } else if d == 1 {
        proof {
            reveal_strlit("1");
            assert("1"@ =~= seq![dec_digit(d as int)]);
        }
        "1"
    } else if d == 2 {
        proof {
            reveal_strlit("2");
            assert("2"@ =~= seq![dec_digit(d as int)]);
        }
        "2"
    } else if d == 3 {
        proof {
            reveal_strlit("3");
            assert("3"@ =~= seq![dec_digit(d as int)]);
        }
        "3"
    } else if d == 4 {
        proof {
            reveal_strlit("4");
            assert("4"@ =~= seq![dec_digit(d as int)]);
        }
        "4"
    } else if d == 5 {
        proof {
            reveal_strlit("5");
            assert("5"@ =~= seq![dec_digit(d as int)]);
        }
        "5"
    } else if d == 6 {
        proof {
            reveal_strlit("6");
            assert("6"@ =~= seq![dec_digit(d as int)]);
        }
        "6"
    } else if d == 7 {
        proof {
            reveal_strlit("7");
            assert("7"@ =~= seq![dec_digit(d as int)]);
        }
        "7"
    } else if d == 8 {
        proof {
            reveal_strlit("8");
            assert("8"@ =~= seq![dec_digit(d as int)]);
        }
        "8"
    } else {
        proof {
            reveal_strlit("9");
            assert("9"@ =~= seq![dec_digit(d as int)]);
        }
        "9"
    }
}

/// The decimal digits of `n`, as [`dec_nat`] describes.
fn u32_dec(n: u32) -> (r: String)
    ensures
        r@ == dec_nat(n as nat),
    decreases n,
{
    if n < 10 {
        String::from_str(digit_str(n))
    } else {
        let mut prefix = u32_dec(n / 10);
        prefix.append(digit_str(n % 10));
        prefix
    }
}

/// The decimal rendering of `i`, as [`dec_int`] describes.
pub fn i32_dec(i: i32) -> (r: String)
    ensures
        r@ == dec_int(i as int),
{
    if i >= 0 {
        u32_dec(i as u32)
    } else {
        let mag: u32 = (-(i as i64)) as u32;
        proof {
            reveal_strlit("-");
            assert("-"@ =~= seq!['-']);
        }
        let mut r = String::from_str("-");
        let digits = u32_dec(mag);
        r.append(digits.as_str());
        r
    }
}

/// True exactly when the two strings hold the same characters.
pub fn str_eq(a: &str, b: &str) -> (r: bool)
    ensures
        r == (a@ == b@),
{
    let n = a.unicode_len();
    if n != b.unicode_len() {
        return false;
    }
    let mut i: usize = 0;
    while i < n
        invariant
            i <= n,
            n == a@.len(),
            n == b@.len(),
            forall|j: int| 0 <= j < i ==> a@[j] == b@[j],
        decreases n - i,
    {
        if a.get_char(i) != b.get_char(i) {
            return false;
        }
        i = i + 1;
    }
    proof {
        assert(a@ =~= b@);
    }
    true
}

} // verus!
