//! Small verified text helpers: decimal rendering of integers, boolean
//! keywords, and substring search. The extra-vars documents and inventory
//! path names are assembled from these.

use vstd::prelude::*;
use vstd::string::StrSliceExecFns;
use vstd::string::StringExecFns;

verus! {

/// The character for one decimal digit.
pub open spec fn dec_digit_char(d: nat) -> char {
    if d == 0 {
        '0'
    } else if d == 1 {
        '1'
    } else if d == 2 {
        '2'
    } else if d == 3 {
        '3'
    } else if d == 4 {
        '4'
    } else if d == 5 {
        '5'
    } else if d == 6 {
        '6'
    } else if d == 7 {
        '7'
    } else if d == 8 {
        '8'
    } else {
        '9'
    }
}

/// The decimal rendering of `n`, most significant digit first, with no
/// leading zeros (a lone `0` for zero).
pub open spec fn spec_dec_digits(n: nat) -> Seq<char>
    decreases n,
{
    if n < 10 {
        seq![dec_digit_char(n)]
    } else {
        spec_dec_digits(n / 10) + seq![dec_digit_char(n % 10)]
    }
}

fn digit_str(d: u64) -> (r: &'static str)
    requires
        d < 10,
    ensures
        r@ =~= seq![dec_digit_char(d as nat)],
{
    if d == 0 {
        proof {
            reveal_strlit("0");
        }
        "0"
    } else if d == 1 {
        proof {
            reveal_strlit("1");
        }
        "1"
    } else if d == 2 {
        proof {
            reveal_strlit("2");
        }
        "2"
    } else if d == 3 {
        proof {
            reveal_strlit("3");
        }
        "3"
    } else if d == 4 {
        proof {
            reveal_strlit("4");
        }
        "4"
    } else if d == 5 {
        proof {
            reveal_strlit("5");
        }
        "5"
    } else if d == 6 {
        proof {
            reveal_strlit("6");
        }
        "6"
    } else if d == 7 {
        proof {
            reveal_strlit("7");
        }
        "7"
    } else if d == 8 {
        proof {
            reveal_strlit("8");
        }
        "8"
    } else {
        proof {
            reveal_strlit("9");
        }
        "9"
    }
}

/// Appends the decimal rendering of `n` to `acc`.
pub fn push_u64_decimal(acc: &mut String, n: u64)
    ensures
        final(acc)@ == old(acc)@ + spec_dec_digits(n as nat),
    decreases n,
{
    if n >= 10 {
        push_u64_decimal(acc, n / 10);
    }
    let d: u64 = n % 10;
    acc.append(digit_str(d));
    proof {
        if n >= 10 {
            assert(final(acc)@ =~= old(acc)@ + spec_dec_digits(n as nat));
        } else {
            assert(d == n);
            assert(final(acc)@ =~= old(acc)@ + spec_dec_digits(n as nat));
        }
    }
}

/// The decimal rendering of `n` as an owned string.
pub fn u64_to_string(n: u64) -> (r: String)
    ensures
        r@ == spec_dec_digits(n as nat),
{
    let mut acc = String::new();
    push_u64_decimal(&mut acc, n);
    proof {
        assert(acc@ =~= spec_dec_digits(n as nat));
    }
    acc
}

/// The keyword a boolean renders as.
pub open spec fn spec_bool_str(b: bool) -> Seq<char> {
    if b {
        "true"@
    } else {
        "false"@
    }
}

/// `"true"` or `"false"`.
pub fn bool_str(b: bool) -> (r: &'static str)
    ensures
        r@ == spec_bool_str(b),
{
    if b {
        "true"
    } else {
        "false"
    }
}

/// Whether `needle` occurs as a contiguous run of characters in `hay`.
pub open spec fn spec_str_contains(hay: Seq<char>, needle: Seq<char>) -> bool {
    exists|i: int|
        0 <= i && i + needle.len() <= hay.len() && #[trigger] hay.subrange(i, i + needle.len())
            == needle
}

fn match_at(hay: &str, needle: &str, i: usize, hay_len: usize, needle_len: usize) -> (r: bool)
    requires
        hay_len == hay@.len(),
        needle_len == needle@.len(),
        i + needle_len <= hay_len,
    ensures
        r == (hay@.subrange(i as int, i + needle@.len()) == needle@),
{
    let mut j: usize = 0;
    while j < needle_len
        invariant
            hay_len == hay@.len(),
            needle_len == needle@.len(),
            i + needle_len <= hay_len,
            j <= needle_len,
            forall|k: int| 0 <= k < j ==> hay@[i + k] == needle@[k],
        decreases needle_len - j,
    {
        if hay.get_char(i + j) != needle.get_char(j) {
            proof {
                assert(hay@.subrange(i as int, i + needle@.len())[j as int] != needle@[j as int]);
            }
            return false;
        }
        j = j + 1;
    }
    proof {
        assert(hay@.subrange(i as int, i + needle@.len()) =~= needle@);
    }
    true
}

/// Substring search: true exactly when `needle` occurs in `hay`.
pub fn str_contains(hay: &str, needle: &str) -> (r: bool)
    ensures
        r == spec_str_contains(hay@, needle@),
{
    let hay_len = hay.unicode_len();
    let needle_len = needle.unicode_len();
    if needle_len > hay_len {
        return false;
    }
    if needle_len == 0 {
        proof {
            assert(hay@.subrange(0, 0 + needle@.len() as int) =~= needle@);
        }
        return true;
    }
    let mut i: usize = 0;
    loop
        invariant
            hay_len == hay@.len(),
            needle_len == needle@.len(),
            0 < needle_len <= hay_len,
            i <= hay_len - needle_len + 1,
            forall|k: int|
                0 <= k < i ==> #[trigger] hay@.subrange(k, k + needle@.len()) != needle@,
        decreases hay_len - needle_len + 1 - i,
    {
        if i > hay_len - needle_len {
            return false;
        }
        if match_at(hay, needle, i, hay_len, needle_len) {
            return true;
        }
        i = i + 1;
    }
}

} // verus!
