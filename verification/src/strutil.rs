//! String helpers shared by the routing core and the SpecBundle pipeline:
//! character-sequence equality, substring search, and decimal formatting.

use vstd::prelude::*;

verus! {

/// Compares two string slices by their character sequences.
pub fn str_eq(a: &str, b: &str) -> (r: bool)
    ensures
        r == (a@ == b@),
{
    let sa: String = a.to_owned();
    let sb: String = b.to_owned();
    sa == sb
}

/// True when `needle` occurs in `hay` as the contiguous run starting at `i`.
pub open spec fn matches_at(hay: Seq<char>, needle: Seq<char>, i: int) -> bool {
    0 <= i && i + needle.len() <= hay.len() && hay.subrange(i, i + needle.len() as int)
        == needle
}

/// True when `needle` occurs somewhere in `hay` as a contiguous run.
pub open spec fn contains_seq(hay: Seq<char>, needle: Seq<char>) -> bool {
    exists|i: int| matches_at(hay, needle, i)
}

/// Substring search over the character sequences of two string slices.
pub fn contains_substring(hay: &str, needle: &str) -> (r: bool)
    ensures
        r == contains_seq(hay@, needle@),
{
    let hlen = hay.unicode_len();
    let nlen = needle.unicode_len();
    if nlen > hlen {
        assert(forall|i: int| !matches_at(hay@, needle@, i));
        return false;
    }
    let mut i: usize = 0;
    while i <= hlen - nlen
        invariant
            nlen <= hlen,
            i <= hlen - nlen + 1,
            hlen == hay@.len(),
            nlen == needle@.len(),
            forall|k: int| 0 <= k < i ==> !matches_at(hay@, needle@, k),
        decreases hlen - nlen - i + 1,
    {
        let mut j: usize = 0;
        let mut ok = true;
        while j < nlen && ok
            invariant
                i + nlen <= hlen,
                j <= nlen,
                hlen == hay@.len(),
                nlen == needle@.len(),
                ok ==> forall|t: int| 0 <= t < j ==> hay@[i + t] == needle@[t],
                !ok ==> j < nlen && hay@[i + j] != needle@[j as int],
            decreases nlen - j + (if ok { 1int } else { 0int }),
        {
            let c1 = hay.get_char(i + j);
            let c2 = needle.get_char(j);
            if c1 != c2 {
                ok = false;
            } else {
                j += 1;
            }
        }
        if ok {
            proof {
                assert(hay@.subrange(i as int, i + needle@.len() as int) =~= needle@);
                assert(matches_at(hay@, needle@, i as int));
            }
            return true;
        }
        proof {
            assert(hay@.subrange(i as int, i + needle@.len() as int)[j as int] == hay@[i + j]);
            assert(!matches_at(hay@, needle@, i as int));
        }
        i += 1;
    }
    assert(forall|k: int| !matches_at(hay@, needle@, k));
    false
}

/// The character for one decimal digit.
pub open spec fn dec_digit_char(n: int) -> char {
    if n == 0 {
        '0'
    } else if n == 1 {
        '1'
    } else if n == 2 {
        '2'
    } else if n == 3 {
        '3'
    } else if n == 4 {
        '4'
    } else if n == 5 {
        '5'
    } else if n == 6 {
        '6'
    } else if n == 7 {
        '7'
    } else if n == 8 {
        '8'
    } else {
        '9'
    }
}

/// The decimal digit run of a non-negative number, most significant first.
pub open spec fn dec_text(n: int) -> Seq<char>
    decreases n,
{
    if n < 10 {
        seq![dec_digit_char(n)]
    } else {
        dec_text(n / 10).push(dec_digit_char(n % 10))
    }
}

/// One decimal digit as a string slice.
pub fn digit_str(d: u64) -> (r: &'static str)
    requires
        d < 10,
    ensures
        r@ == seq![dec_digit_char(d as int)],
{
    if d == 0 {
        proof {
            reveal_strlit("0");
            assert("0"@ =~= seq![dec_digit_char(0)]);
        }
        "0"
    } else if d == 1 {
        proof {
            reveal_strlit("1");
            assert("1"@ =~= seq![dec_digit_char(1)]);
        }
        "1"
    } else if d == 2 {
        proof {
            reveal_strlit("2");
            assert("2"@ =~= seq![dec_digit_char(2)]);
        }
        "2"
    } else if d == 3 {
        proof {
            reveal_strlit("3");
            assert("3"@ =~= seq![dec_digit_char(3)]);
        }
        "3"
    } else if d == 4 {
        proof {
            reveal_strlit("4");
            assert("4"@ =~= seq![dec_digit_char(4)]);
        }
        "4"
    } else if d == 5 {
        proof {
            reveal_strlit("5");
            assert("5"@ =~= seq![dec_digit_char(5)]);
        }
        "5"
    } else if d == 6 {
        proof {
            reveal_strlit("6");
            assert("6"@ =~= seq![dec_digit_char(6)]);
        }
        "6"
    } else if d == 7 {
        proof {
            reveal_strlit("7");
            assert("7"@ =~= seq![dec_digit_char(7)]);
        }
        "7"
    } else if d == 8 {
        proof {
            reveal_strlit("8");
            assert("8"@ =~= seq![dec_digit_char(8)]);
        }
        "8"
    } else {
        proof {
            reveal_strlit("9");
            assert("9"@ =~= seq![dec_digit_char(9)]);
        }
        "9"
    }
}

/// Formats a number in decimal.
pub fn u64_to_dec(n: u64) -> (r: String)
    ensures
        r@ == dec_text(n as int),
    decreases n,
{
    if n < 10 {
        let r = digit_str(n).to_owned();
        proof {
            assert(r@ =~= dec_text(n as int));
        }
        r
    } else {
        let mut s = u64_to_dec(n / 10);
        s.append(digit_str(n % 10));
        proof {
            assert(s@ =~= dec_text(n as int));
        }
        s
    }
}

/// Every decimal run has at least one digit.
pub proof fn lemma_dec_text_len(n: int)
    ensures
        dec_text(n).len() >= 1,
    decreases n,
{
    if n >= 10 {
        lemma_dec_text_len(n / 10);
    }
}

/// A run of `k` zero characters.
pub open spec fn zeros(k: int) -> Seq<char>
    decreases k,
{
    if k <= 0 {
        Seq::empty()
    } else {
        zeros(k - 1).push('0')
    }
}

/// The decimal digit run left-padded with zeros to at least four characters:
/// the on-disk index of a stored bundle part.
pub open spec fn index_text(n: int) -> Seq<char> {
    if dec_text(n).len() >= 4 {
        dec_text(n)
    } else {
        zeros(4 - dec_text(n).len()) + dec_text(n)
    }
}

/// Formats a part index as at least four decimal digits, zero-padded.
pub fn format_index(n: u64) -> (r: String)
    ensures
        r@ == index_text(n as int),
{
    let digits = u64_to_dec(n);
    let len = digits.as_str().unicode_len();
    proof {
        lemma_dec_text_len(n as int);
    }
    if len >= 4 {
        digits
    } else {
        let mut s = String::new();
        if len == 1 {
            proof {
                reveal_strlit("000");
                reveal_with_fuel(zeros, 4);
                assert("000"@ =~= zeros(3));
            }
            s.append("000");
        } else if len == 2 {
            proof {
                reveal_strlit("00");
                reveal_with_fuel(zeros, 3);
                assert("00"@ =~= zeros(2));
            }
            s.append("00");
        } else {
            proof {
                reveal_strlit("0");
                reveal_with_fuel(zeros, 2);
                assert("0"@ =~= zeros(1));
            }
            s.append("0");
        }
        s.append(digits.as_str());
        proof {
            assert(s@ =~= index_text(n as int));
        }
        s
    }
}

} // verus!
