//! Text helpers: comparing strings, writing numbers in decimal, and copying
//! strings into fixed-size C string buffers.
use vstd::prelude::*;
use vstd::string::{StrSliceExecFns, StringExecFns, StringSliceAdditionalSpecFns};

verus! {

/// Whether two strings hold the same characters.
pub fn str_eq(a: &str, b: &str) -> (r: bool)
    ensures
        r == (a@ == b@),
{
    let n = a.unicode_len();
    if n != b.unicode_len() {
        return false;
    }
    let mut i: usize = 0;
    while i < n
        invariant
            n == a@.len(),
            n == b@.len(),
            i <= n,
            forall|j: int| 0 <= j < i ==> a@[j] == b@[j],
        decreases n - i,
    {
        if a.get_char(i) != b.get_char(i) {
            return false;
        }
        i = i + 1;
    }
    assert(a@ =~= b@);
    true
}

/// The decimal digit for `d`.
pub open spec fn digit_char(d: nat) -> char {
    if d == 0 {
        '0'
    } else if d == 1 {
        '1'
    } else if d == 2 {
        '2'
    } else if d == 3 {
        '3'
    } else if d == 4 {
        '4'
    } else if d == 5 {
        '5'
    } else if d == 6 {
        '6'
    } else if d == 7 {
        '7'
    } else if d == 8 {
        '8'
    } else {
        '9'
    }
}

/// The decimal representation of `n`, without leading zeros.
pub open spec fn decimal(n: nat) -> Seq<char>
    decreases n,
{
    if n < 10 {
        seq![digit_char(n)]
    } else {
        decimal(n / 10).push(digit_char(n % 10))
    }
}

/// Every decimal digit is the character whose code is that of `'0'` plus the
/// digit's value.
pub proof fn lemma_digit_char_code(d: nat)
    requires
        d < 10,
    ensures
        digit_char(d) as u32 == 48 + d,
{
}

/// The number a string of decimal digits spells, most significant digit
/// first.
pub open spec fn numeral_value(s: Seq<char>) -> int
    decreases s.len(),
{
    if s.len() == 0 {
        0
    } else {
        numeral_value(s.drop_last()) * 10 + (s.last() as u32 - 48)
    }
}

/// `decimal(n)` is the base-10 numeral of `n`: it holds decimal digits only,
/// it starts with a non-zero digit unless `n` is zero, and read back it spells
/// `n`.
pub proof fn lemma_decimal_spells(n: nat)
    ensures
        numeral_value(decimal(n)) == n,
        decimal(n).len() >= 1,
        forall|i: int| 0 <= i < decimal(n).len() ==> 48 <= #[trigger] (decimal(n)[i] as u32) <= 57,
        n > 0 ==> decimal(n)[0] != '0',
    decreases n,
{
    if n < 10 {
        lemma_digit_char_code(n);
        assert(decimal(n) =~= seq![digit_char(n)]);
        assert(decimal(n).drop_last() =~= Seq::<char>::empty());
        assert(numeral_value(Seq::<char>::empty()) == 0);
        assert(decimal(n).last() == digit_char(n));
    } else {
        lemma_decimal_spells(n / 10);
        lemma_digit_char_code(n % 10);
        let prefix = decimal(n / 10);
        assert(decimal(n) == prefix.push(digit_char(n % 10)));
        assert(decimal(n).drop_last() =~= prefix);
        assert(decimal(n).last() == digit_char(n % 10));
        assert((n / 10) * 10 + n % 10 == n) by (nonlinear_arith);
        assert(numeral_value(decimal(n)) == numeral_value(prefix) * 10 + (n % 10));
        assert(decimal(n)[0] == prefix[0]);
        assert forall|i: int| 0 <= i < decimal(n).len() implies 48 <= #[trigger] (decimal(n)[i]
            as u32) <= 57 by {
            if i < prefix.len() {
                assert(decimal(n)[i] == prefix[i]);
            }
        }
    }
}

fn digit_str(d: u32) -> (r: &'static str)
    requires
        d < 10,
    ensures
        r@ == seq![digit_char(d as nat)],
{
    if d == 0 {
        proof {
            reveal_strlit("0");
        }
        "0"
    } else if d == 1 {
        proof {
            reveal_strlit("1");
        }
        "1"
    } else if d == 2 {
        proof {
            reveal_strlit("2");
        }
        "2"
    } else if d == 3 {
        proof {
            reveal_strlit("3");
        }
        "3"
    } else if d == 4 {
        proof {
            reveal_strlit("4");
        }
        "4"
    } else if d == 5 {
        proof {
            reveal_strlit("5");
        }
        "5"
    } else if d == 6 {
        proof {
            reveal_strlit("6");
        }
        "6"
    } else if d == 7 {
        proof {
            reveal_strlit("7");
        }
        "7"
    } else if d == 8 {
        proof {
            reveal_strlit("8");
        }
        "8"
    } else {
        proof {
            reveal_strlit("9");
        }
        "9"
    }
}

/// Writes `n` in decimal.
pub fn decimal_string(n: u32) -> (r: String)
    ensures
        r@ == decimal(n as nat),
    decreases n,
{
    if n < 10 {
        String::from_str(digit_str(n))
    } else {
        let mut s = decimal_string(n / 10);
        s.append(digit_str(n % 10));
        assert(s@ =~= decimal(n as nat));
        s
    }
}

/// A C string buffer after `src` was copied into it: as many leading bytes as
/// fit before the last one, then a terminating zero; the rest is kept.
pub open spec fn cbuf_after_copy(dst: Seq<u8>, src: Seq<u8>) -> Seq<u8> {
    let n = if src.len() < dst.len() - 1 {
        src.len() as int
    } else {
        dst.len() - 1
    };
    Seq::new(
        dst.len(),
        |i: int|
            if i < n {
                src[i]
            } else if i == n {
                0u8
            } else {
                dst[i]
            },
    )
}

/// Copies the bytes of `src` into the C string buffer `dst`, truncated so that
/// a terminating zero fits.
pub fn copy_str_to_cbuf(src: &str, dst: &mut Vec<u8>)
    requires
        old(dst).len() > 0,
    ensures
        final(dst)@ == cbuf_after_copy(old(dst)@, src.spec_bytes()),
{
    let bytes = src.as_bytes();
    let cap = dst.len() - 1;
    let n = if bytes.len() < cap {
        bytes.len()
    } else {
        cap
    };
    let ghost orig = dst@;
    let mut i: usize = 0;
    while i < n
        invariant
            n <= cap,
            cap == orig.len() - 1,
            n <= bytes@.len(),
            i <= n,
            bytes@ == src.spec_bytes(),
            dst@.len() == orig.len(),
            forall|j: int| 0 <= j < i ==> dst@[j] == bytes@[j],
            forall|j: int| i <= j < orig.len() ==> dst@[j] == orig[j],
        decreases n - i,
    {
        dst.set(i, bytes[i]);
        i = i + 1;
    }
    dst.set(n, 0u8);
    assert(dst@ =~= cbuf_after_copy(orig, src.spec_bytes()));
}

/// Whether `b` holds no zero byte.
pub open spec fn nul_free(b: Seq<u8>) -> bool {
    forall|i: int| 0 <= i < b.len() ==> b[i] != 0u8
}

/// The position of the first zero byte of `b`, when it holds one.
pub open spec fn first_nul(b: Seq<u8>) -> int {
    choose|p: int| 0 <= p < b.len() && b[p] == 0u8 && forall|i: int| 0 <= i < p ==> b[i] != 0u8
}

/// The position of the first zero byte in the UTF-8 encoding of `s`, if any.
pub fn find_nul(s: &str) -> (r: Option<usize>)
    ensures
        r is None <==> nul_free(s.spec_bytes()),
        r matches Some(p) ==> p == first_nul(s.spec_bytes()) && p < s.spec_bytes().len()
            && s.spec_bytes()[p as int] == 0u8,
{
    let bytes = s.as_bytes();
    let mut i: usize = 0;
    while i < bytes.len()
        invariant
            bytes@ == s.spec_bytes(),
            i <= bytes@.len(),
            forall|j: int| 0 <= j < i ==> bytes@[j] != 0u8,
        decreases bytes.len() - i,
    {
        if bytes[i] == 0u8 {
            proof {
                let b = bytes@;
                let p = i as int;
                assert(0 <= p < b.len() && b[p] == 0u8 && forall|j: int| 0 <= j < p ==> b[j] != 0u8);
                let q = first_nul(b);
                assert(q == p) by {
                    if q < p {
                        assert(b[q] != 0u8);
                    } else if q > p {
                        assert(b[p] != 0u8);
                    }
                }
            }
            return Some(i);
        }
        i = i + 1;
    }
    None
}

} // verus!
