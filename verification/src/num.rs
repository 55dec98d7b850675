//! Verified decimal conversions between unsigned integers and their
//! canonical digit strings, used by the JSON codec for counts and sizes.
use vstd::prelude::*;
use crate::json::{canonical_num, is_digit};

verus! {

broadcast use vstd::seq::group_seq_axioms, vstd::std_specs::vec::group_vec_axioms;

/// The character for one decimal digit.
pub open spec fn digit_char(d: int) -> char {
    ((d + 48) as u8) as char
}

/// The numeric value of one decimal digit character.
pub open spec fn char_digit(c: char) -> int {
    c as u32 - 48
}

/// The canonical decimal digit string of `n`.
pub open spec fn dec_digits(n: nat) -> Seq<char>
    decreases n,
{
    if n < 10 {
        seq![digit_char(n as int)]
    } else {
        dec_digits(n / 10).push(digit_char((n % 10) as int))
    }
}

/// The value of a digit string, read most significant digit first.
pub open spec fn digits_val(s: Seq<char>) -> int
    decreases s.len(),
{
    if s.len() == 0 {
        0
    } else {
        digits_val(s.drop_last()) * 10 + char_digit(s.last())
    }
}

/// Every character of `s` is a decimal digit.
pub open spec fn all_digits(s: Seq<char>) -> bool {
    forall|i: int| 0 <= i < s.len() ==> is_digit(#[trigger] s[i])
}

/// What a decimal lexeme denotes as a `u64`, when it does.
pub open spec fn num_val_u64(s: Seq<char>) -> Option<u64> {
    if s.len() > 0 && all_digits(s) && digits_val(s) <= u64::MAX {
        Some(digits_val(s) as u64)
    } else {
        None
    }
}

pub proof fn lemma_digit_char_digit(d: int)
    requires
        0 <= d < 10,
    ensures
        is_digit(digit_char(d)),
        char_digit(digit_char(d)) == d,
        (digit_char(d) == '0') <==> (d == 0),
{
    let c = digit_char(d);
    assert(c as u32 == d + 48);
    assert('0' as u32 == 48);
    vstd::utf8::char_u32_cast('0', 48);
}

/// The canonical digit string of `n` is canonical and denotes `n`.
pub proof fn lemma_dec_digits(n: nat)
    ensures
        canonical_num(dec_digits(n)),
        all_digits(dec_digits(n)),
        digits_val(dec_digits(n)) == n,
        dec_digits(n)[0] == '0' <==> n == 0,
    decreases n,
{
    if n < 10 {
        lemma_digit_char_digit(n as int);
        let s = dec_digits(n);
        assert(s =~= seq![digit_char(n as int)]);
        assert(s.drop_last() =~= Seq::<char>::empty());
        assert(s.last() == digit_char(n as int));
        assert(digits_val(s) == digits_val(s.drop_last()) * 10 + char_digit(s.last()));
    } else {
        lemma_dec_digits(n / 10);
        lemma_digit_char_digit((n % 10) as int);
        let s = dec_digits(n);
        let p = dec_digits(n / 10);
        assert(s == p.push(digit_char((n % 10) as int)));
        assert(s.drop_last() =~= p);
        assert(s.last() == digit_char((n % 10) as int));
        assert(digits_val(s) == digits_val(p) * 10 + (n % 10));
        assert(n / 10 * 10 + n % 10 == n) by (nonlinear_arith);
        assert(s[0] == p[0]);
        assert(forall|i: int| 0 <= i < s.len() ==> is_digit(#[trigger] s[i])) by {
            assert(forall|i: int| 0 <= i < p.len() ==> is_digit(#[trigger] p[i]));
        }
    }
}

/// Appending further digits can only enlarge the value.
proof fn lemma_digits_val_prefix(s: Seq<char>, i: int)
    requires
        all_digits(s),
        0 <= i <= s.len(),
    ensures
        digits_val(s) >= digits_val(s.subrange(0, i)),
        digits_val(s) >= 0,
    decreases s.len() - i,
{
    if i == s.len() {
        assert(s.subrange(0, i) =~= s);
        lemma_digits_val_nonneg(s);
    } else {
        lemma_digits_val_prefix(s, i + 1);
        let p = s.subrange(0, i);
        let q = s.subrange(0, i + 1);
        assert(q.drop_last() =~= p);
        assert(q.last() == s[i]);
        lemma_digits_val_nonneg(p);
        assert(char_digit(s[i]) >= 0);
        assert(digits_val(q) == digits_val(p) * 10 + char_digit(s[i]));
        assert(digits_val(p) * 10 >= digits_val(p)) by (nonlinear_arith)
            requires
                digits_val(p) >= 0,
        ;
    }
}

/// A digit string's value is non-negative.
proof fn lemma_digits_val_nonneg(s: Seq<char>)
    requires
        all_digits(s),
    ensures
        digits_val(s) >= 0,
    decreases s.len(),
{
    if s.len() > 0 {
        assert(all_digits(s.drop_last()));
        lemma_digits_val_nonneg(s.drop_last());
        assert(char_digit(s.last()) >= 0);
        assert(digits_val(s.drop_last()) * 10 >= 0) by (nonlinear_arith)
            requires
                digits_val(s.drop_last()) >= 0,
        ;
    }
}

/// Push the decimal digits of `n` onto `v`, most significant first.
pub fn push_u64_digits(n: u64, v: &mut Vec<char>)
    ensures
        final(v)@ == old(v)@ + dec_digits(n as nat),
    decreases n,
{
    if n < 10 {
        v.push(((n as u8) + 48) as char);
        assert(v@ =~= old(v)@ + dec_digits(n as nat));
    } else {
        push_u64_digits(n / 10, v);
        v.push((((n % 10) as u8) + 48) as char);
        assert(v@ =~= old(v)@ + dec_digits(n as nat));
    }
}

/// Parse a canonical (or any all-digit) decimal lexeme as a `u64`.
pub fn parse_u64_digits(s: &Vec<char>) -> (r: Option<u64>)
    ensures
        r == num_val_u64(s@),
{
    if s.len() == 0 {
        return None;
    }
    let mut acc: u64 = 0;
    let mut i: usize = 0;
    while i < s.len()
        invariant
            0 <= i <= s@.len(),
            all_digits(s@.subrange(0, i as int)),
            acc == digits_val(s@.subrange(0, i as int)),
        decreases s@.len() - i,
    {
        let cu = s[i] as u32;
        if cu < 48 || cu > 57 {
            assert(!is_digit(s@[i as int]));
            assert(num_val_u64(s@) is None);
            return None;
        }
        let d: u64 = (cu - 48) as u64;
        proof {
            assert(s@.subrange(0, i + 1).drop_last() =~= s@.subrange(0, i as int));
            assert(s@.subrange(0, i + 1).last() == s@[i as int]);
        }
        if acc > (u64::MAX - d) / 10 {
            proof {
                let q = s@.subrange(0, i + 1);
                assert(digits_val(q) == acc * 10 + d);
                assert(acc * 10 + d > u64::MAX) by (nonlinear_arith)
                    requires
                        acc > (u64::MAX - d) / 10,
                        d < 10,
                ;
                if s@.len() > 0 && all_digits(s@) && digits_val(s@) <= u64::MAX {
                    lemma_digits_val_prefix(s@, i + 1);
                    assert(false);
                }
            }
            return None;
        }
        proof {
            assert(acc * 10 + d <= u64::MAX) by (nonlinear_arith)
                requires
                    acc <= (u64::MAX - d) / 10,
                    d < 10,
            ;
        }
        acc = acc * 10 + d;
        i = i + 1;
    }
    proof {
        assert(s@.subrange(0, s@.len() as int) =~= s@);
    }
    Some(acc)
}

} // verus!
