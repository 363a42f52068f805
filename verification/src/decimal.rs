//! Decimal-string rendering and parsing of unsigned 64-bit integers, with
//! an exact specification and a proved round trip.

use vstd::prelude::*;
use vstd::seq_lib::*;
use vstd::string::StrSliceExecFns;
use vstd::arithmetic::div_mod::lemma_fundamental_div_mod;
use vstd::arithmetic::mul::lemma_mul_inequality;
use crate::errors::EngineError;
use crate::strutil::string_push;

verus! {

/// The decimal digit character for a value below ten.
pub open spec fn dec_digit(n: int) -> char {
    seq!['0', '1', '2', '3', '4', '5', '6', '7', '8', '9'][n]
}

/// The canonical base-10 rendering of `n`: no sign, no leading zero except
/// for the single digit of zero itself.
pub open spec fn dec_of(n: nat) -> Seq<char>
    decreases n,
{
    if n < 10 {
        seq![dec_digit(n as int)]
    } else {
        dec_of(n / 10) + seq![dec_digit(n as int % 10)]
    }
}

/// Decimal digit test for parsing.
pub open spec fn is_dec_digit(c: char) -> bool {
    '0' <= c && c <= '9'
}

/// The value of a decimal digit character.
pub open spec fn dec_digit_val(c: char) -> int
    recommends
        is_dec_digit(c),
{
    c as int - '0' as int
}

/// The number denoted by a string of decimal digits (most significant
/// first); the empty string denotes zero.
pub open spec fn dec_val(s: Seq<char>) -> int
    recommends
        forall|i: int| 0 <= i < s.len() ==> is_dec_digit(#[trigger] s[i]),
    decreases s.len(),
{
    if s.len() == 0 {
        0
    } else {
        dec_val(s.drop_last()) * 10 + dec_digit_val(s.last())
    }
}

/// A string parses as a `u64` iff it is nonempty, all decimal digits, and
/// its value fits in 64 bits.
pub open spec fn is_valid_dec_u64(s: Seq<char>) -> bool {
    s.len() > 0 && (forall|i: int| 0 <= i < s.len() ==> is_dec_digit(#[trigger] s[i]))
        && dec_val(s) <= u64::MAX
}

/// The value of a digit string never shrinks when digits are appended.
proof fn lemma_dec_val_prefix(s: Seq<char>, i: int)
    requires
        0 <= i <= s.len(),
        forall|j: int| 0 <= j < s.len() ==> is_dec_digit(#[trigger] s[j]),
    ensures
        dec_val(s.take(i)) <= dec_val(s),
    decreases s.len() - i,
{
    if i < s.len() {
        lemma_dec_val_prefix(s, i + 1);
        let t = s.take(i + 1);
        assert(t.drop_last() =~= s.take(i));
        assert(is_dec_digit(t.last()));
        assert(dec_val(s.take(i)) >= 0) by {
            lemma_dec_val_nonneg(s.take(i));
        }
        assert(dec_val(s.take(i)) <= dec_val(s.take(i)) * 10 + dec_digit_val(t.last())) by {
            lemma_mul_inequality(1, 10, dec_val(s.take(i)));
        }
    } else {
        assert(s.take(i) =~= s);
    }
}

proof fn lemma_dec_val_nonneg(s: Seq<char>)
    requires
        forall|j: int| 0 <= j < s.len() ==> is_dec_digit(#[trigger] s[j]),
    ensures
        dec_val(s) >= 0,
    decreases s.len(),
{
    if s.len() > 0 {
        assert(s.drop_last() =~= s.take(s.len() - 1));
        lemma_dec_val_nonneg(s.drop_last());
        lemma_mul_inequality(0, dec_val(s.drop_last()), 10);
    }
}

/// Rendering then parsing gives the number back: the rendering is nonempty,
/// all digits, and denotes exactly `n`.
pub proof fn lemma_dec_round_trip(n: nat)
    ensures
        dec_of(n).len() > 0,
        forall|i: int| 0 <= i < dec_of(n).len() ==> is_dec_digit(#[trigger] dec_of(n)[i]),
        dec_val(dec_of(n)) == n,
    decreases n,
{
    if n < 10 {
        assert(dec_of(n) == seq![dec_digit(n as int)]);
        assert(is_dec_digit(dec_digit(n as int)) && dec_digit_val(dec_digit(n as int)) == n);
        assert(dec_val(dec_of(n).drop_last()) == 0) by {
            assert(dec_of(n).drop_last() =~= Seq::<char>::empty());
        }
    } else {
        lemma_dec_round_trip(n / 10);
        let s = dec_of(n);
        let head = dec_of(n / 10);
        assert(s == head + seq![dec_digit(n as int % 10)]);
        assert(s.drop_last() =~= head);
        assert(s.last() == dec_digit(n as int % 10));
        assert(0 <= n as int % 10 < 10);
        assert(is_dec_digit(dec_digit(n as int % 10)) && dec_digit_val(dec_digit(n as int % 10))
            == n as int % 10);
        assert(forall|i: int| 0 <= i < s.len() - 1 ==> #[trigger] s[i] == head[i]);
        assert(dec_val(s) == (n / 10) * 10 + n as int % 10);
        assert((n / 10) * 10 + n as int % 10 == n) by {
            lemma_fundamental_div_mod(n as int, 10);
        }
    }
}

/// Renders `n` in base 10 with no sign and no padding.
pub fn u64_to_dec(n: u64) -> (r: String)
    ensures
        r@ == dec_of(n as nat),
{
    let digits: [char; 10] = ['0', '1', '2', '3', '4', '5', '6', '7', '8', '9'];
    let mut rev: Vec<char> = Vec::new();
    let mut m = n;
    loop
        invariant_except_break
            rev@.len() > 0 ==> dec_of(n as nat) == dec_of(m as nat) + rev@.reverse(),
            rev@.len() == 0 ==> m == n,
        invariant
            digits@ =~= seq!['0', '1', '2', '3', '4', '5', '6', '7', '8', '9'],
        ensures
            dec_of(n as nat) == rev@.reverse(),
        decreases m,
    {
        let d = m % 10;
        let next = m / 10;
        rev.push(digits[d as usize]);
        proof {
            assert(m < 10 <==> m / 10 == 0) by (nonlinear_arith);
            let prev = rev@.drop_last();
            assert(rev@.reverse() =~= seq![dec_digit(d as int)] + prev.reverse());
            lemma_fundamental_div_mod(m as int, 10);
            if m < 10 {
                assert(dec_of(m as nat) == seq![dec_digit(m as int)]);
                if prev.len() == 0 {
                    assert(rev@.reverse() =~= seq![dec_digit(m as int)]);
                } else {
                    assert(dec_of(n as nat) =~= dec_of(m as nat) + prev.reverse());
                    assert(dec_of(n as nat) =~= rev@.reverse());
                }
            } else {
                assert(dec_of(m as nat) == dec_of((m / 10) as nat) + seq![dec_digit(m as int % 10)]);
                if prev.len() == 0 {
                    assert(dec_of(n as nat) =~= dec_of(next as nat) + rev@.reverse());
                } else {
                    assert(dec_of(m as nat) + prev.reverse() =~= dec_of(next as nat) + rev@.reverse());
                }
            }
        }
        if next == 0 {
            break;
        }
        proof {
            assert(next < m) by (nonlinear_arith)
                requires
                    next == m / 10 && next != 0,
            ;
        }
        m = next;
    }
    let mut r = String::new();
    let mut i: usize = rev.len();
    while i > 0
        invariant
            0 <= i <= rev@.len(),
            r@ =~= rev@.subrange(i as int, rev@.len() as int).reverse(),
        decreases i,
    {
        i = i - 1;
        string_push(&mut r, rev[i]);
        proof {
            let tail = rev@.subrange(i as int, rev@.len() as int);
            let prev_tail = rev@.subrange(i + 1, rev@.len() as int);
            assert(tail.drop_first() =~= prev_tail);
            assert(tail.reverse() =~= prev_tail.reverse().push(rev@[i as int]));
        }
    }
    proof {
        assert(rev@.subrange(0, rev@.len() as int) =~= rev@);
    }
    r
}

/// Parses a base-10 `u64`: the string must be nonempty, all decimal digits,
/// and within range, else `DecodeNumber`. Leading zeros are accepted.
pub fn parse_dec_u64(s: &str) -> (r: Result<u64, EngineError>)
    ensures
        r is Ok <==> is_valid_dec_u64(s@),
        r is Ok ==> r->Ok_0 == dec_val(s@),
        r is Err ==> r->Err_0 == EngineError::DecodeNumber,
{
    let len = s.unicode_len();
    if len == 0 {
        return Err(EngineError::DecodeNumber);
    }
    let mut acc: u64 = 0;
    let mut i: usize = 0;
    while i < len
        invariant
            0 <= i <= len,
            len == s@.len(),
            forall|j: int| 0 <= j < i ==> is_dec_digit(#[trigger] s@[j]),
            acc == dec_val(s@.take(i as int)),
        decreases len - i,
    {
        let c = s.get_char(i);
        if !('0' <= c && c <= '9') {
            return Err(EngineError::DecodeNumber);
        }
        let d = (c as u8) - ('0' as u8);
        proof {
            assert(s@.take(i + 1).drop_last() =~= s@.take(i as int));
            assert(s@.take(i + 1).last() == s@[i as int]);
        }
        let shifted = match acc.checked_mul(10) {
            Some(v) => v,
            None => {
                proof {
                    lemma_dec_val_overflow(s@, i as int);
                }
                return Err(EngineError::DecodeNumber);
            },
        };
        acc = match shifted.checked_add(d as u64) {
            Some(v) => v,
            None => {
                proof {
                    lemma_dec_val_overflow(s@, i as int);
                }
                return Err(EngineError::DecodeNumber);
            },
        };
        i = i + 1;
    }
    proof {
        assert(s@.take(len as int) =~= s@);
    }
    Ok(acc)
}

/// If one extended prefix already exceeds `u64::MAX`, the whole string does.
proof fn lemma_dec_val_overflow(s: Seq<char>, i: int)
    requires
        0 <= i < s.len(),
        forall|j: int| 0 <= j <= i ==> is_dec_digit(#[trigger] s[j]),
        dec_val(s.take(i + 1)) > u64::MAX,
    ensures
        !is_valid_dec_u64(s),
{
    if forall|j: int| 0 <= j < s.len() ==> is_dec_digit(#[trigger] s[j]) {
        lemma_dec_val_prefix(s, i + 1);
    }
}

} // verus!
