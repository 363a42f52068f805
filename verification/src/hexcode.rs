//! Lowercase hex encoding and decoding of byte strings, with an exact
//! specification and a proved round trip.

use vstd::prelude::*;
use vstd::string::StrSliceExecFns;
use crate::errors::EngineError;
use crate::strutil::string_push;

verus! {

/// The sixteen lowercase hex digits, indexed by nibble value.
pub open spec fn hex_digit(n: int) -> char {
    seq!['0', '1', '2', '3', '4', '5', '6', '7', '8', '9', 'a', 'b', 'c', 'd', 'e', 'f'][n]
}

/// The two lowercase digits that encode one byte.
pub open spec fn hex_of_byte(b: u8) -> Seq<char> {
    seq![hex_digit(b as int / 16), hex_digit(b as int % 16)]
}

/// The lowercase hex encoding of a byte string: two digits per byte.
pub open spec fn hex_of_bytes(b: Seq<u8>) -> Seq<char>
    decreases b.len(),
{
    if b.len() == 0 {
        Seq::<char>::empty()
    } else {
        hex_of_byte(b.first()) + hex_of_bytes(b.drop_first())
    }
}

/// Accepted hex digits: decoding is case-insensitive.
pub open spec fn is_hex_digit(c: char) -> bool {
    ('0' <= c && c <= '9') || ('a' <= c && c <= 'f') || ('A' <= c && c <= 'F')
}

/// The nibble value of a hex digit.
pub open spec fn hex_val(c: char) -> int
    recommends
        is_hex_digit(c),
{
    if '0' <= c && c <= '9' {
        c as int - '0' as int
    } else if 'a' <= c && c <= 'f' {
        c as int - 'a' as int + 10
    } else {
        c as int - 'A' as int + 10
    }
}

/// A string decodes as hex iff its length is even and every character is a
/// hex digit.
pub open spec fn is_valid_hex(s: Seq<char>) -> bool {
    s.len() % 2 == 0 && forall|i: int| 0 <= i < s.len() ==> is_hex_digit(#[trigger] s[i])
}

/// The bytes denoted by a valid hex string, one byte per digit pair.
pub open spec fn bytes_of_hex(s: Seq<char>) -> Seq<u8>
    recommends
        is_valid_hex(s),
    decreases s.len(),
{
    if s.len() < 2 {
        Seq::<u8>::empty()
    } else {
        seq![(16 * hex_val(s[0]) + hex_val(s[1])) as u8] + bytes_of_hex(s.skip(2))
    }
}

pub proof fn lemma_hex_of_bytes_len(b: Seq<u8>)
    ensures
        hex_of_bytes(b).len() == 2 * b.len(),
    decreases b.len(),
{
    if b.len() > 0 {
        lemma_hex_of_bytes_len(b.drop_first());
    }
}

/// A valid hex string of length `2n` decodes to `n` bytes.
pub proof fn lemma_bytes_of_hex_len(s: Seq<char>)
    requires
        s.len() % 2 == 0,
    ensures
        bytes_of_hex(s).len() == s.len() / 2,
    decreases s.len(),
{
    if s.len() >= 2 {
        lemma_bytes_of_hex_len(s.skip(2));
    }
}

proof fn lemma_hex_of_bytes_push(b: Seq<u8>, x: u8)
    ensures
        hex_of_bytes(b.push(x)) == hex_of_bytes(b) + hex_of_byte(x),
    decreases b.len(),
{
    if b.len() == 0 {
        assert(b.push(x).first() == x);
        assert(b.push(x).drop_first() =~= Seq::<u8>::empty());
        assert(hex_of_bytes(Seq::<u8>::empty()) =~= Seq::<char>::empty());
        assert(hex_of_bytes(b.push(x)) =~= hex_of_bytes(b) + hex_of_byte(x));
    } else {
        assert(b.push(x).first() == b.first());
        assert(b.push(x).drop_first() =~= b.drop_first().push(x));
        lemma_hex_of_bytes_push(b.drop_first(), x);
        assert(hex_of_bytes(b.push(x)) =~= hex_of_bytes(b) + hex_of_byte(x));
    }
}

proof fn lemma_bytes_of_hex_append2(s: Seq<char>, c0: char, c1: char)
    requires
        s.len() % 2 == 0,
    ensures
        bytes_of_hex(s + seq![c0, c1]) == bytes_of_hex(s).push(
            (16 * hex_val(c0) + hex_val(c1)) as u8,
        ),
    decreases s.len(),
{
    let t = s + seq![c0, c1];
    if s.len() == 0 {
        assert(t[0] == c0 && t[1] == c1);
        assert(t.skip(2) =~= Seq::<char>::empty());
        assert(bytes_of_hex(Seq::<char>::empty()) =~= Seq::<u8>::empty());
        assert(bytes_of_hex(t) =~= bytes_of_hex(s).push((16 * hex_val(c0) + hex_val(c1)) as u8));
    } else {
        assert(t[0] == s[0] && t[1] == s[1]);
        assert(t.skip(2) =~= s.skip(2) + seq![c0, c1]);
        lemma_bytes_of_hex_append2(s.skip(2), c0, c1);
        assert(bytes_of_hex(t) =~= bytes_of_hex(s).push((16 * hex_val(c0) + hex_val(c1)) as u8));
    }
}

/// Encoding then decoding a byte string gives the bytes back, and the
/// encoding is always itself a valid hex string.
pub proof fn lemma_hex_round_trip(b: Seq<u8>)
    ensures
        is_valid_hex(hex_of_bytes(b)),
        bytes_of_hex(hex_of_bytes(b)) == b,
    decreases b.len(),
{
    lemma_hex_of_bytes_len(b);
    if b.len() == 0 {
        assert(bytes_of_hex(hex_of_bytes(b)) =~= b);
    } else {
        let x = b.first();
        let rest = b.drop_first();
        lemma_hex_round_trip(rest);
        lemma_hex_of_bytes_len(rest);
        let h = hex_of_bytes(b);
        assert(h == hex_of_byte(x) + hex_of_bytes(rest));
        assert(h[0] == hex_digit(x as int / 16) && h[1] == hex_digit(x as int % 16));
        assert(0 <= x as int / 16 < 16 && 0 <= x as int % 16 < 16);
        assert(is_hex_digit(hex_digit(x as int / 16)) && hex_val(hex_digit(x as int / 16))
            == x as int / 16);
        assert(is_hex_digit(hex_digit(x as int % 16)) && hex_val(hex_digit(x as int % 16))
            == x as int % 16);
        assert(forall|i: int| 0 <= i < h.len() ==> is_hex_digit(#[trigger] h[i])) by {
            assert(forall|i: int|
                2 <= i < h.len() ==> #[trigger] h[i] == hex_of_bytes(rest)[i - 2]);
        }
        assert(h.skip(2) =~= hex_of_bytes(rest));
        assert(16 * (x as int / 16) + x as int % 16 == x as int);
        assert(bytes_of_hex(h) =~= b);
    }
}

/// Encodes bytes as lowercase hex, two digits per byte.
pub fn hex_encode(b: &Vec<u8>) -> (r: String)
    ensures
        r@ == hex_of_bytes(b@),
{
    let digits: [char; 16] = [
        '0', '1', '2', '3', '4', '5', '6', '7', '8', '9', 'a', 'b', 'c', 'd', 'e', 'f',
    ];
    let mut r = String::new();
    let mut i: usize = 0;
    while i < b.len()
        invariant
            0 <= i <= b@.len(),
            digits@ =~= seq!['0', '1', '2', '3', '4', '5', '6', '7', '8', '9', 'a', 'b', 'c', 'd', 'e', 'f'],
            r@ == hex_of_bytes(b@.take(i as int)),
        decreases b@.len() - i,
    {
        let x = b[i];
        string_push(&mut r, digits[(x / 16) as usize]);
        string_push(&mut r, digits[(x % 16) as usize]);
        proof {
            lemma_hex_of_bytes_push(b@.take(i as int), b@[i as int]);
            assert(b@.take(i + 1) =~= b@.take(i as int).push(b@[i as int]));
        }
        i = i + 1;
    }
    proof {
        assert(b@.take(b@.len() as int) =~= b@);
    }
    r
}

/// Decodes a hex string to bytes. Both digit cases are accepted; the string
/// must have even length and hold only hex digits, else `DecodeHex`.
pub fn hex_decode(s: &str) -> (r: Result<Vec<u8>, EngineError>)
    ensures
        r is Ok <==> is_valid_hex(s@),
        r is Ok ==> r->Ok_0@ == bytes_of_hex(s@),
        r is Err ==> r->Err_0 == EngineError::DecodeHex,
{
    let len = s.unicode_len();
    if len % 2 != 0 {
        return Err(EngineError::DecodeHex);
    }
    let mut out: Vec<u8> = Vec::new();
    let mut i: usize = 0;
    while i < len
        invariant
            0 <= i <= len,
            len == s@.len(),
            len % 2 == 0,
            i % 2 == 0,
            forall|j: int| 0 <= j < i ==> is_hex_digit(#[trigger] s@[j]),
            out@ == bytes_of_hex(s@.take(i as int)),
        decreases len - i,
    {
        let c0 = s.get_char(i);
        let c1 = s.get_char(i + 1);
        let v0 = match hex_digit_value(c0) {
            Some(v) => v,
            None => {
                return Err(EngineError::DecodeHex);
            },
        };
        let v1 = match hex_digit_value(c1) {
            Some(v) => v,
            None => {
                return Err(EngineError::DecodeHex);
            },
        };
        out.push(16 * v0 + v1);
        proof {
            lemma_bytes_of_hex_append2(s@.take(i as int), s@[i as int], s@[i + 1]);
            assert(s@.take(i + 2) =~= s@.take(i as int) + seq![s@[i as int], s@[i + 1]]);
        }
        i = i + 2;
    }
    proof {
        assert(s@.take(len as int) =~= s@);
    }
    Ok(out)
}

/// The nibble value of one character, or `None` if it is not a hex digit.
fn hex_digit_value(c: char) -> (r: Option<u8>)
    ensures
        r is Some <==> is_hex_digit(c),
        r is Some ==> r->0 as int == hex_val(c),
{
    if '0' <= c && c <= '9' {
        Some((c as u8) - ('0' as u8))
    } else if 'a' <= c && c <= 'f' {
        Some((c as u8) - ('a' as u8) + 10)
    } else if 'A' <= c && c <= 'F' {
        Some((c as u8) - ('A' as u8) + 10)
    } else {
        None
    }
}

} // verus!
