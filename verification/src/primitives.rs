//! Fixed-size byte strings for key material, and their hexadecimal text form:
//! 32 bytes are written as 64 hex digits, 64 bytes as 128.

use vstd::prelude::*;
use vstd::string::StringExecFns;

use crate::text::chars_of;

verus! {

/// Value of a hexadecimal digit (either case), if `c` is one.
pub open spec fn hex_value(c: char) -> Option<u8> {
    let u = c as u32;
    if 48 <= u <= 57 {
        Some((u - 48) as u8)
    } else if 97 <= u <= 102 {
        Some((u - 87) as u8)
    } else if 65 <= u <= 70 {
        Some((u - 55) as u8)
    } else {
        None
    }
}

/// Every character of `s` is a hexadecimal digit.
pub open spec fn is_hex_text(s: Seq<char>) -> bool {
    forall|i: int| 0 <= i < s.len() ==> (#[trigger] hex_value(s[i])) is Some
}

/// The bytes that pairs of hex digits stand for, high digit first.
pub open spec fn hex_decode(s: Seq<char>) -> Seq<u8> {
    Seq::new(
        s.len() / 2,
        |i: int| (hex_value(s[2 * i])->0 * 16 + hex_value(s[2 * i + 1])->0) as u8,
    )
}

/// Lower-case hex digit for `d < 16`.
pub open spec fn lower_hex_digit(d: u8) -> char {
    if d < 10 {
        ((48 + d) as u32) as char
    } else {
        ((87 + d) as u32) as char
    }
}

/// Lower-case hexadecimal text of `b`, two digits per byte, high digit first.
pub open spec fn hex_encode(b: Seq<u8>) -> Seq<char> {
    Seq::new(
        2 * b.len(),
        |i: int|
            if i % 2 == 0 {
                lower_hex_digit(b[i / 2] / 16)
            } else {
                lower_hex_digit(b[i / 2] % 16)
            },
    )
}

/// The bytes that `s` spells in hex, when it is exactly `n` bytes' worth of hex digits.
pub open spec fn parse_hex_bytes(s: Seq<char>, n: nat) -> Option<Seq<u8>> {
    if s.len() == 2 * n && is_hex_text(s) {
        Some(hex_decode(s))
    } else {
        None
    }
}

proof fn lemma_hex_digit_roundtrip(d: u8)
    requires
        d < 16,
    ensures
        hex_value(lower_hex_digit(d)) == Some(d),
{
}

/// Writing bytes as hex and reading them back gives the same bytes.
pub proof fn lemma_hex_roundtrip(b: Seq<u8>)
    ensures
        is_hex_text(hex_encode(b)),
        hex_encode(b).len() == 2 * b.len(),
        hex_decode(hex_encode(b)) == b,
        parse_hex_bytes(hex_encode(b), b.len()) == Some(b),
{
    let e = hex_encode(b);
    assert forall|i: int| 0 <= i < e.len() implies (#[trigger] hex_value(e[i])) is Some by {
        if i % 2 == 0 {
            lemma_hex_digit_roundtrip(b[i / 2] / 16);
        } else {
            lemma_hex_digit_roundtrip(b[i / 2] % 16);
        }
    }
    assert forall|i: int| 0 <= i < b.len() implies #[trigger] hex_decode(e)[i] == b[i] by {
        assert((2 * i) % 2 == 0);
        assert((2 * i + 1) % 2 == 1);
        assert((2 * i) / 2 == i);
        assert((2 * i + 1) / 2 == i);
        lemma_hex_digit_roundtrip(b[i] / 16);
        lemma_hex_digit_roundtrip(b[i] % 16);
        assert(hex_value(e[2 * i]) == Some(b[i] / 16));
        assert(hex_value(e[2 * i + 1]) == Some(b[i] % 16));
        assert((b[i] / 16) * 16 + b[i] % 16 == b[i]) by (nonlinear_arith);
    }
    assert(hex_decode(e) =~= b);
}

fn hex_digit_value(c: char) -> (r: Option<u8>)
    ensures
        r == hex_value(c),
{
    let u = c as u32;
    if 48 <= u && u <= 57 {
        Some((u - 48) as u8)
    } else if 97 <= u && u <= 102 {
        Some((u - 87) as u8)
    } else if 65 <= u && u <= 70 {
        Some((u - 55) as u8)
    } else {
        None
    }
}

/// Reads `n` bytes written as exactly `2 n` hex digits.
pub fn decode_hex(s: &str, n: usize) -> (r: Option<Vec<u8>>)
    ensures
        r matches Some(v) ==> parse_hex_bytes(s@, n as nat) == Some(v@),
        r is None ==> parse_hex_bytes(s@, n as nat) is None,
{
    let v = chars_of(s);
    if v.len() / 2 != n || v.len() % 2 != 0 {
        return None;
    }
    let mut out: Vec<u8> = Vec::new();
    let mut i: usize = 0;
    while i < n
        invariant
            i <= n,
            v.len() == 2 * n,
            v@ == s@,
            out@.len() == i,
            forall|k: int| 0 <= k < 2 * i ==> (#[trigger] hex_value(v@[k])) is Some,
            forall|k: int| 0 <= k < i ==> #[trigger] out@[k] == hex_decode(v@)[k],
        decreases n - i,
    {
        let hi = hex_digit_value(v[2 * i]);
        let lo = hex_digit_value(v[2 * i + 1]);
        match (hi, lo) {
            (Some(h), Some(l)) => {
                out.push(h * 16 + l);
            },
            _ => {
                return None;
            },
        }
        i = i + 1;
    }
    assert(out@ =~= hex_decode(s@));
    Some(out)
}

fn lower_hex_str(d: u8) -> (r: &'static str)
    requires
        d < 16,
    ensures
        r@ == seq![lower_hex_digit(d)],
{
    proof {
        reveal_strlit("0");
        reveal_strlit("1");
        reveal_strlit("2");
        reveal_strlit("3");
        reveal_strlit("4");
        reveal_strlit("5");
        reveal_strlit("6");
        reveal_strlit("7");
        reveal_strlit("8");
        reveal_strlit("9");
        reveal_strlit("a");
        reveal_strlit("b");
        reveal_strlit("c");
        reveal_strlit("d");
        reveal_strlit("e");
        reveal_strlit("f");
    }
    if d == 0 {
        "0"
    } else if d == 1 {
        "1"
    } else if d == 2 {
        "2"
    } else if d == 3 {
        "3"
    } else if d == 4 {
        "4"
    } else if d == 5 {
        "5"
    } else if d == 6 {
        "6"
    } else if d == 7 {
        "7"
    } else if d == 8 {
        "8"
    } else if d == 9 {
        "9"
    } else if d == 10 {
        "a"
    } else if d == 11 {
        "b"
    } else if d == 12 {
        "c"
    } else if d == 13 {
        "d"
    } else if d == 14 {
        "e"
    } else {
        "f"
    }
}

/// Writes bytes as lower-case hex, two digits per byte.
pub fn encode_hex(b: &[u8]) -> (r: String)
    ensures
        r@ == hex_encode(b@),
{
    let mut r = String::new();
    let n = b.len();
    let mut i: usize = 0;
    while i < n
        invariant
            i <= n == b@.len(),
            r@ == hex_encode(b@).take(2 * i),
        decreases n - i,
    {
        let x = b[i];
        r.append(lower_hex_str(x / 16));
        r.append(lower_hex_str(x % 16));
        proof {
            let e = hex_encode(b@);
            assert((2 * i as int) % 2 == 0);
            assert((2 * i as int + 1) % 2 == 1);
            assert((2 * i as int) / 2 == i);
            assert((2 * i as int + 1) / 2 == i);
            assert(e.take(2 * (i + 1)) =~= e.take(2 * i).push(e[2 * i as int]).push(
                e[2 * i as int + 1],
            ));
        }
        i = i + 1;
    }
    assert(hex_encode(b@).take(2 * n) =~= hex_encode(b@));
    r
}

/// 32 bytes, written as 64 hex digits.
#[derive(Clone, Copy, Debug, PartialEq, Eq)]
pub struct Bytes32(pub [u8; 32]);

/// 64 bytes, written as 128 hex digits.
#[derive(Clone, Copy, Debug, PartialEq, Eq)]
pub struct Bytes64(pub [u8; 64]);

/// Text that is not 64 hex digits, given where 32 bytes were expected.
#[derive(Debug, PartialEq, Eq)]
pub struct ParseBytes32Error;

/// Text that is not 128 hex digits, given where 64 bytes were expected.
#[derive(Debug, PartialEq, Eq)]
pub struct ParseBytes64Error;

impl View for Bytes32 {
    type V = Seq<u8>;

    open spec fn view(&self) -> Seq<u8> {
        self.0@
    }
}

impl View for Bytes64 {
    type V = Seq<u8>;

    open spec fn view(&self) -> Seq<u8> {
        self.0@
    }
}

/// Byte access to key material of a fixed size.
pub trait ReprBytes<const N: usize>: View<V = Seq<u8>> {
    /// The bytes as a fixed-size array.
    fn bytes_const(&self) -> (r: &[u8; N])
        ensures
            r@ == self@,
    ;

    /// The bytes as a slice.
    fn bytes_as_slice(&self) -> (r: &[u8])
        ensures
            r@ == self@,
    ;
}

fn array32_from(v: &Vec<u8>) -> (a: [u8; 32])
    requires
        v.len() == 32,
    ensures
        a@ == v@,
{
    let mut a = [0u8; 32];
    let mut i: usize = 0;
    while i < 32
        invariant
            i <= 32 == v.len(),
            forall|k: int| 0 <= k < i ==> a@[k] == v@[k],
        decreases 32 - i,
    {
        a[i] = v[i];
        i = i + 1;
    }
    assert(a@ =~= v@);
    a
}

fn array64_from(v: &Vec<u8>) -> (a: [u8; 64])
    requires
        v.len() == 64,
    ensures
        a@ == v@,
{
    let mut a = [0u8; 64];
    let mut i: usize = 0;
    while i < 64
        invariant
            i <= 64 == v.len(),
            forall|k: int| 0 <= k < i ==> a@[k] == v@[k],
        decreases 64 - i,
    {
        a[i] = v[i];
        i = i + 1;
    }
    assert(a@ =~= v@);
    a
}

impl Bytes32 {
    /// Reads 32 bytes from exactly 64 hex digits (either case).
    pub fn from_str(s: &str) -> (r: Result<Bytes32, ParseBytes32Error>)
        ensures
            r is Ok <==> parse_hex_bytes(s@, 32) is Some,
            r matches Ok(b) ==> parse_hex_bytes(s@, 32) == Some(b@),
    {
        match decode_hex(s, 32) {
            Some(v) => Ok(Bytes32(array32_from(&v))),
            None => Err(ParseBytes32Error),
        }
    }

    /// Writes the bytes as 64 lower-case hex digits.
    pub fn to_hex(&self) -> (r: String)
        ensures
            r@ == hex_encode(self@),
    {
        encode_hex(self.0.as_slice())
    }

    /// The bytes of a vector that holds exactly 32 (as stored by the database).
    pub fn from_vec(v: Vec<u8>) -> (r: Bytes32)
        requires
            v.len() == 32,
        ensures
            r@ == v@,
    {
        Bytes32(array32_from(&v))
    }

    /// The bytes of a slice of exactly 32 bytes.
    pub fn try_from_slice(b: &[u8]) -> (r: Option<Bytes32>)
        ensures
            r is Some <==> b@.len() == 32,
            r matches Some(x) ==> x@ == b@,
    {
        if b.len() != 32 {
            return None;
        }
        let mut a = [0u8; 32];
        let mut i: usize = 0;
        while i < 32
            invariant
                i <= 32 == b@.len(),
                forall|k: int| 0 <= k < i ==> a@[k] == b@[k],
            decreases 32 - i,
        {
            a[i] = b[i];
            i = i + 1;
        }
        assert(a@ =~= b@);
        Some(Bytes32(a))
    }
}

impl Bytes64 {
    /// Reads 64 bytes from exactly 128 hex digits (either case).
    pub fn from_str(s: &str) -> (r: Result<Bytes64, ParseBytes64Error>)
        ensures
            r is Ok <==> parse_hex_bytes(s@, 64) is Some,
            r matches Ok(b) ==> parse_hex_bytes(s@, 64) == Some(b@),
    {
        match decode_hex(s, 64) {
            Some(v) => Ok(Bytes64(array64_from(&v))),
            None => Err(ParseBytes64Error),
        }
    }

    /// Writes the bytes as 128 lower-case hex digits.
    pub fn to_hex(&self) -> (r: String)
        ensures
            r@ == hex_encode(self@),
    {
        encode_hex(self.0.as_slice())
    }

    /// The bytes of a vector that holds exactly 64 (as stored by the database).
    pub fn from_vec(v: Vec<u8>) -> (r: Bytes64)
        requires
            v.len() == 64,
        ensures
            r@ == v@,
    {
        Bytes64(array64_from(&v))
    }

    /// The bytes of a slice of exactly 64 bytes.
    pub fn try_from_slice(b: &[u8]) -> (r: Option<Bytes64>)
        ensures
            r is Some <==> b@.len() == 64,
            r matches Some(x) ==> x@ == b@,
    {
        if b.len() != 64 {
            return None;
        }
        let mut a = [0u8; 64];
        let mut i: usize = 0;
        while i < 64
            invariant
                i <= 64 == b@.len(),
                forall|k: int| 0 <= k < i ==> a@[k] == b@[k],
            decreases 64 - i,
        {
            a[i] = b[i];
            i = i + 1;
        }
        assert(a@ =~= b@);
        Some(Bytes64(a))
    }
}

/// Reading back what `to_hex` wrote gives the same 32 bytes.
pub proof fn lemma_bytes32_hex_roundtrip(b: Bytes32)
    ensures
        parse_hex_bytes(hex_encode(b@), 32) == Some(b@),
{
    lemma_hex_roundtrip(b@);
}

/// Reading back what `to_hex` wrote gives the same 64 bytes.
pub proof fn lemma_bytes64_hex_roundtrip(b: Bytes64)
    ensures
        parse_hex_bytes(hex_encode(b@), 64) == Some(b@),
{
    lemma_hex_roundtrip(b@);
}

} // verus!
