//! Hex encoding and decoding of byte strings.
//!
//! Encoding writes two lowercase digits per byte.  Decoding accepts both
//! cases, strips any number of leading `0x` prefixes, and is used for the
//! fixed 32-byte identifiers of the request surface.

use vstd::prelude::*;
use vstd::string::StringSliceAdditionalSpecFns;

verus! {

/// The lowercase digit character for a nibble value.
pub open spec fn spec_hex_digit_char(n: int) -> char {
    if n == 0 {
        '0'
    } else if n == 1 {
        '1'
    } else if n == 2 {
        '2'
    } else if n == 3 {
        '3'
    } else if n == 4 {
        '4'
    } else if n == 5 {
        '5'
    } else if n == 6 {
        '6'
    } else if n == 7 {
        '7'
    } else if n == 8 {
        '8'
    } else if n == 9 {
        '9'
    } else if n == 10 {
        'a'
    } else if n == 11 {
        'b'
    } else if n == 12 {
        'c'
    } else if n == 13 {
        'd'
    } else if n == 14 {
        'e'
    } else {
        'f'
    }
}

/// The lowercase hex encoding of a byte string: high nibble first, two
/// characters per byte.
pub open spec fn spec_hex_of(bytes: Seq<u8>) -> Seq<char>
    decreases bytes.len(),
{
    if bytes.len() == 0 {
        Seq::<char>::empty()
    } else {
        spec_hex_of(bytes.drop_last()) + seq![
            spec_hex_digit_char(bytes.last() as int / 16),
            spec_hex_digit_char(bytes.last() as int % 16),
        ]
    }
}

/// Whether `b` is an ASCII hex digit, either case.
pub open spec fn spec_is_hex_digit(b: u8) -> bool {
    (48 <= b <= 57) || (97 <= b <= 102) || (65 <= b <= 70)
}

/// Value of an ASCII hex digit.
pub open spec fn spec_hex_val(b: u8) -> u8 {
    if 48 <= b <= 57 {
        (b - 48) as u8
    } else if 97 <= b <= 102 {
        (b - 87) as u8
    } else {
        (b - 55) as u8
    }
}

/// Whether every byte of `t` is a hex digit.
pub open spec fn spec_all_hex_digits(t: Seq<u8>) -> bool {
    forall|i: int| 0 <= i < t.len() ==> spec_is_hex_digit(t[i])
}

/// Byte strings with every leading `0x` pair removed.
pub open spec fn spec_strip_0x(b: Seq<u8>) -> Seq<u8>
    decreases b.len(),
{
    if b.len() >= 2 && b[0] == 48 && b[1] == 120 {
        spec_strip_0x(b.skip(2))
    } else {
        b
    }
}

/// The bytes denoted by an even-length hex digit string.
pub open spec fn spec_hex_decode(t: Seq<u8>) -> Seq<u8> {
    Seq::new(t.len() / 2, |i: int| (spec_hex_val(t[2 * i]) * 16 + spec_hex_val(t[2 * i + 1])) as u8)
}

/// Error cases of `parse_hex_32`.
#[derive(Clone, Copy, Debug, PartialEq, Eq, Structural)]
pub enum HexParseError {
    /// Odd length, or a character that is no hex digit.
    Malformed,
    /// Well-formed hex, but not exactly 32 bytes.
    WrongLength,
}

/// The one-character string for a nibble value.
fn nibble_str(n: u8) -> (r: &'static str)
    requires
        n < 16,
    ensures
        r@ =~= seq![spec_hex_digit_char(n as int)],
{
    proof {
        reveal_strlit("0");
        reveal_strlit("1");
        reveal_strlit("2");
        reveal_strlit("3");
        reveal_strlit("4");
        reveal_strlit("5");
        reveal_strlit("6");
        reveal_strlit("7");
        reveal_strlit("8");
        reveal_strlit("9");
        reveal_strlit("a");
        reveal_strlit("b");
        reveal_strlit("c");
        reveal_strlit("d");
        reveal_strlit("e");
        reveal_strlit("f");
    }
    match n {
        0 => "0",
        1 => "1",
        2 => "2",
        3 => "3",
        4 => "4",
        5 => "5",
        6 => "6",
        7 => "7",
        8 => "8",
        9 => "9",
        10 => "a",
        11 => "b",
        12 => "c",
        13 => "d",
        14 => "e",
        _ => "f",
    }
}

/// Encodes a byte string as lowercase hex, two digits per byte.
pub fn hex_encode(bytes: &[u8]) -> (s: String)
    ensures
        s@ == spec_hex_of(bytes@),
{
    let mut s = String::new();
    let mut i: usize = 0;
    while i < bytes.len()
        invariant
            0 <= i <= bytes@.len(),
            s@ == spec_hex_of(bytes@.take(i as int)),
        decreases bytes@.len() - i,
    {
        let b = bytes[i];
        let hi = b >> 4;
        let lo = b & 0x0f;
        proof {
            assert(b >> 4 == b / 16) by (bit_vector);
            assert((b & 0x0f) == b % 16) by (bit_vector);
            assert(b / 16 < 16);
            lemma_hex_of_take_snoc(bytes@, i as int);
        }
        s.append(nibble_str(hi));
        s.append(nibble_str(lo));
        i += 1;
    }
    proof {
        assert(bytes@.take(bytes@.len() as int) =~= bytes@);
    }
    s
}

/// The hex encoding of a take of one more byte appends exactly the two
/// digits of that byte; stated as a spec helper so the encode loop can
/// assert it.
spec fn hex_take_snoc(bytes: Seq<u8>, i: int) -> bool {
    0 <= i < bytes.len() ==> spec_hex_of(bytes.take(i + 1)) == spec_hex_of(bytes.take(i)) + seq![
        spec_hex_digit_char(bytes[i] as int / 16),
        spec_hex_digit_char(bytes[i] as int % 16),
    ]
}

proof fn lemma_hex_of_take_snoc(bytes: Seq<u8>, i: int)
    ensures
        hex_take_snoc(bytes, i),
{
    if 0 <= i < bytes.len() {
        let t = bytes.take(i + 1);
        assert(t.drop_last() =~= bytes.take(i));
        assert(t.last() == bytes[i]);
    }
}

/// Parses a 32-byte identifier from a hex string: any number of leading
/// `0x` prefixes is stripped, then exactly 64 hex digits are expected.
pub fn parse_hex_32(s: &str) -> (r: Result<[u8; 32], HexParseError>)
    ensures
        ({
            let t = spec_strip_0x(s.spec_bytes());
            match r {
                Ok(arr) => t.len() == 64 && spec_all_hex_digits(t) && arr@ == spec_hex_decode(t),
                Err(HexParseError::Malformed) => t.len() % 2 == 1 || !spec_all_hex_digits(t),
                Err(HexParseError::WrongLength) => t.len() % 2 == 0 && spec_all_hex_digits(t)
                    && t.len() != 64,
            }
        }),
{
    let bytes = s.as_bytes();
    let len = bytes.len();

    // Strip every leading "0x" pair, as the original identifiers may carry
    // one.
    let mut off: usize = 0;
    proof {
        assert(bytes@.skip(0) =~= bytes@);
    }
    while len - off > 1 && bytes[off] == 48 && bytes[off + 1] == 120
        invariant
            0 <= off <= len,
            len == bytes@.len(),
            spec_strip_0x(bytes@.skip(off as int)) == spec_strip_0x(bytes@),
        decreases len - off,
    {
        proof {
            assert(bytes@.skip(off as int).skip(2) =~= bytes@.skip(off + 2));
            assert(bytes@.skip(off as int)[0] == bytes@[off as int]);
            assert(bytes@.skip(off as int)[1] == bytes@[off as int + 1]);
        }
        off += 2;
    }
    let ghost t = spec_strip_0x(s.spec_bytes());
    proof {
        assert(bytes@.skip(off as int).len() >= 2 ==> !(bytes@.skip(off as int)[0] == 48
            && bytes@.skip(off as int)[1] == 120)) by {
            if off + 1 < len {
                assert(bytes@.skip(off as int)[0] == bytes@[off as int]);
                assert(bytes@.skip(off as int)[1] == bytes@[off as int + 1]);
            }
        }
        assert(spec_strip_0x(bytes@.skip(off as int)) == bytes@.skip(off as int));
        assert(t == bytes@.skip(off as int));
    }
    let t_len = len - off;
    if t_len % 2 == 1 {
        return Err(HexParseError::Malformed);
    }
    let mut i: usize = 0;
    while i < t_len
        invariant
            0 <= i <= t_len,
            off + t_len == len,
            len == bytes@.len(),
            t == bytes@.skip(off as int),
            t == spec_strip_0x(s.spec_bytes()),
            t.len() == t_len,
            forall|j: int| 0 <= j < i ==> spec_is_hex_digit(t[j]),
        decreases t_len - i,
    {
        let b = bytes[off + i];
        proof {
            assert(t[i as int] == bytes@[off + i]);
        }
        let is_digit = (48 <= b && b <= 57) || (97 <= b && b <= 102) || (65 <= b && b <= 70);
        if !is_digit {
            proof {
                assert(!spec_is_hex_digit(t[i as int]));
                assert(!spec_all_hex_digits(t));
            }
            return Err(HexParseError::Malformed);
        }
        i += 1;
    }
    proof {
        assert(spec_all_hex_digits(t));
    }
    if t_len != 64 {
        return Err(HexParseError::WrongLength);
    }

    let mut out: [u8; 32] = [0; 32];
    let mut k: usize = 0;
    while k < 32
        invariant
            0 <= k <= 32,
            off + 64 == len,
            len == bytes@.len(),
            t == bytes@.skip(off as int),
            t.len() == 64,
            forall|j: int| 0 <= j < 64 ==> spec_is_hex_digit(t[j]),
            out@.len() == 32,
            forall|j: int| 0 <= j < k ==> out@[j] == spec_hex_decode(t)[j],
        decreases 32 - k,
    {
        let hi = bytes[off + 2 * k];
        let lo = bytes[off + 2 * k + 1];
        proof {
            assert(t[2 * k as int] == bytes@[off + 2 * k]);
            assert(t[2 * k as int + 1] == bytes@[off + 2 * k + 1]);
        }
        let hv = if hi <= 57 {
            hi - 48
        } else if hi >= 97 {
            hi - 87
        } else {
            hi - 55
        };
        let lv = if lo <= 57 {
            lo - 48
        } else if lo >= 97 {
            lo - 87
        } else {
            lo - 55
        };
        out[k] = hv * 16 + lv;
        k += 1;
    }
    Ok(out)
}

} // verus!
