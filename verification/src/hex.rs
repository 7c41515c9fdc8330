//! Hex encoding and decoding of byte strings, as used for transaction
//! bodies, transaction ids and block hashes.

use vstd::prelude::*;
use vstd::string::StringExecFns;
use vstd::string::StrSliceExecFns;

verus! {

/// The lowercase hex digit for a nibble.
pub open spec fn hex_digit(n: u8) -> char
    recommends
        n < 16,
{
    if n == 0 {
        '0'
    } else if n == 1 {
        '1'
    } else if n == 2 {
        '2'
    } else if n == 3 {
        '3'
    } else if n == 4 {
        '4'
    } else if n == 5 {
        '5'
    } else if n == 6 {
        '6'
    } else if n == 7 {
        '7'
    } else if n == 8 {
        '8'
    } else if n == 9 {
        '9'
    } else if n == 10 {
        'a'
    } else if n == 11 {
        'b'
    } else if n == 12 {
        'c'
    } else if n == 13 {
        'd'
    } else if n == 14 {
        'e'
    } else {
        'f'
    }
}

/// Lowercase hex rendering of a byte string: two digits per byte.
pub open spec fn hex_of(bs: Seq<u8>) -> Seq<char> {
    Seq::new(
        2 * bs.len(),
        |i: int|
            if i % 2 == 0 {
                hex_digit(bs[i / 2] / 16)
            } else {
                hex_digit(bs[i / 2] % 16)
            },
    )
}

/// The value of one hex digit; `None` for every other character.
/// Both cases of the letters are accepted, as in the decoder this
/// replaces.
pub open spec fn hex_val(c: char) -> Option<u8> {
    let n = c as int;
    if 48 <= n <= 57 {
        Some((n - 48) as u8)
    } else if 97 <= n <= 102 {
        Some((n - 87) as u8)
    } else if 65 <= n <= 70 {
        Some((n - 55) as u8)
    } else {
        None
    }
}

/// Every character of the sequence is a hex digit.
pub open spec fn all_hex(s: Seq<char>) -> bool {
    forall|i: int| 0 <= i < s.len() ==> hex_val(#[trigger] s[i]) is Some
}

/// The byte string a hex character sequence stands for.
pub open spec fn hex_decoded(s: Seq<char>) -> Seq<u8>
    recommends
        s.len() % 2 == 0,
        all_hex(s),
{
    Seq::new(
        s.len() / 2,
        |i: int| (hex_val(s[2 * i]).unwrap() * 16 + hex_val(s[2 * i + 1]).unwrap()) as u8,
    )
}

/// Why a string failed to decode as hex.
#[derive(Debug, Clone, PartialEq, Eq)]
pub enum HexError {
    OddLength,
    InvalidChar { index: usize },
}

impl HexError {
    /// A short human-readable account of the failure, naming the first
    /// offending position.
    pub fn message(&self) -> (r: String)
        ensures
            self is OddLength ==> r@ == "Odd number of digits"@,
            self matches HexError::InvalidChar { index } ==> r@
                == "Invalid character at position "@ + crate::render::dec_of(index as int),
    {
        match self {
            HexError::OddLength => String::from_str("Odd number of digits"),
            HexError::InvalidChar { index } => {
                let mut m = String::from_str("Invalid character at position ");
                let d = crate::render::u64_to_dec(*index as u64);
                m.append(d.as_str());
                m
            },
        }
    }
}

/// The `&'static str` holding exactly one lowercase hex digit.
pub fn hex_digit_str(n: u8) -> (r: &'static str)
    requires
        n < 16,
    ensures
        r@ =~= seq![hex_digit(n)],
{
    proof {
        reveal_strlit("0");
        reveal_strlit("1");
        reveal_strlit("2");
        reveal_strlit("3");
        reveal_strlit("4");
        reveal_strlit("5");
        reveal_strlit("6");
        reveal_strlit("7");
        reveal_strlit("8");
        reveal_strlit("9");
        reveal_strlit("a");
        reveal_strlit("b");
        reveal_strlit("c");
        reveal_strlit("d");
        reveal_strlit("e");
        reveal_strlit("f");
    }
    if n == 0 {
        "0"
    } else if n == 1 {
        "1"
    } else if n == 2 {
        "2"
    } else if n == 3 {
        "3"
    } else if n == 4 {
        "4"
    } else if n == 5 {
        "5"
    } else if n == 6 {
        "6"
    } else if n == 7 {
        "7"
    } else if n == 8 {
        "8"
    } else if n == 9 {
        "9"
    } else if n == 10 {
        "a"
    } else if n == 11 {
        "b"
    } else if n == 12 {
        "c"
    } else if n == 13 {
        "d"
    } else if n == 14 {
        "e"
    } else {
        "f"
    }
}

/// Lowercase hex encoding of a byte string.
pub fn hex_encode(bs: &Vec<u8>) -> (r: String)
    ensures
        r@ == hex_of(bs@),
{
    let mut s = String::new();
    let mut i: usize = 0;
    while i < bs.len()
        invariant
            i <= bs.len(),
            s@ =~= hex_of(bs@.take(i as int)),
        decreases bs.len() - i,
    {
        let b = bs[i];
        s.append(hex_digit_str(b / 16));
        s.append(hex_digit_str(b % 16));
        i = i + 1;
        proof {
            assert(s@ =~= hex_of(bs@.take(i as int)));
        }
    }
    proof {
        assert(bs@.take(bs@.len() as int) =~= bs@);
    }
    s
}

/// Decodes a hex string to bytes. Fails on odd length, and otherwise on
/// the first character that is not a hex digit, naming its position.
pub fn hex_decode(s: &str) -> (r: Result<Vec<u8>, HexError>)
    ensures
        r is Ok <==> s@.len() % 2 == 0 && all_hex(s@),
        r matches Ok(bs) ==> bs@ == hex_decoded(s@),
        r matches Err(e) ==> match e {
            HexError::OddLength => s@.len() % 2 != 0,
            HexError::InvalidChar { index } => s@.len() % 2 == 0 && index < s@.len() && hex_val(
                s@[index as int],
            ) is None && (forall|j: int| 0 <= j < index ==> hex_val(#[trigger] s@[j]) is Some),
        },
{
    let n = s.unicode_len();
    if n % 2 != 0 {
        return Err(HexError::OddLength);
    }
    let mut out: Vec<u8> = Vec::new();
    let mut i: usize = 0;
    while i < n
        invariant
            n == s@.len(),
            n % 2 == 0,
            i % 2 == 0,
            i <= n,
            forall|j: int| 0 <= j < i ==> hex_val(#[trigger] s@[j]) is Some,
            out@ =~= hex_decoded(s@.take(i as int)),
        decreases n - i,
    {
        let hi = match hex_val_exec(s.get_char(i)) {
            Some(v) => v,
            None => {
                return Err(HexError::InvalidChar { index: i });
            },
        };
        let lo = match hex_val_exec(s.get_char(i + 1)) {
            Some(v) => v,
            None => {
                return Err(HexError::InvalidChar { index: i + 1 });
            },
        };
        out.push(hi * 16 + lo);
        i = i + 2;
        proof {
            assert(out@ =~= hex_decoded(s@.take(i as int)));
        }
    }
    proof {
        assert(s@.take(s@.len() as int) =~= s@);
    }
    Ok(out)
}

/// Executable twin of [`hex_val`].
pub fn hex_val_exec(c: char) -> (r: Option<u8>)
    ensures
        r == hex_val(c),
{
    if '0' <= c && c <= '9' {
        Some((c as u8) - 48)
    } else if 'a' <= c && c <= 'f' {
        Some((c as u8) - 87)
    } else if 'A' <= c && c <= 'F' {
        Some((c as u8) - 55)
    } else {
        None
    }
}

/// Decoding is a left inverse of encoding: the hex rendering of a byte
/// string always decodes back to it.
pub proof fn lemma_hex_round_trip(bs: Seq<u8>)
    ensures
        hex_of(bs).len() % 2 == 0,
        all_hex(hex_of(bs)),
        hex_decoded(hex_of(bs)) =~= bs,
{
    assert forall|i: int| 0 <= i < hex_of(bs).len() implies hex_val(
        #[trigger] hex_of(bs)[i],
    ) is Some by {
        let b = bs[i / 2];
        assert(b / 16 < 16 && b % 16 < 16);
    }
    assert forall|i: int| 0 <= i < bs.len() implies hex_decoded(hex_of(bs))[i] == bs[i] by {
        let b = bs[i];
        assert(hex_of(bs)[2 * i] == hex_digit(b / 16));
        assert(hex_of(bs)[2 * i + 1] == hex_digit(b % 16));
        assert(hex_val(hex_digit(b / 16)) == Some((b / 16) as u8));
        assert(hex_val(hex_digit(b % 16)) == Some((b % 16) as u8));
        assert(b / 16 * 16 + b % 16 == b);
    }
}

} // verus!
