//! The 32-byte seed value produced by each key-derivation function and by
//! their XOR combination.

use vstd::prelude::*;
use vstd::string::StrSliceExecFns;
use vstd::string::StringExecFns;

verus! {

broadcast use vstd::string::group_string_axioms;

/// Number of bytes in a seed.
pub const SEED_LEN: usize = 32;

/// Byte-wise XOR of two equal-length byte sequences.
pub open spec fn xor_bytes(a: Seq<u8>, b: Seq<u8>) -> Seq<u8>
    recommends
        a.len() == b.len(),
{
    Seq::new(a.len(), |i: int| a[i] ^ b[i])
}

/// A fixed-length 32-byte derived value: the unit of mixing in this scheme.
#[derive(Debug)]
pub struct Seed {
    bytes: Vec<u8>,
}

impl View for Seed {
    type V = Seq<u8>;

    closed spec fn view(&self) -> Seq<u8> {
        self.bytes@
    }
}

impl Seed {
    /// A seed always holds exactly 32 bytes.
    pub open spec fn wf(&self) -> bool {
        self@.len() == SEED_LEN
    }

    /// The all-zero seed.
    pub fn new() -> (r: Seed)
        ensures
            r.wf(),
            forall|i: int| 0 <= i < SEED_LEN ==> r@[i] == 0u8,
    {
        let mut bytes: Vec<u8> = Vec::new();
        let mut i: usize = 0;
        while i < SEED_LEN
            invariant
                i <= SEED_LEN,
                bytes@.len() == i,
                forall|k: int| 0 <= k < i ==> bytes@[k] == 0u8,
            decreases SEED_LEN - i,
        {
            bytes.push(0u8);
            i = i + 1;
        }
        Seed { bytes }
    }

    /// A seed built from exactly 32 bytes.
    pub(crate) fn from_bytes(bytes: Vec<u8>) -> (r: Seed)
        requires
            bytes@.len() == SEED_LEN,
        ensures
            r.wf(),
            r@ == bytes@,
    {
        Seed { bytes }
    }

    /// A copy of the seed's bytes.
    pub fn to_bytes(&self) -> (r: Vec<u8>)
        ensures
            r@ == self@,
    {
        let mut out: Vec<u8> = Vec::new();
        let mut i: usize = 0;
        while i < self.bytes.len()
            invariant
                i <= self@.len(),
                out@ =~= self@.take(i as int),
            decreases self@.len() - i,
        {
            out.push(self.bytes[i]);
            i = i + 1;
        }
        proof {
            assert(out@ =~= self@);
        }
        out
    }

    /// Mixes two seeds by byte-wise XOR into a new seed; neither input is
    /// changed.
    pub fn combine(&self, other: &Seed) -> (r: Seed)
        requires
            self.wf(),
            other.wf(),
        ensures
            r.wf(),
            r@ == xor_bytes(self@, other@),
    {
        let mut bytes: Vec<u8> = Vec::new();
        let mut i: usize = 0;
        while i < SEED_LEN
            invariant
                i <= SEED_LEN,
                self.wf(),
                other.wf(),
                bytes@.len() == i,
                forall|k: int| 0 <= k < i ==> bytes@[k] == (self@[k] ^ other@[k]),
            decreases SEED_LEN - i,
        {
            bytes.push(self.bytes[i] ^ other.bytes[i]);
            i = i + 1;
        }
        proof {
            assert(bytes@ =~= xor_bytes(self@, other@));
        }
        Seed { bytes }
    }
}

/// The one-character string holding the lower-case hexadecimal digit for `v`.
fn hex_digit_str(v: u8) -> (r: &'static str)
    requires
        v < 16,
    ensures
        r@.len() == 1,
        r@[0] == hex_char_of(v),
{
    proof {
        reveal_strlit("0");
        reveal_strlit("1");
        reveal_strlit("2");
        reveal_strlit("3");
        reveal_strlit("4");
        reveal_strlit("5");
        reveal_strlit("6");
        reveal_strlit("7");
        reveal_strlit("8");
        reveal_strlit("9");
        reveal_strlit("a");
        reveal_strlit("b");
        reveal_strlit("c");
        reveal_strlit("d");
        reveal_strlit("e");
        reveal_strlit("f");
    }
    if v == 0 {
        "0"
    } else if v == 1 {
        "1"
    } else if v == 2 {
        "2"
    } else if v == 3 {
        "3"
    } else if v == 4 {
        "4"
    } else if v == 5 {
        "5"
    } else if v == 6 {
        "6"
    } else if v == 7 {
        "7"
    } else if v == 8 {
        "8"
    } else if v == 9 {
        "9"
    } else if v == 10 {
        "a"
    } else if v == 11 {
        "b"
    } else if v == 12 {
        "c"
    } else if v == 13 {
        "d"
    } else if v == 14 {
        "e"
    } else {
        "f"
    }
}

/// Whether `ch` is a hexadecimal digit, upper or lower case.
fn is_hex_char_exec(ch: char) -> (b: bool)
    ensures
        b == is_hex_char(ch),
{
    ch == '0' || ch == '1' || ch == '2' || ch == '3' || ch == '4' || ch == '5' || ch == '6' || ch
        == '7' || ch == '8' || ch == '9' || ch == 'a' || ch == 'b' || ch == 'c' || ch == 'd' || ch
        == 'e' || ch == 'f' || ch == 'A' || ch == 'B' || ch == 'C' || ch == 'D' || ch == 'E' || ch
        == 'F'
}

/// Numeric value of the hexadecimal digit `ch`.
fn hex_val_char(ch: char) -> (v: u8)
    requires
        is_hex_char(ch),
    ensures
        v == hex_char_val(ch),
        v < 16,
{
    if ch == '0' {
        0
    } else if ch == '1' {
        1
    } else if ch == '2' {
        2
    } else if ch == '3' {
        3
    } else if ch == '4' {
        4
    } else if ch == '5' {
        5
    } else if ch == '6' {
        6
    } else if ch == '7' {
        7
    } else if ch == '8' {
        8
    } else if ch == '9' {
        9
    } else if ch == 'a' || ch == 'A' {
        10
    } else if ch == 'b' || ch == 'B' {
        11
    } else if ch == 'c' || ch == 'C' {
        12
    } else if ch == 'd' || ch == 'D' {
        13
    } else if ch == 'e' || ch == 'E' {
        14
    } else {
        15
    }
}

impl Seed {
    /// Lower-case hexadecimal rendering of the seed, two digits per byte,
    /// each byte zero-padded to two digits.
    pub fn to_hex(&self) -> (r: String)
        ensures
            r@ == hex_of(self@),
    {
        let mut out = String::new();
        let mut i: usize = 0;
        while i < self.bytes.len()
            invariant
                i <= self@.len(),
                out@ == hex_of(self@).take(2 * i as int),
            decreases self@.len() - i,
        {
            let b = self.bytes[i];
            out.append(hex_digit_str(b / 16));
            out.append(hex_digit_str(b % 16));
            proof {
                assert(out@ =~= hex_of(self@).take(2 * (i + 1) as int));
            }
            i = i + 1;
        }
        proof {
            assert(hex_of(self@).take(2 * self@.len() as int) =~= hex_of(self@));
        }
        out
    }

    /// The seed denoted by a string of exactly 64 hexadecimal digits.
    pub fn from_hex(hex: &str) -> (r: Result<Seed, HexError>)
        ensures
            match r {
                Ok(seed) => {
                    &&& seed.wf()
                    &&& all_hex(hex@)
                    &&& hex@.len() == 64
                    &&& seed@ == bytes_of_hex(hex@)
                },
                Err(e) => {
                    &&& !(all_hex(hex@) && hex@.len() == 64)
                    &&& e == (if !all_hex(hex@) {
                        HexError::InvalidChar
                    } else {
                        HexError::InvalidLength
                    })
                },
            },
    {
        let n = hex.unicode_len();
        let mut i: usize = 0;
        while i < n
            invariant
                n == hex@.len(),
                i <= n,
                forall|k: int| 0 <= k < i ==> is_hex_char(#[trigger] hex@[k]),
            decreases n - i,
        {
            let ch = hex.get_char(i);
            if !is_hex_char_exec(ch) {
                return Err(HexError::InvalidChar);
            }
            i = i + 1;
        }
        if n != 64 {
            return Err(HexError::InvalidLength);
        }
        let mut bytes: Vec<u8> = Vec::new();
        let mut k: usize = 0;
        while k < 32
            invariant
                n == hex@.len(),
                n == 64,
                all_hex(hex@),
                k <= 32,
                bytes@.len() == k,
                forall|j: int| 0 <= j < k ==> bytes@[j] == bytes_of_hex(hex@)[j],
            decreases 32 - k,
        {
            let hi = hex_val_char(hex.get_char(2 * k));
            let lo = hex_val_char(hex.get_char(2 * k + 1));
            bytes.push(hi * 16 + lo);
            k = k + 1;
        }
        proof {
            assert(bytes@ =~= bytes_of_hex(hex@));
        }
        Ok(Seed { bytes })
    }
}

/// Byte-wise XOR is commutative: combining two seeds gives the same seed in
/// either order.
pub proof fn lemma_combine_commutes(a: Seed, b: Seed)
    requires
        a.wf(),
        b.wf(),
    ensures
        xor_bytes(a@, b@) == xor_bytes(b@, a@),
{
    assert forall|i: int| 0 <= i < a@.len() implies xor_bytes(a@, b@)[i] == xor_bytes(b@, a@)[i] by {
        let x = a@[i];
        let y = b@[i];
        assert(x ^ y == y ^ x) by (bit_vector);
    }
    assert(xor_bytes(a@, b@) =~= xor_bytes(b@, a@));
}

/// Byte-wise XOR is self-inverse: combining a combined seed with either
/// original input recovers the other input.
pub proof fn lemma_combine_self_inverse(a: Seed, b: Seed)
    requires
        a.wf(),
        b.wf(),
    ensures
        xor_bytes(xor_bytes(a@, b@), b@) == a@,
{
    assert forall|i: int| 0 <= i < a@.len() implies xor_bytes(xor_bytes(a@, b@), b@)[i] == a@[i] by {
        let x = a@[i];
        let y = b@[i];
        assert((x ^ y) ^ y == x) by (bit_vector);
    }
    assert(xor_bytes(xor_bytes(a@, b@), b@) =~= a@);
}

/// Whether `c` is a hexadecimal digit, upper or lower case.
pub open spec fn is_hex_char(c: char) -> bool {
    ('0' <= c && c <= '9') || ('a' <= c && c <= 'f') || ('A' <= c && c <= 'F')
}

/// Numeric value of the hexadecimal digit `c`.
pub open spec fn hex_char_val(c: char) -> u8
    recommends
        is_hex_char(c),
{
    if '0' <= c && c <= '9' {
        ((c as int) - 0x30) as u8
    } else if 'a' <= c && c <= 'f' {
        ((c as int) - 0x61 + 10) as u8
    } else {
        ((c as int) - 0x41 + 10) as u8
    }
}

/// The lower-case hexadecimal digit for the value `v`.
pub open spec fn hex_char_of(v: u8) -> char
    recommends
        v < 16,
{
    if v == 0 {
        '0'
    } else if v == 1 {
        '1'
    } else if v == 2 {
        '2'
    } else if v == 3 {
        '3'
    } else if v == 4 {
        '4'
    } else if v == 5 {
        '5'
    } else if v == 6 {
        '6'
    } else if v == 7 {
        '7'
    } else if v == 8 {
        '8'
    } else if v == 9 {
        '9'
    } else if v == 10 {
        'a'
    } else if v == 11 {
        'b'
    } else if v == 12 {
        'c'
    } else if v == 13 {
        'd'
    } else if v == 14 {
        'e'
    } else {
        'f'
    }
}

/// Lower-case hexadecimal rendering of a byte sequence, two digits per byte,
/// each byte zero-padded to two digits.
pub open spec fn hex_of(bytes: Seq<u8>) -> Seq<char> {
    Seq::new(
        bytes.len() * 2,
        |i: int|
            if i % 2 == 0 {
                hex_char_of((bytes[i / 2] / 16) as u8)
            } else {
                hex_char_of((bytes[i / 2] % 16) as u8)
            },
    )
}

/// Whether every character of `s` is a hexadecimal digit.
pub open spec fn all_hex(s: Seq<char>) -> bool {
    forall|i: int| 0 <= i < s.len() ==> is_hex_char(#[trigger] s[i])
}

/// The bytes denoted by an even-length sequence of hexadecimal digits.
pub open spec fn bytes_of_hex(s: Seq<char>) -> Seq<u8>
    recommends
        all_hex(s),
        s.len() % 2 == 0,
{
    Seq::new(
        s.len() / 2,
        |k: int| ((hex_char_val(s[2 * k]) as int) * 16 + (hex_char_val(s[2 * k + 1]) as int)) as u8,
    )
}

/// A hexadecimal digit produced for a value below 16 is a valid digit and
/// denotes that value again.
proof fn lemma_hex_char_of_val(v: u8)
    requires
        v < 16,
    ensures
        is_hex_char(hex_char_of(v)),
        hex_char_val(hex_char_of(v)) == v,
{
}

/// Hexadecimal round trip: the rendering of a seed is 64 valid digits, and
/// parsing it back gives exactly the seed's bytes. With the contracts of
/// `Seed::to_hex` and `Seed::from_hex` this means parsing a rendered seed
/// always succeeds and recovers the seed.
pub proof fn lemma_hex_round_trip(seed: Seed)
    requires
        seed.wf(),
    ensures
        hex_of(seed@).len() == 64,
        all_hex(hex_of(seed@)),
        bytes_of_hex(hex_of(seed@)) == seed@,
{
    let h = hex_of(seed@);
    assert forall|i: int| 0 <= i < h.len() implies is_hex_char(#[trigger] h[i]) by {
        let b = seed@[i / 2];
        lemma_hex_char_of_val((b / 16) as u8);
        lemma_hex_char_of_val((b % 16) as u8);
    }
    assert forall|k: int| 0 <= k < 32 implies bytes_of_hex(h)[k] == seed@[k] by {
        let b = seed@[k];
        lemma_hex_char_of_val((b / 16) as u8);
        lemma_hex_char_of_val((b % 16) as u8);
        assert(h[2 * k] == hex_char_of((b / 16) as u8));
        assert(h[2 * k + 1] == hex_char_of((b % 16) as u8));
    }
    assert(bytes_of_hex(h) =~= seed@);
}

/// Error from parsing a seed out of a hexadecimal string.
#[derive(Clone, Copy, Debug, PartialEq, Eq, Structural)]
pub enum HexError {
    /// The string holds a character that is not a hexadecimal digit.
    InvalidChar,
    /// The string does not hold exactly 64 hexadecimal digits.
    InvalidLength,
}

} // verus!
