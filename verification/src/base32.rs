//! Base 32 with the alphabet `A`-`Z`, `2`-`7` and without padding: bytes
//! are read as one string of bits, and every five bits make a character.

use vstd::prelude::*;
use vstd::string::*;

verus! {

/// Two to the power of `e`.
pub open spec fn two_to(e: nat) -> nat
    decreases e,
{
    if e == 0 {
        1
    } else {
        2 * two_to((e - 1) as nat)
    }
}

/// The character that stands for five bits of value `v`.
pub open spec fn alphabet_char(v: nat) -> char {
    if v < 26 {
        (0x41 + v) as u8 as char
    } else {
        (0x32 + v - 26) as u8 as char
    }
}

/// The five bits that a character stands for; `None` for a character that
/// is not of the alphabet.
pub open spec fn char_value(c: char) -> Option<nat> {
    if 'A' <= c && c <= 'Z' {
        Some((c as u32 - 0x41) as nat)
    } else if '2' <= c && c <= '7' {
        Some((c as u32 - 0x32 + 26) as nat)
    } else {
        None
    }
}

/// The byte at `i`; zero past the end.
pub open spec fn byte_or_zero(data: Seq<u8>, i: int) -> nat {
    if 0 <= i < data.len() {
        data[i] as nat
    } else {
        0
    }
}

/// The value of the `k`-th group of five bits of `data`; bits past the end
/// count as zero.
pub open spec fn quintet(data: Seq<u8>, k: int) -> nat {
    let bit = 5 * k;
    let word = byte_or_zero(data, bit / 8) * 256 + byte_or_zero(data, bit / 8 + 1);
    (word / two_to((11 - bit % 8) as nat)) % 32
}

/// The number of characters that `n` bytes are written in.
pub open spec fn encoded_len(n: nat) -> nat {
    (8 * n + 4) / 5
}

/// `data` in base 32.
pub open spec fn spec_encode(data: Seq<u8>) -> Seq<char> {
    Seq::new(encoded_len(data.len()), |k: int| alphabet_char(quintet(data, k)))
}

/// The value of the character at `i`; zero past the end and for a
/// character that is not of the alphabet.
pub open spec fn value_or_zero(text: Seq<char>, i: int) -> nat {
    if 0 <= i < text.len() && char_value(text[i]) is Some {
        char_value(text[i])->0
    } else {
        0
    }
}

/// The `j`-th byte of the bits that `text` stands for.
pub open spec fn octet(text: Seq<char>, j: int) -> u8 {
    let bit = 8 * j;
    let window = value_or_zero(text, bit / 5) * 1024 + value_or_zero(text, bit / 5 + 1) * 32
        + value_or_zero(text, bit / 5 + 2);
    ((window / two_to((7 - bit % 5) as nat)) % 256) as u8
}

/// The number of whole bytes in `n` characters.
pub open spec fn decoded_len(n: nat) -> nat {
    5 * n / 8
}

/// Whether every character of `text` is of the alphabet.
pub open spec fn in_alphabet(text: Seq<char>) -> bool {
    forall|i: int| 0 <= i < text.len() ==> char_value(#[trigger] text[i]) is Some
}

/// The bytes that `text` stands for: the whole bytes in its bits. `None`
/// where a character is not of the alphabet.
pub open spec fn spec_decode(text: Seq<char>) -> Option<Seq<u8>> {
    if in_alphabet(text) {
        Some(Seq::new(decoded_len(text.len()), |j: int| octet(text, j)))
    } else {
        None
    }
}

/// Two to the power of `e`.
fn power_of_two(e: u32) -> (r: u32)
    requires
        e <= 16,
    ensures
        r == two_to(e as nat),
        1 <= r <= 65536,
{
    let mut r: u32 = 1;
    let mut i: u32 = 0;
    while i < e
        invariant
            i <= e <= 16,
            r == two_to(i as nat),
            1 <= r,
            r <= 65536,
            i < 16 ==> r <= 32768,
        decreases e - i,
    {
        proof {
            lemma_two_to_bound((i + 1) as nat);
        }
        r = r * 2;
        i += 1;
    }
    r
}

/// Powers of two up to the sixteenth.
proof fn lemma_two_to_bound(e: nat)
    requires
        e <= 16,
    ensures
        1 <= two_to(e) <= 65536,
        e < 16 ==> two_to(e) <= 32768,
    decreases e,
{
    reveal_with_fuel(two_to, 18);
}

/// The character that stands for five bits of value `v`.
fn alphabet(v: u8) -> (r: char)
    requires
        v < 32,
    ensures
        r == alphabet_char(v as nat),
{
    if v < 26 {
        (0x41 + v) as char
    } else {
        (0x32 + v - 26) as char
    }
}

/// The five bits that the ASCII character `b` stands for.
fn value(b: u8) -> (r: Option<u8>)
    ensures
        match char_value(b as char) {
            Some(v) => r == Some(v as u8) && v < 32,
            None => r is None,
        },
{
    if b >= 0x41 && b <= 0x5a {
        Some(b - 0x41)
    } else if b >= 0x32 && b <= 0x37 {
        Some(b - 0x32 + 26)
    } else {
        None
    }
}

/// Writes `data` in base 32, without padding.
pub fn encode(data: &[u8]) -> (r: String)
    ensures
        r@ == spec_encode(data@),
{
    let n: usize = data.len();
    let bits: u128 = (n as u128) * 8;
    let mut ret: String = String::new();
    let mut k: u128 = 0;
    while k * 5 < bits
        invariant
            n == data@.len(),
            bits == 8 * n,
            k <= encoded_len(n as nat),
            ret@.len() == k,
            forall|i: int| 0 <= i < k ==> ret@[i] == alphabet_char(quintet(data@, i)),
        decreases encoded_len(n as nat) - k,
    {
        let bit: u128 = k * 5;
        let at: usize = (bit / 8) as usize;
        let off: u32 = (bit % 8) as u32;
        let hi: u32 = data[at] as u32;
        let lo: u32 = if at + 1 < n {
            data[at + 1] as u32
        } else {
            0
        };
        let word: u32 = hi * 256 + lo;
        let v: u8 = ((word / power_of_two(11 - off)) % 32) as u8;
        ret.push(alphabet(v));
        k += 1;
    }
    ret
}

/// The five bits of every character of `data`, where all of them are of
/// the alphabet.
fn values(data: &str) -> (r: Option<Vec<u8>>)
    ensures
        in_alphabet(data@) <==> r is Some,
        r is Some ==> r->0@.len() == data@.len() && forall|i: int|
            0 <= i < data@.len() ==> char_value(data@[i]) == Some(
                (#[trigger] r->0@[i]) as nat,
            ),
{
    if !data.is_ascii() {
        assert(!in_alphabet(data@)) by {
            if in_alphabet(data@) {
                assert forall|i: int| 0 <= i < data@.len() implies (data@[i] as nat) < 128 by {}
            }
        }
        return None;
    }
    let bytes: &[u8] = data.as_bytes();
    let mut r: Vec<u8> = Vec::new();
    let mut i: usize = 0;
    while i < bytes.len()
        invariant
            bytes@.len() == data@.len(),
            vstd::string::is_ascii(data),
            forall|j: int| 0 <= j < bytes@.len() ==> bytes@[j] == data@[j] as u8,
            i <= bytes@.len(),
            r@.len() == i,
            forall|j: int| 0 <= j < i ==> char_value(data@[j]) == Some((#[trigger] r@[j]) as nat),
        decreases bytes@.len() - i,
    {
        match value(bytes[i]) {
            Some(v) => {
                r.push(v);
            },
            None => {
                return None;
            },
        }
        i += 1;
    }
    assert forall|j: int| 0 <= j < data@.len() implies char_value(#[trigger] data@[j]) is Some by {
        assert(char_value(data@[j]) == Some(r@[j] as nat));
    }
    Some(r)
}

/// Reads base 32 without padding: the whole bytes in the bits that the
/// characters stand for. `None` where a character is not of the alphabet.
pub fn decode(data: &str) -> (r: Option<Vec<u8>>)
    ensures
        match spec_decode(data@) {
            Some(bytes) => r is Some && r->0@ == bytes,
            None => r is None,
        },
{
    let quintets: Vec<u8> = match values(data) {
        Some(quintets) => quintets,
        None => {
            return None;
        },
    };
    let n: usize = quintets.len();
    let bits: u128 = (n as u128) * 5;
    let mut ret: Vec<u8> = Vec::new();
    let mut j: u128 = 0;
    while j * 8 + 8 <= bits
        invariant
            n == data@.len(),
            n == quintets@.len(),
            bits == 5 * n,
            forall|i: int|
                0 <= i < n ==> char_value(data@[i]) == Some((#[trigger] quintets@[i]) as nat),
            forall|i: int| 0 <= i < n ==> quintets@[i] < 32,
            j <= decoded_len(n as nat),
            ret@.len() == j,
            forall|i: int| 0 <= i < j ==> ret@[i] == octet(data@, i),
        decreases decoded_len(n as nat) - j,
    {
        let bit: u128 = j * 8;
        let at: usize = (bit / 5) as usize;
        let off: u32 = (bit % 5) as u32;
        let q0: u32 = quintets[at] as u32;
        let q1: u32 = if at + 1 < n {
            quintets[at + 1] as u32
        } else {
            0
        };
        let q2: u32 = if at + 2 < n {
            quintets[at + 2] as u32
        } else {
            0
        };
        let window: u32 = q0 * 1024 + q1 * 32 + q2;
        let b: u8 = ((window / power_of_two(7 - off)) % 256) as u8;
        ret.push(b);
        j += 1;
    }
    Some(ret)
}

/// The byte that three groups of five bits hold, where the byte starts at
/// the first bit of the first group: `a`, whatever follows it.
proof fn lemma_bits_0(a: u32, b: u32, c: u32)
    requires
        a < 256,
        b < 256,
        c < 256,
    ensures
        ((((a * 256 + b) / 2048) % 32) * 1024 + (((a * 256 + b) / 64) % 32) * 32 + (((b * 256 + c)
            / 512) % 32)) / 128 % 256 == a,
{
    assert(((((a * 256 + b) / 2048) % 32) * 1024 + (((a * 256 + b) / 64) % 32) * 32 + (((b * 256
        + c) / 512) % 32)) / 128 % 256 == a) by (bit_vector)
        requires
            a < 256,
            b < 256,
            c < 256,
    ;
}

/// The byte `a` where it starts at the fourth bit of the first group.
proof fn lemma_bits_3(p: u32, a: u32, b: u32)
    requires
        p < 256,
        a < 256,
        b < 256,
    ensures
        ((((p * 256 + a) / 64) % 32) * 1024 + (((a * 256 + b) / 512) % 32) * 32 + (((a * 256 + b)
            / 16) % 32)) / 16 % 256 == a,
{
    assert(((((p * 256 + a) / 64) % 32) * 1024 + (((a * 256 + b) / 512) % 32) * 32 + (((a * 256
        + b) / 16) % 32)) / 16 % 256 == a) by (bit_vector)
        requires
            p < 256,
            a < 256,
            b < 256,
    ;
}

/// The byte `a` where it starts at the second bit of the first group.
proof fn lemma_bits_1(p: u32, a: u32, b: u32, c: u32)
    requires
        p < 256,
        a < 256,
        b < 256,
        c < 256,
    ensures
        ((((p * 256 + a) / 16) % 32) * 1024 + (((a * 256 + b) / 128) % 32) * 32 + (((b * 256 + c)
            / 1024) % 32)) / 64 % 256 == a,
{
    assert(((((p * 256 + a) / 16) % 32) * 1024 + (((a * 256 + b) / 128) % 32) * 32 + (((b * 256
        + c) / 1024) % 32)) / 64 % 256 == a) by (bit_vector)
        requires
            p < 256,
            a < 256,
            b < 256,
            c < 256,
    ;
}

/// The byte `a` where it starts at the fifth bit of the first group.
proof fn lemma_bits_4(p: u32, a: u32, b: u32)
    requires
        p < 256,
        a < 256,
        b < 256,
    ensures
        ((((p * 256 + a) / 128) % 32) * 1024 + (((a * 256 + b) / 1024) % 32) * 32 + (((a * 256
            + b) / 32) % 32)) / 8 % 256 == a,
{
    assert(((((p * 256 + a) / 128) % 32) * 1024 + (((a * 256 + b) / 1024) % 32) * 32 + (((a * 256
        + b) / 32) % 32)) / 8 % 256 == a) by (bit_vector)
        requires
            p < 256,
            a < 256,
            b < 256,
    ;
}

/// The byte `a` where it starts at the third bit of the first group.
proof fn lemma_bits_2(p: u32, a: u32, b: u32, c: u32)
    requires
        p < 256,
        a < 256,
        b < 256,
        c < 256,
    ensures
        ((((p * 256 + a) / 32) % 32) * 1024 + (((a * 256 + b) / 256) % 32) * 32 + (((b * 256 + c)
            / 2048) % 32)) / 32 % 256 == a,
{
    assert(((((p * 256 + a) / 32) % 32) * 1024 + (((a * 256 + b) / 256) % 32) * 32 + (((b * 256
        + c) / 2048) % 32)) / 32 % 256 == a) by (bit_vector)
        requires
            p < 256,
            a < 256,
            b < 256,
            c < 256,
    ;
}

/// The byte at `i` as a number of 32 bits; zero past the end.
spec fn byte32(data: Seq<u8>, i: int) -> u32 {
    byte_or_zero(data, i) as u32
}

/// The powers of two that cut groups of bits out of two or three bytes.
proof fn lemma_powers()
    ensures
        two_to(3) == 8,
        two_to(4) == 16,
        two_to(5) == 32,
        two_to(6) == 64,
        two_to(7) == 128,
        two_to(8) == 256,
        two_to(9) == 512,
        two_to(10) == 1024,
        two_to(11) == 2048,
{
    reveal_with_fuel(two_to, 12);
}

/// Reading gives back the first byte of a run of five.
proof fn lemma_octet_0(data: Seq<u8>, m: int)
    requires
        0 <= m,
        5 * m < data.len(),
    ensures
        octet(spec_encode(data), 5 * m) == data[5 * m],
{
    lemma_powers();
    let j = 5 * m;
    lemma_bits_0(byte32(data, j), byte32(data, j + 1), byte32(data, j + 2));
}

/// Reading gives back the second byte of a run of five.
proof fn lemma_octet_1(data: Seq<u8>, m: int)
    requires
        0 <= m,
        5 * m + 1 < data.len(),
    ensures
        octet(spec_encode(data), 5 * m + 1) == data[5 * m + 1],
{
    lemma_powers();
    let j = 5 * m + 1;
    lemma_bits_3(byte32(data, j - 1), byte32(data, j), byte32(data, j + 1));
}

/// Reading gives back the third byte of a run of five.
proof fn lemma_octet_2(data: Seq<u8>, m: int)
    requires
        0 <= m,
        5 * m + 2 < data.len(),
    ensures
        octet(spec_encode(data), 5 * m + 2) == data[5 * m + 2],
{
    lemma_powers();
    let j = 5 * m + 2;
    lemma_bits_1(
        byte32(data, j - 1),
        byte32(data, j),
        byte32(data, j + 1),
        byte32(data, j + 2),
    );
}

/// Reading gives back the fourth byte of a run of five.
proof fn lemma_octet_3(data: Seq<u8>, m: int)
    requires
        0 <= m,
        5 * m + 3 < data.len(),
    ensures
        octet(spec_encode(data), 5 * m + 3) == data[5 * m + 3],
{
    lemma_powers();
    let j = 5 * m + 3;
    lemma_bits_4(byte32(data, j - 1), byte32(data, j), byte32(data, j + 1));
}

/// Reading gives back the fifth byte of a run of five.
proof fn lemma_octet_4(data: Seq<u8>, m: int)
    requires
        0 <= m,
        5 * m + 4 < data.len(),
    ensures
        octet(spec_encode(data), 5 * m + 4) == data[5 * m + 4],
{
    lemma_powers();
    let j = 5 * m + 4;
    lemma_bits_2(
        byte32(data, j - 1),
        byte32(data, j),
        byte32(data, j + 1),
        byte32(data, j + 2),
    );
}

/// Reading what was written gives back every byte.
proof fn lemma_octet_of_encoding(data: Seq<u8>, j: int)
    requires
        0 <= j < data.len(),
    ensures
        octet(spec_encode(data), j) == data[j],
{
    let m = j / 5;
    if j % 5 == 0 {
        lemma_octet_0(data, m);
    } else if j % 5 == 1 {
        lemma_octet_1(data, m);
    } else if j % 5 == 2 {
        lemma_octet_2(data, m);
    } else if j % 5 == 3 {
        lemma_octet_3(data, m);
    } else {
        lemma_octet_4(data, m);
    }
}

/// What is written in base 32 is read back as it was: decoding the
/// encoding of any bytes gives these bytes.
pub proof fn lemma_decode_encode(data: Seq<u8>)
    ensures
        spec_decode(spec_encode(data)) == Some(data),
{
    let text = spec_encode(data);
    let back = Seq::new(decoded_len(text.len()), |j: int| octet(text, j));
    assert forall|j: int| 0 <= j < data.len() implies back[j] == data[j] by {
        lemma_octet_of_encoding(data, j);
    }
}

} // verus!
