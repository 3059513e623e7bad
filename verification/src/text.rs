//! Texts: how they end, how they are ordered, and the numbers that are
//! written in them.

use vstd::prelude::*;
use vstd::string::*;

verus! {

/// The character of a decimal digit; `'0'` for a number that is no digit.
pub open spec fn digit_char(d: nat) -> char {
    if d == 1 {
        '1'
    } else if d == 2 {
        '2'
    } else if d == 3 {
        '3'
    } else if d == 4 {
        '4'
    } else if d == 5 {
        '5'
    } else if d == 6 {
        '6'
    } else if d == 7 {
        '7'
    } else if d == 8 {
        '8'
    } else if d == 9 {
        '9'
    } else {
        '0'
    }
}

/// The decimal text of `n`: no sign, no leading zero, `"0"` for zero.
pub open spec fn spec_decimal(n: nat) -> Seq<char>
    decreases n,
{
    if n < 10 {
        seq![digit_char(n)]
    } else {
        spec_decimal(n / 10).push(digit_char(n % 10))
    }
}

/// The text of one decimal digit.
pub(crate) fn digit_str(d: u8) -> (r: &'static str)
    requires
        d < 10,
    ensures
        r@ == seq![digit_char(d as nat)],
{
    proof {
        reveal_strlit("0");
        reveal_strlit("1");
        reveal_strlit("2");
        reveal_strlit("3");
        reveal_strlit("4");
        reveal_strlit("5");
        reveal_strlit("6");
        reveal_strlit("7");
        reveal_strlit("8");
        reveal_strlit("9");
    }
    let r: &'static str = match d {
        0 => "0",
        1 => "1",
        2 => "2",
        3 => "3",
        4 => "4",
        5 => "5",
        6 => "6",
        7 => "7",
        8 => "8",
        _ => "9",
    };
    r
}

/// The decimal text of `n`.
pub fn decimal(n: u128) -> (r: String)
    ensures
        r@ == spec_decimal(n as nat),
{
    let mut rest: u128 = n / 10;
    let mut text: String = digit_str((n % 10) as u8).to_owned();
    while rest > 0
        invariant
            spec_decimal(n as nat) == if rest == 0 {
                text@
            } else {
                spec_decimal(rest as nat) + text@
            },
        decreases rest,
    {
        let digit: &'static str = digit_str((rest % 10) as u8);
        proof {
            let d = seq![digit_char((rest % 10) as nat)];
            if rest >= 10 {
                assert(spec_decimal(rest as nat) == spec_decimal((rest / 10) as nat).push(
                    digit_char((rest % 10) as nat),
                ));
                assert(spec_decimal((rest / 10) as nat).push(digit_char((rest % 10) as nat)) + text@
                    =~= spec_decimal((rest / 10) as nat) + (d + text@));
            }
        }
        text = digit.to_owned().concat(text.as_str());
        rest = rest / 10;
    }
    text
}


/// Whether two texts are the same.
pub fn same_text(a: &str, b: &str) -> (r: bool)
    ensures
        r == (a@ == b@),
{
    let a_owned: String = a.to_owned();
    let b_owned: String = b.to_owned();
    a_owned == b_owned
}


/// Whether `s` ends with `suffix`.
pub open spec fn spec_ends_with(s: Seq<char>, suffix: Seq<char>) -> bool {
    suffix.len() <= s.len() && s.subrange(s.len() - suffix.len(), s.len() as int) == suffix
}

/// `s` without its last `n` characters.
pub open spec fn without_last(s: Seq<char>, n: nat) -> Seq<char>
    recommends
        n <= s.len(),
{
    s.subrange(0, s.len() - n)
}

/// Whether `s` ends with `suffix`.
pub fn ends_with(s: &str, suffix: &str) -> (r: bool)
    ensures
        r == spec_ends_with(s@, suffix@),
{
    let n: usize = s.unicode_len();
    let k: usize = suffix.unicode_len();
    if k > n {
        return false;
    }
    let mut i: usize = 0;
    while i < k
        invariant
            k <= n,
            n == s@.len(),
            k == suffix@.len(),
            i <= k,
            forall|j: int| 0 <= j < i ==> s@[n - k + j] == suffix@[j],
        decreases k - i,
    {
        if s.get_char(n - k + i) != suffix.get_char(i) {
            return false;
        }
        i += 1;
    }
    assert(s@.subrange(n - k, n as int) =~= suffix@);
    true
}

/// `s` without `suffix` at its end; `None` where `s` does not end with it.
pub fn strip_suffix<'a>(s: &'a str, suffix: &str) -> (r: Option<&'a str>)
    ensures
        spec_ends_with(s@, suffix@) ==> r is Some && r->0@ == without_last(s@, suffix@.len()),
        !spec_ends_with(s@, suffix@) ==> r is None,
{
    if ends_with(s, suffix) {
        let n: usize = s.unicode_len();
        let k: usize = suffix.unicode_len();
        Some(s.substring_char(0, n - k))
    } else {
        None
    }
}

/// Whether `i` is the place of the last `c` in `s`.
pub open spec fn is_last_place(s: Seq<char>, c: char, i: int) -> bool {
    &&& 0 <= i < s.len()
    &&& s[i] == c
    &&& forall|j: int| i < j < s.len() ==> s[j] != c
}

/// The place of the last `c` in `s`, where `s` holds one.
pub open spec fn last_place(s: Seq<char>, c: char) -> int {
    choose|i: int| is_last_place(s, c, i)
}

/// The place of the last `c` in `s`, if `s` holds one.
pub fn last_index_of(s: &str, c: char) -> (r: Option<usize>)
    ensures
        match r {
            Some(i) => is_last_place(s@, c, i as int) && i == last_place(s@, c),
            None => !s@.contains(c),
        },
{
    let n: usize = s.unicode_len();
    let mut i: usize = n;
    while i > 0
        invariant
            n == s@.len(),
            i <= n,
            forall|j: int| i <= j < n ==> s@[j] != c,
        decreases i,
    {
        i -= 1;
        if s.get_char(i) == c {
            return Some(i);
        }
    }
    None
}


/// `String::push` of the standard library appends the given character to
/// the end of the string.
pub assume_specification[ String::push ](s: &mut String, c: char)
    ensures
        final(s)@ == old(s)@.push(c),
;


/// The texts of a list of strings.
pub open spec fn names(list: Seq<String>) -> Seq<Seq<char>> {
    list.map_values(|a: String| a@)
}


/// How one value stands to another.
#[derive(Debug, Clone, Copy, PartialEq, Eq, Structural)]
pub enum Order {
    Less,
    Equal,
    Greater,
}

/// The order of two byte strings as in a dictionary: the first place where
/// they differ decides, and a string that ends there comes first.
pub open spec fn lexical_order(a: Seq<u8>, b: Seq<u8>) -> Order
    decreases a.len(),
{
    if a.len() == 0 {
        if b.len() == 0 {
            Order::Equal
        } else {
            Order::Less
        }
    } else if b.len() == 0 {
        Order::Greater
    } else if a[0] < b[0] {
        Order::Less
    } else if a[0] > b[0] {
        Order::Greater
    } else {
        lexical_order(a.drop_first(), b.drop_first())
    }
}

/// The order of two byte strings as in a dictionary.
pub fn compare_bytes(a: &[u8], b: &[u8]) -> (r: Order)
    ensures
        r == lexical_order(a@, b@),
{
    let mut i: usize = 0;
    assert(a@.skip(0) =~= a@);
    assert(b@.skip(0) =~= b@);
    while i < a.len() && i < b.len()
        invariant
            i <= a@.len(),
            i <= b@.len(),
            lexical_order(a@, b@) == lexical_order(a@.skip(i as int), b@.skip(i as int)),
        decreases a@.len() - i,
    {
        proof {
            assert(a@.skip(i as int).drop_first() =~= a@.skip(i + 1));
            assert(b@.skip(i as int).drop_first() =~= b@.skip(i + 1));
        }
        if a[i] < b[i] {
            return Order::Less;
        }
        if a[i] > b[i] {
            return Order::Greater;
        }
        i += 1;
    }
    if i < b.len() {
        Order::Less
    } else if i < a.len() {
        Order::Greater
    } else {
        Order::Equal
    }
}

/// The order of two texts: that of their bytes in UTF-8.
pub fn compare_text(a: &str, b: &str) -> (r: Order)
    ensures
        r == lexical_order(vstd::utf8::encode_utf8(a@), vstd::utf8::encode_utf8(b@)),
{
    compare_bytes(a.as_bytes(), b.as_bytes())
}

/// Whether `i` is the place of the first `c` in `s` at or after `from`.
pub open spec fn is_first_place(s: Seq<char>, c: char, from: int, i: int) -> bool {
    &&& from <= i < s.len()
    &&& s[i] == c
    &&& forall|j: int| from <= j < i ==> s[j] != c
}

/// The place of the first `c` in `s` at or after `from`; the length of `s`
/// where there is none.
pub open spec fn first_place(s: Seq<char>, c: char, from: int) -> int
    decreases s.len() - from,
{
    if from < 0 || from >= s.len() {
        s.len() as int
    } else if s[from] == c {
        from
    } else {
        first_place(s, c, from + 1)
    }
}

/// The place of the first `c` in `s` at or after `from`; the length of `s`
/// where there is none.
pub(crate) fn index_of_from(s: &str, c: char, from: usize) -> (r: usize)
    requires
        from <= s@.len(),
    ensures
        r == first_place(s@, c, from as int),
        from <= r <= s@.len(),
        r < s@.len() ==> s@[r as int] == c,
        forall|j: int| from <= j < r ==> s@[j] != c,
{
    let n: usize = s.unicode_len();
    let mut i: usize = from;
    while i < n
        invariant
            n == s@.len(),
            from <= i <= n,
            first_place(s@, c, from as int) == first_place(s@, c, i as int),
            forall|j: int| from <= j < i ==> s@[j] != c,
        decreases n - i,
    {
        if s.get_char(i) == c {
            return i;
        }
        i += 1;
    }
    n
}

/// The value of a decimal digit; `None` for any other character.
pub open spec fn digit_value(c: char) -> Option<nat> {
    if '0' <= c && c <= '9' {
        Some((c as u32 - '0' as u32) as nat)
    } else {
        None
    }
}

/// The number that a string of decimal digits stands for; `None` where a
/// character is no digit.
pub open spec fn digits_value(s: Seq<char>) -> Option<nat>
    decreases s.len(),
{
    if s.len() == 0 {
        Some(0)
    } else {
        match (digits_value(s.drop_last()), digit_value(s.last())) {
            (Some(head), Some(d)) => Some(head * 10 + d),
            _ => None,
        }
    }
}

/// The byte that a text stands for: one or more decimal digits, after a
/// `+` or alone, that make a number up to 255.
pub open spec fn spec_parse_u8(s: Seq<char>) -> Option<u8> {
    let digits = if s.len() > 0 && s[0] == '+' {
        s.drop_first()
    } else {
        s
    };
    if digits.len() == 0 {
        None
    } else {
        match digits_value(digits) {
            Some(v) => if v <= u8::MAX {
                Some(v as u8)
            } else {
                None
            },
            None => None,
        }
    }
}

/// The value of the decimal digit `c`.
pub(crate) fn digit_of(c: char) -> (r: Option<u8>)
    ensures
        match digit_value(c) {
            Some(d) => r == Some(d as u8) && d <= 9,
            None => r is None,
        },
{
    if c >= '0' && c <= '9' {
        Some(((c as u32) - ('0' as u32)) as u8)
    } else {
        None
    }
}

/// A number only grows when digits follow.
pub proof fn lemma_digits_grow(s: Seq<char>, upto: int)
    requires
        0 <= upto <= s.len(),
    ensures
        digits_value(s.take(upto)) is None ==> digits_value(s) is None,
        digits_value(s) is Some ==> digits_value(s.take(upto))->0 <= digits_value(s)->0,
    decreases s.len() - upto,
{
    if upto < s.len() {
        assert(s.take(upto + 1).drop_last() =~= s.take(upto));
        lemma_digits_grow(s, upto + 1);
    } else {
        assert(s.take(upto) =~= s);
    }
}

/// Reads a byte in decimal: digits, with or without a `+` before them.
pub fn parse_u8(s: &str) -> (r: Option<u8>)
    ensures
        r == spec_parse_u8(s@),
{
    let n: usize = s.unicode_len();
    let start: usize = if n > 0 && s.get_char(0) == '+' {
        1
    } else {
        0
    };
    if start == n {
        return None;
    }
    let ghost digits = s@.skip(start as int);
    let mut value: u8 = 0;
    let mut i: usize = start;
    while i < n
        invariant
            n == s@.len(),
            start <= i <= n,
            digits == s@.skip(start as int),
            digits.len() > 0,
            digits == if s@.len() > 0 && s@[0] == '+' {
                s@.drop_first()
            } else {
                s@
            },
            digits_value(digits.take(i - start)) == Some(value as nat),
        decreases n - i,
    {
        proof {
            assert(digits.take(i + 1 - start).drop_last() =~= digits.take(i - start));
            lemma_digits_grow(digits, i + 1 - start);
        }
        let d: u8 = match digit_of(s.get_char(i)) {
            Some(d) => d,
            None => {
                return None;
            },
        };
        if value > 25 || (value == 25 && d > 5) {
            return None;
        }
        value = value * 10 + d;
        i += 1;
    }
    assert(digits.take(n - start) =~= digits);
    Some(value)
}


/// `String::from_utf8` of the standard library: the text that the bytes
/// encode in UTF-8, and `None` where they are not valid UTF-8.
#[verifier::external_body]
pub(crate) fn string_from_utf8(bytes: Vec<u8>) -> (r: Option<String>)
    ensures
        r is Some <==> vstd::utf8::valid_utf8(bytes@),
        r is Some ==> vstd::utf8::encode_utf8(r->0@) == bytes@,
{
    match String::from_utf8(bytes) {
        Ok(text) => Some(text),
        Err(_) => None,
    }
}

/// The bytes of `bytes` from `from` up to `to`.
pub(crate) fn copy_range(bytes: &[u8], from: usize, to: usize) -> (r: Vec<u8>)
    requires
        from <= to <= bytes@.len(),
    ensures
        r@ == bytes@.subrange(from as int, to as int),
{
    let mut r: Vec<u8> = Vec::new();
    let mut i: usize = from;
    while i < to
        invariant
            from <= i <= to <= bytes@.len(),
            r@ == bytes@.subrange(from as int, i as int),
        decreases to - i,
    {
        r.push(bytes[i]);
        i += 1;
    }
    r
}

/// The place of the first `b` in `bytes` from `from` on and before `to`;
/// `to` where there is none.
pub open spec fn first_byte(bytes: Seq<u8>, b: u8, from: int, to: int) -> int
    decreases to - from,
{
    if from >= to {
        to
    } else if bytes[from] == b {
        from
    } else {
        first_byte(bytes, b, from + 1, to)
    }
}

/// The place of the first `b` in `bytes` before `to`; `to` where there is
/// none.
pub(crate) fn byte_index(bytes: &[u8], b: u8, to: usize) -> (r: usize)
    requires
        to <= bytes@.len(),
    ensures
        r == first_byte(bytes@, b, 0, to as int),
        r <= to,
{
    let mut i: usize = 0;
    while i < to
        invariant
            i <= to <= bytes@.len(),
            first_byte(bytes@, b, 0, to as int) == first_byte(bytes@, b, i as int, to as int),
        decreases to - i,
    {
        if bytes[i] == b {
            return i;
        }
        i += 1;
    }
    to
}


/// `n` zeros.
pub open spec fn zeros(n: nat) -> Seq<char> {
    Seq::new(n, |i: int| '0')
}

/// The decimal text of `n`, with zeros before it up to `width` characters.
pub open spec fn spec_padded(n: nat, width: nat) -> Seq<char> {
    if spec_decimal(n).len() >= width {
        spec_decimal(n)
    } else {
        zeros((width - spec_decimal(n).len()) as nat) + spec_decimal(n)
    }
}

/// The decimal text of `n`, with zeros before it up to `width` characters.
pub fn padded(n: u128, width: usize) -> (r: String)
    ensures
        r@ == spec_padded(n as nat, width as nat),
{
    let mut text: String = decimal(n);
    let mut len: usize = text.as_str().unicode_len();
    let ghost digits = text@;
    while len < width
        invariant
            digits == spec_decimal(n as nat),
            len == text@.len(),
            len >= digits.len(),
            len == digits.len() || len <= width,
            text@ == zeros((len - digits.len()) as nat) + digits,
        decreases width - len,
    {
        assert(seq!['0'] + (zeros((len - digits.len()) as nat) + digits) =~= zeros(
            (len + 1 - digits.len()) as nat,
        ) + digits);
        proof {
            reveal_strlit("0");
        }
        text = "0".to_owned().concat(text.as_str());
        len += 1;
    }
    text
}

/// The text of an optional string.
pub open spec fn opt_text(s: Option<String>) -> Option<Seq<char>> {
    match s {
        Some(s) => Some(s@),
        None => None,
    }
}

} // verus!
