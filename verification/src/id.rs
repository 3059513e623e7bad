//! Identifiers of accounts, and the namespace that an identifier lives in.
//!
//! An identifier is made of lower case letters and digits, with single `-`
//! or `_` between them. It has no dot: the accounts of NEAR that hold one
//! are no identifiers.

use vstd::prelude::*;
use vstd::string::*;
use vstd::utf8::encode_utf8;
use crate::text::{
    decimal, ends_with, last_index_of, last_place, same_text, spec_decimal, spec_ends_with, strip_suffix,
    without_last,
};

verus! {

/// Why a text is no identifier.
#[derive(Debug, Clone, Copy, PartialEq, Eq, Structural)]
pub enum IdError {
    /// The character may not stand where it stands.
    Invalid(char),
    /// The name has this many bytes, too few.
    TooShort(usize),
    /// The name has this many bytes, too many.
    TooLong(usize),
}

impl IdError {
    /// The text that describes the error.
    pub open spec fn spec_message(self) -> Seq<char> {
        match self {
            IdError::Invalid(c) => "Invalid character: '"@.push(c) + "'"@,
            IdError::TooShort(len) => "Id is too short: "@ + spec_decimal(len as nat),
            IdError::TooLong(len) => "Id is too long: "@ + spec_decimal(len as nat),
        }
    }

    /// The text that describes the error.
    pub fn to_string(&self) -> (r: String)
        ensures
            r@ == self.spec_message(),
    {
        match self {
            IdError::Invalid(c) => {
                let mut text: String = "Invalid character: '".to_owned();
                text.push(*c);
                text.concat("'")
            },
            IdError::TooShort(len) => {
                let head: String = "Id is too short: ".to_owned();
                head.concat(decimal(*len as u128).as_str())
            },
            IdError::TooLong(len) => {
                let head: String = "Id is too long: ".to_owned();
                head.concat(decimal(*len as u128).as_str())
            },
        }
    }
}

/// The namespace of an identifier.
#[derive(Debug, Clone, Copy, PartialEq, Eq, Structural, Hash, PartialOrd, Ord)]
pub enum IdType {
    ArtSpot,
    Near,
    NearImplicit,
    Ethereum,
    Other,
}

impl IdType {
    /// The name of the namespace.
    pub fn as_str(&self) -> (r: &'static str)
        ensures
            r@ == (match *self {
                IdType::Near => "near"@,
                IdType::NearImplicit => "near-implicit"@,
                IdType::ArtSpot => "art-spot"@,
                IdType::Ethereum => "ethereum"@,
                IdType::Other => "other"@,
            }),
    {
        match self {
            IdType::Near => "near",
            IdType::NearImplicit => "near-implicit",
            IdType::ArtSpot => "art-spot",
            IdType::Ethereum => "ethereum",
            IdType::Other => "other",
        }
    }

    /// The name of the namespace in UTF-8.
    pub fn as_bytes(&self) -> (r: &'static [u8])
        ensures
            r@ == encode_utf8(
                match *self {
                    IdType::Near => "near"@,
                    IdType::NearImplicit => "near-implicit"@,
                    IdType::ArtSpot => "art-spot"@,
                    IdType::Ethereum => "ethereum"@,
                    IdType::Other => "other"@,
                },
            ),
    {
        self.as_str().as_bytes()
    }
}

/// A lower case letter or a digit.
pub open spec fn is_plain(c: char) -> bool {
    ('a' <= c && c <= 'z') || ('0' <= c && c <= '9')
}

/// A character that may stand between letters and digits.
pub open spec fn is_separator(c: char) -> bool {
    c == '-' || c == '_'
}

/// Whether the character at `i` may not stand there: it is neither plain
/// nor a separator, or it is a separator at the start or after another.
pub open spec fn fault_at(s: Seq<char>, i: int) -> bool
    recommends
        0 <= i < s.len(),
{
    ||| !is_plain(s[i]) && !is_separator(s[i])
    ||| is_separator(s[i]) && (i == 0 || is_separator(s[i - 1]))
}

/// The first character of `s`, from `from` on, that may not stand where it
/// stands.
pub open spec fn first_fault(s: Seq<char>, from: int) -> Option<char>
    decreases s.len() - from,
{
    if from < 0 || from >= s.len() {
        None
    } else if fault_at(s, from) {
        Some(s[from])
    } else {
        first_fault(s, from + 1)
    }
}

/// What is wrong with an identifier, if anything: its length in bytes, the
/// first character out of place, or a separator at its end. A dot is out of
/// place everywhere.
pub open spec fn spec_validate_name(s: Seq<char>) -> Result<(), IdError> {
    let n = encode_utf8(s).len();
    if n < Id::MIN_LENGTH {
        Err(IdError::TooShort(n as usize))
    } else if n > Id::MAX_LENGTH {
        Err(IdError::TooLong(n as usize))
    } else {
        match first_fault(s, 0) {
            Some(c) => Err(IdError::Invalid(c)),
            None => if s.len() > 0 && is_separator(s.last()) {
                Err(IdError::Invalid('-'))
            } else {
                Ok(())
            },
        }
    }
}

/// Whether `c` is a lower case letter or a digit.
pub fn plain(c: char) -> (r: bool)
    ensures
        r == is_plain(c),
{
    (c >= 'a' && c <= 'z') || (c >= '0' && c <= '9')
}

/// Whether `c` is `-` or `_`.
pub fn separator(c: char) -> (r: bool)
    ensures
        r == is_separator(c),
{
    c == '-' || c == '_'
}

/// Checks a text: at least two and at most 64 bytes, made of lower case
/// letters and digits, with single separators between them.
pub fn validate_name(name: &str) -> (r: Result<(), IdError>)
    ensures
        r == spec_validate_name(name@),
{
    let bytes: usize = name.as_bytes().len();
    if bytes < Id::MIN_LENGTH {
        return Err(IdError::TooShort(bytes));
    } else if bytes > Id::MAX_LENGTH {
        return Err(IdError::TooLong(bytes));
    }
    let n: usize = name.unicode_len();
    let mut last_char_is_separator: bool = true;
    let mut i: usize = 0;
    while i < n
        invariant
            n == name@.len(),
            i <= n,
            Id::MIN_LENGTH <= encode_utf8(name@).len() <= Id::MAX_LENGTH,
            first_fault(name@, 0) == first_fault(name@, i as int),
            last_char_is_separator == (i == 0 || is_separator(name@[i - 1])),
        decreases n - i,
    {
        let c: char = name.get_char(i);
        let current_char_is_separator: bool = separator(c);
        if !current_char_is_separator && !plain(c) {
            return Err(IdError::Invalid(c));
        }
        if current_char_is_separator && last_char_is_separator {
            return Err(IdError::Invalid(c));
        }
        last_char_is_separator = current_char_is_separator;
        i += 1;
    }
    if last_char_is_separator && n > 0 {
        return Err(IdError::Invalid('-'));
    }
    Ok(())
}

/// Whether `account_id` is a name: at least two and at most 64 bytes, made
/// of lower case letters and digits, with single separators between them.
pub fn is_valid(account_id: &str) -> (r: bool)
    ensures
        r == (spec_validate_name(account_id@) is Ok),
{
    validate_name(account_id).is_ok()
}

/// A lower case hexadecimal digit.
pub open spec fn is_hex(c: char) -> bool {
    ('a' <= c && c <= 'f') || ('0' <= c && c <= '9')
}

/// Whether the characters are lower case hexadecimal digits from `from` on.
pub open spec fn hex_from(id: Seq<char>, from: int) -> bool {
    forall|i: int| from <= i < id.len() ==> is_hex(#[trigger] id[i])
}

/// An implicit Ethereum account: `0x` and 40 hexadecimal digits.
pub open spec fn spec_is_eth_implicit(id: Seq<char>) -> bool {
    &&& id.len() == 42
    &&& id[0] == '0'
    &&& id[1] == 'x'
    &&& hex_from(id, 2)
}

/// An implicit NEAR account: 64 hexadecimal digits.
pub open spec fn spec_is_near_implicit(id: Seq<char>) -> bool {
    &&& id.len() == 64
    &&& hex_from(id, 0)
}

/// Whether all characters of the ASCII text `id` from `from` on are lower
/// case hexadecimal digits.
fn all_hex(id: &str, from: usize) -> (r: bool)
    requires
        vstd::string::is_ascii(id),
        from <= id@.len(),
    ensures
        r == hex_from(id@, from as int),
{
    let n: usize = id.unicode_len();
    let mut i: usize = from;
    while i < n
        invariant
            vstd::string::is_ascii(id),
            n == id@.len(),
            from <= i <= n,
            forall|j: int| from <= j < i ==> is_hex(#[trigger] id@[j]),
        decreases n - i,
    {
        let b: u8 = id.get_ascii(i);
        if !((b >= 0x61 && b <= 0x66) || (b >= 0x30 && b <= 0x39)) {
            return false;
        }
        i += 1;
    }
    true
}

/// A text that holds a character beyond ASCII is no implicit account.
proof fn lemma_implicit_is_ascii(id: Seq<char>)
    requires
        spec_is_eth_implicit(id) || spec_is_near_implicit(id),
    ensures
        vstd::utf8::is_ascii_chars(id),
        encode_utf8(id).len() == id.len(),
{
    assert forall|i: int| 0 <= i < id.len() implies '\0' <= #[trigger] id[i] <= '\u{7f}' by {
        if spec_is_eth_implicit(id) && i >= 2 {
            assert(is_hex(id[i]));
        }
        if spec_is_near_implicit(id) {
            assert(is_hex(id[i]));
        }
    }
    vstd::utf8::is_ascii_chars_encode_utf8(id);
}

/// Whether `id` is an implicit Ethereum account.
pub fn is_eth_implicit(id: &str) -> (r: bool)
    ensures
        r == spec_is_eth_implicit(id@),
{
    if !id.is_ascii() {
        proof {
            if spec_is_eth_implicit(id@) {
                lemma_implicit_is_ascii(id@);
            }
        }
        return false;
    }
    id.unicode_len() == 42 && id.get_ascii(0) == 0x30 && id.get_ascii(1) == 0x78 && all_hex(id, 2)
}

/// Whether `id` is an implicit NEAR account.
pub fn is_near_implicit(id: &str) -> (r: bool)
    ensures
        r == spec_is_near_implicit(id@),
{
    if !id.is_ascii() {
        proof {
            if spec_is_near_implicit(id@) {
                lemma_implicit_is_ascii(id@);
            }
        }
        return false;
    }
    id.unicode_len() == 64 && all_hex(id, 0)
}

/// Where no character is out of place, none is found.
proof fn lemma_no_fault(s: Seq<char>, from: int)
    requires
        0 <= from,
        forall|i: int| from <= i < s.len() ==> !fault_at(s, i),
    ensures
        first_fault(s, from) is None,
    decreases s.len() - from,
{
    if from < s.len() {
        lemma_no_fault(s, from + 1);
    }
}

/// Every implicit account is a valid identifier.
pub proof fn lemma_implicit_is_valid(id: Seq<char>)
    requires
        spec_is_eth_implicit(id) || spec_is_near_implicit(id),
    ensures
        spec_validate_name(id) is Ok,
{
    lemma_implicit_is_ascii(id);
    assert forall|i: int| 0 <= i < id.len() implies !fault_at(id, i) by {
        if spec_is_eth_implicit(id) && i >= 2 {
            assert(is_hex(id[i]));
        }
        if spec_is_near_implicit(id) {
            assert(is_hex(id[i]));
        }
    }
    lemma_no_fault(id, 0);
    assert(is_hex(id.last()));
}

/// The namespace that `new` files a text under, and the text that it
/// keeps of it: what stands before the account of ArtSpot, or the whole
/// text.
pub open spec fn spec_classify(id: Seq<char>) -> (Seq<char>, IdType) {
    if spec_ends_with(id, Id::ARTSPOT_ID@) {
        (without_last(id, Id::ARTSPOT_ID@.len()), IdType::ArtSpot)
    } else if spec_ends_with(id, Id::NEAR_ID@) || spec_is_near_implicit(id) {
        (id, IdType::Near)
    } else if spec_is_eth_implicit(id) {
        (id, IdType::Ethereum)
    } else if id.contains('.') {
        (id, IdType::Other)
    } else {
        (id, IdType::ArtSpot)
    }
}

/// What `new` refuses a text for, if it does: what is wrong with the text
/// that it would keep.
pub open spec fn spec_new_error(id: Seq<char>) -> Option<IdError> {
    match spec_validate_name(spec_classify(id).0) {
        Ok(_) => None,
        Err(e) => Some(e),
    }
}

/// A byte that may stand in the name of a NEAR account without being a
/// separator: a lower case letter or a digit.
pub open spec fn is_account_plain(b: u8) -> bool {
    (0x61 <= b && b <= 0x7a) || (0x30 <= b && b <= 0x39)
}

/// A byte that separates the parts of the name of a NEAR account: `-`, `_`
/// or `.`.
pub open spec fn is_account_separator(b: u8) -> bool {
    b == 0x2d || b == 0x5f || b == 0x2e
}

/// Whether the bytes are the name of a NEAR account: 2 to 64 bytes, lower
/// case letters, digits and separators only, no separator at either end
/// and no two in a row.
pub open spec fn spec_valid_account_id(bytes: Seq<u8>) -> bool {
    &&& 2 <= bytes.len() <= 64
    &&& forall|i: int|
        0 <= i < bytes.len() ==> is_account_plain(#[trigger] bytes[i]) || is_account_separator(
            bytes[i],
        )
    &&& forall|i: int|
        0 <= i < bytes.len() && is_account_separator(#[trigger] bytes[i]) ==> i > 0
            && !is_account_separator(bytes[i - 1])
    &&& !is_account_separator(bytes.last())
}

/// `near_sdk::env::is_valid_account_id`: whether the bytes are the name of
/// a NEAR account. The function checks the length, then walks the bytes
/// once: a byte that is neither plain nor a separator, a separator at the
/// start or after another, and a separator at the end make the name
/// invalid.
#[verifier::external_body]
pub(crate) fn is_valid_account_id(account_id: &[u8]) -> (r: bool)
    ensures
        r == spec_valid_account_id(account_id@),
{
    near_sdk::env::is_valid_account_id(account_id)
}

/// An identifier: a text and the namespace it lives in.
#[derive(Debug)]
pub struct Id(pub String, pub IdType);

impl View for Id {
    type V = Seq<char>;

    open spec fn view(&self) -> Seq<char> {
        self.0@
    }
}

impl Clone for Id {
    fn clone(&self) -> (r: Self)
        ensures
            r == *self,
    {
        Id(self.0.clone(), self.1)
    }
}

impl Id {
    /// The least number of bytes of a name.
    pub const MIN_LENGTH: usize = 2;

    /// The greatest number of bytes of a name.
    pub const MAX_LENGTH: usize = 64;

    /// The account under which ArtSpot keeps its users.
    pub const ARTSPOT_ID: &'static str = "art-spot.near";

    /// The top-level account of NEAR.
    pub const NEAR_ID: &'static str = "near";

    /// Whether `username` ends with the account of ArtSpot.
    pub fn is_art_spot_id(username: &str) -> (r: bool)
        ensures
            r == spec_ends_with(username@, Id::ARTSPOT_ID@),
    {
        ends_with(username, Id::ARTSPOT_ID)
    }

    /// Whether `username` ends with the top-level account of NEAR and not
    /// with the account of ArtSpot.
    pub fn is_near_id(username: &str) -> (r: bool)
        ensures
            r == (!spec_ends_with(username@, Id::ARTSPOT_ID@) && spec_ends_with(username@, Id::NEAR_ID@)),
    {
        !ends_with(username, Id::ARTSPOT_ID) && ends_with(username, Id::NEAR_ID)
    }

    /// Checks an identifier: at least two and at most 64 bytes, made of
    /// lower case letters and digits, with single `-` or `_` between them.
    pub fn validate(id: &str) -> (r: Result<(), IdError>)
        ensures
            r == spec_validate_name(id@),
    {
        validate_name(id)
    }

    /// Whether `id` is a valid identifier.
    pub fn is_valid(id: &str) -> (r: bool)
        ensures
            r == (spec_validate_name(id@) is Ok),
    {
        Self::validate(id).is_ok()
    }

    /// Makes an identifier of `id`. A text that ends with the account of
    /// ArtSpot keeps what stands before it; every other keeps the whole
    /// text. The text kept has to be a valid identifier; an implicit
    /// account always is.
    pub fn new(id: &str) -> (r: Result<Self, IdError>)
        ensures
            match spec_new_error(id@) {
                Some(e) => r is Err && r->Err_0 == e,
                None => r is Ok && r->Ok_0@ == spec_classify(id@).0 && r->Ok_0.1 == spec_classify(
                    id@,
                ).1,
            },
            r is Ok ==> spec_validate_name(r->Ok_0@) is Ok,
    {
        if let Some(name) = strip_suffix(id, Id::ARTSPOT_ID) {
            return match Self::validate(name) {
                Ok(_) => Ok(Id(name.to_owned(), IdType::ArtSpot)),
                Err(e) => Err(e),
            };
        }
        let kind: IdType = if ends_with(id, Id::NEAR_ID) || is_near_implicit(id) {
            IdType::Near
        } else if is_eth_implicit(id) {
            proof {
                lemma_implicit_is_valid(id@);
            }
            return Ok(Id(id.to_owned(), IdType::Ethereum));
        } else if last_index_of(id, '.').is_some() {
            IdType::Other
        } else {
            IdType::ArtSpot
        };
        match Self::validate(id) {
            Ok(_) => Ok(Id(id.to_owned(), kind)),
            Err(e) => Err(e),
        }
    }

    /// The namespace of the identifier.
    pub fn kind(&self) -> (r: IdType)
        ensures
            r == self.1,
    {
        self.1
    }

    /// The name in the identifier: for a NEAR account what stands before
    /// `near`, for an ArtSpot user the whole text, for another account what
    /// stands before its last dot. An account that does not end with `near`
    /// has no name.
    pub open spec fn spec_name(&self) -> Option<Seq<char>> {
        match self.1 {
            IdType::Near => if spec_ends_with(self@, Id::NEAR_ID@) {
                Some(without_last(self@, Id::NEAR_ID@.len()))
            } else {
                None
            },
            IdType::ArtSpot => Some(self@),
            IdType::Other => if self@.contains('.') {
                Some(self@.subrange(0, last_place(self@, '.')))
            } else {
                None
            },
            IdType::NearImplicit => None,
            IdType::Ethereum => None,
        }
    }

    /// The name in the identifier.
    pub fn name(&self) -> (r: Option<&str>)
        ensures
            match self.spec_name() {
                Some(name) => r is Some && r->0@ == name,
                None => r is None,
            },
    {
        match self.1 {
            IdType::Near => strip_suffix(self.0.as_str(), Id::NEAR_ID),
            IdType::ArtSpot => Some(self.0.as_str()),
            IdType::Other => match last_index_of(self.0.as_str(), '.') {
                Some(dot) => Some(self.0.as_str().substring_char(0, dot)),
                None => None,
            },
            IdType::NearImplicit => None,
            IdType::Ethereum => None,
        }
    }

    /// The text of the account behind the identifier: for an ArtSpot user
    /// the name, a dot and the account of ArtSpot, for every other the text
    /// kept.
    pub open spec fn spec_account_text(&self) -> Seq<char> {
        match self.1 {
            IdType::ArtSpot => self@ + "."@ + Id::ARTSPOT_ID@,
            _ => self@,
        }
    }

    /// The name of the account behind the identifier; `None` where the
    /// text is no valid name of a NEAR account.
    pub fn to_account_id(&self) -> (r: Option<String>)
        ensures
            spec_valid_account_id(encode_utf8(self.spec_account_text())) ==> r is Some && r->0@
                == self.spec_account_text(),
            !spec_valid_account_id(encode_utf8(self.spec_account_text())) ==> r is None,
    {
        let account_id: String = match self.1 {
            IdType::ArtSpot => self.0.clone().concat(".").concat(Id::ARTSPOT_ID),
            _ => self.0.clone(),
        };
        if is_valid_account_id(account_id.as_str().as_bytes()) {
            Some(account_id)
        } else {
            None
        }
    }

    /// The text kept.
    pub fn to_string(&self) -> (r: String)
        ensures
            r@ == self@,
    {
        self.0.clone()
    }

    /// The text kept.
    pub fn as_str(&self) -> (r: &str)
        ensures
            r@ == self@,
    {
        self.0.as_str()
    }

    /// The text kept, in UTF-8.
    pub fn as_bytes(&self) -> (r: &[u8])
        ensures
            r@ == encode_utf8(self@),
    {
        self.0.as_str().as_bytes()
    }

    /// The text that an identifier has to have to be the one that `other`
    /// names: `other` itself where it names a NEAR account, and what stands
    /// before the account of ArtSpot where it ends with it. `None` for any
    /// other text.
    pub open spec fn named_by(other: Seq<char>) -> Option<Seq<char>> {
        if !spec_ends_with(other, Id::ARTSPOT_ID@) && spec_ends_with(other, Id::NEAR_ID@) {
            Some(other)
        } else if spec_ends_with(other, Id::ARTSPOT_ID@) {
            Some(without_last(other, Id::ARTSPOT_ID@.len()))
        } else {
            None
        }
    }

    /// Whether the identifier is the one that `other` names; `None` where
    /// `other` names neither a NEAR account nor one of ArtSpot.
    pub fn eq_text(&self, other: &str) -> (r: Option<bool>)
        ensures
            match Self::named_by(other@) {
                Some(name) => r == Some(self@ == name),
                None => r is None,
            },
    {
        if Self::is_near_id(other) {
            Some(same_text(self.0.as_str(), other))
        } else {
            match strip_suffix(other, Id::ARTSPOT_ID) {
                Some(name) => Some(same_text(self.0.as_str(), name)),
                None => None,
            }
        }
    }

    /// Whether two identifiers have the same text, whatever their
    /// namespaces.
    pub fn same_as(&self, other: &Id) -> (r: bool)
        ensures
            r == (self@ == other@),
    {
        same_text(self.0.as_str(), other.0.as_str())
    }
}

impl PartialEq for Id {
    fn eq(&self, other: &Self) -> (r: bool) {
        self.same_as(other)
    }
}

impl vstd::std_specs::cmp::PartialEqSpecImpl for Id {
    open spec fn obeys_eq_spec() -> bool {
        true
    }

    open spec fn eq_spec(&self, other: &Self) -> bool {
        self@ == other@
    }
}

impl From<Id> for String {
    fn from(id: Id) -> (r: String) {
        id.0
    }
}

impl vstd::std_specs::convert::FromSpecImpl<Id> for String {
    open spec fn obeys_from_spec() -> bool {
        true
    }

    open spec fn from_spec(id: Id) -> String {
        id.0
    }
}

} // verus!
