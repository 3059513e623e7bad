//! Versions of a contract: three numbers, and a label for a pre-release or
//! a build where there is one.

use core::cmp::Ordering;
use vstd::prelude::*;
use vstd::string::*;
use vstd::utf8::{decode_utf8, encode_utf8, encode_utf8_decode_utf8, valid_utf8};
use crate::text::{
    byte_index, compare_text, copy_range, decimal, first_byte, first_place, index_of_from,
    lexical_order,
    opt_text, parse_u8, same_text, spec_decimal, spec_parse_u8, string_from_utf8, Order,
};

verus! {

/// A version.
#[derive(Debug)]
pub struct Version {
    pub major: u8,
    pub minor: u8,
    pub patch: u8,
    pub pre: Option<String>,
    pub build: Option<String>,
}

/// A version, as numbers and text.
pub struct VersionView {
    pub major: u8,
    pub minor: u8,
    pub patch: u8,
    pub pre: Option<Seq<char>>,
    pub build: Option<Seq<char>>,
}

/// The order of two numbers.
pub open spec fn number_order(a: u8, b: u8) -> Order {
    if a < b {
        Order::Less
    } else if a > b {
        Order::Greater
    } else {
        Order::Equal
    }
}

impl VersionView {
    /// The text of the version: `v`, the three numbers with dots between
    /// them, then `-` and the pre-release and `+` and the build where there
    /// are any.
    pub open spec fn text(self) -> Seq<char> {
        "v"@ + spec_decimal(self.major as nat) + "."@ + spec_decimal(self.minor as nat) + "."@
            + spec_decimal(self.patch as nat) + (match self.pre {
            Some(pre) => "-"@ + pre,
            None => Seq::empty(),
        }) + (match self.build {
            Some(build) => "+"@ + build,
            None => Seq::empty(),
        })
    }

    /// The bytes of the version: the three numbers, then the labels in
    /// UTF-8.
    pub open spec fn bytes(self) -> Seq<u8> {
        seq![self.major, self.minor, self.patch] + (match self.pre {
            Some(pre) => encode_utf8(pre),
            None => Seq::empty(),
        }) + (match self.build {
            Some(build) => encode_utf8(build),
            None => Seq::empty(),
        })
    }

    /// The order of two versions: by major, minor and patch number; of two
    /// versions with the same numbers a pre-release comes before a release,
    /// and two pre-releases stand as their labels do. Builds do not count.
    pub open spec fn order(self, other: VersionView) -> Order {
        if self.major != other.major {
            number_order(self.major, other.major)
        } else if self.minor != other.minor {
            number_order(self.minor, other.minor)
        } else if self.patch != other.patch {
            number_order(self.patch, other.patch)
        } else if self.pre is Some && other.pre is None {
            Order::Less
        } else if self.pre is None && other.pre is Some {
            Order::Greater
        } else if self.pre is Some && other.pre is Some && self.pre != other.pre {
            lexical_order(encode_utf8(self.pre->0), encode_utf8(other.pre->0))
        } else {
            Order::Equal
        }
    }
}

impl View for Version {
    type V = VersionView;

    open spec fn view(&self) -> VersionView {
        VersionView {
            major: self.major,
            minor: self.minor,
            patch: self.patch,
            pre: opt_text(self.pre),
            build: opt_text(self.build),
        }
    }
}

impl Clone for Version {
    fn clone(&self) -> (r: Self)
        ensures
            r == *self,
    {
        Version {
            major: self.major,
            minor: self.minor,
            patch: self.patch,
            pre: self.pre.clone(),
            build: self.build.clone(),
        }
    }
}

/// Whether a label is there and reads `text`.
fn label_is(label: &Option<String>, text: &str) -> (r: bool)
    ensures
        r == (opt_text(*label) == Some(text@)),
{
    match label {
        Some(l) => same_text(l.as_str(), text),
        None => false,
    }
}

/// Whether two labels are both missing or read the same.
fn same_label(a: &Option<String>, b: &Option<String>) -> (r: bool)
    ensures
        r == (opt_text(*a) == opt_text(*b)),
{
    match a {
        Some(a) => match b {
            Some(b) => same_text(a.as_str(), b.as_str()),
            None => false,
        },
        None => b.is_none(),
    }
}

/// The order of two numbers.
fn order_numbers(a: u8, b: u8) -> (r: Order)
    ensures
        r == number_order(a, b),
{
    if a < b {
        Order::Less
    } else if a > b {
        Order::Greater
    } else {
        Order::Equal
    }
}

impl Version {
    /// The version of the given numbers and labels.
    pub fn new(major: u8, minor: u8, patch: u8, pre: Option<String>, build: Option<String>) -> (r:
        Self)
        ensures
            r == (Version { major, minor, patch, pre, build }),
    {
        Self { major, minor, patch, pre, build }
    }

    /// The release of the given numbers.
    pub fn from_numbers(numbers: (u8, u8, u8)) -> (r: Self)
        ensures
            r == (Version {
                major: numbers.0,
                minor: numbers.1,
                patch: numbers.2,
                pre: None,
                build: None,
            }),
    {
        Self::new(numbers.0, numbers.1, numbers.2, None, None)
    }

    /// The text of the version.
    pub fn to_string(&self) -> (r: String)
        ensures
            r@ == self@.text(),
    {
        let mut version: String = "v".to_owned();
        version.append(decimal(self.major as u128).as_str());
        version.append(".");
        version.append(decimal(self.minor as u128).as_str());
        version.append(".");
        version.append(decimal(self.patch as u128).as_str());
        if let Some(pre) = &self.pre {
            version.append("-");
            version.append(pre.as_str());
        }
        if let Some(build) = &self.build {
            version.append("+");
            version.append(build.as_str());
        }
        version
    }

    /// The text of the version.
    pub fn as_str(&self) -> (r: String)
        ensures
            r@ == self@.text(),
    {
        self.to_string()
    }

    /// The bytes of the version.
    pub fn as_bytes(&self) -> (r: Vec<u8>)
        ensures
            r@ == self@.bytes(),
    {
        let mut bytes: Vec<u8> = Vec::new();
        bytes.push(self.major);
        bytes.push(self.minor);
        bytes.push(self.patch);
        if let Some(pre) = &self.pre {
            let mut text: Vec<u8> = pre.as_str().as_bytes_vec();
            bytes.append(&mut text);
        }
        if let Some(build) = &self.build {
            let mut text: Vec<u8> = build.as_str().as_bytes_vec();
            bytes.append(&mut text);
        }
        bytes
    }

    /// Whether the two versions have the same major and minor number.
    pub fn is_compatible(&self, other: &Self) -> (r: bool)
        ensures
            r == (self.major == other.major && self.minor == other.minor),
    {
        self.major == other.major && self.minor == other.minor
    }

    /// Whether the version is a release.
    pub fn is_stable(&self) -> (r: bool)
        ensures
            r == self.pre is None,
    {
        self.pre.is_none()
    }

    /// Whether the version is a pre-release.
    pub fn is_prerelease(&self) -> (r: bool)
        ensures
            r == self.pre is Some,
    {
        self.pre.is_some()
    }

    /// Whether the version names a build.
    pub fn is_build(&self) -> (r: bool)
        ensures
            r == self.build is Some,
    {
        self.build.is_some()
    }

    /// Whether the version is the pre-release `dev`.
    pub fn is_dev(&self) -> (r: bool)
        ensures
            r == (self@.pre == Some("dev"@)),
    {
        label_is(&self.pre, "dev")
    }

    /// Whether the version is the pre-release `alpha`.
    pub fn is_alpha(&self) -> (r: bool)
        ensures
            r == (self@.pre == Some("alpha"@)),
    {
        label_is(&self.pre, "alpha")
    }

    /// Whether the version is the pre-release `beta`.
    pub fn is_beta(&self) -> (r: bool)
        ensures
            r == (self@.pre == Some("beta"@)),
    {
        label_is(&self.pre, "beta")
    }

    /// Whether the version is the pre-release `rc`.
    pub fn is_rc(&self) -> (r: bool)
        ensures
            r == (self@.pre == Some("rc"@)),
    {
        label_is(&self.pre, "rc")
    }

    /// Whether the version is the build `nightly`.
    pub fn is_nightly(&self) -> (r: bool)
        ensures
            r == (self@.build == Some("nightly"@)),
    {
        label_is(&self.build, "nightly")
    }

    /// Whether the version is the build `ci`.
    pub fn is_ci(&self) -> (r: bool)
        ensures
            r == (self@.build == Some("ci"@)),
    {
        label_is(&self.build, "ci")
    }

    /// Whether the two versions have the same numbers and labels.
    pub fn same_as(&self, other: &Self) -> (r: bool)
        ensures
            r == (self@ == other@),
    {
        self.major == other.major && self.minor == other.minor && self.patch == other.patch
            && same_label(&self.pre, &other.pre) && same_label(&self.build, &other.build)
    }

    /// How the version stands to `other`.
    pub fn compare(&self, other: &Self) -> (r: Order)
        ensures
            r == self@.order(other@),
    {
        if self.major != other.major {
            return order_numbers(self.major, other.major);
        }
        if self.minor != other.minor {
            return order_numbers(self.minor, other.minor);
        }
        if self.patch != other.patch {
            return order_numbers(self.patch, other.patch);
        }
        match &self.pre {
            Some(mine) => match &other.pre {
                None => Order::Less,
                Some(theirs) => if same_text(mine.as_str(), theirs.as_str()) {
                    Order::Equal
                } else {
                    compare_text(mine.as_str(), theirs.as_str())
                },
            },
            None => match &other.pre {
                Some(_) => Order::Greater,
                None => Order::Equal,
            },
        }
    }
}

/// The numbers and the label that `parse` reads from the text after the
/// `v`: what stands before the first `-`, and of that what stands before
/// the first `+`, is cut at its dots into major, minor and patch number; what
/// follows a third dot is the label of the pre-release.
pub open spec fn spec_parse(version: Seq<char>) -> Option<VersionView> {
    if version.len() == 0 || version[0] != 'v' {
        None
    } else {
        let body = version.drop_first();
        let numbers = body.take(first_place(body.take(first_place(body, '-', 0)), '+', 0));
        let dot1 = first_place(numbers, '.', 0);
        let dot2 = first_place(numbers, '.', dot1 + 1);
        let dot3 = first_place(numbers, '.', dot2 + 1);
        if dot1 >= numbers.len() || dot2 >= numbers.len() {
            None
        } else {
            match (
                spec_parse_u8(numbers.subrange(0, dot1)),
                spec_parse_u8(numbers.subrange(dot1 + 1, dot2)),
                spec_parse_u8(numbers.subrange(dot2 + 1, dot3)),
            ) {
                (Some(major), Some(minor), Some(patch)) => Some(
                    VersionView {
                        major,
                        minor,
                        patch,
                        pre: if dot3 < numbers.len() {
                            Some(numbers.subrange(dot3 + 1, numbers.len() as int))
                        } else {
                            None
                        },
                        build: None,
                    },
                ),
                _ => None,
            }
        }
    }
}

impl Version {
    /// Reads a version from its text; `None` for a text that does not start
    /// with `v`, has fewer than three numbers, or a number that is no byte.
    pub fn parse(version: &str) -> (r: Option<Self>)
        ensures
            match spec_parse(version@) {
                Some(v) => r is Some && r->0@ == v,
                None => r is None,
            },
    {
        let n: usize = version.unicode_len();
        if n == 0 || version.get_char(0) != 'v' {
            return None;
        }
        let body: &str = version.substring_char(1, n);
        let dash: usize = index_of_from(body, '-', 0);
        let before_dash: &str = body.substring_char(0, dash);
        let plus: usize = index_of_from(before_dash, '+', 0);
        let numbers: &str = before_dash.substring_char(0, plus);
        assert(numbers@ =~= body@.take(plus as int));
        let len: usize = numbers.unicode_len();
        let dot1: usize = index_of_from(numbers, '.', 0);
        if dot1 >= len {
            return None;
        }
        let dot2: usize = index_of_from(numbers, '.', dot1 + 1);
        if dot2 >= len {
            return None;
        }
        let dot3: usize = index_of_from(numbers, '.', dot2 + 1);
        let major: u8 = match parse_u8(numbers.substring_char(0, dot1)) {
            Some(major) => major,
            None => {
                return None;
            },
        };
        let minor: u8 = match parse_u8(numbers.substring_char(dot1 + 1, dot2)) {
            Some(minor) => minor,
            None => {
                return None;
            },
        };
        let patch: u8 = match parse_u8(numbers.substring_char(dot2 + 1, dot3)) {
            Some(patch) => patch,
            None => {
                return None;
            },
        };
        let pre: Option<String> = if dot3 < len {
            Some(numbers.substring_char(dot3 + 1, len).to_owned())
        } else {
            None
        };
        Some(Self::new(major, minor, patch, pre, None))
    }

    /// Reads a version from its bytes: the three numbers, then the label of
    /// the pre-release from the first `-` on and, before it, the label of
    /// the build from the first `+` on. `None` for fewer than three bytes and
    /// for a label that is not valid UTF-8.
    pub fn from_bytes(bytes: &[u8]) -> (r: Option<Self>)
        ensures
            match spec_from_bytes(bytes@) {
                Some(v) => r is Some && r->0@ == v,
                None => r is None,
            },
    {
        if bytes.len() < 3 {
            return None;
        }
        let rest: Vec<u8> = copy_range(bytes, 3, bytes.len());
        let dash: usize = byte_index(rest.as_slice(), 0x2d, rest.len());
        let plus: usize = byte_index(rest.as_slice(), 0x2b, dash);
        let pre: Option<String> = if dash < rest.len() {
            match string_from_utf8(copy_range(rest.as_slice(), dash, rest.len())) {
                Some(pre) => {
                    proof {
                        encode_utf8_decode_utf8(pre@);
                    }
                    Some(pre)
                },
                None => {
                    return None;
                },
            }
        } else {
            None
        };
        let build: Option<String> = if plus < dash {
            match string_from_utf8(copy_range(rest.as_slice(), plus, dash)) {
                Some(build) => {
                    proof {
                        encode_utf8_decode_utf8(build@);
                    }
                    Some(build)
                },
                None => {
                    return None;
                },
            }
        } else {
            None
        };
        Some(Self::new(bytes[0], bytes[1], bytes[2], pre, build))
    }
}

/// The version that bytes stand for: the first three are the numbers; of
/// the rest, what stands from the first `-` on is the label of the
/// pre-release, and what stands before it from the first `+` on is the label
/// of the build. `None` for fewer than three bytes and for a label that is
/// not valid UTF-8.
pub open spec fn spec_from_bytes(bytes: Seq<u8>) -> Option<VersionView> {
    if bytes.len() < 3 {
        None
    } else {
        let rest = bytes.skip(3);
        let dash = first_byte(rest, 0x2d, 0, rest.len() as int);
        let plus = first_byte(rest, 0x2b, 0, dash);
        let pre = rest.subrange(dash, rest.len() as int);
        let build = rest.subrange(plus, dash);
        if dash < rest.len() && !valid_utf8(pre) {
            None
        } else if plus < dash && !valid_utf8(build) {
            None
        } else {
            Some(
                VersionView {
                    major: bytes[0],
                    minor: bytes[1],
                    patch: bytes[2],
                    pre: if dash < rest.len() {
                        Some(decode_utf8(pre))
                    } else {
                        None
                    },
                    build: if plus < dash {
                        Some(decode_utf8(build))
                    } else {
                        None
                    },
                },
            )
        }
    }
}

/// The order of the standard library that stands for `order`.
pub open spec fn ordering_of(order: Order) -> Ordering {
    match order {
        Order::Less => Ordering::Less,
        Order::Equal => Ordering::Equal,
        Order::Greater => Ordering::Greater,
    }
}

/// The order of the standard library that stands for `order`.
pub fn to_ordering(order: Order) -> (r: Ordering)
    ensures
        r == ordering_of(order),
{
    match order {
        Order::Less => Ordering::Less,
        Order::Equal => Ordering::Equal,
        Order::Greater => Ordering::Greater,
    }
}

impl PartialEq for Version {
    fn eq(&self, other: &Self) -> (r: bool) {
        self.same_as(other)
    }
}

impl vstd::std_specs::cmp::PartialEqSpecImpl for Version {
    open spec fn obeys_eq_spec() -> bool {
        true
    }

    open spec fn eq_spec(&self, other: &Self) -> bool {
        self@ == other@
    }
}

impl PartialOrd for Version {
    fn partial_cmp(&self, other: &Self) -> (r: Option<Ordering>) {
        Some(to_ordering(self.compare(other)))
    }
}

impl vstd::std_specs::cmp::PartialOrdSpecImpl for Version {
    open spec fn obeys_partial_cmp_spec() -> bool {
        true
    }

    open spec fn partial_cmp_spec(&self, other: &Self) -> Option<Ordering> {
        Some(ordering_of(self@.order(other@)))
    }
}

impl From<(u8, u8, u8)> for Version {
    fn from(numbers: (u8, u8, u8)) -> (r: Version) {
        Version::from_numbers(numbers)
    }
}

impl vstd::std_specs::convert::FromSpecImpl<(u8, u8, u8)> for Version {
    open spec fn obeys_from_spec() -> bool {
        true
    }

    open spec fn from_spec(numbers: (u8, u8, u8)) -> Version {
        Version { major: numbers.0, minor: numbers.1, patch: numbers.2, pre: None, build: None }
    }
}

} // verus!
