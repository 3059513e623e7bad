//! Amounts of NEAR, counted in yoctoNEAR.

use vstd::prelude::*;
use vstd::string::*;
use crate::text::{decimal, padded, spec_decimal, spec_padded};

verus! {

/// An amount of NEAR in its smallest unit, the yoctoNEAR.
#[derive(Debug, Clone, Copy, PartialEq, Eq, Structural, PartialOrd, Ord)]
pub struct YoctoNear(pub u128);

impl View for YoctoNear {
    type V = u128;

    open spec fn view(&self) -> u128 {
        self.0
    }
}

impl Default for YoctoNear {
    fn default() -> (r: Self)
        ensures
            r.0 == 0,
    {
        YoctoNear(0)
    }
}

/// `a + b`, held at the top of `u128`.
pub open spec fn spec_saturating_add(a: u128, b: u128) -> u128 {
    if a + b > u128::MAX {
        u128::MAX
    } else {
        (a + b) as u128
    }
}

/// `a - b`, held at zero.
pub open spec fn spec_saturating_sub(a: u128, b: u128) -> u128 {
    if a < b {
        0
    } else {
        (a - b) as u128
    }
}

/// `a * b`, held at the top of `u128`.
pub open spec fn spec_saturating_mul(a: u128, b: u128) -> u128 {
    if a * b > u128::MAX {
        u128::MAX
    } else {
        (a * b) as u128
    }
}

impl YoctoNear {
    /// One NEAR in yoctoNEAR.
    pub const ONE_NEAR: u128 = 1_000_000_000_000_000_000_000_000u128;

    /// One thousandth of a NEAR in yoctoNEAR.
    pub const ONE_MILLINEAR: u128 = 1_000_000_000_000_000_000_000u128;

    /// Wraps a number of yoctoNEAR.
    pub fn new(yocto_near: u128) -> (r: Self)
        ensures
            r.0 == yocto_near,
    {
        Self(yocto_near)
    }

    /// The amount of `near` whole NEAR.
    pub fn from_near(near: u128) -> (r: Self)
        requires
            near * YoctoNear::ONE_NEAR <= u128::MAX,
        ensures
            r.0 == near * YoctoNear::ONE_NEAR,
    {
        Self(near * YoctoNear::ONE_NEAR)
    }

    /// The amount of `millinear` thousandths of a NEAR.
    pub fn from_millinear(millinear: u128) -> (r: Self)
        requires
            millinear * YoctoNear::ONE_MILLINEAR <= u128::MAX,
        ensures
            r.0 == millinear * YoctoNear::ONE_MILLINEAR,
    {
        Self(millinear * YoctoNear::ONE_MILLINEAR)
    }

    /// The number of yoctoNEAR.
    pub fn as_yoctonear(&self) -> (r: u128)
        ensures
            r == self.0,
    {
        self.0
    }

    /// Whole NEAR, rounded down.
    pub fn as_near(&self) -> (r: u128)
        ensures
            r == self.0 / YoctoNear::ONE_NEAR,
    {
        self.0 / YoctoNear::ONE_NEAR
    }

    /// Whole thousandths of a NEAR, rounded down.
    pub fn as_millinear(&self) -> (r: u128)
        ensures
            r == self.0 / YoctoNear::ONE_MILLINEAR,
    {
        self.0 / YoctoNear::ONE_MILLINEAR
    }

    /// The sum, held at `u128::MAX`.
    pub fn saturating_add(self, other: Self) -> (r: Self)
        ensures
            r.0 == spec_saturating_add(self.0, other.0),
    {
        Self(self.0.saturating_add(other.0))
    }

    /// The difference, held at zero.
    pub fn saturating_sub(self, other: Self) -> (r: Self)
        ensures
            r.0 == spec_saturating_sub(self.0, other.0),
    {
        Self(self.0.saturating_sub(other.0))
    }

    /// The product, held at `u128::MAX`.
    pub fn saturating_mul(self, other: u128) -> (r: Self)
        ensures
            r.0 == spec_saturating_mul(self.0, other),
    {
        match self.0.checked_mul(other) {
            Some(product) => Self(product),
            None => Self(u128::MAX),
        }
    }

    /// The quotient, rounded down.
    pub fn saturating_div(self, other: u128) -> (r: Self)
        requires
            other != 0,
        ensures
            r.0 == self.0 / other,
    {
        Self(self.0 / other)
    }

    /// The sum, or `None` if it leaves `u128`.
    pub fn checked_add(self, rhs: Self) -> (r: Option<Self>)
        ensures
            self.0 + rhs.0 <= u128::MAX ==> r == Some(YoctoNear((self.0 + rhs.0) as u128)),
            self.0 + rhs.0 > u128::MAX ==> r is None,
    {
        if let Some(near) = self.0.checked_add(rhs.0) {
            Some(Self(near))
        } else {
            None
        }
    }

    /// The difference, or `None` if it would be negative.
    pub fn checked_sub(self, rhs: Self) -> (r: Option<Self>)
        ensures
            self.0 >= rhs.0 ==> r == Some(YoctoNear((self.0 - rhs.0) as u128)),
            self.0 < rhs.0 ==> r is None,
    {
        if let Some(near) = self.0.checked_sub(rhs.0) {
            Some(Self(near))
        } else {
            None
        }
    }

    /// The product, or `None` if it leaves `u128`.
    pub fn checked_mul(self, rhs: u128) -> (r: Option<Self>)
        ensures
            self.0 * rhs <= u128::MAX ==> r == Some(YoctoNear((self.0 * rhs) as u128)),
            self.0 * rhs > u128::MAX ==> r is None,
    {
        if let Some(near) = self.0.checked_mul(rhs) {
            Some(Self(near))
        } else {
            None
        }
    }

    /// The quotient rounded down, or `None` for a zero divisor.
    pub fn checked_div(self, rhs: u128) -> (r: Option<Self>)
        ensures
            rhs != 0 ==> r == Some(YoctoNear(self.0 / rhs)),
            rhs == 0 ==> r is None,
    {
        if rhs == 0 {
            None
        } else {
            Some(Self(self.0 / rhs))
        }
    }

    /// Whether the amount is zero.
    pub fn is_zero(&self) -> (r: bool)
        ensures
            r == (self.0 == 0),
    {
        self.0 == 0
    }

    /// Whether the amount is not zero.
    pub fn is_some(&self) -> (r: bool)
        ensures
            r == (self.0 != 0),
    {
        self.0 != 0
    }

    /// The number of yoctoNEAR in decimal.
    pub fn to_string(&self) -> (r: String)
        ensures
            r@ == spec_decimal(self.0 as nat),
    {
        decimal(self.0)
    }

    /// The number of yoctoNEAR in decimal, with its unit.
    pub fn to_yocto_string(&self) -> (r: String)
        ensures
            r@ == spec_decimal(self.0 as nat) + " YoctoNEAR"@,
    {
        decimal(self.0).concat(" YoctoNEAR")
    }

    /// The number of whole NEAR in decimal, with its unit.
    pub fn to_near_string(&self) -> (r: String)
        ensures
            r@ == spec_decimal((self.0 / YoctoNear::ONE_NEAR) as nat) + " NEAR"@,
    {
        decimal(self.as_near()).concat(" NEAR")
    }
}

impl YoctoNear {
    /// The amount in NEAR for a reader, rounded up: `0 NEAR` for nothing,
    /// `<0.001 NEAR` below a thousandth, three digits after the point up to
    /// 999 thousandths, two digits above.
    pub open spec fn spec_display(self) -> Seq<char> {
        if self.0 == 0 {
            "0 NEAR"@
        } else if self.0 < YoctoNear::ONE_MILLINEAR {
            "<0.001 NEAR"@
        } else if self.0 <= 999 * YoctoNear::ONE_MILLINEAR {
            "0."@ + spec_padded(
                (spec_saturating_add(self.0, (YoctoNear::ONE_MILLINEAR - 1) as u128) / YoctoNear::ONE_MILLINEAR) as nat,
                3,
            ) + " NEAR"@
        } else {
            let hundredths = spec_saturating_add(self.0, (10 * YoctoNear::ONE_MILLINEAR - 1) as u128)
                / YoctoNear::ONE_MILLINEAR / 10;
            spec_decimal((hundredths / 100) as nat) + "."@ + spec_padded(
                (hundredths % 100) as nat,
                2,
            ) + " NEAR"@
        }
    }

    /// The amount in NEAR for a reader, rounded up.
    pub fn display(&self) -> (r: String)
        ensures
            r@ == self.spec_display(),
    {
        if self.0 == 0 {
            "0 NEAR".to_owned()
        } else if self.0 < YoctoNear::ONE_MILLINEAR {
            "<0.001 NEAR".to_owned()
        } else if self.0 <= 999 * YoctoNear::ONE_MILLINEAR {
            let millinear_rounded_up: u128 = self.0.saturating_add(YoctoNear::ONE_MILLINEAR - 1)
                / YoctoNear::ONE_MILLINEAR;
            let mut text: String = "0.".to_owned();
            text.append(padded(millinear_rounded_up, 3).as_str());
            text.append(" NEAR");
            text
        } else {
            let near_rounded_up: u128 = self.0.saturating_add(10 * YoctoNear::ONE_MILLINEAR - 1)
                / YoctoNear::ONE_MILLINEAR / 10;
            let mut text: String = decimal(near_rounded_up / 100);
            text.append(".");
            text.append(padded(near_rounded_up % 100, 2).as_str());
            text.append(" NEAR");
            text
        }
    }
}

impl From<u128> for YoctoNear {
    fn from(near: u128) -> (r: YoctoNear) {
        YoctoNear(near)
    }
}

impl vstd::std_specs::convert::FromSpecImpl<u128> for YoctoNear {
    open spec fn obeys_from_spec() -> bool {
        true
    }

    open spec fn from_spec(near: u128) -> YoctoNear {
        YoctoNear(near)
    }
}

impl From<YoctoNear> for u128 {
    fn from(yocto_near: YoctoNear) -> (r: u128) {
        yocto_near.0
    }
}

impl vstd::std_specs::convert::FromSpecImpl<YoctoNear> for u128 {
    open spec fn obeys_from_spec() -> bool {
        true
    }

    open spec fn from_spec(yocto_near: YoctoNear) -> u128 {
        yocto_near.0
    }
}

impl core::ops::Add for YoctoNear {
    type Output = YoctoNear;

    fn add(self, rhs: YoctoNear) -> (r: YoctoNear) {
        self.saturating_add(rhs)
    }
}

impl vstd::std_specs::ops::AddSpecImpl for YoctoNear {
    open spec fn obeys_add_spec() -> bool {
        true
    }

    open spec fn add_req(self, rhs: YoctoNear) -> bool {
        true
    }

    open spec fn add_spec(self, rhs: YoctoNear) -> YoctoNear {
        YoctoNear(spec_saturating_add(self.0, rhs.0))
    }
}

impl core::ops::Sub for YoctoNear {
    type Output = YoctoNear;

    fn sub(self, rhs: YoctoNear) -> (r: YoctoNear) {
        self.saturating_sub(rhs)
    }
}

impl vstd::std_specs::ops::SubSpecImpl for YoctoNear {
    open spec fn obeys_sub_spec() -> bool {
        true
    }

    open spec fn sub_req(self, rhs: YoctoNear) -> bool {
        true
    }

    open spec fn sub_spec(self, rhs: YoctoNear) -> YoctoNear {
        YoctoNear(spec_saturating_sub(self.0, rhs.0))
    }
}

impl core::ops::Mul<u128> for YoctoNear {
    type Output = YoctoNear;

    fn mul(self, rhs: u128) -> (r: YoctoNear) {
        self.saturating_mul(rhs)
    }
}

impl vstd::std_specs::ops::MulSpecImpl<u128> for YoctoNear {
    open spec fn obeys_mul_spec() -> bool {
        true
    }

    open spec fn mul_req(self, rhs: u128) -> bool {
        true
    }

    open spec fn mul_spec(self, rhs: u128) -> YoctoNear {
        YoctoNear(spec_saturating_mul(self.0, rhs))
    }
}

impl core::ops::Div<u128> for YoctoNear {
    type Output = YoctoNear;

    fn div(self, rhs: u128) -> (r: YoctoNear) {
        self.saturating_div(rhs)
    }
}

impl vstd::std_specs::ops::DivSpecImpl<u128> for YoctoNear {
    open spec fn obeys_div_spec() -> bool {
        true
    }

    open spec fn div_req(self, rhs: u128) -> bool {
        rhs != 0
    }

    open spec fn div_spec(self, rhs: u128) -> YoctoNear {
        YoctoNear(self.0 / rhs)
    }
}

} // verus!
