//! Q16.16 fixed-point arithmetic on `i32`: no floats anywhere.
use core::cmp::Ordering;
use vstd::prelude::*;
use crate::text::{decimal, pad4, spec_decimal, spec_pad4};
use vstd::arithmetic::div_mod::lemma_fundamental_div_mod_converse;
use vstd::std_specs::cmp::PartialOrdSpecImpl;
use vstd::std_specs::ops::{AddSpecImpl, DivSpecImpl, MulSpecImpl, NegSpecImpl, SubSpecImpl};

verus! {

/// Number of fractional bits in a `Fixed`.
pub const FRAC_BITS: i32 = 16;

/// `2^FRAC_BITS`, the raw value of `1.0`.
pub open spec fn unit() -> int {
    65536
}

/// Integer division rounding toward zero (Rust's `/` on signed integers).
pub open spec fn div_trunc(a: int, b: int) -> int {
    let q = (if a >= 0 { a } else { -a }) / (if b >= 0 { b } else { -b });
    if (a >= 0) == (b >= 0) { q } else { -q }
}

/// The integer part of a raw Q16.16 value, truncated toward zero.
pub open spec fn spec_to_int(raw: i32) -> int {
    div_trunc(raw as int, 65536)
}

/// Raw result of adding two Q16.16 values (two's-complement wrap-around).
pub open spec fn add_raw(a: i32, b: i32) -> i32 {
    vstd::wrapping::i32_specs::wrapping_add(a, b)
}

/// Raw result of subtracting two Q16.16 values (two's-complement wrap-around).
pub open spec fn sub_raw(a: i32, b: i32) -> i32 {
    vstd::wrapping::i32_specs::wrapping_sub(a, b)
}

/// Raw result of a Q16.16 product: the exact product, floored to 16
/// fractional bits, truncated to 32 bits.
pub open spec fn mul_raw(a: i32, b: i32) -> i32 {
    ((a * b) / unit()) as i32
}

/// Raw result of a Q16.16 quotient: rounded toward zero, truncated to 32 bits.
pub open spec fn div_raw(a: i32, b: i32) -> i32 {
    div_trunc(a * unit(), b as int) as i32
}

/// Raw absolute value; `i32::MIN` maps to itself.
pub open spec fn abs_raw(a: i32) -> i32 {
    if a == i32::MIN {
        a
    } else if a < 0 {
        (-a) as i32
    } else {
        a
    }
}

/// Raw result of scaling by a percentage, rounded toward zero.
pub open spec fn mul_pct_raw(a: i32, pct: i32) -> i32 {
    div_trunc(a * pct, 100) as i32
}

/// A Q16.16 fixed-point number.
#[derive(Clone, Copy, PartialEq, Eq, Structural, Hash, Debug)]
pub struct Fixed(pub i32);

impl Fixed {
    /// The number zero.
    pub fn zero() -> (r: Fixed)
        ensures
            r.0 == 0,
    {
        Fixed(0)
    }

    /// The number one.
    pub fn one() -> (r: Fixed)
        ensures
            r.0 == unit(),
    {
        Fixed(65536)
    }

    /// Construct from a whole number of units.
    pub fn from_int(v: i32) -> (r: Fixed)
        ensures
            r.0 == v << 16u32,
            -32768 <= v < 32768 ==> r.0 == v * unit(),
    {
        proof {
            if -32768 <= v < 32768 {
                assert(-32768 <= v < 32768 ==> v << 16u32 == v * 65536) by (bit_vector);
            }
        }
        Fixed(v << 16u32)
    }

    /// Construct from a raw Q16.16 bit pattern.
    pub fn from_raw(v: i32) -> (r: Fixed)
        ensures
            r.0 == v,
    {
        Fixed(v)
    }

    /// The raw Q16.16 bit pattern.
    pub fn raw(self) -> (r: i32)
        ensures
            r == self.0,
    {
        self.0
    }

    /// Integer part, truncated toward zero (so -0.5 reads 0).
    pub fn to_int(self) -> (r: i32)
        ensures
            r == spec_to_int(self.0),
    {
        let x = self.0;
        if x >= 0 {
            (x as u32 / 65536) as i32
        } else {
            let m: u64 = (-(x as i64)) as u64;
            let q: u64 = m / 65536;
            -(q as i32)
        }
    }

    /// Wrapping sum.
    pub fn add(self, other: Fixed) -> (r: Fixed)
        ensures
            r.0 == add_raw(self.0, other.0),
            i32::MIN <= self.0 + other.0 <= i32::MAX ==> r.0 == self.0 + other.0,
    {
        Fixed(self.0.wrapping_add(other.0))
    }

    /// Wrapping difference.
    pub fn sub(self, other: Fixed) -> (r: Fixed)
        ensures
            r.0 == sub_raw(self.0, other.0),
            i32::MIN <= self.0 - other.0 <= i32::MAX ==> r.0 == self.0 - other.0,
    {
        Fixed(self.0.wrapping_sub(other.0))
    }

    /// Product, floored to 16 fractional bits.
    pub fn mul(self, other: Fixed) -> (r: Fixed)
        ensures
            r.0 == mul_raw(self.0, other.0),
    {
        let a = self.0 as i64;
        let b = other.0 as i64;
        assert(-0x4000_0000_0000_0000 <= a * b <= 0x4000_0000_0000_0000) by (nonlinear_arith)
            requires
                -0x8000_0000 <= a <= 0x7fff_ffff,
                -0x8000_0000 <= b <= 0x7fff_ffff,
        ;
        let p = a * b;
        assert(p >> 16u32 == p / 65536) by (bit_vector);
        Fixed((p >> 16u32) as i32)
    }

    /// Quotient, rounded toward zero.
    pub fn div(self, other: Fixed) -> (r: Fixed)
        requires
            other.0 != 0,
        ensures
            r.0 == div_raw(self.0, other.0),
    {
        let x = self.0 as i64;
        assert(x << 16u32 == x * 65536) by (bit_vector)
            requires
                -0x8000_0000 <= x <= 0x7fff_ffff,
        ;
        let a = x << 16u32;
        let b = other.0 as i64;
        // Rust's `/` truncates toward zero; split on the divisor's sign.
        let q = if b > 0 {
            a / b
        } else {
            -(a / (-b))
        };
        assert(q == div_trunc(a as int, b as int));
        Fixed(#[verifier::truncate] (q as i32))
    }

    /// Absolute value; `i32::MIN` stays `i32::MIN` (wrapping).
    pub fn abs(self) -> (r: Fixed)
        ensures
            r.0 == abs_raw(self.0),
    {
        if self.0 == i32::MIN {
            self
        } else if self.0 < 0 {
            Fixed(-self.0)
        } else {
            self
        }
    }

    /// Three-way comparison of the represented values.
    pub fn cmp(self, other: Fixed) -> (r: Ordering)
        ensures
            (r == Ordering::Less) == (self.0 < other.0),
            (r == Ordering::Equal) == (self.0 == other.0),
            (r == Ordering::Greater) == (self.0 > other.0),
    {
        if self.0 < other.0 {
            Ordering::Less
        } else if self.0 == other.0 {
            Ordering::Equal
        } else {
            Ordering::Greater
        }
    }

    /// The smaller of the two values.
    pub fn min(self, other: Fixed) -> (r: Fixed)
        ensures
            r == (if self.0 < other.0 { self } else { other }),
    {
        if self.0 < other.0 {
            self
        } else {
            other
        }
    }

    /// The larger of the two values.
    pub fn max(self, other: Fixed) -> (r: Fixed)
        ensures
            r == (if self.0 > other.0 { self } else { other }),
    {
        if self.0 > other.0 {
            self
        } else {
            other
        }
    }

    /// `self.max(lo).min(hi)`.
    pub fn clamp(self, lo: Fixed, hi: Fixed) -> (r: Fixed)
        ensures
            r.0 == clamp_raw(self.0, lo.0, hi.0),
    {
        self.max(lo).min(hi)
    }

    /// Whether the value is below zero.
    pub fn is_negative(self) -> (r: bool)
        ensures
            r == (self.0 < 0),
    {
        self.0 < 0
    }

    /// -1, 0 or 1 according to the sign.
    pub fn signum(self) -> (r: i32)
        ensures
            r == (if self.0 < 0 { -1int } else if self.0 == 0 { 0int } else { 1int }),
    {
        if self.0 < 0 {
            -1
        } else if self.0 == 0 {
            0
        } else {
            1
        }
    }

    /// Scale by `pct / 100`, rounding toward zero.
    pub fn mul_pct(self, pct: i32) -> (r: Fixed)
        ensures
            r.0 == mul_pct_raw(self.0, pct),
    {
        let a = self.0 as i64;
        let b = pct as i64;
        assert(-0x4000_0000_0000_0000 <= a * b <= 0x4000_0000_0000_0000) by (nonlinear_arith)
            requires
                -0x8000_0000 <= a <= 0x7fff_ffff,
                -0x8000_0000 <= b <= 0x7fff_ffff,
        ;
        let p = a * b;
        let q = p / 100;
        Fixed(#[verifier::truncate] (q as i32))
    }

    /// Negation; `i32::MIN` has no negation.
    pub fn neg(self) -> (r: Fixed)
        requires
            self.0 != i32::MIN,
        ensures
            r.0 == -self.0,
    {
        Fixed(-self.0)
    }
}

/// Raw result of `clamp`: `max(lo)` then `min(hi)`.
pub open spec fn clamp_raw(v: i32, lo: i32, hi: i32) -> i32 {
    let m = if v > lo { v } else { lo };
    if m < hi { m } else { hi }
}

/// The text of a value: its integer part rounded down, a point, and the
/// first four decimal digits of what remains of it.
pub open spec fn spec_fixed_text(raw: i32) -> Seq<char> {
    let whole = raw as int / 65536;
    let frac = (raw as int % 65536) * 10000 / 65536;
    let int_part = if whole < 0 {
        seq!['-'] + spec_decimal((-whole) as nat)
    } else {
        spec_decimal(whole as nat)
    };
    int_part + seq!['.'] + spec_pad4(frac as nat)
}

impl Fixed {
    /// The value as text: its integer part rounded down, a point, and four
    /// decimal digits of the rest (so -1.5 reads `-2.5000`).
    pub fn to_decimal(&self) -> (s: String)
        ensures
            s@ == spec_fixed_text(self.0),
    {
        let u: u64 = (self.0 as i64 + 2147483648i64) as u64;
        let q: u64 = u / 65536;
        let rem: u64 = u % 65536;
        proof {
            lemma_fundamental_div_mod_converse(self.0 as int, 65536, q - 32768, rem as int);
        }
        let frac: u32 = (rem * 10000 / 65536) as u32;
        proof {
            reveal_strlit("-");
            reveal_strlit(".");
        }
        let mut s = if q < 32768 {
            let mut t = String::from_str("-");
            let mag = decimal((32768 - q) as u32);
            t.append(mag.as_str());
            t
        } else {
            decimal((q - 32768) as u32)
        };
        s.append(".");
        let f = pad4(frac);
        s.append(f.as_str());
        s
    }
}

impl core::default::Default for Fixed {
    fn default() -> (r: Fixed)
        ensures
            r.0 == 0,
    {
        Fixed(0)
    }
}

impl core::ops::Add for Fixed {
    type Output = Fixed;

    fn add(self, rhs: Fixed) -> (r: Fixed) {
        Fixed(self.0.wrapping_add(rhs.0))
    }
}

impl AddSpecImpl for Fixed {
    open spec fn obeys_add_spec() -> bool {
        true
    }

    open spec fn add_req(self, rhs: Fixed) -> bool {
        true
    }

    open spec fn add_spec(self, rhs: Fixed) -> Fixed {
        Fixed(add_raw(self.0, rhs.0))
    }
}

impl core::ops::AddAssign for Fixed {
    fn add_assign(&mut self, rhs: Fixed)
        ensures
            final(self).0 == add_raw(old(self).0, rhs.0),
    {
        self.0 = self.0.wrapping_add(rhs.0);
    }
}

impl core::ops::SubAssign for Fixed {
    fn sub_assign(&mut self, rhs: Fixed)
        ensures
            final(self).0 == sub_raw(old(self).0, rhs.0),
    {
        self.0 = self.0.wrapping_sub(rhs.0);
    }
}

impl core::ops::Sub for Fixed {
    type Output = Fixed;

    fn sub(self, rhs: Fixed) -> (r: Fixed) {
        Fixed(self.0.wrapping_sub(rhs.0))
    }
}

impl SubSpecImpl for Fixed {
    open spec fn obeys_sub_spec() -> bool {
        true
    }

    open spec fn sub_req(self, rhs: Fixed) -> bool {
        true
    }

    open spec fn sub_spec(self, rhs: Fixed) -> Fixed {
        Fixed(sub_raw(self.0, rhs.0))
    }
}

impl core::ops::Mul for Fixed {
    type Output = Fixed;

    fn mul(self, rhs: Fixed) -> (r: Fixed) {
        Fixed::mul(self, rhs)
    }
}

impl MulSpecImpl for Fixed {
    open spec fn obeys_mul_spec() -> bool {
        true
    }

    open spec fn mul_req(self, rhs: Fixed) -> bool {
        true
    }

    open spec fn mul_spec(self, rhs: Fixed) -> Fixed {
        Fixed(mul_raw(self.0, rhs.0))
    }
}

impl core::ops::Div for Fixed {
    type Output = Fixed;

    fn div(self, rhs: Fixed) -> (r: Fixed) {
        Fixed::div(self, rhs)
    }
}

impl DivSpecImpl for Fixed {
    open spec fn obeys_div_spec() -> bool {
        true
    }

    open spec fn div_req(self, rhs: Fixed) -> bool {
        rhs.0 != 0
    }

    open spec fn div_spec(self, rhs: Fixed) -> Fixed {
        Fixed(div_raw(self.0, rhs.0))
    }
}

impl core::ops::Neg for Fixed {
    type Output = Fixed;

    fn neg(self) -> (r: Fixed) {
        Fixed::neg(self)
    }
}

impl NegSpecImpl for Fixed {
    open spec fn obeys_neg_spec() -> bool {
        true
    }

    open spec fn neg_req(self) -> bool {
        self.0 != i32::MIN
    }

    open spec fn neg_spec(self) -> Fixed {
        Fixed((-self.0) as i32)
    }
}

impl PartialOrd for Fixed {
    fn partial_cmp(&self, other: &Fixed) -> (r: Option<Ordering>) {
        if self.0 < other.0 {
            Some(Ordering::Less)
        } else if self.0 == other.0 {
            Some(Ordering::Equal)
        } else {
            Some(Ordering::Greater)
        }
    }
}

impl PartialOrdSpecImpl for Fixed {
    open spec fn obeys_partial_cmp_spec() -> bool {
        true
    }

    open spec fn partial_cmp_spec(&self, other: &Fixed) -> Option<Ordering> {
        if self.0 < other.0 {
            Some(Ordering::Less)
        } else if self.0 == other.0 {
            Some(Ordering::Equal)
        } else {
            Some(Ordering::Greater)
        }
    }
}

/// A 2-D vector of fixed-point components.
#[derive(Clone, Copy, PartialEq, Eq, Structural, Hash, Debug)]
pub struct Vec2 {
    pub x: Fixed,
    pub y: Fixed,
}

impl Vec2 {
    /// The zero vector.
    pub fn zero() -> (r: Vec2)
        ensures
            r.x.0 == 0 && r.y.0 == 0,
    {
        Vec2 { x: Fixed(0), y: Fixed(0) }
    }

    /// Build from components.
    pub fn new(x: Fixed, y: Fixed) -> (r: Vec2)
        ensures
            r.x == x && r.y == y,
    {
        Vec2 { x, y }
    }

    /// Component-wise wrapping sum.
    pub fn plus(self, other: Vec2) -> (r: Vec2)
        ensures
            r.x.0 == add_raw(self.x.0, other.x.0),
            r.y.0 == add_raw(self.y.0, other.y.0),
    {
        Vec2 { x: self.x.add(other.x), y: self.y.add(other.y) }
    }
}

impl core::default::Default for Vec2 {
    fn default() -> (r: Vec2)
        ensures
            r.x.0 == 0 && r.y.0 == 0,
    {
        Vec2 { x: Fixed(0), y: Fixed(0) }
    }
}

impl core::ops::Add for Vec2 {
    type Output = Vec2;

    fn add(self, rhs: Vec2) -> (r: Vec2) {
        self.plus(rhs)
    }
}

impl AddSpecImpl for Vec2 {
    open spec fn obeys_add_spec() -> bool {
        true
    }

    open spec fn add_req(self, rhs: Vec2) -> bool {
        true
    }

    open spec fn add_spec(self, rhs: Vec2) -> Vec2 {
        Vec2 { x: Fixed(add_raw(self.x.0, rhs.x.0)), y: Fixed(add_raw(self.y.0, rhs.y.0)) }
    }
}

impl core::ops::Sub for Vec2 {
    type Output = Vec2;

    fn sub(self, rhs: Vec2) -> (r: Vec2) {
        Vec2 { x: self.x.sub(rhs.x), y: self.y.sub(rhs.y) }
    }
}

impl SubSpecImpl for Vec2 {
    open spec fn obeys_sub_spec() -> bool {
        true
    }

    open spec fn sub_req(self, rhs: Vec2) -> bool {
        true
    }

    open spec fn sub_spec(self, rhs: Vec2) -> Vec2 {
        Vec2 { x: Fixed(sub_raw(self.x.0, rhs.x.0)), y: Fixed(sub_raw(self.y.0, rhs.y.0)) }
    }
}

} // verus!
