//! Temperatures tagged with their unit, converted with integer arithmetic and
//! compared across units.

use std::cmp::Ordering;
use vstd::prelude::*;

use crate::text::{decimal, push_decimal};

verus! {

/// A temperature scale.
#[derive(Debug, Clone, Copy, PartialEq, Eq, Hash, Structural)]
pub enum Unit {
    Celsius,
    Fahrenheit,
    Kelvin,
}

/// The symbol written after a value in `unit`.
pub open spec fn unit_symbol(unit: Unit) -> Seq<char> {
    match unit {
        Unit::Celsius => "°C"@,
        Unit::Fahrenheit => "°F"@,
        Unit::Kelvin => "K"@,
    }
}

/// Division that rounds toward zero, as integer division does at run time.
pub open spec fn div_toward_zero(a: int, d: int) -> int {
    if a >= 0 {
        a / d
    } else {
        -((-a) / d)
    }
}

/// The value `v`, given in `from`, expressed in `to`.
pub open spec fn converted(v: int, from: Unit, to: Unit) -> int {
    match (from, to) {
        (Unit::Kelvin, Unit::Celsius) => v - 273,
        (Unit::Celsius, Unit::Kelvin) => v + 273,
        (Unit::Celsius, Unit::Fahrenheit) => div_toward_zero(v * 9, 5) + 32,
        (Unit::Fahrenheit, Unit::Celsius) => div_toward_zero((v - 32) * 5, 9),
        (Unit::Kelvin, Unit::Fahrenheit) => div_toward_zero(v * 9, 5) - 459,
        (Unit::Fahrenheit, Unit::Kelvin) => div_toward_zero((v + 459) * 5, 9),
        _ => v,
    }
}

impl Unit {
    /// The symbol of the unit: `°C`, `°F` or `K`.
    pub fn to_string(&self) -> (r: String)
        ensures
            r@ == unit_symbol(*self),
    {
        let s = match self {
            Unit::Celsius => "°C",
            Unit::Fahrenheit => "°F",
            Unit::Kelvin => "K",
        };
        s.to_owned()
    }
}

/// A value with its unit. The value is kept exactly as it was given.
#[derive(Debug, Clone, Copy)]
pub struct Temperature(pub i16, pub Unit);

/// `b`'s value brought into `a`'s unit.
pub open spec fn in_unit_of(a: Temperature, b: Temperature) -> int {
    converted(b.0 as int, b.1, a.1)
}

/// `a` is colder than `b`, once `b` is brought into `a`'s unit.
pub open spec fn colder(a: Temperature, b: Temperature) -> bool {
    a.0 < in_unit_of(a, b)
}

/// `a` equals `b`, once `b` is brought into `a`'s unit.
pub open spec fn same(a: Temperature, b: Temperature) -> bool {
    a.0 == in_unit_of(a, b)
}

/// `a` is warmer than `b`, once `b` is brought into `a`'s unit.
pub open spec fn warmer(a: Temperature, b: Temperature) -> bool {
    a.0 > in_unit_of(a, b)
}

/// The order of `a` against `b`, once `b` is brought into `a`'s unit.
pub open spec fn order(a: Temperature, b: Temperature) -> Ordering {
    if colder(a, b) {
        Ordering::Less
    } else if same(a, b) {
        Ordering::Equal
    } else {
        Ordering::Greater
    }
}

/// The text of a temperature: its value, then its unit's symbol.
pub open spec fn temperature_text(t: Temperature) -> Seq<char> {
    decimal(t.0 as int) + unit_symbol(t.1)
}

fn div_toward_zero_exec(a: i32, d: i32) -> (r: i32)
    requires
        d > 0,
        a > i32::MIN,
    ensures
        r == div_toward_zero(a as int, d as int),
{
    if a >= 0 {
        a / d
    } else {
        -((-a) / d)
    }
}

impl Temperature {
    pub fn new(val: i16, unit: Unit) -> (r: Temperature)
        ensures
            r.0 == val,
            r.1 == unit,
    {
        Temperature(val, unit)
    }

    pub fn unit(&self) -> (r: Unit)
        ensures
            r == self.1,
    {
        self.1
    }

    pub fn val(&self) -> (r: i16)
        ensures
            r == self.0,
    {
        self.0
    }

    /// The value expressed in `unit`, wide enough for every value and unit.
    pub fn value_in(&self, unit: Unit) -> (r: i32)
        ensures
            r == converted(self.0 as int, self.1, unit),
    {
        let v = self.0 as i32;
        match (self.1, unit) {
            (Unit::Kelvin, Unit::Celsius) => v - 273,
            (Unit::Celsius, Unit::Kelvin) => v + 273,
            (Unit::Celsius, Unit::Fahrenheit) => div_toward_zero_exec(v * 9, 5) + 32,
            (Unit::Fahrenheit, Unit::Celsius) => div_toward_zero_exec((v - 32) * 5, 9),
            (Unit::Kelvin, Unit::Fahrenheit) => div_toward_zero_exec(v * 9, 5) - 459,
            (Unit::Fahrenheit, Unit::Kelvin) => div_toward_zero_exec((v + 459) * 5, 9),
            _ => v,
        }
    }

    /// The same temperature in `unit`, rounded toward zero; the identity
    /// where `unit` is already the temperature's own.
    pub fn as_unit(self, unit: Unit) -> (r: Temperature)
        requires
            i16::MIN <= converted(self.0 as int, self.1, unit) <= i16::MAX,
        ensures
            r.0 == converted(self.0 as int, self.1, unit),
            r.1 == unit,
            unit == self.1 ==> r.0 == self.0,
    {
        let v = self.value_in(unit);
        Temperature(v as i16, unit)
    }

    /// The value followed by the unit's symbol, as in `10°C`.
    pub fn to_string(&self) -> (r: String)
        ensures
            r@ == temperature_text(*self),
    {
        let mut out = String::new();
        push_decimal(&mut out, self.0 as i64);
        let symbol = self.1.to_string();
        out.append(symbol.as_str());
        assert(out@ =~= temperature_text(*self));
        out
    }
}

impl PartialEq for Temperature {
    fn eq(&self, other: &Temperature) -> (r: bool) {
        self.0 as i32 == other.value_in(self.1)
    }
}

impl vstd::std_specs::cmp::PartialEqSpecImpl for Temperature {
    open spec fn obeys_eq_spec() -> bool {
        true
    }

    open spec fn eq_spec(&self, other: &Temperature) -> bool {
        same(*self, *other)
    }
}

impl PartialOrd for Temperature {
    fn partial_cmp(&self, other: &Temperature) -> (r: Option<Ordering>) {
        let mine = self.0 as i32;
        let theirs = other.value_in(self.1);
        if mine < theirs {
            Some(Ordering::Less)
        } else if mine == theirs {
            Some(Ordering::Equal)
        } else {
            Some(Ordering::Greater)
        }
    }
}

impl vstd::std_specs::cmp::PartialOrdSpecImpl for Temperature {
    open spec fn obeys_partial_cmp_spec() -> bool {
        true
    }

    open spec fn partial_cmp_spec(&self, other: &Temperature) -> Option<Ordering> {
        Some(order(*self, *other))
    }
}

proof fn lemma_div_toward_zero(a: int, d: int)
    requires
        d > 0,
    ensures
        a >= 0 ==> 0 <= a - d * div_toward_zero(a, d) < d,
        a < 0 ==> 0 <= d * div_toward_zero(a, d) - a < d,
{
    if a >= 0 {
        vstd::arithmetic::div_mod::lemma_fundamental_div_mod(a, d);
        vstd::arithmetic::div_mod::lemma_mod_bound(a, d);
    } else {
        vstd::arithmetic::div_mod::lemma_fundamental_div_mod(-a, d);
        vstd::arithmetic::div_mod::lemma_mod_bound(-a, d);
        vstd::arithmetic::mul::lemma_mul_unary_negation(d, (-a) / d);
    }
}

/// Converting a value between -100 and 100 into any unit and back lands
/// within two degrees of where it started.
pub proof fn law_round_trip_within_two(v: int, u1: Unit, u2: Unit)
    requires
        -100 <= v <= 100,
    ensures
        -2 <= converted(converted(v, u1, u2), u2, u1) - v <= 2,
{
    lemma_div_toward_zero(v * 9, 5);
    lemma_div_toward_zero((v - 32) * 5, 9);
    lemma_div_toward_zero((v + 459) * 5, 9);
    let c = div_toward_zero((v - 32) * 5, 9);
    let k = div_toward_zero((v + 459) * 5, 9);
    let f = div_toward_zero(v * 9, 5);
    lemma_div_toward_zero(c * 9, 5);
    lemma_div_toward_zero(k * 9, 5);
    lemma_div_toward_zero(f * 5, 9);
    lemma_div_toward_zero((f + 32 - 32) * 5, 9);
    lemma_div_toward_zero((f - 459 + 459) * 5, 9);
}

/// For any two temperatures exactly one holds: the first is colder, the two
/// are equal, or the first is warmer.
pub proof fn law_exactly_one_order(a: Temperature, b: Temperature)
    ensures
        colder(a, b) || same(a, b) || warmer(a, b),
        !(colder(a, b) && same(a, b)),
        !(colder(a, b) && warmer(a, b)),
        !(same(a, b) && warmer(a, b)),
        (order(a, b) == Ordering::Less) == colder(a, b),
        (order(a, b) == Ordering::Equal) == same(a, b),
        (order(a, b) == Ordering::Greater) == warmer(a, b),
{
}

} // verus!
