//! Exact unsigned quantities accepted by resource accounting.

use vstd::prelude::*;

verus! {

/// A native measurement that could not be represented by a quantity type.
#[derive(Debug, Clone, Copy, PartialEq, Eq)]
pub enum QuantityMeasurement {
    /// A length reported as `usize` by a string, collection or Serde API.
    Usize(usize),
    /// A measurement reported as `u64`.
    U64(u64),
}

/// A native measurement could not be converted into the budget's quantity
/// type without truncation.
#[derive(Debug, Clone, Copy, PartialEq, Eq)]
pub struct QuantityConversionError {
    /// Measurement that did not fit.
    measurement: QuantityMeasurement,
    /// Name of the quantity type that could not hold it.
    target: &'static str,
}

impl QuantityConversionError {
    /// The measurement that did not fit.
    pub closed spec fn spec_measurement(self) -> QuantityMeasurement {
        self.measurement
    }

    /// The name of the quantity type that could not hold the measurement.
    pub closed spec fn spec_target(self) -> Seq<char> {
        self.target@
    }

    /// Creates a conversion failure for `measurement` and the quantity type
    /// named `target`.
    pub fn new(measurement: QuantityMeasurement, target: &'static str) -> (error: Self)
        ensures
            error.spec_measurement() == measurement,
            error.spec_target() == target@,
    {
        Self { measurement, target }
    }

    /// Returns the measurement that did not fit.
    pub fn measurement(&self) -> (measurement: QuantityMeasurement)
        ensures
            measurement == self.spec_measurement(),
    {
        self.measurement
    }

    /// Returns the name of the quantity type that could not hold the
    /// measurement.
    pub fn target(&self) -> (target: &'static str)
        ensures
            target@ == self.spec_target(),
    {
        self.target
    }
}

/// Restricts [`ResourceQuantity`] to the unsigned integer types of this
/// crate.
pub trait ResourceQuantitySealed {}

/// An exact, non-negative quantity accepted by resource budgets and pools.
///
/// Implementations are limited to Rust's unsigned integer types, so the
/// accounting never meets signed values, `NaN`, infinities or rounding.
/// Every value denotes the natural number [`ResourceQuantity::as_nat`].
pub trait ResourceQuantity: ResourceQuantitySealed + Copy + Sized {
    /// The natural number denoted by this quantity.
    spec fn as_nat(self) -> nat;

    /// The largest natural number this quantity type can hold.
    spec fn max_nat() -> nat;

    /// The name of this quantity type, as reported in conversion errors.
    spec fn quantity_name() -> Seq<char>;

    /// Every quantity lies in `0..=max_nat()`.
    proof fn lemma_in_range(self)
        ensures
            self.as_nat() <= Self::max_nat(),
    ;

    /// Two quantities denoting the same number are the same value.
    proof fn lemma_injective(self, other: Self)
        ensures
            self.as_nat() == other.as_nat() ==> self == other,
    ;

    /// The additive identity.
    fn zero() -> (zero: Self)
        ensures
            zero.as_nat() == 0,
    ;

    /// The unit quantity.
    fn one() -> (one: Self)
        ensures
            one.as_nat() == 1,
    ;

    /// Adds two quantities when their sum is representable.
    fn checked_add(self, other: Self) -> (sum: Option<Self>)
        ensures
            match sum {
                Some(s) => s.as_nat() == self.as_nat() + other.as_nat(),
                None => self.as_nat() + other.as_nat() > Self::max_nat(),
            },
    ;

    /// Subtracts a quantity that is not larger than `self`.
    fn subtract(self, other: Self) -> (difference: Self)
        requires
            other.as_nat() <= self.as_nat(),
        ensures
            difference.as_nat() == self.as_nat() - other.as_nat(),
    ;

    /// Returns whether `self` is at most `other`.
    fn le(self, other: Self) -> (result: bool)
        ensures
            result == (self.as_nat() <= other.as_nat()),
    ;

    /// Converts one Rust-native length into this quantity without
    /// truncation.
    fn try_from_usize(value: usize) -> (result: Result<Self, QuantityConversionError>)
        ensures
            match result {
                Ok(q) => value <= Self::max_nat() && q.as_nat() == value,
                Err(e) => value > Self::max_nat() && e.spec_measurement()
                    == QuantityMeasurement::Usize(value) && e.spec_target() == Self::quantity_name(),
            },
    ;

    /// Converts one 64-bit measurement into this quantity without
    /// truncation.
    fn try_from_u64(value: u64) -> (result: Result<Self, QuantityConversionError>)
        ensures
            match result {
                Ok(q) => value <= Self::max_nat() && q.as_nat() == value,
                Err(e) => value > Self::max_nat() && e.spec_measurement()
                    == QuantityMeasurement::U64(value) && e.spec_target() == Self::quantity_name(),
            },
    ;
}

impl ResourceQuantitySealed for u8 {}

impl ResourceQuantity for u8 {
    open spec fn as_nat(self) -> nat {
        self as nat
    }

    open spec fn max_nat() -> nat {
        u8::MAX as nat
    }

    open spec fn quantity_name() -> Seq<char> {
        "u8"@
    }

    proof fn lemma_in_range(self) {
    }

    proof fn lemma_injective(self, other: Self) {
    }

    fn zero() -> (zero: Self) {
        0
    }

    fn one() -> (one: Self) {
        1
    }

    fn checked_add(self, other: Self) -> (sum: Option<Self>) {
        u8::checked_add(self, other)
    }

    fn subtract(self, other: Self) -> (difference: Self) {
        self - other
    }

    fn le(self, other: Self) -> (result: bool) {
        self <= other
    }

    fn try_from_usize(value: usize) -> (result: Result<Self, QuantityConversionError>) {
        if (value as u128) <= (u8::MAX as u128) {
            Ok(value as u8)
        } else {
            Err(QuantityConversionError::new(QuantityMeasurement::Usize(value), "u8"))
        }
    }

    fn try_from_u64(value: u64) -> (result: Result<Self, QuantityConversionError>) {
        if (value as u128) <= (u8::MAX as u128) {
            Ok(value as u8)
        } else {
            Err(QuantityConversionError::new(QuantityMeasurement::U64(value), "u8"))
        }
    }
}

impl ResourceQuantitySealed for u16 {}

impl ResourceQuantity for u16 {
    open spec fn as_nat(self) -> nat {
        self as nat
    }

    open spec fn max_nat() -> nat {
        u16::MAX as nat
    }

    open spec fn quantity_name() -> Seq<char> {
        "u16"@
    }

    proof fn lemma_in_range(self) {
    }

    proof fn lemma_injective(self, other: Self) {
    }

    fn zero() -> (zero: Self) {
        0
    }

    fn one() -> (one: Self) {
        1
    }

    fn checked_add(self, other: Self) -> (sum: Option<Self>) {
        u16::checked_add(self, other)
    }

    fn subtract(self, other: Self) -> (difference: Self) {
        self - other
    }

    fn le(self, other: Self) -> (result: bool) {
        self <= other
    }

    fn try_from_usize(value: usize) -> (result: Result<Self, QuantityConversionError>) {
        if (value as u128) <= (u16::MAX as u128) {
            Ok(value as u16)
        } else {
            Err(QuantityConversionError::new(QuantityMeasurement::Usize(value), "u16"))
        }
    }

    fn try_from_u64(value: u64) -> (result: Result<Self, QuantityConversionError>) {
        if (value as u128) <= (u16::MAX as u128) {
            Ok(value as u16)
        } else {
            Err(QuantityConversionError::new(QuantityMeasurement::U64(value), "u16"))
        }
    }
}

impl ResourceQuantitySealed for u32 {}

impl ResourceQuantity for u32 {
    open spec fn as_nat(self) -> nat {
        self as nat
    }

    open spec fn max_nat() -> nat {
        u32::MAX as nat
    }

    open spec fn quantity_name() -> Seq<char> {
        "u32"@
    }

    proof fn lemma_in_range(self) {
    }

    proof fn lemma_injective(self, other: Self) {
    }

    fn zero() -> (zero: Self) {
        0
    }

    fn one() -> (one: Self) {
        1
    }

    fn checked_add(self, other: Self) -> (sum: Option<Self>) {
        u32::checked_add(self, other)
    }

    fn subtract(self, other: Self) -> (difference: Self) {
        self - other
    }

    fn le(self, other: Self) -> (result: bool) {
        self <= other
    }

    fn try_from_usize(value: usize) -> (result: Result<Self, QuantityConversionError>) {
        if (value as u128) <= (u32::MAX as u128) {
            Ok(value as u32)
        } else {
            Err(QuantityConversionError::new(QuantityMeasurement::Usize(value), "u32"))
        }
    }

    fn try_from_u64(value: u64) -> (result: Result<Self, QuantityConversionError>) {
        if (value as u128) <= (u32::MAX as u128) {
            Ok(value as u32)
        } else {
            Err(QuantityConversionError::new(QuantityMeasurement::U64(value), "u32"))
        }
    }
}

impl ResourceQuantitySealed for u64 {}

impl ResourceQuantity for u64 {
    open spec fn as_nat(self) -> nat {
        self as nat
    }

    open spec fn max_nat() -> nat {
        u64::MAX as nat
    }

    open spec fn quantity_name() -> Seq<char> {
        "u64"@
    }

    proof fn lemma_in_range(self) {
    }

    proof fn lemma_injective(self, other: Self) {
    }

    fn zero() -> (zero: Self) {
        0
    }

    fn one() -> (one: Self) {
        1
    }

    fn checked_add(self, other: Self) -> (sum: Option<Self>) {
        u64::checked_add(self, other)
    }

    fn subtract(self, other: Self) -> (difference: Self) {
        self - other
    }

    fn le(self, other: Self) -> (result: bool) {
        self <= other
    }

    fn try_from_usize(value: usize) -> (result: Result<Self, QuantityConversionError>) {
        if (value as u128) <= (u64::MAX as u128) {
            Ok(value as u64)
        } else {
            Err(QuantityConversionError::new(QuantityMeasurement::Usize(value), "u64"))
        }
    }

    fn try_from_u64(value: u64) -> (result: Result<Self, QuantityConversionError>) {
        Ok(value as u64)
    }
}

impl ResourceQuantitySealed for u128 {}

impl ResourceQuantity for u128 {
    open spec fn as_nat(self) -> nat {
        self as nat
    }

    open spec fn max_nat() -> nat {
        u128::MAX as nat
    }

    open spec fn quantity_name() -> Seq<char> {
        "u128"@
    }

    proof fn lemma_in_range(self) {
    }

    proof fn lemma_injective(self, other: Self) {
    }

    fn zero() -> (zero: Self) {
        0
    }

    fn one() -> (one: Self) {
        1
    }

    fn checked_add(self, other: Self) -> (sum: Option<Self>) {
        u128::checked_add(self, other)
    }

    fn subtract(self, other: Self) -> (difference: Self) {
        self - other
    }

    fn le(self, other: Self) -> (result: bool) {
        self <= other
    }

    fn try_from_usize(value: usize) -> (result: Result<Self, QuantityConversionError>) {
        Ok(value as u128)
    }

    fn try_from_u64(value: u64) -> (result: Result<Self, QuantityConversionError>) {
        Ok(value as u128)
    }
}

impl ResourceQuantitySealed for usize {}

impl ResourceQuantity for usize {
    open spec fn as_nat(self) -> nat {
        self as nat
    }

    open spec fn max_nat() -> nat {
        usize::MAX as nat
    }

    open spec fn quantity_name() -> Seq<char> {
        "usize"@
    }

    proof fn lemma_in_range(self) {
    }

    proof fn lemma_injective(self, other: Self) {
    }

    fn zero() -> (zero: Self) {
        0
    }

    fn one() -> (one: Self) {
        1
    }

    fn checked_add(self, other: Self) -> (sum: Option<Self>) {
        usize::checked_add(self, other)
    }

    fn subtract(self, other: Self) -> (difference: Self) {
        self - other
    }

    fn le(self, other: Self) -> (result: bool) {
        self <= other
    }

    fn try_from_usize(value: usize) -> (result: Result<Self, QuantityConversionError>) {
        Ok(value as usize)
    }

    fn try_from_u64(value: u64) -> (result: Result<Self, QuantityConversionError>) {
        if (value as u128) <= (usize::MAX as u128) {
            Ok(value as usize)
        } else {
            Err(QuantityConversionError::new(QuantityMeasurement::U64(value), "usize"))
        }
    }
}

} // verus!
