//! Samples: one channel's amplitude at one instant.
//!
//! A sample is judged in a signed domain whose zero is equilibrium, the
//! value that stands for silence. For the signed integer types that is the
//! sample itself; for the unsigned ones, whose equilibrium is the midpoint of
//! their range, it is the sample moved down by that midpoint.

use vstd::prelude::*;

verus! {

/// A single channel's amplitude, convertible to a signed number.
pub trait Sample: Copy {
    /// The sample's displacement from equilibrium.
    spec fn amplitude(self) -> int;

    /// The sample in the signed domain, widened to 64 bits.
    fn to_signed_sample(self) -> (signed: i64)
        ensures
            signed == self.amplitude(),
    ;
}

/// The distance of a signed amplitude from zero.
pub open spec fn magnitude(amplitude: int) -> nat {
    if amplitude >= 0 {
        amplitude as nat
    } else {
        (-amplitude) as nat
    }
}

/// The absolute value of a signed sample.
///
/// The result is unsigned, so that the most negative sample has a magnitude
/// too: one more than that of the most positive.
pub fn abs(sample: i64) -> (size: u64)
    ensures
        size == magnitude(sample as int),
{
    if sample >= 0 {
        sample as u64
    } else {
        let below: i64 = -(sample + 1);
        below as u64 + 1
    }
}

/// `dasp::Sample::to_signed_sample` on an `i8`. The signed format of `i8` is
/// `i8` itself, and the conversion hands the sample back unchanged.
#[verifier::external_body]
fn i8_to_signed(sample: i8) -> (signed: i8)
    ensures
        signed == sample,
{
    dasp::Sample::to_signed_sample(sample)
}

/// `dasp::Sample::to_signed_sample` on an `i16`. The signed format of `i16`
/// is `i16` itself, and the conversion hands the sample back unchanged.
#[verifier::external_body]
fn i16_to_signed(sample: i16) -> (signed: i16)
    ensures
        signed == sample,
{
    dasp::Sample::to_signed_sample(sample)
}

/// `dasp::Sample::to_signed_sample` on an `i32`. The signed format of `i32`
/// is `i32` itself, and the conversion hands the sample back unchanged.
#[verifier::external_body]
fn i32_to_signed(sample: i32) -> (signed: i32)
    ensures
        signed == sample,
{
    dasp::Sample::to_signed_sample(sample)
}

/// `dasp::Sample::to_signed_sample` on an `i64`. The signed format of `i64`
/// is `i64` itself, and the conversion hands the sample back unchanged.
#[verifier::external_body]
fn i64_to_signed(sample: i64) -> (signed: i64)
    ensures
        signed == sample,
{
    dasp::Sample::to_signed_sample(sample)
}

/// `dasp::Sample::to_signed_sample` on a `u8`. The signed format of `u8` is
/// `i8`, and the conversion subtracts 128, the equilibrium of `u8`.
#[verifier::external_body]
fn u8_to_signed(sample: u8) -> (signed: i8)
    ensures
        signed == sample - 128,
{
    dasp::Sample::to_signed_sample(sample)
}

/// `dasp::Sample::to_signed_sample` on a `u16`. The signed format of `u16`
/// is `i16`, and the conversion subtracts 32768, the equilibrium of `u16`.
#[verifier::external_body]
fn u16_to_signed(sample: u16) -> (signed: i16)
    ensures
        signed == sample - 32768,
{
    dasp::Sample::to_signed_sample(sample)
}

/// `dasp::Sample::to_signed_sample` on a `u32`. The signed format of `u32`
/// is `i32`, and the conversion subtracts 2147483648, the equilibrium of
/// `u32`.
#[verifier::external_body]
fn u32_to_signed(sample: u32) -> (signed: i32)
    ensures
        signed == sample - 2147483648,
{
    dasp::Sample::to_signed_sample(sample)
}

/// `dasp::Sample::to_signed_sample` on a `u64`. The signed format of `u64`
/// is `i64`, and the conversion subtracts 9223372036854775808, the
/// equilibrium of `u64`.
#[verifier::external_body]
fn u64_to_signed(sample: u64) -> (signed: i64)
    ensures
        signed == sample - 9223372036854775808,
{
    dasp::Sample::to_signed_sample(sample)
}

impl Sample for i8 {
    open spec fn amplitude(self) -> int {
        self as int
    }

    fn to_signed_sample(self) -> (signed: i64) {
        i8_to_signed(self) as i64
    }
}

impl Sample for i16 {
    open spec fn amplitude(self) -> int {
        self as int
    }

    fn to_signed_sample(self) -> (signed: i64) {
        i16_to_signed(self) as i64
    }
}

impl Sample for i32 {
    open spec fn amplitude(self) -> int {
        self as int
    }

    fn to_signed_sample(self) -> (signed: i64) {
        i32_to_signed(self) as i64
    }
}

impl Sample for i64 {
    open spec fn amplitude(self) -> int {
        self as int
    }

    fn to_signed_sample(self) -> (signed: i64) {
        i64_to_signed(self)
    }
}

impl Sample for u8 {
    open spec fn amplitude(self) -> int {
        self - 128
    }

    fn to_signed_sample(self) -> (signed: i64) {
        u8_to_signed(self) as i64
    }
}

impl Sample for u16 {
    open spec fn amplitude(self) -> int {
        self - 32768
    }

    fn to_signed_sample(self) -> (signed: i64) {
        u16_to_signed(self) as i64
    }
}

impl Sample for u32 {
    open spec fn amplitude(self) -> int {
        self - 2147483648
    }

    fn to_signed_sample(self) -> (signed: i64) {
        u32_to_signed(self) as i64
    }
}

impl Sample for u64 {
    open spec fn amplitude(self) -> int {
        self - 9223372036854775808
    }

    fn to_signed_sample(self) -> (signed: i64) {
        u64_to_signed(self)
    }
}

} // verus!
