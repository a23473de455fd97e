use vstd::prelude::*;
use crate::errors::SpeechError;

verus! {

/// The smallest accepted raw rate value (0.5x normal speed, in tenths).
pub const MIN_RATE_TENTHS: i64 = 5;
/// The largest accepted raw rate value (2.5x normal speed, in tenths).
pub const MAX_RATE_TENTHS: i64 = 25;

/// A speaking-rate multiplier, held in tenths of the normal speed so that
/// the range invariant is exact integer arithmetic: `tenths` is the raw
/// control value, and the multiplier it stands for is `tenths / 10`.
#[derive(Clone, Copy, Debug, PartialEq, Eq, Structural)]
pub struct SpeakingRate {
    tenths: u8,
}

impl SpeakingRate {
    /// A rate is valid exactly when it lies in [0.5, 2.5], i.e. its tenths
    /// lie in [5, 25].
    pub open spec fn valid(self) -> bool {
        MIN_RATE_TENTHS <= self.spec_tenths() <= MAX_RATE_TENTHS
    }

    /// The raw value in tenths of normal speed.
    pub fn tenths(&self) -> (t: u8)
        ensures
            t == self.spec_tenths(),
    {
        self.tenths
    }

    pub closed spec fn spec_tenths(self) -> u8 {
        self.tenths
    }
}

/// Turns the raw trackbar value (in tenths of normal speed) into a
/// `SpeakingRate`, rejecting anything outside [0.5, 2.5] with `InvalidRate`.
///
/// Succeeds if and only if `MIN_RATE_TENTHS <= raw <= MAX_RATE_TENTHS`.
pub fn validate_rate(raw: i64) -> (r: Result<SpeakingRate, SpeechError>)
    ensures
        r is Ok <==> MIN_RATE_TENTHS <= raw <= MAX_RATE_TENTHS,
        r is Ok ==> r->Ok_0.spec_tenths() == raw && r->Ok_0.valid(),
        r is Err ==> r->Err_0 == SpeechError::InvalidRate,
{
    if MIN_RATE_TENTHS <= raw && raw <= MAX_RATE_TENTHS {
        Ok(SpeakingRate { tenths: raw as u8 })
    } else {
        Err(SpeechError::InvalidRate)
    }
}

} // verus!
