use vstd::prelude::*;

verus! {

/// Mask that clears the sign bit of an IEEE-754 binary32 bit pattern.
pub const MAGNITUDE_MASK: u32 = 0x7fff_ffff;

/// True when the binary32 value with bit pattern `bits` compares equal to zero
/// (positive or negative zero).
pub open spec fn zero_bits(bits: u32) -> bool {
    bits & MAGNITUDE_MASK == 0
}

/// A prediction request as received: each field is the bit pattern of a binary32 number.
#[derive(Clone, Copy, Debug, PartialEq, Eq, Structural)]
pub struct Payload {
    pub year: u32,
    pub month: u32,
    pub season: u32,
}

/// The validated model input, in the order year, month, season.
#[derive(Clone, Copy, Debug, PartialEq, Eq, Structural)]
pub struct FeatureVector {
    pub year: u32,
    pub month: u32,
    pub season: u32,
}

#[derive(Clone, Copy, Debug, PartialEq, Eq, Structural)]
pub enum ValidationError {
    /// All three fields are zero: the service's sentinel for a request without data.
    EmptyPayload,
}

impl ValidationError {
    /// The human-readable text carried in the error response body.
    pub fn message(&self) -> (r: String)
        ensures
            r@ == "payload is empty"@,
    {
        match self {
            ValidationError::EmptyPayload => String::from_str("payload is empty"),
        }
    }
}

/// True when all three fields of the payload compare equal to zero.
pub open spec fn empty_payload(p: Payload) -> bool {
    zero_bits(p.year) && zero_bits(p.month) && zero_bits(p.season)
}

/// Whether a binary32 bit pattern denotes a value equal to zero.
pub fn is_zero_value(bits: u32) -> (r: bool)
    ensures
        r == zero_bits(bits),
{
    bits & MAGNITUDE_MASK == 0
}

/// Interprets a payload as a feature vector. Any combination is accepted except the one
/// where all three fields are zero; no range is imposed.
pub fn parse(payload: Payload) -> (r: Result<FeatureVector, ValidationError>)
    ensures
        empty_payload(payload) <==> r == Err::<FeatureVector, ValidationError>(
            ValidationError::EmptyPayload,
        ),
        !empty_payload(payload) ==> r == Ok::<FeatureVector, ValidationError>(
            (FeatureVector { year: payload.year, month: payload.month, season: payload.season }),
        ),
{
    if is_zero_value(payload.year) && is_zero_value(payload.month) && is_zero_value(
        payload.season,
    ) {
        Err(ValidationError::EmptyPayload)
    } else {
        Ok(FeatureVector { year: payload.year, month: payload.month, season: payload.season })
    }
}

} // verus!
