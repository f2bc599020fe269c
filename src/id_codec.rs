use sqids::Sqids;
use vstd::prelude::*;

use crate::text::{chars_of, decimal, i64_text, owned, push_str, signed_decimal, u64_text};

verus! {

#[verifier::external_type_specification]
#[verifier::external_body]
pub struct ExSqids(sqids::Sqids);

/// Why a public id could not be made or read.
#[derive(Clone, Copy, Debug, PartialEq, Eq)]
pub enum IdCodecError {
    InvalidMinLength { value: usize },
    /// The codec refused its configuration or a number.
    Sqids,
    NegativeId { value: i64 },
    DecodeInvalidFormat,
    DecodeOutOfRange,
}

impl IdCodecError {
    /// The text of the error.
    pub fn message(&self) -> (r: String)
        ensures
            match *self {
                IdCodecError::InvalidMinLength { value } => r@
                    == "SQIDS_MIN_LENGTH must be between 0 and 255, got "@ + decimal(value as nat),
                IdCodecError::Sqids => r@ == "Sqids error"@,
                IdCodecError::NegativeId { value } => r@ == "id must be non-negative, got "@
                    + signed_decimal(value as int),
                IdCodecError::DecodeInvalidFormat => r@ == "invalid public id format"@,
                IdCodecError::DecodeOutOfRange => r@ == "decoded id is out of range"@,
            },
    {
        match self {
            IdCodecError::InvalidMinLength { value } => {
                let mut s = owned("SQIDS_MIN_LENGTH must be between 0 and 255, got ");
                let n = u64_text(*value as u64);
                push_str(&mut s, n.as_str());
                s
            },
            IdCodecError::Sqids => owned("Sqids error"),
            IdCodecError::NegativeId { value } => {
                let mut s = owned("id must be non-negative, got ");
                let n = i64_text(*value);
                push_str(&mut s, n.as_str());
                s
            },
            IdCodecError::DecodeInvalidFormat => owned("invalid public id format"),
            IdCodecError::DecodeOutOfRange => owned("decoded id is out of range"),
        }
    }
}

/// Relies on `sqids::Sqids::builder` with `min_length`, `alphabet` and `build`: a codec, where
/// the configuration is accepted.
#[verifier::external_body]
fn build_sqids(min_length: u8, alphabet: Vec<char>) -> Option<Sqids> {
    Sqids::builder().min_length(min_length).alphabet(alphabet).build().ok()
}

/// Relies on `sqids::Sqids::encode` of one number.
#[verifier::external_body]
fn sqids_encode(codec: &Sqids, n: u64) -> Option<String> {
    codec.encode(&[n]).ok()
}

/// Relies on `sqids::Sqids::decode`: the numbers a public id stands for.
#[verifier::external_body]
fn sqids_decode(codec: &Sqids, id: &str) -> Vec<u64> {
    codec.decode(id)
}

/// Turns internal ids into opaque public ones and back.
pub struct IdCodec {
    sqids: Sqids,
}

/// The internal id that the decoded numbers stand for: exactly one number that fits `i64`.
pub fn decoded_id(nums: &Vec<u64>) -> (r: Result<i64, IdCodecError>)
    ensures
        nums@.len() != 1 ==> r == Err::<i64, IdCodecError>(IdCodecError::DecodeInvalidFormat),
        nums@.len() == 1 && nums@[0] > i64::MAX ==> r == Err::<i64, IdCodecError>(
            IdCodecError::DecodeOutOfRange,
        ),
        nums@.len() == 1 && nums@[0] <= i64::MAX ==> r == Ok::<i64, IdCodecError>(
            nums@[0] as i64,
        ),
{
    if nums.len() != 1 {
        return Err(IdCodecError::DecodeInvalidFormat);
    }
    if nums[0] > i64::MAX as u64 {
        return Err(IdCodecError::DecodeOutOfRange);
    }
    Ok(nums[0] as i64)
}

impl IdCodec {
    /// A codec with the given minimum length (at most 255) and alphabet.
    pub fn new(min_length: usize, alphabet: &str) -> (r: Result<Self, IdCodecError>)
        ensures
            min_length > 255 ==> r == Err::<Self, IdCodecError>(
                IdCodecError::InvalidMinLength { value: min_length },
            ),
            r matches Err(e) ==> e == IdCodecError::Sqids || min_length > 255,
    {
        if min_length > 255 {
            return Err(IdCodecError::InvalidMinLength { value: min_length });
        }
        match build_sqids(min_length as u8, chars_of(alphabet)) {
            Some(sqids) => Ok(IdCodec { sqids }),
            None => Err(IdCodecError::Sqids),
        }
    }

    /// The public id of a non-negative internal id.
    pub fn encode(&self, id: i64) -> (r: Result<String, IdCodecError>)
        ensures
            id < 0 ==> r == Err::<String, IdCodecError>(IdCodecError::NegativeId { value: id }),
            id >= 0 && r is Err ==> r == Err::<String, IdCodecError>(IdCodecError::Sqids),
    {
        if id < 0 {
            return Err(IdCodecError::NegativeId { value: id });
        }
        match sqids_encode(&self.sqids, id as u64) {
            Some(s) => Ok(s),
            None => Err(IdCodecError::Sqids),
        }
    }

    /// The internal id of a public id.
    pub fn decode(&self, public_id: &str) -> (r: Result<i64, IdCodecError>)
        ensures
            r matches Err(e) ==> e == IdCodecError::DecodeInvalidFormat || e
                == IdCodecError::DecodeOutOfRange,
            r matches Ok(n) ==> n >= 0,
    {
        let nums = sqids_decode(&self.sqids, public_id);
        decoded_id(&nums)
    }
}

} // verus!
