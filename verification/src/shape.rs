//! Shape-dispatching construction of a blob.
//!
//! A structured-data format presents a value as one of three self-describing
//! shapes: base-64 text, a raw byte blob, or a sequence of small integers.
//! [`Blob::from_shape`] normalizes all three to the same byte buffer, so a
//! deserializer only has to tag what it saw. The element-by-element path that
//! a streaming deserializer needs is [`Blob::push_value`], with
//! [`clamped_capacity`] guarding the pre-allocation against oversized or
//! malicious size hints.

use vstd::prelude::*;
use vstd::slice::slice_index_get;

use crate::blob::Blob;
use crate::codec::{b64_decoding, codec_index, Config, DecodeError};

verus! {

/// Upper bound honored of a caller-supplied size hint, so that a wrong or
/// malicious hint cannot force a huge allocation.
pub const SEQ_HINT_CAP: usize = 4096;

/// A sequence-of-values element outside the byte range 0..=255.
#[derive(Clone, Copy, Debug, PartialEq, Eq, Structural)]
pub struct RangeError {
    /// The offending element's value.
    pub value: u64,
}

/// Why a shape-dispatching construction failed.
#[derive(Clone, Copy, Debug, PartialEq, Eq, Structural)]
pub enum ShapeError {
    /// Text input that is not valid base-64 under the blob's codec.
    Decode(DecodeError),
    /// A sequence element that does not fit in a byte.
    Range(RangeError),
}

/// The three input shapes a structured-data format can present.
#[derive(Debug)]
pub enum Shape {
    /// A text value, decoded as base-64 under the blob's codec.
    Text(String),
    /// A format-level byte blob, copied verbatim.
    Bytes(Vec<u8>),
    /// A sequence of integer values, each of which must fit in a byte.
    Values(Vec<u64>),
}

/// Every element fits in a byte.
pub open spec fn values_in_range(values: Seq<u64>) -> bool {
    forall|i: int| 0 <= i < values.len() ==> values[i] <= 255
}

/// The bytes a fully in-range value sequence stands for.
pub open spec fn bytes_of_values(values: Seq<u64>) -> Seq<u8> {
    Seq::new(values.len(), |i: int| values[i] as u8)
}

/// `i` is the position of the first element that does not fit in a byte.
pub open spec fn is_first_oversize(values: Seq<u64>, i: int) -> bool {
    &&& 0 <= i < values.len()
    &&& values[i] > 255
    &&& values_in_range(values.subrange(0, i))
}

/// Clamp a caller-supplied size hint to [`SEQ_HINT_CAP`]; no hint means no
/// pre-allocation.
pub fn clamped_capacity(hint: Option<usize>) -> (n: usize)
    ensures
        hint matches Some(h) ==> n == (if h <= SEQ_HINT_CAP {
            h
        } else {
            SEQ_HINT_CAP
        }),
        hint is None ==> n == 0,
{
    match hint {
        Some(h) => if h <= SEQ_HINT_CAP {
            h
        } else {
            SEQ_HINT_CAP
        },
        None => 0,
    }
}

impl<C: Config> Blob<C> {
    /// Validate that a sequence element fits in a byte and append it; an
    /// out-of-range element is rejected whole, never clamped or wrapped, and
    /// leaves the blob unchanged.
    pub fn push_value(&mut self, value: u64) -> (r: Result<(), RangeError>)
        ensures
            value <= 255 ==> r is Ok && final(self)@ == old(self)@.push(value as u8),
            value > 255 ==> r == Err::<(), RangeError>(RangeError { value }) && final(self)@
                == old(self)@,
    {
        if value <= 255 {
            self.push(value as u8);
            Ok(())
        } else {
            Err(RangeError { value })
        }
    }

    /// Build a blob from a sequence of integer values, validating that each
    /// fits in a byte. Fails on the first out-of-range element, reporting its
    /// value; on success the blob holds the values as bytes, in order.
    pub fn from_values(values: &[u64]) -> (r: Result<Blob<C>, RangeError>)
        ensures
            values_in_range(values@) ==> (r matches Ok(b) && b@ == bytes_of_values(values@)),
            !values_in_range(values@) ==> (r matches Err(e) && exists|i: int|
                is_first_oversize(values@, i) && e.value == values@[i]),
    {
        let mut blob = Blob::<C>::with_capacity(clamped_capacity(Some(values.len())));
        let mut i: usize = 0;
        while i < values.len()
            invariant
                i <= values@.len(),
                values_in_range(values@.subrange(0, i as int)),
                blob@ == bytes_of_values(values@.subrange(0, i as int)),
            decreases values@.len() - i,
        {
            let v = *slice_index_get(values, i);
            match blob.push_value(v) {
                Ok(_) => {
                    proof {
                        assert(blob@ =~= bytes_of_values(values@.subrange(0, i + 1 as int)));
                    }
                    i += 1;
                },
                Err(e) => {
                    proof {
                        assert(is_first_oversize(values@, i as int));
                        assert(!values_in_range(values@));
                    }
                    return Err(e);
                },
            }
        }
        proof {
            assert(values@.subrange(0, values@.len() as int) =~= values@);
        }
        Ok(blob)
    }

    /// Normalize any of the three input shapes to a blob: text is decoded as
    /// base-64 under the blob's codec, a byte blob is copied verbatim, and a
    /// value sequence is validated element by element. All three produce the
    /// same in-memory result when they stand for the same bytes.
    pub fn from_shape(input: Shape) -> (r: Result<Blob<C>, ShapeError>)
        ensures
            input matches Shape::Text(t) ==> {
                &&& (r is Ok <==> b64_decoding(codec_index(C::spec_codec()), t@) is Some)
                &&& (r matches Ok(b) ==> b64_decoding(codec_index(C::spec_codec()), t@) == Some(
                    b@,
                ))
                &&& (r matches Err(e) ==> e is Decode)
            },
            input matches Shape::Bytes(bytes) ==> r matches Ok(b) && b@ == bytes@,
            input matches Shape::Values(values) ==> {
                &&& (values_in_range(values@) ==> (r matches Ok(b) && b@ == bytes_of_values(
                    values@,
                )))
                &&& (!values_in_range(values@) ==> (r matches Err(e) && e matches ShapeError::Range(
                    re,
                ) && exists|i: int| is_first_oversize(values@, i) && re.value == values@[i]))
            },
    {
        match input {
            Shape::Text(text) => match Blob::decode_base64(text.as_str()) {
                Ok(b) => Ok(b),
                Err(e) => Err(ShapeError::Decode(e)),
            },
            Shape::Bytes(bytes) => Ok(Blob::from_vec(bytes)),
            Shape::Values(values) => match Blob::from_values(values.as_slice()) {
                Ok(b) => Ok(b),
                Err(e) => Err(ShapeError::Range(e)),
            },
        }
    }
}

} // verus!
