//! A binary-data container that serializes to and from base-64 text.
//!
//! The central type is [`Blob`]: an owned, growable byte buffer tagged at the
//! type level with a [`Config`] marker that selects which base-64 alphabet and
//! padding rule its encode/decode operations use. The tag has no runtime
//! representation; re-tagging a blob never touches the bytes.
//!
//! Besides plain encoding and decoding, the crate offers the shape-dispatching
//! construction a structured-data deserializer needs: a [`Shape`] value is
//! either base-64 text, a raw byte blob, or a sequence of small integers, and
//! [`Blob::from_shape`] normalizes all three to the same byte buffer. For
//! streaming output, [`Blob::encode_to`] writes the encoding to any
//! [`TextSink`].

mod blob;
mod codec;
mod shape;
mod sink;

pub use blob::Blob;
pub use codec::{
    b64_decoding, b64_encoding, codec_index, codec_padded, encoded_len, Codec, Config, Crypt,
    DecodeError, Standard, StandardNoPad, UrlSafe, UrlSafeNoPad,
};
pub use shape::{
    bytes_of_values, clamped_capacity, is_first_oversize, values_in_range, RangeError, Shape,
    ShapeError, SEQ_HINT_CAP,
};
pub use sink::{IoError, StringSink, TextSink};
