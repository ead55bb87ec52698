//! Codec selectors and the base-64 codec itself.
//!
//! A [`Codec`] names one of the closed set of alphabet/padding configurations;
//! the zero-sized marker types implementing [`Config`] select one at the type
//! level. The encode/decode arithmetic is the `base64` crate's; its results
//! are named by the uninterpreted functions [`b64_encoding`] and
//! [`b64_decoding`], and every contract in this crate speaks of those names.

use vstd::prelude::*;

verus! {

/// One of the closed set of base-64 alphabet/padding configurations.
#[derive(Clone, Copy, Debug, PartialEq, Eq, Structural)]
pub enum Codec {
    /// Standard alphabet (`A-Z`, `a-z`, `0-9`, `+`, `/`), padded with `=`.
    Standard,
    /// Standard alphabet without padding.
    StandardNoPad,
    /// URL-safe alphabet (`A-Z`, `a-z`, `0-9`, `-`, `_`), padded with `=`.
    UrlSafe,
    /// URL-safe alphabet without padding.
    UrlSafeNoPad,
    /// The `crypt(3)` alphabet, which uses no padding.
    Crypt,
}

/// A distinct index for each codec, so that the named encode/decode results
/// below can be keyed by plain values.
pub open spec fn codec_index(c: Codec) -> int {
    match c {
        Codec::Standard => 0,
        Codec::StandardNoPad => 1,
        Codec::UrlSafe => 2,
        Codec::UrlSafeNoPad => 3,
        Codec::Crypt => 4,
    }
}

/// Marker trait for the type-level codec selection: each implementor stands
/// for one [`Codec`], with no runtime footprint of its own.
pub trait Config {
    /// The codec this marker selects, at the specification level.
    spec fn spec_codec() -> Codec;

    /// The codec this marker selects.
    fn codec() -> (c: Codec)
        ensures
            c == Self::spec_codec(),
    ;
}

/// Selects the standard alphabet with padding.
#[derive(Clone, Copy, Debug, Hash, PartialEq, Eq)]
pub struct Standard;

/// Selects the standard alphabet without padding.
#[derive(Clone, Copy, Debug, Hash, PartialEq, Eq)]
pub struct StandardNoPad;

/// Selects the URL-safe alphabet with padding.
#[derive(Clone, Copy, Debug, Hash, PartialEq, Eq)]
pub struct UrlSafe;

/// Selects the URL-safe alphabet without padding.
#[derive(Clone, Copy, Debug, Hash, PartialEq, Eq)]
pub struct UrlSafeNoPad;

/// Selects the `crypt(3)` alphabet.
#[derive(Clone, Copy, Debug, Hash, PartialEq, Eq)]
pub struct Crypt;

impl Config for Standard {
    open spec fn spec_codec() -> Codec {
        Codec::Standard
    }

    fn codec() -> (c: Codec) {
        Codec::Standard
    }
}

impl Config for StandardNoPad {
    open spec fn spec_codec() -> Codec {
        Codec::StandardNoPad
    }

    fn codec() -> (c: Codec) {
        Codec::StandardNoPad
    }
}

impl Config for UrlSafe {
    open spec fn spec_codec() -> Codec {
        Codec::UrlSafe
    }

    fn codec() -> (c: Codec) {
        Codec::UrlSafe
    }
}

impl Config for UrlSafeNoPad {
    open spec fn spec_codec() -> Codec {
        Codec::UrlSafeNoPad
    }

    fn codec() -> (c: Codec) {
        Codec::UrlSafeNoPad
    }
}

impl Config for Crypt {
    open spec fn spec_codec() -> Codec {
        Codec::Crypt
    }

    fn codec() -> (c: Codec) {
        Codec::Crypt
    }
}

/// Whether the codec pads its output to a multiple of four characters.
pub open spec fn codec_padded(c: Codec) -> bool {
    match c {
        Codec::Standard => true,
        Codec::StandardNoPad => false,
        Codec::UrlSafe => true,
        Codec::UrlSafeNoPad => false,
        Codec::Crypt => false,
    }
}

/// The length of the base-64 text for `n` input bytes: four characters for
/// every three bytes, with a partial final group padded to four characters
/// or left at two or three.
pub open spec fn encoded_len(padded: bool, n: nat) -> nat {
    if padded {
        (n + 2) / 3 * 4
    } else {
        (4 * n + 2) / 3
    }
}

/// The base-64 text that a given codec produces for a given byte sequence.
pub uninterp spec fn b64_encoding(codec: int, bytes: Seq<u8>) -> Seq<char>;

/// What a given codec decodes a given text to: `Some` of the bytes when the
/// text is valid base-64 under that codec, `None` when it is not.
pub uninterp spec fn b64_decoding(codec: int, text: Seq<char>) -> Option<Seq<u8>>;

/// A failed base-64 decode, reporting which rule the input violated.
#[derive(Clone, Copy, Debug, PartialEq, Eq, Structural)]
pub enum DecodeError {
    /// A byte outside the codec's alphabet, with its offset and value.
    InvalidByte(usize, u8),
    /// The input's length is impossible for base-64 under the codec.
    InvalidLength,
    /// The last symbol is in the alphabet but leaves nonzero discarded bits;
    /// its offset and value are reported.
    InvalidLastSymbol(usize, u8),
}

/// Relies on `base64::encode_config`: it returns the base-64 text of the
/// input under the chosen configuration, `base64::decode_config` of that text
/// under the same configuration gives the input back, and an empty input
/// encodes to the empty string. Its output length is its documented size
/// formula ([`encoded_len`]); a padding codec ends the text with `=` exactly
/// when the input length is not a multiple of three, a non-padding codec
/// never emits `=`, and padding is appended after the alphabet body, so the
/// no-pad variant of an alphabet is the padded text with the padding cut off.
/// The call's only panic is an overflow guard on the encoded size, which
/// cannot trigger: a real vector holds at most `isize::MAX` bytes.
#[verifier::external_body]
pub(crate) fn b64_encode_bytes(c: Codec, data: &Vec<u8>) -> (r: String)
    ensures
        r@ == b64_encoding(codec_index(c), data@),
        b64_decoding(codec_index(c), r@) == Some(data@),
        data@.len() == 0 ==> r@.len() == 0,
        r@.len() == encoded_len(codec_padded(c), data@.len()),
        codec_padded(c) && data@.len() % 3 != 0 ==> r@[r@.len() - 1] == '=',
        !codec_padded(c) ==> forall|i: int| 0 <= i < r@.len() ==> r@[i] != '=',
        c == Codec::Standard ==> r@.take(encoded_len(false, data@.len()) as int) == b64_encoding(
            codec_index(Codec::StandardNoPad),
            data@,
        ),
        c == Codec::UrlSafe ==> r@.take(encoded_len(false, data@.len()) as int) == b64_encoding(
            codec_index(Codec::UrlSafeNoPad),
            data@,
        ),
{
    let cfg = match c {
        Codec::Standard => base64::STANDARD,
        Codec::StandardNoPad => base64::STANDARD_NO_PAD,
        Codec::UrlSafe => base64::URL_SAFE,
        Codec::UrlSafeNoPad => base64::URL_SAFE_NO_PAD,
        Codec::Crypt => base64::CRYPT,
    };
    base64::encode_config(data, cfg)
}

/// Relies on `base64::decode_config`: it decodes text under the chosen
/// configuration, succeeding exactly when the text is valid base-64 for it,
/// and decoding the empty string to the empty byte sequence. The error
/// variants mirror `base64::DecodeError` one for one. The call's only panic
/// is an overflow guard on the decoded-size estimate, which cannot trigger: a
/// real string holds at most `isize::MAX` bytes.
#[verifier::external_body]
pub(crate) fn b64_decode_text(c: Codec, text: &str) -> (r: Result<Vec<u8>, DecodeError>)
    ensures
        r is Ok <==> b64_decoding(codec_index(c), text@) is Some,
        r matches Ok(v) ==> b64_decoding(codec_index(c), text@) == Some(v@),
        text@.len() == 0 ==> r is Ok && r->Ok_0@ == Seq::<u8>::empty(),
{
    let cfg = match c {
        Codec::Standard => base64::STANDARD,
        Codec::StandardNoPad => base64::STANDARD_NO_PAD,
        Codec::UrlSafe => base64::URL_SAFE,
        Codec::UrlSafeNoPad => base64::URL_SAFE_NO_PAD,
        Codec::Crypt => base64::CRYPT,
    };
    match base64::decode_config(text, cfg) {
        Ok(v) => Ok(v),
        Err(base64::DecodeError::InvalidByte(i, b)) => Err(DecodeError::InvalidByte(i, b)),
        Err(base64::DecodeError::InvalidLength) => Err(DecodeError::InvalidLength),
        Err(base64::DecodeError::InvalidLastSymbol(i, b)) => Err(DecodeError::InvalidLastSymbol(i, b)),
    }
}

} // verus!
