//! The typed byte container.
//!
//! A [`Blob`] owns a growable byte sequence and is tagged, at the type level,
//! with the [`Config`] marker naming the base-64 codec its encode/decode
//! operations use. The tag is a behavioral lens, not data: equality compares
//! the bytes alone, and re-tagging via [`Blob::with_config`] never touches
//! them.

use core::marker::PhantomData;

use vstd::prelude::*;
use vstd::slice::slice_index_get;

use crate::codec::{
    b64_decode_text, b64_decoding, b64_encode_bytes, b64_encoding, codec_index, codec_padded,
    encoded_len, Codec, Config, DecodeError, Standard,
};
use crate::sink::{IoError, TextSink};

verus! {

/// An owned byte buffer whose base-64 behavior is selected by the type-level
/// codec marker `C`. Its view is the byte sequence it holds.
#[derive(Debug, Hash)]
pub struct Blob<C: Config = Standard> {
    data: Vec<u8>,
    config: PhantomData<C>,
}

impl<C: Config> View for Blob<C> {
    type V = Seq<u8>;

    closed spec fn view(&self) -> Seq<u8> {
        self.data@
    }
}

impl<C: Config> Blob<C> {
    /// An empty blob.
    pub fn new() -> (r: Blob<C>)
        ensures
            r@ == Seq::<u8>::empty(),
    {
        Blob { data: Vec::new(), config: PhantomData }
    }

    /// A blob owning the given bytes.
    pub fn from_vec(vec: Vec<u8>) -> (r: Blob<C>)
        ensures
            r@ == vec@,
    {
        Blob { data: vec, config: PhantomData }
    }

    /// An empty blob whose buffer has room for at least `capacity` bytes
    /// before it reallocates.
    pub fn with_capacity(capacity: usize) -> (r: Blob<C>)
        ensures
            r@ == Seq::<u8>::empty(),
    {
        Blob::from_vec(Vec::with_capacity(capacity))
    }

    /// The number of bytes the blob can hold without reallocating.
    pub fn capacity(&self) -> (r: usize)
        ensures
            r >= self@.len(),
    {
        vec_capacity(&self.data)
    }

    /// Reserve room for at least `additional` more bytes. The contents do
    /// not change.
    pub fn reserve(&mut self, additional: usize)
        ensures
            final(self)@ == old(self)@,
    {
        self.data.reserve(additional);
    }

    /// Re-tag the blob with a different codec marker. The bytes are moved,
    /// not copied, and are not re-interpreted: only future encode/decode
    /// calls are affected.
    pub fn with_config<E: Config>(self) -> (r: Blob<E>)
        ensures
            r@ == self@,
    {
        Blob { data: self.data, config: PhantomData }
    }

    /// Encode the blob's bytes as base-64 text under the selected codec.
    /// Decoding the result under the same codec gives the bytes back, and an
    /// empty blob encodes to the empty string. The text's length follows the
    /// codec's size formula; a padding codec ends it with `=` exactly when
    /// the byte count is not a multiple of three, a non-padding codec never
    /// emits `=`, and the no-pad variant of an alphabet yields the padded
    /// text with the padding cut off.
    pub fn encode_base64(&self) -> (r: String)
        ensures
            r@ == b64_encoding(codec_index(C::spec_codec()), self@),
            b64_decoding(codec_index(C::spec_codec()), r@) == Some(self@),
            self@.len() == 0 ==> r@.len() == 0,
            r@.len() == encoded_len(codec_padded(C::spec_codec()), self@.len()),
            codec_padded(C::spec_codec()) && self@.len() % 3 != 0 ==> r@[r@.len() - 1] == '=',
            !codec_padded(C::spec_codec()) ==> forall|i: int| 0 <= i < r@.len() ==> r@[i] != '=',
            C::spec_codec() == Codec::Standard ==> r@.take(
                encoded_len(false, self@.len()) as int,
            ) == b64_encoding(codec_index(Codec::StandardNoPad), self@),
            C::spec_codec() == Codec::UrlSafe ==> r@.take(
                encoded_len(false, self@.len()) as int,
            ) == b64_encoding(codec_index(Codec::UrlSafeNoPad), self@),
    {
        b64_encode_bytes(C::codec(), &self.data)
    }

    /// Stream the blob's base-64 encoding to a sink. On success the sink has
    /// accepted exactly the text that [`Blob::encode_base64`] returns; on
    /// failure the sink rejected a write.
    pub fn encode_to<S: TextSink>(&self, sink: &mut S) -> (r: Result<(), IoError>)
        ensures
            r is Ok ==> final(sink).received() == old(sink).received() + b64_encoding(
                codec_index(C::spec_codec()),
                self@,
            ),
    {
        let encoded = self.encode_base64();
        sink.write_text(encoded.as_str())
    }

    /// Decode base-64 text under the selected codec into a new blob. Succeeds
    /// exactly when the text is valid base-64 for the codec; the empty string
    /// decodes to the empty blob.
    pub fn decode_base64(encoded: &str) -> (r: Result<Blob<C>, DecodeError>)
        ensures
            r is Ok <==> b64_decoding(codec_index(C::spec_codec()), encoded@) is Some,
            r matches Ok(b) ==> b64_decoding(codec_index(C::spec_codec()), encoded@) == Some(b@),
            encoded@.len() == 0 ==> r is Ok && r->Ok_0@ == Seq::<u8>::empty(),
    {
        match b64_decode_text(C::codec(), encoded) {
            Ok(v) => Ok(Blob::from_vec(v)),
            Err(e) => Err(e),
        }
    }

    /// Decode base-64 text and append the resulting bytes to this blob. The
    /// append is atomic: on failure the blob is unchanged.
    pub fn append_base64(&mut self, encoded: &str) -> (r: Result<(), DecodeError>)
        ensures
            r is Ok <==> b64_decoding(codec_index(C::spec_codec()), encoded@) is Some,
            r is Ok ==> final(self)@ == old(self)@ + b64_decoding(
                codec_index(C::spec_codec()),
                encoded@,
            )->Some_0,
            r is Err ==> final(self)@ == old(self)@,
    {
        match b64_decode_text(C::codec(), encoded) {
            Ok(mut v) => {
                self.data.append(&mut v);
                Ok(())
            },
            Err(e) => Err(e),
        }
    }

    /// Consume the blob and return the owned byte sequence.
    pub fn into_vec(self) -> (r: Vec<u8>)
        ensures
            r@ == self@,
    {
        self.data
    }

    /// The number of bytes held.
    pub fn len(&self) -> (n: usize)
        ensures
            n == self@.len(),
    {
        self.data.len()
    }

    /// The bytes held, as a slice.
    pub fn as_bytes(&self) -> (r: &[u8])
        ensures
            r@ == self@,
    {
        self.data.as_slice()
    }

    /// Append one byte.
    pub fn push(&mut self, byte: u8)
        ensures
            final(self)@ == old(self)@.push(byte),
    {
        self.data.push(byte);
    }

    /// Append a slice of bytes.
    pub fn append_bytes(&mut self, bytes: &[u8])
        ensures
            final(self)@ == old(self)@ + bytes@,
    {
        let mut i: usize = 0;
        while i < bytes.len()
            invariant
                i <= bytes@.len(),
                self.data@ == old(self).data@ + bytes@.subrange(0, i as int),
            decreases bytes@.len() - i,
        {
            let b = *slice_index_get(bytes, i);
            self.data.push(b);
            proof {
                assert(old(self).data@ + bytes@.subrange(0, i + 1 as int) =~= (old(self).data@
                    + bytes@.subrange(0, i as int)).push(bytes@[i as int]));
            }
            i += 1;
        }
        proof {
            assert(bytes@.subrange(0, bytes@.len() as int) =~= bytes@);
        }
    }
}

/// Relies on `Vec::capacity`: a vector can hold at least its current length
/// without reallocating.
#[verifier::external_body]
fn vec_capacity(v: &Vec<u8>) -> (r: usize)
    ensures
        r >= v@.len(),
{
    v.capacity()
}

impl<C: Config> Default for Blob<C> {
    fn default() -> (r: Self)
        ensures
            r@ == Seq::<u8>::empty(),
    {
        Blob::new()
    }
}

impl<C: Config> Clone for Blob<C> {
    /// The clone holds the same bytes.
    fn clone(&self) -> (r: Self)
        ensures
            r@ == self@,
    {
        let data = self.data.clone();
        proof {
            assert(data@ =~= self.data@);
        }
        Blob { data, config: PhantomData }
    }
}

/// Byte-wise slice equality.
fn bytes_eq(a: &[u8], b: &[u8]) -> (r: bool)
    ensures
        r == (a@ == b@),
{
    if a.len() != b.len() {
        return false;
    }
    let mut i: usize = 0;
    while i < a.len()
        invariant
            i <= a@.len(),
            a@.len() == b@.len(),
            forall|j: int| 0 <= j < i ==> a@[j] == b@[j],
        decreases a@.len() - i,
    {
        if *slice_index_get(a, i) != *slice_index_get(b, i) {
            return false;
        }
        i += 1;
    }
    proof {
        assert(a@ =~= b@);
    }
    true
}

/// Equality compares the byte sequences alone; the codec tag is a formatting
/// lens, not part of value identity.
impl<C: Config> PartialEq for Blob<C> {
    fn eq(&self, other: &Blob<C>) -> bool {
        bytes_eq(self.data.as_slice(), other.data.as_slice())
    }
}

impl<C: Config> vstd::std_specs::cmp::PartialEqSpecImpl for Blob<C> {
    open spec fn obeys_eq_spec() -> bool {
        true
    }

    open spec fn eq_spec(&self, other: &Blob<C>) -> bool {
        self@ == other@
    }
}

impl<C: Config> Eq for Blob<C> {}

/// Parsing a blob from a string is [`Blob::decode_base64`]: same successes,
/// same bytes, same errors.
impl<C: Config> core::str::FromStr for Blob<C> {
    type Err = DecodeError;

    fn from_str(s: &str) -> (r: Result<Self, DecodeError>)
        ensures
            r is Ok <==> b64_decoding(codec_index(C::spec_codec()), s@) is Some,
            r matches Ok(b) ==> b64_decoding(codec_index(C::spec_codec()), s@) == Some(b@),
    {
        Blob::decode_base64(s)
    }
}

/// Building a blob from a byte slice copies the bytes.
impl<'a, C: Config> From<&'a [u8]> for Blob<C> {
    fn from(value: &'a [u8]) -> (r: Blob<C>)
        ensures
            r@ == value@,
    {
        Blob::from_vec(vstd::slice::slice_to_vec(value))
    }
}

impl<'a, C: Config> vstd::std_specs::convert::FromSpecImpl<&'a [u8]> for Blob<C> {
    open spec fn obeys_from_spec() -> bool {
        false
    }

    open spec fn from_spec(t: &'a [u8]) -> Blob<C> {
        arbitrary()
    }
}

} // verus!
