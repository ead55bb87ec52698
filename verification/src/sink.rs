//! Sinks for streaming encoded text.
//!
//! [`TextSink`] is the caller-supplied destination of [`crate::Blob::encode_to`]:
//! a writable target that may reject a write with an [`IoError`]. The crate
//! ships one implementor, [`StringSink`], which accumulates the text in a
//! `String` and never rejects.

use vstd::prelude::*;
use vstd::string::StringExecFns;

verus! {

/// A write was rejected by the sink it was offered to.
#[derive(Clone, Copy, Debug, PartialEq, Eq, Structural)]
pub struct IoError;

/// A writable destination for streamed text.
pub trait TextSink {
    /// The text this sink has accepted so far. An implementor that leaves
    /// this at its default reports no text; a verified implementor can then
    /// answer `Ok` only to an empty piece, so a sink meant to accept text
    /// gives this a meaning of its own.
    open spec fn received(&self) -> Seq<char> {
        Seq::<char>::empty()
    }

    /// Offer `piece` to the sink. On success the sink has accepted exactly
    /// `piece` beyond what it already held; on failure the write was
    /// rejected and what the sink holds is unspecified.
    fn write_text(&mut self, piece: &str) -> (r: Result<(), IoError>)
        ensures
            r is Ok ==> final(self).received() == old(self).received() + piece@,
    ;
}

/// A sink that accumulates everything in an owned `String` and never
/// rejects a write.
#[derive(Debug)]
pub struct StringSink {
    out: String,
}

impl StringSink {
    /// An empty sink.
    pub fn new() -> (r: StringSink)
        ensures
            r.received() == Seq::<char>::empty(),
    {
        StringSink { out: String::new() }
    }

    /// Consume the sink and return everything it accepted.
    pub fn into_string(self) -> (r: String)
        ensures
            r@ == self.received(),
    {
        self.out
    }
}

impl TextSink for StringSink {
    closed spec fn received(&self) -> Seq<char> {
        self.out@
    }

    fn write_text(&mut self, piece: &str) -> (r: Result<(), IoError>)
        ensures
            r is Ok,
            final(self).received() == old(self).received() + piece@,
    {
        self.out.append(piece);
        Ok(())
    }
}

} // verus!
