//! The JSON formatter: a byte sink to which each write emits exactly
//! one JSON document, encoded by serde_json. The formatter keeps no
//! state between writes; the dispatcher frames documents with a
//! newline after each one.

use crate::error::Error;
use crate::error::ErrorKind;
use crate::sink::Sink;
use vstd::prelude::*;

verus! {

/// The bytes serde_json produces for a string value: the JSON string
/// literal encoding the given characters, quoted and escaped.
pub uninterp spec fn json_string_bytes(s: Seq<char>) -> Seq<u8>;

/// Relies on `serde_json::to_vec`: a `&str` serializes to its JSON
/// string literal, a quote-delimited document of at least two bytes,
/// and serializing a string into an in-memory buffer cannot fail.
#[verifier::external_body]
fn json_vec_of_str(s: &str) -> (r: Result<Vec<u8>, serde_json::Error>)
    ensures
        r is Ok,
        r matches Ok(v) ==> {
            &&& v@ == json_string_bytes(s@)
            &&& v@.len() >= 2
            &&& v@.first() == 34u8
            &&& v@.last() == 34u8
        },
{
    serde_json::to_vec(s)
}

/// A JSON target's formatter: an exclusively owned byte sink.
pub struct Formatter<S: Sink> {
    sink: S,
}

impl<S: Sink> Formatter<S> {
    /// The bytes written to this formatter's sink so far.
    pub closed spec fn contents(&self) -> Seq<u8> {
        self.sink.contents()
    }

    /// A formatter over the given sink.
    pub fn new(sink: S) -> (r: Formatter<S>)
        ensures
            r.contents() == sink.contents(),
    {
        Formatter { sink }
    }

    /// A look at the underlying sink, e.g. to read a buffer back.
    pub fn sink(&self) -> (r: &S)
        ensures
            r.contents() == self.contents(),
    {
        &self.sink
    }

    /// Give the sink up.
    pub fn into_sink(self) -> (r: S)
        ensures
            r.contents() == self.contents(),
    {
        self.sink
    }

    /// Serialize `value` as one JSON document onto the sink. On
    /// success exactly the document's bytes were appended; a sink
    /// failure leaves a strict prefix of them.
    pub fn write(&mut self, value: &str) -> (r: Result<(), Error>)
        ensures
            match r {
                Ok(()) => final(self).contents() == old(self).contents() + json_string_bytes(
                    value@,
                ),
                Err(e) => {
                    &&& exists|n: int|
                        0 <= n < json_string_bytes(value@).len() && final(self).contents() == old(
                            self,
                        ).contents() + json_string_bytes(value@).subrange(0, n)
                    &&& (e.kind() == ErrorKind::Io || e.kind() == ErrorKind::Json)
                },
            },
    {
        let document = match json_vec_of_str(value) {
            Ok(v) => v,
            Err(e) => {
                return Err(Error::from_json(e));
            },
        };
        self.write_raw(document.as_slice())
    }

    /// Append raw bytes to the sink; the dispatcher uses this for the
    /// newline that frames each document. On failure a strict prefix
    /// of the bytes was appended.
    pub(crate) fn write_raw(&mut self, bytes: &[u8]) -> (r: Result<(), Error>)
        ensures
            match r {
                Ok(()) => final(self).contents() == old(self).contents() + bytes@,
                Err(e) => {
                    &&& exists|n: int|
                        0 <= n < bytes@.len() && final(self).contents() == old(self).contents()
                            + bytes@.subrange(0, n)
                    &&& e.kind() == ErrorKind::Io
                },
            },
    {
        self.sink.write_bytes(bytes)
    }
}

} // verus!
