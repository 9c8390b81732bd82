//! Byte sinks: the destinations formatters write to.
//!
//! A sink is modeled by two observables: the bytes accepted so far
//! ([`Sink::contents`]) and the style currently applied to it
//! ([`Sink::style`]). Style changes are sink state, not payload bytes:
//! a terminal-backed sink turns them into escape sequences of its own,
//! an in-memory sink merely records them.

use crate::error::Error;
use crate::error::ErrorKind;
use crate::style::Style;
use vstd::prelude::*;

verus! {

/// A byte-accepting destination. Appending bytes may fail with an
/// I/O-shaped [`Error`]; applying a style may fail likewise; resetting
/// the style back to the default is always honored (an implementation
/// backed by real I/O does its best and does not report a failure of
/// the reset itself).
pub trait Sink: Sized {
    /// The bytes this sink has accepted so far. A verified sink
    /// overrides this with its own model; only sinks outside verified
    /// code leave the default.
    open spec fn contents(&self) -> Seq<u8> {
        Seq::empty()
    }

    /// The style currently applied to this sink. A verified sink
    /// overrides this with its own model; only sinks outside verified
    /// code leave the default.
    open spec fn style(&self) -> Style {
        Style::spec_plain()
    }

    /// Append bytes. On success exactly `bytes` were appended; on
    /// failure a strict prefix of `bytes` was appended (a write that
    /// appended every byte did not fail, and a write of no bytes
    /// cannot fail). The style is never touched.
    fn write_bytes(&mut self, bytes: &[u8]) -> (r: Result<(), Error>)
        ensures
            final(self).style() == old(self).style(),
            match r {
                Ok(()) => final(self).contents() == old(self).contents() + bytes@,
                Err(e) => {
                    &&& exists|n: int|
                        0 <= n < bytes@.len() && final(self).contents() == old(self).contents()
                            + bytes@.subrange(0, n)
                    &&& e.kind() == ErrorKind::Io
                },
            },
    ;

    /// Apply a style. The payload bytes are never touched; on failure
    /// the previously applied style remains in force, and the error
    /// reports either an I/O failure or an unusable style.
    fn set_style(&mut self, style: &Style) -> (r: Result<(), Error>)
        ensures
            final(self).contents() == old(self).contents(),
            match r {
                Ok(()) => final(self).style() == *style,
                Err(e) => final(self).style() == old(self).style() && (e.kind() == ErrorKind::Io
                    || e.kind() == ErrorKind::ColorParse),
            },
    ;

    /// Put the sink back at the default style. The payload bytes are
    /// never touched.
    fn reset_style(&mut self)
        ensures
            final(self).contents() == old(self).contents(),
            final(self).style() == Style::spec_plain(),
    ;
}

/// An in-memory sink: it accepts every write and records the payload
/// bytes and the currently applied style.
pub struct BufferSink {
    bytes: Vec<u8>,
    current: Style,
}

impl BufferSink {
    /// An empty buffer at the default style.
    pub fn new() -> (r: BufferSink)
        ensures
            r.contents() == Seq::<u8>::empty(),
            r.style() == Style::spec_plain(),
    {
        BufferSink { bytes: Vec::new(), current: Style::plain() }
    }

    /// The bytes accepted so far.
    pub fn bytes(&self) -> (r: &Vec<u8>)
        ensures
            r@ == self.contents(),
    {
        &self.bytes
    }

    /// The style currently applied.
    pub fn current_style(&self) -> (r: Style)
        ensures
            r == self.style(),
    {
        self.current
    }
}

impl Sink for BufferSink {
    closed spec fn contents(&self) -> Seq<u8> {
        self.bytes@
    }

    closed spec fn style(&self) -> Style {
        self.current
    }

    fn write_bytes(&mut self, bytes: &[u8]) -> (r: Result<(), Error>)
        ensures
            r is Ok,
    {
        self.bytes.extend_from_slice(bytes);
        Ok(())
    }

    fn set_style(&mut self, style: &Style) -> (r: Result<(), Error>)
        ensures
            r is Ok,
    {
        self.current = *style;
        Ok(())
    }

    fn reset_style(&mut self) {
        self.current = Style::plain();
    }
}

/// An in-memory sink that accepts a fixed number of writes and fails
/// each one from then on, appending nothing. Writes of no bytes are
/// accepted without counting, and style operations always succeed. It
/// exists to exercise failure paths deterministically.
pub struct FlakySink {
    bytes: Vec<u8>,
    current: Style,
    calls: usize,
    fail_from: usize,
}

impl FlakySink {
    /// How many write calls this sink has seen.
    pub closed spec fn calls_made(&self) -> nat {
        self.calls as nat
    }

    /// The write call index (counting from zero) at which failures
    /// begin.
    pub closed spec fn failure_point(&self) -> nat {
        self.fail_from as nat
    }

    /// An empty sink at the default style whose writes fail from the
    /// `fail_from`-th call (counting from zero) on.
    pub fn new(fail_from: usize) -> (r: FlakySink)
        ensures
            r.contents() == Seq::<u8>::empty(),
            r.style() == Style::spec_plain(),
            r.calls_made() == 0,
            r.failure_point() == fail_from,
    {
        FlakySink { bytes: Vec::new(), current: Style::plain(), calls: 0, fail_from }
    }

    /// The bytes accepted so far.
    pub fn bytes(&self) -> (r: &Vec<u8>)
        ensures
            r@ == self.contents(),
    {
        &self.bytes
    }

    /// The style currently applied.
    pub fn current_style(&self) -> (r: Style)
        ensures
            r == self.style(),
    {
        self.current
    }
}

impl Sink for FlakySink {
    closed spec fn contents(&self) -> Seq<u8> {
        self.bytes@
    }

    closed spec fn style(&self) -> Style {
        self.current
    }

    fn write_bytes(&mut self, bytes: &[u8]) -> (r: Result<(), Error>)
        ensures
            final(self).failure_point() == old(self).failure_point(),
            r is Ok <==> bytes@.len() == 0 || old(self).calls_made() < old(self).failure_point(),
            r is Err ==> final(self).calls_made() == old(self).calls_made() && final(self).contents()
                == old(self).contents(),
    {
        if bytes.is_empty() {
            proof {
                assert(self.bytes@ =~= self.bytes@ + bytes@);
            }
            return Ok(());
        }
        if self.calls < self.fail_from {
            self.calls = self.calls + 1;
            self.bytes.extend_from_slice(bytes);
            Ok(())
        } else {
            proof {
                assert(self.bytes@ == self.bytes@ + bytes@.subrange(0, 0));
            }
            Err(Error::from_io(simulated_write_failure()))
        }
    }

    fn set_style(&mut self, style: &Style) -> (r: Result<(), Error>) {
        self.current = *style;
        Ok(())
    }

    fn reset_style(&mut self) {
        self.current = Style::plain();
    }
}

/// Relies on `std::io::Error::new`: an error of the given kind carrying
/// the given message.
#[verifier::external_body]
fn simulated_write_failure() -> std::io::Error {
    std::io::Error::new(std::io::ErrorKind::Other, "write refused by this sink")
}

} // verus!
