//! The human-readable formatter: a byte sink plus a fixed color
//! capability. It writes raw bytes and scopes styled regions, always
//! putting the sink back at the default style when a scoped region
//! ends, no matter how it ends.

use crate::error::Error;
use crate::sink::Sink;
use crate::style::Style;
use vstd::prelude::*;

verus! {

/// Whether a human target decorates its output with color and style:
/// never, only when the sink looks like a terminal, or always.
#[derive(Clone, Copy, Debug, PartialEq, Eq, Structural)]
pub enum ColorChoice {
    Never,
    Auto,
    Always,
}

/// A human target's formatter: an exclusively owned byte sink and the
/// color capability fixed when the formatter was built.
pub struct Formatter<S: Sink> {
    sink: S,
    choice: ColorChoice,
}

impl<S: Sink> Formatter<S> {
    /// The bytes written to this formatter's sink so far.
    pub closed spec fn contents(&self) -> Seq<u8> {
        self.sink.contents()
    }

    /// The style currently applied to this formatter's sink.
    pub closed spec fn sink_style(&self) -> Style {
        self.sink.style()
    }

    /// This formatter's color capability.
    pub closed spec fn color_choice(&self) -> ColorChoice {
        self.choice
    }

    /// Whether styled regions actually touch the sink's style.
    pub open spec fn styles_on(&self) -> bool {
        !(self.color_choice() is Never)
    }

    /// At rest, a formatter's sink is at the default style: styled
    /// regions restore it before they return.
    pub open spec fn wf(&self) -> bool {
        self.sink_style() == Style::spec_plain()
    }

    /// What a styled region's closure may rely on about the formatter
    /// handed to it, and all it may rely on: same capability, the
    /// outer contents, and the region's style (or the default one,
    /// when this formatter does not colorize).
    pub open spec fn region_entry(outer: Self, style: Style, g: Self) -> bool {
        &&& g.color_choice() == outer.color_choice()
        &&& g.contents() == outer.contents()
        &&& g.sink_style() == if outer.styles_on() {
            style
        } else {
            Style::spec_plain()
        }
    }

    /// A formatter over the given sink with the given capability. The
    /// sink must be at rest (default style).
    pub fn new(sink: S, choice: ColorChoice) -> (r: Formatter<S>)
        requires
            sink.style() == Style::spec_plain(),
        ensures
            r.contents() == sink.contents(),
            r.color_choice() == choice,
            r.wf(),
    {
        Formatter { sink, choice }
    }

    /// A look at the underlying sink, e.g. to read a buffer back.
    pub fn sink(&self) -> (r: &S)
        ensures
            r.contents() == self.contents(),
            r.style() == self.sink_style(),
    {
        &self.sink
    }

    /// Give the sink up.
    pub fn into_sink(self) -> (r: S)
        ensures
            r.contents() == self.contents(),
            r.style() == self.sink_style(),
    {
        self.sink
    }

    /// Append raw bytes to the sink. On success exactly `bytes` were
    /// appended; on failure a strict prefix of them was appended.
    pub fn write(&mut self, bytes: &[u8]) -> (r: Result<(), Error>)
        ensures
            final(self).color_choice() == old(self).color_choice(),
            final(self).sink_style() == old(self).sink_style(),
            old(self).wf() ==> final(self).wf(),
            match r {
                Ok(()) => final(self).contents() == old(self).contents() + bytes@,
                Err(e) => {
                    &&& exists|n: int|
                        0 <= n < bytes@.len() && final(self).contents() == old(self).contents()
                            + bytes@.subrange(0, n)
                    &&& e.kind() == crate::error::ErrorKind::Io
                },
            },
    {
        self.sink.write_bytes(bytes)
    }

    /// Run `f` against this formatter with `style` applied (when this
    /// formatter colorizes at all), then put the sink back at the
    /// default style — also when `f` fails, so no error path can leak
    /// styled terminal state. Fails with the style application's error,
    /// else with `f`'s.
    pub fn with_style<F: FnOnce(&mut Formatter<S>) -> Result<(), Error>>(
        &mut self,
        style: &Style,
        f: F,
    ) -> (r: Result<(), Error>)
        requires
            old(self).wf(),
            // the closure keeps the capability, and leaves the sink at
            // the default style whenever it found it there
            forall|a: &mut Formatter<S>, rr: Result<(), Error>| #[trigger]
                call_ensures(f, (a,), rr) ==> {
                    &&& mut_ref_future(a).color_choice() == mut_ref_current(a).color_choice()
                    &&& (mut_ref_current(a).wf() ==> mut_ref_future(a).wf())
                },
            forall|a: &mut Formatter<S>|
                Self::region_entry(*old(self), *style, mut_ref_current(a)) ==> #[trigger]
                    call_requires(f, (a,)),
        ensures
            final(self).wf(),
            final(self).color_choice() == old(self).color_choice(),
            // either the region ran, and the result and the contents
            // are the closure's, or this formatter colorizes and the
            // style could not be applied, and nothing was written (a
            // formatter that never colorizes applies no style, so its
            // outcome is always the closure's)
            (exists|m: &mut Formatter<S>|
                {
                    &&& #[trigger] call_ensures(f, (m,), r)
                    &&& Self::region_entry(*old(self), *style, mut_ref_current(m))
                    &&& final(self).contents() == mut_ref_future(m).contents()
                }) || (r matches Err(e) && old(self).styles_on() && final(self).contents() == old(
                self,
            ).contents() && (e.kind() == crate::error::ErrorKind::Io || e.kind()
                == crate::error::ErrorKind::ColorParse)),
    {
        if matches!(self.choice, ColorChoice::Never) {
            f(self)
        } else {
            match self.sink.set_style(style) {
                Ok(()) => {},
                Err(e) => {
                    return Err(e);
                },
            }
            let r = f(self);
            self.sink.reset_style();
            r
        }
    }

    /// Write `bytes` as one styled span: apply `style`, write them,
    /// restore the default style whatever happened.
    pub fn write_styled(&mut self, style: &Style, bytes: &[u8]) -> (r: Result<(), Error>)
        requires
            old(self).wf(),
        ensures
            final(self).wf(),
            final(self).color_choice() == old(self).color_choice(),
            match r {
                Ok(()) => final(self).contents() == old(self).contents() + bytes@,
                Err(e) => {
                    &&& old(self).contents().is_prefix_of(final(self).contents())
                    &&& final(self).contents().is_prefix_of(old(self).contents() + bytes@)
                    &&& (e.kind() == crate::error::ErrorKind::Io || e.kind()
                        == crate::error::ErrorKind::ColorParse)
                },
            },
    {
        let span = |inner: &mut Formatter<S>| -> (rr: Result<(), Error>)
            ensures
                final(inner).color_choice() == old(inner).color_choice(),
                old(inner).wf() ==> final(inner).wf(),
                rr is Ok ==> final(inner).contents() == old(inner).contents() + bytes@,
                rr matches Err(e) ==> {
                    &&& old(inner).contents().is_prefix_of(final(inner).contents())
                    &&& final(inner).contents().is_prefix_of(old(inner).contents() + bytes@)
                    &&& e.kind() == crate::error::ErrorKind::Io
                },
            {
                inner.write(bytes)
            };
        let r = self.with_style(style, span);
        proof {
            assert(old(self).contents().is_prefix_of(old(self).contents()));
            assert(old(self).contents().is_prefix_of(old(self).contents() + bytes@));
        }
        r
    }
}

} // verus!
