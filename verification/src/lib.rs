//! Dual-format output rendering: emit the same logical value either as
//! human-readable (optionally styled) text or as structured JSON, to
//! any number of independently configured targets from a single call.
//!
//! A value that knows both of its representations implements
//! [`RenderOutput`]. An [`Output`] owns an ordered list of targets,
//! each a human or a JSON formatter over its own byte sink;
//! [`Output::print`] renders one value to every target in order,
//! framing each target's emission with one newline byte, and stops at
//! the first failure without rolling back what earlier targets already
//! received.

use vstd::prelude::*;

pub mod components;
mod error;
pub mod human;
pub mod json;
mod sink;
mod style;

pub use components::newline;
pub use components::text;
pub use components::Text;
pub use error::Error;
pub use error::ErrorKind;
pub use human::ColorChoice;
pub use sink::BufferSink;
pub use sink::FlakySink;
pub use sink::Sink;
pub use style::Color;
pub use style::Style;

verus! {

/// The rendering contract: a value that can describe itself both to
/// people and to machines. Both operations may take several steps
/// against the formatter; on success they append exactly the value's
/// representation, on failure they leave at least what the formatter
/// held and at most that representation.
pub trait RenderOutput<S: Sink>: Sized {
    /// The bytes this value's human-readable rendering appends. A
    /// verified implementor overrides this with its representation;
    /// only implementors outside verified code leave the default.
    open spec fn human_repr(&self) -> Seq<u8> {
        Seq::empty()
    }

    /// The bytes this value's JSON rendering appends. A verified
    /// implementor overrides this with its representation; only
    /// implementors outside verified code leave the default.
    open spec fn json_repr(&self) -> Seq<u8> {
        Seq::empty()
    }

    /// Write this value's human-readable form to a human target.
    fn render_for_humans(&self, fmt: &mut human::Formatter<S>) -> (r: Result<(), Error>)
        requires
            old(fmt).wf(),
        ensures
            final(fmt).wf(),
            final(fmt).color_choice() == old(fmt).color_choice(),
            match r {
                Ok(()) => final(fmt).contents() == old(fmt).contents() + self.human_repr(),
                Err(e) => old(fmt).contents().is_prefix_of(final(fmt).contents())
                    && final(fmt).contents().is_prefix_of(old(fmt).contents() + self.human_repr()),
            },
    ;

    /// Write this value's JSON form, one document, to a JSON target.
    fn render_json(&self, fmt: &mut json::Formatter<S>) -> (r: Result<(), Error>)
        ensures
            match r {
                Ok(()) => final(fmt).contents() == old(fmt).contents() + self.json_repr(),
                Err(e) => old(fmt).contents().is_prefix_of(final(fmt).contents())
                    && final(fmt).contents().is_prefix_of(old(fmt).contents() + self.json_repr()),
            },
    ;
}

impl<'a, S: Sink, T: RenderOutput<S>> RenderOutput<S> for &'a T {
    open spec fn human_repr(&self) -> Seq<u8> {
        <T as RenderOutput<S>>::human_repr(*self)
    }

    open spec fn json_repr(&self) -> Seq<u8> {
        <T as RenderOutput<S>>::json_repr(*self)
    }

    fn render_for_humans(&self, fmt: &mut human::Formatter<S>) -> (r: Result<(), Error>) {
        (*self).render_for_humans(fmt)
    }

    fn render_json(&self, fmt: &mut json::Formatter<S>) -> (r: Result<(), Error>) {
        (*self).render_json(fmt)
    }
}

/// One configured destination: a human formatter or a JSON formatter,
/// each exclusively owning its sink.
pub enum Target<S: Sink> {
    Human(human::Formatter<S>),
    Json(json::Formatter<S>),
}

impl<S: Sink> Target<S> {
    /// Whether this is a human target.
    pub open spec fn is_human(&self) -> bool {
        self is Human
    }

    /// The bytes written to this target's sink so far.
    pub open spec fn contents(&self) -> Seq<u8> {
        match self {
            Target::Human(fmt) => fmt.contents(),
            Target::Json(fmt) => fmt.contents(),
        }
    }

    /// A human target's sink rests at the default style between calls.
    pub open spec fn wf(&self) -> bool {
        match self {
            Target::Human(fmt) => fmt.wf(),
            Target::Json(_) => true,
        }
    }

    /// A human target's color capability, fixed at its formatter's
    /// construction; a JSON target has none.
    pub open spec fn color_capability(&self) -> Option<ColorChoice> {
        match self {
            Target::Human(fmt) => Some(fmt.color_choice()),
            Target::Json(_) => None,
        }
    }
}

/// The bytes one rendering appends to a target of the given kind,
/// before the dispatcher's record separator.
pub open spec fn rendering<S: Sink, O: RenderOutput<S>>(item: O, human: bool) -> Seq<u8> {
    if human {
        item.human_repr()
    } else {
        item.json_repr()
    }
}

/// The bytes one `print` call appends to a target of the given kind:
/// the matching representation of the printed value, then one newline
/// byte as a record separator.
pub open spec fn emission<S: Sink, O: RenderOutput<S>>(item: O, human: bool) -> Seq<u8> {
    rendering(item, human) + seq![10u8]
}

/// Appending part of `part` after `base` lands between `base` and
/// `base + part` in the prefix order.
pub(crate) proof fn lemma_append_partial(base: Seq<u8>, part: Seq<u8>, n: int)
    requires
        0 <= n <= part.len(),
    ensures
        base.is_prefix_of(base + part.subrange(0, n)),
        (base + part.subrange(0, n)).is_prefix_of(base + part),
{
    assert(base =~= (base + part.subrange(0, n)).subrange(0, base.len() as int));
    assert(base + part.subrange(0, n) =~= (base + part).subrange(0, base.len() + n));
}

/// An empty `Output`.
pub fn new<S: Sink>() -> (r: Output<S>)
    ensures
        r.targets_seq() == Seq::<Target<S>>::empty(),
{
    Output::default()
}

/// An ordered collection of targets, each rendered to in turn by
/// [`Output::print`]. Created empty, grown by [`Output::add`], never
/// shrunk; targets are reused across arbitrarily many `print` calls.
pub struct Output<S: Sink> {
    targets: Vec<Target<S>>,
}

impl<S: Sink> Output<S> {
    /// The targets, in dispatch order.
    pub closed spec fn targets_seq(&self) -> Seq<Target<S>> {
        self.targets@
    }

    /// Every human target's sink is at rest.
    pub open spec fn wf(&self) -> bool {
        forall|j: int| 0 <= j < self.targets_seq().len() ==> (#[trigger] self.targets_seq()[j]).wf()
    }

    /// Append a target; dispatch order is the order of `add` calls.
    pub fn add(self, target: Target<S>) -> (r: Self)
        ensures
            r.targets_seq() == self.targets_seq().push(target),
    {
        let mut this = self;
        this.targets.push(target);
        this
    }

    /// A look at the targets, e.g. to read a buffer sink back.
    pub fn targets(&self) -> (r: &Vec<Target<S>>)
        ensures
            r@ == self.targets_seq(),
    {
        &self.targets
    }

    /// Render `item` once to every target, in order: the matching
    /// rendering, then one newline byte. The first failure is
    /// returned at once: targets before it keep their full emission,
    /// the failing target may keep a prefix of its writes, targets
    /// after it are untouched — never rolled back, never skipped for
    /// any other reason.
    #[verifier::rlimit(60)]
    pub fn print<O: RenderOutput<S>>(&mut self, item: O) -> (r: Result<(), Error>)
        requires
            old(self).wf(),
        ensures
            final(self).wf(),
            final(self).targets_seq().len() == old(self).targets_seq().len(),
            forall|j: int|
                0 <= j < old(self).targets_seq().len() ==> (#[trigger] final(self).targets_seq()[j]).is_human() == old(self).targets_seq()[j].is_human(),
            forall|j: int|
                0 <= j < old(self).targets_seq().len() ==> (#[trigger] final(self).targets_seq()[j]).color_capability() == old(self).targets_seq()[j].color_capability(),
            match r {
                Ok(()) => forall|j: int|
                    0 <= j < old(self).targets_seq().len() ==> (#[trigger] final(self).targets_seq()[j]).contents() == old(self).targets_seq()[j].contents()
                        + emission(item, old(self).targets_seq()[j].is_human()),
                Err(e) => exists|k: int|
                    {
                        &&& 0 <= k < old(self).targets_seq().len()
                        &&& forall|j: int|
                            0 <= j < k ==> (#[trigger] final(self).targets_seq()[j]).contents()
                                == old(self).targets_seq()[j].contents() + emission(
                                item,
                                old(self).targets_seq()[j].is_human(),
                            )
                        &&& old(self).targets_seq()[k as int].contents().is_prefix_of(
                            final(self).targets_seq()[k as int].contents(),
                        )
                        &&& final(self).targets_seq()[k as int].contents().is_prefix_of(
                            old(self).targets_seq()[k as int].contents() + rendering(
                                item,
                                old(self).targets_seq()[k as int].is_human(),
                            ),
                        )
                        &&& forall|j: int|
                            k < j < old(self).targets_seq().len() ==> #[trigger] final(self).targets_seq()[j]
                                == old(self).targets_seq()[j]
                    },
            },
    {
        let ghost orig = self.targets@;
        let n = self.targets.len();
        let mut i: usize = 0;
        let mut failure: Option<Error> = None;
        while i < n
            invariant
                0 <= i <= n,
                n == orig.len(),
                forall|j: int| 0 <= j < n ==> (#[trigger] orig[j]).wf(),
                self.targets@.len() == n,
                forall|j: int| 0 <= j < n - i ==> self.targets@[j] == orig[i + j],
                forall|j: int|
                    0 <= j < i ==> (#[trigger] self.targets@[n - i + j]).is_human()
                        == orig[j].is_human() && self.targets@[n - i + j].wf()
                        && self.targets@[n - i + j].color_capability()
                        == orig[j].color_capability(),
                match failure {
                    None => forall|j: int|
                        0 <= j < i ==> (#[trigger] self.targets@[n - i + j]).contents()
                            == orig[j].contents() + emission(item, orig[j].is_human()),
                    Some(_) => exists|k: int|
                        {
                            &&& 0 <= k < i
                            &&& forall|j: int|
                                0 <= j < k ==> (#[trigger] self.targets@[n - i + j]).contents()
                                    == orig[j].contents() + emission(item, orig[j].is_human())
                            &&& orig[k as int].contents().is_prefix_of(
                                self.targets@[n - i + k].contents(),
                            )
                            &&& (self.targets@[n - i + k]).contents().is_prefix_of(
                                orig[k as int].contents() + rendering(item, orig[k as int].is_human()),
                            )
                            &&& forall|j: int|
                                k < j < i ==> #[trigger] self.targets@[n - i + j] == orig[j]
                        },
                },
            decreases n - i,
        {
            let ghost pre = self.targets@;
            let ghost had_failure = failure is Some;
            let mut t = self.targets.remove(0);
            proof {
                assert(t == orig[i as int]);
            }
            if failure.is_none() {
                match render_target(&mut t, &item) {
                    Ok(()) => {},
                    Err(e) => {
                        failure = Some(e);
                    },
                }
            }
            self.targets.push(t);
            proof {
                let cur = self.targets@;
                assert(cur.len() == n);
                assert forall|j: int| 0 <= j < n - (i + 1) implies cur[j] == orig[i + 1 + j] by {
                    assert(cur[j] == pre[j + 1]);
                    assert(pre[j + 1] == orig[i + (j + 1)]);
                };
                assert(cur[n - 1] == t);
                assert(cur[n - (i + 1) + (i as int)] == t);
                assert(orig[i as int].wf());
                assert(t.is_human() == orig[i as int].is_human() && t.wf()
                    && t.color_capability() == orig[i as int].color_capability());
                assert forall|j: int|
                    0 <= j < i implies (#[trigger] cur[n - (i + 1) + j]).is_human()
                    == orig[j].is_human() && cur[n - (i + 1) + j].wf() && cur[n - (i + 1) + j]
                    == pre[n - i + j] && cur[n - (i + 1) + j].color_capability()
                    == orig[j].color_capability() by {
                    assert(cur[n - i - 1 + j] == pre[n - i + j]);
                    assert((pre[n - i + j]).is_human() == orig[j].is_human() && pre[n - i
                        + j].wf() && (pre[n - i + j]).color_capability()
                        == orig[j].color_capability());
                };
                if failure is None {
                    // this round rendered, and every earlier round had
                    assert forall|j: int|
                        0 <= j < i + 1 implies (#[trigger] cur[n - (i + 1) + j]).contents()
                        == orig[j].contents() + emission(item, orig[j].is_human()) by {
                        if j < i {
                            assert((pre[n - i + j]).contents() == orig[j].contents() + emission(
                                item,
                                orig[j].is_human(),
                            ));
                        }
                    };
                } else if had_failure {
                    // an earlier round failed; this round only rotated
                    let k = choose|k: int|
                        {
                            &&& 0 <= k < i
                            &&& forall|j: int|
                                0 <= j < k ==> (#[trigger] pre[n - i + j]).contents()
                                    == orig[j].contents() + emission(item, orig[j].is_human())
                            &&& orig[k as int].contents().is_prefix_of(pre[n - i + k].contents())
                            &&& (pre[n - i + k]).contents().is_prefix_of(
                                orig[k as int].contents() + rendering(item, orig[k as int].is_human()),
                            )
                            &&& forall|j: int| k < j < i ==> #[trigger] pre[n - i + j] == orig[j]
                        };
                    assert(0 <= k < i + 1);
                    assert forall|j: int|
                        0 <= j < k implies (#[trigger] cur[n - (i + 1) + j]).contents()
                        == orig[j].contents() + emission(item, orig[j].is_human()) by {
                        assert(cur[n - i - 1 + j] == pre[n - i + j]);
                        assert((pre[n - i + j]).contents() == orig[j].contents() + emission(
                            item,
                            orig[j].is_human(),
                        ));
                    };
                    assert(cur[n - (i + 1) + k] == pre[n - i + k]);
                    assert(orig[k].contents().is_prefix_of(cur[n - (i + 1) + k].contents()));
                    assert((cur[n - (i + 1) + k]).contents().is_prefix_of(
                        orig[k].contents() + rendering(item, orig[k].is_human()),
                    ));
                    assert forall|j: int|
                        k < j < i + 1 implies #[trigger] cur[n - (i + 1) + j] == orig[j] by {
                        if j < i {
                            assert(cur[n - i - 1 + j] == pre[n - i + j]);
                            assert(pre[n - i + j] == orig[j]);
                        } else {
                            assert(cur[n - (i + 1) + j] == t);
                        }
                    };
                } else {
                    // this round failed: every earlier target kept its
                    // emission, this one a prefix, none follow yet
                    let k = i as int;
                    assert forall|j: int|
                        0 <= j < k implies (#[trigger] cur[n - (i + 1) + j]).contents()
                        == orig[j].contents() + emission(item, orig[j].is_human()) by {
                        assert(cur[n - i - 1 + j] == pre[n - i + j]);
                        assert((pre[n - i + j]).contents() == orig[j].contents() + emission(
                            item,
                            orig[j].is_human(),
                        ));
                    };
                    assert(orig[k].contents().is_prefix_of(cur[n - (i + 1) + k].contents()));
                    assert((cur[n - (i + 1) + k]).contents().is_prefix_of(
                        orig[k].contents() + rendering(item, orig[k].is_human()),
                    ));
                }
            }
            i = i + 1;
        }
        proof {
            assert forall|j: int|
                0 <= j < n implies ((#[trigger] self.targets@[j]).is_human() == orig[j].is_human()
                && self.targets@[j].wf() && self.targets@[j].color_capability()
                == orig[j].color_capability()) by {
                assert((self.targets@[n - i + j]).is_human() == orig[j].is_human() && (
                self.targets@[n - i + j]).wf() && (self.targets@[n - i + j]).color_capability()
                    == orig[j].color_capability());
            };
        }
        match failure {
            None => {
                proof {
                    assert forall|j: int|
                        0 <= j < n implies (#[trigger] self.targets@[j]).contents()
                        == orig[j].contents() + emission(item, orig[j].is_human()) by {
                        assert((self.targets@[n - i + j]).contents() == orig[j].contents()
                            + emission(item, orig[j].is_human()));
                    };
                }
                Ok(())
            },
            Some(e) => {
                proof {
                    let k = choose|k: int|
                        {
                            &&& 0 <= k < i
                            &&& forall|j: int|
                                0 <= j < k ==> (#[trigger] self.targets@[n - i + j]).contents()
                                    == orig[j].contents() + emission(item, orig[j].is_human())
                            &&& orig[k as int].contents().is_prefix_of(
                                self.targets@[n - i + k].contents(),
                            )
                            &&& (self.targets@[n - i + k]).contents().is_prefix_of(
                                orig[k as int].contents() + rendering(item, orig[k as int].is_human()),
                            )
                            &&& forall|j: int|
                                k < j < i ==> #[trigger] self.targets@[n - i + j] == orig[j]
                        };
                    assert forall|j: int|
                        0 <= j < k implies (#[trigger] self.targets@[j]).contents()
                        == orig[j].contents() + emission(item, orig[j].is_human()) by {
                        assert((self.targets@[n - i + j]).contents() == orig[j].contents()
                            + emission(item, orig[j].is_human()));
                    };
                    assert(orig[k].contents().is_prefix_of(self.targets@[n - i + k].contents()));
                    assert((self.targets@[n - i + k]).contents().is_prefix_of(
                        orig[k].contents() + rendering(item, orig[k].is_human()),
                    ));
                    assert(n - i + k == k);
                    assert forall|j: int|
                        k < j < n implies #[trigger] self.targets@[j] == orig[j] by {
                        assert(self.targets@[n - i + j] == orig[j]);
                    };
                }
                Err(e)
            },
        }
    }
}

impl<S: Sink> Default for Output<S> {
    /// An empty `Output`.
    fn default() -> (r: Self)
        ensures
            r.targets_seq() == Seq::<Target<S>>::empty(),
    {
        Output { targets: Vec::new() }
    }
}

/// One `print` call's effect on a target depends only on the printed
/// value and the target's kind, never on the target's state: the bytes
/// it appends mention neither the sink's contents nor any counter of
/// the sink, so printing the same value twice appends the same
/// emission twice, and every target of one kind receives the same
/// bytes.
pub proof fn lemma_emission_is_state_independent<S: Sink, O: RenderOutput<S>>(
    item: O,
    a: Target<S>,
    b: Target<S>,
)
    requires
        a.is_human() == b.is_human(),
    ensures
        emission(item, a.is_human()) == emission(item, b.is_human()),
{
}

/// Render `item` to one target: the matching rendering, then one
/// newline byte. On failure the target holds at least what it held and
/// at most the rendering — never the separator.
fn render_target<S: Sink, O: RenderOutput<S>>(target: &mut Target<S>, item: &O) -> (r: Result<
    (),
    Error,
>)
    requires
        old(target).wf(),
    ensures
        final(target).wf(),
        final(target).is_human() == old(target).is_human(),
        final(target).color_capability() == old(target).color_capability(),
        match r {
            Ok(()) => final(target).contents() == old(target).contents() + emission(
                *item,
                old(target).is_human(),
            ),
            Err(e) => old(target).contents().is_prefix_of(final(target).contents())
                && final(target).contents().is_prefix_of(
                old(target).contents() + rendering(*item, old(target).is_human()),
            ),
        },
{
    let newline_byte: [u8; 1] = [10u8];
    match target {
        Target::Human(fmt) => {
            match item.render_for_humans(fmt) {
                Ok(()) => {},
                Err(e) => {
                    return Err(e);
                },
            }
            match fmt.write(newline_byte.as_slice()) {
                Ok(()) => {
                    proof {
                        assert(fmt.contents() == old(target).contents() + (item.human_repr()
                            + seq![10u8]));
                    }
                    Ok(())
                },
                Err(e) => {
                    proof {
                        assert(old(target).contents().is_prefix_of(fmt.contents()));
                    }
                    Err(e)
                },
            }
        },
        Target::Json(fmt) => {
            match item.render_json(fmt) {
                Ok(()) => {},
                Err(e) => {
                    return Err(e);
                },
            }
            match fmt.write_raw(newline_byte.as_slice()) {
                Ok(()) => {
                    proof {
                        assert(fmt.contents() == old(target).contents() + (item.json_repr()
                            + seq![10u8]));
                    }
                    Ok(())
                },
                Err(e) => {
                    proof {
                        assert(old(target).contents().is_prefix_of(fmt.contents()));
                    }
                    Err(e)
                },
            }
        },
    }
}

} // verus!
