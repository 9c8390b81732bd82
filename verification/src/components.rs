//! The reference renderable: a plain piece of text. Its human form is
//! the text itself, byte for byte; its JSON form is the JSON string
//! literal encoding the same text.

use crate::error::Error;
use crate::error::ErrorKind;
use crate::human;
use crate::json;
use crate::json::json_string_bytes;
use crate::sink::Sink;
use crate::RenderOutput;
use vstd::prelude::*;
use vstd::string::StringExecFns;
use vstd::utf8::encode_utf8;

verus! {

/// Render some text.
pub fn text(input: &str) -> (r: Text)
    ensures
        r@ == input@,
{
    Text(String::from_str(input))
}

/// Render a newline.
///
/// This is just a shorthand for calling `text`.
pub fn newline() -> (r: Text)
    ensures
        r@ == seq!['\n'],
{
    proof {
        reveal_strlit("\n");
    }
    text("\n")
}

/// A plain piece of text; see [`text`].
#[derive(Clone)]
pub struct Text(String);

impl View for Text {
    type V = Seq<char>;

    closed spec fn view(&self) -> Seq<char> {
        self.0@
    }
}

impl<S: Sink> RenderOutput<S> for Text {
    /// The text itself, UTF-8 encoded, nothing added.
    open spec fn human_repr(&self) -> Seq<u8> {
        encode_utf8(self@)
    }

    /// The JSON string literal encoding the text.
    open spec fn json_repr(&self) -> Seq<u8> {
        json_string_bytes(self@)
    }

    fn render_for_humans(&self, fmt: &mut human::Formatter<S>) -> (r: Result<(), Error>)
        ensures
            r matches Err(e) ==> e.kind() == ErrorKind::Io,
    {
        fmt.write(self.0.as_str().as_bytes())
    }

    fn render_json(&self, fmt: &mut json::Formatter<S>) -> (r: Result<(), Error>)
        ensures
            r matches Err(e) ==> e.kind() == ErrorKind::Io || e.kind() == ErrorKind::Json,
    {
        fmt.write(self.0.as_str())
    }
}

/// The human path reproduces its input exactly: rendering a text value
/// to a human target appends the UTF-8 bytes of the text's characters
/// and nothing else, as `render_for_humans`'s contract then promises.
pub proof fn lemma_human_rendering_reproduces_text<S: Sink>(t: Text)
    ensures
        <Text as RenderOutput<S>>::human_repr(&t) == encode_utf8(t@),
{
}

/// The JSON path produces the standard JSON string encoding of its
/// input: rendering a text value to a JSON target appends exactly the
/// quoted, escaped document serde_json defines for those characters.
pub proof fn lemma_json_rendering_encodes_text<S: Sink>(t: Text)
    ensures
        <Text as RenderOutput<S>>::json_repr(&t) == json_string_bytes(t@),
{
}

/// One `print` call leaves on a JSON target the standard JSON string
/// encoding of the text, followed by exactly one trailing newline.
pub proof fn lemma_json_emission_is_document_then_newline<S: Sink>(t: Text, tgt: crate::Target<S>)
    requires
        !tgt.is_human(),
    ensures
        crate::emission::<S, Text>(t, tgt.is_human()) == json_string_bytes(t@) + seq![10u8],
{
}

/// Rendering depends only on a text's characters: two text values with
/// the same view render identically on both paths. In particular
/// `newline()` behaves exactly as `text("\n")`, since both contracts
/// pin the view to the single newline character.
pub proof fn lemma_equal_text_renders_equally<S: Sink>(a: Text, b: Text)
    requires
        a@ == b@,
    ensures
        <Text as RenderOutput<S>>::human_repr(&a) == <Text as RenderOutput<S>>::human_repr(&b),
        <Text as RenderOutput<S>>::json_repr(&a) == <Text as RenderOutput<S>>::json_repr(&b),
{
}

} // verus!
