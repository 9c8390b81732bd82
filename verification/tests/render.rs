//! Rendering and dispatch behavior, observed through in-memory sinks.

use convey::human;
use convey::json;
use convey::newline;
use convey::text;
use convey::BufferSink;
use convey::ColorChoice;
use convey::FlakySink;
use convey::Output;
use convey::RenderOutput;
use convey::Style;
use convey::Target;

fn human_buffer_target(choice: ColorChoice) -> Target<BufferSink> {
    Target::Human(human::Formatter::new(BufferSink::new(), choice))
}

fn json_buffer_target() -> Target<BufferSink> {
    Target::Json(json::Formatter::new(BufferSink::new()))
}

fn target_bytes(target: &Target<BufferSink>) -> Vec<u8> {
    match target {
        Target::Human(fmt) => fmt.sink().bytes().clone(),
        Target::Json(fmt) => fmt.sink().bytes().clone(),
    }
}

fn flaky_bytes(target: &Target<FlakySink>) -> Vec<u8> {
    match target {
        Target::Human(fmt) => fmt.sink().bytes().clone(),
        Target::Json(fmt) => fmt.sink().bytes().clone(),
    }
}

#[test]
fn human_path_reproduces_input_exactly() {
    let item = text("some text, no frills\n\ttabbed");
    let mut fmt = human::Formatter::new(BufferSink::new(), ColorChoice::Never);
    item.render_for_humans(&mut fmt).unwrap();
    assert_eq!(fmt.sink().bytes().as_slice(), b"some text, no frills\n\ttabbed");
}

#[test]
fn json_path_emits_escaped_document_and_newline() {
    let mut out = convey::new().add(json_buffer_target());
    out.print(text("hi\n")).unwrap();
    assert_eq!(target_bytes(&out.targets()[0]).as_slice(), b"\"hi\\n\"\n");
}

#[test]
fn example_scenario_one_human_one_json_target() {
    let mut out = convey::new()
        .add(human_buffer_target(ColorChoice::Never))
        .add(json_buffer_target());
    out.print(text("hi\n")).unwrap();
    assert_eq!(target_bytes(&out.targets()[0]).as_slice(), b"hi\n\n");
    assert_eq!(target_bytes(&out.targets()[1]).as_slice(), b"\"hi\\n\"\n");
}

#[test]
fn newline_behaves_as_text_newline() {
    let mut out_a = convey::new()
        .add(human_buffer_target(ColorChoice::Never))
        .add(json_buffer_target());
    let mut out_b = convey::new()
        .add(human_buffer_target(ColorChoice::Never))
        .add(json_buffer_target());
    out_a.print(newline()).unwrap();
    out_b.print(text("\n")).unwrap();
    assert_eq!(target_bytes(&out_a.targets()[0]), target_bytes(&out_b.targets()[0]));
    assert_eq!(target_bytes(&out_a.targets()[1]), target_bytes(&out_b.targets()[1]));
}

#[test]
fn printing_twice_appends_two_identical_emissions() {
    let mut out = convey::new()
        .add(human_buffer_target(ColorChoice::Never))
        .add(json_buffer_target());
    let item = text("again");
    out.print(&item).unwrap();
    out.print(&item).unwrap();
    assert_eq!(target_bytes(&out.targets()[0]).as_slice(), b"again\nagain\n");
    assert_eq!(target_bytes(&out.targets()[1]).as_slice(), b"\"again\"\n\"again\"\n");
}

#[test]
fn failing_middle_target_stops_later_targets_only() {
    let healthy = usize::MAX;
    let mut out = convey::new()
        .add(Target::Human(human::Formatter::new(FlakySink::new(healthy), ColorChoice::Never)))
        .add(Target::Human(human::Formatter::new(FlakySink::new(0), ColorChoice::Never)))
        .add(Target::Human(human::Formatter::new(FlakySink::new(healthy), ColorChoice::Never)));
    let err = out.print(text("partial")).unwrap_err();
    assert!(err.message().starts_with("IO error: "));
    assert_eq!(flaky_bytes(&out.targets()[0]).as_slice(), b"partial\n");
    assert_eq!(flaky_bytes(&out.targets()[1]).as_slice(), b"");
    assert_eq!(flaky_bytes(&out.targets()[2]).as_slice(), b"");
}

struct TwoWrites;

impl RenderOutput<FlakySink> for TwoWrites {
    fn render_for_humans(
        &self,
        fmt: &mut human::Formatter<FlakySink>,
    ) -> Result<(), convey::Error> {
        fmt.write(b"first")?;
        fmt.write(b"second")?;
        Ok(())
    }

    fn render_json(&self, fmt: &mut json::Formatter<FlakySink>) -> Result<(), convey::Error> {
        fmt.write("two")
    }
}

#[test]
fn sink_failing_on_second_write_aborts_rendering_without_separator() {
    let fmt = human::Formatter::new(FlakySink::new(1), ColorChoice::Never);
    let mut out = convey::new().add(Target::Human(fmt));
    let err = out.print(TwoWrites).unwrap_err();
    assert!(err.message().starts_with("IO error: "));
    assert_eq!(flaky_bytes(&out.targets()[0]).as_slice(), b"first");
}

#[test]
fn with_style_restores_default_style_after_success() {
    let mut fmt = human::Formatter::new(BufferSink::new(), ColorChoice::Always);
    let style = Style::fg(convey::Color::Red).bold();
    fmt.with_style(&style, |inner| inner.write(b"alert")).unwrap();
    assert_eq!(fmt.sink().bytes().as_slice(), b"alert");
    assert_eq!(fmt.sink().current_style(), Style::plain());
}

#[test]
fn with_style_restores_default_style_after_failing_closure() {
    let mut fmt = human::Formatter::new(BufferSink::new(), ColorChoice::Always);
    let style = Style::fg(convey::Color::Green);
    let err = fmt
        .with_style(&style, |inner| {
            inner.write(b"half")?;
            Err(convey::Error::worker_error("gave up".to_string()))
        })
        .unwrap_err();
    assert_eq!(err.message(), "Worker error: gave up");
    assert_eq!(fmt.sink().bytes().as_slice(), b"half");
    assert_eq!(fmt.sink().current_style(), Style::plain());
}

#[test]
fn with_style_applies_style_inside_scope() {
    let mut fmt = human::Formatter::new(BufferSink::new(), ColorChoice::Always);
    let style = Style::fg(convey::Color::Blue);
    let mut seen = Style::plain();
    fmt.with_style(&style, |inner| {
        seen = inner.sink().current_style();
        Ok(())
    })
    .unwrap();
    assert_eq!(seen, style);
}

#[test]
fn with_style_without_color_never_touches_the_style() {
    let mut fmt = human::Formatter::new(BufferSink::new(), ColorChoice::Never);
    let style = Style::fg(convey::Color::Magenta);
    let mut seen = style;
    fmt.with_style(&style, |inner| {
        seen = inner.sink().current_style();
        inner.write(b"plain")
    })
    .unwrap();
    assert_eq!(seen, Style::plain());
    assert_eq!(fmt.sink().bytes().as_slice(), b"plain");
    assert_eq!(fmt.sink().current_style(), Style::plain());
}

#[test]
fn write_styled_writes_the_span_and_restores_style() {
    let mut fmt = human::Formatter::new(BufferSink::new(), ColorChoice::Always);
    let style = Style::fg(convey::Color::Cyan);
    fmt.write_styled(&style, b"span").unwrap();
    assert_eq!(fmt.sink().bytes().as_slice(), b"span");
    assert_eq!(fmt.sink().current_style(), Style::plain());
}

/// A sink that accepts every write but refuses every style change.
struct StyleRefusingSink {
    bytes: Vec<u8>,
}

impl convey::Sink for StyleRefusingSink {
    fn write_bytes(&mut self, bytes: &[u8]) -> Result<(), convey::Error> {
        self.bytes.extend_from_slice(bytes);
        Ok(())
    }

    fn set_style(&mut self, _style: &Style) -> Result<(), convey::Error> {
        Err(convey::Error::from_io(std::io::Error::new(
            std::io::ErrorKind::Other,
            "style refused",
        )))
    }

    fn reset_style(&mut self) {}
}

#[test]
fn with_style_propagates_a_failed_style_application() {
    let sink = StyleRefusingSink { bytes: Vec::new() };
    let mut fmt = human::Formatter::new(sink, ColorChoice::Always);
    let err = fmt
        .with_style(&Style::fg(convey::Color::Red), |inner| inner.write(b"lost"))
        .unwrap_err();
    assert!(err.message().starts_with("IO error: "));
    assert_eq!(fmt.sink().bytes.as_slice(), b"");
}

#[test]
fn add_keeps_dispatch_order() {
    let out = convey::new()
        .add(human_buffer_target(ColorChoice::Auto))
        .add(json_buffer_target());
    assert_eq!(out.targets().len(), 2);
    assert!(matches!(out.targets()[0], Target::Human(_)));
    assert!(matches!(out.targets()[1], Target::Json(_)));
}

#[test]
fn empty_text_still_gets_its_separators() {
    let mut out = convey::new()
        .add(human_buffer_target(ColorChoice::Never))
        .add(json_buffer_target());
    out.print(text("")).unwrap();
    assert_eq!(target_bytes(&out.targets()[0]).as_slice(), b"\n");
    assert_eq!(target_bytes(&out.targets()[1]).as_slice(), b"\"\"\n");
}

#[test]
fn empty_output_prints_nothing_and_succeeds() {
    let mut out: Output<BufferSink> = convey::new();
    out.print(text("unheard")).unwrap();
    assert_eq!(out.targets().len(), 0);
}
