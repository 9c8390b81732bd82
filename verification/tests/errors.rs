//! The error taxonomy: construction, conversions from outside
//! failures, display text, and cause chaining.

use std::str::FromStr;

#[test]
fn worker_error_message_names_the_kind() {
    let err = convey::Error::worker_error("queue is gone".to_string());
    assert_eq!(err.message(), "Worker error: queue is gone");
    assert!(err.cause_message().is_none());
}

#[test]
fn sync_error_reports_a_poisoned_lock() {
    let poison = std::sync::PoisonError::new(());
    let err = convey::Error::sync_error(&poison);
    assert!(err.message().starts_with("Sync error: "));
    assert!(err.cause_message().is_none());
}

#[test]
fn io_context_message_is_the_context_alone() {
    let cause = std::io::Error::new(std::io::ErrorKind::NotFound, "no such sink");
    let err = convey::Error::io_context("could not open the report", cause);
    assert_eq!(err.message(), "could not open the report");
    assert_eq!(err.cause_message().unwrap(), "no such sink");
}

#[test]
fn io_conversion_keeps_the_cause() {
    let cause = std::io::Error::new(std::io::ErrorKind::BrokenPipe, "pipe closed");
    let err = convey::Error::from_io(cause);
    assert_eq!(err.message(), "IO error: pipe closed");
    assert_eq!(err.cause_message().unwrap(), "pipe closed");
}

#[test]
fn json_conversion_keeps_the_cause() {
    let cause = serde_json::from_str::<bool>("not json").unwrap_err();
    let err = convey::Error::from_json(cause);
    assert!(err.message().starts_with("Json error: "));
    assert!(err.cause_message().is_some());
}

#[test]
fn color_parse_conversion_labels_the_kind_and_keeps_the_cause() {
    let cause = termcolor::Color::from_str("blurple").unwrap_err();
    let err = convey::Error::from_color_parse(cause);
    assert!(err.message().starts_with("Color parse error: "));
    assert!(err.message().contains("blurple"));
    let chained = err.cause_message().unwrap();
    assert!(chained.contains("blurple"));
    assert!(!chained.starts_with("Color parse error: "));
}

#[test]
fn send_error_conversion_reports_a_disconnected_channel() {
    let (tx, rx) = crossbeam_channel::bounded::<u8>(1);
    drop(rx);
    let failure = tx.send(7).unwrap_err();
    let err = convey::Error::from_send_error(&failure);
    assert_eq!(err.message(), "Channel error: sending on a disconnected channel");
    assert!(err.cause_message().is_none());
}

#[test]
fn style_builders_set_their_fields() {
    let style = convey::Style::fg(convey::Color::Yellow).bold();
    assert_eq!(style.fg, Some(convey::Color::Yellow));
    assert!(style.bold);
    let plain = convey::Style::default();
    assert_eq!(plain, convey::Style::plain());
    assert_eq!(plain.fg, None);
    assert!(!plain.bold);
}
