//! Tests for output-line formatting and the backlog.

use ssgtk_core::backlog::Backlog;
use ssgtk_core::output::{format_line, read_error_line, OutputKind};

#[test]
fn format_line_tags_and_terminates() {
    assert_eq!(format_line(OutputKind::Stdout, "hello"), "[stdout] hello\n");
    assert_eq!(format_line(OutputKind::Stderr, "boom"), "[stderr] boom\n");
    // Even an empty captured line is forwarded newline-terminated.
    assert_eq!(format_line(OutputKind::Stdout, ""), "[stdout] \n");
}

#[test]
fn read_error_becomes_synthetic_line() {
    assert_eq!(
        read_error_line(OutputKind::Stderr, "bad descriptor"),
        "Error reading stderr: bad descriptor"
    );
}

#[test]
fn output_kind_names() {
    assert_eq!(OutputKind::Stdout.name(), "stdout");
    assert_eq!(OutputKind::Stderr.name(), "stderr");
}

/// Backlog completeness: all lines appear in the snapshot, in emission
/// order, each newline-terminated, across a simulated instance restart.
#[test]
fn backlog_sees_every_line_in_order() {
    let mut backlog = Backlog::new();
    let lines = ["one", "two", "three"];
    for raw in lines {
        let line = format_line(OutputKind::Stdout, raw);
        backlog.append_line(&line);
    }
    // A new instance appends to the same backlog.
    let line = format_line(OutputKind::Stderr, "four");
    backlog.append_line(&line);
    assert_eq!(
        backlog.snapshot(),
        "[stdout] one\n[stdout] two\n[stdout] three\n[stderr] four\n"
    );
}

#[test]
fn backlog_starts_empty() {
    let backlog = Backlog::new();
    assert_eq!(backlog.snapshot(), "");
}
