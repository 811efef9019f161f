//! The two output streams captured from the worker, and the exact shape of
//! the lines forwarded to the backlog and the fan-out: every forwarded line
//! carries a `[stdout] ` or `[stderr] ` prefix and is newline-terminated
//! even when the source line was not.

use vstd::prelude::*;

verus! {

/// Which output stream of the worker a captured line came from.
#[derive(Debug, Clone, Copy, PartialEq, Eq, Structural)]
pub enum OutputKind {
    Stdout,
    Stderr,
}

impl OutputKind {
    /// The lower-case name of the stream.
    pub open spec fn spec_name(self) -> Seq<char> {
        match self {
            OutputKind::Stdout => "stdout"@,
            OutputKind::Stderr => "stderr"@,
        }
    }

    /// The lower-case name of the stream.
    pub fn name(&self) -> (s: &'static str)
        ensures
            s@ == self.spec_name(),
    {
        match self {
            OutputKind::Stdout => "stdout",
            OutputKind::Stderr => "stderr",
        }
    }
}

/// A raw captured line as it is forwarded: tagged with its stream and
/// always newline-terminated.
pub open spec fn formatted_line(kind: OutputKind, raw: Seq<char>) -> Seq<char> {
    "["@ + kind.spec_name() + "] "@ + raw + "\n"@
}

/// Tag a captured line with its stream and terminate it with a newline.
pub fn format_line(kind: OutputKind, raw: &str) -> (s: String)
    ensures
        s@ == formatted_line(kind, raw@),
        s@.len() > 0,
        s@.last() == '\n',
{
    let mut s = String::from_str("[");
    s.append(kind.name());
    s.append("] ");
    s.append(raw);
    s.append("\n");
    proof {
        reveal_strlit("\n");
        assert(s@ =~= formatted_line(kind, raw@));
    }
    s
}

/// The synthetic text standing in for a line that could not be read from
/// the pipe: the read error is reported instead of being dropped.
pub open spec fn read_error_text(kind: OutputKind, err: Seq<char>) -> Seq<char> {
    "Error reading "@ + kind.spec_name() + ": "@ + err
}

/// Build the synthetic line reporting a pipe read error on `kind`.
pub fn read_error_line(kind: OutputKind, err: &str) -> (s: String)
    ensures
        s@ == read_error_text(kind, err@),
{
    let mut s = String::from_str("Error reading ");
    s.append(kind.name());
    s.append(": ");
    s.append(err);
    proof {
        assert(s@ =~= read_error_text(kind, err@));
    }
    s
}

} // verus!
