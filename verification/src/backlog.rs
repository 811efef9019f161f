//! The backlog: a single growable text buffer holding the combined history
//! of everything the worker wrote, outliving any individual worker
//! instance. Capture threads append to it; a consumer that opens later
//! reads a snapshot to catch up on history before subscribing for the
//! live tail.

use vstd::prelude::*;

verus! {

/// The cumulative text history of worker output.
#[derive(Debug)]
pub struct Backlog {
    text: String,
}

impl View for Backlog {
    type V = Seq<char>;

    closed spec fn view(&self) -> Seq<char> {
        self.text@
    }
}

impl Backlog {
    /// An empty backlog.
    pub fn new() -> (b: Self)
        ensures
            b@ == Seq::<char>::empty(),
    {
        Backlog { text: String::new() }
    }

    /// Append one forwarded line; nothing already recorded is disturbed.
    pub fn append_line(&mut self, line: &str)
        ensures
            final(self)@ == old(self)@ + line@,
    {
        self.text.append(line);
    }

    /// A copy of everything recorded so far.
    pub fn snapshot(&self) -> (s: String)
        ensures
            s@ == self@,
    {
        self.text.clone()
    }
}

/// All of `lines` laid end to end, in order.
pub open spec fn concat_lines(lines: Seq<Seq<char>>) -> Seq<char>
    decreases lines.len(),
{
    if lines.len() == 0 {
        Seq::empty()
    } else {
        concat_lines(lines.drop_last()) + lines.last()
    }
}

/// Where line `k` starts inside `concat_lines(lines)`.
pub open spec fn line_offset(lines: Seq<Seq<char>>, k: int) -> int {
    concat_lines(lines.take(k)).len() as int
}

proof fn lemma_concat_take_succ(lines: Seq<Seq<char>>, k: int)
    requires
        0 <= k < lines.len(),
    ensures
        concat_lines(lines.take(k + 1)) == concat_lines(lines.take(k)) + lines[k],
        line_offset(lines, k + 1) == line_offset(lines, k) + lines[k].len(),
{
    assert(lines.take(k + 1).drop_last() =~= lines.take(k));
    assert(lines.take(k + 1).last() == lines[k]);
}

proof fn lemma_offset_bound(lines: Seq<Seq<char>>, k: int)
    requires
        0 <= k <= lines.len(),
    ensures
        line_offset(lines, k) <= concat_lines(lines).len(),
        line_offset(lines, lines.len() as int) == concat_lines(lines).len(),
    decreases lines.len(),
{
    assert(lines.take(lines.len() as int) =~= lines);
    if lines.len() > 0 && k < lines.len() {
        let head = lines.drop_last();
        assert(lines.take(k) =~= head.take(k));
        lemma_offset_bound(head, k);
        assert(head.take(head.len() as int) =~= head);
    }
}

/// Law: the backlog built from a sequence of appended lines is complete
/// and ordered. Line `k` of `lines` stands unaltered inside
/// `concat_lines(lines)` at its own offset, the offsets advance by
/// exactly one line length each, and the whole text is exactly the lines
/// and nothing else.
pub proof fn lemma_backlog_complete(lines: Seq<Seq<char>>, k: int)
    requires
        0 <= k < lines.len(),
    ensures
        line_offset(lines, k + 1) == line_offset(lines, k) + lines[k].len(),
        line_offset(lines, lines.len() as int) == concat_lines(lines).len(),
        concat_lines(lines).subrange(line_offset(lines, k), line_offset(lines, k + 1))
            == lines[k],
    decreases lines.len(),
{
    lemma_concat_take_succ(lines, k);
    lemma_offset_bound(lines, lines.len() as int);
    let head = lines.drop_last();
    if k == lines.len() - 1 {
        assert(lines.take(k) =~= head);
        assert(concat_lines(lines).subrange(line_offset(lines, k), line_offset(lines, k + 1))
            =~= lines[k]);
    } else {
        lemma_backlog_complete(head, k);
        assert(lines.take(k) =~= head.take(k));
        assert(lines.take(k + 1) =~= head.take(k + 1));
        lemma_offset_bound(head, k + 1);
        assert(concat_lines(lines).subrange(line_offset(lines, k), line_offset(lines, k + 1))
            =~= concat_lines(head).subrange(line_offset(head, k), line_offset(head, k + 1)));
    }
}

} // verus!
