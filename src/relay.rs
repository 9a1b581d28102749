use vstd::prelude::*;

verus! {

/// The outcome of one line read from a stream of the served process.
#[derive(Clone, Debug)]
pub enum LineRead {
    Line(String),
    /// The read failed; this counts as the stream being closed.
    Failed,
    /// End of stream.
    Ended,
}

/// What a relay task does with one read.
#[derive(Clone, Debug)]
pub enum RelayAction {
    /// Write this line to the launcher's own stream.
    Forward(String),
    /// Leave the read loop.
    Stop,
}

/// The tag that marks each relayed line as coming from the served process.
pub open spec fn relay_prefix() -> Seq<char> {
    seq![' ', ' ', '[', 'p', 'h', 'p', ']', ' ']
}

/// What is written for one read, given the shared `running` flag as seen
/// right after the read: nothing once the flag is cleared or the stream is
/// done.
pub open spec fn relayed(running: bool, read: LineRead) -> Option<Seq<char>> {
    match read {
        LineRead::Line(l) => if running {
            Some(relay_prefix() + l@)
        } else {
            None
        },
        _ => None,
    }
}

/// Everything a relay task writes for a sequence of (flag, read) pairs: one
/// line per read, up to the first read that stops it.
pub open spec fn relay_transcript(events: Seq<(bool, LineRead)>) -> Seq<Seq<char>>
    decreases events.len(),
{
    if events.len() == 0 {
        seq![]
    } else {
        match relayed(events[0].0, events[0].1) {
            Some(out) => seq![out] + relay_transcript(events.drop_first()),
            None => seq![],
        }
    }
}

/// Tags a line of the served process's output.
pub fn prefixed_line(line: &str) -> (r: String)
    ensures
        r@ == relay_prefix() + line@,
{
    let prefix = "  [php] ";
    proof {
        reveal_strlit("  [php] ");
    }
    assert(prefix@ =~= relay_prefix());
    let mut r = String::from_str(prefix);
    r.append(line);
    r
}

/// Decides what a relay task does with one read.
pub fn relay_step(running: bool, read: LineRead) -> (r: RelayAction)
    ensures
        match r {
            RelayAction::Forward(out) => relayed(running, read) == Some(out@),
            RelayAction::Stop => relayed(running, read) is None,
        },
{
    if !running {
        return RelayAction::Stop;
    }
    match read {
        LineRead::Line(l) => RelayAction::Forward(prefixed_line(l.as_str())),
        _ => RelayAction::Stop,
    }
}

/// Once a relay task sees the `running` flag cleared, it writes nothing
/// more: its whole output comes from the reads before that point.
pub proof fn lemma_nothing_relayed_after_stop(events: Seq<(bool, LineRead)>, i: int)
    requires
        0 <= i < events.len(),
        !events[i].0,
    ensures
        relay_transcript(events) == relay_transcript(events.take(i)),
        relay_transcript(events).len() <= i,
    decreases i,
{
    let head = events.take(i);
    if i > 0 {
        assert(head[0] == events[0]);
        if relayed(events[0].0, events[0].1) is Some {
            let rest = events.drop_first();
            assert(rest[i - 1] == events[i]);
            lemma_nothing_relayed_after_stop(rest, i - 1);
            assert(head.drop_first() =~= rest.take(i - 1));
        }
    }
}

} // verus!
