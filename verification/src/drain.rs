//! The drain task: consuming the backend's output streams.
//!
//! After a successful spawn the child's standard output and standard error
//! are read line by line, each stream independently, until both reach end
//! of stream or fail; only then is the child's exit awaited. The reads
//! themselves are asynchronous and happen outside the library; what is
//! verified here is the state the task keeps and how each read outcome
//! changes it: which lines are logged under which tag, when a stream
//! counts as closed, and when the task may move on to the exit wait.

use vstd::prelude::*;

verus! {

/// Which of the child's two output streams an event belongs to.
#[derive(Clone, Copy, Debug, PartialEq, Eq, Structural)]
pub enum StreamTag {
    /// The child's standard output.
    Stdout,
    /// The child's standard error.
    Stderr,
}

/// The outcome of one attempted line read on a stream.
#[derive(Clone, Debug, PartialEq, Eq)]
pub enum ReadEvent {
    /// A full line, without its terminator.
    Line(String),
    /// The stream reached end of stream; nothing more will arrive on it.
    EndOfStream,
    /// The read failed; the payload describes the failure. Draining of
    /// this stream stops, the other stream is unaffected.
    ReadFailed(String),
}

/// The drain task's state as mathematics: what has been logged so far,
/// which streams are still open, and whether the exit wait has finished.
#[verifier::ext_equal]
pub struct DrainModel {
    /// Standard output has not yet closed.
    pub stdout_open: bool,
    /// Standard error has not yet closed.
    pub stderr_open: bool,
    /// Every line logged from standard output, oldest first.
    pub stdout_lines: Seq<String>,
    /// Every line logged from standard error, oldest first.
    pub stderr_lines: Seq<String>,
    /// One note per failed read: the stream it happened on and the
    /// failure's description.
    pub read_failures: Seq<(StreamTag, String)>,
    /// The child's exit has been observed.
    pub exit_recorded: bool,
}

/// The state a drain task starts in: both streams open, nothing logged.
pub open spec fn drain_init() -> DrainModel {
    DrainModel {
        stdout_open: true,
        stderr_open: true,
        stdout_lines: Seq::empty(),
        stderr_lines: Seq::empty(),
        read_failures: Seq::empty(),
        exit_recorded: false,
    }
}

/// Whether the given stream is still open in `m`.
pub open spec fn stream_open(m: DrainModel, tag: StreamTag) -> bool {
    match tag {
        StreamTag::Stdout => m.stdout_open,
        StreamTag::Stderr => m.stderr_open,
    }
}

/// Both streams have closed: the task may wait for the child's exit.
pub open spec fn drained(m: DrainModel) -> bool {
    !m.stdout_open && !m.stderr_open
}

/// How one read outcome on one stream changes the task's state: a line is
/// appended to that stream's log; end of stream closes the stream; a
/// failed read is noted and closes the stream. The other stream is never
/// touched.
pub open spec fn drain_step(m: DrainModel, tag: StreamTag, ev: ReadEvent) -> DrainModel {
    match ev {
        ReadEvent::Line(s) => match tag {
            StreamTag::Stdout => DrainModel { stdout_lines: m.stdout_lines.push(s), ..m },
            StreamTag::Stderr => DrainModel { stderr_lines: m.stderr_lines.push(s), ..m },
        },
        ReadEvent::EndOfStream => match tag {
            StreamTag::Stdout => DrainModel { stdout_open: false, ..m },
            StreamTag::Stderr => DrainModel { stderr_open: false, ..m },
        },
        ReadEvent::ReadFailed(d) => match tag {
            StreamTag::Stdout => DrainModel {
                stdout_open: false,
                read_failures: m.read_failures.push((tag, d)),
                ..m
            },
            StreamTag::Stderr => DrainModel {
                stderr_open: false,
                read_failures: m.read_failures.push((tag, d)),
                ..m
            },
        },
    }
}

/// The state after handling a whole sequence of read events in order.
pub open spec fn drain_run(m: DrainModel, events: Seq<(StreamTag, ReadEvent)>) -> DrainModel
    decreases events.len(),
{
    if events.len() == 0 {
        m
    } else {
        drain_run(drain_step(m, events[0].0, events[0].1), events.drop_first())
    }
}

/// Whether `events` can actually arrive from state `m`: each event's
/// stream is still open when the event comes, and the exit wait has not
/// yet run. A closed stream is read no further, so it produces no events.
pub open spec fn events_valid(m: DrainModel, events: Seq<(StreamTag, ReadEvent)>) -> bool
    decreases events.len(),
{
    if events.len() == 0 {
        true
    } else {
        &&& !m.exit_recorded
        &&& stream_open(m, events[0].0)
        &&& events_valid(drain_step(m, events[0].0, events[0].1), events.drop_first())
    }
}

/// The lines that `events` carries for the stream `tag`, in arrival order.
pub open spec fn lines_of(events: Seq<(StreamTag, ReadEvent)>, tag: StreamTag) -> Seq<String>
    decreases events.len(),
{
    if events.len() == 0 {
        Seq::empty()
    } else {
        let head: Seq<String> = match events[0].1 {
            ReadEvent::Line(s) => if events[0].0 == tag {
                seq![s]
            } else {
                Seq::empty()
            },
            ReadEvent::EndOfStream => Seq::empty(),
            ReadEvent::ReadFailed(_) => Seq::empty(),
        };
        head + lines_of(events.drop_first(), tag)
    }
}

/// Draining logs every line, under its own stream's tag, in arrival
/// order, and nothing else: after any sequence of read events that can
/// arrive from `m`, each stream's log is its old log followed by exactly
/// the lines the events carried for that stream.
pub proof fn lemma_drain_logs_all_lines(m: DrainModel, events: Seq<(StreamTag, ReadEvent)>)
    requires
        events_valid(m, events),
    ensures
        drain_run(m, events).stdout_lines == m.stdout_lines + lines_of(
            events,
            StreamTag::Stdout,
        ),
        drain_run(m, events).stderr_lines == m.stderr_lines + lines_of(
            events,
            StreamTag::Stderr,
        ),
    decreases events.len(),
{
    if events.len() == 0 {
        assert(m.stdout_lines + lines_of(events, StreamTag::Stdout) =~= m.stdout_lines);
        assert(m.stderr_lines + lines_of(events, StreamTag::Stderr) =~= m.stderr_lines);
    } else {
        let m1 = drain_step(m, events[0].0, events[0].1);
        lemma_drain_logs_all_lines(m1, events.drop_first());
        assert(m1.stdout_lines + lines_of(events.drop_first(), StreamTag::Stdout)
            =~= m.stdout_lines + lines_of(events, StreamTag::Stdout));
        assert(m1.stderr_lines + lines_of(events.drop_first(), StreamTag::Stderr)
            =~= m.stderr_lines + lines_of(events, StreamTag::Stderr));
    }
}

/// The failed reads that `events` carries, in arrival order: the stream
/// each happened on and its description.
pub open spec fn failures_of(events: Seq<(StreamTag, ReadEvent)>) -> Seq<(StreamTag, String)>
    decreases events.len(),
{
    if events.len() == 0 {
        Seq::empty()
    } else {
        let head: Seq<(StreamTag, String)> = match events[0].1 {
            ReadEvent::Line(_) => Seq::empty(),
            ReadEvent::EndOfStream => Seq::empty(),
            ReadEvent::ReadFailed(d) => seq![(events[0].0, d)],
        };
        head + failures_of(events.drop_first())
    }
}

/// Every failed read is noted, in arrival order, and nothing else is:
/// after any sequence of read events that can arrive from `m`, the
/// failure notes are the old ones followed by exactly the failures the
/// events carried.
pub proof fn lemma_drain_notes_all_failures(m: DrainModel, events: Seq<(StreamTag, ReadEvent)>)
    requires
        events_valid(m, events),
    ensures
        drain_run(m, events).read_failures == m.read_failures + failures_of(events),
    decreases events.len(),
{
    if events.len() == 0 {
        assert(m.read_failures + failures_of(events) =~= m.read_failures);
    } else {
        let m1 = drain_step(m, events[0].0, events[0].1);
        lemma_drain_notes_all_failures(m1, events.drop_first());
        assert(m1.read_failures + failures_of(events.drop_first()) =~= m.read_failures
            + failures_of(events));
    }
}

/// Whether `events` holds an event that closes the stream `tag`: end of
/// stream, or a failed read.
pub open spec fn has_closing_event(events: Seq<(StreamTag, ReadEvent)>, tag: StreamTag) -> bool
    decreases events.len(),
{
    if events.len() == 0 {
        false
    } else {
        let closes_here = events[0].0 == tag && match events[0].1 {
            ReadEvent::Line(_) => false,
            ReadEvent::EndOfStream => true,
            ReadEvent::ReadFailed(_) => true,
        };
        closes_here || has_closing_event(events.drop_first(), tag)
    }
}

/// A stream closes exactly when it reports end of stream or a failed
/// read, and never because the other stream did: draining does not stop
/// early.
pub proof fn lemma_stream_closes_only_on_its_own_events(
    m: DrainModel,
    events: Seq<(StreamTag, ReadEvent)>,
    tag: StreamTag,
)
    requires
        events_valid(m, events),
    ensures
        stream_open(drain_run(m, events), tag) == (stream_open(m, tag) && !has_closing_event(
            events,
            tag,
        )),
    decreases events.len(),
{
    if events.len() > 0 {
        let m1 = drain_step(m, events[0].0, events[0].1);
        lemma_stream_closes_only_on_its_own_events(m1, events.drop_first(), tag);
    }
}

/// The exit wait comes last: no read event arrives once the exit has been
/// recorded, so a valid run never changes `exit_recorded`.
pub proof fn lemma_no_reads_after_exit(m: DrainModel, events: Seq<(StreamTag, ReadEvent)>)
    requires
        events_valid(m, events),
        m.exit_recorded,
    ensures
        events.len() == 0,
{
}

/// The drain task's concrete state. The caller that spawned the child
/// hands the pipes to exactly one value of this type and keeps nothing:
/// the task alone consumes the streams.
pub struct DrainTask {
    /// Standard output has not yet closed.
    pub stdout_open: bool,
    /// Standard error has not yet closed.
    pub stderr_open: bool,
    /// Every line logged from standard output, oldest first.
    pub stdout_lines: Vec<String>,
    /// Every line logged from standard error, oldest first.
    pub stderr_lines: Vec<String>,
    /// One note per failed read.
    pub read_failures: Vec<(StreamTag, String)>,
    /// The child's exit has been observed.
    pub exit_recorded: bool,
}

impl View for DrainTask {
    type V = DrainModel;

    open spec fn view(&self) -> DrainModel {
        DrainModel {
            stdout_open: self.stdout_open,
            stderr_open: self.stderr_open,
            stdout_lines: self.stdout_lines@,
            stderr_lines: self.stderr_lines@,
            read_failures: self.read_failures@,
            exit_recorded: self.exit_recorded,
        }
    }
}

impl DrainTask {
    /// A fresh task for a just-spawned child: both streams open, nothing
    /// logged yet.
    pub fn new() -> (t: DrainTask)
        ensures
            t@ == drain_init(),
    {
        let t = DrainTask {
            stdout_open: true,
            stderr_open: true,
            stdout_lines: Vec::new(),
            stderr_lines: Vec::new(),
            read_failures: Vec::new(),
            exit_recorded: false,
        };
        proof {
            assert(t@ =~= drain_init());
        }
        t
    }

    /// Records the outcome of one line read on the stream `tag`. Only an
    /// open stream is read, and only before the exit wait.
    pub fn handle_event(&mut self, tag: StreamTag, ev: ReadEvent)
        requires
            stream_open(old(self)@, tag),
            !old(self).exit_recorded,
        ensures
            final(self)@ == drain_step(old(self)@, tag, ev),
    {
        match ev {
            ReadEvent::Line(s) => {
                match tag {
                    StreamTag::Stdout => self.stdout_lines.push(s),
                    StreamTag::Stderr => self.stderr_lines.push(s),
                }
            },
            ReadEvent::EndOfStream => {
                match tag {
                    StreamTag::Stdout => self.stdout_open = false,
                    StreamTag::Stderr => self.stderr_open = false,
                }
            },
            ReadEvent::ReadFailed(d) => {
                match tag {
                    StreamTag::Stdout => self.stdout_open = false,
                    StreamTag::Stderr => self.stderr_open = false,
                }
                self.read_failures.push((tag, d));
            },
        }
        proof {
            assert(self@ =~= drain_step(old(self)@, tag, ev));
        }
    }

    /// Whether the stream `tag` is still open: the loop keeps reading a
    /// stream exactly while this holds.
    pub fn is_open(&self, tag: StreamTag) -> (r: bool)
        ensures
            r == stream_open(self@, tag),
    {
        match tag {
            StreamTag::Stdout => self.stdout_open,
            StreamTag::Stderr => self.stderr_open,
        }
    }

    /// Whether both streams have closed, so the exit wait may begin.
    pub fn is_drained(&self) -> (r: bool)
        ensures
            r == drained(self@),
    {
        !self.stdout_open && !self.stderr_open
    }

    /// Records that the wait for the child's exit returned. The wait runs
    /// only after both streams have closed, and only once; the exit
    /// status itself is logged by the caller and kept nowhere.
    pub fn record_exit(&mut self)
        requires
            drained(old(self)@),
            !old(self).exit_recorded,
        ensures
            final(self)@ == (DrainModel { exit_recorded: true, ..old(self)@ }),
    {
        self.exit_recorded = true;
        proof {
            assert(self@ =~= DrainModel { exit_recorded: true, ..old(self)@ });
        }
    }
}

} // verus!
