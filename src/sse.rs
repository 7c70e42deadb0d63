//! Server-Sent-Events framing: bytes arrive in chunks whose boundaries fall
//! anywhere; complete lines are cut strictly at `\n`, trailing carriage
//! returns are dropped, and only `data: ` lines produce events.
use vstd::prelude::*;

verus! {

/// What one `data: ` line of a stream carries, as a mathematical value.
pub enum SseEventModel {
    Data(Seq<u8>),
    Done,
}

/// What one `data: ` line of a stream carries.
#[derive(Debug)]
pub enum SseEvent {
    /// The payload after `data: ` (a JSON event in every vendor protocol).
    Data(Vec<u8>),
    /// The `[DONE]` sentinel: the stream ended successfully.
    Done,
}

impl View for SseEvent {
    type V = SseEventModel;

    open spec fn view(&self) -> SseEventModel {
        match self {
            SseEvent::Data(p) => SseEventModel::Data(p@),
            SseEvent::Done => SseEventModel::Done,
        }
    }
}

pub open spec fn newline() -> u8 {
    10u8
}

/// `data: `
pub open spec fn data_prefix() -> Seq<u8> {
    seq![100u8, 97u8, 116u8, 97u8, 58u8, 32u8]
}

/// `[DONE]`
pub open spec fn done_marker() -> Seq<u8> {
    seq![91u8, 68u8, 79u8, 78u8, 69u8, 93u8]
}

/// A line without all of its trailing carriage returns.
pub open spec fn trim_cr(line: Seq<u8>) -> Seq<u8>
    decreases line.len(),
{
    if line.len() > 0 && line.last() == 13u8 {
        trim_cr(line.drop_last())
    } else {
        line
    }
}

/// The event of one complete line: blank lines, comment lines (`:`) and
/// every line without the `data: ` prefix carry none.
pub open spec fn line_event(line: Seq<u8>) -> Option<SseEventModel> {
    let t = trim_cr(line);
    if t.len() >= 6 && t.subrange(0, 6) == data_prefix() {
        let payload = t.subrange(6, t.len() as int);
        if payload == done_marker() {
            Some(SseEventModel::Done)
        } else {
            Some(SseEventModel::Data(payload))
        }
    } else {
        None
    }
}

/// The state of a stream: the unfinished line, whether `[DONE]` was seen,
/// and every event produced so far.
pub struct SseModel {
    pub pending: Seq<u8>,
    pub done: bool,
    pub events: Seq<SseEventModel>,
}

/// A stream before its first byte.
pub open spec fn initial_model() -> SseModel {
    SseModel { pending: Seq::empty(), done: false, events: Seq::empty() }
}

/// One complete line ends: after `[DONE]` nothing more is produced.
pub open spec fn end_line(m: SseModel) -> SseModel {
    if m.done {
        SseModel { pending: Seq::empty(), ..m }
    } else {
        match line_event(m.pending) {
            None => SseModel { pending: Seq::empty(), ..m },
            Some(SseEventModel::Done) => SseModel {
                pending: Seq::empty(),
                done: true,
                events: m.events.push(SseEventModel::Done),
            },
            Some(e) => SseModel { pending: Seq::empty(), done: false, events: m.events.push(e) },
        }
    }
}

pub open spec fn step_byte(m: SseModel, b: u8) -> SseModel {
    if b == newline() {
        end_line(m)
    } else {
        SseModel { pending: m.pending.push(b), ..m }
    }
}

/// The state after the bytes `s`, delivered in one piece.
pub open spec fn feed_bytes(m: SseModel, s: Seq<u8>) -> SseModel
    decreases s.len(),
{
    if s.len() == 0 {
        m
    } else {
        step_byte(feed_bytes(m, s.drop_last()), s.last())
    }
}

/// The state after the chunks `cs`, delivered one after the other.
pub open spec fn feed_chunks(m: SseModel, cs: Seq<Seq<u8>>) -> SseModel
    decreases cs.len(),
{
    if cs.len() == 0 {
        m
    } else {
        feed_chunks(feed_bytes(m, cs[0]), cs.drop_first())
    }
}

pub proof fn lemma_feed_bytes_append(m: SseModel, a: Seq<u8>, b: Seq<u8>)
    ensures
        feed_bytes(m, a + b) == feed_bytes(feed_bytes(m, a), b),
    decreases b.len(),
{
    if b.len() == 0 {
        assert(a + b =~= a);
    } else {
        assert((a + b).drop_last() =~= a + b.drop_last());
        assert((a + b).last() == b.last());
        lemma_feed_bytes_append(m, a, b.drop_last());
    }
}

/// Splitting a stream into chunks at arbitrary byte offsets changes nothing:
/// the events (and hence the text and tokens derived from them), the `[DONE]`
/// flag and the unfinished line are those of the whole stream in one chunk.
pub proof fn lemma_chunk_boundaries_invisible(m: SseModel, cs: Seq<Seq<u8>>)
    ensures
        feed_chunks(m, cs) == feed_bytes(m, cs.flatten()),
    decreases cs.len(),
{
    if cs.len() == 0 {
        assert(cs.flatten() =~= Seq::<u8>::empty());
    } else {
        lemma_chunk_boundaries_invisible(feed_bytes(m, cs[0]), cs.drop_first());
        lemma_feed_bytes_append(m, cs[0], cs.drop_first().flatten());
    }
}

/// The state `m` with its event record emptied.
pub open spec fn without_events(m: SseModel) -> SseModel {
    SseModel { events: Seq::empty(), ..m }
}

/// Incremental SSE decoder: holds the unfinished line between chunks.
pub struct SseDecoder {
    pub pending: Vec<u8>,
    pub done: bool,
}

impl SseDecoder {
    pub open spec fn model(&self) -> SseModel {
        SseModel { pending: self.pending@, done: self.done, events: Seq::empty() }
    }

    pub fn new() -> (r: SseDecoder)
        ensures
            r.model() == initial_model(),
    {
        SseDecoder { pending: Vec::new(), done: false }
    }

    /// Takes the next chunk of the stream and returns the events of the lines
    /// that it completes, in order.
    pub fn feed(&mut self, chunk: &[u8]) -> (events: Vec<SseEvent>)
        ensures
            final(self).model() == without_events(feed_bytes(old(self).model(), chunk@)),
            events@.map_values(|e: SseEvent| e@) == feed_bytes(old(self).model(), chunk@).events,
    {
        let ghost start = self.model();
        let mut events: Vec<SseEvent> = Vec::new();
        let mut i: usize = 0;
        while i < chunk.len()
            invariant
                i <= chunk@.len(),
                start.events == Seq::<SseEventModel>::empty(),
                self.model() == without_events(feed_bytes(start, chunk@.subrange(0, i as int))),
                events@.map_values(|e: SseEvent| e@) == feed_bytes(
                    start,
                    chunk@.subrange(0, i as int),
                ).events,
            decreases chunk@.len() - i,
        {
            let b = chunk[i];
            let ghost before = feed_bytes(start, chunk@.subrange(0, i as int));
            assert(chunk@.subrange(0, i + 1).drop_last() =~= chunk@.subrange(0, i as int));
            if b == 10u8 {
                if !self.done {
                    let ev = classify_line(&self.pending);
                    match ev {
                        Some(e) => {
                            let is_done = matches!(e, SseEvent::Done);
                            events.push(e);
                            if is_done {
                                self.done = true;
                            }
                        },
                        None => {},
                    }
                }
                self.pending = Vec::new();
                assert(events@.map_values(|e: SseEvent| e@) =~= end_line(before).events);
            } else {
                self.pending.push(b);
            }
            i = i + 1;
        }
        assert(chunk@.subrange(0, chunk@.len() as int) =~= chunk@);
        events
    }
}

/// The event that one complete line (without its `\n`) carries.
pub fn classify_line(line: &Vec<u8>) -> (r: Option<SseEvent>)
    ensures
        (r matches Some(e) ==> line_event(line@) == Some(e@)),
        (r is None ==> line_event(line@) is None),
{
    let mut end: usize = line.len();
    assert(line@.subrange(0, end as int) =~= line@);
    while end > 0 && line[end - 1] == 13u8
        invariant
            end <= line@.len(),
            trim_cr(line@) == trim_cr(line@.subrange(0, end as int)),
        decreases end,
    {
        assert(line@.subrange(0, end as int).drop_last() =~= line@.subrange(0, end - 1));
        end = end - 1;
    }
    let ghost t = line@.subrange(0, end as int);
    assert(trim_cr(t) == t);
    if end < 6 || line[0] != 100u8 || line[1] != 97u8 || line[2] != 116u8 || line[3] != 97u8
        || line[4] != 58u8 || line[5] != 32u8 {
        assert(t.len() < 6 || t.subrange(0, 6) != data_prefix()) by {
            if t.len() >= 6 {
                assert(t.subrange(0, 6)[0] == t[0]);
                assert(t.subrange(0, 6)[1] == t[1]);
                assert(t.subrange(0, 6)[2] == t[2]);
                assert(t.subrange(0, 6)[3] == t[3]);
                assert(t.subrange(0, 6)[4] == t[4]);
                assert(t.subrange(0, 6)[5] == t[5]);
            }
        }
        return None;
    }
    assert(t.subrange(0, 6) =~= data_prefix());
    let mut payload: Vec<u8> = Vec::new();
    let mut j: usize = 6;
    while j < end
        invariant
            6 <= j <= end <= line@.len(),
            payload@ == line@.subrange(6, j as int),
        decreases end - j,
    {
        payload.push(line[j]);
        assert(payload@ =~= line@.subrange(6, j + 1));
        j = j + 1;
    }
    assert(t.subrange(6, t.len() as int) =~= payload@);
    if payload.len() == 6 && payload[0] == 91u8 && payload[1] == 68u8 && payload[2] == 79u8
        && payload[3] == 78u8 && payload[4] == 69u8 && payload[5] == 93u8 {
        assert(payload@ =~= done_marker());
        Some(SseEvent::Done)
    } else {
        assert(payload@ != done_marker()) by {
            if payload@ == done_marker() {
                assert(payload@[0] == 91u8);
            }
        }
        Some(SseEvent::Data(payload))
    }
}

} // verus!
