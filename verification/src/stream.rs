//! The streaming consumer: frames chunks into lines, decodes `data: ` lines
//! into events, dispatches them in arrival order, and records the
//! conversation identifier carried by the terminal `done` event.
//!
//! Per line of the stream: an empty line or one without the `data: ` prefix
//! is skipped; a prefixed line whose payload is not a well-formed event is
//! skipped without aborting the stream; a line that is not valid UTF-8 aborts
//! the stream with an API error, as the wire is a text protocol.

use vstd::prelude::*;

verus! {

use vstd::string::StringExecFns;
use vstd::utf8::valid_utf8;
use crate::event::Delivery;
use crate::event::DeliveryModel;
use crate::event::control_deliveries;
use crate::event::decode_event;
use crate::event::decoded_event;
use crate::event::dispatch_event;
use crate::event::event_deliveries;
use crate::event::event_next_id;
use crate::event::utf8_check;
use crate::frame::LineFramer;
use crate::frame::framed;
use crate::frame::strip_cr_s;
use crate::types::ErrModel;
use crate::types::NLUIError;

/// The bytes of the literal `data: ` prefix that marks an event line.
pub open spec fn data_prefix() -> Seq<u8> {
    seq![100u8, 97u8, 116u8, 97u8, 58u8, 32u8]
}

/// Whether a line carries an event: it must begin with the `data: ` prefix
/// (an empty line in particular does not).
pub open spec fn is_data_line(l: Seq<u8>) -> bool {
    l.len() >= 6 && l.take(6) == data_prefix()
}

/// What one framed line does to the stream: `None` when the line is not
/// valid UTF-8, which aborts the stream; otherwise the deliveries it produces
/// and the conversation identifier after it. A line without the prefix, and a
/// prefixed line whose payload decodes to no event, produce nothing.
pub open spec fn line_step(raw: Seq<u8>, id: Seq<char>) -> Option<(Seq<DeliveryModel>, Seq<char>)> {
    let l = strip_cr_s(raw);
    if !valid_utf8(l) {
        None
    } else if !is_data_line(l) {
        Some((seq![], id))
    } else {
        match decoded_event(l.skip(6)) {
            None => Some((seq![], id)),
            Some(e) => Some((event_deliveries(e), event_next_id(e, id))),
        }
    }
}

/// Runs a sequence of framed lines: the deliveries of all lines in order, the
/// conversation identifier at the end, and whether the stream aborted on a
/// line that is not text. An abort keeps the deliveries of the lines before
/// it and drops everything from the bad line on.
pub open spec fn run_lines(lines: Seq<Seq<u8>>, id: Seq<char>) -> (Seq<DeliveryModel>, Seq<char>, bool)
    decreases lines.len(),
{
    if lines.len() == 0 {
        (seq![], id, false)
    } else {
        match line_step(lines[0], id) {
            None => (seq![], id, true),
            Some(r0) => {
                let rest = run_lines(lines.skip(1), r0.1);
                (r0.0 + rest.0, rest.1, rest.2)
            },
        }
    }
}

/// Running a concatenation of line sequences equals running the first and
/// then the second from where the first left off, as long as the first does
/// not abort.
pub proof fn lemma_run_lines_concat(a: Seq<Seq<u8>>, b: Seq<Seq<u8>>, id: Seq<char>)
    requires
        !run_lines(a, id).2,
    ensures
        ({
            let ra = run_lines(a, id);
            let rb = run_lines(b, ra.1);
            run_lines(a + b, id).0 == ra.0 + rb.0 && run_lines(a + b, id).1 == rb.1 && run_lines(
                a + b,
                id,
            ).2 == rb.2
        }),
    decreases a.len(),
{
    let ra = run_lines(a, id);
    let rb = run_lines(b, ra.1);
    if a.len() == 0 {
        assert(a + b =~= b);
        assert(ra.0 + rb.0 =~= rb.0);
    } else {
        let r0 = line_step(a[0], id).unwrap();
        lemma_run_lines_concat(a.skip(1), b, r0.1);
        assert((a + b).skip(1) =~= a.skip(1) + b);
        assert((a + b)[0] == a[0]);
        let rmid = run_lines(a.skip(1), r0.1);
        let rtail = run_lines(b, rmid.1);
        assert(r0.0 + (rmid.0 + rtail.0) =~= (r0.0 + rmid.0) + rtail.0);
    }
}

/// Running a single line is stepping it.
pub proof fn lemma_run_single_line(l: Seq<u8>, id: Seq<char>)
    ensures
        line_step(l, id) matches Some(r0) ==> run_lines(seq![l], id).0 == r0.0 && run_lines(
            seq![l],
            id,
        ).1 == r0.1 && !run_lines(seq![l], id).2,
        line_step(l, id) is None ==> run_lines(seq![l], id) == (
            Seq::<DeliveryModel>::empty(),
            id,
            true,
        ),
{
    let s = seq![l];
    assert(s[0] == l);
    assert(s.skip(1) =~= Seq::<Seq<u8>>::empty());
    match line_step(l, id) {
        Some(r0) => {
            assert(run_lines(s.skip(1), r0.1).0 =~= Seq::<DeliveryModel>::empty());
            assert(run_lines(s, id).0 =~= r0.0 + run_lines(s.skip(1), r0.1).0);
            assert(r0.0 + Seq::<DeliveryModel>::empty() =~= r0.0);
        },
        None => {
            assert(run_lines(s, id).0 =~= Seq::<DeliveryModel>::empty());
        },
    }
}

/// Chunk boundaries do not matter to the consumer: feeding bytes `a` and
/// then `b` yields the deliveries, identifier, pending tail and abort state
/// of feeding `a + b` at once, as long as `a` alone does not abort.
pub proof fn lemma_stream_chunks_compose(a: Seq<u8>, b: Seq<u8>, pending: Seq<u8>, id: Seq<char>)
    requires
        !run_lines(framed(a, pending).0, id).2,
    ensures
        ({
            let fa = framed(a, pending);
            let ra = run_lines(fa.0, id);
            let fb = framed(b, fa.1);
            let rb = run_lines(fb.0, ra.1);
            let f = framed(a + b, pending);
            let r = run_lines(f.0, id);
            r.0 == ra.0 + rb.0 && r.1 == rb.1 && r.2 == rb.2 && f.1 == fb.1
        }),
{
    crate::frame::lemma_framed_chunks_compose(a, b, pending);
    lemma_run_lines_concat(framed(a, pending).0, framed(b, framed(a, pending).1).0, id);
}

/// The message of the API error raised when a stream line is not text.
pub open spec fn framing_error_text() -> Seq<char> {
    "event stream line is not valid UTF-8"@
}

/// Mathematical state of a `ChatStream`: the buffered bytes of the unfinished
/// line, the recorded conversation identifier, and whether the stream
/// aborted.
pub struct StreamModel {
    pub pending: Seq<u8>,
    pub id: Seq<char>,
    pub failed: bool,
}

/// Incremental consumer of one streaming response body.
///
/// Feed every chunk of the body with `push_chunk`, then call `finish` when
/// the body ends; both hand back the deliveries the observer is owed, in
/// wire order. The recorded conversation identifier starts as the one the
/// caller supplied (empty when starting a fresh conversation) and follows
/// every terminal `done` event that carries one.
pub struct ChatStream {
    framer: LineFramer,
    conversation_id: String,
    failed: bool,
}

impl View for ChatStream {
    type V = StreamModel;

    closed spec fn view(&self) -> StreamModel {
        StreamModel { pending: self.framer@, id: self.conversation_id@, failed: self.failed }
    }
}

/// Processes one framed line: dispatches its event, if any, appending the
/// deliveries to `out`, and reports `false` when the line is not text.
fn process_line(raw: &[u8], conversation_id: &mut String, out: &mut Vec<Delivery>) -> (ok: bool)
    ensures
        ({
            match line_step(raw@, old(conversation_id)@) {
                None => !ok && final(conversation_id)@ == old(conversation_id)@ && final(out)@
                    == old(out)@,
                Some(r) => ok && final(conversation_id)@ == r.1 && final(out)@.map_values(
                    |d: Delivery| d@,
                ) == old(out)@.map_values(|d: Delivery| d@) + r.0,
            }
        }),
{
    let l: &[u8] = if raw.len() > 0 && raw[raw.len() - 1] == 13u8 {
        &raw[0..raw.len() - 1]
    } else {
        raw
    };
    proof {
        assert(l@ =~= strip_cr_s(raw@));
    }
    if !utf8_check(l) {
        return false;
    }
    let prefixed = l.len() >= 6 && l[0] == 100u8 && l[1] == 97u8 && l[2] == 116u8 && l[3] == 97u8
        && l[4] == 58u8 && l[5] == 32u8;
    proof {
        if prefixed {
            assert(l@.take(6) =~= data_prefix());
        } else if l@.len() >= 6 && l@.take(6) == data_prefix() {
            assert(l@[0] == data_prefix()[0]);
            assert(l@[1] == data_prefix()[1]);
            assert(l@[2] == data_prefix()[2]);
            assert(l@[3] == data_prefix()[3]);
            assert(l@[4] == data_prefix()[4]);
            assert(l@[5] == data_prefix()[5]);
            assert(false);
        }
        assert(prefixed == is_data_line(l@));
    }
    if !prefixed {
        proof {
            assert(final(out)@.map_values(|d: Delivery| d@) =~= old(out)@.map_values(
                |d: Delivery| d@,
            ) + Seq::<DeliveryModel>::empty());
        }
        return true;
    }
    let payload: &[u8] = &l[6..l.len()];
    proof {
        assert(payload@ =~= l@.skip(6));
    }
    match decode_event(payload) {
        None => {
            proof {
                assert(out@.map_values(|d: Delivery| d@) =~= out@.map_values(|d: Delivery| d@)
                    + Seq::<DeliveryModel>::empty());
            }
            true
        },
        Some(event) => {
            let ghost prev_out = out@;
            let mut ds = dispatch_event(event, conversation_id);
            let ghost ds_m = ds@;
            out.append(&mut ds);
            proof {
                assert(out@.map_values(|d: Delivery| d@) =~= prev_out.map_values(|d: Delivery| d@)
                    + ds_m.map_values(|d: Delivery| d@));
            }
            true
        },
    }
}

impl ChatStream {
    /// A consumer for a fresh streaming call. The recorded identifier starts
    /// as the caller-supplied conversation identifier, or empty when starting
    /// a new conversation.
    pub fn new(initial_conversation_id: Option<&str>) -> (s: Self)
        ensures
            s@.pending == Seq::<u8>::empty(),
            s@.failed == false,
            s@.id == match initial_conversation_id {
                Some(c) => c@,
                None => Seq::<char>::empty(),
            },
    {
        let conversation_id = match initial_conversation_id {
            Some(c) => String::from_str(c),
            None => String::new(),
        };
        ChatStream { framer: LineFramer::new(), conversation_id, failed: false }
    }

    /// The conversation identifier recorded so far.
    pub fn conversation_id(&self) -> (c: &String)
        ensures
            c@ == self@.id,
    {
        &self.conversation_id
    }

    /// Hands the recorded conversation identifier out, consuming the stream.
    pub fn into_conversation_id(self) -> (c: String)
        ensures
            c@ == self@.id,
    {
        self.conversation_id
    }

    /// Whether the stream aborted on a line that is not text.
    pub fn has_failed(&self) -> (b: bool)
        ensures
            b == self@.failed,
    {
        self.failed
    }

    /// Feeds one chunk of the response body. Returns the deliveries the
    /// chunk's completed lines produce, in order, and the API error if a
    /// completed line is not text — the deliveries of the lines before the
    /// bad one stand. A chunk fed after an abort does nothing.
    pub fn push_chunk(&mut self, chunk: &[u8]) -> (r: (Vec<Delivery>, Option<NLUIError>))
        ensures
            old(self)@.failed ==> final(self)@ == old(self)@ && r.0@.len() == 0 && r.1 is None,
            !old(self)@.failed ==> ({
                let fr = framed(chunk@, old(self)@.pending);
                let run = run_lines(fr.0, old(self)@.id);
                r.0@.map_values(|d: Delivery| d@) == run.0 && final(self)@.id == run.1
                    && final(self)@.failed == run.2 && (run.2 ==> (r.1 matches Some(e) && e@
                    == ErrModel::ApiError(framing_error_text()) && final(self)@.pending == Seq::<
                    u8,
                >::empty())) && (!run.2 ==> r.1 is None && final(self)@.pending == fr.1)
            }),
    {
        if self.failed {
            return (Vec::new(), None);
        }
        let ghost pending0 = self.framer@;
        let ghost id0 = self.conversation_id@;
        let lines = self.framer.push(chunk);
        let ghost lines_m = lines@.map_values(|l: Vec<u8>| l@);
        let ghost fr = framed(chunk@, pending0);
        let mut out: Vec<Delivery> = Vec::new();
        let mut i: usize = 0;
        proof {
            assert(lines_m.take(0) =~= Seq::<Seq<u8>>::empty());
            assert(out@.map_values(|d: Delivery| d@) =~= run_lines(lines_m.take(0), id0).0);
        }
        while i < lines.len()
            invariant
                i <= lines.len(),
                !old(self)@.failed,
                pending0 == old(self)@.pending,
                id0 == old(self)@.id,
                fr == framed(chunk@, pending0),
                lines_m == fr.0,
                lines_m == lines@.map_values(|l: Vec<u8>| l@),
                !run_lines(lines_m.take(i as int), id0).2,
                out@.map_values(|d: Delivery| d@) == run_lines(lines_m.take(i as int), id0).0,
                self.conversation_id@ == run_lines(lines_m.take(i as int), id0).1,
                self.framer@ == fr.1,
                self.failed == false,
            decreases lines.len() - i,
        {
            let ghost id_mid = self.conversation_id@;
            let ok = process_line(lines[i].as_slice(), &mut self.conversation_id, &mut out);
            proof {
                assert(lines_m[i as int] == lines@[i as int]@);
                lemma_run_lines_concat(lines_m.take(i as int), seq![lines_m[i as int]], id0);
                lemma_run_single_line(lines_m[i as int], id_mid);
                assert(lines_m.take(i as int) + seq![lines_m[i as int]] =~= lines_m.take(i + 1));
                if ok {
                    let ra = run_lines(lines_m.take(i as int), id0);
                    let r0 = line_step(lines_m[i as int], id_mid).unwrap();
                    assert(run_lines(lines_m.take(i + 1), id0).0 =~= ra.0 + r0.0);
                    assert(out@.map_values(|d: Delivery| d@) =~= ra.0 + r0.0);
                }
            }
            if !ok {
                self.failed = true;
                self.framer.clear();
                let err = NLUIError::ApiError(String::from_str(
                    "event stream line is not valid UTF-8",
                ));
                proof {
                    lemma_run_lines_concat(
                        lines_m.take(i as int),
                        lines_m.skip(i as int),
                        id0,
                    );
                    assert(lines_m.take(i as int) + lines_m.skip(i as int) =~= lines_m);
                    assert(lines_m.skip(i as int)[0] == lines_m[i as int]);
                    assert(run_lines(lines_m.skip(i as int), id_mid) == (
                        Seq::<DeliveryModel>::empty(),
                        id_mid,
                        true,
                    ));
                    assert(run_lines(lines_m, id0).0 =~= out@.map_values(|d: Delivery| d@));
                }
                return (out, Some(err));
            }
            i += 1;
        }
        proof {
            assert(lines_m.take(lines.len() as int) =~= lines_m);
        }
        (out, None)
    }

    /// Ends the stream: processes the unfinished last line, if any, exactly
    /// as a completed line. After this nothing is pending. Calling it after
    /// an abort does nothing.
    pub fn finish(&mut self) -> (r: (Vec<Delivery>, Option<NLUIError>))
        ensures
            old(self)@.failed ==> final(self)@ == old(self)@ && r.0@.len() == 0 && r.1 is None,
            !old(self)@.failed ==> ({
                let run = run_lines(tail_lines(old(self)@.pending), old(self)@.id);
                r.0@.map_values(|d: Delivery| d@) == run.0 && final(self)@.id == run.1
                    && final(self)@.failed == run.2 && final(self)@.pending == Seq::<u8>::empty()
                    && (run.2 ==> (r.1 matches Some(e) && e@ == ErrModel::ApiError(
                    framing_error_text(),
                ))) && (!run.2 ==> r.1 is None)
            }),
    {
        if self.failed {
            return (Vec::new(), None);
        }
        let ghost pending0 = self.framer@;
        let ghost id0 = self.conversation_id@;
        let tail = self.framer.finish();
        let mut out: Vec<Delivery> = Vec::new();
        match tail {
            None => {
                proof {
                    assert(pending0.len() == 0);
                    assert(tail_lines(pending0) =~= Seq::<Seq<u8>>::empty());
                    assert(out@.map_values(|d: Delivery| d@) =~= Seq::<DeliveryModel>::empty());
                }
                (out, None)
            },
            Some(line) => {
                let ok = process_line(line.as_slice(), &mut self.conversation_id, &mut out);
                proof {
                    assert(pending0.len() > 0);
                    assert(tail_lines(pending0) == seq![line@]);
                    lemma_run_single_line(line@, id0);
                    if ok {
                        let r0 = line_step(line@, id0).unwrap();
                        assert(run_lines(tail_lines(pending0), id0).0 == r0.0);
                        assert(Seq::<Delivery>::empty().map_values(|d: Delivery| d@) =~= Seq::<
                            DeliveryModel,
                        >::empty());
                        assert(Seq::<DeliveryModel>::empty() + r0.0 =~= r0.0);
                        assert(out@.map_values(|d: Delivery| d@) =~= r0.0);
                    } else {
                        assert(out@.map_values(|d: Delivery| d@) =~= Seq::<DeliveryModel>::empty());
                    }
                }
                if !ok {
                    self.failed = true;
                    let err = NLUIError::ApiError(String::from_str(
                        "event stream line is not valid UTF-8",
                    ));
                    (out, Some(err))
                } else {
                    (out, None)
                }
            },
        }
    }
}

/// The lines of a stream's unfinished tail when the body ends: the tail is
/// one final line when it is nonempty, no line otherwise.
pub open spec fn tail_lines(pending: Seq<u8>) -> Seq<Seq<u8>> {
    if pending.len() == 0 {
        seq![]
    } else {
        seq![pending]
    }
}

/// The completion signals among a stream's deliveries, in order.
pub open spec fn completion_signals(ds: Seq<DeliveryModel>) -> Seq<DeliveryModel>
    decreases ds.len(),
{
    if ds.len() == 0 {
        Seq::empty()
    } else {
        let rest = completion_signals(ds.skip(1));
        if ds[0] is Done {
            seq![ds[0]] + rest
        } else {
            rest
        }
    }
}

/// Completion signals of a concatenation are those of the parts, in order.
pub proof fn lemma_completion_signals_add(a: Seq<DeliveryModel>, b: Seq<DeliveryModel>)
    ensures
        completion_signals(a + b) == completion_signals(a) + completion_signals(b),
    decreases a.len(),
{
    if a.len() == 0 {
        assert(a + b =~= b);
        assert(completion_signals(a) + completion_signals(b) =~= completion_signals(b));
    } else {
        lemma_completion_signals_add(a.skip(1), b);
        assert((a + b).skip(1) =~= a.skip(1) + b);
        assert((a + b)[0] == a[0]);
        if a[0] is Done {
            assert(seq![a[0]] + (completion_signals(a.skip(1)) + completion_signals(b)) =~= (
            seq![a[0]] + completion_signals(a.skip(1))) + completion_signals(b));
        }
    }
}

/// The conversation identifier a line's terminal event carries: `Some` only
/// for a line that decodes to a `done` event whose payload has one.
pub open spec fn line_done_id(raw: Seq<u8>) -> Option<Seq<char>> {
    let l = strip_cr_s(raw);
    if valid_utf8(l) && is_data_line(l) {
        match decoded_event(l.skip(6)) {
            Some(e) => if e.kind == "done"@ {
                e.conversation_id
            } else {
                None
            },
            None => None,
        }
    } else {
        None
    }
}

/// What one text line does to the recorded identifier and to the completion
/// signals: a line carrying a terminal identifier records it and signals
/// completion with it exactly once; any other line records nothing and
/// signals no completion.
pub proof fn lemma_line_step_characterized(raw: Seq<u8>, id: Seq<char>)
    requires
        valid_utf8(strip_cr_s(raw)),
    ensures
        line_step(raw, id) is Some,
        line_done_id(raw) matches Some(c) ==> ({
            let r = line_step(raw, id).unwrap();
            r.1 == c && completion_signals(r.0) == seq![DeliveryModel::Done(c)]
        }),
        line_done_id(raw) is None ==> ({
            let r = line_step(raw, id).unwrap();
            r.1 == id && completion_signals(r.0) == Seq::<DeliveryModel>::empty()
        }),
{
    reveal_with_fuel(completion_signals, 3);
    let l = strip_cr_s(raw);
    if is_data_line(l) {
        match decoded_event(l.skip(6)) {
            None => {},
            Some(e) => {
                let ds = event_deliveries(e);
                let control = control_deliveries(e);
                assert(ds =~= control + seq![DeliveryModel::Event(e)]);
                lemma_completion_signals_add(control, seq![DeliveryModel::Event(e)]);
                assert(seq![DeliveryModel::Event(e)].skip(1) =~= Seq::<DeliveryModel>::empty());
                assert(completion_signals(seq![DeliveryModel::Event(e)]) =~= Seq::<
                    DeliveryModel,
                >::empty());
                if e.kind == "done"@ {
                    match e.conversation_id {
                        Some(c) => {
                            assert(control =~= seq![DeliveryModel::Done(c)]);
                            assert(control.skip(1) =~= Seq::<DeliveryModel>::empty());
                            assert(completion_signals(control) =~= seq![DeliveryModel::Done(c)]);
                            assert(completion_signals(ds) =~= seq![DeliveryModel::Done(c)]);
                        },
                        None => {
                            assert(completion_signals(ds) =~= Seq::<DeliveryModel>::empty());
                        },
                    }
                } else if e.kind == "error"@ {
                    match e.message {
                        Some(m) => {
                            assert(control =~= seq![DeliveryModel::Error(m)]);
                            assert(control.skip(1) =~= Seq::<DeliveryModel>::empty());
                            assert(completion_signals(control) =~= Seq::<DeliveryModel>::empty());
                            assert(completion_signals(ds) =~= Seq::<DeliveryModel>::empty());
                        },
                        None => {
                            assert(completion_signals(ds) =~= Seq::<DeliveryModel>::empty());
                        },
                    }
                } else {
                    assert(completion_signals(ds) =~= Seq::<DeliveryModel>::empty());
                }
            },
        }
    }
}

/// A stream of text lines none of which carries a terminal identifier leaves
/// the recorded conversation identifier untouched and signals no completion:
/// closing a stream without a terminal event is not an error and keeps the
/// caller-supplied identifier.
pub proof fn lemma_no_done_segment(lines: Seq<Seq<u8>>, id: Seq<char>)
    requires
        forall|j: int| 0 <= j < lines.len() ==> valid_utf8(strip_cr_s(#[trigger] lines[j])),
        forall|j: int| 0 <= j < lines.len() ==> line_done_id(#[trigger] lines[j]) is None,
    ensures
        !run_lines(lines, id).2,
        run_lines(lines, id).1 == id,
        completion_signals(run_lines(lines, id).0) == Seq::<DeliveryModel>::empty(),
    decreases lines.len(),
{
    if lines.len() == 0 {
    } else {
        lemma_line_step_characterized(lines[0], id);
        let r0 = line_step(lines[0], id).unwrap();
        assert(forall|j: int|
            0 <= j < lines.skip(1).len() ==> valid_utf8(strip_cr_s(#[trigger] lines.skip(1)[j])));
        assert(forall|j: int|
            0 <= j < lines.skip(1).len() ==> line_done_id(#[trigger] lines.skip(1)[j]) is None);
        lemma_no_done_segment(lines.skip(1), r0.1);
        lemma_completion_signals_add(r0.0, run_lines(lines.skip(1), r0.1).0);
        assert(completion_signals(run_lines(lines, id).0) =~= Seq::<DeliveryModel>::empty());
    }
}

/// For a well-formed stream whose lines carry exactly one terminal `done`
/// event with conversation identifier `x`, consuming the stream records `x`,
/// does not abort, and delivers the completion signal exactly once, with `x`.
pub proof fn lemma_single_done_stream(lines: Seq<Seq<u8>>, id0: Seq<char>, k: int, x: Seq<char>)
    requires
        forall|j: int| 0 <= j < lines.len() ==> valid_utf8(strip_cr_s(#[trigger] lines[j])),
        0 <= k < lines.len(),
        line_done_id(lines[k]) == Some(x),
        forall|j: int| 0 <= j < lines.len() && j != k ==> line_done_id(#[trigger] lines[j]) is None,
    ensures
        !run_lines(lines, id0).2,
        run_lines(lines, id0).1 == x,
        completion_signals(run_lines(lines, id0).0) == seq![DeliveryModel::Done(x)],
{
    let a = lines.take(k);
    let rest = lines.skip(k);
    let tail = lines.skip(k + 1);
    assert(a + rest =~= lines);
    assert(seq![lines[k]] + tail =~= rest);
    assert(forall|j: int| 0 <= j < a.len() ==> valid_utf8(strip_cr_s(#[trigger] a[j])));
    assert(forall|j: int| 0 <= j < a.len() ==> line_done_id(#[trigger] a[j]) is None);
    lemma_no_done_segment(a, id0);
    lemma_run_lines_concat(a, rest, id0);
    lemma_line_step_characterized(lines[k], id0);
    let rk = line_step(lines[k], id0).unwrap();
    lemma_run_single_line(lines[k], id0);
    lemma_run_lines_concat(seq![lines[k]], tail, id0);
    assert(forall|j: int| 0 <= j < tail.len() ==> valid_utf8(strip_cr_s(#[trigger] tail[j])));
    assert(forall|j: int| 0 <= j < tail.len() ==> line_done_id(#[trigger] tail[j]) is None);
    lemma_no_done_segment(tail, x);
    let da = run_lines(a, id0).0;
    let dt = run_lines(tail, x).0;
    assert(run_lines(rest, id0).0 == rk.0 + dt);
    assert(run_lines(lines, id0).0 == da + (rk.0 + dt));
    lemma_completion_signals_add(rk.0, dt);
    lemma_completion_signals_add(da, rk.0 + dt);
    assert(completion_signals(run_lines(lines, id0).0) =~= seq![DeliveryModel::Done(x)]);
}

/// A line that is not an event line — blank, a keep-alive, any line without
/// the `data: ` prefix — produces no delivery and changes nothing.
pub proof fn lemma_non_event_line_inert(raw: Seq<u8>, id: Seq<char>)
    requires
        valid_utf8(strip_cr_s(raw)),
        !is_data_line(strip_cr_s(raw)),
    ensures
        line_step(raw, id) == Some((Seq::<DeliveryModel>::empty(), id)),
{
}

/// An event line whose payload is not well-formed JSON of an event produces
/// no delivery and changes nothing.
pub proof fn lemma_undecodable_line_inert(raw: Seq<u8>, id: Seq<char>)
    requires
        valid_utf8(strip_cr_s(raw)),
        is_data_line(strip_cr_s(raw)),
        decoded_event(strip_cr_s(raw).skip(6)) is None,
    ensures
        line_step(raw, id) == Some((Seq::<DeliveryModel>::empty(), id)),
{
}

/// A skipped line is transparent: the stream behaves, from it on, exactly as
/// if the line had not arrived — one bad event does not abort the stream.
pub proof fn lemma_skipped_line_transparent(raw: Seq<u8>, rest: Seq<Seq<u8>>, id: Seq<char>)
    requires
        line_step(raw, id) == Some((Seq::<DeliveryModel>::empty(), id)),
    ensures
        run_lines(seq![raw] + rest, id) == run_lines(rest, id),
{
    lemma_run_single_line(raw, id);
    lemma_run_lines_concat(seq![raw], rest, id);
    assert(Seq::<DeliveryModel>::empty() + run_lines(rest, id).0 =~= run_lines(rest, id).0);
}

} // verus!
