//! The streaming decoder: reassembles server-sent-event frames from bytes that
//! arrive in arbitrary chunks, extracts each frame's payload, and turns each
//! decoded payload into an ordered run of events.
//!
//! The decoder is driven from outside: `push_chunk` takes the bytes of one
//! arrival and hands back the payloads of the frames it completed, the caller
//! parses each payload as a response, and `accept_payload` turns the outcome
//! into events. A payload that does not parse ends the stream.

use crate::conversation::{FunctionCall, FunctionView};
use crate::codec::{decode_lossy, lossy_text};
use crate::response::{joined_text, last_function, GeminiResponse};
use vstd::prelude::*;

verus! {

/// The byte of a line feed.
pub const NEWLINE: u8 = 10;

/// An event of a stream.
#[derive(Debug)]
pub enum StreamEvent {
    Delta(String),
    Usage { prompt_tokens: i32, completion_tokens: i32, total_tokens: i32 },
    FunctionCall(FunctionCall),
    Error(String),
}

/// An event as a value.
pub ghost enum EventView {
    Delta(Seq<char>),
    Usage(i32, i32, i32),
    FunctionCall(FunctionView),
    Error(Seq<char>),
}

impl View for StreamEvent {
    type V = EventView;

    open spec fn view(&self) -> EventView {
        match self {
            StreamEvent::Delta(t) => EventView::Delta(t@),
            StreamEvent::Usage { prompt_tokens, completion_tokens, total_tokens } => EventView::Usage(
                *prompt_tokens,
                *completion_tokens,
                *total_tokens,
            ),
            StreamEvent::FunctionCall(f) => EventView::FunctionCall(f@),
            StreamEvent::Error(m) => EventView::Error(m@),
        }
    }
}

/// The views of a list of events.
pub open spec fn events_view(events: Seq<StreamEvent>) -> Seq<EventView> {
    events.map_values(|e: StreamEvent| e@)
}

/// The views of a list of strings.
pub open spec fn texts_view(texts: Seq<String>) -> Seq<Seq<char>> {
    texts.map_values(|t: String| t@)
}

/// A frame ends at `i`: a blank line, two line feeds in a row, starts there.
pub open spec fn delimiter_at(s: Seq<u8>, i: int) -> bool {
    0 <= i && i + 1 < s.len() && s[i] == NEWLINE && s[i + 1] == NEWLINE
}

/// The first frame delimiter at or after `k`, or -1 where there is none.
pub open spec fn find_delimiter(s: Seq<u8>, k: int) -> int
    decreases s.len() - k,
{
    if k < 0 || k + 1 >= s.len() {
        -1
    } else if delimiter_at(s, k) {
        k
    } else {
        find_delimiter(s, k + 1)
    }
}

/// The complete frames of `s` from `start` on, in order.
pub open spec fn frames_from(s: Seq<u8>, start: int) -> Seq<Seq<u8>>
    decreases s.len() - start,
{
    let d = find_delimiter(s, start);
    if d < start || d + 2 > s.len() {
        Seq::empty()
    } else {
        seq![s.subrange(start, d)] + frames_from(s, d + 2)
    }
}

/// What stays of `s` after its complete frames from `start` on: the bytes of
/// a frame not yet delimited.
pub open spec fn rest_from(s: Seq<u8>, start: int) -> Seq<u8>
    decreases s.len() - start,
{
    let d = find_delimiter(s, start);
    if d < start || d + 2 > s.len() {
        s.subrange(start, s.len() as int)
    } else {
        rest_from(s, d + 2)
    }
}

/// The prefix of a data line.
pub open spec fn data_prefix() -> Seq<u8> {
    seq![100u8, 97u8, 116u8, 97u8, 58u8, 32u8]
}

/// The end of the line that starts at `k`: the next line feed, or the end.
pub open spec fn line_end(s: Seq<u8>, k: int) -> int
    decreases s.len() - k,
{
    if k < 0 || k >= s.len() {
        s.len() as int
    } else if s[k] == NEWLINE {
        k
    } else {
        line_end(s, k + 1)
    }
}

/// What a line adds to its frame's payload: the decoded rest of a data line,
/// nothing for any other line.
pub open spec fn line_payload(line: Seq<u8>) -> Seq<char> {
    if line.len() >= 6 && line.subrange(0, 6) == data_prefix() {
        lossy_text(line.subrange(6, line.len() as int))
    } else {
        Seq::empty()
    }
}

/// The payload of the lines of `frame` from `start` on, joined without separator.
pub open spec fn payload_from(frame: Seq<u8>, start: int) -> Seq<char>
    decreases frame.len() - start,
{
    if start < 0 || start > frame.len() {
        Seq::empty()
    } else {
        let e = line_end(frame, start);
        let here = line_payload(frame.subrange(start, e));
        if e < start || e >= frame.len() {
            here
        } else {
            here + payload_from(frame, e + 1)
        }
    }
}

/// The payload of a frame.
pub open spec fn payload_text(frame: Seq<u8>) -> Seq<char> {
    payload_from(frame, 0)
}

/// The payloads of `frames` that are not empty, in order.
pub open spec fn nonempty_payloads(frames: Seq<Seq<u8>>) -> Seq<Seq<char>>
    decreases frames.len(),
{
    if frames.len() == 0 {
        Seq::empty()
    } else {
        let p = payload_text(frames[0]);
        (if p.len() > 0 {
            seq![p]
        } else {
            Seq::empty()
        }) + nonempty_payloads(frames.drop_first())
    }
}

/// The decoder after an arrival of `chunk`: its new buffer, and the payloads it
/// hands back. A halted decoder keeps its buffer and hands back nothing.
pub open spec fn fed(buffer: Seq<u8>, halted: bool, chunk: Seq<u8>) -> (Seq<u8>, Seq<Seq<char>>) {
    if halted {
        (buffer, Seq::empty())
    } else {
        (rest_from(buffer + chunk, 0), nonempty_payloads(frames_from(buffer + chunk, 0)))
    }
}

/// The events of one decoded response, in this order: the text of the first
/// candidate where it is not empty, its function call where it has one, and
/// the token counts where all three are present.
pub open spec fn response_events_spec(r: GeminiResponse) -> Seq<EventView> {
    let has_candidate = r.candidates@.len() > 0;
    let text = joined_text(r.first_parts());
    let call = last_function(r.first_parts());
    (if has_candidate && text.len() > 0 {
        seq![EventView::Delta(text)]
    } else {
        Seq::empty()
    }) + (if has_candidate && call is Some {
        seq![EventView::FunctionCall(call.unwrap())]
    } else {
        Seq::empty()
    }) + (if r.prompt_tokens_spec() is Some && r.completion_tokens_spec() is Some
        && r.total_tokens_spec() is Some {
        seq![
            EventView::Usage(
                r.prompt_tokens_spec().unwrap(),
                r.completion_tokens_spec().unwrap(),
                r.total_tokens_spec().unwrap(),
            ),
        ]
    } else {
        Seq::empty()
    })
}

/// The decoder after the outcome of parsing one payload: whether it is halted
/// now, and the events it emits. A payload that did not parse gives one error
/// event and halts the decoder; a halted decoder emits nothing.
pub open spec fn accepted(halted: bool, parsed: Result<GeminiResponse, String>) -> (bool, Seq<EventView>) {
    if halted {
        (true, Seq::empty())
    } else {
        match parsed {
            Ok(r) => (false, response_events_spec(r)),
            Err(m) => (true, seq![EventView::Error(m@)]),
        }
    }
}

/// Without a delimiter from `k` on, there is none to find.
proof fn lemma_no_delimiter(s: Seq<u8>, k: int)
    requires
        0 <= k,
        forall|i: int| k <= i ==> !delimiter_at(s, i),
    ensures
        find_delimiter(s, k) == -1,
    decreases s.len() - k,
{
    if k + 1 < s.len() {
        lemma_no_delimiter(s, k + 1);
    }
}

/// The first delimiter from `k` on is the one found.
proof fn lemma_first_delimiter(s: Seq<u8>, k: int, d: int)
    requires
        0 <= k <= d,
        delimiter_at(s, d),
        forall|i: int| k <= i < d ==> !delimiter_at(s, i),
    ensures
        find_delimiter(s, k) == d,
    decreases d - k,
{
    if k < d {
        lemma_first_delimiter(s, k + 1, d);
    }
}

/// A data line that arrives with its line feed, followed by an arrival of the
/// line feed that closes its frame: the first arrival completes no frame and
/// hands back nothing; the second completes exactly that one frame.
pub proof fn lemma_frame_completes_on_second_arrival(line: Seq<u8>)
    requires
        forall|i: int| 0 <= i < line.len() ==> line[i] != NEWLINE,
    ensures
        fed(Seq::empty(), false, line.push(NEWLINE)) == (line.push(NEWLINE), Seq::<Seq<char>>::empty()),
        frames_from(line.push(NEWLINE) + seq![NEWLINE], 0) == seq![line],
        fed(line.push(NEWLINE), false, seq![NEWLINE]) == (Seq::<u8>::empty(), nonempty_payloads(seq![line])),
{
    let first = Seq::<u8>::empty() + line.push(NEWLINE);
    assert(first =~= line.push(NEWLINE));
    assert forall|i: int| 0 <= i implies !delimiter_at(first, i) by {
        if delimiter_at(first, i) {
            assert(first[i] == line[i]);
        }
    }
    lemma_no_delimiter(first, 0);
    assert(first.subrange(0, first.len() as int) =~= first);
    assert(nonempty_payloads(Seq::<Seq<u8>>::empty()) =~= Seq::<Seq<char>>::empty());

    let both = line.push(NEWLINE) + seq![NEWLINE];
    let n = line.len() as int;
    assert(delimiter_at(both, n));
    assert forall|i: int| 0 <= i < n implies !delimiter_at(both, i) by {
        assert(both[i] == line[i]);
    }
    lemma_first_delimiter(both, 0, n);
    lemma_no_delimiter(both, n + 2);
    assert(both.subrange(0, n) =~= line);
    assert(frames_from(both, n + 2) =~= Seq::<Seq<u8>>::empty());
    assert(seq![line] + Seq::<Seq<u8>>::empty() =~= seq![line]);
    assert(both.subrange(n + 2, both.len() as int) =~= Seq::<u8>::empty());
    assert(rest_from(both, n + 2) =~= Seq::<u8>::empty());
    assert(rest_from(both, 0) == rest_from(both, n + 2));
}

/// A response whose first candidate has text and no function call, and whose
/// three token counts are all present, gives exactly two events: the text,
/// then the counts.
pub proof fn lemma_text_then_usage(response: GeminiResponse)
    requires
        response.candidates@.len() > 0,
        joined_text(response.first_parts()).len() > 0,
        last_function(response.first_parts()) is None,
        response.prompt_tokens_spec() is Some,
        response.completion_tokens_spec() is Some,
        response.total_tokens_spec() is Some,
    ensures
        accepted(false, Ok(response)) == (
            false,
            seq![
                EventView::Delta(joined_text(response.first_parts())),
                EventView::Usage(
                    response.prompt_tokens_spec().unwrap(),
                    response.completion_tokens_spec().unwrap(),
                    response.total_tokens_spec().unwrap(),
                ),
            ],
        ),
{
    assert(response_events_spec(response) =~= seq![
        EventView::Delta(joined_text(response.first_parts())),
        EventView::Usage(
            response.prompt_tokens_spec().unwrap(),
            response.completion_tokens_spec().unwrap(),
            response.total_tokens_spec().unwrap(),
        ),
    ]);
}

/// A payload that does not parse ends the stream: it gives exactly one error
/// event and halts the decoder, and a halted decoder keeps its state and hands
/// back no payload and no event, whatever arrives later.
pub proof fn lemma_parse_error_is_terminal(
    buffer: Seq<u8>,
    message: String,
    later_chunk: Seq<u8>,
    later: Result<GeminiResponse, String>,
)
    ensures
        accepted(false, Err(message)) == (true, seq![EventView::Error(message@)]),
        fed(buffer, true, later_chunk) == (buffer, Seq::<Seq<char>>::empty()),
        accepted(true, later) == (true, Seq::<EventView>::empty()),
{
}

/// The events of one decoded response.
pub fn response_events(response: &GeminiResponse) -> (r: Vec<StreamEvent>)
    ensures
        events_view(r@) == response_events_spec(*response),
{
    let mut events: Vec<StreamEvent> = Vec::new();
    let has_candidate = response.candidates.len() > 0;
    match response.get_text() {
        Some(text) => {
            if !text.as_str().is_empty() {
                events.push(StreamEvent::Delta(text));
            }
        },
        None => {},
    }
    assert(events_view(events@) =~= (if has_candidate && joined_text(response.first_parts()).len() > 0 {
        seq![EventView::Delta(joined_text(response.first_parts()))]
    } else {
        Seq::empty()
    }));
    let ghost after_text = events_view(events@);
    match response.get_function() {
        Some(f) => {
            events.push(StreamEvent::FunctionCall(FunctionCall { name: f.name, args: f.args }));
        },
        None => {},
    }
    assert(events_view(events@) =~= after_text + (if has_candidate && last_function(response.first_parts()) is Some {
        seq![EventView::FunctionCall(last_function(response.first_parts()).unwrap())]
    } else {
        Seq::empty()
    }));
    let ghost after_call = events_view(events@);
    match (response.get_prompt_tokens(), response.get_completion_tokens(), response.get_total_tokens()) {
        (Some(prompt_tokens), Some(completion_tokens), Some(total_tokens)) => {
            events.push(StreamEvent::Usage { prompt_tokens, completion_tokens, total_tokens });
        },
        _ => {},
    }
    assert(events_view(events@) =~= response_events_spec(*response));
    events
}

/// Copies `s[from..to]`.
fn copy_range(s: &Vec<u8>, from: usize, to: usize) -> (r: Vec<u8>)
    requires
        from <= to <= s@.len(),
    ensures
        r@ == s@.subrange(from as int, to as int),
{
    let mut r: Vec<u8> = Vec::new();
    let mut j = from;
    while j < to
        invariant
            from <= j <= to <= s@.len(),
            r@ == s@.subrange(from as int, j as int),
        decreases to - j,
    {
        r.push(s[j]);
        assert(r@ =~= s@.subrange(from as int, j + 1));
        j = j + 1;
    }
    r
}

/// Whether the line `s[from..to]` starts with the data prefix.
fn is_data_line(s: &Vec<u8>, from: usize, to: usize) -> (r: bool)
    requires
        from <= to <= s@.len(),
    ensures
        r == (to - from >= 6 && s@.subrange(from as int, to as int).subrange(0, 6) == data_prefix()),
{
    if to - from < 6 {
        return false;
    }
    let r = s[from] == 100 && s[from + 1] == 97 && s[from + 2] == 116 && s[from + 3] == 97
        && s[from + 4] == 58 && s[from + 5] == 32;
    let ghost head = s@.subrange(from as int, to as int).subrange(0, 6);
    if r {
        assert(head =~= data_prefix());
    } else {
        assert(head != data_prefix()) by {
            if head == data_prefix() {
                assert(head[0] == s@[from as int] && head[1] == s@[from + 1] && head[2] == s@[from + 2]);
                assert(head[3] == s@[from + 3] && head[4] == s@[from + 4] && head[5] == s@[from + 5]);
                assert(data_prefix()[0] == 100 && data_prefix()[1] == 97 && data_prefix()[2] == 116);
                assert(data_prefix()[3] == 97 && data_prefix()[4] == 58 && data_prefix()[5] == 32);
            }
        }
    }
    r
}

/// The payload of a frame: the rest of each of its data lines, decoded and
/// joined without separator.
pub fn frame_payload(frame: &Vec<u8>) -> (r: String)
    ensures
        r@ == payload_text(frame@),
{
    let n = frame.len();
    let mut out = String::new();
    let mut start: usize = 0;
    let mut done = false;
    while !done
        invariant
            n == frame@.len(),
            start <= n,
            done ==> out@ == payload_text(frame@),
            !done ==> out@ + payload_from(frame@, start as int) == payload_text(frame@),
        decreases n - start + (if done { 0int } else { 1int }),
    {
        let mut k = start;
        while k < n && frame[k] != NEWLINE
            invariant
                n == frame@.len(),
                start <= k <= n,
                line_end(frame@, start as int) == line_end(frame@, k as int),
            decreases n - k,
        {
            k = k + 1;
        }
        let ghost line = frame@.subrange(start as int, k as int);
        let ghost old_out = out@;
        if is_data_line(frame, start, k) {
            let rest = copy_range(frame, start + 6, k);
            assert(line.subrange(6, line.len() as int) =~= rest@);
            let text = decode_lossy(rest.as_slice());
            out.append(text.as_str());
        } else {
            assert(out@ =~= out@ + Seq::<char>::empty());
        }
        assert(out@ == old_out + line_payload(line));
        if k >= n {
            done = true;
        } else {
            assert(old_out + (line_payload(line) + payload_from(frame@, k + 1)) =~= out@ + payload_from(
                frame@,
                k + 1,
            ));
            start = k + 1;
        }
    }
    out
}

/// The state of one streaming call: the bytes of the frame not yet delimited,
/// and whether the stream has ended in an error.
pub struct StreamDecoder {
    pub buffer: Vec<u8>,
    pub halted: bool,
}

impl StreamDecoder {
    /// A decoder for a new stream: nothing buffered, not halted.
    pub fn new() -> (r: StreamDecoder)
        ensures
            r.buffer@ == Seq::<u8>::empty(),
            !r.halted,
    {
        StreamDecoder { buffer: Vec::new(), halted: false }
    }

    /// Takes the bytes of one arrival and hands back the payloads of the frames
    /// it completed, in order, leaving out empty ones. What follows the last
    /// delimiter stays buffered, and holds no delimiter. A halted decoder takes
    /// nothing.
    pub fn push_chunk(&mut self, chunk: &[u8]) -> (r: Vec<String>)
        ensures
            (final(self).buffer@, texts_view(r@)) == fed(old(self).buffer@, old(self).halted, chunk@),
            final(self).halted == old(self).halted,
            !old(self).halted ==> forall|i: int| !delimiter_at(final(self).buffer@, i),
    {
        let mut payloads: Vec<String> = Vec::new();
        if self.halted {
            assert(texts_view(payloads@) =~= Seq::<Seq<char>>::empty());
            return payloads;
        }
        let mut j: usize = 0;
        while j < chunk.len()
            invariant
                self.buffer@ == old(self).buffer@ + chunk@.subrange(0, j as int),
                j <= chunk@.len(),
                !self.halted,
            decreases chunk@.len() - j,
        {
            self.buffer.push(chunk[j]);
            assert(old(self).buffer@ + chunk@.subrange(0, j + 1) =~= self.buffer@);
            j = j + 1;
        }
        assert(chunk@.subrange(0, j as int) =~= chunk@);
        let ghost total = self.buffer@;
        let n = self.buffer.len();
        let mut start: usize = 0;
        let mut done = false;
        while !done
            invariant
                total == self.buffer@,
                n == total.len(),
                start <= n,
                !self.halted,
                nonempty_payloads(frames_from(total, 0)) == texts_view(payloads@) + nonempty_payloads(
                    frames_from(total, start as int),
                ),
                rest_from(total, 0) == rest_from(total, start as int),
                done ==> find_delimiter(total, start as int) == -1,
                done ==> forall|i: int| start <= i ==> !delimiter_at(total, i),
            decreases n - start + (if done { 0int } else { 1int }),
        {
            let mut k = start;
            while k < n && k + 1 < n && !(self.buffer[k] == NEWLINE && self.buffer[k + 1] == NEWLINE)
                invariant
                    total == self.buffer@,
                    n == total.len(),
                    start <= k <= n,
                    find_delimiter(total, start as int) == find_delimiter(total, k as int),
                    forall|i: int| start <= i < k ==> !delimiter_at(total, i),
                decreases n - k,
            {
                k = k + 1;
            }
            if k >= n || k + 1 >= n {
                assert(find_delimiter(total, k as int) == -1);
                assert forall|i: int| start <= i implies !delimiter_at(total, i) by {
                    if i >= k {
                        assert(i + 1 >= n);
                    }
                }
                done = true;
            } else {
                assert(delimiter_at(total, k as int));
                let frame = copy_range(&self.buffer, start, k);
                let payload = frame_payload(&frame);
                let ghost before = texts_view(payloads@);
                let ghost tail = frames_from(total, k + 2);
                assert(frames_from(total, start as int) == seq![frame@] + tail);
                assert((seq![frame@] + tail).drop_first() =~= tail);
                if !payload.as_str().is_empty() {
                    payloads.push(payload);
                    assert(texts_view(payloads@) =~= before + seq![payload_text(frame@)]);
                } else {
                    assert(texts_view(payloads@) =~= before + Seq::<Seq<char>>::empty());
                }
                assert(before + nonempty_payloads(seq![frame@] + tail) =~= texts_view(payloads@)
                    + nonempty_payloads(tail));
                start = k + 2;
            }
        }
        let rest = self.buffer.split_off(start);
        self.buffer = rest;
        assert(frames_from(total, start as int) =~= Seq::<Seq<u8>>::empty());
        assert forall|i: int| !delimiter_at(self.buffer@, i) by {
            if delimiter_at(self.buffer@, i) {
                assert(delimiter_at(total, start + i));
            }
        }
        payloads
    }

    /// Takes the outcome of parsing one payload and hands back its events. A
    /// payload that did not parse gives one error event and halts the stream;
    /// a halted decoder emits nothing.
    pub fn accept_payload(&mut self, parsed: Result<GeminiResponse, String>) -> (r: Vec<StreamEvent>)
        ensures
            (final(self).halted, events_view(r@)) == accepted(old(self).halted, parsed),
            final(self).buffer@ == old(self).buffer@,
    {
        if self.halted {
            let r: Vec<StreamEvent> = Vec::new();
            assert(events_view(r@) =~= Seq::<EventView>::empty());
            return r;
        }
        match parsed {
            Ok(response) => response_events(&response),
            Err(message) => {
                self.halted = true;
                let r = vec![StreamEvent::Error(message)];
                assert(events_view(r@) =~= seq![EventView::Error(message@)]);
                r
            },
        }
    }

    /// Ends the stream on a transport failure: one error event, unless the
    /// stream has already halted, and nothing after it.
    pub fn fail(&mut self, message: String) -> (r: Vec<StreamEvent>)
        ensures
            final(self).halted,
            final(self).buffer@ == old(self).buffer@,
            old(self).halted ==> r@.len() == 0,
            !old(self).halted ==> events_view(r@) == seq![EventView::Error(message@)],
    {
        if self.halted {
            return Vec::new();
        }
        self.halted = true;
        let r = vec![StreamEvent::Error(message)];
        assert(events_view(r@) =~= seq![EventView::Error(message@)]);
        r
    }

    /// Ends the stream at the end of its input: bytes of a frame that was never
    /// delimited are dropped, and no event comes of them.
    pub fn finish(&mut self)
        ensures
            final(self).buffer@ == Seq::<u8>::empty(),
            final(self).halted == old(self).halted,
    {
        self.buffer.clear();
    }
}

} // verus!
