//! Aggregation of a server-sent event stream of completion deltas into the
//! final answer text.
//!
//! The stream is a sequence of byte chunks. Each chunk is decoded as UTF-8
//! as it arrives (a chunk that is not UTF-8 breaks the stream); the text is
//! split into lines at `\n`, a partial line being carried over to the next
//! chunk, and each line is trimmed.
//! A line `data: <payload>` carries an event: the payload `[DONE]`, or a JSON
//! object whose first choice has `finish_reason` `"stop"`, ends the stream;
//! otherwise the first choice's `delta.content`, if it is a string, is
//! appended to the answer. Other lines, and payloads that are not JSON
//! objects, are skipped.
use vstd::prelude::*;
use vstd::utf8::{decode_utf8, valid_utf8};
use vstd::string::StrSliceExecFns;
use serde_json::Value;
use crate::json::{
    array_of, entry, object_entries, object_get, object_of, parse_object, parse_value, parsed_object,
    parsed_value, string_entry, string_field, value_array, value_object, JsonObject,
};
use crate::text::{after_prefix, char_vec, decode_utf8_text, same_text, strip_text_prefix, trim_text, trimmed};

verus! {

/// Marks an event line; the payload follows it.
pub const DATA_PREFIX: &'static str = "data:";

/// The payload that ends a stream.
pub const DONE_SENTINEL: &'static str = "[DONE]";

/// The finish reason that ends a stream.
pub const STOP_REASON: &'static str = "stop";

/// The member of an event that lists the completion choices.
pub const CHOICES_KEY: &'static str = "choices";

/// The member of a choice that says why generation stopped.
pub const FINISH_REASON_KEY: &'static str = "finish_reason";

/// The member of a choice that holds the increment.
pub const DELTA_KEY: &'static str = "delta";

/// The member of a delta (or of a message) that holds the text.
pub const CONTENT_KEY: &'static str = "content";

/// The character that ends a line.
pub const NEWLINE: char = '\n';

/// What one line of the stream means.
pub enum LineEvent {
    /// Nothing for the answer.
    Skip,
    /// A piece of the answer.
    Delta(Seq<char>),
    /// The end of the stream.
    End,
}

/// The first element of an event's `choices` array, when it is an object.
pub open spec fn first_choice(event: Map<Seq<char>, Value>) -> Option<Map<Seq<char>, Value>> {
    match entry(event, CHOICES_KEY@) {
        Some(choices) => match array_of(choices) {
            Some(items) => if items.len() > 0 {
                object_of(items[0])
            } else {
                None
            },
            None => None,
        },
        None => None,
    }
}

/// The first choice's `finish_reason`, when it is a string.
pub open spec fn finish_reason(event: Map<Seq<char>, Value>) -> Option<Seq<char>> {
    match first_choice(event) {
        Some(choice) => string_entry(choice, FINISH_REASON_KEY@),
        None => None,
    }
}

/// The first choice's `delta.content`, when it is a string.
pub open spec fn delta_content(event: Map<Seq<char>, Value>) -> Option<Seq<char>> {
    match first_choice(event) {
        Some(choice) => match entry(choice, DELTA_KEY@) {
            Some(delta) => match object_of(delta) {
                Some(d) => string_entry(d, CONTENT_KEY@),
                None => None,
            },
            None => None,
        },
        None => None,
    }
}

/// What a trimmed event payload means.
pub open spec fn payload_event(payload: Seq<char>) -> LineEvent {
    if payload == DONE_SENTINEL@ {
        LineEvent::End
    } else {
        match parsed_object(payload) {
            None => LineEvent::Skip,
            Some(event) => if finish_reason(event) == Some(STOP_REASON@) {
                LineEvent::End
            } else {
                match delta_content(event) {
                    Some(piece) => LineEvent::Delta(piece),
                    None => LineEvent::Skip,
                }
            },
        }
    }
}

/// What a line of the stream (without its newline) means.
pub open spec fn line_event(line: Seq<char>) -> LineEvent {
    match after_prefix(trimmed(line), DATA_PREFIX@) {
        Some(rest) => payload_event(trimmed(rest)),
        None => LineEvent::Skip,
    }
}

/// The executable form of a line's meaning.
pub enum LineAction {
    Skip,
    Delta(String),
    End,
}

impl LineAction {
    /// The meaning this action carries out.
    pub open spec fn event(&self) -> LineEvent {
        match self {
            LineAction::Skip => LineEvent::Skip,
            LineAction::Delta(s) => LineEvent::Delta(s@),
            LineAction::End => LineEvent::End,
        }
    }
}

/// The first element of the event's `choices`, when it is an object.
fn first_choice_object<'a>(event: &'a JsonObject) -> (r: Option<&'a JsonObject>)
    ensures
        r matches Some(c) ==> first_choice(object_entries(*event)) == Some(object_entries(*c)),
        r is None ==> first_choice(object_entries(*event)) is None,
{
    match object_get(event, CHOICES_KEY) {
        Some(choices) => match value_array(choices) {
            Some(items) => if items.len() > 0 {
                value_object(&items[0])
            } else {
                None
            },
            None => None,
        },
        None => None,
    }
}

/// Classifies a trimmed event payload.
pub fn classify_payload(payload: &str) -> (r: LineAction)
    ensures
        r.event() == payload_event(payload@),
{
    if same_text(payload, DONE_SENTINEL) {
        return LineAction::End;
    }
    let event = match parse_object(payload) {
        Ok(event) => event,
        Err(_) => return LineAction::Skip,
    };
    let choice = match first_choice_object(&event) {
        Some(c) => c,
        None => return LineAction::Skip,
    };
    if let Some(reason) = string_field(choice, FINISH_REASON_KEY) {
        if same_text(reason, STOP_REASON) {
            return LineAction::End;
        }
    }
    let delta = match object_get(choice, DELTA_KEY) {
        Some(d) => d,
        None => return LineAction::Skip,
    };
    match value_object(delta) {
        Some(d) => match string_field(d, CONTENT_KEY) {
            Some(piece) => LineAction::Delta(piece.to_owned()),
            None => LineAction::Skip,
        },
        None => LineAction::Skip,
    }
}

/// Classifies one line of the stream, given without its newline.
pub fn classify_line(line: &str) -> (r: LineAction)
    ensures
        r.event() == line_event(line@),
{
    match strip_text_prefix(trim_text(line), DATA_PREFIX) {
        Some(rest) => classify_payload(trim_text(rest)),
        None => LineAction::Skip,
    }
}

/// How far a stream has got after some complete lines.
pub enum Progress {
    /// Still running, with the answer text collected so far.
    Open(Seq<char>),
    /// Ended by a sentinel or a stop reason, with the answer text.
    Ended(Seq<char>),
    /// Stopped by a chunk that is not UTF-8.
    Broken,
}

/// The progress after one more line.
pub open spec fn step(p: Progress, line: Seq<char>) -> Progress {
    match p {
        Progress::Open(answer) => match line_event(line) {
            LineEvent::Skip => Progress::Open(answer),
            LineEvent::Delta(piece) => Progress::Open(answer + piece),
            LineEvent::End => Progress::Ended(answer),
        },
        _ => p,
    }
}

/// The progress and the unfinished line after one more character.
pub open spec fn push_char(state: (Progress, Seq<char>), c: char) -> (Progress, Seq<char>) {
    if c == NEWLINE {
        (step(state.0, state.1), Seq::empty())
    } else {
        (state.0, state.1.push(c))
    }
}

/// The progress and the unfinished line after the characters of `text`.
pub open spec fn absorb(state: (Progress, Seq<char>), text: Seq<char>) -> (Progress, Seq<char>)
    decreases text.len(),
{
    if text.len() == 0 {
        state
    } else {
        push_char(absorb(state, text.drop_last()), text.last())
    }
}

/// The progress made by the complete lines of the given chunks, and the
/// unfinished line. Each chunk is decoded on its own while the stream runs;
/// one that is not UTF-8 breaks it. Once the stream has ended, later chunks
/// are not looked at.
pub open spec fn stream_state(chunks: Seq<Seq<u8>>) -> (Progress, Seq<char>)
    decreases chunks.len(),
{
    if chunks.len() == 0 {
        (Progress::Open(Seq::empty()), Seq::empty())
    } else {
        let state = stream_state(chunks.drop_last());
        if state.0 is Open {
            if valid_utf8(chunks.last()) {
                absorb(state, decode_utf8(chunks.last()))
            } else {
                (Progress::Broken, state.1)
            }
        } else {
            state
        }
    }
}

/// Why aggregation failed.
pub enum StreamFault {
    Transport,
    EmptyStream,
    Unparseable(Seq<char>),
}

/// The result of a stream whose lines brought it to `p` when it closed.
pub open spec fn outcome(p: Progress) -> Result<Seq<char>, StreamFault> {
    match p {
        Progress::Ended(answer) => Ok(answer),
        Progress::Broken => Err(StreamFault::Transport),
        Progress::Open(answer) => {
            let t = trimmed(answer);
            if t.len() == 0 {
                Err(StreamFault::EmptyStream)
            } else if parsed_value(t) is Some {
                Ok(t)
            } else {
                Err(StreamFault::Unparseable(t))
            }
        },
    }
}

/// The result of aggregating a stream given as its chunks: the unfinished
/// line left at the end counts as a last line.
pub open spec fn aggregated(chunks: Seq<Seq<u8>>) -> Result<Seq<char>, StreamFault> {
    let state = stream_state(chunks);
    outcome(step(state.0, state.1))
}

/// The failures of stream aggregation and of answer repair.
#[derive(Debug)]
pub enum StreamError {
    /// The transport failed, or a line was not UTF-8.
    Transport,
    /// The stream ended without any answer text.
    EmptyStream,
    /// The final text is not the JSON it should be.
    UnparseableFinalText { text: String, diagnostic: String },
}

impl StreamError {
    /// The model of this error.
    pub open spec fn fault(&self) -> StreamFault {
        match self {
            StreamError::Transport => StreamFault::Transport,
            StreamError::EmptyStream => StreamFault::EmptyStream,
            StreamError::UnparseableFinalText { text, .. } => StreamFault::Unparseable(text@),
        }
    }
}

/// The model of an aggregation result.
pub open spec fn result_model(r: Result<String, StreamError>) -> Result<Seq<char>, StreamFault> {
    match r {
        Ok(s) => Ok(s@),
        Err(e) => Err(e.fault()),
    }
}

/// What feeding a chunk led to.
pub enum Feed {
    /// The stream goes on.
    More,
    /// The stream has ended with this answer.
    Ended(String),
    /// The stream is broken.
    Failed(StreamError),
}

/// Collects the answer of one event stream, chunk by chunk.
pub struct StreamAggregator {
    answer: String,
    line: String,
    ended: bool,
    broken: bool,
    chunks: Ghost<Seq<Seq<u8>>>,
}

impl StreamAggregator {
    /// The chunks fed so far.
    pub closed spec fn chunks(&self) -> Seq<Seq<u8>> {
        self.chunks@
    }

    /// The progress made by the complete lines fed so far.
    pub open spec fn progress(&self) -> Progress {
        stream_state(self.chunks()).0
    }

    /// The buffered line and the answer agree with the chunks received.
    pub closed spec fn wf(&self) -> bool {
        &&& !self.ended ==> {
            &&& !self.broken
            &&& stream_state(self.chunks@).1 == self.line@
            &&& self.progress() == Progress::Open(self.answer@)
        }
        &&& self.ended && !self.broken ==> self.progress() == Progress::Ended(self.answer@)
        &&& self.ended && self.broken ==> self.progress() is Broken
    }

    /// An aggregator that has received nothing yet.
    pub fn new() -> (r: StreamAggregator)
        ensures
            r.wf(),
            r.chunks() == Seq::<Seq<u8>>::empty(),
    {
        StreamAggregator {
            answer: String::new(),
            line: String::new(),
            ended: false,
            broken: false,
            chunks: Ghost(Seq::empty()),
        }
    }

    /// What the stream has come to, as a feed result.
    fn report(&self) -> (r: Feed)
        requires
            self.wf(),
        ensures
            r is More <==> self.progress() is Open,
            r matches Feed::Ended(answer) ==> self.progress() == Progress::Ended(answer@),
            r matches Feed::Failed(e) ==> self.progress() is Broken && e.fault() == StreamFault::Transport,
            self.progress() is Ended ==> r is Ended,
            self.progress() is Broken ==> r is Failed,
    {
        if !self.ended {
            Feed::More
        } else if self.broken {
            Feed::Failed(StreamError::Transport)
        } else {
            Feed::Ended(self.answer.clone())
        }
    }

    /// Takes the next chunk of the stream. While the stream runs, a chunk
    /// that is not UTF-8 breaks it.
    pub fn feed(&mut self, chunk: &[u8]) -> (r: Feed)
        requires
            old(self).wf(),
        ensures
            final(self).wf(),
            final(self).chunks() == old(self).chunks().push(chunk@),
            r is More <==> final(self).progress() is Open,
            r matches Feed::Ended(answer) ==> final(self).progress() == Progress::Ended(answer@),
            r matches Feed::Failed(e) ==> final(self).progress() is Broken && e.fault() == StreamFault::Transport,
            final(self).progress() is Ended ==> r is Ended,
            final(self).progress() is Broken ==> r is Failed,
    {
        let ghost before = self.chunks@;
        let ghost after = before.push(chunk@);
        assert(after.drop_last() =~= before);
        if self.ended {
            self.chunks = Ghost(after);
            return self.report();
        }
        let text = match decode_utf8_text(chunk) {
            Some(t) => t,
            None => {
                self.ended = true;
                self.broken = true;
                self.chunks = Ghost(after);
                return Feed::Failed(StreamError::Transport);
            },
        };
        let ghost state0 = stream_state(before);
        let chars = char_vec(text);
        let n = chars.len();
        let mut start: usize = 0;
        let mut i: usize = 0;
        assert(text@.take(0) =~= Seq::<char>::empty());
        assert(text@.subrange(0, 0) =~= Seq::<char>::empty());
        while i < n
            invariant
                n == chars@.len(),
                chars@ == text@,
                start <= i <= n,
                self.chunks@ == before,
                !self.broken,
                !self.ended ==> absorb(state0, text@.take(i as int)) == (
                    Progress::Open(self.answer@),
                    self.line@ + text@.subrange(start as int, i as int),
                ),
                self.ended ==> absorb(state0, text@.take(i as int)).0 == Progress::Ended(self.answer@),
            decreases n - i,
        {
            assert(text@.take(i + 1).drop_last() =~= text@.take(i as int));
            assert(text@.take(i + 1).last() == chars@[i as int]);
            if !self.ended {
                if chars[i] == NEWLINE {
                    let piece = text.substring_char(start, i);
                    self.line.append(piece);
                    let action = classify_line(self.line.as_str());
                    self.line = String::new();
                    match action {
                        LineAction::Skip => {},
                        LineAction::Delta(s) => self.answer.append(s.as_str()),
                        LineAction::End => self.ended = true,
                    }
                    start = i + 1;
                    assert(text@.subrange(start as int, start as int) =~= Seq::<char>::empty());
                } else {
                    assert(text@.subrange(start as int, i + 1) =~= text@.subrange(start as int, i as int).push(
                        chars@[i as int],
                    ));
                }
            }
            i = i + 1;
        }
        assert(text@.take(n as int) =~= text@);
        if !self.ended {
            let piece = text.substring_char(start, n);
            self.line.append(piece);
        }
        self.chunks = Ghost(after);
        self.report()
    }

    /// Closes the stream and yields its result.
    pub fn finish(self) -> (r: Result<String, StreamError>)
        requires
            self.wf(),
        ensures
            result_model(r) == aggregated(self.chunks()),
    {
        if self.ended {
            if self.broken {
                return Err(StreamError::Transport);
            }
            return Ok(self.answer);
        }
        let mut answer = self.answer;
        match classify_line(self.line.as_str()) {
            LineAction::Skip => {},
            LineAction::Delta(piece) => answer.append(piece.as_str()),
            LineAction::End => return Ok(answer),
        }
        let t = trim_text(answer.as_str());
        if t.is_empty() {
            return Err(StreamError::EmptyStream);
        }
        match parse_value(t) {
            Ok(_) => Ok(t.to_owned()),
            Err(e) => Err(StreamError::UnparseableFinalText { text: t.to_owned(), diagnostic: e.to_string() }),
        }
    }
}

/// Replaying the same chunks gives the same result: aggregation is a
/// function of the stream alone.
pub proof fn lemma_replay_gives_same_result(first: Seq<Seq<u8>>, second: Seq<Seq<u8>>)
    requires
        first == second,
    ensures
        aggregated(first) == aggregated(second),
{
}

/// Aggregates a whole stream given as its chunks.
pub fn aggregate(chunks: &Vec<Vec<u8>>) -> (r: Result<String, StreamError>)
    ensures
        result_model(r) == aggregated(chunks@.map_values(|c: Vec<u8>| c@)),
{
    let ghost views = chunks@.map_values(|c: Vec<u8>| c@);
    let mut agg = StreamAggregator::new();
    let mut i: usize = 0;
    assert(views.take(0) =~= Seq::<Seq<u8>>::empty());
    while i < chunks.len()
        invariant
            agg.wf(),
            i <= chunks@.len(),
            views == chunks@.map_values(|c: Vec<u8>| c@),
            agg.chunks() == views.take(i as int),
        decreases chunks@.len() - i,
    {
        assert(views.take(i + 1) =~= views.take(i as int).push(chunks@[i as int]@));
        agg.feed(chunks[i].as_slice());
        i = i + 1;
    }
    assert(views.take(chunks@.len() as int) =~= views);
    agg.finish()
}

} // verus!
