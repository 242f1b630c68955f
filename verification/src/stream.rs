//! Streaming of `POST /v1/chat/completions` (`stream: true`).
//!
//! The gateway answers with server-sent events in the `OpenAI` format: each
//! event carries `data: <json>` and the end of the stream is signalled by
//! `data: [DONE]`. The event-stream framing is read by the caller's runtime;
//! this module decides, event by event, what the stream yields and when it
//! ends.

use crate::chat::Role;
use crate::error::Error;
use crate::text::{is_white_space, same_text, trim, trim_white_space};
use vstd::prelude::*;

verus! {

/// The sentinel that ends the stream, once white space is trimmed around it.
pub open spec fn done_sentinel() -> Seq<char> {
    "[DONE]"@
}

/// Whether the data of an event is the end-of-stream sentinel.
pub open spec fn is_done_data(data: Seq<char>) -> bool {
    trim_white_space(data) == done_sentinel()
}

/// Whether an event's data, trimmed of white space, is `[DONE]`.
pub fn is_done_event(data: &str) -> (done: bool)
    ensures
        done == is_done_data(data@),
{
    same_text(trim(data), "[DONE]")
}

/// One item of the server-sent event stream, as its parser hands it over:
/// an event with its data, or the text of the error that the parser met.
#[derive(Debug, Clone)]
pub enum SseItem {
    /// An event, with the text of its `data` field.
    Event {
        /// Data of the event (one JSON chunk, or the sentinel).
        data: String,
    },
    /// The event stream could not be read.
    Failure {
        /// Text of the error.
        message: String,
    },
}

/// Whether an item ends the stream.
pub open spec fn is_done_item(item: SseItem) -> bool {
    item matches SseItem::Event { data } && is_done_data(data@)
}

/// What the stream yields for an item that does not end it: the data to
/// decode as a chunk, or the stream error.
pub open spec fn payload(item: SseItem) -> Result<String, Error> {
    match item {
        SseItem::Event { data } => Ok(data),
        SseItem::Failure { message } => Err(Error::Stream(message)),
    }
}

/// One step of the stream in state `finished` on `item`: the next state and
/// what the stream yields.
pub open spec fn step_outcome(finished: bool, item: SseItem) -> (bool, Option<Result<String, Error>>) {
    if finished {
        (true, None)
    } else if is_done_item(item) {
        (true, None)
    } else {
        (false, Some(payload(item)))
    }
}

/// What the stream yields, from state `finished`, on the items `items` in
/// order.
pub open spec fn stream_outputs(finished: bool, items: Seq<SseItem>) -> Seq<Result<String, Error>>
    decreases items.len(),
{
    if items.len() == 0 {
        Seq::empty()
    } else {
        let (next, out) = step_outcome(finished, items[0]);
        let rest = stream_outputs(next, items.drop_first());
        match out {
            Some(p) => seq![p] + rest,
            None => rest,
        }
    }
}

/// `outs` is what the stream yields on `items`: one payload per item up to
/// the first `[DONE]` event, which is not yielded, and nothing after it.
pub open spec fn yields_until_done(items: Seq<SseItem>, outs: Seq<Result<String, Error>>) -> bool {
    &&& outs.len() <= items.len()
    &&& forall|j: int|
        0 <= j < outs.len() ==> !is_done_item(#[trigger] items[j]) && outs[j] == payload(items[j])
    &&& outs.len() < items.len() ==> is_done_item(items[outs.len() as int])
}

/// Once the stream has ended, no item makes it yield anything.
pub proof fn law_ended_stream_yields_nothing(items: Seq<SseItem>)
    ensures
        stream_outputs(true, items) == Seq::<Result<String, Error>>::empty(),
    decreases items.len(),
{
    if items.len() > 0 {
        law_ended_stream_yields_nothing(items.drop_first());
    }
}

/// A stream that has not ended yields, on any items, exactly the payloads
/// of the items before the first `[DONE]` event, in order.
pub proof fn law_stream_yields_until_done(items: Seq<SseItem>)
    ensures
        yields_until_done(items, stream_outputs(false, items)),
    decreases items.len(),
{
    if items.len() > 0 {
        let rest = items.drop_first();
        if is_done_item(items[0]) {
            law_ended_stream_yields_nothing(rest);
        } else {
            law_stream_yields_until_done(rest);
            let outs = stream_outputs(false, items);
            let tail = stream_outputs(false, rest);
            assert(outs == seq![payload(items[0])] + tail);
            assert forall|j: int| 0 <= j < outs.len() implies !is_done_item(#[trigger] items[j])
                && outs[j] == payload(items[j]) by {
                if j > 0 {
                    assert(items[j] == rest[j - 1]);
                }
            }
            if outs.len() < items.len() {
                assert(items[outs.len() as int] == rest[tail.len() as int]);
            }
        }
    }
}

/// The decisions of a chat completion stream: it yields one payload per
/// event, and ends for good at the first `[DONE]` event.
#[derive(Debug, Clone, Copy)]
pub struct ChunkStream {
    finished: bool,
}

impl View for ChunkStream {
    type V = bool;

    /// Whether the stream has ended.
    closed spec fn view(&self) -> bool {
        self.finished
    }
}

impl ChunkStream {
    /// A stream that has not ended.
    pub fn new() -> (s: Self)
        ensures
            !s@,
    {
        ChunkStream { finished: false }
    }

    /// Whether the stream has ended.
    pub fn is_finished(&self) -> (f: bool)
        ensures
            f == self@,
    {
        self.finished
    }

    /// Takes the next item of the event stream: `None` when the stream ends
    /// or has ended, else the payload to hand on (the data to decode as a
    /// chunk, or the stream error; an error does not end the stream).
    pub fn step(&mut self, item: SseItem) -> (out: Option<Result<String, Error>>)
        ensures
            (final(self)@, out) == step_outcome(old(self)@, item),
    {
        if self.finished {
            return None;
        }
        match item {
            SseItem::Event { data } => {
                if is_done_event(data.as_str()) {
                    self.finished = true;
                    None
                } else {
                    Some(Ok(data))
                }
            },
            SseItem::Failure { message } => Some(Err(Error::Stream(message))),
        }
    }
}

/// Whether every character of `s` is white space.
pub open spec fn all_white_space(s: Seq<char>) -> bool {
    forall|i: int| 0 <= i < s.len() ==> is_white_space(#[trigger] s[i])
}

/// Trimming keeps a first character that is not white space.
proof fn lemma_trim_keeps_first(d: Seq<char>)
    requires
        d.len() > 0,
        !is_white_space(d[0]),
    ensures
        trim_white_space(d).len() > 0,
        trim_white_space(d)[0] == d[0],
    decreases d.len(),
{
    if is_white_space(d.last()) {
        assert(d.len() > 1);
        assert(d.drop_last()[0] == d[0]);
        lemma_trim_keeps_first(d.drop_last());
    }
}

/// Trimming keeps a last character that is not white space.
proof fn lemma_trim_keeps_last(d: Seq<char>)
    requires
        d.len() > 0,
        !is_white_space(d.last()),
    ensures
        trim_white_space(d).len() > 0,
        trim_white_space(d).last() == d.last(),
    decreases d.len(),
{
    if is_white_space(d[0]) {
        assert(d.len() > 1);
        assert(d.drop_first().last() == d.last());
        lemma_trim_keeps_last(d.drop_first());
    }
}

/// Trimming removes exactly white space padding around a core that neither
/// starts nor ends with white space.
proof fn lemma_trim_padded(w1: Seq<char>, core: Seq<char>, w2: Seq<char>)
    requires
        all_white_space(w1),
        all_white_space(w2),
        core.len() > 0,
        !is_white_space(core[0]),
        !is_white_space(core.last()),
    ensures
        trim_white_space(w1 + core + w2) == core,
    decreases w1.len() + w2.len(),
{
    let s = w1 + core + w2;
    if w1.len() > 0 {
        assert(s[0] == w1[0]);
        assert(s.drop_first() =~= w1.drop_first() + core + w2);
        lemma_trim_padded(w1.drop_first(), core, w2);
    } else if w2.len() > 0 {
        assert(s[0] == core[0]);
        assert(s.last() == w2.last());
        assert(s.drop_last() =~= w1 + core + w2.drop_last());
        lemma_trim_padded(w1, core, w2.drop_last());
    } else {
        assert(s =~= core);
    }
}

/// An event ends the stream exactly when its data, with white space trimmed
/// on both sides, is the six characters `[DONE]`.
pub proof fn law_done_is_trimmed_sentinel(data: Seq<char>)
    ensures
        is_done_data(data) <==> trim_white_space(data) == seq!['[', 'D', 'O', 'N', 'E', ']'],
{
    reveal_strlit("[DONE]");
    assert(done_sentinel() =~= seq!['[', 'D', 'O', 'N', 'E', ']']);
}

/// `[DONE]` padded on either side with any white space ends the stream.
pub proof fn law_padded_sentinel_ends_stream(before: Seq<char>, after: Seq<char>)
    requires
        all_white_space(before),
        all_white_space(after),
    ensures
        is_done_data(before + seq!['[', 'D', 'O', 'N', 'E', ']'] + after),
{
    let core = seq!['[', 'D', 'O', 'N', 'E', ']'];
    lemma_trim_padded(before, core, after);
    law_done_is_trimmed_sentinel(before + core + after);
}

/// Data that starts with `{` or ends with `}` (a JSON chunk) never ends the
/// stream.
pub proof fn law_json_object_data_never_ends_stream(data: Seq<char>)
    requires
        data.len() > 0,
        data[0] == '{' || data.last() == '}',
    ensures
        !is_done_data(data),
{
    law_done_is_trimmed_sentinel(data);
    if data[0] == '{' {
        lemma_trim_keeps_first(data);
    } else {
        lemma_trim_keeps_last(data);
    }
}

/// A stream of events whose data are JSON objects (start with `{`) yields
/// every one of them, in order: nothing is dropped and nothing ends the
/// stream early.
pub proof fn law_json_events_all_yielded(items: Seq<SseItem>)
    requires
        forall|i: int|
            0 <= i < items.len() ==> (#[trigger] items[i] matches SseItem::Event { data } && data@.len()
                > 0 && data@[0] == '{'),
    ensures
        stream_outputs(false, items).len() == items.len(),
        forall|j: int|
            0 <= j < items.len() ==> stream_outputs(false, items)[j] == payload(#[trigger] items[j]),
{
    law_stream_yields_until_done(items);
    let outs = stream_outputs(false, items);
    if outs.len() < items.len() {
        let k = outs.len() as int;
        let item = items[k];
        if let SseItem::Event { data } = item {
            law_json_object_data_never_ends_stream(data@);
        }
    }
}

/// The payloads that the stream yields on `items`: one per item up to the
/// first `[DONE]` event, which is not yielded; items after it are dropped.
pub fn chunk_payloads(items: Vec<SseItem>) -> (res: Vec<Result<String, Error>>)
    ensures
        res@ == stream_outputs(false, items@),
        yields_until_done(items@, res@),
{
    let ghost all = items@;
    let mut stream = ChunkStream::new();
    let mut res: Vec<Result<String, Error>> = Vec::new();
    assert(all.skip(0) =~= all);
    assert(res@ + stream_outputs(false, all) =~= stream_outputs(false, all));
    for item in it: items.into_iter()
        invariant
            it.seq() == all,
            res@ + stream_outputs(stream@, all.skip(it.index() as int)) == stream_outputs(false, all),
    {
        let ghost before = stream@;
        let ghost k = it.index() as int;
        assert(all.skip(k).drop_first() =~= all.skip(k + 1));
        assert(all.skip(k)[0] == item);
        match stream.step(item) {
            Some(p) => {
                res.push(p);
                assert(res@ + stream_outputs(stream@, all.skip(k + 1)) =~= res@.drop_last() + (
                seq![p] + stream_outputs(stream@, all.skip(k + 1))));
            },
            None => {},
        }
    }
    assert(all.skip(all.len() as int) =~= Seq::<SseItem>::empty());
    assert(res@ =~= stream_outputs(false, all));
    proof {
        law_stream_yields_until_done(all);
    }
    res
}

/// Partial message of a streamed choice (fields to apply cumulatively).
#[derive(Debug, Clone)]
pub struct ChoiceDelta {
    /// Role (usually in the first chunk only).
    pub role: Option<Role>,
    /// Fragment of text content.
    pub content: Option<String>,
    /// Fragment of refusal (moderated models).
    pub refusal: Option<String>,
    /// Streamed tool calls (their `arguments` arrive in fragments).
    pub tool_calls: Option<Vec<ChoiceDeltaToolCall>>,
}

impl Default for ChoiceDelta {
    fn default() -> (res: Self)
        ensures
            res.role is None,
            res.content is None,
            res.refusal is None,
            res.tool_calls is None,
    {
        ChoiceDelta { role: None, content: None, refusal: None, tool_calls: None }
    }
}

/// Partial tool call in a delta.
#[derive(Debug, Clone)]
pub struct ChoiceDeltaToolCall {
    /// Index of the tool call in the list (key for aggregation).
    pub index: u32,
    /// Identifier (in the first chunk of this tool call).
    pub id: Option<String>,
    /// Kind of tool (in the first chunk).
    pub kind: Option<String>,
    /// Function fragments.
    pub function: Option<ChoiceDeltaToolCallFunction>,
}

/// Function fragment of a streamed tool call.
#[derive(Debug, Clone)]
pub struct ChoiceDeltaToolCallFunction {
    /// Name of the function (in the first chunk).
    pub name: Option<String>,
    /// Fragment of the JSON arguments (to concatenate).
    pub arguments: Option<String>,
}

impl Default for ChoiceDeltaToolCallFunction {
    fn default() -> (res: Self)
        ensures
            res.name is None,
            res.arguments is None,
    {
        ChoiceDeltaToolCallFunction { name: None, arguments: None }
    }
}

} // verus!
