//! Assembly of a streamed response: upstream events become chunks, a stream
//! finishes once, and finished streams stay finished.

use vstd::prelude::*;
use vstd::string::*;
use crate::bedrock::error::BedrockError;
use crate::bedrock::message::{StreamChunk, TokenUsage};

verus! {

/// What the upstream stream produced when it was asked for its next item.
#[derive(Debug)]
pub enum StreamEvent {
    /// A piece of text
    Text(String),
    /// The usage of the whole response, carried in-band
    Usage(TokenUsage),
    /// The upstream failed
    Failed(BedrockError),
    /// The upstream has ended
    End,
    /// Nothing is ready yet
    Pending,
}

/// What the assembled stream yields for one upstream event.
#[derive(Debug)]
pub enum StreamStep {
    /// A chunk for the caller
    Chunk(StreamChunk),
    /// The failure that ends the stream
    Failed(BedrockError),
    /// The stream has ended
    Ended,
    /// Nothing is ready yet
    Pending,
    /// Nothing for the caller; ask the upstream again
    Again,
}

/// What a caller sees of a stream, leaving aside identifiers and timestamps.
pub enum Emission {
    /// A chunk of text
    Text(Seq<char>),
    /// The final chunk, with the usage it carries
    Final(TokenUsage),
    /// The failure that ends the stream
    Error(BedrockError),
}

/// A streaming response as a mathematical value.
pub struct StreamView {
    /// Whether the stream has finished
    pub finished: bool,
    /// The usage received in-band and not yet handed on
    pub pending_usage: Option<TokenUsage>,
}

impl StreamView {
    /// A stream before its first event.
    pub open spec fn initial() -> StreamView {
        StreamView { finished: false, pending_usage: None }
    }

    /// The stream after one upstream event.
    pub open spec fn next(self, event: StreamEvent) -> StreamView {
        if self.finished {
            self
        } else {
            match event {
                StreamEvent::Text(_) => self,
                StreamEvent::Usage(u) => StreamView { pending_usage: Some(u), ..self },
                StreamEvent::Failed(_) => StreamView { finished: true, pending_usage: None },
                StreamEvent::End => StreamView { finished: true, pending_usage: None },
                StreamEvent::Pending => self,
            }
        }
    }

    /// What the caller sees for one upstream event, if anything.
    pub open spec fn emission(self, event: StreamEvent) -> Option<Emission> {
        if self.finished {
            None
        } else {
            match event {
                StreamEvent::Text(t) => Some(Emission::Text(t@)),
                StreamEvent::Usage(_) => None,
                StreamEvent::Failed(e) => Some(Emission::Error(e)),
                StreamEvent::End => match self.pending_usage {
                    Some(u) => Some(Emission::Final(u)),
                    None => None,
                },
                StreamEvent::Pending => None,
            }
        }
    }

    /// The stream after a sequence of upstream events.
    pub open spec fn run(self, events: Seq<StreamEvent>) -> StreamView
        decreases events.len(),
    {
        if events.len() == 0 {
            self
        } else {
            self.run(events.drop_last()).next(events.last())
        }
    }

    /// What the caller sees over a sequence of upstream events.
    pub open spec fn emissions(self, events: Seq<StreamEvent>) -> Seq<Emission>
        decreases events.len(),
    {
        if events.len() == 0 {
            Seq::empty()
        } else {
            let before = self.emissions(events.drop_last());
            match self.run(events.drop_last()).emission(events.last()) {
                Some(e) => before.push(e),
                None => before,
            }
        }
    }
}

/// How many of the emissions are final chunks.
pub open spec fn count_final(emissions: Seq<Emission>) -> nat
    decreases emissions.len(),
{
    if emissions.len() == 0 {
        0
    } else {
        count_final(emissions.drop_last()) + if emissions.last() is Final {
            1nat
        } else {
            0nat
        }
    }
}

/// Whether an item handed to the caller is what the emission describes.
pub open spec fn item_matches(item: Result<StreamChunk, BedrockError>, emission: Emission) -> bool {
    match emission {
        Emission::Text(t) => item matches Ok(c) && c.content@ == t && !c.is_final && c.usage is None,
        Emission::Final(u) => item matches Ok(c) && c.content@ == Seq::<char>::empty()
            && c.is_final && c.usage == Some(u),
        Emission::Error(e) => item == Err::<StreamChunk, BedrockError>(e),
    }
}

/// A finished stream stays finished and shows the caller nothing more.
pub proof fn lemma_finished_is_final(v: StreamView, events: Seq<StreamEvent>)
    requires
        v.finished,
    ensures
        v.run(events) == v,
        v.emissions(events) == Seq::<Emission>::empty(),
    decreases events.len(),
{
    if events.len() > 0 {
        lemma_finished_is_final(v, events.drop_last());
    }
}

/// Whatever the upstream sends, the caller sees at most one final chunk, and
/// after a final chunk or a failure the stream has finished.
pub proof fn lemma_at_most_one_final(v: StreamView, events: Seq<StreamEvent>)
    ensures
        count_final(v.emissions(events)) <= 1,
        count_final(v.emissions(events)) == 1 ==> v.run(events).finished,
        v.emissions(events).len() > 0 && v.emissions(events).last() is Error ==> v.run(
            events,
        ).finished,
        v.finished ==> v.run(events).finished,
    decreases events.len(),
{
    if events.len() > 0 {
        let head = events.drop_last();
        lemma_at_most_one_final(v, head);
        let before = v.emissions(head);
        match v.run(head).emission(events.last()) {
            Some(e) => {
                assert(v.emissions(events) == before.push(e));
                assert(before.push(e).drop_last() =~= before);
            },
            None => {},
        }
    }
}

/// Streaming response wrapper: the state that turns upstream events into chunks.
#[derive(Debug)]
pub struct StreamingResponse {
    model: String,
    finished: bool,
    pending_usage: Option<TokenUsage>,
}

impl View for StreamingResponse {
    type V = StreamView;

    closed spec fn view(&self) -> StreamView {
        StreamView { finished: self.finished, pending_usage: self.pending_usage }
    }
}

impl StreamingResponse {
    /// The model that the stream comes from.
    pub closed spec fn spec_model(&self) -> Seq<char> {
        self.model@
    }

    /// Create a new streaming response
    pub fn new(model: String) -> (s: Self)
        ensures
            s@ == StreamView::initial(),
            s.spec_model() == model@,
    {
        StreamingResponse { model, finished: false, pending_usage: None }
    }

    /// Take in one upstream event and say what the caller gets for it. A
    /// finished stream answers `Ended` to everything.
    pub fn on_event(&mut self, event: StreamEvent) -> (step: StreamStep)
        ensures
            final(self)@ == old(self)@.next(event),
            final(self).spec_model() == old(self).spec_model(),
            match old(self)@.emission(event) {
                Some(e) => match step {
                    StreamStep::Chunk(c) => item_matches(Ok(c), e),
                    StreamStep::Failed(err) => item_matches(Err(err), e),
                    _ => false,
                },
                None => if old(self)@.finished || event is End {
                    step is Ended
                } else if event is Usage {
                    step is Again
                } else {
                    step is Pending
                },
            },
    {
        if self.finished {
            return StreamStep::Ended;
        }
        match event {
            StreamEvent::Text(text) => StreamStep::Chunk(StreamChunk::content(text.as_str())),
            StreamEvent::Usage(usage) => {
                self.pending_usage = Some(usage);
                StreamStep::Again
            },
            StreamEvent::Failed(e) => {
                self.finished = true;
                self.pending_usage = None;
                StreamStep::Failed(e)
            },
            StreamEvent::End => {
                self.finished = true;
                let mut usage: Option<TokenUsage> = None;
                std::mem::swap(&mut self.pending_usage, &mut usage);
                match usage {
                    Some(u) => StreamStep::Chunk(StreamChunk::final_chunk(u)),
                    None => StreamStep::Ended,
                }
            },
            StreamEvent::Pending => StreamStep::Pending,
        }
    }

    /// Take in a sequence of upstream events, one after another, and hand back
    /// what the caller sees of them.
    pub fn drain(&mut self, events: Vec<StreamEvent>) -> (items: Vec<
        Result<StreamChunk, BedrockError>,
    >)
        ensures
            final(self)@ == old(self)@.run(events@),
            final(self).spec_model() == old(self).spec_model(),
            items@.len() == old(self)@.emissions(events@).len(),
            forall|i: int|
                0 <= i < items@.len() ==> item_matches(
                    #[trigger] items@[i],
                    old(self)@.emissions(events@)[i],
                ),
    {
        let mut items: Vec<Result<StreamChunk, BedrockError>> = Vec::new();
        let ghost start = self@;
        for event in it: events
            invariant
                it.seq() == events@,
                self@ == start.run(events@.take(it.index() as int)),
                self.spec_model() == old(self).spec_model(),
                items@.len() == start.emissions(events@.take(it.index() as int)).len(),
                forall|i: int|
                    0 <= i < items@.len() ==> item_matches(
                        #[trigger] items@[i],
                        start.emissions(events@.take(it.index() as int))[i],
                    ),
        {
            proof {
                let k = it.index() as int;
                assert(events@.take(k + 1).drop_last() =~= events@.take(k));
                assert(events@.take(k + 1).last() == event);
            }
            match self.on_event(event) {
                StreamStep::Chunk(c) => {
                    items.push(Ok(c));
                },
                StreamStep::Failed(e) => {
                    items.push(Err(e));
                },
                _ => {},
            }
        }
        assert(events@.take(events@.len() as int) =~= events@);
        items
    }

    /// Get the model being used for this stream
    pub fn model(&self) -> (m: &str)
        ensures
            m@ == self.spec_model(),
    {
        self.model.as_str()
    }

    /// Check if the stream has finished
    pub fn is_finished(&self) -> (b: bool)
        ensures
            b == self@.finished,
    {
        self.finished
    }
}

/// The position of the first failure among the items, or their number where
/// there is none.
pub open spec fn first_failure(items: Seq<Result<StreamChunk, BedrockError>>) -> int
    decreases items.len(),
{
    if items.len() == 0 {
        0
    } else if items[0] is Err {
        0
    } else {
        1 + first_failure(items.drop_first())
    }
}

/// The text of the chunks that are not final, in order.
pub open spec fn collected_text(items: Seq<Result<StreamChunk, BedrockError>>) -> Seq<char>
    decreases items.len(),
{
    if items.len() == 0 {
        Seq::empty()
    } else {
        let before = collected_text(items.drop_last());
        match items.last() {
            Ok(c) => if c.is_final {
                before
            } else {
                before + c.content@
            },
            Err(_) => before,
        }
    }
}

/// The usage that the last final chunk among the items carries.
pub open spec fn last_final_usage(items: Seq<Result<StreamChunk, BedrockError>>) -> Option<
    TokenUsage,
>
    decreases items.len(),
{
    if items.len() == 0 {
        None
    } else {
        match items.last() {
            Ok(c) => if c.is_final {
                c.usage
            } else {
                last_final_usage(items.drop_last())
            },
            Err(_) => last_final_usage(items.drop_last()),
        }
    }
}

/// The first failure lies within the items exactly where one of them failed,
/// and everything before it succeeded.
pub proof fn lemma_first_failure(items: Seq<Result<StreamChunk, BedrockError>>)
    ensures
        0 <= first_failure(items) <= items.len(),
        first_failure(items) < items.len() ==> items[first_failure(items)] is Err,
        forall|i: int| 0 <= i < first_failure(items) ==> (#[trigger] items[i]) is Ok,
    decreases items.len(),
{
    if items.len() > 0 && items[0] is Ok {
        let rest = items.drop_first();
        lemma_first_failure(rest);
        assert forall|i: int| 0 <= i < first_failure(items) implies (#[trigger] items[i]) is Ok by {
            if i > 0 {
                assert(rest[i - 1] is Ok);
            }
        }
    }
}

/// Collect the text of all chunks into a single string, together with the
/// usage that the last final chunk carried. The text of a final chunk is left
/// out. The first failure among the items, if there is one, is the result.
pub fn collect_text(items: Vec<Result<StreamChunk, BedrockError>>) -> (r: Result<
    (String, Option<TokenUsage>),
    BedrockError,
>)
    ensures
        r is Ok <==> first_failure(items@) == items@.len(),
        r matches Ok(collected) ==> collected.0@ == collected_text(items@) && collected.1
            == last_final_usage(items@),
        r matches Err(e) ==> items@[first_failure(items@)] == Err::<StreamChunk, BedrockError>(e),
{
    let mut content = String::new();
    let mut usage: Option<TokenUsage> = None;
    proof {
        lemma_first_failure(items@);
    }
    for item in it: items
        invariant
            it.seq() == items@,
            it.index() <= first_failure(items@),
            content@ == collected_text(items@.take(it.index() as int)),
            usage == last_final_usage(items@.take(it.index() as int)),
            0 <= first_failure(items@) <= items@.len(),
            first_failure(items@) < items@.len() ==> items@[first_failure(items@)] is Err,
            forall|i: int| 0 <= i < first_failure(items@) ==> (#[trigger] items@[i]) is Ok,
    {
        proof {
            let k = it.index() as int;
            assert(items@.take(k + 1).drop_last() =~= items@.take(k));
            assert(items@.take(k + 1).last() == item);
        }
        match item {
            Ok(chunk) => {
                if chunk.is_final {
                    usage = chunk.usage;
                } else {
                    content.append(chunk.content.as_str());
                }
            },
            Err(e) => {
                proof {
                    let k = it.index() as int;
                    if k < first_failure(items@) {
                        assert(items@[k] is Ok);
                    }
                }
                return Err(e);
            },
        }
    }
    proof {
        assert(items@.take(items@.len() as int) =~= items@);
        if first_failure(items@) < items@.len() {
            assert(items@[first_failure(items@)] is Err);
        }
    }
    Ok((content, usage))
}

/// Collect all chunks into a vector. The first failure among the items, if
/// there is one, is the result.
pub fn collect_chunks(items: Vec<Result<StreamChunk, BedrockError>>) -> (r: Result<
    Vec<StreamChunk>,
    BedrockError,
>)
    ensures
        r is Ok <==> first_failure(items@) == items@.len(),
        r matches Ok(chunks) ==> chunks@.len() == items@.len() && forall|i: int|
            0 <= i < chunks@.len() ==> items@[i] == Ok::<StreamChunk, BedrockError>(
                #[trigger] chunks@[i],
            ),
        r matches Err(e) ==> items@[first_failure(items@)] == Err::<StreamChunk, BedrockError>(e),
{
    let mut chunks: Vec<StreamChunk> = Vec::new();
    proof {
        lemma_first_failure(items@);
    }
    for item in it: items
        invariant
            it.seq() == items@,
            it.index() <= first_failure(items@),
            chunks@.len() == it.index(),
            forall|i: int|
                0 <= i < chunks@.len() ==> items@[i] == Ok::<StreamChunk, BedrockError>(
                    #[trigger] chunks@[i],
                ),
            0 <= first_failure(items@) <= items@.len(),
            first_failure(items@) < items@.len() ==> items@[first_failure(items@)] is Err,
            forall|i: int| 0 <= i < first_failure(items@) ==> (#[trigger] items@[i]) is Ok,
    {
        match item {
            Ok(chunk) => {
                chunks.push(chunk);
            },
            Err(e) => {
                proof {
                    let k = it.index() as int;
                    if k < first_failure(items@) {
                        assert(items@[k] is Ok);
                    }
                }
                return Err(e);
            },
        }
    }
    proof {
        if first_failure(items@) < items@.len() {
            assert(items@[first_failure(items@)] is Err);
        }
    }
    Ok(chunks)
}

/// Buffer for accumulating streaming content
#[derive(Debug)]
pub struct StreamBuffer {
    content: String,
    chunks: Vec<StreamChunk>,
    total_tokens: usize,
    estimated_cost_nanos: u64,
}

impl StreamBuffer {
    /// The text accumulated so far.
    pub closed spec fn spec_content(&self) -> Seq<char> {
        self.content@
    }

    /// The chunks added so far.
    pub closed spec fn spec_chunks(&self) -> Seq<StreamChunk> {
        self.chunks@
    }

    /// The token total of the last chunk that carried usage.
    pub closed spec fn spec_total_tokens(&self) -> nat {
        self.total_tokens as nat
    }

    /// The cost of the last chunk that carried usage.
    pub closed spec fn spec_cost_nanos(&self) -> nat {
        self.estimated_cost_nanos as nat
    }

    /// Create a new stream buffer
    pub fn new() -> (b: Self)
        ensures
            b.spec_content() == Seq::<char>::empty(),
            b.spec_chunks() == Seq::<StreamChunk>::empty(),
            b.spec_total_tokens() == 0,
            b.spec_cost_nanos() == 0,
    {
        StreamBuffer {
            content: String::new(),
            chunks: Vec::new(),
            total_tokens: 0,
            estimated_cost_nanos: 0,
        }
    }

    /// Add a chunk to the buffer: its text is appended, and where it carries
    /// usage the totals are taken from it.
    pub fn add_chunk(&mut self, chunk: StreamChunk)
        ensures
            final(self).spec_content() == old(self).spec_content() + chunk.content@,
            final(self).spec_chunks() == old(self).spec_chunks().push(chunk),
            final(self).spec_total_tokens() == match chunk.usage {
                Some(u) => u.spec_input_tokens() + u.spec_output_tokens(),
                None => old(self).spec_total_tokens(),
            },
            final(self).spec_cost_nanos() == match chunk.usage {
                Some(u) => u.spec_cost_nanos(),
                None => old(self).spec_cost_nanos(),
            },
    {
        self.content.append(chunk.content.as_str());
        match &chunk.usage {
            Some(usage) => {
                self.total_tokens = usage.total_tokens();
                self.estimated_cost_nanos = usage.estimated_cost_nanos();
            },
            None => {},
        }
        self.chunks.push(chunk);
    }

    /// Get the accumulated content
    pub fn content(&self) -> (s: &str)
        ensures
            s@ == self.spec_content(),
    {
        self.content.as_str()
    }

    /// Get all chunks
    pub fn chunks(&self) -> (c: &[StreamChunk])
        ensures
            c@ == self.spec_chunks(),
    {
        self.chunks.as_slice()
    }

    /// Get total tokens used
    pub fn total_tokens(&self) -> (n: usize)
        ensures
            n == self.spec_total_tokens(),
    {
        self.total_tokens
    }

    /// Get estimated cost in billionths of a dollar
    pub fn estimated_cost_nanos(&self) -> (c: u64)
        ensures
            c == self.spec_cost_nanos(),
    {
        self.estimated_cost_nanos
    }

    /// Check if the stream is complete: the last chunk added is a final one
    pub fn is_complete(&self) -> (b: bool)
        ensures
            b == (self.spec_chunks().len() > 0 && self.spec_chunks().last().is_final),
    {
        let n = self.chunks.len();
        n > 0 && self.chunks[n - 1].is_final
    }

    /// Clear the buffer
    pub fn clear(&mut self)
        ensures
            final(self).spec_content() == Seq::<char>::empty(),
            final(self).spec_chunks() == Seq::<StreamChunk>::empty(),
            final(self).spec_total_tokens() == 0,
            final(self).spec_cost_nanos() == 0,
    {
        self.content = String::new();
        self.chunks.clear();
        self.total_tokens = 0;
        self.estimated_cost_nanos = 0;
    }
}

impl Default for StreamBuffer {
    fn default() -> (b: Self)
        ensures
            b.spec_content() == Seq::<char>::empty(),
            b.spec_chunks() == Seq::<StreamChunk>::empty(),
            b.spec_total_tokens() == 0,
            b.spec_cost_nanos() == 0,
    {
        StreamBuffer::new()
    }
}

/// Stream processor for handling chunks in real-time
pub struct StreamProcessor<F> {
    handler: F,
}

impl<F: Fn(StreamChunk) -> Result<(), BedrockError>> StreamProcessor<F> {
    /// The handler that every chunk is given to.
    pub closed spec fn spec_handler(&self) -> F {
        self.handler
    }

    /// Whether the handler may answer the item, a chunk, with success.
    pub open spec fn accepts(&self, item: Result<StreamChunk, BedrockError>) -> bool {
        item is Ok && exists|outcome: Result<(), BedrockError>|
            outcome is Ok && #[trigger] self.spec_handler().ensures((item->Ok_0,), outcome)
    }

    /// Whether the handler may answer the item, a chunk, with the given failure.
    pub open spec fn rejects(&self, item: Result<StreamChunk, BedrockError>, e: BedrockError) -> bool {
        item is Ok && self.spec_handler().ensures((item->Ok_0,), Err(e))
    }

    /// Create a new stream processor with a handler function
    pub fn new(handler: F) -> (p: Self)
        ensures
            p.spec_handler() == handler,
    {
        StreamProcessor { handler }
    }

    /// Process the items of a stream in order: each chunk is given to the
    /// handler, and the first failure, of the stream or of the handler, ends
    /// the run. A run without failure yields the usage that the last final
    /// chunk carried, and fails where there was none.
    pub fn process(&self, items: Vec<Result<StreamChunk, BedrockError>>) -> (r: Result<
        TokenUsage,
        BedrockError,
    >)
        requires
            forall|c: StreamChunk| self.spec_handler().requires((c,)),
        ensures
            r matches Ok(u) ==> {
                &&& first_failure(items@) == items@.len()
                &&& last_final_usage(items@) == Some(u)
                &&& forall|i: int| 0 <= i < items@.len() ==> self.accepts(#[trigger] items@[i])
            },
            r matches Err(e) ==> {
                ||| first_failure(items@) < items@.len() && items@[first_failure(items@)]
                    == Err::<StreamChunk, BedrockError>(e)
                ||| exists|i: int|
                    0 <= i < items@.len() && i < first_failure(items@) && self.rejects(
                        #[trigger] items@[i],
                        e,
                    )
                ||| first_failure(items@) == items@.len() && last_final_usage(items@) is None
                    && e is InvalidResponse && e.spec_detail()
                    == "No usage information received"@
            },
    {
        let mut final_usage: Option<TokenUsage> = None;
        proof {
            lemma_first_failure(items@);
        }
        for item in it: items
            invariant
                it.seq() == items@,
                it.index() <= first_failure(items@),
                final_usage == last_final_usage(items@.take(it.index() as int)),
                forall|c: StreamChunk| self.spec_handler().requires((c,)),
                forall|i: int| 0 <= i < it.index() ==> self.accepts(#[trigger] items@[i]),
                0 <= first_failure(items@) <= items@.len(),
                first_failure(items@) < items@.len() ==> items@[first_failure(items@)] is Err,
                forall|i: int| 0 <= i < first_failure(items@) ==> (#[trigger] items@[i]) is Ok,
        {
            proof {
                let k = it.index() as int;
                assert(items@.take(k + 1).drop_last() =~= items@.take(k));
                assert(items@.take(k + 1).last() == item);
            }
            match item {
                Ok(chunk) => {
                    if chunk.is_final {
                        final_usage = match &chunk.usage {
                            Some(u) => Some(u.clone()),
                            None => None,
                        };
                    }
                    proof {
                        let k = it.index() as int;
                        if first_failure(items@) < items@.len() && k == first_failure(items@) {
                            assert(items@[k] is Err);
                        }
                    }
                    let ghost given = chunk;
                    assert(self.spec_handler().requires((chunk,)));
                    let outcome = (self.handler)(chunk);
                    proof {
                        let k = it.index() as int;
                        assert(self.spec_handler().ensures((given,), outcome));
                        assert(items@[k]->Ok_0 == given);
                    }
                    match outcome {
                        Ok(()) => {
                            assert(self.accepts(items@[it.index() as int]));
                        },
                        Err(e) => {
                            assert(self.rejects(items@[it.index() as int], e));
                            return Err(e);
                        },
                    }
                },
                Err(e) => {
                    proof {
                        let k = it.index() as int;
                        if k < first_failure(items@) {
                            assert(items@[k] is Ok);
                        }
                    }
                    return Err(e);
                },
            }
        }
        proof {
            assert(items@.take(items@.len() as int) =~= items@);
            if first_failure(items@) < items@.len() {
                assert(items@[first_failure(items@)] is Err);
            }
        }
        match final_usage {
            Some(u) => Ok(u),
            None => Err(
                BedrockError::InvalidResponse(String::from_str("No usage information received")),
            ),
        }
    }
}

} // verus!
