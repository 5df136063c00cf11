//! What the events of a streamed answer mean.
//!
//! Text is passed on as it comes in. Tool calls come in fragments; these are passed on too, and
//! put together until the answer ends.
use crate::error::Error;
use crate::json::parse_tool_input;
use crate::language_model::{
    ContentView, DeltaView, LanguageModelResponseContentType, LanguageModelStreamChunk,
    LanguageModelStreamChunkType, StreamChunkView, Usage,
};
use crate::messages::{AssistantMessage, AssistantMessageView};
use crate::providers::openai_chat_completions::language_model::converted_tool_call;
use crate::providers::openai_chat_completions::types::{
    ChatCompletionsStreamChunk, ChatCompletionsStreamEvent, StreamChoice, StreamChoiceView,
    StreamEventView, ToolCallDelta, ToolCallDeltaView, ToolCallView,
};
use crate::sequences::seq_view;
use crate::text::same_text;
use crate::tools::{ToolCallInfo, ToolDetails};
use std::collections::HashMap;
use vstd::prelude::*;
use vstd::std_specs::iter::IteratorSpec;

verus! {

/// A tool call as far as it has come in.
#[derive(Debug, Clone, PartialEq)]
pub struct AccumulatedToolCall {
    pub id: String,
    pub name: String,
    pub arguments: String,
}

impl View for AccumulatedToolCall {
    type V = ToolCallView;

    open spec fn view(&self) -> ToolCallView {
        ToolCallView { id: self.id@, name: self.name@, arguments: self.arguments@ }
    }
}

/// The tool calls of an answer that is coming in, each under its index.
#[derive(Debug, Clone, PartialEq)]
pub struct StreamState {
    pub tool_calls: HashMap<u32, AccumulatedToolCall>,
}

/// The calls that a table holds.
pub open spec fn calls_view(calls: Map<u32, AccumulatedToolCall>) -> Map<u32, ToolCallView> {
    calls.map_values(|call: AccumulatedToolCall| call@)
}

impl View for StreamState {
    type V = Map<u32, ToolCallView>;

    open spec fn view(&self) -> Map<u32, ToolCallView> {
        calls_view(self.tool_calls@)
    }
}

/// The call under an index; one of which nothing has come in where there is none.
pub open spec fn call_at(calls: Map<u32, ToolCallView>, index: u32) -> ToolCallView {
    if calls.contains_key(index) {
        calls[index]
    } else {
        ToolCallView { id: Seq::empty(), name: Seq::empty(), arguments: Seq::empty() }
    }
}

/// The call with a fragment added: a new id or name replaces the old one, and arguments are put
/// after those that came before.
pub open spec fn extended_call(call: ToolCallView, delta: ToolCallDeltaView) -> ToolCallView {
    ToolCallView {
        id: match delta.id {
            Some(id) => id,
            None => call.id,
        },
        name: match delta.name {
            Some(name) => name,
            None => call.name,
        },
        arguments: match delta.arguments {
            Some(arguments) => call.arguments + arguments,
            None => call.arguments,
        },
    }
}

/// The calls with the fragments added in turn.
pub open spec fn accumulated(
    calls: Map<u32, ToolCallView>,
    deltas: Seq<ToolCallDeltaView>,
) -> Map<u32, ToolCallView>
    decreases deltas.len(),
{
    if deltas.len() == 0 {
        calls
    } else {
        let earlier = accumulated(calls, deltas.drop_last());
        let delta = deltas.last();
        earlier.insert(delta.index, extended_call(call_at(earlier, delta.index), delta))
    }
}

/// The fragments of arguments, as they are passed on.
pub open spec fn argument_chunks(deltas: Seq<ToolCallDeltaView>) -> Seq<StreamChunkView>
    decreases deltas.len(),
{
    if deltas.len() == 0 {
        Seq::empty()
    } else {
        let earlier = argument_chunks(deltas.drop_last());
        match deltas.last().arguments {
            Some(arguments) => earlier.push(StreamChunkView::Delta(DeltaView::ToolCall(arguments))),
            None => earlier,
        }
    }
}

/// Text as it is passed on: not at all where it is empty.
pub open spec fn text_chunks(content: Option<Seq<char>>) -> Seq<StreamChunkView> {
    match content {
        Some(text) => if text.len() > 0 {
            seq![StreamChunkView::Delta(DeltaView::Text(text))]
        } else {
            Seq::empty()
        },
        None => Seq::empty(),
    }
}

/// The end of an answer in which nothing is left to be said.
pub open spec fn plain_end(usage: Option<Usage>) -> StreamChunkView {
    StreamChunkView::Done(
        AssistantMessageView { content: ContentView::Text(Seq::empty()), usage },
    )
}

/// A tool call that is complete.
pub open spec fn tool_call_end(call: ToolCallView, usage: Option<Usage>) -> StreamChunkView {
    StreamChunkView::Done(
        AssistantMessageView {
            content: ContentView::ToolCall(converted_tool_call(call)),
            usage,
        },
    )
}

/// The calls under the given indices, complete.
pub open spec fn tool_call_ends(
    calls: Map<u32, ToolCallView>,
    order: Seq<u32>,
    usage: Option<Usage>,
) -> Seq<StreamChunkView> {
    order.map_values(|index: u32| tool_call_end(calls[index], usage))
}

/// The answer ends in order that tools be called.
pub open spec fn ends_in_tool_calls(reason: Seq<char>) -> bool {
    reason == "tool_calls"@ || reason == "function_call"@
}

/// How an answer ends: with its tool calls, in the given order, where it ends for these; with a
/// plain end and a failure where it was filtered; and with a plain end for any other reason.
pub open spec fn finish_chunks(
    calls: Map<u32, ToolCallView>,
    reason: Option<Seq<char>>,
    usage: Option<Usage>,
    order: Seq<u32>,
) -> Seq<StreamChunkView> {
    match reason {
        Some(reason) => if ends_in_tool_calls(reason) {
            tool_call_ends(calls, order, usage)
        } else if reason == "content_filter"@ {
            seq![
                plain_end(usage),
                StreamChunkView::Delta(DeltaView::Failed("Content filtered"@)),
            ]
        } else {
            seq![plain_end(usage)]
        },
        None => Seq::empty(),
    }
}

/// What a fragment of an answer gives, `calls` being the tool calls with the fragment's own added:
/// its text, its fragments of arguments, and the end, if it is one.
pub open spec fn choice_chunks(
    calls: Map<u32, ToolCallView>,
    choice: StreamChoiceView,
    usage: Option<Usage>,
    order: Seq<u32>,
) -> Seq<StreamChunkView> {
    text_chunks(choice.content) + argument_chunks(choice.tool_calls) + finish_chunks(
        calls,
        choice.finish_reason,
        usage,
        order,
    )
}

/// The tool calls after the fragments of answers have come in, in turn.
pub open spec fn calls_after(
    calls: Map<u32, ToolCallView>,
    choices: Seq<StreamChoiceView>,
) -> Map<u32, ToolCallView>
    decreases choices.len(),
{
    if choices.len() == 0 {
        calls
    } else {
        accumulated(calls_after(calls, choices.drop_last()), choices.last().tool_calls)
    }
}

/// What the fragments of answers give, one after the other. `orders` holds for each of them the
/// order in which the tool calls are walked should it be an end.
pub open spec fn chunk_output(
    calls: Map<u32, ToolCallView>,
    choices: Seq<StreamChoiceView>,
    usage: Option<Usage>,
    orders: Seq<Seq<u32>>,
) -> Seq<StreamChunkView>
    decreases choices.len(),
{
    if choices.len() == 0 {
        Seq::empty()
    } else {
        chunk_output(calls, choices.drop_last(), usage, orders.drop_last()) + choice_chunks(
            calls_after(calls, choices),
            choices.last(),
            usage,
            orders.last(),
        )
    }
}

/// The order visits every call once and nothing else.
pub open spec fn is_walk(calls: Map<u32, ToolCallView>, order: Seq<u32>) -> bool {
    order.no_duplicates() && order.to_set() == calls.dom()
}

/// The fragment is the end of an answer that ends in order that tools be called.
pub open spec fn calls_tools(choice: StreamChoiceView) -> bool {
    choice.finish_reason matches Some(reason) && ends_in_tool_calls(reason)
}

/// For each fragment that ends in tool calls there is an order that visits the calls that have
/// come in by then.
pub open spec fn are_walks(
    calls: Map<u32, ToolCallView>,
    choices: Seq<StreamChoiceView>,
    orders: Seq<Seq<u32>>,
) -> bool {
    &&& orders.len() == choices.len()
    &&& forall|i: int|
        0 <= i < choices.len() && calls_tools(choices[i]) ==> is_walk(
            calls_after(calls, choices.take(i + 1)),
            #[trigger] orders[i],
        )
}

/// `output` is what a chunk may give: what its fragments give, the tool calls that are complete in
/// any order.
pub open spec fn chunk_outcome(
    calls: Map<u32, ToolCallView>,
    choices: Seq<StreamChoiceView>,
    usage: Option<Usage>,
    output: Seq<StreamChunkView>,
) -> bool {
    exists|orders: Seq<Seq<u32>>| #[trigger]
        are_walks(calls, choices, orders) && output == chunk_output(calls, choices, usage, orders)
}

/// `output` is what an event may give: of a chunk what the chunk may give; of a failure that the
/// provider reports the failure; otherwise nothing.
pub open spec fn event_outcome(
    calls: Map<u32, ToolCallView>,
    event: StreamEventView,
    output: Seq<StreamChunkView>,
) -> bool {
    match event {
        StreamEventView::Chunk { choices, usage } => chunk_outcome(calls, choices, usage, output),
        StreamEventView::Error(reason) => output == seq![
            StreamChunkView::Delta(DeltaView::Failed(reason)),
        ],
        StreamEventView::Open => output == Seq::<StreamChunkView>::empty(),
        StreamEventView::Done => output == Seq::<StreamChunkView>::empty(),
    }
}

/// The tool calls after an event: those of a chunk are added, and nothing else changes them.
pub open spec fn calls_after_event(
    calls: Map<u32, ToolCallView>,
    event: StreamEventView,
) -> Map<u32, ToolCallView> {
    match event {
        StreamEventView::Chunk { choices, .. } => calls_after(calls, choices),
        _ => calls,
    }
}

/// The indices of the calls, in the order in which the table happens to be walked.
pub fn tool_call_order(calls: &HashMap<u32, AccumulatedToolCall>) -> (r: Vec<u32>)
    ensures
        is_walk(calls_view(calls@), r@),
{
    let mut order: Vec<u32> = Vec::new();
    let keys = calls.keys();
    for index in walk: keys
        invariant
            walk.seq() == keys.remaining(),
            order@.len() == walk.index(),
            forall|i: int| 0 <= i < order@.len() ==> #[trigger] order@[i] == *walk.seq()[i],
    {
        order.push(*index);
    }
    proof {
        let visited = keys.remaining();
        assert(visited.unref() =~= order@);
        assert forall|i: int, j: int|
            0 <= i < order@.len() && 0 <= j < order@.len() && i != j implies order@[i]
            != order@[j] by {
            assert(visited[i] != visited[j]);
        }
        assert(calls_view(calls@).dom() =~= calls@.dom());
    }
    order
}

/// The calls under the given indices, complete.
pub fn finished_tool_calls(
    calls: &HashMap<u32, AccumulatedToolCall>,
    order: &Vec<u32>,
    usage: Option<Usage>,
) -> (r: Vec<LanguageModelStreamChunk>)
    requires
        forall|i: int| 0 <= i < order@.len() ==> calls@.contains_key(#[trigger] order@[i]),
    ensures
        seq_view(r@) == tool_call_ends(calls_view(calls@), order@, usage),
{
    let mut ends: Vec<LanguageModelStreamChunk> = Vec::new();
    let mut i: usize = 0;
    while i < order.len()
        invariant
            i <= order@.len(),
            ends@.len() == i,
            forall|j: int|
                0 <= j < order@.len() ==> calls@.contains_key(#[trigger] order@[j]),
            forall|j: int|
                0 <= j < i ==> (#[trigger] ends@[j])@ == tool_call_end(calls@[order@[j]]@, usage),
        decreases order@.len() - i,
    {
        let index = order[i];
        assert(calls@.contains_key(order@[i as int]));
        if let Some(call) = calls.get(&index) {
            let info = ToolCallInfo {
                tool: ToolDetails { name: call.name.clone(), id: call.id.clone() },
                input: parse_tool_input(call.arguments.as_str()),
            };
            ends.push(
                LanguageModelStreamChunk::Done(
                    AssistantMessage {
                        content: LanguageModelResponseContentType::ToolCall(info),
                        usage,
                    },
                ),
            );
        }
        i += 1;
    }
    assert(seq_view(ends@) =~= tool_call_ends(calls_view(calls@), order@, usage));
    ends
}

/// The end of an answer in which nothing is left to be said.
fn plain_done(usage: Option<Usage>) -> (r: LanguageModelStreamChunk)
    ensures
        r@ == plain_end(usage),
{
    LanguageModelStreamChunk::Done(
        AssistantMessage {
            content: LanguageModelResponseContentType::Text(String::new()),
            usage,
        },
    )
}

/// Whether an answer that ends for this reason ends in order that tools be called.
fn asks_for_tools(reason: &str) -> (r: bool)
    ensures
        r == ends_in_tool_calls(reason@),
{
    same_text(reason, "tool_calls") || same_text(reason, "function_call")
}

/// How an answer ends, the tool calls being walked in the given order.
pub fn finish(
    calls: &HashMap<u32, AccumulatedToolCall>,
    reason: &str,
    usage: Option<Usage>,
    order: &Vec<u32>,
) -> (r: Vec<LanguageModelStreamChunk>)
    requires
        forall|i: int| 0 <= i < order@.len() ==> calls@.contains_key(#[trigger] order@[i]),
    ensures
        seq_view(r@) == finish_chunks(calls_view(calls@), Some(reason@), usage, order@),
{
    if asks_for_tools(reason) {
        finished_tool_calls(calls, order, usage)
    } else if same_text(reason, "content_filter") {
        let ends = vec![
            plain_done(usage),
            LanguageModelStreamChunk::Delta(
                LanguageModelStreamChunkType::Failed("Content filtered".to_owned()),
            ),
        ];
        assert(seq_view(ends@) =~= finish_chunks(
            calls_view(calls@),
            Some(reason@),
            usage,
            order@,
        ));
        ends
    } else {
        let ends = vec![plain_done(usage)];
        assert(seq_view(ends@) =~= seq![plain_end(usage)]);
        ends
    }
}

impl StreamState {
    /// The state in which a stream begins.
    pub fn new() -> (r: Self)
        ensures
            r@ == Map::<u32, ToolCallView>::empty(),
    {
        let r = StreamState { tool_calls: HashMap::new() };
        assert(r@ =~= Map::empty());
        r
    }

    /// Adds a fragment to its tool call and passes its arguments on.
    pub fn add_tool_call_delta(
        &mut self,
        delta: ToolCallDelta,
        results: &mut Vec<LanguageModelStreamChunk>,
    )
        ensures
            final(self)@ == old(self)@.insert(
                delta.index,
                extended_call(call_at(old(self)@, delta.index), delta@),
            ),
            seq_view(final(results)@) == seq_view(old(results)@) + argument_chunks(seq![delta@]),
    {
        let ghost before = self@;
        let ghost given = seq_view(results@);
        let ToolCallDelta { index, id, function } = delta;
        let mut entry = match self.tool_calls.remove(&index) {
            Some(entry) => entry,
            None => AccumulatedToolCall {
                id: String::new(),
                name: String::new(),
                arguments: String::new(),
            },
        };
        assert(entry@ == call_at(before, index));
        if let Some(id) = id {
            entry.id = id;
        }
        proof {
            reveal_with_fuel(argument_chunks, 2);
            assert(seq![delta@].drop_last() =~= Seq::empty());
        }
        if let Some(function) = function {
            if let Some(name) = function.name {
                entry.name = name;
            }
            if let Some(arguments) = function.arguments {
                entry.arguments.append(arguments.as_str());
                results.push(
                    LanguageModelStreamChunk::Delta(
                        LanguageModelStreamChunkType::ToolCall(arguments),
                    ),
                );
            }
        }
        assert(seq_view(results@) =~= given + argument_chunks(seq![delta@]));
        self.tool_calls.insert(index, entry);
        assert(self@ =~= before.insert(index, entry@));
    }

    /// Adds fragments of tool calls in turn and passes their arguments on.
    fn add_tool_call_deltas(
        &mut self,
        deltas: Vec<ToolCallDelta>,
        results: &mut Vec<LanguageModelStreamChunk>,
    )
        ensures
            final(self)@ == accumulated(old(self)@, seq_view(deltas@)),
            seq_view(final(results)@) == seq_view(old(results)@) + argument_chunks(
                seq_view(deltas@),
            ),
    {
        let ghost before = self@;
        let ghost given = seq_view(results@);
        let ghost views = seq_view(deltas@);
        assert(views.take(0) =~= Seq::empty());
        assert(seq_view(results@) =~= given + argument_chunks(views.take(0)));
        for delta in rest: deltas
            invariant
                rest.seq() == deltas@,
                views == seq_view(deltas@),
                self@ == accumulated(before, views.take(rest.index())),
                seq_view(results@) == given + argument_chunks(views.take(rest.index())),
        {
            let ghost at = rest.index();
            let ghost current = delta@;
            proof {
                assert(views.take(at + 1).drop_last() =~= views.take(at));
                assert(views.take(at + 1).last() == current);
                reveal_with_fuel(argument_chunks, 2);
                assert(seq![current].drop_last() =~= Seq::empty());
                assert(argument_chunks(views.take(at + 1)) =~= argument_chunks(views.take(at))
                    + argument_chunks(seq![current]));
            }
            self.add_tool_call_delta(delta, results);
            assert(seq_view(results@) =~= given + argument_chunks(views.take(at + 1)));
        }
        assert(views.take(views.len() as int) =~= views);
    }

    /// Takes in a fragment of an answer and passes on what it gives.
    pub fn add_choice(
        &mut self,
        choice: StreamChoice,
        usage: Option<Usage>,
        results: &mut Vec<LanguageModelStreamChunk>,
    )
        ensures
            final(self)@ == accumulated(old(self)@, choice@.tool_calls),
            exists|order: Seq<u32>|
                (calls_tools(choice@) ==> is_walk(final(self)@, order)) && seq_view(final(results)@)
                    == seq_view(old(results)@) + #[trigger] choice_chunks(
                    final(self)@,
                    choice@,
                    usage,
                    order,
                ),
    {
        let ghost given = seq_view(results@);
        if let Some(content) = choice.delta.content {
            if !content.as_str().is_empty() {
                results.push(
                    LanguageModelStreamChunk::Delta(LanguageModelStreamChunkType::Text(content)),
                );
            }
        }
        assert(seq_view(results@) =~= given + text_chunks(choice@.content));
        let ghost with_text = seq_view(results@);
        if let Some(tool_calls) = choice.delta.tool_calls {
            self.add_tool_call_deltas(tool_calls, results);
        }
        assert(seq_view(results@) =~= with_text + argument_chunks(choice@.tool_calls));
        let ghost with_arguments = seq_view(results@);
        let mut order: Vec<u32> = Vec::new();
        if let Some(reason) = choice.finish_reason {
            if asks_for_tools(reason.as_str()) {
                order = tool_call_order(&self.tool_calls);
            }
            assert forall|i: int| 0 <= i < order@.len() implies self.tool_calls@.contains_key(
                #[trigger] order@[i],
            ) by {
                assert(order@.to_set().contains(order@[i]));
            }
            let mut ends = finish(&self.tool_calls, reason.as_str(), usage, &order);
            let ghost so_far = results@;
            let ghost added = ends@;
            results.append(&mut ends);
            assert(seq_view(results@) =~= seq_view(so_far) + seq_view(added));
        }
        assert(seq_view(results@) =~= with_arguments + finish_chunks(
            self@,
            choice@.finish_reason,
            usage,
            order@,
        ));
        assert(seq_view(results@) =~= given + choice_chunks(self@, choice@, usage, order@));
    }

    /// Takes in a chunk of a stream and gives what it means.
    pub fn add_chunk(&mut self, chunk: ChatCompletionsStreamChunk) -> (r: Vec<
        LanguageModelStreamChunk,
    >)
        ensures
            final(self)@ == calls_after(old(self)@, seq_view(chunk.choices@)),
            chunk_outcome(old(self)@, seq_view(chunk.choices@), chunk.usage, seq_view(r@)),
    {
        let usage = chunk.usage;
        let choices = chunk.choices;
        let ghost before = self@;
        let ghost views = seq_view(choices@);
        let ghost mut orders: Seq<Seq<u32>> = Seq::empty();
        let mut results: Vec<LanguageModelStreamChunk> = Vec::new();
        assert(views.take(0) =~= Seq::empty());
        assert(seq_view(results@) =~= Seq::empty());
        for choice in rest: choices
            invariant
                rest.seq() == choices@,
                views == seq_view(choices@),
                self@ == calls_after(before, views.take(rest.index())),
                orders.len() == rest.index(),
                are_walks(before, views.take(rest.index()), orders),
                seq_view(results@) == chunk_output(
                    before,
                    views.take(rest.index()),
                    usage,
                    orders,
                ),
        {
            let ghost at = rest.index();
            let ghost current = choice@;
            let ghost given = seq_view(results@);
            self.add_choice(choice, usage, &mut results);
            proof {
                let order = choose|order: Seq<u32>|
                    (calls_tools(current) ==> is_walk(self@, order)) && seq_view(results@) == given
                        + #[trigger] choice_chunks(self@, current, usage, order);
                let seen = views.take(at);
                let now = views.take(at + 1);
                let earlier = orders;
                orders = orders.push(order);
                assert(now.drop_last() =~= seen);
                assert(now.last() == current);
                assert(orders.drop_last() =~= earlier);
                assert forall|i: int| 0 <= i < now.len() && calls_tools(now[i]) implies is_walk(
                    calls_after(before, now.take(i + 1)),
                    #[trigger] orders[i],
                ) by {
                    if i < at {
                        assert(now.take(i + 1) =~= seen.take(i + 1));
                        assert(orders[i] == earlier[i]);
                        assert(seen[i] == now[i]);
                    } else {
                        assert(now.take(i + 1) =~= now);
                    }
                }
            }
        }
        assert(views.take(views.len() as int) =~= views);
        results
    }

    /// Takes in what comes over a stream and gives what it means. An error of the connection is
    /// handed on as it is.
    pub fn on_event(&mut self, event: Result<ChatCompletionsStreamEvent, Error>) -> (r: Result<
        Vec<LanguageModelStreamChunk>,
        Error,
    >)
        ensures
            match event {
                Ok(event) => {
                    &&& final(self)@ == calls_after_event(old(self)@, event@)
                    &&& r matches Ok(results) && event_outcome(
                        old(self)@,
                        event@,
                        seq_view(results@),
                    )
                },
                Err(error) => *final(self) == *old(self) && r == Err::<
                    Vec<LanguageModelStreamChunk>,
                    Error,
                >(error),
            },
    {
        match event {
            Ok(ChatCompletionsStreamEvent::Chunk(chunk)) => Ok(self.add_chunk(chunk)),
            Ok(ChatCompletionsStreamEvent::Open) | Ok(ChatCompletionsStreamEvent::Done) => {
                let results: Vec<LanguageModelStreamChunk> = Vec::new();
                assert(seq_view(results@) =~= Seq::empty());
                Ok(results)
            },
            Ok(ChatCompletionsStreamEvent::Error(reason)) => {
                let results = vec![
                    LanguageModelStreamChunk::Delta(LanguageModelStreamChunkType::Failed(reason)),
                ];
                assert(seq_view(results@) =~= seq![
                    StreamChunkView::Delta(DeltaView::Failed(reason@)),
                ]);
                Ok(results)
            },
            Err(error) => Err(error),
        }
    }
}

} // verus!
