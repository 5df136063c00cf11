//! What the events of a stream give, said of the events themselves.
use crate::language_model::{ContentView, DeltaView, StreamChunkView, Usage};
use crate::messages::AssistantMessageView;
use crate::providers::openai_chat_completions::response_laws::asks_the_same;
use crate::providers::openai_chat_completions::stream::{
    accumulated, are_walks, argument_chunks, calls_after, calls_after_event, calls_tools,
    choice_chunks, chunk_outcome, chunk_output, event_outcome, finish_chunks, is_walk, tool_call_ends,
};
use crate::providers::openai_chat_completions::stream_laws::{
    chunk_boundaries_do_not_matter, fragments_add_up, joined_arguments, last_id, last_name,
    mentions,
};
use crate::providers::openai_chat_completions::types::{
    StreamChoiceView, StreamEventView, ToolCallDeltaView, ToolCallView,
};
use vstd::prelude::*;

verus! {

/// The choice as it would be if the answer went on.
pub open spec fn going_on(choice: StreamChoiceView) -> StreamChoiceView {
    StreamChoiceView { finish_reason: None, ..choice }
}

/// The chunk says that the answer is complete, with nothing left to be said and with these counts.
pub open spec fn is_plain_end(chunk: StreamChunkView, usage: Option<Usage>) -> bool {
    chunk == StreamChunkView::Done(
        AssistantMessageView { content: ContentView::Text(Seq::empty()), usage },
    )
}

/// The chunk says that the call is complete, with these counts.
pub open spec fn is_call_end(
    chunk: StreamChunkView,
    call: ToolCallView,
    usage: Option<Usage>,
) -> bool {
    &&& chunk matches StreamChunkView::Done(message)
    &&& message.usage == usage
    &&& message.content matches ContentView::ToolCall(info) && asks_the_same(info, call)
}

/// The reason asks for tools to be called.
pub open spec fn reason_is_tools(reason: Option<Seq<char>>) -> bool {
    reason == Some("tool_calls"@) || reason == Some("function_call"@)
}

/// The tool calls are walked for just these two reasons.
pub proof fn two_reasons_ask_for_tools(choice: StreamChoiceView)
    ensures
        calls_tools(choice) <==> reason_is_tools(choice.finish_reason),
{
}

/// Fragments of arguments are passed on one by one and in order, each as it came in, even where it
/// is empty; a fragment without arguments gives nothing.
pub proof fn fragments_are_passed_on_one_by_one(
    before: Seq<ToolCallDeltaView>,
    delta: ToolCallDeltaView,
    after: Seq<ToolCallDeltaView>,
)
    ensures
        argument_chunks(Seq::empty()) == Seq::<StreamChunkView>::empty(),
        argument_chunks(before.push(delta) + after) == argument_chunks(before) + (
        if delta.arguments is Some {
            seq![StreamChunkView::Delta(DeltaView::ToolCall(delta.arguments->0))]
        } else {
            Seq::empty()
        }) + argument_chunks(after),
    decreases after.len(),
{
    let own = if delta.arguments is Some {
        seq![StreamChunkView::Delta(DeltaView::ToolCall(delta.arguments->0))]
    } else {
        Seq::empty()
    };
    let all = before.push(delta) + after;
    if after.len() == 0 {
        assert(all =~= before.push(delta));
        assert(before.push(delta).drop_last() =~= before);
    } else {
        fragments_are_passed_on_one_by_one(before, delta, after.drop_last());
        assert(all.drop_last() =~= before.push(delta) + after.drop_last());
        assert(all.last() == after.last());
    }
    assert(argument_chunks(all) =~= argument_chunks(before) + own + argument_chunks(after));
}

/// A fragment of an answer that goes on gives its text, unless that is empty or missing, then its
/// fragments of arguments, and nothing else.
pub proof fn an_answer_that_goes_on_gives_its_text_and_arguments(
    calls: Map<u32, ToolCallView>,
    choice: StreamChoiceView,
    usage: Option<Usage>,
    order: Seq<u32>,
)
    requires
        choice.finish_reason is None,
    ensures
        choice_chunks(calls, choice, usage, order) == (if choice.content is Some
            && choice.content->0.len() > 0 {
            seq![StreamChunkView::Delta(DeltaView::Text(choice.content->0))]
        } else {
            Seq::empty()
        }) + argument_chunks(choice.tool_calls),
{
    assert(choice_chunks(calls, choice, usage, order) =~= (if choice.content is Some
        && choice.content->0.len() > 0 {
        seq![StreamChunkView::Delta(DeltaView::Text(choice.content->0))]
    } else {
        Seq::empty()
    }) + argument_chunks(choice.tool_calls));
}

/// Whatever its delta holds, a fragment that ends an answer for another reason than tools or a
/// filter gives what it would give if the answer went on, and then exactly one end: an empty text
/// with the chunk's token counts.
pub proof fn a_reason_ends_the_answer(
    calls: Map<u32, ToolCallView>,
    choice: StreamChoiceView,
    usage: Option<Usage>,
    order: Seq<u32>,
)
    requires
        choice.finish_reason is Some,
        !reason_is_tools(choice.finish_reason),
        choice.finish_reason != Some("content_filter"@),
    ensures
        ({
            let given = choice_chunks(calls, choice, usage, order);
            &&& given.len() > 0
            &&& is_plain_end(given.last(), usage)
            &&& given.drop_last() == choice_chunks(calls, going_on(choice), usage, order)
            &&& forall|i: int| 0 <= i < given.len() - 1 ==> (#[trigger] given[i]) !is Done
        }),
{
    let given = choice_chunks(calls, choice, usage, order);
    let before = choice_chunks(calls, going_on(choice), usage, order);
    assert(given.drop_last() =~= before);
    nothing_is_done_while_the_answer_goes_on(calls, going_on(choice), usage, order);
    assert forall|i: int| 0 <= i < given.len() - 1 implies (#[trigger] given[i]) !is Done by {
        assert(given[i] == before[i]);
    }
}

/// An answer that was filtered gives what it would give if it went on, then exactly one end, and
/// last the failure.
pub proof fn a_filtered_answer_ends_and_fails(
    calls: Map<u32, ToolCallView>,
    choice: StreamChoiceView,
    usage: Option<Usage>,
    order: Seq<u32>,
)
    requires
        choice.finish_reason == Some("content_filter"@),
    ensures
        ({
            let before = choice_chunks(calls, going_on(choice), usage, order);
            let given = choice_chunks(calls, choice, usage, order);
            &&& given.len() == before.len() + 2
            &&& given.take(before.len() as int) == before
            &&& is_plain_end(given[before.len() as int], usage)
            &&& given.last() == StreamChunkView::Delta(DeltaView::Failed("Content filtered"@))
        }),
{
    reveal_strlit("tool_calls");
    reveal_strlit("function_call");
    reveal_strlit("content_filter");
    assert("tool_calls"@.len() != "content_filter"@.len());
    assert("function_call"@.len() != "content_filter"@.len());
    let before = choice_chunks(calls, going_on(choice), usage, order);
    assert(choice_chunks(calls, choice, usage, order).take(before.len() as int) =~= before);
}

/// An answer that ends for tools gives what it would give if it went on, and then every call of the
/// walk, complete, in the order of the walk.
pub proof fn tool_calls_end_the_answer(
    calls: Map<u32, ToolCallView>,
    choice: StreamChoiceView,
    usage: Option<Usage>,
    order: Seq<u32>,
)
    requires
        reason_is_tools(choice.finish_reason),
    ensures
        ({
            let before = choice_chunks(calls, going_on(choice), usage, order);
            let given = choice_chunks(calls, choice, usage, order);
            &&& given.len() == before.len() + order.len()
            &&& given.take(before.len() as int) == before
            &&& forall|i: int|
                0 <= i < order.len() ==> is_call_end(
                    #[trigger] given[before.len() + i],
                    calls[order[i]],
                    usage,
                )
        }),
{
    let before = choice_chunks(calls, going_on(choice), usage, order);
    assert(choice_chunks(calls, choice, usage, order).take(before.len() as int) =~= before);
}

/// While an answer goes on nothing is complete.
pub proof fn nothing_is_done_while_the_answer_goes_on(
    calls: Map<u32, ToolCallView>,
    choice: StreamChoiceView,
    usage: Option<Usage>,
    order: Seq<u32>,
)
    requires
        choice.finish_reason is None,
    ensures
        forall|i: int|
            0 <= i < choice_chunks(calls, choice, usage, order).len() ==> (
            #[trigger] choice_chunks(calls, choice, usage, order)[i]) !is Done,
{
    let given = choice_chunks(calls, choice, usage, order);
    let arguments = argument_chunks(choice.tool_calls);
    an_answer_that_goes_on_gives_its_text_and_arguments(calls, choice, usage, order);
    arguments_are_not_done(choice.tool_calls);
    assert forall|i: int| 0 <= i < given.len() implies (#[trigger] given[i]) !is Done by {
        let texts = given.len() - arguments.len();
        if i >= texts {
            assert(given[i] == arguments[i - texts]);
        }
    }
}

/// Fragments of arguments are not the end of anything.
proof fn arguments_are_not_done(deltas: Seq<ToolCallDeltaView>)
    ensures
        forall|i: int|
            0 <= i < argument_chunks(deltas).len() ==> (#[trigger] argument_chunks(deltas)[i])
                !is Done,
    decreases deltas.len(),
{
    if deltas.len() > 0 {
        arguments_are_not_done(deltas.drop_last());
        let front = argument_chunks(deltas.drop_last());
        assert forall|i: int| 0 <= i < argument_chunks(deltas).len() implies (
        #[trigger] argument_chunks(deltas)[i]) !is Done by {
            if i < front.len() {
                assert(argument_chunks(deltas)[i] == front[i]);
            }
        }
    }
}

/// What ends an answer is what a fragment gives that holds nothing but the reason.
pub proof fn an_end_is_a_choice_of_a_reason_alone(
    calls: Map<u32, ToolCallView>,
    reason: Option<Seq<char>>,
    usage: Option<Usage>,
    order: Seq<u32>,
)
    ensures
        finish_chunks(calls, reason, usage, order) == choice_chunks(
            calls,
            StreamChoiceView { content: None, tool_calls: Seq::empty(), finish_reason: reason },
            usage,
            order,
        ),
{
    assert(finish_chunks(calls, reason, usage, order) =~= choice_chunks(
        calls,
        StreamChoiceView { content: None, tool_calls: Seq::empty(), finish_reason: reason },
        usage,
        order,
    ));
}

/// Complete calls are given one for each index, in order, each asking for what has come in.
pub proof fn complete_calls_follow_the_order(
    calls: Map<u32, ToolCallView>,
    order: Seq<u32>,
    usage: Option<Usage>,
)
    ensures
        tool_call_ends(calls, order, usage).len() == order.len(),
        forall|i: int|
            0 <= i < order.len() ==> is_call_end(
                #[trigger] tool_call_ends(calls, order, usage)[i],
                calls[order[i]],
                usage,
            ),
{
}

/// A walk comes upon every call, upon none twice, and upon nothing else.
pub proof fn a_walk_comes_upon_every_call_once(calls: Map<u32, ToolCallView>, order: Seq<u32>)
    requires
        is_walk(calls, order),
    ensures
        order.no_duplicates(),
        forall|index: u32| #[trigger] order.contains(index) <==> calls.contains_key(index),
{
    assert forall|index: u32| #[trigger] order.contains(index) <==> calls.contains_key(index) by {
        assert(order.to_set().contains(index) <==> calls.dom().contains(index));
    }
}

/// A chunk with one fragment of an answer gives what that fragment gives, its own fragments of tool
/// calls being added first; where it ends for tools, every call that has come in by then is given,
/// and none twice. A chunk without any gives nothing.
pub proof fn a_chunk_gives_what_its_choice_gives(
    calls: Map<u32, ToolCallView>,
    choice: StreamChoiceView,
    usage: Option<Usage>,
    output: Seq<StreamChunkView>,
)
    ensures
        chunk_outcome(calls, Seq::empty(), usage, output) ==> output == Seq::<
            StreamChunkView,
        >::empty(),
        chunk_outcome(calls, seq![choice], usage, output) ==> exists|order: Seq<u32>|
            {
                &&& output == #[trigger] choice_chunks(
                    accumulated(calls, choice.tool_calls),
                    choice,
                    usage,
                    order,
                )
                &&& reason_is_tools(choice.finish_reason) ==> order.no_duplicates() && forall|
                    index: u32,
                | #[trigger]
                    order.contains(index) <==> accumulated(calls, choice.tool_calls).contains_key(
                        index,
                    )
            },
{
    let one = seq![choice];
    let now = accumulated(calls, choice.tool_calls);
    assert(one.drop_last() =~= Seq::empty());
    assert(calls_after(calls, one.drop_last()) == calls);
    assert(calls_after(calls, one) == now);
    if chunk_outcome(calls, one, usage, output) {
        let orders = choose|orders: Seq<Seq<u32>>| #[trigger]
            are_walks(calls, one, orders) && output == chunk_output(calls, one, usage, orders);
        let order = orders[0];
        assert(one.take(1) =~= one);
        assert(chunk_output(calls, one.drop_last(), usage, orders.drop_last()) =~= Seq::empty());
        assert(output =~= choice_chunks(now, choice, usage, order));
        if reason_is_tools(choice.finish_reason) {
            assert(is_walk(now, order));
            a_walk_comes_upon_every_call_once(now, order);
        }
    }
}

/// A chunk gives one after the other what its fragments of answers give in chunks of their own.
pub proof fn a_choice_keeps_its_place(
    calls: Map<u32, ToolCallView>,
    before: Seq<StreamChoiceView>,
    choice: StreamChoiceView,
    usage: Option<Usage>,
    output: Seq<StreamChunkView>,
)
    requires
        chunk_outcome(calls, before.push(choice), usage, output),
    ensures
        exists|earlier: Seq<StreamChunkView>, own: Seq<StreamChunkView>|
            {
                &&& #[trigger] chunk_outcome(calls, before, usage, earlier)
                &&& #[trigger] chunk_outcome(calls_after(calls, before), seq![choice], usage, own)
                &&& output == earlier + own
            },
{
    assert(before.push(choice) =~= before + seq![choice]);
    chunk_boundaries_do_not_matter(calls, before, seq![choice], usage, output);
}

/// Every fragment of an answer that ends for another reason than tools has its end among what its
/// chunk gives, with the chunk's token counts.
pub proof fn no_end_is_lost(
    calls: Map<u32, ToolCallView>,
    choices: Seq<StreamChoiceView>,
    usage: Option<Usage>,
    output: Seq<StreamChunkView>,
    i: int,
)
    requires
        chunk_outcome(calls, choices, usage, output),
        0 <= i < choices.len(),
        choices[i].finish_reason is Some,
        !reason_is_tools(choices[i].finish_reason),
    ensures
        exists|k: int| 0 <= k < output.len() && is_plain_end(#[trigger] output[k], usage),
    decreases choices.len(),
{
    let front = choices.drop_last();
    let last = choices.last();
    assert(front.push(last) =~= choices);
    a_choice_keeps_its_place(calls, front, last, usage, output);
    let (earlier, own) = choose|earlier: Seq<StreamChunkView>, own: Seq<StreamChunkView>|
        {
            &&& #[trigger] chunk_outcome(calls, front, usage, earlier)
            &&& #[trigger] chunk_outcome(calls_after(calls, front), seq![last], usage, own)
            &&& output == earlier + own
        };
    if i < front.len() {
        no_end_is_lost(calls, front, usage, earlier, i);
        let k = choose|k: int| 0 <= k < earlier.len() && is_plain_end(#[trigger] earlier[k], usage);
        assert(is_plain_end(output[k], usage));
    } else {
        let between = calls_after(calls, front);
        let now = accumulated(between, last.tool_calls);
        a_chunk_gives_what_its_choice_gives(between, last, usage, own);
        let order = choose|order: Seq<u32>|
            {
                &&& own == #[trigger] choice_chunks(now, last, usage, order)
                &&& reason_is_tools(last.finish_reason) ==> order.no_duplicates() && forall|
                    index: u32,
                | #[trigger] order.contains(index) <==> now.contains_key(index)
            };
        if last.finish_reason == Some("content_filter"@) {
            a_filtered_answer_ends_and_fails(now, last, usage, order);
            let k = own.len() - 2;
            assert(is_plain_end(output[earlier.len() + k], usage));
        } else {
            a_reason_ends_the_answer(now, last, usage, order);
            assert(is_plain_end(output[output.len() - 1], usage));
        }
    }
}

/// A call is what has come in under its index: the last id and the last name that were given, or
/// else what it had, and all fragments of arguments after those that it had. Of a call that was not
/// there nothing had come in.
pub proof fn a_call_is_what_has_come_in(
    calls: Map<u32, ToolCallView>,
    deltas: Seq<ToolCallDeltaView>,
    index: u32,
)
    ensures
        ({
            let now = accumulated(calls, deltas);
            &&& now.contains_key(index) <==> calls.contains_key(index) || mentions(deltas, index)
            &&& calls.contains_key(index) ==> {
                &&& now[index].arguments == calls[index].arguments + joined_arguments(deltas, index)
                &&& last_id(deltas, index) is None ==> now[index].id == calls[index].id
                &&& last_name(deltas, index) is None ==> now[index].name == calls[index].name
            }
            &&& !calls.contains_key(index) && mentions(deltas, index) ==> {
                &&& now[index].arguments == joined_arguments(deltas, index)
                &&& last_id(deltas, index) is None ==> now[index].id.len() == 0
                &&& last_name(deltas, index) is None ==> now[index].name.len() == 0
            }
            &&& now.contains_key(index) ==> {
                &&& last_id(deltas, index) matches Some(id) ==> now[index].id == id
                &&& last_name(deltas, index) matches Some(name) ==> now[index].name == name
            }
        }),
{
    fragments_add_up(calls, deltas, index);
    untouched_calls_have_no_fragments(deltas, index);
    assert(Seq::<char>::empty() + joined_arguments(deltas, index) =~= joined_arguments(
        deltas,
        index,
    ));
}

/// A call that no fragment mentions has got nothing.
proof fn untouched_calls_have_no_fragments(deltas: Seq<ToolCallDeltaView>, index: u32)
    ensures
        !mentions(deltas, index) ==> {
            &&& last_id(deltas, index) is None
            &&& last_name(deltas, index) is None
            &&& joined_arguments(deltas, index) == Seq::<char>::empty()
        },
    decreases deltas.len(),
{
    if deltas.len() > 0 && !mentions(deltas, index) {
        let front = deltas.drop_last();
        assert(deltas[deltas.len() - 1].index != index);
        assert forall|i: int| 0 <= i < front.len() implies (#[trigger] front[i]).index != index by {
            assert(front[i] == deltas[i]);
        }
        untouched_calls_have_no_fragments(front, index);
    }
}

/// One fragment changes the call under its index alone, and adds it where it was not there: what
/// the fragment gives of id and name stands, and its arguments come after those that there were.
pub proof fn a_fragment_changes_its_own_call_alone(
    calls: Map<u32, ToolCallView>,
    delta: ToolCallDeltaView,
    index: u32,
)
    ensures
        ({
            let now = accumulated(calls, seq![delta]);
            &&& index != delta.index ==> (now.contains_key(index) <==> calls.contains_key(index))
            &&& index != delta.index && calls.contains_key(index) ==> now[index] == calls[index]
            &&& now.contains_key(delta.index)
            &&& delta.id matches Some(id) ==> now[delta.index].id == id
            &&& delta.name matches Some(name) ==> now[delta.index].name == name
            &&& calls.contains_key(delta.index) ==> {
                &&& delta.id is None ==> now[delta.index].id == calls[delta.index].id
                &&& delta.name is None ==> now[delta.index].name == calls[delta.index].name
            }
            &&& !calls.contains_key(delta.index) ==> {
                &&& delta.id is None ==> now[delta.index].id.len() == 0
                &&& delta.name is None ==> now[delta.index].name.len() == 0
            }
            &&& now[delta.index].arguments == (if calls.contains_key(delta.index) {
                calls[delta.index].arguments
            } else {
                Seq::empty()
            }) + (if delta.arguments is Some {
                delta.arguments->0
            } else {
                Seq::empty()
            })
        }),
{
    let one = seq![delta];
    assert(one.drop_last() =~= Seq::empty());
    assert(accumulated(calls, one.drop_last()) == calls);
    let had = if calls.contains_key(delta.index) {
        calls[delta.index].arguments
    } else {
        Seq::empty()
    };
    assert(had + Seq::empty() =~= had);
}

/// A chunk adds its fragments to the calls and gives what it may give with its own token counts. A
/// failure that the provider reports is passed on in its words. The opening and the close of a
/// stream give nothing. None of these three changes the calls.
pub proof fn events_mean_what_they_say(
    calls: Map<u32, ToolCallView>,
    event: StreamEventView,
    output: Seq<StreamChunkView>,
)
    requires
        event_outcome(calls, event, output),
    ensures
        match event {
            StreamEventView::Chunk { choices, usage } => {
                &&& chunk_outcome(calls, choices, usage, output)
                &&& calls_after_event(calls, event) == calls_after(calls, choices)
            },
            StreamEventView::Error(reason) => {
                &&& output.len() == 1
                &&& output[0] == StreamChunkView::Delta(DeltaView::Failed(reason))
                &&& calls_after_event(calls, event) == calls
            },
            StreamEventView::Open | StreamEventView::Done => {
                &&& output.len() == 0
                &&& calls_after_event(calls, event) == calls
            },
        },
{
}

} // verus!
