//! What holds of every stream.
use crate::language_model::{ContentView, DeltaView, StreamChunkView, Usage};
use crate::messages::AssistantMessageView;
use crate::providers::openai_chat_completions::language_model::{
    choice_contents, converted_tool_call,
};
use crate::providers::openai_chat_completions::stream::{
    accumulated, are_walks, argument_chunks, call_at, calls_after, calls_tools, choice_chunks,
    chunk_outcome, chunk_output, finish_chunks, is_walk, text_chunks, tool_call_end,
    tool_call_ends,
};
use crate::providers::openai_chat_completions::types::{
    ChatMessageView, StreamChoiceView, ToolCallDeltaView, ToolCallView,
};
use vstd::prelude::*;

verus! {

/// The fragments of the arguments of one call, joined.
pub open spec fn joined_arguments(deltas: Seq<ToolCallDeltaView>, index: u32) -> Seq<char>
    decreases deltas.len(),
{
    if deltas.len() == 0 {
        Seq::empty()
    } else {
        let earlier = joined_arguments(deltas.drop_last(), index);
        match deltas.last().arguments {
            Some(arguments) => if deltas.last().index == index {
                earlier + arguments
            } else {
                earlier
            },
            None => earlier,
        }
    }
}

/// The id that was given last to a call, if any was.
pub open spec fn last_id(deltas: Seq<ToolCallDeltaView>, index: u32) -> Option<Seq<char>>
    decreases deltas.len(),
{
    if deltas.len() == 0 {
        None
    } else if deltas.last().index == index && deltas.last().id is Some {
        deltas.last().id
    } else {
        last_id(deltas.drop_last(), index)
    }
}

/// The name that was given last to a call, if any was.
pub open spec fn last_name(deltas: Seq<ToolCallDeltaView>, index: u32) -> Option<Seq<char>>
    decreases deltas.len(),
{
    if deltas.len() == 0 {
        None
    } else if deltas.last().index == index && deltas.last().name is Some {
        deltas.last().name
    } else {
        last_name(deltas.drop_last(), index)
    }
}

/// Some fragment belongs to the call.
pub open spec fn mentions(deltas: Seq<ToolCallDeltaView>, index: u32) -> bool {
    exists|i: int| 0 <= i < deltas.len() && (#[trigger] deltas[i]).index == index
}

/// The arguments of a call are its fragments in the order in which they came in, its id and name
/// the last that were given, and the fragments of other calls have no part in it. The calls are
/// those that there were and those that fragments mention.
pub proof fn fragments_add_up(
    calls: Map<u32, ToolCallView>,
    deltas: Seq<ToolCallDeltaView>,
    index: u32,
)
    ensures
        call_at(accumulated(calls, deltas), index) == (ToolCallView {
            id: match last_id(deltas, index) {
                Some(id) => id,
                None => call_at(calls, index).id,
            },
            name: match last_name(deltas, index) {
                Some(name) => name,
                None => call_at(calls, index).name,
            },
            arguments: call_at(calls, index).arguments + joined_arguments(deltas, index),
        }),
        accumulated(calls, deltas).contains_key(index) <==> calls.contains_key(index) || mentions(
            deltas,
            index,
        ),
    decreases deltas.len(),
{
    if deltas.len() == 0 {
        assert(call_at(calls, index).arguments + joined_arguments(deltas, index) =~= call_at(
            calls,
            index,
        ).arguments);
    } else {
        let front = deltas.drop_last();
        fragments_add_up(calls, front, index);
        if mentions(front, index) {
            let i = choose|i: int| 0 <= i < front.len() && (#[trigger] front[i]).index == index;
            assert(deltas[i].index == index);
        }
        if deltas.last().index == index {
            assert(deltas[deltas.len() - 1].index == index);
        } else if mentions(deltas, index) {
            let i = choose|i: int| 0 <= i < deltas.len() && (#[trigger] deltas[i]).index == index;
            assert(front[i].index == index);
        }
        assert(call_at(accumulated(calls, deltas), index).arguments =~= call_at(
            calls,
            index,
        ).arguments + joined_arguments(deltas, index));
    }
}

/// Fragments that come in one batch add up to the same as fragments that come in two.
pub proof fn batches_of_fragments_do_not_matter(
    calls: Map<u32, ToolCallView>,
    a: Seq<ToolCallDeltaView>,
    b: Seq<ToolCallDeltaView>,
)
    ensures
        accumulated(calls, a + b) == accumulated(accumulated(calls, a), b),
    decreases b.len(),
{
    if b.len() == 0 {
        assert(a + b =~= a);
    } else {
        batches_of_fragments_do_not_matter(calls, a, b.drop_last());
        assert((a + b).drop_last() =~= a + b.drop_last());
        assert((a + b).last() == b.last());
    }
}

/// The fragments of tool calls in a stream, in the order in which they come in.
pub open spec fn all_fragments(choices: Seq<StreamChoiceView>) -> Seq<ToolCallDeltaView>
    decreases choices.len(),
{
    if choices.len() == 0 {
        Seq::empty()
    } else {
        all_fragments(choices.drop_last()) + choices.last().tool_calls
    }
}

/// Fragments add up across the fragments of answers that bring them.
pub proof fn fragments_add_up_across_choices(
    calls: Map<u32, ToolCallView>,
    choices: Seq<StreamChoiceView>,
)
    ensures
        calls_after(calls, choices) == accumulated(calls, all_fragments(choices)),
    decreases choices.len(),
{
    if choices.len() > 0 {
        fragments_add_up_across_choices(calls, choices.drop_last());
        batches_of_fragments_do_not_matter(
            calls,
            all_fragments(choices.drop_last()),
            choices.last().tool_calls,
        );
    }
}

/// The same fragments of answers leave the same tool calls in one chunk or in two.
proof fn calls_after_two_chunks(
    calls: Map<u32, ToolCallView>,
    a: Seq<StreamChoiceView>,
    b: Seq<StreamChoiceView>,
)
    ensures
        calls_after(calls, a + b) == calls_after(calls_after(calls, a), b),
    decreases b.len(),
{
    if b.len() == 0 {
        assert(a + b =~= a);
    } else {
        calls_after_two_chunks(calls, a, b.drop_last());
        assert((a + b).drop_last() =~= a + b.drop_last());
        assert((a + b).last() == b.last());
    }
}

/// The same fragments of answers give the same in one chunk or in two, the tool calls being walked
/// in the same orders.
proof fn output_of_two_chunks(
    calls: Map<u32, ToolCallView>,
    a: Seq<StreamChoiceView>,
    b: Seq<StreamChoiceView>,
    usage: Option<Usage>,
    orders_a: Seq<Seq<u32>>,
    orders_b: Seq<Seq<u32>>,
)
    requires
        orders_a.len() == a.len(),
        orders_b.len() == b.len(),
    ensures
        chunk_output(calls, a + b, usage, orders_a + orders_b) == chunk_output(
            calls,
            a,
            usage,
            orders_a,
        ) + chunk_output(calls_after(calls, a), b, usage, orders_b),
    decreases b.len(),
{
    if b.len() == 0 {
        assert(a + b =~= a);
        assert(orders_a + orders_b =~= orders_a);
        assert(chunk_output(calls, a, usage, orders_a) + Seq::empty() =~= chunk_output(
            calls,
            a,
            usage,
            orders_a,
        ));
    } else {
        output_of_two_chunks(calls, a, b.drop_last(), usage, orders_a, orders_b.drop_last());
        calls_after_two_chunks(calls, a, b);
        assert((a + b).drop_last() =~= a + b.drop_last());
        assert((a + b).last() == b.last());
        assert((orders_a + orders_b).drop_last() =~= orders_a + orders_b.drop_last());
        assert((orders_a + orders_b).last() == orders_b.last());
        assert(chunk_output(calls, a + b, usage, orders_a + orders_b) =~= chunk_output(
            calls,
            a,
            usage,
            orders_a,
        ) + chunk_output(calls_after(calls, a), b, usage, orders_b));
    }
}

/// Orders that walk the tool calls of two chunks in turn are those that walk the calls of the two
/// in one.
proof fn walks_of_two_chunks(
    calls: Map<u32, ToolCallView>,
    a: Seq<StreamChoiceView>,
    b: Seq<StreamChoiceView>,
    orders_a: Seq<Seq<u32>>,
    orders_b: Seq<Seq<u32>>,
)
    requires
        orders_a.len() == a.len(),
        orders_b.len() == b.len(),
    ensures
        are_walks(calls, a + b, orders_a + orders_b) <==> are_walks(calls, a, orders_a)
            && are_walks(calls_after(calls, a), b, orders_b),
{
    let both = a + b;
    let orders = orders_a + orders_b;
    assert forall|i: int| 0 <= i < b.len() implies calls_after(
        calls,
        both.take(a.len() + i + 1),
    ) == calls_after(calls_after(calls, a), #[trigger] b.take(i + 1)) by {
        calls_after_two_chunks(calls, a, b.take(i + 1));
        assert(both.take(a.len() + i + 1) =~= a + b.take(i + 1));
    }
    if are_walks(calls, both, orders) {
        assert forall|i: int| 0 <= i < a.len() && calls_tools(a[i]) implies is_walk(
            calls_after(calls, a.take(i + 1)),
            #[trigger] orders_a[i],
        ) by {
            assert(both[i] == a[i] && orders[i] == orders_a[i]);
            assert(both.take(i + 1) =~= a.take(i + 1));
        }
        assert forall|i: int| 0 <= i < b.len() && calls_tools(b[i]) implies is_walk(
            calls_after(calls_after(calls, a), b.take(i + 1)),
            #[trigger] orders_b[i],
        ) by {
            assert(both[a.len() + i] == b[i] && orders[a.len() + i] == orders_b[i]);
        }
    }
    if are_walks(calls, a, orders_a) && are_walks(calls_after(calls, a), b, orders_b) {
        assert forall|i: int| 0 <= i < both.len() && calls_tools(both[i]) implies is_walk(
            calls_after(calls, both.take(i + 1)),
            #[trigger] orders[i],
        ) by {
            if i < a.len() {
                assert(both[i] == a[i] && orders[i] == orders_a[i]);
                assert(both.take(i + 1) =~= a.take(i + 1));
            } else {
                let j = i - a.len();
                assert(both[i] == b[j] && orders[i] == orders_b[j]);
                assert(b.take(j + 1).len() == j + 1);
            }
        }
    }
}

/// It does not matter how a stream is cut into chunks: the same fragments of answers in one chunk
/// or in two leave the same tool calls, and the one chunk may give just what the two may give one
/// after the other.
pub proof fn chunk_boundaries_do_not_matter(
    calls: Map<u32, ToolCallView>,
    a: Seq<StreamChoiceView>,
    b: Seq<StreamChoiceView>,
    usage: Option<Usage>,
    output: Seq<StreamChunkView>,
)
    ensures
        calls_after(calls, a + b) == calls_after(calls_after(calls, a), b),
        chunk_outcome(calls, a + b, usage, output) <==> exists|
            first: Seq<StreamChunkView>,
            second: Seq<StreamChunkView>,
        |
            {
                &&& #[trigger] chunk_outcome(calls, a, usage, first)
                &&& #[trigger] chunk_outcome(calls_after(calls, a), b, usage, second)
                &&& output == first + second
            },
{
    let between = calls_after(calls, a);
    calls_after_two_chunks(calls, a, b);
    if chunk_outcome(calls, a + b, usage, output) {
        let orders = choose|orders: Seq<Seq<u32>>| #[trigger]
            are_walks(calls, a + b, orders) && output == chunk_output(calls, a + b, usage, orders);
        let orders_a = orders.take(a.len() as int);
        let orders_b = orders.skip(a.len() as int);
        assert(orders =~= orders_a + orders_b);
        walks_of_two_chunks(calls, a, b, orders_a, orders_b);
        output_of_two_chunks(calls, a, b, usage, orders_a, orders_b);
        assert(chunk_outcome(calls, a, usage, chunk_output(calls, a, usage, orders_a)));
        assert(chunk_outcome(between, b, usage, chunk_output(between, b, usage, orders_b)));
    }
    if exists|first: Seq<StreamChunkView>, second: Seq<StreamChunkView>|
        #[trigger] chunk_outcome(calls, a, usage, first) && #[trigger] chunk_outcome(
            between,
            b,
            usage,
            second,
        ) && output == first + second {
        let (first, second) = choose|first: Seq<StreamChunkView>, second: Seq<StreamChunkView>|
            #[trigger] chunk_outcome(calls, a, usage, first) && #[trigger] chunk_outcome(
                between,
                b,
                usage,
                second,
            ) && output == first + second;
        let orders_a = choose|orders: Seq<Seq<u32>>| #[trigger]
            are_walks(calls, a, orders) && first == chunk_output(calls, a, usage, orders);
        let orders_b = choose|orders: Seq<Seq<u32>>| #[trigger]
            are_walks(between, b, orders) && second == chunk_output(between, b, usage, orders);
        walks_of_two_chunks(calls, a, b, orders_a, orders_b);
        output_of_two_chunks(calls, a, b, usage, orders_a, orders_b);
    }
}

/// Two sequences that hold the same elements, each of them once, are mapped to the same elements,
/// each as often.
proof fn walks_map_to_the_same<A, B>(a: Seq<A>, b: Seq<A>, f: spec_fn(A) -> B)
    requires
        a.no_duplicates(),
        b.no_duplicates(),
        a.to_set() == b.to_set(),
    ensures
        a.map_values(f).to_multiset() == b.map_values(f).to_multiset(),
    decreases a.len(),
{
    broadcast use vstd::seq_lib::group_to_multiset_ensures;

    if a.len() == 0 {
        if b.len() > 0 {
            assert(b.to_set().contains(b[0]));
            assert(!a.to_set().contains(b[0]));
        }
        assert(a.map_values(f) =~= b.map_values(f));
    } else {
        let x = a.last();
        assert(a.to_set().contains(x));
        assert(b.to_set().contains(x));
        let j = b.index_of(x);
        let front = a.drop_last();
        let others = b.remove(j);
        assert forall|y: A| #[trigger] front.to_set().contains(y) implies others.to_set().contains(
            y,
        ) by {
            let i = front.index_of(y);
            assert(a[i] == y);
            assert(a.to_set().contains(y));
            assert(b.to_set().contains(y));
            let k = b.index_of(y);
            if k < j {
                assert(others[k] == y);
            } else {
                assert(others[k - 1] == y);
            }
        }
        assert forall|y: A| #[trigger] others.to_set().contains(y) implies front.to_set().contains(
            y,
        ) by {
            let k = others.index_of(y);
            if k < j {
                assert(b[k] == y);
            } else {
                assert(b[k + 1] == y);
            }
            assert(b.to_set().contains(y));
            assert(a.to_set().contains(y));
            let i = a.index_of(y);
            assert(front[i] == y);
        }
        assert(front.to_set() =~= others.to_set());
        walks_map_to_the_same(front, others, f);
        assert(a.map_values(f) =~= front.map_values(f).push(f(x)));
        assert(b.map_values(f).remove(j) =~= others.map_values(f));
        assert(b.map_values(f)[j] == f(x));
        assert(a.map_values(f).to_multiset() =~= b.map_values(f).to_multiset());
    }
}

/// Whatever the order in which the calls are walked, each of them is given once: two walks give
/// the same ends, in the same numbers, and as many as there are calls.
pub proof fn walks_differ_in_order_alone(
    calls: Map<u32, ToolCallView>,
    a: Seq<u32>,
    b: Seq<u32>,
    usage: Option<Usage>,
)
    requires
        is_walk(calls, a),
        is_walk(calls, b),
    ensures
        tool_call_ends(calls, a, usage).len() == calls.dom().len(),
        tool_call_ends(calls, a, usage).to_multiset() == tool_call_ends(
            calls,
            b,
            usage,
        ).to_multiset(),
{
    a.unique_seq_to_set();
    walks_map_to_the_same(a, b, |index: u32| tool_call_end(calls[index], usage));
}

/// What `pick` takes from each of the items, joined.
pub open spec fn joined<T>(items: Seq<T>, pick: spec_fn(T) -> Seq<char>) -> Seq<char>
    decreases items.len(),
{
    if items.len() == 0 {
        Seq::empty()
    } else {
        joined(items.drop_last(), pick) + pick(items.last())
    }
}

/// Joining goes piece by piece.
proof fn joined_of_concatenation<T>(a: Seq<T>, b: Seq<T>, pick: spec_fn(T) -> Seq<char>)
    ensures
        joined(a + b, pick) == joined(a, pick) + joined(b, pick),
    decreases b.len(),
{
    if b.len() == 0 {
        assert(a + b =~= a);
        assert(joined(a, pick) + joined(b, pick) =~= joined(a, pick));
    } else {
        joined_of_concatenation(a, b.drop_last(), pick);
        assert((a + b).drop_last() =~= a + b.drop_last());
        assert((a + b).last() == b.last());
        assert(joined(a + b, pick) =~= joined(a, pick) + joined(b, pick));
    }
}

/// Nothing joined is nothing.
proof fn joined_of_nothing<T>(items: Seq<T>, pick: spec_fn(T) -> Seq<char>)
    requires
        forall|i: int| 0 <= i < items.len() ==> pick(#[trigger] items[i]).len() == 0,
    ensures
        joined(items, pick) == Seq::<char>::empty(),
    decreases items.len(),
{
    if items.len() > 0 {
        let front = items.drop_last();
        assert forall|i: int| 0 <= i < front.len() implies pick(#[trigger] front[i]).len() == 0 by {
            assert(front[i] == items[i]);
        }
        joined_of_nothing(front, pick);
        assert(pick(items[items.len() - 1]).len() == 0);
        assert(joined(items, pick) =~= Seq::empty());
    }
}

/// The text of a chunk that is passed on.
pub open spec fn passed_text() -> spec_fn(StreamChunkView) -> Seq<char> {
    |chunk: StreamChunkView|
        match chunk {
            StreamChunkView::Delta(DeltaView::Text(text)) => text,
            _ => Seq::empty(),
        }
}

/// The fragment of arguments of a chunk that is passed on.
pub open spec fn passed_arguments() -> spec_fn(StreamChunkView) -> Seq<char> {
    |chunk: StreamChunkView|
        match chunk {
            StreamChunkView::Delta(DeltaView::ToolCall(arguments)) => arguments,
            _ => Seq::empty(),
        }
}

/// The text of a fragment of an answer.
pub open spec fn given_text() -> spec_fn(StreamChoiceView) -> Seq<char> {
    |choice: StreamChoiceView|
        match choice.content {
            Some(text) => text,
            None => Seq::empty(),
        }
}

/// The arguments of a fragment of a tool call.
pub open spec fn given_arguments() -> spec_fn(ToolCallDeltaView) -> Seq<char> {
    |delta: ToolCallDeltaView|
        match delta.arguments {
            Some(arguments) => arguments,
            None => Seq::empty(),
        }
}

/// The arguments in a fragment of an answer.
pub open spec fn given_arguments_of_choice() -> spec_fn(StreamChoiceView) -> Seq<char> {
    |choice: StreamChoiceView| joined(choice.tool_calls, given_arguments())
}

/// Fragments of arguments are passed on whole and hold no text.
proof fn arguments_are_passed_on(deltas: Seq<ToolCallDeltaView>)
    ensures
        joined(argument_chunks(deltas), passed_arguments()) == joined(deltas, given_arguments()),
        joined(argument_chunks(deltas), passed_text()) == Seq::<char>::empty(),
    decreases deltas.len(),
{
    if deltas.len() > 0 {
        let front = argument_chunks(deltas.drop_last());
        arguments_are_passed_on(deltas.drop_last());
        let all = argument_chunks(deltas);
        if deltas.last().arguments is Some {
            assert(all.drop_last() =~= front);
        } else {
            assert(joined(deltas, given_arguments()) =~= joined(
                deltas.drop_last(),
                given_arguments(),
            ));
        }
        assert(joined(all, passed_text()) =~= Seq::empty());
    }
}

/// A fragment of an answer has its text and its arguments passed on.
proof fn choice_is_passed_on(
    calls: Map<u32, ToolCallView>,
    choice: StreamChoiceView,
    usage: Option<Usage>,
    order: Seq<u32>,
)
    ensures
        joined(choice_chunks(calls, choice, usage, order), passed_text()) == given_text()(choice),
        joined(choice_chunks(calls, choice, usage, order), passed_arguments())
            == given_arguments_of_choice()(choice),
{
    let text = text_chunks(choice.content);
    let arguments = argument_chunks(choice.tool_calls);
    let end = finish_chunks(calls, choice.finish_reason, usage, order);
    arguments_are_passed_on(choice.tool_calls);
    joined_of_concatenation(text, arguments, passed_text());
    joined_of_concatenation(text + arguments, end, passed_text());
    joined_of_concatenation(text, arguments, passed_arguments());
    joined_of_concatenation(text + arguments, end, passed_arguments());
    joined_of_nothing(end, passed_text());
    joined_of_nothing(end, passed_arguments());
    joined_of_nothing(text, passed_arguments());
    if text.len() > 0 {
        assert(text.drop_last() =~= Seq::empty());
        assert(joined(text.drop_last(), passed_text()) =~= Seq::empty());
        assert(joined(text, passed_text()) =~= given_text()(choice));
    }
    assert(joined(choice_chunks(calls, choice, usage, order), passed_text()) =~= given_text()(
        choice,
    ));
    assert(joined(choice_chunks(calls, choice, usage, order), passed_arguments())
        =~= given_arguments_of_choice()(choice));
}

/// Nothing that comes in is lost, doubled or put out of order: the text that a chunk gives is the
/// text of its fragments, and the arguments that it gives are theirs.
pub proof fn everything_is_passed_on(
    calls: Map<u32, ToolCallView>,
    choices: Seq<StreamChoiceView>,
    usage: Option<Usage>,
    orders: Seq<Seq<u32>>,
)
    ensures
        joined(chunk_output(calls, choices, usage, orders), passed_text()) == joined(
            choices,
            given_text(),
        ),
        joined(chunk_output(calls, choices, usage, orders), passed_arguments()) == joined(
            choices,
            given_arguments_of_choice(),
        ),
    decreases choices.len(),
{
    if choices.len() > 0 {
        let earlier = chunk_output(calls, choices.drop_last(), usage, orders.drop_last());
        let last = choice_chunks(calls_after(calls, choices), choices.last(), usage, orders.last());
        everything_is_passed_on(calls, choices.drop_last(), usage, orders.drop_last());
        choice_is_passed_on(calls_after(calls, choices), choices.last(), usage, orders.last());
        joined_of_concatenation(earlier, last, passed_text());
        joined_of_concatenation(earlier, last, passed_arguments());
    }
}

/// The fragments of arguments that are passed on end nothing.
proof fn arguments_end_nothing(deltas: Seq<ToolCallDeltaView>)
    ensures
        forall|i: int|
            0 <= i < argument_chunks(deltas).len() ==> (#[trigger] argument_chunks(deltas)[i]
                !is Done),
    decreases deltas.len(),
{
    if deltas.len() > 0 {
        arguments_end_nothing(deltas.drop_last());
        let front = argument_chunks(deltas.drop_last());
        assert forall|i: int| 0 <= i < argument_chunks(deltas).len() implies (
        #[trigger] argument_chunks(deltas)[i] !is Done) by {
            if i < front.len() {
                assert(argument_chunks(deltas)[i] == front[i]);
            }
        }
    }
}

/// Nothing is complete before the provider says so: without a reason to end, a chunk gives
/// fragments alone.
pub proof fn nothing_ends_without_a_reason(
    calls: Map<u32, ToolCallView>,
    choices: Seq<StreamChoiceView>,
    usage: Option<Usage>,
    orders: Seq<Seq<u32>>,
)
    requires
        forall|i: int| 0 <= i < choices.len() ==> (#[trigger] choices[i]).finish_reason is None,
    ensures
        forall|i: int|
            0 <= i < chunk_output(calls, choices, usage, orders).len() ==> (
            #[trigger] chunk_output(calls, choices, usage, orders)[i] !is Done),
    decreases choices.len(),
{
    if choices.len() > 0 {
        let front = choices.drop_last();
        assert forall|i: int| 0 <= i < front.len() implies (
        #[trigger] front[i]).finish_reason is None by {
            assert(front[i] == choices[i]);
        }
        nothing_ends_without_a_reason(calls, front, usage, orders.drop_last());
        assert(choices[choices.len() - 1].finish_reason is None);
        arguments_end_nothing(choices.last().tool_calls);
        let earlier = chunk_output(calls, front, usage, orders.drop_last());
        let text = text_chunks(choices.last().content);
        let arguments = argument_chunks(choices.last().tool_calls);
        let all = chunk_output(calls, choices, usage, orders);
        assert(all =~= earlier + text + arguments);
        assert forall|i: int| 0 <= i < all.len() implies (#[trigger] all[i] !is Done) by {
            if i < earlier.len() {
                assert(all[i] == earlier[i]);
            } else if i < earlier.len() + text.len() {
                assert(all[i] == text[i - earlier.len()]);
            } else {
                assert(all[i] == arguments[i - earlier.len() - text.len()]);
            }
        }
    }
}

/// A tool call that is streamed means the same as one that comes whole: if the fragments under an
/// index give the call's id, name and arguments, then what the stream completes under that index
/// is what a whole answer with that call holds.
pub proof fn streamed_and_whole_calls_agree(
    deltas: Seq<ToolCallDeltaView>,
    index: u32,
    call: ToolCallView,
    message: ChatMessageView,
    usage: Option<Usage>,
)
    requires
        last_id(deltas, index) == Some(call.id),
        last_name(deltas, index) == Some(call.name),
        joined_arguments(deltas, index) == call.arguments,
        message.content is None,
        message.tool_calls == Some(seq![call]),
    ensures
        accumulated(Map::empty(), deltas).contains_key(index),
        tool_call_end(accumulated(Map::empty(), deltas)[index], usage) == StreamChunkView::Done(
            AssistantMessageView {
                content: choice_contents(message)[0],
                usage,
            },
        ),
        choice_contents(message) == seq![ContentView::ToolCall(converted_tool_call(call))],
{
    let calls: Map<u32, ToolCallView> = Map::empty();
    fragments_add_up(calls, deltas, index);
    last_id_is_mentioned(deltas, index);
    assert(call_at(calls, index).arguments + call.arguments =~= call.arguments);
    assert(choice_contents(message) =~= seq![ContentView::ToolCall(converted_tool_call(call))]);
}

/// A call that was given an id is mentioned.
proof fn last_id_is_mentioned(deltas: Seq<ToolCallDeltaView>, index: u32)
    ensures
        last_id(deltas, index) is Some ==> mentions(deltas, index),
    decreases deltas.len(),
{
    if deltas.len() > 0 {
        let front = deltas.drop_last();
        last_id_is_mentioned(front, index);
        if deltas.last().index == index {
            assert(deltas[deltas.len() - 1].index == index);
        } else if mentions(front, index) {
            let i = choose|i: int| 0 <= i < front.len() && (#[trigger] front[i]).index == index;
            assert(deltas[i].index == index);
        }
    }
}

} // verus!
