//! Where a cache mark goes among messages, said of the messages themselves.
use crate::providers::anthropic::client::{
    CacheControlView, MessageParamView, UserBlockView, UserContentView,
};
use crate::providers::anthropic::conversions::{
    has_user_text, marked_blocks, takes_mark, with_first_user_marked,
};
use crate::sequences::{first_where, first_where_finds, first_where_is};
use crate::text::blank;
use vstd::prelude::*;

verus! {

/// The block holds text that is not blank.
pub open spec fn block_speaks(block: UserBlockView) -> bool {
    block matches UserBlockView::Text { text, .. } && !blank(text)
}

/// The block is the first that holds text which is not blank.
pub open spec fn speaks_first(blocks: Seq<UserBlockView>, k: int) -> bool {
    &&& 0 <= k < blocks.len()
    &&& block_speaks(blocks[k])
    &&& forall|j: int| 0 <= j < k ==> !block_speaks(#[trigger] blocks[j])
}

/// The message is a user's and holds text that is not blank.
pub open spec fn user_speaks(message: MessageParamView) -> bool {
    message matches MessageParamView::User { content } && match content {
        UserContentView::Text(text) => !blank(text),
        UserContentView::Blocks(blocks) => exists|k: int|
            0 <= k < blocks.len() && block_speaks(#[trigger] blocks[k]),
    }
}

/// The two ways of saying that a user speaks come to the same.
proof fn user_text_is_speech(message: MessageParamView)
    ensures
        has_user_text()(message) == user_speaks(message),
{
    if let MessageParamView::User { content: UserContentView::Blocks(blocks) } = message {
        first_where_finds(blocks, takes_mark());
        let i = first_where(blocks, takes_mark());
        if i < blocks.len() {
            assert(block_speaks(blocks[i]));
        }
        assert forall|k: int| 0 <= k < i implies !block_speaks(#[trigger] blocks[k]) by {
            assert(!takes_mark()(blocks[k]));
        }
    }
}

/// Of several blocks the first that holds text which is not blank gets the mark, unless it carries
/// one; everything else stays.
proof fn the_first_block_with_text_is_marked(
    blocks: Seq<UserBlockView>,
    mark: CacheControlView,
)
    ensures
        marked_blocks(blocks, mark).len() == blocks.len(),
        forall|k: int|
            0 <= k < blocks.len() ==> #[trigger] marked_blocks(blocks, mark)[k] == (match blocks[k] {
                UserBlockView::Text { text, cache_control: None } if speaks_first(blocks, k) => {
                    UserBlockView::Text { text, cache_control: Some(mark) }
                },
                other => other,
            }),
{
    let i = first_where(blocks, takes_mark());
    first_where_finds(blocks, takes_mark());
    assert forall|k: int| 0 <= k < blocks.len() implies takes_mark()(#[trigger] blocks[k])
        == block_speaks(blocks[k]) by {}
    assert forall|k: int| 0 <= k < blocks.len() implies #[trigger] speaks_first(blocks, k) == (k
        == i) by {
        if speaks_first(blocks, k) {
            first_where_is(blocks, takes_mark(), k);
        }
    }
}

/// The first user message that holds text which is not blank gets the mark. A plain text becomes
/// one block with that text and the mark. Of several blocks the first that holds such text is
/// marked, unless it carries a mark, and the others stay. Every other message stays.
pub proof fn the_first_user_who_speaks_is_marked(
    messages: Seq<MessageParamView>,
    mark: CacheControlView,
    i: int,
)
    requires
        0 <= i < messages.len(),
        user_speaks(messages[i]),
        forall|j: int| 0 <= j < i ==> !user_speaks(#[trigger] messages[j]),
    ensures
        ({
            let marked = with_first_user_marked(messages, mark);
            &&& marked.len() == messages.len()
            &&& forall|j: int|
                0 <= j < messages.len() && j != i ==> #[trigger] marked[j] == messages[j]
            &&& match messages[i] {
                MessageParamView::User { content: UserContentView::Text(said) } => {
                    &&& marked[i] matches MessageParamView::User {
                        content: UserContentView::Blocks(after),
                    }
                    &&& after.len() == 1
                    &&& after[0] == (UserBlockView::Text { text: said, cache_control: Some(mark) })
                },
                MessageParamView::User { content: UserContentView::Blocks(blocks) } => {
                    &&& marked[i] matches MessageParamView::User {
                        content: UserContentView::Blocks(after),
                    }
                    &&& after.len() == blocks.len()
                    &&& forall|k: int|
                        0 <= k < blocks.len() ==> #[trigger] after[k] == (match blocks[k] {
                            UserBlockView::Text {
                                text,
                                cache_control: None,
                            } if speaks_first(blocks, k) => {
                                UserBlockView::Text { text, cache_control: Some(mark) }
                            },
                            other => other,
                        })
                },
                MessageParamView::Assistant { .. } => false,
            }
        }),
{
    assert forall|j: int| 0 <= j < i implies !has_user_text()(#[trigger] messages[j]) by {
        user_text_is_speech(messages[j]);
    }
    user_text_is_speech(messages[i]);
    first_where_is(messages, has_user_text(), i);
    if let MessageParamView::User { content: UserContentView::Blocks(blocks) } = messages[i] {
        the_first_block_with_text_is_marked(blocks, mark);
    }
}

/// Where no user message holds text that is not blank, nothing is marked.
pub proof fn where_no_user_speaks_nothing_is_marked(
    messages: Seq<MessageParamView>,
    mark: CacheControlView,
)
    requires
        forall|j: int| 0 <= j < messages.len() ==> !user_speaks(#[trigger] messages[j]),
    ensures
        with_first_user_marked(messages, mark) == messages,
{
    assert forall|j: int| 0 <= j < messages.len() implies !has_user_text()(
        #[trigger] messages[j],
    ) by {
        user_text_is_speech(messages[j]);
    }
    first_where_is(messages, has_user_text(), messages.len() as int);
}

} // verus!
