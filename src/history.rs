use vstd::prelude::*;

use crate::state::{can_add, initial_board, with_message, BoardView, Message};

verus! {

/// The record after the messages `ms` have been added to `v`, first to last.
pub open spec fn after_messages(v: BoardView, ms: Seq<Message>) -> BoardView
    decreases ms.len(),
{
    if ms.len() == 0 {
        v
    } else {
        with_message(after_messages(v, ms.drop_last()), ms.last())
    }
}

/// Adding one more message extends the history by that message.
pub proof fn lemma_add_one(v: BoardView, ms: Seq<Message>, m: Message)
    ensures
        with_message(after_messages(v, ms), m) == after_messages(v, ms.push(m)),
{
    assert(ms.push(m).drop_last() =~= ms);
}

/// A board that was just created holds the counter it was given and no
/// messages.
pub proof fn lemma_fresh_board(count: i32, owner: Seq<char>)
    ensures
        initial_board(count as int, owner).count == count as int,
        initial_board(count as int, owner).messages == Seq::<Message>::empty(),
        initial_board(count as int, owner).owner == owner,
{
}

/// After the messages `ms`, the list holds the earlier messages followed by
/// `ms` in the order they were added, none dropped, merged or reordered.
pub proof fn lemma_messages_in_call_order(v: BoardView, ms: Seq<Message>)
    ensures
        after_messages(v, ms).messages == v.messages + ms,
    decreases ms.len(),
{
    if ms.len() == 0 {
        assert(v.messages + ms =~= v.messages);
    } else {
        lemma_messages_in_call_order(v, ms.drop_last());
        assert(v.messages + ms =~= (v.messages + ms.drop_last()).push(ms.last()));
    }
}

/// Adding messages never changes who owns the board.
pub proof fn lemma_owner_unchanged(v: BoardView, ms: Seq<Message>)
    ensures
        after_messages(v, ms).owner == v.owner,
    decreases ms.len(),
{
    if ms.len() > 0 {
        lemma_owner_unchanged(v, ms.drop_last());
    }
}

/// After `k` messages the counter has grown by exactly `k`, whatever it
/// started at and however many messages the board held before.
pub proof fn lemma_count_grows_by_one_each(v: BoardView, ms: Seq<Message>)
    ensures
        after_messages(v, ms).count == v.count + ms.len(),
    decreases ms.len(),
{
    if ms.len() > 0 {
        lemma_count_grows_by_one_each(v, ms.drop_last());
    }
}

/// From a board created with counter `count`, `k` messages can all be added,
/// each one accepted, as long as `count + k` fits in `i32`; the counter then
/// reads `count + k`.
pub proof fn lemma_count_after_messages(count: i32, owner: Seq<char>, ms: Seq<Message>)
    requires
        count + ms.len() <= i32::MAX,
    ensures
        forall|i: int|
            0 <= i < ms.len() ==> #[trigger] can_add(
                after_messages(initial_board(count as int, owner), ms.take(i)),
            ),
        after_messages(initial_board(count as int, owner), ms).count == count + ms.len(),
{
    let v = initial_board(count as int, owner);
    assert forall|i: int| 0 <= i < ms.len() implies #[trigger] can_add(
        after_messages(v, ms.take(i)),
    ) by {
        lemma_count_grows_by_one_each(v, ms.take(i));
    }
    lemma_count_grows_by_one_each(v, ms);
}

} // verus!
