use vstd::prelude::*;

use cosmwasm_std::Response;

use crate::error::ContractError;
use crate::msg::{CountResponse, ExecuteMsg, InstantiateMsg, MessagesResponse, QueryAnswer, QueryMsg};
use crate::response::{
    add_attribute, decimal, decimal_text, new_response, response_attributes,
};
use crate::state::{can_add, initial_board, with_message, BoardView, ForumState, ForumStore, Message};

verus! {

/// The attributes that acknowledge the creation of a board.
pub open spec fn instantiate_attributes(owner: Seq<char>, count: int) -> Seq<(Seq<char>, Seq<char>)> {
    seq![("method"@, "instantiate"@), ("owner"@, owner), ("count"@, decimal(count))]
}

/// The attributes that acknowledge an added message.
pub open spec fn add_message_attributes() -> Seq<(Seq<char>, Seq<char>)> {
    seq![("method"@, "try_add_message"@)]
}

/// Whether `a` is the answer to query `q` on the board `v`.
pub open spec fn answers(q: QueryMsg, v: BoardView, a: QueryAnswer) -> bool {
    match q {
        QueryMsg::GetCount {  } => a matches QueryAnswer::Count(c) && c.count as int == v.count,
        QueryMsg::GetMessages {  } => a matches QueryAnswer::Messages(m) && m.messages@
            == v.messages,
    }
}

/// Creates the board on behalf of `sender`, with the counter at `msg.count`
/// and no messages (those in `msg` are ignored). Fails with
/// `AlreadyInitialized` when the board exists already, which is then left as
/// it was.
pub fn instantiate(store: &mut ForumStore, sender: String, msg: InstantiateMsg) -> (r: Result<
    Response,
    ContractError,
>)
    ensures
        old(store)@ is Some ==> r == Err::<Response, ContractError>(
            ContractError::AlreadyInitialized,
        ) && final(store)@ == old(store)@,
        old(store)@ is None ==> r is Ok && final(store)@ == Some(
            initial_board(msg.count as int, sender@),
        ) && response_attributes(r->Ok_0) == instantiate_attributes(sender@, msg.count as int),
{
    let owner = sender.clone();
    let state = ForumState { messages: Vec::new(), count: msg.count, owner: sender };
    proof {
        assert(state@.messages =~= Seq::<Message>::empty());
    }
    match store.create(state) {
        Err(e) => Err(e),
        Ok(()) => {
            proof {
                reveal_strlit("method");
                reveal_strlit("owner");
                reveal_strlit("count");
            }
            let r = new_response();
            let r = add_attribute(r, "method", "instantiate".to_owned());
            let r = add_attribute(r, "owner", owner);
            let r = add_attribute(r, "count", decimal_text(msg.count));
            assert(response_attributes(r) =~= instantiate_attributes(sender@, msg.count as int));
            Ok(r)
        },
    }
}

/// Runs a command on the board. Any caller may run any command.
pub fn execute(store: &mut ForumStore, msg: ExecuteMsg) -> (r: Result<Response, ContractError>)
    ensures
        match msg {
            ExecuteMsg::AddMessage { message } => added_message(*old(store), *final(store), message, r),
        },
{
    match msg {
        ExecuteMsg::AddMessage { message } => try_add_message(store, message),
    }
}

/// What adding `message` to the board `before` gives: `NotInitialized` while
/// there is no board, `CountOverflow` when the counter is at its largest
/// value, and otherwise the message appended and the counter incremented by
/// one. A failed command leaves the board as it was.
pub open spec fn added_message(
    before: ForumStore,
    after: ForumStore,
    message: Message,
    r: Result<Response, ContractError>,
) -> bool {
    match before@ {
        None => r == Err::<Response, ContractError>(ContractError::NotInitialized) && after@
            == before@,
        Some(v) => if can_add(v) {
            r is Ok && after@ == Some(with_message(v, message)) && response_attributes(r->Ok_0)
                == add_message_attributes()
        } else {
            r == Err::<Response, ContractError>(ContractError::CountOverflow) && after@ == before@
        },
    }
}

/// What the record transformation of `try_add_message` returns on the
/// record `v`.
pub open spec fn append_outcome(v: BoardView, m: Message, out: Result<ForumState, ContractError>) -> bool {
    if can_add(v) {
        out is Ok && out->Ok_0@ == with_message(v, m)
    } else {
        out == Err::<ForumState, ContractError>(ContractError::CountOverflow)
    }
}

/// Appends `message` to the board and increments the counter, as one step.
pub fn try_add_message(store: &mut ForumStore, message: Message) -> (r: Result<
    Response,
    ContractError,
>)
    ensures
        added_message(*old(store), *final(store), message, r),
{
    let ghost m = message;
    let append = move |s: ForumState| -> (out: Result<ForumState, ContractError>)
        ensures
            append_outcome(s@, m, out),
        {
            let mut s = s;
            if s.count == i32::MAX {
                Err(ContractError::CountOverflow)
            } else {
                s.messages.push(message);
                s.count = s.count + 1;
                Ok(s)
            }
        };
    let updated = store.update(append);
    match updated {
        Err(e) => Err(e),
        Ok(()) => {
            proof {
                reveal_strlit("method");
            }
            let r = add_attribute(new_response(), "method", "try_add_message".to_owned());
            assert(response_attributes(r) =~= add_message_attributes());
            Ok(r)
        },
    }
}

/// Answers a query from the board; fails with `NotInitialized` while there
/// is no board. The board is not changed.
pub fn query(store: &ForumStore, msg: QueryMsg) -> (r: Result<QueryAnswer, ContractError>)
    ensures
        store@ is None ==> r == Err::<QueryAnswer, ContractError>(ContractError::NotInitialized),
        store@ is Some ==> r is Ok && answers(msg, store@->Some_0, r->Ok_0),
{
    match msg {
        QueryMsg::GetCount {  } => match query_count(store) {
            Ok(c) => Ok(QueryAnswer::Count(c)),
            Err(e) => Err(e),
        },
        QueryMsg::GetMessages {  } => match query_messages(store) {
            Ok(m) => Ok(QueryAnswer::Messages(m)),
            Err(e) => Err(e),
        },
    }
}

/// The counter of the board.
pub fn query_count(store: &ForumStore) -> (r: Result<CountResponse, ContractError>)
    ensures
        store@ is None ==> r == Err::<CountResponse, ContractError>(ContractError::NotInitialized),
        store@ is Some ==> r is Ok && r->Ok_0.count as int == store@->Some_0.count,
{
    let state = store.load()?;
    Ok(CountResponse { count: state.count })
}

/// Every message of the board, in the order it was added.
pub fn query_messages(store: &ForumStore) -> (r: Result<MessagesResponse, ContractError>)
    ensures
        store@ is None ==> r == Err::<MessagesResponse, ContractError>(
            ContractError::NotInitialized,
        ),
        store@ is Some ==> r is Ok && r->Ok_0.messages@ == store@->Some_0.messages,
{
    let state = store.load()?;
    Ok(MessagesResponse { messages: crate::state::copy_messages(&state.messages) })
}

} // verus!
