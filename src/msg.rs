use vstd::prelude::*;

use crate::state::Message;

verus! {

/// Creates the board. `messages` is accepted and ignored: a new board always
/// starts with no messages.
#[derive(Clone, Debug, PartialEq)]
pub struct InstantiateMsg {
    pub messages: Vec<String>,
    pub count: i32,
}

/// The commands that change the board.
#[derive(Clone, Debug, PartialEq)]
pub enum ExecuteMsg {
    AddMessage { message: Message },
}

/// The read-only queries on the board.
#[derive(Clone, Copy, Debug, PartialEq, Eq, Structural)]
pub enum QueryMsg {
    GetCount {},
    GetMessages {},
}

/// The answer to `GetCount`.
#[derive(Clone, Copy, Debug, PartialEq, Eq, Structural)]
pub struct CountResponse {
    pub count: i32,
}

/// The answer to `GetMessages`: every message, in the order it was added.
#[derive(Clone, Debug, PartialEq)]
pub struct MessagesResponse {
    pub messages: Vec<Message>,
}

/// The answer to a query, before it is encoded for the caller.
#[derive(Clone, Debug, PartialEq)]
pub enum QueryAnswer {
    Count(CountResponse),
    Messages(MessagesResponse),
}

} // verus!
