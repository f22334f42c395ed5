use vstd::prelude::*;

use crate::error::ContractError;

verus! {

/// One entry of the board.
#[derive(Clone, Debug, PartialEq, Eq)]
pub struct Message {
    pub message: String,
    pub nickname: String,
}

impl Message {
    /// A copy of the message, equal to it field by field.
    pub fn duplicate(&self) -> (r: Message)
        ensures
            r == *self,
    {
        Message { message: self.message.clone(), nickname: self.nickname.clone() }
    }
}

/// The board record: the messages in the order they were added, the counter,
/// and the identity of the account that created the record.
#[derive(Debug)]
pub struct ForumState {
    pub messages: Vec<Message>,
    pub count: i32,
    pub owner: String,
}

/// The mathematical value of a board record.
pub struct BoardView {
    pub messages: Seq<Message>,
    pub count: int,
    pub owner: Seq<char>,
}

impl View for ForumState {
    type V = BoardView;

    open spec fn view(&self) -> BoardView {
        BoardView { messages: self.messages@, count: self.count as int, owner: self.owner@ }
    }
}

/// The record as it stands right after creation.
pub open spec fn initial_board(count: int, owner: Seq<char>) -> BoardView {
    BoardView { messages: Seq::empty(), count, owner }
}

/// The record after one more message has been added.
pub open spec fn with_message(v: BoardView, m: Message) -> BoardView {
    BoardView { messages: v.messages.push(m), count: v.count + 1, owner: v.owner }
}

/// Whether one more message can be added without the counter leaving `i32`.
pub open spec fn can_add(v: BoardView) -> bool {
    v.count < i32::MAX
}

impl ForumState {
    /// A copy of the record with the same messages, counter and owner.
    pub fn duplicate(&self) -> (r: ForumState)
        ensures
            r@ == self@,
    {
        ForumState {
            messages: copy_messages(&self.messages),
            count: self.count,
            owner: self.owner.clone(),
        }
    }
}

/// A copy of a list of messages, in the same order.
pub fn copy_messages(src: &Vec<Message>) -> (r: Vec<Message>)
    ensures
        r@ == src@,
{
    let mut out: Vec<Message> = Vec::new();
    let mut i: usize = 0;
    while i < src.len()
        invariant
            i <= src@.len(),
            out@ == src@.subrange(0, i as int),
        decreases src@.len() - i,
    {
        out.push(src[i].duplicate());
        i = i + 1;
    }
    assert(out@ =~= src@);
    out
}

/// The slot that holds the single board record, empty until the board is
/// created. The board's commands fill it with `create` and change it with
/// `update`, which reads, transforms and stores the record as one step.
pub struct ForumStore {
    record: Option<ForumState>,
}

/// The value of a possibly absent record.
pub open spec fn record_view(record: Option<ForumState>) -> Option<BoardView> {
    match record {
        Some(s) => Some(s@),
        None => None,
    }
}

impl View for ForumStore {
    type V = Option<BoardView>;

    closed spec fn view(&self) -> Option<BoardView> {
        record_view(self.record)
    }
}

impl ForumStore {
    /// An empty slot: no board has been created.
    pub fn new() -> (r: ForumStore)
        ensures
            r@ is None,
    {
        ForumStore { record: None }
    }

    /// A slot holding a record that was persisted earlier.
    pub fn from_record(record: Option<ForumState>) -> (r: ForumStore)
        ensures
            r@ == record_view(record),
    {
        ForumStore { record }
    }

    /// The record the slot holds, if any, for persisting it.
    pub fn into_record(self) -> (r: Option<ForumState>)
        ensures
            record_view(r) == self@,
    {
        self.record
    }

    /// Reads the record; fails with `NotInitialized` while the slot is empty.
    pub fn load(&self) -> (r: Result<&ForumState, ContractError>)
        ensures
            match self@ {
                None => r == Err::<&ForumState, ContractError>(ContractError::NotInitialized),
                Some(v) => r is Ok && r->Ok_0@ == v,
            },
    {
        match &self.record {
            Some(s) => Ok(s),
            None => Err(ContractError::NotInitialized),
        }
    }

    /// Overwrites the slot with `state`, whatever it held.
    fn save(&mut self, state: ForumState)
        ensures
            final(self)@ == Some(state@),
    {
        self.record = Some(state);
    }

    /// Fills the empty slot with `state`; fails with `AlreadyInitialized`,
    /// and leaves the slot as it was, when it holds a record already.
    pub fn create(&mut self, state: ForumState) -> (r: Result<(), ContractError>)
        ensures
            old(self)@ is None ==> r is Ok && final(self)@ == Some(state@),
            old(self)@ is Some ==> r == Err::<(), ContractError>(
                ContractError::AlreadyInitialized,
            ) && final(self)@ == old(self)@,
    {
        if self.record.is_some() {
            Err(ContractError::AlreadyInitialized)
        } else {
            self.save(state);
            Ok(())
        }
    }

    /// Reads the record, hands a copy of it to `f`, and stores what `f`
    /// returns. Fails with `NotInitialized` while the slot is empty, and with
    /// the error of `f` when `f` fails; in both cases the slot is unchanged.
    pub fn update<F>(&mut self, f: F) -> (r: Result<(), ContractError>) where
        F: FnOnce(ForumState) -> Result<ForumState, ContractError>,

        requires
            forall|s: ForumState| old(self)@ == Some(s@) ==> #[trigger] f.requires((s,)),
        ensures
            old(self)@ is None ==> r == Err::<(), ContractError>(ContractError::NotInitialized)
                && final(self)@ == old(self)@,
            old(self)@ is Some ==> exists|s: ForumState, out: Result<ForumState, ContractError>|
                s@ == old(self)@->Some_0 && #[trigger] f.ensures((s,), out) && match out {
                    Ok(n) => r is Ok && final(self)@ == Some(n@),
                    Err(e) => r == Err::<(), ContractError>(e) && final(self)@ == old(self)@,
                },
    {
        let current = match self.load() {
            Ok(s) => s.duplicate(),
            Err(e) => return Err(e),
        };
        match f(current) {
            Ok(next) => {
                self.save(next);
                Ok(())
            },
            Err(e) => Err(e),
        }
    }
}

} // verus!
