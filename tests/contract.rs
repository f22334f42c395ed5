use cosmwasm_std::Response;
use trashtalk::contract::{execute, instantiate, query, query_count, query_messages, try_add_message};
use trashtalk::error::ContractError;
use trashtalk::msg::{CountResponse, ExecuteMsg, InstantiateMsg, QueryAnswer, QueryMsg};
use trashtalk::state::{ForumState, ForumStore, Message};

fn text(s: &str) -> Message {
    Message { message: s.to_string(), nickname: String::new() }
}

fn add(store: &mut ForumStore, s: &str) -> Result<Response, ContractError> {
    execute(store, ExecuteMsg::AddMessage { message: text(s) })
}

fn texts(store: &ForumStore) -> Vec<String> {
    query_messages(store).unwrap().messages.into_iter().map(|m| m.message).collect()
}

fn attributes(r: &Response) -> Vec<(String, String)> {
    r.attributes.iter().map(|a| (a.key.clone(), a.value.clone())).collect()
}

fn pair(k: &str, v: &str) -> (String, String) {
    (k.to_string(), v.to_string())
}

#[test]
fn proper_initialization() {
    let mut store = ForumStore::new();
    let msg = InstantiateMsg { count: 17, messages: vec![] };
    let res = instantiate(&mut store, "creator".to_string(), msg).unwrap();
    assert_eq!(0, res.messages.len());

    let res = query(&store, QueryMsg::GetCount {}).unwrap();
    assert_eq!(QueryAnswer::Count(CountResponse { count: 17 }), res);
}

#[test]
fn add_message() {
    let mut store = ForumStore::new();
    let msg = InstantiateMsg { messages: vec![], count: 0 };
    instantiate(&mut store, "creator".to_string(), msg).unwrap();

    add(&mut store, "Hello").unwrap();
    add(&mut store, "Hello").unwrap();

    let res = query(&store, QueryMsg::GetCount {}).unwrap();
    assert_eq!(QueryAnswer::Count(CountResponse { count: 2 }), res);

    match query(&store, QueryMsg::GetMessages {}).unwrap() {
        QueryAnswer::Messages(m) => {
            let got: Vec<String> = m.messages.into_iter().map(|m| m.message).collect();
            assert_eq!(vec!["Hello", "Hello"], got);
        }
        other => panic!("unexpected answer {:?}", other),
    }
}

#[test]
fn fresh_board_has_given_count_and_no_messages() {
    let mut store = ForumStore::new();
    instantiate(&mut store, "creator".to_string(), InstantiateMsg { messages: vec![], count: -42 })
        .unwrap();
    assert_eq!(-42, query_count(&store).unwrap().count);
    assert!(query_messages(&store).unwrap().messages.is_empty());
}

#[test]
fn initial_messages_are_ignored() {
    let mut store = ForumStore::new();
    let msg = InstantiateMsg { messages: vec!["early".to_string()], count: 3 };
    instantiate(&mut store, "creator".to_string(), msg).unwrap();
    assert!(texts(&store).is_empty());
    assert_eq!(3, query_count(&store).unwrap().count);
}

#[test]
fn instantiate_acknowledges_method_owner_and_count() {
    let mut store = ForumStore::new();
    let res = instantiate(&mut store, "creator".to_string(), InstantiateMsg { messages: vec![], count: 17 })
        .unwrap();
    assert_eq!(
        vec![pair("method", "instantiate"), pair("owner", "creator"), pair("count", "17")],
        attributes(&res)
    );
}

#[test]
fn instantiate_writes_negative_count_in_decimal() {
    let mut store = ForumStore::new();
    let res = instantiate(&mut store, "alice".to_string(), InstantiateMsg { messages: vec![], count: -305 })
        .unwrap();
    assert_eq!(pair("count", "-305"), attributes(&res)[2]);
    let mut store = ForumStore::new();
    let res = instantiate(&mut store, "alice".to_string(), InstantiateMsg { messages: vec![], count: 0 })
        .unwrap();
    assert_eq!(pair("count", "0"), attributes(&res)[2]);
}

#[test]
fn add_message_acknowledges_method() {
    let mut store = ForumStore::new();
    instantiate(&mut store, "creator".to_string(), InstantiateMsg { messages: vec![], count: 0 }).unwrap();
    let res = try_add_message(&mut store, text("hi")).unwrap();
    assert_eq!(vec![pair("method", "try_add_message")], attributes(&res));
    assert_eq!(0, res.messages.len());
}

#[test]
fn second_instantiate_is_refused_and_changes_nothing() {
    let mut store = ForumStore::new();
    instantiate(&mut store, "creator".to_string(), InstantiateMsg { messages: vec![], count: 5 }).unwrap();
    add(&mut store, "one").unwrap();
    let again = instantiate(&mut store, "intruder".to_string(), InstantiateMsg { messages: vec![], count: 0 });
    assert_eq!(Some(ContractError::AlreadyInitialized), again.err());
    assert_eq!(6, query_count(&store).unwrap().count);
    assert_eq!(vec!["one"], texts(&store));
    assert_eq!("creator", store.into_record().unwrap().owner);
}

#[test]
fn queries_before_initialization_fail() {
    let store = ForumStore::new();
    assert_eq!(Some(ContractError::NotInitialized), query(&store, QueryMsg::GetCount {}).err());
    assert_eq!(Some(ContractError::NotInitialized), query(&store, QueryMsg::GetMessages {}).err());
    assert_eq!(Some(ContractError::NotInitialized), query_count(&store).err());
    assert_eq!(Some(ContractError::NotInitialized), query_messages(&store).err());
}

#[test]
fn add_message_before_initialization_fails_and_creates_nothing() {
    let mut store = ForumStore::new();
    assert_eq!(Some(ContractError::NotInitialized), add(&mut store, "Hello").err());
    assert_eq!(Some(ContractError::NotInitialized), try_add_message(&mut store, text("x")).err());
    assert!(store.into_record().is_none());
}

#[test]
fn count_is_start_plus_number_of_adds() {
    let mut store = ForumStore::new();
    instantiate(&mut store, "creator".to_string(), InstantiateMsg { messages: vec![], count: -3 }).unwrap();
    for i in 0..4 {
        add(&mut store, &format!("m{}", i)).unwrap();
    }
    assert_eq!(1, query_count(&store).unwrap().count);
    assert_eq!(4, texts(&store).len());
}

#[test]
fn count_is_independent_of_message_list_length() {
    let mut store = ForumStore::new();
    instantiate(&mut store, "creator".to_string(), InstantiateMsg { messages: vec![], count: 100 }).unwrap();
    add(&mut store, "a").unwrap();
    assert_eq!(101, query_count(&store).unwrap().count);
    assert_eq!(1, texts(&store).len());
}

#[test]
fn count_at_largest_value_refuses_new_message() {
    let mut store = ForumStore::new();
    instantiate(&mut store, "creator".to_string(), InstantiateMsg { messages: vec![], count: i32::MAX - 1 })
        .unwrap();
    add(&mut store, "last").unwrap();
    assert_eq!(i32::MAX, query_count(&store).unwrap().count);
    assert_eq!(Some(ContractError::CountOverflow), add(&mut store, "too many").err());
    assert_eq!(i32::MAX, query_count(&store).unwrap().count);
    assert_eq!(vec!["last"], texts(&store));
}

#[test]
fn messages_keep_call_order_and_duplicates() {
    let mut store = ForumStore::new();
    instantiate(&mut store, "creator".to_string(), InstantiateMsg { messages: vec![], count: 0 }).unwrap();
    for s in ["b", "a", "b", "c", "a"] {
        add(&mut store, s).unwrap();
    }
    assert_eq!(vec!["b", "a", "b", "c", "a"], texts(&store));
}

#[test]
fn nicknames_are_kept() {
    let mut store = ForumStore::new();
    instantiate(&mut store, "creator".to_string(), InstantiateMsg { messages: vec![], count: 0 }).unwrap();
    let m = Message { message: "gm".to_string(), nickname: "whale".to_string() };
    add(&mut store, "plain").unwrap();
    execute(&mut store, ExecuteMsg::AddMessage { message: m.clone() }).unwrap();
    assert_eq!(m, query_messages(&store).unwrap().messages[1]);
}

#[test]
fn owner_survives_messages_from_others() {
    let mut store = ForumStore::new();
    instantiate(&mut store, "creator".to_string(), InstantiateMsg { messages: vec![], count: 0 }).unwrap();
    add(&mut store, "from anyone").unwrap();
    add(&mut store, "from someone else").unwrap();
    let record = store.into_record().unwrap();
    assert_eq!("creator", record.owner);
    assert_eq!(2, record.count);
}

#[test]
fn persisted_record_can_be_restored() {
    let record = ForumState { messages: vec![text("old")], count: 9, owner: "creator".to_string() };
    let mut store = ForumStore::from_record(Some(record));
    add(&mut store, "new").unwrap();
    assert_eq!(10, query_count(&store).unwrap().count);
    assert_eq!(vec!["old", "new"], texts(&store));
}
