use cosmwasm_std::from_json;
use cosmwasm_std::MemoryStorage;
use cosmwasm_std::Storage;

use owned_message::execute;
use owned_message::instantiate;
use owned_message::query;
use owned_message::ContractError;
use owned_message::ExecuteMsg;
use owned_message::InstantiateMsg;
use owned_message::MessageInfo;
use owned_message::QueryMsg;

fn info(sender: &str) -> MessageInfo {
    MessageInfo { sender: sender.to_string() }
}

#[test]
fn proper_initialization() {
    let mut store = MemoryStorage::new();
    let msg = InstantiateMsg { message: "hello".to_string() };

    // we can just call .unwrap() to assert this was a success
    let res = instantiate(&mut store, info("creator"), msg).unwrap();
    assert_eq!(0, res.messages.len());

    // Query the message
    let res = query(&store, QueryMsg::GetMessage {}).unwrap();
    let value: String = from_json(&res).unwrap();
    assert_eq!("hello", value);
}

#[test]
fn update_message() {
    let mut store = MemoryStorage::new();

    // Instantiate the contract
    let msg = InstantiateMsg { message: "hello".to_string() };
    instantiate(&mut store, info("creator"), msg).unwrap();

    // Update message
    let msg = ExecuteMsg::UpdateMessage { message: "world".to_string() };
    let res = execute(&mut store, info("creator"), msg).unwrap();
    assert_eq!(1, res.attributes.len());

    // Query the message
    let res = query(&store, QueryMsg::GetMessage {}).unwrap();
    let value: String = from_json(&res).unwrap();
    assert_eq!("world", value);
}

#[test]
fn unauthorized_update() {
    let mut store = MemoryStorage::new();

    // Instantiate the contract
    let msg = InstantiateMsg { message: "hello".to_string() };
    instantiate(&mut store, info("creator"), msg).unwrap();

    // Attempt unauthorized update
    let msg = ExecuteMsg::UpdateMessage { message: "world".to_string() };
    let err = execute(&mut store, info("anyone"), msg).unwrap_err();
    assert_eq!(err.to_string(), "Unauthorized - only owner can update message");
}

#[test]
fn unauthorized_update_leaves_message_unchanged() {
    let mut store = MemoryStorage::new();
    let msg = InstantiateMsg { message: "hello".to_string() };
    instantiate(&mut store, info("creator"), msg).unwrap();

    let msg = ExecuteMsg::UpdateMessage { message: "world".to_string() };
    let err = execute(&mut store, info("anyone"), msg).unwrap_err();
    assert!(matches!(err, ContractError::Unauthorized {}));

    let res = query(&store, QueryMsg::GetMessage {}).unwrap();
    let value: String = from_json(&res).unwrap();
    assert_eq!("hello", value);
}

#[test]
fn instantiate_emits_instantiate_action() {
    let mut store = MemoryStorage::new();
    let msg = InstantiateMsg { message: "hello".to_string() };
    let res = instantiate(&mut store, info("creator"), msg).unwrap();
    assert_eq!(1, res.attributes.len());
    assert_eq!("action", res.attributes[0].key);
    assert_eq!("instantiate", res.attributes[0].value);
}

#[test]
fn update_emits_update_action() {
    let mut store = MemoryStorage::new();
    let msg = InstantiateMsg { message: "hello".to_string() };
    instantiate(&mut store, info("creator"), msg).unwrap();

    let msg = ExecuteMsg::UpdateMessage { message: "world".to_string() };
    let res = execute(&mut store, info("creator"), msg).unwrap();
    assert_eq!("action", res.attributes[0].key);
    assert_eq!("update_message", res.attributes[0].value);
    assert_eq!(0, res.messages.len());
}

#[test]
fn query_before_initialize_is_not_found() {
    let store = MemoryStorage::new();
    let err = query(&store, QueryMsg::GetMessage {}).unwrap_err();
    assert!(matches!(err, ContractError::NotFound {}));
}

#[test]
fn execute_before_initialize_is_not_found() {
    let mut store = MemoryStorage::new();
    let msg = ExecuteMsg::UpdateMessage { message: "world".to_string() };
    let err = execute(&mut store, info("anyone"), msg).unwrap_err();
    assert!(matches!(err, ContractError::NotFound {}));

    let msg = ExecuteMsg::UpdateMessage { message: "world".to_string() };
    let err = execute(&mut store, info("creator"), msg).unwrap_err();
    assert!(matches!(err, ContractError::NotFound {}));
}

#[test]
fn repeated_query_returns_same_value() {
    let mut store = MemoryStorage::new();
    let msg = InstantiateMsg { message: "steady".to_string() };
    instantiate(&mut store, info("creator"), msg).unwrap();

    let first = query(&store, QueryMsg::GetMessage {}).unwrap();
    let second = query(&store, QueryMsg::GetMessage {}).unwrap();
    let third = query(&store, QueryMsg::GetMessage {}).unwrap();
    assert_eq!(first, second);
    assert_eq!(second, third);
    let value: String = from_json(&third).unwrap();
    assert_eq!("steady", value);
}

#[test]
fn reinitialize_silently_replaces_owner() {
    let mut store = MemoryStorage::new();
    let msg = InstantiateMsg { message: "hello".to_string() };
    instantiate(&mut store, info("creator"), msg).unwrap();

    // A second initialization overwrites the record, owner included.
    let msg = InstantiateMsg { message: "taken".to_string() };
    instantiate(&mut store, info("usurper"), msg).unwrap();

    let res = query(&store, QueryMsg::GetMessage {}).unwrap();
    let value: String = from_json(&res).unwrap();
    assert_eq!("taken", value);

    // The old owner may no longer update; the new one may.
    let msg = ExecuteMsg::UpdateMessage { message: "world".to_string() };
    let err = execute(&mut store, info("creator"), msg).unwrap_err();
    assert!(matches!(err, ContractError::Unauthorized {}));

    let msg = ExecuteMsg::UpdateMessage { message: "world".to_string() };
    execute(&mut store, info("usurper"), msg).unwrap();
    let res = query(&store, QueryMsg::GetMessage {}).unwrap();
    let value: String = from_json(&res).unwrap();
    assert_eq!("world", value);
}

#[test]
fn empty_message_round_trips() {
    let mut store = MemoryStorage::new();
    let msg = InstantiateMsg { message: "".to_string() };
    instantiate(&mut store, info(""), msg).unwrap();

    let res = query(&store, QueryMsg::GetMessage {}).unwrap();
    let value: String = from_json(&res).unwrap();
    assert_eq!("", value);
}

#[test]
fn not_found_error_text() {
    let store = MemoryStorage::new();
    let err = query(&store, QueryMsg::GetMessage {}).unwrap_err();
    assert_eq!(err.to_string(), "State not found");
}

#[test]
fn undecodable_record_is_a_storage_error() {
    let mut store = MemoryStorage::new();
    // Bytes under the record's key that no save ever wrote.
    store.set(b"state", b"not json");

    let err = query(&store, QueryMsg::GetMessage {}).unwrap_err();
    assert!(matches!(err, ContractError::Std(_)));

    let msg = ExecuteMsg::UpdateMessage { message: "world".to_string() };
    let err = execute(&mut store, info("creator"), msg).unwrap_err();
    assert!(matches!(err, ContractError::Std(_)));
}

#[test]
fn query_payload_is_json_encoded() {
    let mut store = MemoryStorage::new();
    let msg = InstantiateMsg { message: "hello".to_string() };
    instantiate(&mut store, info("creator"), msg).unwrap();

    // The query result is the JSON encoding of the text, not the raw bytes.
    let res = query(&store, QueryMsg::GetMessage {}).unwrap();
    assert_eq!(res, b"\"hello\"".to_vec());
}
