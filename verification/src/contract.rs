use vstd::prelude::*;

use cosmwasm_std::MemoryStorage;

use crate::error::ContractError;
use crate::msg::update_message_of;
use crate::msg::ExecuteMsg;
use crate::msg::InstantiateMsg;
use crate::msg::QueryMsg;
use crate::response::Response;
use crate::state::init_transition;
use crate::state::is_owner;
use crate::state::query_transition;
use crate::state::spec_is_owner;
use crate::state::update_transition;
use crate::state::MessageInfo;
use crate::state::State;
use crate::store::encode_text;
use crate::store::json_of_text;
use crate::store::load_state;
use crate::store::record_present;
use crate::store::save_state;
use crate::store::stored_state;

verus! {

/// Init entry point: store a record holding the given message under the
/// caller as owner. No access check applies — there is no prior owner — and
/// any existing record is silently overwritten, owner included.
pub fn instantiate(
    store: &mut MemoryStorage,
    info: MessageInfo,
    msg: InstantiateMsg,
) -> (res: Result<Response, ContractError>)
    ensures
        res is Ok,
        record_present(*final(store)),
        stored_state(*final(store)) == Some(init_transition(info.sender@, msg.message@)),
        res matches Ok(r) ==> {
            &&& r.attributes@.len() == 1
            &&& r.attributes@[0].key@ == "action"@
            &&& r.attributes@[0].value@ == "instantiate"@
            &&& r.messages@.len() == 0
        },
{
    let state = State { message: msg.message, owner: info.sender };
    match save_state(store, &state) {
        Ok(()) => Ok(
            Response::new().add_attribute("action".to_owned(), "instantiate".to_owned()),
        ),
        Err(e) => Err(ContractError::Std(e)),
    }
}

/// Execute entry point: route the tagged message to its handler.
pub fn execute(
    store: &mut MemoryStorage,
    info: MessageInfo,
    msg: ExecuteMsg,
) -> (res: Result<Response, ContractError>)
    ensures
        stored_state(*final(store)) == update_transition(
            stored_state(*old(store)),
            info.sender@,
            update_message_of(msg),
        ),
        record_present(*final(store)) == (record_present(*old(store)) || res is Ok),
        res is Ok <==> (stored_state(*old(store)) matches Some(r)
            && spec_is_owner(info.sender@, r)),
        !record_present(*old(store)) ==> (res matches Err(e) && e is NotFound),
        (stored_state(*old(store)) matches Some(r) && !spec_is_owner(info.sender@, r))
            ==> (res matches Err(e) && e is Unauthorized),
        record_present(*old(store)) && stored_state(*old(store)) is None
            ==> (res matches Err(e) && e is Std),
        res matches Ok(r) ==> {
            &&& r.attributes@.len() == 1
            &&& r.attributes@[0].key@ == "action"@
            &&& r.attributes@[0].value@ == "update_message"@
            &&& r.messages@.len() == 0
        },
{
    match msg {
        ExecuteMsg::UpdateMessage { message } => execute_update_message(store, info, message),
    }
}

/// Replace the stored message in full, provided a record exists and the
/// caller is its owner. The access check runs strictly before any write, so
/// on every failure the record is left exactly as it was.
pub fn execute_update_message(
    store: &mut MemoryStorage,
    info: MessageInfo,
    message: String,
) -> (res: Result<Response, ContractError>)
    ensures
        stored_state(*final(store)) == update_transition(
            stored_state(*old(store)),
            info.sender@,
            message@,
        ),
        record_present(*final(store)) == (record_present(*old(store)) || res is Ok),
        res is Ok <==> (stored_state(*old(store)) matches Some(r)
            && spec_is_owner(info.sender@, r)),
        !record_present(*old(store)) ==> (res matches Err(e) && e is NotFound),
        (stored_state(*old(store)) matches Some(r) && !spec_is_owner(info.sender@, r))
            ==> (res matches Err(e) && e is Unauthorized),
        record_present(*old(store)) && stored_state(*old(store)) is None
            ==> (res matches Err(e) && e is Std),
        res matches Ok(r) ==> {
            &&& r.attributes@.len() == 1
            &&& r.attributes@[0].key@ == "action"@
            &&& r.attributes@[0].value@ == "update_message"@
            &&& r.messages@.len() == 0
        },
{
    let state = match load_state(store) {
        Ok(Some(s)) => s,
        Ok(None) => {
            return Err(ContractError::NotFound {});
        },
        Err(e) => {
            return Err(ContractError::Std(e));
        },
    };
    if !is_owner(&info.sender, &state) {
        return Err(ContractError::Unauthorized {});
    }
    let updated = State { message, owner: state.owner };
    match save_state(store, &updated) {
        Ok(()) => Ok(
            Response::new().add_attribute("action".to_owned(), "update_message".to_owned()),
        ),
        Err(e) => Err(ContractError::Std(e)),
    }
}

/// Query entry point: return the current message, JSON-encoded, to any
/// caller. A pure read: no access check, no change to the store.
pub fn query(store: &MemoryStorage, msg: QueryMsg) -> (res: Result<Vec<u8>, ContractError>)
    ensures
        query_transition(stored_state(*store)) matches Some(m)
            ==> (res matches Ok(v) && v@ == json_of_text(m)),
        res is Ok <==> stored_state(*store) is Some,
        !record_present(*store) ==> (res matches Err(e) && e is NotFound),
        record_present(*store) && stored_state(*store) is None
            ==> (res matches Err(e) && e is Std),
{
    match msg {
        QueryMsg::GetMessage {} => {
            let message = match query_message(store) {
                Ok(m) => m,
                Err(e) => {
                    return Err(e);
                },
            };
            match encode_text(&message) {
                Ok(v) => Ok(v),
                Err(e) => Err(ContractError::Std(e)),
            }
        },
    }
}

/// Read the current message as plain text, if a record exists.
fn query_message(store: &MemoryStorage) -> (res: Result<String, ContractError>)
    ensures
        stored_state(*store) matches Some(r) ==> (res matches Ok(m) && m@ == r.message),
        res is Ok <==> stored_state(*store) is Some,
        !record_present(*store) ==> (res matches Err(e) && e is NotFound),
        record_present(*store) && stored_state(*store) is None
            ==> (res matches Err(e) && e is Std),
{
    match load_state(store) {
        Ok(Some(state)) => Ok(state.message),
        Ok(None) => Err(ContractError::NotFound {}),
        Err(e) => Err(ContractError::Std(e)),
    }
}

} // verus!
