use vstd::prelude::*;

use cosmwasm_std::MemoryStorage;
use cosmwasm_std::StdError;
use cw_storage_plus::Item;

use crate::state::RecordModel;
use crate::state::State;

verus! {

#[verifier::external_type_specification]
#[verifier::external_body]
pub struct ExMemoryStorage(MemoryStorage);

#[verifier::external_type_specification]
#[verifier::external_body]
pub struct ExStdError(StdError);

/// The record that the store holds under the fixed key `"state"`, decoded:
/// `None` when the key is unset or when its bytes do not decode to a record.
pub uninterp spec fn stored_state(s: MemoryStorage) -> Option<RecordModel>;

/// Whether the store holds any bytes at all under the fixed key `"state"`,
/// decodable or not.
pub uninterp spec fn record_present(s: MemoryStorage) -> bool;

/// The JSON encoding of a text value, as a byte sequence.
pub uninterp spec fn json_of_text(s: Seq<char>) -> Seq<u8>;

/// Relies on `cw_storage_plus::Item::may_load` at the fixed key `"state"`:
/// it returns `Ok(None)` exactly when the key is unset, the decoded record
/// when the key holds one, and an error when the key holds bytes that do not
/// decode.
#[verifier::external_body]
pub(crate) fn load_state(store: &MemoryStorage) -> (r: Result<Option<State>, StdError>)
    ensures
        !record_present(*store) ==> r matches Ok(None),
        r matches Ok(None) ==> !record_present(*store),
        stored_state(*store) matches Some(m) ==> (r is Ok && r->Ok_0 is Some
            && r->Ok_0->Some_0@ == m),
        r is Ok && r->Ok_0 is Some ==> stored_state(*store) == Some(r->Ok_0->Some_0@),
{
    match Item::<(String, String)>::new("state").may_load(store) {
        Ok(Some((message, owner))) => Ok(Some(State { message, owner })),
        Ok(None) => Ok(None),
        Err(e) => Err(e),
    }
}

/// Relies on `cw_storage_plus::Item::save` at the fixed key `"state"`: it
/// JSON-encodes the record — which never fails for a pair of strings — and
/// stores the bytes, so that a later load decodes exactly this record.
#[verifier::external_body]
pub(crate) fn save_state(store: &mut MemoryStorage, state: &State) -> (r: Result<(), StdError>)
    ensures
        r is Ok,
        record_present(*final(store)),
        stored_state(*final(store)) == Some(state@),
{
    Item::<(String, String)>::new("state").save(
        store,
        &(state.message.clone(), state.owner.clone()),
    )
}

/// Relies on `cosmwasm_std::to_json_vec` for a `String`: the JSON bytes
/// depend on the characters alone, and encoding a string never fails.
#[verifier::external_body]
pub(crate) fn encode_text(text: &String) -> (r: Result<Vec<u8>, StdError>)
    ensures
        r is Ok,
        r matches Ok(v) ==> v@ == json_of_text(text@),
{
    cosmwasm_std::to_json_vec(text)
}

/// Relies on the `Display` impl of `cosmwasm_std::StdError` for the
/// human-readable text of an underlying storage fault.
#[verifier::external_body]
pub(crate) fn std_error_text(e: &StdError) -> String {
    e.to_string()
}

} // verus!
