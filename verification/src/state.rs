use vstd::prelude::*;

verus! {

/// The persisted singleton record: a mutable text `message` and the `owner`
/// identity, captured once at initialization and immutable afterwards.
#[derive(Clone, Debug, PartialEq)]
pub struct State {
    pub message: String,
    pub owner: String,
}

/// Mathematical view of a [`State`]: the two text fields as character
/// sequences.
pub ghost struct RecordModel {
    pub message: Seq<char>,
    pub owner: Seq<char>,
}

impl View for State {
    type V = RecordModel;

    open spec fn view(&self) -> RecordModel {
        RecordModel { message: self.message@, owner: self.owner@ }
    }
}

/// Invocation metadata handed in by the host: the caller identity, presumed
/// authenticated before this core runs.
#[derive(Clone, Debug, PartialEq)]
pub struct MessageInfo {
    pub sender: String,
}

/// The single access rule: the caller may mutate the record exactly when its
/// identity equals the stored owner, by exact, case-sensitive string equality.
pub open spec fn spec_is_owner(sender: Seq<char>, record: RecordModel) -> bool {
    sender == record.owner
}

/// Executable form of the access rule.
pub fn is_owner(sender: &String, state: &State) -> (b: bool)
    ensures
        b == spec_is_owner(sender@, state@),
{
    *sender == state.owner
}

/// What initialization stores: the given message under the caller as owner.
/// Re-initialization is deliberately not guarded, so this overwrites any
/// existing record, owner included.
pub open spec fn init_transition(sender: Seq<char>, message: Seq<char>) -> RecordModel {
    RecordModel { message, owner: sender }
}

/// What an update does to the stored record: replace the message in full when
/// the caller is the owner; leave the record exactly as it was otherwise, and
/// when no record exists at all.
pub open spec fn update_transition(
    st: Option<RecordModel>,
    sender: Seq<char>,
    message: Seq<char>,
) -> Option<RecordModel> {
    match st {
        Option::Some(r) => if spec_is_owner(sender, r) {
            Option::Some(RecordModel { message, owner: r.owner })
        } else {
            Option::Some(r)
        },
        Option::None => Option::None,
    }
}

/// What a query reads: the message of the record, if one exists. Reading
/// needs no authorization and changes nothing.
pub open spec fn query_transition(st: Option<RecordModel>) -> Option<Seq<char>> {
    match st {
        Option::Some(r) => Option::Some(r.message),
        Option::None => Option::None,
    }
}

} // verus!
