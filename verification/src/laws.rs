use vstd::prelude::*;

use crate::state::init_transition;
use crate::state::query_transition;
use crate::state::update_transition;
use crate::state::RecordModel;

verus! {

/// After initialization the record holds exactly the given message, its owner
/// is the caller, and a query of that record yields exactly the message.
pub proof fn lemma_init_then_query(sender: Seq<char>, message: Seq<char>)
    ensures
        query_transition(Some(init_transition(sender, message))) == Some(message),
        init_transition(sender, message).owner == sender,
{
}

/// Last write wins: after the owner replaces the message, a query yields the
/// new message in full — the record is as if it had been initialized with it.
pub proof fn lemma_owner_update_then_query(owner: Seq<char>, first: Seq<char>, second: Seq<char>)
    ensures
        update_transition(Some(init_transition(owner, first)), owner, second) == Some(
            init_transition(owner, second),
        ),
        query_transition(update_transition(Some(init_transition(owner, first)), owner, second))
            == Some(second),
{
}

/// An update attempted by anyone but the owner leaves the record exactly as
/// it was, and a query afterwards still yields the original message.
pub proof fn lemma_stranger_update_rejected(
    owner: Seq<char>,
    other: Seq<char>,
    first: Seq<char>,
    second: Seq<char>,
)
    requires
        other != owner,
    ensures
        update_transition(Some(init_transition(owner, first)), other, second) == Some(
            init_transition(owner, first),
        ),
        query_transition(update_transition(Some(init_transition(owner, first)), other, second))
            == Some(first),
{
}

/// Before any initialization there is no record, so a query has nothing to
/// yield.
pub proof fn lemma_query_uninitialized()
    ensures
        query_transition(Option::<RecordModel>::None) is None,
{
}

/// Before any initialization an update changes nothing, whoever the caller
/// is.
pub proof fn lemma_update_uninitialized(sender: Seq<char>, message: Seq<char>)
    ensures
        update_transition(Option::<RecordModel>::None, sender, message) is None,
{
}

/// Query is idempotent: two reads of the same record, with no update between
/// them, yield the same value.
pub proof fn lemma_query_idempotent(
    st: Option<RecordModel>,
    first: Option<Seq<char>>,
    second: Option<Seq<char>>,
)
    requires
        first == query_transition(st),
        second == query_transition(st),
    ensures
        first == second,
{
}

} // verus!
