use vstd::prelude::*;

verus! {

/// Input to initialization: the initial text of the record.
#[derive(Clone, Debug, PartialEq)]
pub struct InstantiateMsg {
    pub message: String,
}

/// Tagged message for the execute entry point; its one variant replaces the
/// stored message in full.
#[derive(Clone, Debug, PartialEq)]
pub enum ExecuteMsg {
    UpdateMessage { message: String },
}

/// Tagged message for the query entry point; its one variant reads the
/// stored message.
#[derive(Clone, Debug, PartialEq)]
pub enum QueryMsg {
    GetMessage {},
}

/// The text carried by an execute message.
pub open spec fn update_message_of(msg: ExecuteMsg) -> Seq<char> {
    match msg {
        ExecuteMsg::UpdateMessage { message } => message@,
    }
}

} // verus!
