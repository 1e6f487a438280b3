//! An owner-gated singleton record.
//!
//! One record — a text `message` plus the `owner` identity fixed at creation —
//! lives under a single fixed key of a durable key/value store. Three entry
//! points drive it: `instantiate` creates (or silently overwrites) the record,
//! `execute` replaces the message after an ownership check, and `query` reads
//! it back without any check. Every entry point states in its contract exactly
//! which record the store holds afterwards and which outcome or error the
//! caller receives.

pub mod error;
pub mod laws;
pub mod msg;
pub mod response;
pub mod state;
pub mod store;

mod contract;

pub use contract::execute;
pub use contract::execute_update_message;
pub use contract::instantiate;
pub use contract::query;
pub use error::ContractError;
pub use msg::ExecuteMsg;
pub use msg::InstantiateMsg;
pub use msg::QueryMsg;
pub use response::Attribute;
pub use response::Response;
pub use state::MessageInfo;
pub use state::State;
