//! The rules of a charity fund on a ledger.
//!
//! Anyone can donate tokens to the fund. Three administrators decide together
//! what is paid out of it: one creates a proposal, which counts as the first
//! approval, and the approval of a second one executes it. As long as a
//! proposal waits, its proposer can cancel it.
//!
//! A call works on an [`Env`](host::Env), which holds the entries of the
//! ledger that the call reads, and writes down in order what the call asks of
//! the host: to check an authorization, to store an entry, to move tokens, to
//! publish an event.
//!
//! * [`contract`] holds the calls.
//! * [`rules`] states what each call does, and [`contract`] is proved to do
//!   just that.
//! * [`outcomes`] says call by call, of the entries and the requests
//!   themselves, when a call is refused and what it comes to. [`model`] says
//!   what the views keep of the values that the program holds.
//! * [`laws`] states what holds of every single call, and [`history`] what
//!   holds after any number of calls. [`payments`] states which transfers any
//!   number of calls ask for, and on whose authority.
pub mod address;
pub mod contract;
pub mod error;
pub mod history;
pub mod host;
pub mod laws;
pub mod model;
pub mod outcomes;
pub mod payments;
pub mod proposal;
pub mod rules;
pub mod storage;
pub mod table;

pub use address::Address;
pub use contract::CharityContract;
pub use error::ContractError;
pub use host::{Env, Event, Request};
pub use proposal::{Proposal, ProposalStatus, ADMIN_COUNT, APPROVAL_THRESHOLD};
pub use storage::{Durability, Entry, Storage, StorageKey};
