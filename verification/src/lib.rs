//! Administrative control plane of a finality gadget.
//!
//! A single administrator may switch the gadget on or off, clear the
//! attestation state that the gadget has accumulated, and change the interval
//! at which block heights are committed. Every operation works on a [`Store`],
//! a typed picture of the persisted state, and answers with a [`Response`] or
//! a [`ContractError`]; a failed operation leaves the store as it was.
//!
//! [`Store`]: state::store::Store
//! [`Response`]: results::Response
//! [`ContractError`]: error::ContractError

/// The entry point that hands a message to its operation.
pub mod contract;
/// Numbers written in decimal, as events carry them.
pub mod decimal;
/// Why an operation is refused.
pub mod error;
/// The operations.
pub mod exec;
/// What holds of every operation, proved.
pub mod guarantees;
/// The messages and what the host says of their sender.
pub mod msg;
/// What a successful operation hands back.
pub mod results;
/// The persisted state.
pub mod state;
