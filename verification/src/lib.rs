//! A two-party, wager-based game settlement engine.
//!
//! Two participants each lock up an equal stake on a session record, submit a
//! move, and a deterministic rule resolves a winner (or a tie) who receives
//! the pooled stake. The engine enforces the escrow lifecycle: a session is
//! created once, accepts exactly one counterparty, and is settled exactly
//! once, with the custodied funds drained to zero in the same step that the
//! session reaches its terminal state.
//!
//! The durable account storage, atomic value transfer and signer
//! authentication are provided by a trusted execution host; the engine works
//! on plain account balances handed in by that host and hands the updated
//! balances back.

pub mod laws;
pub mod resolver;
pub mod session;
