//! An asset-registry ledger: a fixed-slot repository of ownership-linked
//! records ("hero" records) for non-fungible assets, together with the
//! instruction processor that validates callers against an external token
//! ownership oracle and applies the add / update / buy transitions.
//!
//! The repository is a densely packed byte buffer, one fixed-width record
//! per slot.  Every external side effect (delegate approval, asset
//! transfer, payment, metadata retirement) is emitted as an explicit
//! [`coordinator::Effect`] value; the host performs it and reports the
//! outcome back, so a failed step aborts the instruction before any later
//! step runs.

pub mod coordinator;
pub mod error;
pub mod instruction;
pub mod keys;
pub mod oracle;
pub mod processor;
pub mod record;
pub mod repository;
