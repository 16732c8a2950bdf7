//! Budgeted, metered language-model calls.
//!
//! A call is priced in micro-cents (`uc`), reserved against a shared budget
//! before it runs, and settled afterwards: the reservation is committed at the
//! actual cost when the call succeeds and cancelled when it fails.
//! `pricing` holds the cost arithmetic; `metering` holds the protocol that
//! decides what is reserved, what is committed and what the caller is told.
pub mod metering;
pub mod pricing;

pub use metering::{
    begin_metered, cancel_outcome, commit_outcome, output_only, BudgetedError, InFlight,
    PendingReservation, Settlement,
};
pub use pricing::Pricing;
