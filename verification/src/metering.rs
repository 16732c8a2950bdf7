//! The protocol of a budgeted call.
//!
//! A budgeted call runs in three outside steps: the pool is asked for a
//! reservation, the model is called, and the reservation is settled. The
//! steps themselves (the pool, the await on the model) belong to the caller;
//! this module decides, from what each step returned, what happens next and
//! what the caller is finally told. The phases are separate types, so a
//! reservation, once granted, is handed back exactly once: for a cancel or
//! for a commit.
use vstd::prelude::*;

use crate::pricing::{lemma_reservation_covers, Pricing};

verus! {

/// Declares `anyhow::Error`, the model call's error, so that it can be carried
/// through the protocol. It is opaque: nothing is claimed of its contents.
#[verifier::external_type_specification]
#[verifier::external_body]
pub struct ExAnyhowError(anyhow::Error);

/// Why a budgeted call did not produce an output. `E` is the budget pool's
/// own error type.
#[derive(Debug)]
pub enum BudgetedError<E> {
    /// The pool refused the reservation: the cap would be exceeded.
    Reserve(E),
    /// The pool refused to commit the actual cost against the reservation
    /// (the output was longer than the reservation was priced for).
    Commit(E),
    /// The model call itself failed; the reservation was cancelled.
    Call(anyhow::Error),
}

impl<E> BudgetedError<E> {
    /// The sentence that introduces the inner error when the error is shown.
    pub fn context(&self) -> (s: &'static str)
        ensures
            s@ == context_text(self),
    {
        match self {
            BudgetedError::Reserve(_) => "budget reservation refused (cap would be exceeded)",
            BudgetedError::Commit(_) => "reservation commit failed (estimator under-count)",
            BudgetedError::Call(_) => "LLM call failed",
        }
    }
}

/// What [`BudgetedError::context`] says for each kind of error.
pub open spec fn context_text<E>(e: &BudgetedError<E>) -> Seq<char> {
    match e {
        BudgetedError::Reserve(_) => "budget reservation refused (cap would be exceeded)"@,
        BudgetedError::Commit(_) => "reservation commit failed (estimator under-count)"@,
        BudgetedError::Call(_) => "LLM call failed"@,
    }
}

/// A budgeted call that has been priced but not yet reserved.
pub struct PendingReservation {
    pricing: Pricing,
    in_tok: u64,
    max_output_tok: u64,
    reserved_uc: u64,
}

impl PendingReservation {
    #[verifier::type_invariant]
    spec fn priced(self) -> bool {
        self.reserved_uc == self.pricing.cost(self.in_tok, self.max_output_tok)
    }

    pub closed spec fn pricing(self) -> Pricing {
        self.pricing
    }

    pub closed spec fn in_tok(self) -> u64 {
        self.in_tok
    }

    pub closed spec fn max_output_tok(self) -> u64 {
        self.max_output_tok
    }

    pub closed spec fn reserved(self) -> u64 {
        self.reserved_uc
    }

    /// The amount, in micro-cents, to reserve from the pool.
    pub fn amount_uc(&self) -> (a: u64)
        ensures
            a == self.reserved(),
            a == self.pricing().cost(self.in_tok(), self.max_output_tok()),
    {
        proof {
            use_type_invariant(self);
        }
        self.reserved_uc
    }

    /// Goes on from the pool's answer to the reservation request: a granted
    /// reservation lets the model be called; a refusal ends the call with
    /// `BudgetedError::Reserve`, and the model is never called.
    pub fn on_reserved<R, E>(self, reply: Result<R, E>) -> (r: Result<InFlight<R>, BudgetedError<E>>)
        ensures
            match reply {
                Ok(reservation) => r matches Ok(f) && f.reservation() == reservation
                    && f.pricing() == self.pricing() && f.in_tok() == self.in_tok()
                    && f.max_output_tok() == self.max_output_tok()
                    && f.reserved() == self.reserved(),
                Err(e) => r matches Err(BudgetedError::Reserve(e2)) && e2 == e,
            },
    {
        proof {
            use_type_invariant(&self);
        }
        match reply {
            Ok(reservation) => Ok(
                InFlight {
                    reservation,
                    pricing: self.pricing,
                    in_tok: self.in_tok,
                    max_output_tok: self.max_output_tok,
                    reserved_uc: self.reserved_uc,
                },
            ),
            Err(e) => Err(BudgetedError::Reserve(e)),
        }
    }
}

/// Prices a budgeted call whose input is estimated at `in_tok` tokens and
/// whose output is allowed up to `max_output_tok` tokens: the reservation is
/// the cost of the input with the largest allowed output.
pub fn begin_metered(pricing: &Pricing, max_output_tok: u64, in_tok: u64) -> (p: PendingReservation)
    ensures
        p.pricing() == *pricing,
        p.in_tok() == in_tok,
        p.max_output_tok() == max_output_tok,
        p.reserved() == pricing.cost(in_tok, max_output_tok),
{
    let reserved_uc = pricing.cost_uc(in_tok, max_output_tok);
    PendingReservation { pricing: *pricing, in_tok, max_output_tok, reserved_uc }
}

/// A budgeted call whose reservation was granted and whose model call is
/// under way.
pub struct InFlight<R> {
    reservation: R,
    pricing: Pricing,
    in_tok: u64,
    max_output_tok: u64,
    reserved_uc: u64,
}

/// How a granted reservation is to be settled.
pub enum Settlement<R> {
    /// The model call failed: cancel the reservation, then report the error.
    Cancel { reservation: R, error: anyhow::Error },
    /// The model call succeeded: commit `actual_uc` against the reservation.
    Commit { reservation: R, output: String, reserved_uc: u64, actual_uc: u64 },
}

impl<R> InFlight<R> {
    #[verifier::type_invariant]
    spec fn priced(self) -> bool {
        self.reserved_uc == self.pricing.cost(self.in_tok, self.max_output_tok)
    }

    pub closed spec fn reservation(self) -> R {
        self.reservation
    }

    pub closed spec fn pricing(self) -> Pricing {
        self.pricing
    }

    pub closed spec fn in_tok(self) -> u64 {
        self.in_tok
    }

    pub closed spec fn max_output_tok(self) -> u64 {
        self.max_output_tok
    }

    pub closed spec fn reserved(self) -> u64 {
        self.reserved_uc
    }

    /// Goes on from the model's reply. A failed call cancels the
    /// reservation; a reply whose output is estimated at `out_tok` tokens is
    /// committed at the actual cost, which is within the reservation whenever
    /// the output kept to `max_output_tok` tokens.
    pub fn on_reply(self, reply: Result<(String, u64), anyhow::Error>) -> (s: Settlement<R>)
        ensures
            match reply {
                Err(e) => s matches Settlement::Cancel { reservation, error }
                    && reservation == self.reservation() && error == e,
                Ok((out, out_tok)) => s matches Settlement::Commit {
                    reservation,
                    output,
                    reserved_uc,
                    actual_uc,
                } && reservation == self.reservation() && output == out
                    && reserved_uc == self.reserved()
                    && reserved_uc == self.pricing().cost(self.in_tok(), self.max_output_tok())
                    && actual_uc == self.pricing().cost(self.in_tok(), out_tok)
                    && (out_tok <= self.max_output_tok() ==> actual_uc <= reserved_uc),
            },
    {
        proof {
            use_type_invariant(&self);
        }
        match reply {
            Err(error) => Settlement::Cancel { reservation: self.reservation, error },
            Ok((output, out_tok)) => {
                let actual_uc = self.pricing.cost_uc(self.in_tok, out_tok);
                proof {
                    if out_tok <= self.max_output_tok {
                        lemma_reservation_covers(
                            self.pricing,
                            self.in_tok,
                            self.max_output_tok,
                            out_tok,
                        );
                    }
                }
                Settlement::Commit {
                    reservation: self.reservation,
                    output,
                    reserved_uc: self.reserved_uc,
                    actual_uc,
                }
            },
        }
    }
}

/// What a metered call returns once the pool has answered the commit: the
/// output with the reserved and the actual cost, or `BudgetedError::Commit`.
pub fn commit_outcome<T, E>(output: String, reserved_uc: u64, actual_uc: u64, reply: Result<T, E>) -> (r: Result<(String, u64, u64), BudgetedError<E>>)
    ensures
        match reply {
            Ok(_) => r == Ok::<(String, u64, u64), BudgetedError<E>>((output, reserved_uc, actual_uc)),
            Err(e) => r matches Err(BudgetedError::Commit(e2)) && e2 == e,
        },
{
    match reply {
        Ok(_) => Ok((output, reserved_uc, actual_uc)),
        Err(e) => Err(BudgetedError::Commit(e)),
    }
}

/// The result of an unmetered call: the output of a metered one without its
/// costs, and the same error.
pub fn output_only<E>(metered: Result<(String, u64, u64), BudgetedError<E>>) -> (r: Result<String, BudgetedError<E>>)
    ensures
        match metered {
            Ok((out, _, _)) => r matches Ok(o) && o == out,
            Err(e) => r matches Err(e2) && e2 == e,
        },
{
    match metered {
        Ok((out, _reserved, _actual)) => Ok(out),
        Err(e) => Err(e),
    }
}

} // verus!

verus! {

/// What a metered call returns once a failed model call's reservation has
/// been cancelled: `BudgetedError::Call` with the model's error.
pub fn cancel_outcome<E>(error: anyhow::Error) -> (r: Result<(String, u64, u64), BudgetedError<E>>)
    ensures
        r matches Err(BudgetedError::Call(e)) && e == error,
{
    Err(BudgetedError::Call(error))
}

} // verus!
