//! The data model: gig records, their lifecycle labels, the error taxonomy,
//! and the payment dispatch produced at confirmation.

use vstd::prelude::*;

verus! {

/// Identity of a party, as the hosting environment names accounts.
pub type AccountId = String;

/// A non-negative monetary quantity.
pub type Balance = u128;

/// Human-readable label of a gig's position in its lifecycle, derived from
/// the authoritative integer `stage`.
#[derive(Clone, Copy, Debug, PartialEq, Eq, Structural)]
pub enum GigStatus {
    Offered,
    Deposited,
    InProgress,
    Completed,
    Confirmed,
}

/// Why an operation was refused. A refused operation never writes the record.
#[derive(Clone, Copy, Debug, PartialEq, Eq, Structural)]
pub enum GigError {
    /// The addressed identifier was never allocated.
    NotFound,
    /// The caller does not hold the role the operation requires.
    Unauthorized,
    /// The record does not stand exactly at the operation's source stage.
    WrongStage,
    /// The value attached to `deposit` differs from the stored amount.
    AmountMismatch,
}

/// One escrow engagement between a client and a freelancer for a fixed amount.
///
/// `stage` runs from 1 (just created) to 6 (confirmed, terminal); the display
/// status is computed from it, never stored, so the two cannot disagree.
#[derive(Debug)]
pub struct Gig {
    /// The party who created the gig, deposits funds, and confirms completion.
    pub client: AccountId,
    /// The party who performs the work and receives the released funds.
    pub freelancer: AccountId,
    /// Fixed at creation; the exact quantity required at deposit and
    /// transferred at confirmation.
    pub amount: Balance,
    /// Authoritative driver of transition legality.
    pub stage: u8,
}

/// Mathematical image of a gig record.
pub struct GigView {
    pub client: Seq<char>,
    pub freelancer: Seq<char>,
    pub amount: Balance,
    pub stage: u8,
}

impl View for Gig {
    type V = GigView;

    open spec fn view(&self) -> GigView {
        GigView {
            client: self.client@,
            freelancer: self.freelancer@,
            amount: self.amount,
            stage: self.stage,
        }
    }
}

/// The label each stage carries: stages 1 and 2 are still `Offered` (the
/// record is written as `Offered` both at creation and after the offer
/// transition), and each later transition writes the label of the stage it
/// reaches.
pub open spec fn status_of_stage(stage: u8) -> GigStatus {
    if stage <= 2 {
        GigStatus::Offered
    } else if stage == 3 {
        GigStatus::Deposited
    } else if stage == 4 {
        GigStatus::InProgress
    } else if stage == 5 {
        GigStatus::Completed
    } else {
        GigStatus::Confirmed
    }
}

impl Gig {
    /// The display label, computed from `stage`; consistency of the two is
    /// structural, not asserted.
    pub fn status(&self) -> (r: GigStatus)
        ensures
            r == status_of_stage(self@.stage),
    {
        if self.stage <= 2 {
            GigStatus::Offered
        } else if self.stage == 3 {
            GigStatus::Deposited
        } else if self.stage == 4 {
            GigStatus::InProgress
        } else if self.stage == 5 {
            GigStatus::Completed
        } else {
            GigStatus::Confirmed
        }
    }
}

impl Clone for Gig {
    fn clone(&self) -> (r: Self)
        ensures
            r == *self,
    {
        Gig {
            client: self.client.clone(),
            freelancer: self.freelancer.clone(),
            amount: self.amount,
            stage: self.stage,
        }
    }
}

/// The payment released at confirmation: a dispatch of the gig's full amount
/// to its freelancer, handed to the hosting adapter to execute. The core
/// never observes the outcome of the dispatch.
#[derive(Debug)]
pub struct Transfer {
    pub to: AccountId,
    pub amount: Balance,
}

} // verus!
