//! The stage transition engine: the role-gated, strictly ordered lifecycle
//! state machine, and the single payment dispatch at the terminal transition.
//!
//! The legal-transition table, with the stage each operation leaves from and
//! the role that may drive it:
//!
//! | From stage | Operation        | Required caller | To stage / status  |
//! |------------|------------------|-----------------|--------------------|
//! | 1          | `offer`          | client          | 2 / Offered        |
//! | 2          | `deposit`        | client          | 3 / Deposited      |
//! | 3          | `start_progress` | freelancer      | 4 / InProgress     |
//! | 4          | `complete`       | freelancer      | 5 / Completed      |
//! | 5          | `confirm`        | client          | 6 / Confirmed      |
//!
//! Each operation checks, in order: the record exists, the caller holds the
//! required role, the record stands exactly at the source stage (and, for
//! `deposit`, the attached value equals the stored amount). Any failure
//! leaves every record untouched.

use vstd::prelude::*;

use crate::gig::AccountId;
use crate::gig::Balance;
use crate::gig::Gig;
use crate::gig::GigError;
use crate::gig::GigView;
use crate::gig::Transfer;
use crate::registry::NearGigs;

verus! {

/// The identity that may drive the transition out of `from_stage`: the
/// freelancer at stages 3 and 4, the client at stages 1, 2 and 5.
pub open spec fn required_caller(g: GigView, from_stage: u8) -> Seq<char> {
    if from_stage == 3 || from_stage == 4 {
        g.freelancer
    } else {
        g.client
    }
}

/// Outcome of the checks every transition makes, in order: the record must
/// exist (`NotFound`), the caller must hold the required role
/// (`Unauthorized`), and the record must stand exactly at the transition's
/// source stage (`WrongStage`).
pub open spec fn step_check(
    s: Seq<GigView>,
    caller: Seq<char>,
    gig_id: u64,
    from_stage: u8,
) -> Result<(), GigError> {
    if s.len() <= gig_id as int {
        Err(GigError::NotFound)
    } else if required_caller(s[gig_id as int], from_stage) != caller {
        Err(GigError::Unauthorized)
    } else if s[gig_id as int].stage != from_stage {
        Err(GigError::WrongStage)
    } else {
        Ok(())
    }
}

/// Outcome of `deposit`'s checks: the shared transition checks out of stage
/// 2, then the attached value must equal the stored amount exactly — neither
/// more nor less (`AmountMismatch`).
pub open spec fn deposit_check(
    s: Seq<GigView>,
    caller: Seq<char>,
    gig_id: u64,
    attached: Balance,
) -> Result<(), GigError> {
    match step_check(s, caller, gig_id, 2) {
        Ok(()) => if attached != s[gig_id as int].amount {
            Err(GigError::AmountMismatch)
        } else {
            Ok(())
        },
        Err(e) => Err(e),
    }
}

/// The record after a successful transition: stage raised by exactly one,
/// every other attribute kept.
pub open spec fn advanced(g: GigView) -> GigView {
    GigView { stage: (g.stage + 1) as u8, ..g }
}

impl NearGigs {
    /// Creates a new gig: the caller becomes the client, the counterparty and
    /// amount are fixed for the record's lifetime, and the record starts at
    /// stage 1 / Offered under the next sequential identifier.
    pub fn create_gig(
        &mut self,
        caller: AccountId,
        freelancer: AccountId,
        amount: Balance,
    ) -> (gig_id: u64)
        requires
            old(self).inv(),
            old(self)@.len() < u64::MAX,
        ensures
            final(self).inv(),
            gig_id as int == old(self)@.len(),
            final(self)@ == old(self)@.push(
                (GigView { client: caller@, freelancer: freelancer@, amount, stage: 1 }),
            ),
    {
        let gig = Gig { client: caller, freelancer, amount, stage: 1 };
        self.allocate_and_store(gig)
    }

    /// One row of the transition table: checks existence, role and source
    /// stage, then advances the record's stage by exactly one.
    fn transition(&mut self, caller: &AccountId, gig_id: u64, from_stage: u8) -> (r: Result<
        (),
        GigError,
    >)
        requires
            old(self).inv(),
            1 <= from_stage <= 5,
        ensures
            final(self).inv(),
            r == step_check(old(self)@, caller@, gig_id, from_stage),
            r is Ok ==> final(self)@ == old(self)@.update(
                gig_id as int,
                advanced(old(self)@[gig_id as int]),
            ),
            r is Err ==> final(self)@ == old(self)@,
    {
        let mut gig = match self.load(gig_id) {
            Ok(g) => g,
            Err(e) => {
                return Err(e);
            },
        };
        let authorized = if from_stage == 3 || from_stage == 4 {
            &gig.freelancer
        } else {
            &gig.client
        };
        if !(*caller == *authorized) {
            return Err(GigError::Unauthorized);
        }
        if gig.stage != from_stage {
            return Err(GigError::WrongStage);
        }
        gig.stage = from_stage + 1;
        self.store(gig_id, gig);
        Ok(())
    }

    /// Client-only; requires stage 1; advances to stage 2 / Offered.
    pub fn offer(&mut self, caller: &AccountId, gig_id: u64) -> (r: Result<(), GigError>)
        requires
            old(self).inv(),
        ensures
            final(self).inv(),
            r == step_check(old(self)@, caller@, gig_id, 1),
            r is Ok ==> final(self)@ == old(self)@.update(
                gig_id as int,
                advanced(old(self)@[gig_id as int]),
            ),
            r is Err ==> final(self)@ == old(self)@,
    {
        self.transition(caller, gig_id, 1)
    }

    /// Client-only; requires stage 2 and an attached value exactly equal to
    /// the stored amount; advances to stage 3 / Deposited. A mismatched value
    /// is refused whole: there is no partial deposit.
    pub fn deposit(&mut self, caller: &AccountId, gig_id: u64, attached: Balance) -> (r: Result<
        (),
        GigError,
    >)
        requires
            old(self).inv(),
        ensures
            final(self).inv(),
            r == deposit_check(old(self)@, caller@, gig_id, attached),
            r is Ok ==> final(self)@ == old(self)@.update(
                gig_id as int,
                advanced(old(self)@[gig_id as int]),
            ),
            r is Err ==> final(self)@ == old(self)@,
    {
        let mut gig = match self.load(gig_id) {
            Ok(g) => g,
            Err(e) => {
                return Err(e);
            },
        };
        if !(*caller == gig.client) {
            return Err(GigError::Unauthorized);
        }
        if gig.stage != 2 {
            return Err(GigError::WrongStage);
        }
        if attached != gig.amount {
            return Err(GigError::AmountMismatch);
        }
        gig.stage = 3;
        self.store(gig_id, gig);
        Ok(())
    }

    /// Freelancer-only; requires stage 3; advances to stage 4 / InProgress.
    pub fn start_progress(&mut self, caller: &AccountId, gig_id: u64) -> (r: Result<(), GigError>)
        requires
            old(self).inv(),
        ensures
            final(self).inv(),
            r == step_check(old(self)@, caller@, gig_id, 3),
            r is Ok ==> final(self)@ == old(self)@.update(
                gig_id as int,
                advanced(old(self)@[gig_id as int]),
            ),
            r is Err ==> final(self)@ == old(self)@,
    {
        self.transition(caller, gig_id, 3)
    }

    /// Freelancer-only; requires stage 4; advances to stage 5 / Completed.
    pub fn complete(&mut self, caller: &AccountId, gig_id: u64) -> (r: Result<(), GigError>)
        requires
            old(self).inv(),
        ensures
            final(self).inv(),
            r == step_check(old(self)@, caller@, gig_id, 4),
            r is Ok ==> final(self)@ == old(self)@.update(
                gig_id as int,
                advanced(old(self)@[gig_id as int]),
            ),
            r is Err ==> final(self)@ == old(self)@,
    {
        self.transition(caller, gig_id, 4)
    }

    /// Client-only; requires stage 5; advances to stage 6 / Confirmed — the
    /// terminal stage — and returns the one payment dispatch owed to the
    /// freelancer, for the hosting adapter to execute. The record is updated
    /// before the dispatch is handed out, and no transition leaves stage 6,
    /// so the dispatch for a gig can be produced at most once.
    pub fn confirm(&mut self, caller: &AccountId, gig_id: u64) -> (r: Result<Transfer, GigError>)
        requires
            old(self).inv(),
        ensures
            final(self).inv(),
            (r is Ok) == (step_check(old(self)@, caller@, gig_id, 5) is Ok),
            match r {
                Ok(t) => t.to@ == old(self)@[gig_id as int].freelancer && t.amount == old(
                    self,
                )@[gig_id as int].amount && final(self)@ == old(self)@.update(
                    gig_id as int,
                    advanced(old(self)@[gig_id as int]),
                ),
                Err(e) => step_check(old(self)@, caller@, gig_id, 5) == Err::<(), GigError>(e)
                    && final(self)@ == old(self)@,
            },
    {
        let mut gig = match self.load(gig_id) {
            Ok(g) => g,
            Err(e) => {
                return Err(e);
            },
        };
        if !(*caller == gig.client) {
            return Err(GigError::Unauthorized);
        }
        if gig.stage != 5 {
            return Err(GigError::WrongStage);
        }
        let to = gig.freelancer.clone();
        let amount = gig.amount;
        gig.stage = 6;
        self.store(gig_id, gig);
        Ok(Transfer { to, amount })
    }
}

} // verus!
