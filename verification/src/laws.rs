//! Laws of the lifecycle state machine, stated over the same spec functions
//! the operations' contracts use.

use vstd::prelude::*;

use crate::engine::advanced;
use crate::engine::required_caller;
use crate::engine::step_check;
use crate::gig::Balance;
use crate::gig::GigError;
use crate::gig::GigStatus;
use crate::gig::GigView;
use crate::gig::status_of_stage;
use crate::registry::wf_state;

verus! {

/// A fresh gig reads back exactly as creation was told to make it: stage 1,
/// labelled Offered, the creating caller as client, and the supplied
/// freelancer and amount, under the identifier that indexes the new record —
/// and a legal state stays legal when it is added.
pub proof fn lemma_created_gig_is_fresh(
    s: Seq<GigView>,
    client: Seq<char>,
    freelancer: Seq<char>,
    amount: Balance,
)
    ensures
        ({
            let t = s.push((GigView { client, freelancer, amount, stage: 1 }));
            &&& t.len() == s.len() + 1
            &&& t[s.len() as int].client == client
            &&& t[s.len() as int].freelancer == freelancer
            &&& t[s.len() as int].amount == amount
            &&& t[s.len() as int].stage == 1
            &&& status_of_stage(t[s.len() as int].stage) == GigStatus::Offered
            &&& wf_state(s) ==> wf_state(t)
        }),
{
    let t = s.push((GigView { client, freelancer, amount, stage: 1 }));
    if wf_state(s) {
        assert forall|i: int| 0 <= i < t.len() implies 1 <= (#[trigger] t[i]).stage <= 6 by {
            if i < s.len() {
                assert(t[i] == s[i]);
            }
        }
    }
}

/// A successful transition raises the addressed gig's stage by exactly one —
/// it never decreases, skips or repeats a stage — keeps the gig's parties
/// and amount exactly as they were fixed at creation, and leaves every stage
/// in the state within the legal range 1..=6.
pub proof fn lemma_stage_advances_by_one(
    s: Seq<GigView>,
    caller: Seq<char>,
    gig_id: u64,
    from_stage: u8,
)
    requires
        wf_state(s),
        1 <= from_stage <= 5,
        step_check(s, caller, gig_id, from_stage) is Ok,
    ensures
        s.update(gig_id as int, advanced(s[gig_id as int]))[gig_id as int].stage == s[gig_id
            as int].stage + 1,
        s.update(gig_id as int, advanced(s[gig_id as int]))[gig_id as int].client == s[gig_id
            as int].client,
        s.update(gig_id as int, advanced(s[gig_id as int]))[gig_id as int].freelancer == s[gig_id
            as int].freelancer,
        s.update(gig_id as int, advanced(s[gig_id as int]))[gig_id as int].amount == s[gig_id
            as int].amount,
        wf_state(s.update(gig_id as int, advanced(s[gig_id as int]))),
{
    let t = s.update(gig_id as int, advanced(s[gig_id as int]));
    assert forall|i: int| 0 <= i < t.len() implies 1 <= (#[trigger] t[i]).stage <= 6 by {
        if i != gig_id as int {
            assert(t[i] == s[i]);
        }
    }
}

/// Stage 6 is terminal: no transition's checks succeed on a gig that has
/// reached it, and the caller who does hold the required role is told
/// `WrongStage` — so in particular a second `confirm` cannot produce a
/// second payment dispatch.
pub proof fn lemma_terminal_stage_rejects(
    s: Seq<GigView>,
    caller: Seq<char>,
    gig_id: u64,
    from_stage: u8,
)
    requires
        (gig_id as int) < s.len(),
        s[gig_id as int].stage == 6,
        1 <= from_stage <= 5,
    ensures
        !(step_check(s, caller, gig_id, from_stage) is Ok),
        caller == required_caller(s[gig_id as int], from_stage) ==> step_check(
            s,
            caller,
            gig_id,
            from_stage,
        ) == Err::<(), GigError>(GigError::WrongStage),
{
}

/// Transitions on different identifiers are independent: a successful
/// transition on one gig leaves every other record — its stage, parties and
/// amount — exactly as it was, and allocates or destroys nothing.
pub proof fn lemma_no_cross_interference(s: Seq<GigView>, gig_id: u64, other: u64)
    requires
        (gig_id as int) < s.len(),
        (other as int) < s.len(),
        other != gig_id,
    ensures
        s.update(gig_id as int, advanced(s[gig_id as int]))[other as int] == s[other as int],
        s.update(gig_id as int, advanced(s[gig_id as int])).len() == s.len(),
{
}

} // verus!
