//! Every way an operation is refused, and that a refusal never writes the
//! record.

use near_gigs::Gig;
use near_gigs::GigError;
use near_gigs::NearGigs;

fn same_record(a: &Gig, b: &Gig) -> bool {
    a.client == b.client && a.freelancer == b.freelancer && a.amount == b.amount
        && a.stage == b.stage
}

#[test]
fn missing_gig_is_not_found() {
    let c = "cl".to_string();
    let mut reg = NearGigs::new();
    assert_eq!(reg.offer(&c, 0), Err(GigError::NotFound));
    assert_eq!(reg.deposit(&c, 0, 5), Err(GigError::NotFound));
    assert_eq!(reg.start_progress(&c, 0), Err(GigError::NotFound));
    assert_eq!(reg.complete(&c, 0), Err(GigError::NotFound));
    assert!(matches!(reg.confirm(&c, 0), Err(GigError::NotFound)));
    assert!(reg.get_gig(0).is_none());

    // An identifier past the allocated ones is just as absent.
    let id = reg.create_gig(c.clone(), "fr".to_string(), 5);
    assert_eq!(id, 0);
    assert_eq!(reg.offer(&c, 1), Err(GigError::NotFound));
    assert!(matches!(reg.confirm(&c, 9), Err(GigError::NotFound)));
}

#[test]
fn role_mismatch_is_unauthorized() {
    let c = "the_client".to_string();
    let f = "the_freelancer".to_string();
    let mut reg = NearGigs::new();
    let id = reg.create_gig(c.clone(), f.clone(), 30);

    // Client-only operations, attempted by the freelancer.
    assert_eq!(reg.offer(&f, id), Err(GigError::Unauthorized));
    assert_eq!(reg.deposit(&f, id, 30), Err(GigError::Unauthorized));
    assert!(matches!(reg.confirm(&f, id), Err(GigError::Unauthorized)));

    // Freelancer-only operations, attempted by the client.
    assert_eq!(reg.start_progress(&c, id), Err(GigError::Unauthorized));
    assert_eq!(reg.complete(&c, id), Err(GigError::Unauthorized));

    // A stranger holds neither role.
    let s = "somebody_else".to_string();
    assert_eq!(reg.offer(&s, id), Err(GigError::Unauthorized));

    // Nothing moved.
    assert_eq!(reg.get_gig(id).unwrap().stage, 1);
}

#[test]
fn wrong_stage_leaves_record_unchanged() {
    let c = "the_client".to_string();
    let f = "the_freelancer".to_string();
    let mut reg = NearGigs::new();
    let id = reg.create_gig(c.clone(), f.clone(), 30);

    // At stage 1, everything but `offer` is out of order for its caller.
    let before = reg.get_gig(id).unwrap();
    assert_eq!(reg.deposit(&c, id, 30), Err(GigError::WrongStage));
    assert_eq!(reg.start_progress(&f, id), Err(GigError::WrongStage));
    assert_eq!(reg.complete(&f, id), Err(GigError::WrongStage));
    assert!(matches!(reg.confirm(&c, id), Err(GigError::WrongStage)));
    let after = reg.get_gig(id).unwrap();
    assert!(same_record(&before, &after));

    // Once offered, offering again is refused the same way.
    reg.offer(&c, id).unwrap();
    let before = reg.get_gig(id).unwrap();
    assert_eq!(reg.offer(&c, id), Err(GigError::WrongStage));
    let after = reg.get_gig(id).unwrap();
    assert!(same_record(&before, &after));
    assert_eq!(after.stage, 2);
}

#[test]
fn deposit_value_must_match_exactly() {
    let c = "the_client".to_string();
    let f = "the_freelancer".to_string();
    let mut reg = NearGigs::new();
    let id = reg.create_gig(c.clone(), f.clone(), 100);
    reg.offer(&c, id).unwrap();

    assert_eq!(reg.deposit(&c, id, 99), Err(GigError::AmountMismatch));
    assert_eq!(reg.get_gig(id).unwrap().stage, 2);
    assert_eq!(reg.deposit(&c, id, 101), Err(GigError::AmountMismatch));
    assert_eq!(reg.get_gig(id).unwrap().stage, 2);
    assert_eq!(reg.deposit(&c, id, 0), Err(GigError::AmountMismatch));
    assert_eq!(reg.get_gig(id).unwrap().stage, 2);

    assert_eq!(reg.deposit(&c, id, 100), Ok(()));
    assert_eq!(reg.get_gig(id).unwrap().stage, 3);
}

#[test]
fn authorization_is_checked_before_stage() {
    // The checks run in a fixed order: existence, role, stage. A freelancer
    // calling `offer` on a gig past stage 1 is told about the role.
    let c = "the_client".to_string();
    let f = "the_freelancer".to_string();
    let mut reg = NearGigs::new();
    let id = reg.create_gig(c.clone(), f.clone(), 8);
    reg.offer(&c, id).unwrap();
    assert_eq!(reg.offer(&f, id), Err(GigError::Unauthorized));
    assert_eq!(reg.offer(&c, id), Err(GigError::WrongStage));
}

#[test]
fn zero_amount_gig_deposits_zero() {
    // `amount` is any non-negative quantity, zero included; the deposit must
    // then attach exactly zero.
    let c = "cl".to_string();
    let f = "fr".to_string();
    let mut reg = NearGigs::new();
    let id = reg.create_gig(c.clone(), f.clone(), 0);
    reg.offer(&c, id).unwrap();
    assert_eq!(reg.deposit(&c, id, 1), Err(GigError::AmountMismatch));
    assert_eq!(reg.deposit(&c, id, 0), Ok(()));
    assert_eq!(reg.get_gig(id).unwrap().stage, 3);
}
