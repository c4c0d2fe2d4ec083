use bairrou_coupons::rules;
use bairrou_coupons::storage::{Action, Ledger};
use bairrou_coupons::types::{Account, Campaign, Coupon, CouponStatus, Error, Event, RedemptionStatus};
use bairrou_coupons::BairrouCouponsContract;

fn account(name: &str) -> Account {
    Account::from_bytes(name.as_bytes().to_vec())
}

/// A ledger with a campaign of the given supply, expiring at 1_000, on which
/// "GUSER" is eligible and "GPARTNER" may redeem.
fn ledger_with_campaign(max_supply: u32) -> Ledger {
    let mut env = Ledger::new();
    BairrouCouponsContract::initialize(
        &mut env,
        account("GADMIN"),
        42,
        max_supply,
        1_000,
        b"ipfs://campaign".to_vec(),
        vec![account("GPARTNER")],
    )
    .unwrap();
    BairrouCouponsContract::add_eligible_user(&mut env, account("GUSER")).unwrap();
    env
}

fn sample_campaign(paused: bool) -> Campaign {
    Campaign {
        id: 42,
        admin: account("GADMIN"),
        max_supply: 5,
        current_supply: 1,
        expiration_time: 1_000,
        metadata_uri: b"ipfs://campaign".to_vec(),
        is_paused: paused,
    }
}

fn sample_coupon(owner: Option<Account>, status: CouponStatus) -> Coupon {
    Coupon {
        id: 1,
        campaign_id: 42,
        owner_wallet: owner,
        status,
        next_coupons: None,
        previous_coupons: None,
        unlock_conditions: None,
    }
}

#[test]
fn error_codes_follow_the_contract_numbering() {
    let all = [
        (Error::AlreadyInitialized, 1),
        (Error::NotInitialized, 2),
        (Error::CampaignExpired, 3),
        (Error::MaxSupplyReached, 4),
        (Error::CouponAlreadyClaimed, 5),
        (Error::NotCouponOwner, 6),
        (Error::InvalidCouponStatus, 7),
        (Error::NotAuthorizedRedeemer, 8),
        (Error::CampaignPaused, 9),
        (Error::UserNotEligible, 10),
    ];
    for (e, code) in all {
        assert_eq!(e.code(), code);
    }
}

#[test]
fn calls_without_campaign_are_refused() {
    let mut env = Ledger::new();
    let user = account("GUSER");
    assert_eq!(BairrouCouponsContract::claim(&mut env, user.clone()), Err(Error::NotInitialized));
    assert_eq!(BairrouCouponsContract::add_redeemer(&mut env, user.clone()), Err(Error::NotInitialized));
    assert_eq!(BairrouCouponsContract::remove_redeemer(&mut env, user.clone()), Err(Error::NotInitialized));
    assert_eq!(BairrouCouponsContract::add_eligible_user(&mut env, user.clone()), Err(Error::NotInitialized));
    assert_eq!(
        BairrouCouponsContract::add_eligible_users(&mut env, vec![user.clone()]),
        Err(Error::NotInitialized)
    );
    assert_eq!(BairrouCouponsContract::remove_eligible_user(&mut env, user.clone()), Err(Error::NotInitialized));
    assert_eq!(BairrouCouponsContract::extend_expiration(&mut env, 5), Err(Error::NotInitialized));
    assert_eq!(BairrouCouponsContract::set_paused(&mut env, true), Err(Error::NotInitialized));
    assert_eq!(BairrouCouponsContract::burn(&mut env, 1), Err(Error::NotInitialized));
    assert_eq!(
        BairrouCouponsContract::redeem(&mut env, user.clone(), 1, account("GPARTNER")),
        Err(Error::NotInitialized)
    );
    assert!(BairrouCouponsContract::get_campaign_info(&env).is_none());
    assert!(!BairrouCouponsContract::is_eligible(&env, user.clone()));
    assert!(env.events().is_empty());
}

#[test]
fn claim_is_refused_at_the_expiration_time() {
    let mut env = ledger_with_campaign(10);
    env.set_timestamp(999);
    assert_eq!(BairrouCouponsContract::claim(&mut env, account("GUSER")), Ok(1));
    env.set_timestamp(1_000);
    assert_eq!(BairrouCouponsContract::claim(&mut env, account("GUSER")), Err(Error::CampaignExpired));
}

#[test]
fn claim_checks_come_in_order() {
    let mut env = ledger_with_campaign(1);
    BairrouCouponsContract::set_paused(&mut env, true).unwrap();
    // Not eligible is reported before the pause.
    assert_eq!(BairrouCouponsContract::claim(&mut env, account("GNOBODY")), Err(Error::UserNotEligible));
    assert_eq!(BairrouCouponsContract::claim(&mut env, account("GUSER")), Err(Error::CampaignPaused));
    BairrouCouponsContract::set_paused(&mut env, false).unwrap();
    assert_eq!(BairrouCouponsContract::claim(&mut env, account("GUSER")), Ok(1));
    assert_eq!(BairrouCouponsContract::claim(&mut env, account("GUSER")), Err(Error::MaxSupplyReached));
    let info = BairrouCouponsContract::get_campaign_info(&env).unwrap();
    assert_eq!(info.current_supply, 1);
    assert_eq!(info.max_supply, 1);
}

#[test]
fn claim_publishes_event_and_lists_claims_per_user() {
    let mut env = ledger_with_campaign(10);
    let user = account("GUSER");
    let other = account("GOTHER");
    BairrouCouponsContract::add_eligible_user(&mut env, other.clone()).unwrap();
    assert_eq!(BairrouCouponsContract::claim(&mut env, user.clone()), Ok(1));
    assert_eq!(BairrouCouponsContract::claim(&mut env, other.clone()), Ok(2));
    assert_eq!(BairrouCouponsContract::claim(&mut env, user.clone()), Ok(3));
    assert_eq!(BairrouCouponsContract::get_claimed_coupons(&env, user.clone()), vec![1, 3]);
    assert_eq!(BairrouCouponsContract::get_claimed_coupons(&env, other.clone()), vec![2]);
    assert!(BairrouCouponsContract::get_claimed_coupons(&env, account("GNOBODY")).is_empty());
    let last = env.events().last().unwrap().clone();
    assert_eq!(last, Event::Claimed { user: user.clone(), coupon_id: 3, campaign_id: 42 });
    let coupon = BairrouCouponsContract::get_coupon(&env, 2).unwrap();
    assert_eq!(coupon.owner_wallet, Some(other));
    assert_eq!(coupon.next_coupons, None);
    assert_eq!(coupon.previous_coupons, None);
    assert_eq!(coupon.unlock_conditions, None);
}

#[test]
fn redeem_publishes_redemption_then_burn() {
    let mut env = ledger_with_campaign(10);
    let user = account("GUSER");
    let partner = account("GPARTNER");
    let id = BairrouCouponsContract::claim(&mut env, user.clone()).unwrap();
    let before = env.events().len();
    assert_eq!(
        BairrouCouponsContract::redeem(&mut env, user.clone(), id, partner.clone()),
        Ok(RedemptionStatus::Redeemed)
    );
    let events = env.events().to_vec();
    assert_eq!(events.len(), before + 2);
    assert_eq!(
        events[before],
        Event::Redeemed { user: user.clone(), coupon_id: id, partner: partner.clone(), campaign_id: 42 }
    );
    assert_eq!(events[before + 1], Event::Burned { owner: user.clone(), coupon_id: id, campaign_id: 42 });
    // Used once: the same number cannot be redeemed or burned again.
    assert_eq!(
        BairrouCouponsContract::redeem(&mut env, user, id, partner),
        Err(Error::InvalidCouponStatus)
    );
    assert_eq!(BairrouCouponsContract::burn(&mut env, id), Err(Error::InvalidCouponStatus));
}

#[test]
fn redeem_after_expiration_burns_even_at_unknown_partner() {
    let mut env = ledger_with_campaign(10);
    let user = account("GUSER");
    let id = BairrouCouponsContract::claim(&mut env, user.clone()).unwrap();
    env.set_timestamp(1_000);
    assert_eq!(
        BairrouCouponsContract::redeem(&mut env, user.clone(), id, account("GSTRANGER")),
        Ok(RedemptionStatus::Expired)
    );
    let events = env.events().to_vec();
    let n = events.len();
    assert_eq!(events[n - 2], Event::Expired { user: user.clone(), coupon_id: id, campaign_id: 42 });
    assert_eq!(events[n - 1], Event::Burned { owner: user, coupon_id: id, campaign_id: 42 });
    assert!(BairrouCouponsContract::get_coupon(&env, id).is_none());
}

#[test]
fn redeem_refusals_name_their_reason() {
    let mut env = ledger_with_campaign(10);
    let user = account("GUSER");
    let partner = account("GPARTNER");
    let id = BairrouCouponsContract::claim(&mut env, user.clone()).unwrap();
    assert_eq!(
        BairrouCouponsContract::redeem(&mut env, user.clone(), id + 1, partner.clone()),
        Err(Error::InvalidCouponStatus)
    );
    assert_eq!(
        BairrouCouponsContract::redeem(&mut env, account("GOTHER"), id, partner.clone()),
        Err(Error::NotCouponOwner)
    );
    assert_eq!(
        BairrouCouponsContract::redeem(&mut env, user.clone(), id, account("GSTRANGER")),
        Err(Error::NotAuthorizedRedeemer)
    );
    BairrouCouponsContract::set_paused(&mut env, true).unwrap();
    assert_eq!(
        BairrouCouponsContract::redeem(&mut env, user.clone(), id, partner.clone()),
        Err(Error::CampaignPaused)
    );
    // None of the refusals touched the coupon.
    assert!(BairrouCouponsContract::get_coupon(&env, id).is_some());
}

#[test]
fn burn_announces_the_owner() {
    let mut env = ledger_with_campaign(10);
    let user = account("GUSER");
    let id = BairrouCouponsContract::claim(&mut env, user.clone()).unwrap();
    assert_eq!(BairrouCouponsContract::burn(&mut env, id), Ok(()));
    assert_eq!(
        env.events().last().unwrap().clone(),
        Event::Burned { owner: user, coupon_id: id, campaign_id: 42 }
    );
    assert_eq!(BairrouCouponsContract::burn(&mut env, id), Err(Error::InvalidCouponStatus));
}

#[test]
fn settings_change_one_field() {
    let mut env = ledger_with_campaign(10);
    BairrouCouponsContract::extend_expiration(&mut env, 77).unwrap();
    BairrouCouponsContract::set_paused(&mut env, true).unwrap();
    let info = BairrouCouponsContract::get_campaign_info(&env).unwrap();
    assert_eq!(info.expiration_time, 77);
    assert!(info.is_paused);
    assert_eq!(info.id, 42);
    assert_eq!(info.max_supply, 10);
    assert_eq!(info.admin, account("GADMIN"));
    assert_eq!(info.metadata_uri, b"ipfs://campaign".to_vec());
}

#[test]
fn rules_name_who_must_authorize() {
    let admin = account("GADMIN");
    let user = account("GUSER");
    let partner = account("GPARTNER");
    let campaign = Some(sample_campaign(false));

    let step = rules::add_redeemer(&campaign, &partner);
    assert_eq!(step.authorizer, Some(admin.clone()));
    assert_eq!(step.outcome, Ok(()));
    assert_eq!(step.actions.len(), 1);
    assert!(matches!(&step.actions[0], Action::SetRedeemer(p) if *p == partner));

    let step = rules::add_redeemer(&None, &partner);
    assert_eq!(step.authorizer, None);
    assert_eq!(step.outcome, Err(Error::NotInitialized));
    assert!(step.actions.is_empty());

    let step = rules::claim(&None, &user, true, 0);
    assert_eq!(step.authorizer, Some(user.clone()));
    assert_eq!(step.outcome, Err(Error::NotInitialized));

    let step = rules::claim(&campaign, &user, true, 10);
    assert_eq!(step.authorizer, Some(user.clone()));
    assert_eq!(step.outcome, Ok(2));
    assert_eq!(step.actions.len(), 4);
    match &step.actions[2] {
        Action::SetCampaign(c) => assert_eq!(c.current_supply, 2),
        _ => panic!("the third write stores the campaign"),
    }

    let coupon = Some(sample_coupon(Some(user.clone()), CouponStatus::Claimed));
    let step = rules::redeem(&campaign, &coupon, &user, 1, &partner, true, 10);
    assert_eq!(step.authorizer, Some(partner.clone()));
    assert_eq!(step.outcome, Ok(RedemptionStatus::Redeemed));

    let step = rules::burn(&campaign, &None, 1);
    assert_eq!(step.authorizer, Some(admin.clone()));
    assert_eq!(step.outcome, Err(Error::InvalidCouponStatus));

    let step = rules::initialize(false, &admin, 1, 2, 3, &vec![], &vec![partner.clone(), user.clone()]);
    assert_eq!(step.authorizer, None);
    assert_eq!(step.actions.len(), 4);
    assert!(matches!(&step.actions[2], Action::SetRedeemer(p) if *p == user));
}

#[test]
fn redeem_refuses_a_coupon_not_in_the_claimed_state() {
    let user = account("GUSER");
    let partner = account("GPARTNER");
    let campaign = Some(sample_campaign(false));
    let coupon = Some(sample_coupon(Some(user.clone()), CouponStatus::Minted));
    let step = rules::redeem(&campaign, &coupon, &user, 1, &partner, true, 10);
    assert_eq!(step.outcome, Err(Error::InvalidCouponStatus));
    assert!(step.actions.is_empty());
    // After expiration the owner check comes first, then the coupon is burned
    // whatever its state.
    let step = rules::redeem(&campaign, &coupon, &user, 1, &partner, false, 1_000);
    assert_eq!(step.outcome, Ok(RedemptionStatus::Expired));
    assert_eq!(step.actions.len(), 3);
    let ownerless = Some(sample_coupon(None, CouponStatus::Claimed));
    let step = rules::redeem(&campaign, &ownerless, &user, 1, &partner, true, 10);
    assert_eq!(step.outcome, Err(Error::NotCouponOwner));
}

#[test]
fn burning_an_ownerless_coupon_announces_the_admin() {
    let campaign = Some(sample_campaign(true));
    let coupon = Some(sample_coupon(None, CouponStatus::Created));
    let step = rules::burn(&campaign, &coupon, 9);
    assert_eq!(step.outcome, Ok(()));
    assert_eq!(step.actions.len(), 2);
    assert!(matches!(&step.actions[0], Action::RemoveCoupon(9)));
    match &step.actions[1] {
        Action::Publish(e) => {
            assert_eq!(*e, Event::Burned { owner: account("GADMIN"), coupon_id: 9, campaign_id: 42 })
        },
        _ => panic!("the second write publishes the burn"),
    }
}

#[test]
fn accounts_compare_by_address() {
    let a = account("GABC");
    assert!(a.same_as(&account("GABC")));
    assert!(!a.same_as(&account("GABD")));
    assert!(!a.same_as(&account("GAB")));
    assert_eq!(a.duplicate(), a);
    assert_eq!(a.as_bytes(), b"GABC");
}

#[test]
fn duplicates_keep_every_field() {
    let mut coupon = sample_coupon(Some(account("GUSER")), CouponStatus::Redeemed);
    coupon.next_coupons = Some(vec![4, 5]);
    coupon.previous_coupons = Some(vec![]);
    coupon.unlock_conditions = Some(vec![b"a".to_vec(), b"bc".to_vec()]);
    assert_eq!(coupon.duplicate(), coupon);
    let campaign = sample_campaign(true);
    assert_eq!(campaign.duplicate(), campaign);
}

#[test]
fn removing_absent_entries_is_harmless() {
    let mut env = ledger_with_campaign(10);
    let nobody = account("GNOBODY");
    BairrouCouponsContract::remove_redeemer(&mut env, nobody.clone()).unwrap();
    BairrouCouponsContract::remove_eligible_user(&mut env, nobody.clone()).unwrap();
    assert!(BairrouCouponsContract::is_redeemer(&env, account("GPARTNER")));
    assert!(BairrouCouponsContract::is_eligible(&env, account("GUSER")));
    // Adding twice keeps one entry: removing once takes it off.
    BairrouCouponsContract::add_redeemer(&mut env, nobody.clone()).unwrap();
    BairrouCouponsContract::add_redeemer(&mut env, nobody.clone()).unwrap();
    BairrouCouponsContract::remove_redeemer(&mut env, nobody.clone()).unwrap();
    assert!(!BairrouCouponsContract::is_redeemer(&env, nobody));
}
