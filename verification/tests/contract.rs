use bairrou_coupons::storage::Ledger;
use bairrou_coupons::types::{Account, CouponStatus, Error, Event, RedemptionStatus};
use bairrou_coupons::BairrouCouponsContract;

fn account(name: &str) -> Account {
    Account::from_bytes(name.as_bytes().to_vec())
}

fn setup_test() -> (Ledger, Account, Account, Account, Vec<Account>) {
    let env = Ledger::new();
    let admin = account("GADMIN");
    let user = account("GUSER");
    let partner = account("GPARTNER");
    let authorized_redeemers = vec![partner.clone()];
    (env, admin, user, partner, authorized_redeemers)
}

fn metadata_uri() -> Vec<u8> {
    b"ipfs://test".to_vec()
}

#[test]
fn test_initialize() {
    let (mut env, admin, _user, partner, authorized_redeemers) = setup_test();

    let uri = metadata_uri();
    BairrouCouponsContract::initialize(
        &mut env,
        admin.clone(),
        1,
        100,
        10_000,
        uri.clone(),
        authorized_redeemers.clone(),
    )
    .unwrap();

    let info = BairrouCouponsContract::get_campaign_info(&env).unwrap();
    assert_eq!(info.id, 1);
    assert_eq!(info.admin, admin);
    assert_eq!(info.max_supply, 100);
    assert_eq!(info.current_supply, 0);
    assert_eq!(info.expiration_time, 10_000);
    assert_eq!(info.metadata_uri, uri);
    assert_eq!(info.is_paused, false);

    assert!(BairrouCouponsContract::is_redeemer(&env, partner.clone()));

    let res = BairrouCouponsContract::initialize(
        &mut env,
        admin.clone(),
        1,
        100,
        10_000,
        uri.clone(),
        authorized_redeemers.clone(),
    );
    assert!(res.is_err());
}

#[test]
fn test_claim_success() {
    let (mut env, admin, user, _partner, authorized_redeemers) = setup_test();

    BairrouCouponsContract::initialize(&mut env, admin, 1, 10, 10_000, metadata_uri(), authorized_redeemers)
        .unwrap();

    BairrouCouponsContract::add_eligible_user(&mut env, user.clone()).unwrap();

    let coupon_id = BairrouCouponsContract::claim(&mut env, user.clone()).unwrap();
    assert_eq!(coupon_id, 1);

    let info = BairrouCouponsContract::get_campaign_info(&env).unwrap();
    assert_eq!(info.current_supply, 1);

    let coupon = BairrouCouponsContract::get_coupon(&env, coupon_id).unwrap();
    assert_eq!(coupon.id, 1);
    assert_eq!(coupon.campaign_id, 1);
    assert_eq!(coupon.owner_wallet, Some(user.clone()));
    assert_eq!(coupon.status, CouponStatus::Claimed);

    let coupon_id_2 = BairrouCouponsContract::claim(&mut env, user.clone()).unwrap();
    assert_eq!(coupon_id_2, 2);

    let claimed_list = BairrouCouponsContract::get_claimed_coupons(&env, user.clone());
    assert_eq!(claimed_list.len(), 2);
    assert_eq!(claimed_list[0], 1);
    assert_eq!(claimed_list[1], 2);
}

#[test]
fn test_claim_max_supply() {
    let (mut env, admin, _user, _partner, authorized_redeemers) = setup_test();

    BairrouCouponsContract::initialize(&mut env, admin, 1, 2, 10_000, metadata_uri(), authorized_redeemers)
        .unwrap();

    let user1 = account("GUSER1");
    let user2 = account("GUSER2");
    let user3 = account("GUSER3");

    BairrouCouponsContract::add_eligible_user(&mut env, user1.clone()).unwrap();
    BairrouCouponsContract::add_eligible_user(&mut env, user2.clone()).unwrap();
    BairrouCouponsContract::add_eligible_user(&mut env, user3.clone()).unwrap();

    BairrouCouponsContract::claim(&mut env, user1).unwrap();
    BairrouCouponsContract::claim(&mut env, user2).unwrap();

    let res = BairrouCouponsContract::claim(&mut env, user3);
    assert!(res.is_err());
}

#[test]
fn test_claim_expired() {
    let (mut env, admin, user, _partner, authorized_redeemers) = setup_test();

    BairrouCouponsContract::initialize(&mut env, admin, 1, 100, 10_000, metadata_uri(), authorized_redeemers)
        .unwrap();
    BairrouCouponsContract::add_eligible_user(&mut env, user.clone()).unwrap();

    env.set_timestamp(10_001);

    let res = BairrouCouponsContract::claim(&mut env, user);
    assert!(res.is_err());
}

#[test]
fn test_claim_paused() {
    let (mut env, admin, user, _partner, authorized_redeemers) = setup_test();

    BairrouCouponsContract::initialize(&mut env, admin, 1, 100, 10_000, metadata_uri(), authorized_redeemers)
        .unwrap();
    BairrouCouponsContract::add_eligible_user(&mut env, user.clone()).unwrap();

    BairrouCouponsContract::set_paused(&mut env, true).unwrap();

    let res = BairrouCouponsContract::claim(&mut env, user.clone());
    assert!(res.is_err());

    BairrouCouponsContract::set_paused(&mut env, false).unwrap();
    let coupon_id = BairrouCouponsContract::claim(&mut env, user).unwrap();
    assert_eq!(coupon_id, 1);
}

#[test]
fn test_claim_not_eligible() {
    let (mut env, admin, user, _partner, authorized_redeemers) = setup_test();

    BairrouCouponsContract::initialize(&mut env, admin, 1, 100, 10_000, metadata_uri(), authorized_redeemers)
        .unwrap();

    let res = BairrouCouponsContract::claim(&mut env, user.clone());
    assert!(res.is_err());

    BairrouCouponsContract::add_eligible_user(&mut env, user.clone()).unwrap();
    assert!(BairrouCouponsContract::is_eligible(&env, user.clone()));

    let coupon_id = BairrouCouponsContract::claim(&mut env, user).unwrap();
    assert_eq!(coupon_id, 1);
}

#[test]
fn test_redeem_success() {
    let (mut env, admin, user, partner, authorized_redeemers) = setup_test();

    BairrouCouponsContract::initialize(&mut env, admin, 1, 100, 10_000, metadata_uri(), authorized_redeemers)
        .unwrap();
    BairrouCouponsContract::add_eligible_user(&mut env, user.clone()).unwrap();

    let coupon_id = BairrouCouponsContract::claim(&mut env, user.clone()).unwrap();

    let status =
        BairrouCouponsContract::redeem(&mut env, user.clone(), coupon_id, partner.clone()).unwrap();
    assert_eq!(status, RedemptionStatus::Redeemed);

    let coupon_opt = BairrouCouponsContract::get_coupon(&env, coupon_id);
    assert!(coupon_opt.is_none());

    let res = BairrouCouponsContract::redeem(&mut env, user, coupon_id, partner);
    assert!(res.is_err());
}

#[test]
fn test_redeem_not_owner() {
    let (mut env, admin, user, partner, authorized_redeemers) = setup_test();

    BairrouCouponsContract::initialize(&mut env, admin, 1, 100, 10_000, metadata_uri(), authorized_redeemers)
        .unwrap();
    BairrouCouponsContract::add_eligible_user(&mut env, user.clone()).unwrap();

    let coupon_id = BairrouCouponsContract::claim(&mut env, user).unwrap();

    let other_user = account("GOTHER");

    let res = BairrouCouponsContract::redeem(&mut env, other_user, coupon_id, partner);
    assert!(res.is_err());
}

#[test]
fn test_redeem_not_authorized_partner() {
    let (mut env, admin, user, _partner, authorized_redeemers) = setup_test();

    BairrouCouponsContract::initialize(&mut env, admin, 1, 100, 10_000, metadata_uri(), authorized_redeemers)
        .unwrap();
    BairrouCouponsContract::add_eligible_user(&mut env, user.clone()).unwrap();

    let coupon_id = BairrouCouponsContract::claim(&mut env, user.clone()).unwrap();

    let unauthorized_partner = account("GSTRANGER");

    let res = BairrouCouponsContract::redeem(&mut env, user, coupon_id, unauthorized_partner);
    assert!(res.is_err());
}

#[test]
fn test_redeem_expired_burns() {
    let (mut env, admin, user, partner, authorized_redeemers) = setup_test();

    BairrouCouponsContract::initialize(&mut env, admin, 1, 100, 10_000, metadata_uri(), authorized_redeemers)
        .unwrap();
    BairrouCouponsContract::add_eligible_user(&mut env, user.clone()).unwrap();

    let coupon_id = BairrouCouponsContract::claim(&mut env, user.clone()).unwrap();

    env.set_timestamp(10_001);

    let status = BairrouCouponsContract::redeem(&mut env, user, coupon_id, partner).unwrap();
    assert_eq!(status, RedemptionStatus::Expired);

    let coupon_opt = BairrouCouponsContract::get_coupon(&env, coupon_id);
    assert!(coupon_opt.is_none());
}

#[test]
fn test_admin_add_remove_redeemer() {
    let (mut env, admin, _user, partner, authorized_redeemers) = setup_test();

    BairrouCouponsContract::initialize(&mut env, admin, 1, 100, 10_000, metadata_uri(), authorized_redeemers)
        .unwrap();

    let new_partner = account("GNEWPARTNER");
    assert!(!BairrouCouponsContract::is_redeemer(&env, new_partner.clone()));

    BairrouCouponsContract::add_redeemer(&mut env, new_partner.clone()).unwrap();
    assert!(BairrouCouponsContract::is_redeemer(&env, new_partner));

    BairrouCouponsContract::remove_redeemer(&mut env, partner.clone()).unwrap();
    assert!(!BairrouCouponsContract::is_redeemer(&env, partner));

    BairrouCouponsContract::extend_expiration(&mut env, 15_000).unwrap();
    assert_eq!(BairrouCouponsContract::get_campaign_info(&env).unwrap().expiration_time, 15_000);
}

#[test]
fn test_admin_burn() {
    let (mut env, admin, user, _partner, authorized_redeemers) = setup_test();

    BairrouCouponsContract::initialize(&mut env, admin, 1, 100, 10_000, metadata_uri(), authorized_redeemers)
        .unwrap();
    BairrouCouponsContract::add_eligible_user(&mut env, user.clone()).unwrap();

    let coupon_id = BairrouCouponsContract::claim(&mut env, user).unwrap();

    BairrouCouponsContract::burn(&mut env, coupon_id).unwrap();

    let coupon_opt = BairrouCouponsContract::get_coupon(&env, coupon_id);
    assert!(coupon_opt.is_none());
}

#[test]
fn test_admin_add_remove_eligible_user() {
    let (mut env, admin, user, _partner, authorized_redeemers) = setup_test();

    BairrouCouponsContract::initialize(&mut env, admin, 1, 100, 10_000, metadata_uri(), authorized_redeemers)
        .unwrap();

    assert!(!BairrouCouponsContract::is_eligible(&env, user.clone()));

    BairrouCouponsContract::add_eligible_user(&mut env, user.clone()).unwrap();
    assert!(BairrouCouponsContract::is_eligible(&env, user.clone()));

    BairrouCouponsContract::remove_eligible_user(&mut env, user.clone()).unwrap();
    assert!(!BairrouCouponsContract::is_eligible(&env, user.clone()));

    let other_user = account("GOTHER");
    let users = vec![user.clone(), other_user.clone()];
    BairrouCouponsContract::add_eligible_users(&mut env, users).unwrap();

    assert!(BairrouCouponsContract::is_eligible(&env, user));
    assert!(BairrouCouponsContract::is_eligible(&env, other_user));
}

#[test]
fn initialize_publishes_event_and_refuses_second_setup() {
    let (mut env, admin, _user, _partner, authorized_redeemers) = setup_test();
    BairrouCouponsContract::initialize(&mut env, admin.clone(), 7, 3, 500, metadata_uri(), authorized_redeemers)
        .unwrap();
    assert_eq!(
        env.events().to_vec(),
        vec![Event::Initialized { campaign_id: 7, admin: admin.clone() }]
    );
    let res = BairrouCouponsContract::initialize(&mut env, admin, 8, 3, 500, metadata_uri(), vec![]);
    assert_eq!(res, Err(Error::AlreadyInitialized));
    // The refused call left the campaign as it was.
    assert_eq!(BairrouCouponsContract::get_campaign_info(&env).unwrap().id, 7);
    assert_eq!(env.events().len(), 1);
}
