//! A coupon campaign: an admin sets up a campaign with a fixed supply of coupons
//! and an expiration time, keeps a list of users who may claim coupons and a
//! list of partners who may redeem them; eligible users claim coupons, and
//! partners redeem (burn) them.
//!
//! [`rules`] decides each entry point from plain values; [`storage`] holds the
//! contract's ledger state and applies the writes a decision makes; the entry
//! points of [`BairrouCouponsContract`] run one call against a [`storage::Ledger`];
//! [`laws`] states and proves what holds across calls.

pub mod laws;
pub mod rules;
pub mod storage;
pub mod tables;
pub mod types;

use vstd::prelude::*;

use crate::rules::{
    StepView, accounts_view, admin_rule, burn_rule, claim_rule, extend_expiration_rule,
    initialize_rule, make_all_eligible, redeem_rule, set_paused_rule,
};
use crate::storage::{ActionView, Ledger, LedgerView, apply_actions};
use crate::tables::claims_of;
use crate::types::{
    Account, Campaign, CouponView, Coupon, Error, RedemptionStatus, campaign_view, coupon_view,
};

verus! {

/// The coupon stored under the number, if any.
pub open spec fn coupon_at(coupons: Map<u32, CouponView>, coupon_id: u32) -> Option<CouponView> {
    if coupons.contains_key(coupon_id) {
        Some(coupons[coupon_id])
    } else {
        None
    }
}

/// The ledger after a decision's writes.
pub open spec fn after<T>(s: LedgerView, step: StepView<T>) -> LedgerView {
    apply_actions(s, step.actions)
}

/// `initialize`, decided on the ledger.
pub open spec fn initialize_step(
    s: LedgerView,
    admin: Seq<u8>,
    campaign_id: u32,
    max_supply: u32,
    expiration_time: u64,
    metadata_uri: Seq<u8>,
    authorized_redeemers: Seq<Seq<u8>>,
) -> StepView<()> {
    initialize_rule(
        s.campaign is Some,
        admin,
        campaign_id,
        max_supply,
        expiration_time,
        metadata_uri,
        authorized_redeemers,
    )
}

/// `add_redeemer`, decided on the ledger.
pub open spec fn add_redeemer_step(s: LedgerView, partner: Seq<u8>) -> StepView<()> {
    admin_rule(s.campaign, seq![ActionView::SetRedeemer(partner)])
}

/// `remove_redeemer`, decided on the ledger.
pub open spec fn remove_redeemer_step(s: LedgerView, partner: Seq<u8>) -> StepView<()> {
    admin_rule(s.campaign, seq![ActionView::RemoveRedeemer(partner)])
}

/// `extend_expiration`, decided on the ledger.
pub open spec fn extend_expiration_step(s: LedgerView, t: u64) -> StepView<()> {
    extend_expiration_rule(s.campaign, t)
}

/// `set_paused`, decided on the ledger.
pub open spec fn set_paused_step(s: LedgerView, paused: bool) -> StepView<()> {
    set_paused_rule(s.campaign, paused)
}

/// `add_eligible_user`, decided on the ledger.
pub open spec fn add_eligible_user_step(s: LedgerView, user: Seq<u8>) -> StepView<()> {
    admin_rule(s.campaign, seq![ActionView::SetEligibleUser(user)])
}

/// `add_eligible_users`, decided on the ledger.
pub open spec fn add_eligible_users_step(s: LedgerView, users: Seq<Seq<u8>>) -> StepView<()> {
    admin_rule(s.campaign, make_all_eligible(users))
}

/// `remove_eligible_user`, decided on the ledger.
pub open spec fn remove_eligible_user_step(s: LedgerView, user: Seq<u8>) -> StepView<()> {
    admin_rule(s.campaign, seq![ActionView::RemoveEligibleUser(user)])
}

/// `claim`, decided on the ledger at its current time.
pub open spec fn claim_step(s: LedgerView, user: Seq<u8>) -> StepView<u32> {
    claim_rule(s.campaign, user, s.eligible.contains(user), s.timestamp)
}

/// `redeem`, decided on the ledger at its current time.
pub open spec fn redeem_step(
    s: LedgerView,
    user: Seq<u8>,
    coupon_id: u32,
    partner: Seq<u8>,
) -> StepView<RedemptionStatus> {
    redeem_rule(
        s.campaign,
        coupon_at(s.coupons, coupon_id),
        user,
        coupon_id,
        partner,
        s.redeemers.contains(partner),
        s.timestamp,
    )
}

/// `burn`, decided on the ledger.
pub open spec fn burn_step(s: LedgerView, coupon_id: u32) -> StepView<()> {
    burn_rule(s.campaign, coupon_at(s.coupons, coupon_id), coupon_id)
}

/// The coupon campaign contract.
///
/// Each entry point runs one call against a [`Ledger`]: it reads what it needs,
/// decides by the matching function of [`rules`], and makes the decision's writes.
/// The ledger grants every authorization a call needs; which account a call
/// needs is part of the decision (see [`rules::Step::authorizer`]).
pub struct BairrouCouponsContract;

impl BairrouCouponsContract {
    /// Sets up the campaign, administered by `admin`, and authorizes the given
    /// partners; refused with `AlreadyInitialized` once a campaign exists.
    pub fn initialize(
        env: &mut Ledger,
        admin: Account,
        campaign_id: u32,
        max_supply: u32,
        expiration_time: u64,
        metadata_uri: Vec<u8>,
        authorized_redeemers: Vec<Account>,
    ) -> (result: Result<(), Error>)
        requires
            old(env).wf(),
        ensures
            final(env).wf(),
            result == initialize_step(
                old(env)@,
                admin@,
                campaign_id,
                max_supply,
                expiration_time,
                metadata_uri@,
                accounts_view(authorized_redeemers@),
            ).outcome,
            final(env)@ == after(
                old(env)@,
                initialize_step(
                    old(env)@,
                    admin@,
                    campaign_id,
                    max_supply,
                    expiration_time,
                    metadata_uri@,
                    accounts_view(authorized_redeemers@),
                ),
            ),
    {
        let initialized = storage::get_campaign(env).is_ok();
        let step = rules::initialize(
            initialized,
            &admin,
            campaign_id,
            max_supply,
            expiration_time,
            &metadata_uri,
            &authorized_redeemers,
        );
        storage::perform_all(env, &step.actions);
        step.outcome
    }

    /// Authorizes a partner to redeem coupons (the admin's operation).
    pub fn add_redeemer(env: &mut Ledger, partner: Account) -> (result: Result<(), Error>)
        requires
            old(env).wf(),
        ensures
            final(env).wf(),
            result == add_redeemer_step(old(env)@, partner@).outcome,
            final(env)@ == after(old(env)@, add_redeemer_step(old(env)@, partner@)),
    {
        let campaign = storage::get_campaign(env).ok();
        let step = rules::add_redeemer(&campaign, &partner);
        storage::perform_all(env, &step.actions);
        step.outcome
    }

    /// Withdraws a partner's authorization (the admin's operation).
    pub fn remove_redeemer(env: &mut Ledger, partner: Account) -> (result: Result<(), Error>)
        requires
            old(env).wf(),
        ensures
            final(env).wf(),
            result == remove_redeemer_step(old(env)@, partner@).outcome,
            final(env)@ == after(old(env)@, remove_redeemer_step(old(env)@, partner@)),
    {
        let campaign = storage::get_campaign(env).ok();
        let step = rules::remove_redeemer(&campaign, &partner);
        storage::perform_all(env, &step.actions);
        step.outcome
    }

    /// Moves the campaign's expiration time (the admin's operation).
    pub fn extend_expiration(env: &mut Ledger, new_expiration_time: u64) -> (result: Result<(), Error>)
        requires
            old(env).wf(),
        ensures
            final(env).wf(),
            result == extend_expiration_step(old(env)@, new_expiration_time).outcome,
            final(env)@ == after(old(env)@, extend_expiration_step(old(env)@, new_expiration_time)),
    {
        let campaign = storage::get_campaign(env).ok();
        let step = rules::extend_expiration(&campaign, new_expiration_time);
        storage::perform_all(env, &step.actions);
        step.outcome
    }

    /// Pauses or resumes the campaign (the admin's operation).
    pub fn set_paused(env: &mut Ledger, paused: bool) -> (result: Result<(), Error>)
        requires
            old(env).wf(),
        ensures
            final(env).wf(),
            result == set_paused_step(old(env)@, paused).outcome,
            final(env)@ == after(old(env)@, set_paused_step(old(env)@, paused)),
    {
        let campaign = storage::get_campaign(env).ok();
        let step = rules::set_paused(&campaign, paused);
        storage::perform_all(env, &step.actions);
        step.outcome
    }

    /// Puts a user on the eligibility list (the admin's operation).
    pub fn add_eligible_user(env: &mut Ledger, user: Account) -> (result: Result<(), Error>)
        requires
            old(env).wf(),
        ensures
            final(env).wf(),
            result == add_eligible_user_step(old(env)@, user@).outcome,
            final(env)@ == after(old(env)@, add_eligible_user_step(old(env)@, user@)),
    {
        let campaign = storage::get_campaign(env).ok();
        let step = rules::add_eligible_user(&campaign, &user);
        storage::perform_all(env, &step.actions);
        step.outcome
    }

    /// Puts each user of the list on the eligibility list (the admin's operation).
    pub fn add_eligible_users(env: &mut Ledger, users: Vec<Account>) -> (result: Result<(), Error>)
        requires
            old(env).wf(),
        ensures
            final(env).wf(),
            result == add_eligible_users_step(old(env)@, accounts_view(users@)).outcome,
            final(env)@ == after(old(env)@, add_eligible_users_step(old(env)@, accounts_view(users@))),
    {
        let campaign = storage::get_campaign(env).ok();
        let step = rules::add_eligible_users(&campaign, &users);
        storage::perform_all(env, &step.actions);
        step.outcome
    }

    /// Takes a user off the eligibility list (the admin's operation).
    pub fn remove_eligible_user(env: &mut Ledger, user: Account) -> (result: Result<(), Error>)
        requires
            old(env).wf(),
        ensures
            final(env).wf(),
            result == remove_eligible_user_step(old(env)@, user@).outcome,
            final(env)@ == after(old(env)@, remove_eligible_user_step(old(env)@, user@)),
    {
        let campaign = storage::get_campaign(env).ok();
        let step = rules::remove_eligible_user(&campaign, &user);
        storage::perform_all(env, &step.actions);
        step.outcome
    }

    /// Claims the next coupon for the user; answers its number.
    pub fn claim(env: &mut Ledger, user: Account) -> (result: Result<u32, Error>)
        requires
            old(env).wf(),
        ensures
            final(env).wf(),
            result == claim_step(old(env)@, user@).outcome,
            final(env)@ == after(old(env)@, claim_step(old(env)@, user@)),
    {
        let campaign = storage::get_campaign(env).ok();
        let eligible = storage::is_eligible_user(env, &user);
        let step = rules::claim(&campaign, &user, eligible, env.timestamp());
        storage::perform_all(env, &step.actions);
        step.outcome
    }

    /// Redeems the user's coupon at the partner; answers whether it was redeemed
    /// or had expired.
    pub fn redeem(
        env: &mut Ledger,
        user: Account,
        coupon_id: u32,
        redemption_partner: Account,
    ) -> (result: Result<RedemptionStatus, Error>)
        requires
            old(env).wf(),
        ensures
            final(env).wf(),
            result == redeem_step(old(env)@, user@, coupon_id, redemption_partner@).outcome,
            final(env)@ == after(
                old(env)@,
                redeem_step(old(env)@, user@, coupon_id, redemption_partner@),
            ),
    {
        let campaign = storage::get_campaign(env).ok();
        let coupon = storage::get_coupon(env, coupon_id);
        let partner_authorized = storage::is_redeemer(env, &redemption_partner);
        let step = rules::redeem(
            &campaign,
            &coupon,
            &user,
            coupon_id,
            &redemption_partner,
            partner_authorized,
            env.timestamp(),
        );
        storage::perform_all(env, &step.actions);
        step.outcome
    }

    /// Burns a coupon (the admin's operation).
    pub fn burn(env: &mut Ledger, coupon_id: u32) -> (result: Result<(), Error>)
        requires
            old(env).wf(),
        ensures
            final(env).wf(),
            result == burn_step(old(env)@, coupon_id).outcome,
            final(env)@ == after(old(env)@, burn_step(old(env)@, coupon_id)),
    {
        let campaign = storage::get_campaign(env).ok();
        let coupon = storage::get_coupon(env, coupon_id);
        let step = rules::burn(&campaign, &coupon, coupon_id);
        storage::perform_all(env, &step.actions);
        step.outcome
    }

    /// The coupon stored under the number, if any.
    pub fn get_coupon(env: &Ledger, coupon_id: u32) -> (coupon: Option<Coupon>)
        requires
            env.wf(),
        ensures
            coupon_view(coupon) == coupon_at(env@.coupons, coupon_id),
            coupon is Some <==> env@.coupons.contains_key(coupon_id),
            coupon matches Some(c) ==> c@ == env@.coupons[coupon_id],
            coupon matches Some(c) ==> c.id == env@.coupons[coupon_id].id,
            coupon matches Some(c) ==> c.campaign_id == env@.coupons[coupon_id].campaign_id,
            coupon matches Some(c) ==> c.status == env@.coupons[coupon_id].status,
    {
        storage::get_coupon(env, coupon_id)
    }

    /// The campaign, if one was set up.
    pub fn get_campaign_info(env: &Ledger) -> (campaign: Option<Campaign>)
        ensures
            campaign_view(campaign) == env@.campaign,
    {
        storage::get_campaign(env).ok()
    }

    /// Whether the partner may redeem coupons.
    pub fn is_redeemer(env: &Ledger, partner: Account) -> (authorized: bool)
        requires
            env.wf(),
        ensures
            authorized == env@.redeemers.contains(partner@),
    {
        storage::is_redeemer(env, &partner)
    }

    /// The numbers of the coupons the user claimed, in the order claimed.
    pub fn get_claimed_coupons(env: &Ledger, user: Account) -> (ids: Vec<u32>)
        requires
            env.wf(),
        ensures
            ids@ == claims_of(env@.claimed, user@),
    {
        storage::get_claimed_coupons(env, &user)
    }

    /// Whether the user is on the eligibility list.
    pub fn is_eligible(env: &Ledger, user: Account) -> (eligible: bool)
        requires
            env.wf(),
        ensures
            eligible == env@.eligible.contains(user@),
    {
        storage::is_eligible_user(env, &user)
    }
}

} // verus!
