//! The contract's ledger state and the reads and writes the contract makes on it.
//!
//! A [`Ledger`] holds everything the contract keeps between calls: the campaign,
//! the coupons in circulation, each user's claimed coupons, the authorized
//! redemption partners and the eligible users; beside them the events published
//! so far and the ledger's clock. Every write the contract can make is an
//! [`Action`], and [`apply_action`] says what each one does to the state.

use vstd::prelude::*;

use crate::tables::{claims_of, AccountSet, ClaimBook, CouponTable};
use crate::types::{
    Account, Campaign, CampaignView, Coupon, CouponView, Error, Event, EventView, campaign_view,
};

verus! {

/// The state of the contract's ledger, as mathematical values.
pub struct LedgerView {
    pub campaign: Option<CampaignView>,
    pub coupons: Map<u32, CouponView>,
    pub claimed: Map<Seq<u8>, Seq<u32>>,
    pub redeemers: Set<Seq<u8>>,
    pub eligible: Set<Seq<u8>>,
    pub events: Seq<EventView>,
    pub timestamp: u64,
}

/// A ledger on which nothing has happened yet, at the given time.
pub open spec fn fresh_ledger(timestamp: u64) -> LedgerView {
    LedgerView {
        campaign: None,
        coupons: Map::empty(),
        claimed: Map::empty(),
        redeemers: Set::empty(),
        eligible: Set::empty(),
        events: Seq::empty(),
        timestamp,
    }
}

/// A write the contract makes on the ledger.
pub enum Action {
    /// Stores the campaign.
    SetCampaign(Campaign),
    /// Stores a coupon under its number.
    SetCoupon(u32, Coupon),
    /// Deletes the coupon stored under the number, if any.
    RemoveCoupon(u32),
    /// Adds a coupon number at the end of a user's claimed coupons.
    AddClaimedCoupon(Account, u32),
    /// Authorizes a partner to redeem coupons.
    SetRedeemer(Account),
    /// Withdraws a partner's authorization.
    RemoveRedeemer(Account),
    /// Puts a user on the eligibility list.
    SetEligibleUser(Account),
    /// Takes a user off the eligibility list.
    RemoveEligibleUser(Account),
    /// Publishes an event.
    Publish(Event),
}

/// A write, as mathematical values.
pub enum ActionView {
    SetCampaign(CampaignView),
    SetCoupon(u32, CouponView),
    RemoveCoupon(u32),
    AddClaimedCoupon(Seq<u8>, u32),
    SetRedeemer(Seq<u8>),
    RemoveRedeemer(Seq<u8>),
    SetEligibleUser(Seq<u8>),
    RemoveEligibleUser(Seq<u8>),
    Publish(EventView),
}

impl View for Action {
    type V = ActionView;

    open spec fn view(&self) -> ActionView {
        match self {
            Action::SetCampaign(c) => ActionView::SetCampaign(c@),
            Action::SetCoupon(id, c) => ActionView::SetCoupon(*id, c@),
            Action::RemoveCoupon(id) => ActionView::RemoveCoupon(*id),
            Action::AddClaimedCoupon(a, id) => ActionView::AddClaimedCoupon(a@, *id),
            Action::SetRedeemer(a) => ActionView::SetRedeemer(a@),
            Action::RemoveRedeemer(a) => ActionView::RemoveRedeemer(a@),
            Action::SetEligibleUser(a) => ActionView::SetEligibleUser(a@),
            Action::RemoveEligibleUser(a) => ActionView::RemoveEligibleUser(a@),
            Action::Publish(e) => ActionView::Publish(e@),
        }
    }
}

/// The writes in a list, as mathematical values.
pub open spec fn actions_view(actions: Seq<Action>) -> Seq<ActionView> {
    actions.map_values(|a: Action| a@)
}

/// What one write does to the ledger.
pub open spec fn apply_action(s: LedgerView, a: ActionView) -> LedgerView {
    match a {
        ActionView::SetCampaign(c) => LedgerView { campaign: Some(c), ..s },
        ActionView::SetCoupon(id, c) => LedgerView { coupons: s.coupons.insert(id, c), ..s },
        ActionView::RemoveCoupon(id) => LedgerView { coupons: s.coupons.remove(id), ..s },
        ActionView::AddClaimedCoupon(user, id) => LedgerView {
            claimed: s.claimed.insert(user, claims_of(s.claimed, user).push(id)),
            ..s
        },
        ActionView::SetRedeemer(p) => LedgerView { redeemers: s.redeemers.insert(p), ..s },
        ActionView::RemoveRedeemer(p) => LedgerView { redeemers: s.redeemers.remove(p), ..s },
        ActionView::SetEligibleUser(u) => LedgerView { eligible: s.eligible.insert(u), ..s },
        ActionView::RemoveEligibleUser(u) => LedgerView { eligible: s.eligible.remove(u), ..s },
        ActionView::Publish(e) => LedgerView { events: s.events.push(e), ..s },
    }
}

/// What a list of writes, made in order, does to the ledger.
pub open spec fn apply_actions(s: LedgerView, actions: Seq<ActionView>) -> LedgerView
    decreases actions.len(),
{
    if actions.len() == 0 {
        s
    } else {
        apply_action(apply_actions(s, actions.drop_last()), actions.last())
    }
}

/// The contract's ledger state.
pub struct Ledger {
    campaign: Option<Campaign>,
    coupons: CouponTable,
    claimed: ClaimBook,
    redeemers: AccountSet,
    eligible: AccountSet,
    events: Vec<Event>,
    timestamp: u64,
}

impl View for Ledger {
    type V = LedgerView;

    closed spec fn view(&self) -> LedgerView {
        LedgerView {
            campaign: campaign_view(self.campaign),
            coupons: self.coupons@,
            claimed: self.claimed@,
            redeemers: self.redeemers@,
            eligible: self.eligible@,
            events: self.events@.map_values(|e: Event| e@),
            timestamp: self.timestamp,
        }
    }
}

impl Ledger {
    /// The collections that hold the records are well formed.
    pub closed spec fn wf(&self) -> bool {
        &&& self.coupons.wf()
        &&& self.claimed.wf()
        &&& self.redeemers.wf()
        &&& self.eligible.wf()
    }

    /// A ledger on which nothing has happened yet, at time zero.
    pub fn new() -> (env: Ledger)
        ensures
            env.wf(),
            env@ == fresh_ledger(0),
    {
        let env = Ledger {
            campaign: None,
            coupons: CouponTable::new(),
            claimed: ClaimBook::new(),
            redeemers: AccountSet::new(),
            eligible: AccountSet::new(),
            events: Vec::new(),
            timestamp: 0,
        };
        assert(env@.events =~= Seq::<EventView>::empty());
        env
    }

    /// The ledger's clock: Unix time, in seconds.
    pub fn timestamp(&self) -> (t: u64)
        ensures
            t == self@.timestamp,
    {
        self.timestamp
    }

    /// Moves the ledger's clock to the given time.
    pub fn set_timestamp(&mut self, t: u64)
        requires
            old(self).wf(),
        ensures
            final(self).wf(),
            final(self)@ == (LedgerView { timestamp: t, ..old(self)@ }),
    {
        self.timestamp = t;
    }

    /// The events published so far, oldest first.
    pub fn events(&self) -> (events: &[Event])
        ensures
            events@.map_values(|e: Event| e@) == self@.events,
    {
        self.events.as_slice()
    }
}

/// The campaign, or `NotInitialized` when none was set up.
pub fn get_campaign(env: &Ledger) -> (campaign: Result<Campaign, Error>)
    ensures
        match campaign {
            Ok(c) => env@.campaign == Some(c@),
            Err(e) => env@.campaign is None && e == Error::NotInitialized,
        },
{
    match &env.campaign {
        Some(c) => Ok(c.duplicate()),
        None => Err(Error::NotInitialized),
    }
}

/// Stores the campaign.
pub fn set_campaign(env: &mut Ledger, campaign: &Campaign)
    requires
        old(env).wf(),
    ensures
        final(env).wf(),
        final(env)@ == apply_action(old(env)@, ActionView::SetCampaign(campaign@)),
{
    env.campaign = Some(campaign.duplicate());
}

/// The coupon stored under the number, if any.
pub fn get_coupon(env: &Ledger, coupon_id: u32) -> (coupon: Option<Coupon>)
    requires
        env.wf(),
    ensures
        coupon is Some <==> env@.coupons.contains_key(coupon_id),
        coupon matches Some(c) ==> c@ == env@.coupons[coupon_id],
{
    env.coupons.get(coupon_id)
}

/// Stores the coupon under the number.
pub fn set_coupon(env: &mut Ledger, coupon_id: u32, coupon: &Coupon)
    requires
        old(env).wf(),
    ensures
        final(env).wf(),
        final(env)@ == apply_action(old(env)@, ActionView::SetCoupon(coupon_id, coupon@)),
{
    env.coupons.set(coupon_id, coupon.duplicate());
}

/// Deletes the coupon stored under the number, if there is one.
pub fn remove_coupon(env: &mut Ledger, coupon_id: u32)
    requires
        old(env).wf(),
    ensures
        final(env).wf(),
        final(env)@ == apply_action(old(env)@, ActionView::RemoveCoupon(coupon_id)),
{
    env.coupons.remove(coupon_id);
}

/// The numbers of the coupons the user claimed, in the order claimed.
pub fn get_claimed_coupons(env: &Ledger, user: &Account) -> (ids: Vec<u32>)
    requires
        env.wf(),
    ensures
        ids@ == claims_of(env@.claimed, user@),
{
    env.claimed.get(user)
}

/// Adds a coupon number at the end of the user's claimed coupons.
pub fn add_claimed_coupon(env: &mut Ledger, user: &Account, coupon_id: u32)
    requires
        old(env).wf(),
    ensures
        final(env).wf(),
        final(env)@ == apply_action(old(env)@, ActionView::AddClaimedCoupon(user@, coupon_id)),
{
    env.claimed.append(user, coupon_id);
}

/// Whether the partner may redeem coupons.
pub fn is_redeemer(env: &Ledger, partner: &Account) -> (authorized: bool)
    requires
        env.wf(),
    ensures
        authorized == env@.redeemers.contains(partner@),
{
    env.redeemers.contains(partner)
}

/// Authorizes the partner to redeem coupons.
pub fn set_redeemer(env: &mut Ledger, partner: &Account)
    requires
        old(env).wf(),
    ensures
        final(env).wf(),
        final(env)@ == apply_action(old(env)@, ActionView::SetRedeemer(partner@)),
{
    env.redeemers.insert(partner);
}

/// Withdraws the partner's authorization, if it had one.
pub fn remove_redeemer(env: &mut Ledger, partner: &Account)
    requires
        old(env).wf(),
    ensures
        final(env).wf(),
        final(env)@ == apply_action(old(env)@, ActionView::RemoveRedeemer(partner@)),
{
    env.redeemers.remove(partner);
}

/// Whether the user is on the eligibility list.
pub fn is_eligible_user(env: &Ledger, user: &Account) -> (eligible: bool)
    requires
        env.wf(),
    ensures
        eligible == env@.eligible.contains(user@),
{
    env.eligible.contains(user)
}

/// Puts the user on the eligibility list.
pub fn set_eligible_user(env: &mut Ledger, user: &Account)
    requires
        old(env).wf(),
    ensures
        final(env).wf(),
        final(env)@ == apply_action(old(env)@, ActionView::SetEligibleUser(user@)),
{
    env.eligible.insert(user);
}

/// Takes the user off the eligibility list, if it was on it.
pub fn remove_eligible_user(env: &mut Ledger, user: &Account)
    requires
        old(env).wf(),
    ensures
        final(env).wf(),
        final(env)@ == apply_action(old(env)@, ActionView::RemoveEligibleUser(user@)),
{
    env.eligible.remove(user);
}

/// Publishes the event.
pub fn publish(env: &mut Ledger, event: &Event)
    requires
        old(env).wf(),
    ensures
        final(env).wf(),
        final(env)@ == apply_action(old(env)@, ActionView::Publish(event@)),
{
    let ghost before = env.events@;
    env.events.push(event.duplicate());
    assert(env.events@.map_values(|e: Event| e@) =~= before.map_values(|e: Event| e@).push(event@));
}

/// Makes one write.
pub fn perform(env: &mut Ledger, action: &Action)
    requires
        old(env).wf(),
    ensures
        final(env).wf(),
        final(env)@ == apply_action(old(env)@, action@),
{
    match action {
        Action::SetCampaign(c) => set_campaign(env, c),
        Action::SetCoupon(id, c) => set_coupon(env, *id, c),
        Action::RemoveCoupon(id) => remove_coupon(env, *id),
        Action::AddClaimedCoupon(user, id) => add_claimed_coupon(env, user, *id),
        Action::SetRedeemer(p) => set_redeemer(env, p),
        Action::RemoveRedeemer(p) => remove_redeemer(env, p),
        Action::SetEligibleUser(u) => set_eligible_user(env, u),
        Action::RemoveEligibleUser(u) => remove_eligible_user(env, u),
        Action::Publish(e) => publish(env, e),
    }
}

/// Makes the writes, in order.
pub fn perform_all(env: &mut Ledger, actions: &Vec<Action>)
    requires
        old(env).wf(),
    ensures
        final(env).wf(),
        final(env)@ == apply_actions(old(env)@, actions_view(actions@)),
{
    let ghost start = env@;
    let mut i: usize = 0;
    while i < actions.len()
        invariant
            i <= actions@.len(),
            env.wf(),
            env@ == apply_actions(start, actions_view(actions@).take(i as int)),
        decreases actions@.len() - i,
    {
        perform(env, &actions[i]);
        proof {
            let done = actions_view(actions@).take(i + 1);
            assert(done.drop_last() =~= actions_view(actions@).take(i as int));
        }
        i = i + 1;
    }
    assert(actions_view(actions@).take(actions@.len() as int) =~= actions_view(actions@));
}

} // verus!
