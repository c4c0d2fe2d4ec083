//! The contract's rules: for each entry point, from what the call reads on the
//! ledger, whose authorization it needs, what it answers and which writes it makes.
//!
//! A refused request makes no write. Each rule is a function of plain values, so
//! the same decision serves the in-memory [`crate::storage::Ledger`] and a host
//! that keeps the ledger elsewhere.

use vstd::prelude::*;

use crate::storage::{Action, ActionView, actions_view};
use crate::types::{
    Account, Campaign, CampaignView, Coupon, CouponStatus, CouponView, Error, Event, EventView,
    RedemptionStatus, account_view, campaign_view, coupon_view,
};

verus! {

/// The decision taken on one call.
pub struct Step<T> {
    /// The account whose authorization the call needs, if any.
    pub authorizer: Option<Account>,
    /// What the call answers.
    pub outcome: Result<T, Error>,
    /// The writes the call makes, in order; none when it is refused.
    pub actions: Vec<Action>,
}

/// A decision, as mathematical values.
pub struct StepView<T> {
    pub authorizer: Option<Seq<u8>>,
    pub outcome: Result<T, Error>,
    pub actions: Seq<ActionView>,
}

impl<T> View for Step<T> {
    type V = StepView<T>;

    open spec fn view(&self) -> StepView<T> {
        StepView {
            authorizer: account_view(self.authorizer),
            outcome: self.outcome,
            actions: actions_view(self.actions@),
        }
    }
}

/// A refusal: the error, and no write.
pub open spec fn refused<T>(authorizer: Option<Seq<u8>>, e: Error) -> StepView<T> {
    StepView { authorizer, outcome: Err(e), actions: Seq::empty() }
}

/// An acceptance: the answer, and the writes.
pub open spec fn accepted<T>(
    authorizer: Option<Seq<u8>>,
    answer: T,
    actions: Seq<ActionView>,
) -> StepView<T> {
    StepView { authorizer, outcome: Ok(answer), actions }
}

fn refuse<T>(authorizer: Option<Account>, e: Error) -> (step: Step<T>)
    ensures
        step@ == refused::<T>(account_view(authorizer), e),
{
    let step = Step { authorizer, outcome: Err(e), actions: Vec::new() };
    assert(step@.actions =~= Seq::<ActionView>::empty());
    step
}

/// The campaign that `initialize` sets up.
pub open spec fn new_campaign(
    admin: Seq<u8>,
    campaign_id: u32,
    max_supply: u32,
    expiration_time: u64,
    metadata_uri: Seq<u8>,
) -> CampaignView {
    CampaignView {
        id: campaign_id,
        admin,
        max_supply,
        current_supply: 0,
        expiration_time,
        metadata_uri,
        is_paused: false,
    }
}

/// The writes that authorize each partner of the list, in order.
pub open spec fn authorize_all(partners: Seq<Seq<u8>>) -> Seq<ActionView> {
    partners.map_values(|p: Seq<u8>| ActionView::SetRedeemer(p))
}

/// The writes that put each user of the list on the eligibility list, in order.
pub open spec fn make_all_eligible(users: Seq<Seq<u8>>) -> Seq<ActionView> {
    users.map_values(|u: Seq<u8>| ActionView::SetEligibleUser(u))
}

/// The addresses of a list of accounts.
pub open spec fn accounts_view(accounts: Seq<Account>) -> Seq<Seq<u8>> {
    accounts.map_values(|a: Account| a@)
}

/// Setting up the campaign: refused once a campaign exists; otherwise stores the
/// campaign with nothing issued and not paused, authorizes each partner given,
/// and announces the campaign. No authorization is needed.
pub open spec fn initialize_rule(
    initialized: bool,
    admin: Seq<u8>,
    campaign_id: u32,
    max_supply: u32,
    expiration_time: u64,
    metadata_uri: Seq<u8>,
    authorized_redeemers: Seq<Seq<u8>>,
) -> StepView<()> {
    if initialized {
        refused(None, Error::AlreadyInitialized)
    } else {
        accepted(
            None,
            (),
            seq![ActionView::SetCampaign(new_campaign(admin, campaign_id, max_supply, expiration_time, metadata_uri))]
                + authorize_all(authorized_redeemers)
                + seq![ActionView::Publish(EventView::Initialized { campaign_id, admin })],
        )
    }
}

/// An operation of the admin: refused when no campaign exists; otherwise needs
/// the admin's authorization and makes the writes.
pub open spec fn admin_rule(campaign: Option<CampaignView>, actions: Seq<ActionView>) -> StepView<()> {
    match campaign {
        None => refused(None, Error::NotInitialized),
        Some(c) => accepted(Some(c.admin), (), actions),
    }
}

/// The campaign with a new expiration time.
pub open spec fn with_expiration(c: CampaignView, t: u64) -> CampaignView {
    CampaignView { expiration_time: t, ..c }
}

/// The campaign paused or resumed.
pub open spec fn with_paused(c: CampaignView, paused: bool) -> CampaignView {
    CampaignView { is_paused: paused, ..c }
}

/// Moving the expiration time: an operation of the admin that stores the
/// campaign with the new expiration time.
pub open spec fn extend_expiration_rule(campaign: Option<CampaignView>, t: u64) -> StepView<()> {
    match campaign {
        None => refused(None, Error::NotInitialized),
        Some(c) => accepted(Some(c.admin), (), seq![ActionView::SetCampaign(with_expiration(c, t))]),
    }
}

/// Pausing or resuming: an operation of the admin that stores the campaign
/// paused or resumed.
pub open spec fn set_paused_rule(campaign: Option<CampaignView>, paused: bool) -> StepView<()> {
    match campaign {
        None => refused(None, Error::NotInitialized),
        Some(c) => accepted(Some(c.admin), (), seq![ActionView::SetCampaign(with_paused(c, paused))]),
    }
}

/// The campaign with one more coupon issued.
pub open spec fn with_one_more_issued(c: CampaignView) -> CampaignView {
    CampaignView { current_supply: (c.current_supply + 1) as u32, ..c }
}

/// The coupon that a user receives on a claim.
pub open spec fn claimed_coupon(id: u32, campaign_id: u32, user: Seq<u8>) -> CouponView {
    CouponView {
        id,
        campaign_id,
        owner_wallet: Some(user),
        status: CouponStatus::Claimed,
        next_coupons: None,
        previous_coupons: None,
        unlock_conditions: None,
    }
}

/// Claiming a coupon: needs the user's authorization. Refused, in this order of
/// checks, when there is no campaign, the user is not eligible, the campaign is
/// paused, the time has reached the expiration time, or the whole supply was
/// issued. Otherwise issues the next number, stores the coupon under it as the
/// user's claimed coupon, lists it among the user's claims, counts it in the
/// campaign and announces it.
pub open spec fn claim_rule(
    campaign: Option<CampaignView>,
    user: Seq<u8>,
    eligible: bool,
    now: u64,
) -> StepView<u32> {
    match campaign {
        None => refused(Some(user), Error::NotInitialized),
        Some(c) => if !eligible {
            refused(Some(user), Error::UserNotEligible)
        } else if c.is_paused {
            refused(Some(user), Error::CampaignPaused)
        } else if now >= c.expiration_time {
            refused(Some(user), Error::CampaignExpired)
        } else if c.current_supply >= c.max_supply {
            refused(Some(user), Error::MaxSupplyReached)
        } else {
            let id = (c.current_supply + 1) as u32;
            accepted(
                Some(user),
                id,
                seq![
                    ActionView::SetCoupon(id, claimed_coupon(id, c.id, user)),
                    ActionView::AddClaimedCoupon(user, id),
                    ActionView::SetCampaign(with_one_more_issued(c)),
                    ActionView::Publish(EventView::Claimed { user, coupon_id: id, campaign_id: c.id }),
                ],
            )
        },
    }
}

/// Redeeming a coupon at a partner: needs the partner's authorization. Refused,
/// in this order of checks, when there is no campaign, the campaign is paused,
/// no coupon has the number, or the coupon is not the user's. Once the time has
/// reached the expiration time the coupon is burned and the answer is `Expired`.
/// Otherwise refused when the coupon is not in the claimed state or the partner
/// is not authorized; else the redemption is announced, the coupon burned and
/// the answer is `Redeemed`.
pub open spec fn redeem_rule(
    campaign: Option<CampaignView>,
    coupon: Option<CouponView>,
    user: Seq<u8>,
    coupon_id: u32,
    partner: Seq<u8>,
    partner_authorized: bool,
    now: u64,
) -> StepView<RedemptionStatus> {
    match campaign {
        None => refused(Some(partner), Error::NotInitialized),
        Some(c) => if c.is_paused {
            refused(Some(partner), Error::CampaignPaused)
        } else {
            match coupon {
                None => refused(Some(partner), Error::InvalidCouponStatus),
                Some(cp) => if cp.owner_wallet != Some(user) {
                    refused(Some(partner), Error::NotCouponOwner)
                } else if now >= c.expiration_time {
                    accepted(
                        Some(partner),
                        RedemptionStatus::Expired,
                        seq![
                            ActionView::Publish(EventView::Expired { user, coupon_id, campaign_id: c.id }),
                            ActionView::RemoveCoupon(coupon_id),
                            ActionView::Publish(EventView::Burned { owner: user, coupon_id, campaign_id: c.id }),
                        ],
                    )
                } else if cp.status != CouponStatus::Claimed {
                    refused(Some(partner), Error::InvalidCouponStatus)
                } else if !partner_authorized {
                    refused(Some(partner), Error::NotAuthorizedRedeemer)
                } else {
                    accepted(
                        Some(partner),
                        RedemptionStatus::Redeemed,
                        seq![
                            ActionView::Publish(EventView::Redeemed { user, coupon_id, partner, campaign_id: c.id }),
                            ActionView::RemoveCoupon(coupon_id),
                            ActionView::Publish(EventView::Burned { owner: user, coupon_id, campaign_id: c.id }),
                        ],
                    )
                },
            }
        },
    }
}

/// The account a burned coupon is announced for: its owner, or else the admin.
pub open spec fn burn_owner(cp: CouponView, admin: Seq<u8>) -> Seq<u8> {
    match cp.owner_wallet {
        Some(o) => o,
        None => admin,
    }
}

/// Burning a coupon: refused when there is no campaign; otherwise needs the
/// admin's authorization, and is refused when no coupon has the number; else
/// deletes the coupon and announces it for its owner (or the admin).
pub open spec fn burn_rule(
    campaign: Option<CampaignView>,
    coupon: Option<CouponView>,
    coupon_id: u32,
) -> StepView<()> {
    match campaign {
        None => refused(None, Error::NotInitialized),
        Some(c) => match coupon {
            None => refused(Some(c.admin), Error::InvalidCouponStatus),
            Some(cp) => accepted(
                Some(c.admin),
                (),
                seq![
                    ActionView::RemoveCoupon(coupon_id),
                    ActionView::Publish(EventView::Burned { owner: burn_owner(cp, c.admin), coupon_id, campaign_id: c.id }),
                ],
            ),
        },
    }
}

/// Decides `initialize`, given whether a campaign is already stored.
pub fn initialize(
    initialized: bool,
    admin: &Account,
    campaign_id: u32,
    max_supply: u32,
    expiration_time: u64,
    metadata_uri: &Vec<u8>,
    authorized_redeemers: &Vec<Account>,
) -> (step: Step<()>)
    ensures
        step@ == initialize_rule(
            initialized,
            admin@,
            campaign_id,
            max_supply,
            expiration_time,
            metadata_uri@,
            accounts_view(authorized_redeemers@),
        ),
{
    if initialized {
        return refuse(None, Error::AlreadyInitialized);
    }
    let uri = metadata_uri.clone();
    assert(uri@ =~= metadata_uri@);
    let campaign = Campaign {
        id: campaign_id,
        admin: admin.duplicate(),
        max_supply,
        current_supply: 0,
        expiration_time,
        metadata_uri: uri,
        is_paused: false,
    };
    let mut actions: Vec<Action> = Vec::new();
    actions.push(Action::SetCampaign(campaign));
    let ghost first = seq![
        ActionView::SetCampaign(new_campaign(admin@, campaign_id, max_supply, expiration_time, metadata_uri@)),
    ];
    assert(actions_view(actions@) =~= first);
    let mut i: usize = 0;
    while i < authorized_redeemers.len()
        invariant
            i <= authorized_redeemers@.len(),
            actions_view(actions@) == first + authorize_all(
                accounts_view(authorized_redeemers@).take(i as int),
            ),
        decreases authorized_redeemers@.len() - i,
    {
        let ghost before = actions_view(actions@);
        actions.push(Action::SetRedeemer(authorized_redeemers[i].duplicate()));
        proof {
            let rs = accounts_view(authorized_redeemers@);
            assert(authorize_all(rs.take(i + 1)) =~= authorize_all(rs.take(i as int)).push(
                ActionView::SetRedeemer(rs[i as int]),
            ));
            assert(actions_view(actions@) =~= before.push(ActionView::SetRedeemer(rs[i as int])));
        }
        i = i + 1;
    }
    let ghost middle = actions_view(actions@);
    actions.push(Action::Publish(Event::Initialized { campaign_id, admin: admin.duplicate() }));
    proof {
        let rs = accounts_view(authorized_redeemers@);
        assert(rs.take(rs.len() as int) =~= rs);
        assert(actions_view(actions@) =~= middle.push(
            ActionView::Publish(EventView::Initialized { campaign_id, admin: admin@ }),
        ));
        assert(actions_view(actions@) =~= first + authorize_all(rs) + seq![
            ActionView::Publish(EventView::Initialized { campaign_id, admin: admin@ }),
        ]);
    }
    Step { authorizer: None, outcome: Ok(()), actions }
}

fn admin_step(campaign: &Option<Campaign>, actions: Vec<Action>) -> (step: Step<()>)
    ensures
        step@ == admin_rule(campaign_view(*campaign), actions_view(actions@)),
{
    match campaign {
        None => refuse(None, Error::NotInitialized),
        Some(c) => Step { authorizer: Some(c.admin.duplicate()), outcome: Ok(()), actions },
    }
}

fn single(action: Action) -> (actions: Vec<Action>)
    ensures
        actions_view(actions@) == seq![action@],
{
    let mut actions: Vec<Action> = Vec::new();
    let ghost a = action@;
    actions.push(action);
    assert(actions_view(actions@) =~= seq![a]);
    actions
}

/// Decides `add_redeemer`, given the stored campaign.
pub fn add_redeemer(campaign: &Option<Campaign>, partner: &Account) -> (step: Step<()>)
    ensures
        step@ == admin_rule(campaign_view(*campaign), seq![ActionView::SetRedeemer(partner@)]),
{
    admin_step(campaign, single(Action::SetRedeemer(partner.duplicate())))
}

/// Decides `remove_redeemer`, given the stored campaign.
pub fn remove_redeemer(campaign: &Option<Campaign>, partner: &Account) -> (step: Step<()>)
    ensures
        step@ == admin_rule(campaign_view(*campaign), seq![ActionView::RemoveRedeemer(partner@)]),
{
    admin_step(campaign, single(Action::RemoveRedeemer(partner.duplicate())))
}

/// Decides `add_eligible_user`, given the stored campaign.
pub fn add_eligible_user(campaign: &Option<Campaign>, user: &Account) -> (step: Step<()>)
    ensures
        step@ == admin_rule(campaign_view(*campaign), seq![ActionView::SetEligibleUser(user@)]),
{
    admin_step(campaign, single(Action::SetEligibleUser(user.duplicate())))
}

/// Decides `remove_eligible_user`, given the stored campaign.
pub fn remove_eligible_user(campaign: &Option<Campaign>, user: &Account) -> (step: Step<()>)
    ensures
        step@ == admin_rule(campaign_view(*campaign), seq![ActionView::RemoveEligibleUser(user@)]),
{
    admin_step(campaign, single(Action::RemoveEligibleUser(user.duplicate())))
}

/// Decides `add_eligible_users`, given the stored campaign.
pub fn add_eligible_users(campaign: &Option<Campaign>, users: &Vec<Account>) -> (step: Step<()>)
    ensures
        step@ == admin_rule(campaign_view(*campaign), make_all_eligible(accounts_view(users@))),
{
    let mut actions: Vec<Action> = Vec::new();
    let mut i: usize = 0;
    while i < users.len()
        invariant
            i <= users@.len(),
            actions_view(actions@) == make_all_eligible(accounts_view(users@).take(i as int)),
        decreases users@.len() - i,
    {
        let ghost before = actions_view(actions@);
        actions.push(Action::SetEligibleUser(users[i].duplicate()));
        proof {
            let us = accounts_view(users@);
            assert(make_all_eligible(us.take(i + 1)) =~= make_all_eligible(us.take(i as int)).push(
                ActionView::SetEligibleUser(us[i as int]),
            ));
            assert(actions_view(actions@) =~= before.push(ActionView::SetEligibleUser(us[i as int])));
        }
        i = i + 1;
    }
    assert(accounts_view(users@).take(users@.len() as int) =~= accounts_view(users@));
    admin_step(campaign, actions)
}

/// Decides `extend_expiration`, given the stored campaign.
pub fn extend_expiration(campaign: &Option<Campaign>, new_expiration_time: u64) -> (step: Step<()>)
    ensures
        step@ == extend_expiration_rule(campaign_view(*campaign), new_expiration_time),
{
    match campaign {
        None => refuse(None, Error::NotInitialized),
        Some(c) => {
            let mut updated = c.duplicate();
            updated.expiration_time = new_expiration_time;
            Step {
                authorizer: Some(c.admin.duplicate()),
                outcome: Ok(()),
                actions: single(Action::SetCampaign(updated)),
            }
        },
    }
}

/// Decides `set_paused`, given the stored campaign.
pub fn set_paused(campaign: &Option<Campaign>, paused: bool) -> (step: Step<()>)
    ensures
        step@ == set_paused_rule(campaign_view(*campaign), paused),
{
    match campaign {
        None => refuse(None, Error::NotInitialized),
        Some(c) => {
            let mut updated = c.duplicate();
            updated.is_paused = paused;
            Step {
                authorizer: Some(c.admin.duplicate()),
                outcome: Ok(()),
                actions: single(Action::SetCampaign(updated)),
            }
        },
    }
}

/// Decides `claim`, given the stored campaign, whether the user is on the
/// eligibility list, and the ledger's time.
pub fn claim(campaign: &Option<Campaign>, user: &Account, eligible: bool, now: u64) -> (step: Step<u32>)
    ensures
        step@ == claim_rule(campaign_view(*campaign), user@, eligible, now),
{
    let c = match campaign {
        None => return refuse(Some(user.duplicate()), Error::NotInitialized),
        Some(c) => c,
    };
    if !eligible {
        return refuse(Some(user.duplicate()), Error::UserNotEligible);
    }
    if c.is_paused {
        return refuse(Some(user.duplicate()), Error::CampaignPaused);
    }
    if now >= c.expiration_time {
        return refuse(Some(user.duplicate()), Error::CampaignExpired);
    }
    if c.current_supply >= c.max_supply {
        return refuse(Some(user.duplicate()), Error::MaxSupplyReached);
    }
    let coupon_id = c.current_supply + 1;
    let mut updated = c.duplicate();
    updated.current_supply = coupon_id;
    let coupon = Coupon {
        id: coupon_id,
        campaign_id: c.id,
        owner_wallet: Some(user.duplicate()),
        status: CouponStatus::Claimed,
        next_coupons: None,
        previous_coupons: None,
        unlock_conditions: None,
    };
    let mut actions: Vec<Action> = Vec::new();
    actions.push(Action::SetCoupon(coupon_id, coupon));
    actions.push(Action::AddClaimedCoupon(user.duplicate(), coupon_id));
    actions.push(Action::SetCampaign(updated));
    actions.push(Action::Publish(Event::Claimed { user: user.duplicate(), coupon_id, campaign_id: c.id }));
    let step = Step { authorizer: Some(user.duplicate()), outcome: Ok(coupon_id), actions };
    proof {
        let cv = c@;
        assert(step@.actions =~= seq![
            ActionView::SetCoupon(coupon_id, claimed_coupon(coupon_id, cv.id, user@)),
            ActionView::AddClaimedCoupon(user@, coupon_id),
            ActionView::SetCampaign(with_one_more_issued(cv)),
            ActionView::Publish(EventView::Claimed { user: user@, coupon_id, campaign_id: cv.id }),
        ]);
    }
    step
}

/// Decides `redeem`, given the stored campaign, the coupon stored under the
/// number, whether the partner is authorized, and the ledger's time.
pub fn redeem(
    campaign: &Option<Campaign>,
    coupon: &Option<Coupon>,
    user: &Account,
    coupon_id: u32,
    redemption_partner: &Account,
    partner_authorized: bool,
    now: u64,
) -> (step: Step<RedemptionStatus>)
    ensures
        step@ == redeem_rule(
            campaign_view(*campaign),
            coupon_view(*coupon),
            user@,
            coupon_id,
            redemption_partner@,
            partner_authorized,
            now,
        ),
{
    let partner = redemption_partner;
    let c = match campaign {
        None => return refuse(Some(partner.duplicate()), Error::NotInitialized),
        Some(c) => c,
    };
    if c.is_paused {
        return refuse(Some(partner.duplicate()), Error::CampaignPaused);
    }
    let cp = match coupon {
        None => return refuse(Some(partner.duplicate()), Error::InvalidCouponStatus),
        Some(cp) => cp,
    };
    let owned = match &cp.owner_wallet {
        Some(o) => o.same_as(user),
        None => false,
    };
    if !owned {
        return refuse(Some(partner.duplicate()), Error::NotCouponOwner);
    }
    let mut actions: Vec<Action> = Vec::new();
    let answer;
    if now >= c.expiration_time {
        actions.push(Action::Publish(Event::Expired { user: user.duplicate(), coupon_id, campaign_id: c.id }));
        answer = RedemptionStatus::Expired;
    } else {
        if cp.status != CouponStatus::Claimed {
            return refuse(Some(partner.duplicate()), Error::InvalidCouponStatus);
        }
        if !partner_authorized {
            return refuse(Some(partner.duplicate()), Error::NotAuthorizedRedeemer);
        }
        actions.push(
            Action::Publish(
                Event::Redeemed {
                    user: user.duplicate(),
                    coupon_id,
                    partner: partner.duplicate(),
                    campaign_id: c.id,
                },
            ),
        );
        answer = RedemptionStatus::Redeemed;
    }
    actions.push(Action::RemoveCoupon(coupon_id));
    actions.push(Action::Publish(Event::Burned { owner: user.duplicate(), coupon_id, campaign_id: c.id }));
    let step = Step { authorizer: Some(partner.duplicate()), outcome: Ok(answer), actions };
    proof {
        let cv = c@;
        if now >= c.expiration_time {
            assert(step@.actions =~= seq![
                ActionView::Publish(EventView::Expired { user: user@, coupon_id, campaign_id: cv.id }),
                ActionView::RemoveCoupon(coupon_id),
                ActionView::Publish(EventView::Burned { owner: user@, coupon_id, campaign_id: cv.id }),
            ]);
        } else {
            assert(step@.actions =~= seq![
                ActionView::Publish(
                    EventView::Redeemed { user: user@, coupon_id, partner: partner@, campaign_id: cv.id },
                ),
                ActionView::RemoveCoupon(coupon_id),
                ActionView::Publish(EventView::Burned { owner: user@, coupon_id, campaign_id: cv.id }),
            ]);
        }
    }
    step
}

/// Decides `burn`, given the stored campaign and the coupon stored under the number.
pub fn burn(campaign: &Option<Campaign>, coupon: &Option<Coupon>, coupon_id: u32) -> (step: Step<()>)
    ensures
        step@ == burn_rule(campaign_view(*campaign), coupon_view(*coupon), coupon_id),
{
    let c = match campaign {
        None => return refuse(None, Error::NotInitialized),
        Some(c) => c,
    };
    let cp = match coupon {
        None => return refuse(Some(c.admin.duplicate()), Error::InvalidCouponStatus),
        Some(cp) => cp,
    };
    let owner = match &cp.owner_wallet {
        Some(o) => o.duplicate(),
        None => c.admin.duplicate(),
    };
    let mut actions: Vec<Action> = Vec::new();
    actions.push(Action::RemoveCoupon(coupon_id));
    actions.push(Action::Publish(Event::Burned { owner, coupon_id, campaign_id: c.id }));
    let step = Step { authorizer: Some(c.admin.duplicate()), outcome: Ok(()), actions };
    proof {
        let cv = c@;
        assert(step@.actions =~= seq![
            ActionView::RemoveCoupon(coupon_id),
            ActionView::Publish(
                EventView::Burned { owner: burn_owner(cp@, cv.admin), coupon_id, campaign_id: cv.id },
            ),
        ]);
    }
    step
}

} // verus!
