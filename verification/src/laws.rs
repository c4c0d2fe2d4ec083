//! What holds of the contract across calls, stated over the ledger's state and
//! the decisions of its entry points.

use vstd::prelude::*;

use crate::rules::{
    authorize_all, burn_owner, claimed_coupon, make_all_eligible, new_campaign, refused,
    with_expiration, with_one_more_issued, with_paused,
};
use crate::storage::{ActionView, LedgerView, apply_action, apply_actions};
use crate::tables::claims_of;
use crate::types::{CampaignView, CouponStatus, CouponView, Error, EventView, RedemptionStatus};
use crate::{
    add_eligible_user_step, add_eligible_users_step, add_redeemer_step, after, burn_step,
    claim_step, extend_expiration_step, initialize_step, redeem_step,
    remove_eligible_user_step, remove_redeemer_step, set_paused_step,
};

verus! {

// ---------------------------------------------------------------------------
// How lists of writes compose.

proof fn lemma_apply_concat(s: LedgerView, a: Seq<ActionView>, b: Seq<ActionView>)
    ensures
        apply_actions(s, a + b) == apply_actions(apply_actions(s, a), b),
    decreases b.len(),
{
    if b.len() == 0 {
        assert(a + b =~= a);
    } else {
        assert((a + b).drop_last() =~= a + b.drop_last());
        assert((a + b).last() == b.last());
        lemma_apply_concat(s, a, b.drop_last());
    }
}

proof fn lemma_apply_one(s: LedgerView, x: ActionView)
    ensures
        apply_actions(s, seq![x]) == apply_action(s, x),
{
    assert(seq![x].drop_last() =~= Seq::<ActionView>::empty());
    assert(apply_actions(s, Seq::<ActionView>::empty()) == s);
}

proof fn lemma_apply_two(s: LedgerView, x: ActionView, y: ActionView)
    ensures
        apply_actions(s, seq![x, y]) == apply_action(apply_action(s, x), y),
{
    assert(seq![x, y].drop_last() =~= seq![x]);
    lemma_apply_one(s, x);
}

proof fn lemma_apply_three(s: LedgerView, x: ActionView, y: ActionView, z: ActionView)
    ensures
        apply_actions(s, seq![x, y, z]) == apply_action(apply_action(apply_action(s, x), y), z),
{
    assert(seq![x, y, z].drop_last() =~= seq![x, y]);
    lemma_apply_two(s, x, y);
}

proof fn lemma_apply_four(s: LedgerView, w: ActionView, x: ActionView, y: ActionView, z: ActionView)
    ensures
        apply_actions(s, seq![w, x, y, z]) == apply_action(
            apply_action(apply_action(apply_action(s, w), x), y),
            z,
        ),
{
    assert(seq![w, x, y, z].drop_last() =~= seq![w, x, y]);
    lemma_apply_three(s, w, x, y);
}

proof fn lemma_apply_authorize_all(s: LedgerView, partners: Seq<Seq<u8>>)
    ensures
        apply_actions(s, authorize_all(partners)) == (LedgerView {
            redeemers: s.redeemers.union(partners.to_set()),
            ..s
        }),
    decreases partners.len(),
{
    if partners.len() == 0 {
        assert(s.redeemers.union(partners.to_set()) =~= s.redeemers);
    } else {
        let rest = partners.drop_last();
        assert(authorize_all(partners).drop_last() =~= authorize_all(rest));
        lemma_apply_authorize_all(s, rest);
        assert(s.redeemers.union(rest.to_set()).insert(partners.last()) =~= s.redeemers.union(
            partners.to_set(),
        )) by {
            assert forall|p: Seq<u8>| partners.to_set().contains(p) <==> (rest.to_set().contains(p)
                || p == partners.last()) by {
                if partners.contains(p) && p != partners.last() {
                    let i = choose|i: int| 0 <= i < partners.len() && partners[i] == p;
                    assert(rest[i] == p);
                }
                if rest.contains(p) {
                    let i = choose|i: int| 0 <= i < rest.len() && rest[i] == p;
                    assert(partners[i] == p);
                }
                if p == partners.last() {
                    assert(partners[partners.len() - 1] == p);
                }
            }
        }
    }
}

proof fn lemma_apply_make_all_eligible(s: LedgerView, users: Seq<Seq<u8>>)
    ensures
        apply_actions(s, make_all_eligible(users)) == (LedgerView {
            eligible: s.eligible.union(users.to_set()),
            ..s
        }),
    decreases users.len(),
{
    if users.len() == 0 {
        assert(s.eligible.union(users.to_set()) =~= s.eligible);
    } else {
        let rest = users.drop_last();
        assert(make_all_eligible(users).drop_last() =~= make_all_eligible(rest));
        lemma_apply_make_all_eligible(s, rest);
        assert(s.eligible.union(rest.to_set()).insert(users.last()) =~= s.eligible.union(
            users.to_set(),
        )) by {
            assert forall|p: Seq<u8>| users.to_set().contains(p) <==> (rest.to_set().contains(p)
                || p == users.last()) by {
                if users.contains(p) && p != users.last() {
                    let i = choose|i: int| 0 <= i < users.len() && users[i] == p;
                    assert(rest[i] == p);
                }
                if rest.contains(p) {
                    let i = choose|i: int| 0 <= i < rest.len() && rest[i] == p;
                    assert(users[i] == p);
                }
                if p == users.last() {
                    assert(users[users.len() - 1] == p);
                }
            }
        }
    }
}

// ---------------------------------------------------------------------------
// Setting up the campaign.

/// Setting up a campaign on a ledger that has none succeeds: the campaign is
/// stored as given, with nothing issued and not paused; every partner given is
/// authorized; the set-up is announced; and setting up again is refused.
pub proof fn initialize_sets_up_campaign(
    s: LedgerView,
    admin: Seq<u8>,
    campaign_id: u32,
    max_supply: u32,
    expiration_time: u64,
    metadata_uri: Seq<u8>,
    authorized_redeemers: Seq<Seq<u8>>,
)
    requires
        s.campaign is None,
    ensures
        ({
            let step = initialize_step(
                s,
                admin,
                campaign_id,
                max_supply,
                expiration_time,
                metadata_uri,
                authorized_redeemers,
            );
            let t = after(s, step);
            &&& step.outcome == Ok::<(), Error>(())
            &&& step.authorizer is None
            &&& t.campaign == Some(
                new_campaign(admin, campaign_id, max_supply, expiration_time, metadata_uri),
            )
            &&& t.redeemers == s.redeemers.union(authorized_redeemers.to_set())
            &&& forall|i: int|
                0 <= i < authorized_redeemers.len() ==> t.redeemers.contains(
                    #[trigger] authorized_redeemers[i],
                )
            &&& t.coupons == s.coupons
            &&& t.claimed == s.claimed
            &&& t.eligible == s.eligible
            &&& t.events == s.events.push(EventView::Initialized { campaign_id, admin })
            &&& forall|a: Seq<u8>, i: u32, m: u32, e: u64, u: Seq<u8>, r: Seq<Seq<u8>>|
                #[trigger] initialize_step(t, a, i, m, e, u, r).outcome == Err::<(), Error>(
                    Error::AlreadyInitialized,
                )
        }),
{
    let c = new_campaign(admin, campaign_id, max_supply, expiration_time, metadata_uri);
    let first = seq![ActionView::SetCampaign(c)];
    let middle = authorize_all(authorized_redeemers);
    let last = seq![ActionView::Publish(EventView::Initialized { campaign_id, admin })];
    lemma_apply_concat(s, first + middle, last);
    lemma_apply_concat(s, first, middle);
    lemma_apply_one(s, ActionView::SetCampaign(c));
    let s1 = apply_action(s, ActionView::SetCampaign(c));
    lemma_apply_authorize_all(s1, authorized_redeemers);
    let s2 = apply_actions(s1, middle);
    lemma_apply_one(s2, ActionView::Publish(EventView::Initialized { campaign_id, admin }));
    assert forall|i: int| 0 <= i < authorized_redeemers.len() implies after(
        s,
        initialize_step(
            s,
            admin,
            campaign_id,
            max_supply,
            expiration_time,
            metadata_uri,
            authorized_redeemers,
        ),
    ).redeemers.contains(#[trigger] authorized_redeemers[i]) by {
        assert(authorized_redeemers.to_set().contains(authorized_redeemers[i]));
    }
}

/// Once a campaign exists, setting one up is refused with `AlreadyInitialized`
/// and changes nothing.
pub proof fn initialize_only_once(
    s: LedgerView,
    admin: Seq<u8>,
    campaign_id: u32,
    max_supply: u32,
    expiration_time: u64,
    metadata_uri: Seq<u8>,
    authorized_redeemers: Seq<Seq<u8>>,
)
    requires
        s.campaign is Some,
    ensures
        ({
            let step = initialize_step(
                s,
                admin,
                campaign_id,
                max_supply,
                expiration_time,
                metadata_uri,
                authorized_redeemers,
            );
            &&& step.outcome == Err::<(), Error>(Error::AlreadyInitialized)
            &&& after(s, step) == s
        }),
{
}

// ---------------------------------------------------------------------------
// The admin's lists and settings.

/// With a campaign set up, authorizing a partner succeeds with the admin's
/// authorization, after which the partner is authorized and nothing else changed;
/// withdrawing the authorization succeeds likewise, after which it is not.
pub proof fn redeemer_list_reads_back(s: LedgerView, partner: Seq<u8>)
    requires
        s.campaign is Some,
    ensures
        add_redeemer_step(s, partner).outcome == Ok::<(), Error>(()),
        add_redeemer_step(s, partner).authorizer == Some(s.campaign->0.admin),
        after(s, add_redeemer_step(s, partner)) == (LedgerView {
            redeemers: s.redeemers.insert(partner),
            ..s
        }),
        after(s, add_redeemer_step(s, partner)).redeemers.contains(partner),
        remove_redeemer_step(s, partner).outcome == Ok::<(), Error>(()),
        remove_redeemer_step(s, partner).authorizer == Some(s.campaign->0.admin),
        after(s, remove_redeemer_step(s, partner)) == (LedgerView {
            redeemers: s.redeemers.remove(partner),
            ..s
        }),
        !after(s, remove_redeemer_step(s, partner)).redeemers.contains(partner),
{
    lemma_apply_one(s, ActionView::SetRedeemer(partner));
    lemma_apply_one(s, ActionView::RemoveRedeemer(partner));
}

/// With a campaign set up, putting a user on the eligibility list succeeds with
/// the admin's authorization, after which the user is eligible and nothing else
/// changed; taking the user off succeeds likewise, after which the user is not;
/// putting a list of users on it makes each of them eligible.
pub proof fn eligibility_list_reads_back(s: LedgerView, user: Seq<u8>, users: Seq<Seq<u8>>)
    requires
        s.campaign is Some,
    ensures
        add_eligible_user_step(s, user).outcome == Ok::<(), Error>(()),
        add_eligible_user_step(s, user).authorizer == Some(s.campaign->0.admin),
        after(s, add_eligible_user_step(s, user)) == (LedgerView {
            eligible: s.eligible.insert(user),
            ..s
        }),
        after(s, add_eligible_user_step(s, user)).eligible.contains(user),
        remove_eligible_user_step(s, user).outcome == Ok::<(), Error>(()),
        remove_eligible_user_step(s, user).authorizer == Some(s.campaign->0.admin),
        after(s, remove_eligible_user_step(s, user)) == (LedgerView {
            eligible: s.eligible.remove(user),
            ..s
        }),
        !after(s, remove_eligible_user_step(s, user)).eligible.contains(user),
        add_eligible_users_step(s, users).outcome == Ok::<(), Error>(()),
        add_eligible_users_step(s, users).authorizer == Some(s.campaign->0.admin),
        after(s, add_eligible_users_step(s, users)) == (LedgerView {
            eligible: s.eligible.union(users.to_set()),
            ..s
        }),
        forall|i: int|
            0 <= i < users.len() ==> after(s, add_eligible_users_step(s, users)).eligible.contains(
                #[trigger] users[i],
            ),
{
    lemma_apply_one(s, ActionView::SetEligibleUser(user));
    lemma_apply_one(s, ActionView::RemoveEligibleUser(user));
    lemma_apply_make_all_eligible(s, users);
    assert forall|i: int| 0 <= i < users.len() implies after(
        s,
        add_eligible_users_step(s, users),
    ).eligible.contains(#[trigger] users[i]) by {
        assert(users.to_set().contains(users[i]));
    }
}

/// With a campaign set up, moving the expiration time, and pausing or resuming,
/// succeed with the admin's authorization and change that setting of the
/// campaign alone.
pub proof fn settings_read_back(s: LedgerView, t: u64, paused: bool)
    requires
        s.campaign is Some,
    ensures
        extend_expiration_step(s, t).outcome == Ok::<(), Error>(()),
        extend_expiration_step(s, t).authorizer == Some(s.campaign->0.admin),
        after(s, extend_expiration_step(s, t)) == (LedgerView {
            campaign: Some(CampaignView { expiration_time: t, ..s.campaign->0 }),
            ..s
        }),
        set_paused_step(s, paused).outcome == Ok::<(), Error>(()),
        set_paused_step(s, paused).authorizer == Some(s.campaign->0.admin),
        after(s, set_paused_step(s, paused)) == (LedgerView {
            campaign: Some(CampaignView { is_paused: paused, ..s.campaign->0 }),
            ..s
        }),
{
    let c = s.campaign->0;
    lemma_apply_one(s, ActionView::SetCampaign(with_expiration(c, t)));
    lemma_apply_one(s, ActionView::SetCampaign(with_paused(c, paused)));
}

/// Without a campaign, every operation of the admin is refused with
/// `NotInitialized`, needs no authorization and changes nothing.
pub proof fn admin_operations_need_a_campaign(
    s: LedgerView,
    partner: Seq<u8>,
    user: Seq<u8>,
    users: Seq<Seq<u8>>,
    t: u64,
    paused: bool,
    coupon_id: u32,
)
    requires
        s.campaign is None,
    ensures
        add_redeemer_step(s, partner) == refused::<()>(None, Error::NotInitialized),
        remove_redeemer_step(s, partner) == refused::<()>(None, Error::NotInitialized),
        add_eligible_user_step(s, user) == refused::<()>(None, Error::NotInitialized),
        remove_eligible_user_step(s, user) == refused::<()>(None, Error::NotInitialized),
        add_eligible_users_step(s, users) == refused::<()>(None, Error::NotInitialized),
        extend_expiration_step(s, t) == refused::<()>(None, Error::NotInitialized),
        set_paused_step(s, paused) == refused::<()>(None, Error::NotInitialized),
        burn_step(s, coupon_id) == refused::<()>(None, Error::NotInitialized),
        after(s, refused::<()>(None, Error::NotInitialized)) == s,
{
}

// ---------------------------------------------------------------------------
// Claiming.

/// A claim needs the user's authorization. It succeeds exactly when a campaign
/// exists, the user is eligible, the campaign is not paused, the ledger's time
/// is before the expiration time and not the whole supply was issued. A
/// successful claim issues the number after the current supply, stores the
/// user's claimed coupon under it, lists it last among the user's claims, counts
/// it in the campaign and announces it; nothing else changes.
pub proof fn claim_issues_next_coupon(s: LedgerView, user: Seq<u8>)
    ensures
        claim_step(s, user).authorizer == Some(user),
        (claim_step(s, user).outcome is Ok) <==> ({
            &&& s.campaign is Some
            &&& s.eligible.contains(user)
            &&& !s.campaign->0.is_paused
            &&& s.timestamp < s.campaign->0.expiration_time
            &&& s.campaign->0.current_supply < s.campaign->0.max_supply
        }),
        claim_step(s, user).outcome is Ok ==> ({
            let c = s.campaign->0;
            let id = claim_step(s, user).outcome->Ok_0;
            let t = after(s, claim_step(s, user));
            &&& id == c.current_supply + 1
            &&& t.campaign == Some(with_one_more_issued(c))
            &&& t.campaign->0.current_supply == id
            &&& t.coupons == s.coupons.insert(id, claimed_coupon(id, c.id, user))
            &&& t.claimed == s.claimed.insert(user, claims_of(s.claimed, user).push(id))
            &&& claims_of(t.claimed, user) == claims_of(s.claimed, user).push(id)
            &&& t.redeemers == s.redeemers
            &&& t.eligible == s.eligible
            &&& t.timestamp == s.timestamp
            &&& t.events == s.events.push(
                EventView::Claimed { user, coupon_id: id, campaign_id: c.id },
            )
        }),
{
    if claim_step(s, user).outcome is Ok {
        let c = s.campaign->0;
        let id = (c.current_supply + 1) as u32;
        lemma_apply_four(
            s,
            ActionView::SetCoupon(id, claimed_coupon(id, c.id, user)),
            ActionView::AddClaimedCoupon(user, id),
            ActionView::SetCampaign(with_one_more_issued(c)),
            ActionView::Publish(EventView::Claimed { user, coupon_id: id, campaign_id: c.id }),
        );
    }
}

/// A successful claim stores, under the number n it answers, the coupon whose
/// number is n, whose campaign is the stored campaign, whose owner is the
/// claiming user and which is in the claimed state, with no chaining set; the
/// campaign then counts n coupons issued and keeps its other settings.
pub proof fn claimed_coupon_carries_its_number_and_campaign(s: LedgerView, user: Seq<u8>)
    ensures
        claim_step(s, user).outcome is Ok ==> ({
            let n = claim_step(s, user).outcome->Ok_0;
            let c = s.campaign->0;
            let t = after(s, claim_step(s, user));
            &&& t.coupons.contains_key(n)
            &&& t.coupons[n].id == n
            &&& t.coupons[n].campaign_id == c.id
            &&& t.coupons[n].owner_wallet == Some(user)
            &&& t.coupons[n].status == CouponStatus::Claimed
            &&& t.coupons[n].next_coupons is None
            &&& t.coupons[n].previous_coupons is None
            &&& t.coupons[n].unlock_conditions is None
            &&& n == c.current_supply + 1
            &&& t.campaign is Some
            &&& t.campaign->0.current_supply == n
            &&& t.campaign->0.id == c.id
            &&& t.campaign->0.admin == c.admin
            &&& t.campaign->0.max_supply == c.max_supply
            &&& t.campaign->0.expiration_time == c.expiration_time
            &&& t.campaign->0.metadata_uri == c.metadata_uri
            &&& t.campaign->0.is_paused == c.is_paused
            &&& forall|k: u32| k != n ==> (#[trigger] t.coupons.contains_key(k) <==> s.coupons.contains_key(k))
            &&& forall|k: u32| k != n && s.coupons.contains_key(k) ==> #[trigger] t.coupons[k] == s.coupons[k]
        }),
{
    claim_issues_next_coupon(s, user);
}

/// Setting up a campaign on a ledger that has none stores exactly the values
/// given: its number, admin, supply, expiration time and metadata URI, with no
/// coupon issued and not paused.
pub proof fn initialize_stores_the_given_values(
    s: LedgerView,
    admin: Seq<u8>,
    campaign_id: u32,
    max_supply: u32,
    expiration_time: u64,
    metadata_uri: Seq<u8>,
    authorized_redeemers: Seq<Seq<u8>>,
)
    requires
        s.campaign is None,
    ensures
        ({
            let step = initialize_step(
                s,
                admin,
                campaign_id,
                max_supply,
                expiration_time,
                metadata_uri,
                authorized_redeemers,
            );
            let t = after(s, step);
            &&& step.outcome is Ok
            &&& t.campaign is Some
            &&& t.campaign->0.id == campaign_id
            &&& t.campaign->0.admin == admin
            &&& t.campaign->0.max_supply == max_supply
            &&& t.campaign->0.current_supply == 0
            &&& t.campaign->0.expiration_time == expiration_time
            &&& t.campaign->0.metadata_uri == metadata_uri
            &&& t.campaign->0.metadata_uri.len() == metadata_uri.len()
            &&& !t.campaign->0.is_paused
        }),
{
    initialize_sets_up_campaign(
        s,
        admin,
        campaign_id,
        max_supply,
        expiration_time,
        metadata_uri,
        authorized_redeemers,
    );
}

// ---------------------------------------------------------------------------
// The ledger's consistency.

/// The coupon under number `k` is one the campaign issued by a claim.
pub open spec fn issued_coupon(c: CampaignView, k: u32, cp: CouponView) -> bool {
    &&& 1 <= k <= c.current_supply
    &&& cp.owner_wallet is Some
    &&& cp == claimed_coupon(k, c.id, cp.owner_wallet->0)
}

/// A user's claims are numbers the campaign issued, in increasing order.
pub open spec fn ascending_claims(claims: Seq<u32>, supply: u32) -> bool {
    &&& forall|i: int| 0 <= i < claims.len() ==> 1 <= #[trigger] claims[i] <= supply
    &&& forall|i: int, j: int| 0 <= i < j < claims.len() ==> #[trigger] claims[i] < #[trigger] claims[j]
}

/// The ledger is consistent: without a campaign there is no coupon and no claim;
/// with one, no more than the supply was issued, every coupon in circulation is
/// a claimed coupon of the campaign whose number was issued and is listed among
/// its owner's claims, and each user's claims are issued numbers in increasing
/// order.
pub open spec fn consistent(s: LedgerView) -> bool {
    match s.campaign {
        None => {
            &&& forall|k: u32| !(#[trigger] s.coupons.contains_key(k))
            &&& forall|u: Seq<u8>| (#[trigger] claims_of(s.claimed, u)).len() == 0
        },
        Some(c) => {
            &&& c.current_supply <= c.max_supply
            &&& forall|k: u32| #[trigger]
                s.coupons.contains_key(k) ==> issued_coupon(c, k, s.coupons[k]) && claims_of(
                    s.claimed,
                    s.coupons[k].owner_wallet->0,
                ).contains(k)
            &&& forall|u: Seq<u8>| ascending_claims(#[trigger] claims_of(s.claimed, u), c.current_supply)
        },
    }
}

/// A ledger on which nothing has happened is consistent.
pub proof fn fresh_ledger_is_consistent(timestamp: u64)
    ensures
        consistent(crate::storage::fresh_ledger(timestamp)),
{
}

proof fn lemma_claim_keeps_consistent(s: LedgerView, user: Seq<u8>)
    requires
        consistent(s),
    ensures
        consistent(after(s, claim_step(s, user))),
{
    claim_issues_next_coupon(s, user);
    if claim_step(s, user).outcome is Ok {
        let c = s.campaign->0;
        let id = (c.current_supply + 1) as u32;
        let t = after(s, claim_step(s, user));
        let c2 = t.campaign->0;
        assert forall|k: u32| #[trigger] t.coupons.contains_key(k) implies issued_coupon(
            c2,
            k,
            t.coupons[k],
        ) && claims_of(t.claimed, t.coupons[k].owner_wallet->0).contains(k) by {
            if k == id {
                assert(claims_of(t.claimed, user).last() == id);
            } else {
                assert(s.coupons.contains_key(k));
                let o = s.coupons[k].owner_wallet->0;
                assert(claims_of(s.claimed, o).contains(k));
                if o == user {
                    let i = choose|i: int| 0 <= i < claims_of(s.claimed, o).len() && claims_of(s.claimed, o)[i] == k;
                    assert(claims_of(t.claimed, o)[i] == k);
                }
            }
        }
        assert forall|u: Seq<u8>| ascending_claims(#[trigger] claims_of(t.claimed, u), c2.current_supply) by {
            let before = claims_of(s.claimed, u);
            assert(ascending_claims(before, c.current_supply));
            if u == user {
                let now = claims_of(t.claimed, u);
                assert(now == before.push(id));
                assert forall|i: int, j: int| 0 <= i < j < now.len() implies #[trigger] now[i] < #[trigger] now[j] by {
                    if j == now.len() - 1 {
                        assert(now[i] == before[i]);
                        assert(before[i] <= c.current_supply);
                    } else {
                        assert(now[i] == before[i]);
                        assert(now[j] == before[j]);
                    }
                }
                assert forall|i: int| 0 <= i < now.len() implies 1 <= #[trigger] now[i] <= c2.current_supply by {
                    if i < before.len() {
                        assert(now[i] == before[i]);
                    }
                }
            } else {
                assert(claims_of(t.claimed, u) == before);
            }
        }
    }
}

proof fn lemma_initialize_keeps_consistent(
    s: LedgerView,
    admin: Seq<u8>,
    campaign_id: u32,
    max_supply: u32,
    expiration_time: u64,
    metadata_uri: Seq<u8>,
    authorized_redeemers: Seq<Seq<u8>>,
)
    requires
        consistent(s),
    ensures
        consistent(
            after(
                s,
                initialize_step(
                    s,
                    admin,
                    campaign_id,
                    max_supply,
                    expiration_time,
                    metadata_uri,
                    authorized_redeemers,
                ),
            ),
        ),
{
    if s.campaign is None {
        initialize_sets_up_campaign(
            s,
            admin,
            campaign_id,
            max_supply,
            expiration_time,
            metadata_uri,
            authorized_redeemers,
        );
        let t = after(
            s,
            initialize_step(
                s,
                admin,
                campaign_id,
                max_supply,
                expiration_time,
                metadata_uri,
                authorized_redeemers,
            ),
        );
        assert forall|u: Seq<u8>| ascending_claims(#[trigger] claims_of(t.claimed, u), 0) by {
            assert(claims_of(s.claimed, u).len() == 0);
        }
    }
}

proof fn lemma_redeem_keeps_consistent(s: LedgerView, user: Seq<u8>, coupon_id: u32, partner: Seq<u8>)
    requires
        consistent(s),
    ensures
        consistent(after(s, redeem_step(s, user, coupon_id, partner))),
{
    let step = redeem_step(s, user, coupon_id, partner);
    if step.outcome is Ok {
        let c = s.campaign->0;
        lemma_apply_three(s, step.actions[0], step.actions[1], step.actions[2]);
        assert(step.actions =~= seq![step.actions[0], step.actions[1], step.actions[2]]);
        let t = after(s, step);
        assert(t.coupons == s.coupons.remove(coupon_id));
        assert(t.claimed == s.claimed);
        assert(t.campaign == s.campaign);
    }
}

proof fn lemma_burn_keeps_consistent(s: LedgerView, coupon_id: u32)
    requires
        consistent(s),
    ensures
        consistent(after(s, burn_step(s, coupon_id))),
{
    let step = burn_step(s, coupon_id);
    if step.outcome is Ok {
        lemma_apply_two(s, step.actions[0], step.actions[1]);
        assert(step.actions =~= seq![step.actions[0], step.actions[1]]);
        let t = after(s, step);
        assert(t.coupons == s.coupons.remove(coupon_id));
        assert(t.claimed == s.claimed);
        assert(t.campaign == s.campaign);
    }
}

/// Every entry point, and the passing of time, keeps the ledger consistent.
pub proof fn every_call_keeps_the_ledger_consistent(
    s: LedgerView,
    admin: Seq<u8>,
    campaign_id: u32,
    max_supply: u32,
    expiration_time: u64,
    metadata_uri: Seq<u8>,
    authorized_redeemers: Seq<Seq<u8>>,
    account: Seq<u8>,
    accounts: Seq<Seq<u8>>,
    partner: Seq<u8>,
    coupon_id: u32,
    t: u64,
    paused: bool,
)
    requires
        consistent(s),
    ensures
        consistent(
            after(
                s,
                initialize_step(
                    s,
                    admin,
                    campaign_id,
                    max_supply,
                    expiration_time,
                    metadata_uri,
                    authorized_redeemers,
                ),
            ),
        ),
        consistent(after(s, add_redeemer_step(s, account))),
        consistent(after(s, remove_redeemer_step(s, account))),
        consistent(after(s, add_eligible_user_step(s, account))),
        consistent(after(s, remove_eligible_user_step(s, account))),
        consistent(after(s, add_eligible_users_step(s, accounts))),
        consistent(after(s, extend_expiration_step(s, t))),
        consistent(after(s, set_paused_step(s, paused))),
        consistent(after(s, claim_step(s, account))),
        consistent(after(s, redeem_step(s, account, coupon_id, partner))),
        consistent(after(s, burn_step(s, coupon_id))),
        consistent(LedgerView { timestamp: t, ..s }),
{
    lemma_initialize_keeps_consistent(
        s,
        admin,
        campaign_id,
        max_supply,
        expiration_time,
        metadata_uri,
        authorized_redeemers,
    );
    if s.campaign is Some {
        redeemer_list_reads_back(s, account);
        eligibility_list_reads_back(s, account, accounts);
        settings_read_back(s, t, paused);
    }
    lemma_claim_keeps_consistent(s, account);
    lemma_redeem_keeps_consistent(s, account, coupon_id, partner);
    lemma_burn_keeps_consistent(s, coupon_id);
}

/// On a consistent ledger a claim never reuses a number: the number it issues
/// is above every number in circulation, and the whole supply is never exceeded.
pub proof fn claims_issue_fresh_numbers(s: LedgerView, user: Seq<u8>)
    requires
        consistent(s),
    ensures
        claim_step(s, user).outcome is Ok ==> ({
            let id = claim_step(s, user).outcome->Ok_0;
            &&& !s.coupons.contains_key(id)
            &&& forall|k: u32| #[trigger] s.coupons.contains_key(k) ==> k < id
            &&& id <= s.campaign->0.max_supply
        }),
        s.campaign is Some ==> s.campaign->0.current_supply <= s.campaign->0.max_supply,
{
    claim_issues_next_coupon(s, user);
}

// ---------------------------------------------------------------------------
// Redeeming and burning.

/// A redemption needs the partner's authorization. It answers `Redeemed`
/// exactly when a campaign exists and is not paused, the coupon exists and is
/// the user's, the ledger's time is before the expiration time, the coupon is
/// in the claimed state and the partner is authorized; it answers `Expired`
/// exactly when a campaign exists and is not paused, the coupon exists and is
/// the user's, and the time has reached the expiration time. Either way the
/// coupon is burned, the outcome announced, and nothing else changes.
pub proof fn redeem_burns_the_coupon(s: LedgerView, user: Seq<u8>, coupon_id: u32, partner: Seq<u8>)
    ensures
        redeem_step(s, user, coupon_id, partner).authorizer == Some(partner),
        (redeem_step(s, user, coupon_id, partner).outcome == Ok::<RedemptionStatus, Error>(
            RedemptionStatus::Redeemed,
        )) <==> ({
            &&& s.campaign is Some
            &&& !s.campaign->0.is_paused
            &&& s.coupons.contains_key(coupon_id)
            &&& s.coupons[coupon_id].owner_wallet == Some(user)
            &&& s.timestamp < s.campaign->0.expiration_time
            &&& s.coupons[coupon_id].status == CouponStatus::Claimed
            &&& s.redeemers.contains(partner)
        }),
        (redeem_step(s, user, coupon_id, partner).outcome == Ok::<RedemptionStatus, Error>(
            RedemptionStatus::Expired,
        )) <==> ({
            &&& s.campaign is Some
            &&& !s.campaign->0.is_paused
            &&& s.coupons.contains_key(coupon_id)
            &&& s.coupons[coupon_id].owner_wallet == Some(user)
            &&& s.timestamp >= s.campaign->0.expiration_time
        }),
        redeem_step(s, user, coupon_id, partner).outcome is Ok ==> ({
            let c = s.campaign->0;
            let t = after(s, redeem_step(s, user, coupon_id, partner));
            let first = if redeem_step(s, user, coupon_id, partner).outcome == Ok::<
                RedemptionStatus,
                Error,
            >(RedemptionStatus::Redeemed) {
                EventView::Redeemed { user, coupon_id, partner, campaign_id: c.id }
            } else {
                EventView::Expired { user, coupon_id, campaign_id: c.id }
            };
            &&& t == (LedgerView {
                coupons: s.coupons.remove(coupon_id),
                events: s.events.push(first).push(
                    EventView::Burned { owner: user, coupon_id, campaign_id: c.id },
                ),
                ..s
            })
            &&& !t.coupons.contains_key(coupon_id)
        }),
{
    let step = redeem_step(s, user, coupon_id, partner);
    if step.outcome is Ok {
        lemma_apply_three(s, step.actions[0], step.actions[1], step.actions[2]);
        assert(step.actions =~= seq![step.actions[0], step.actions[1], step.actions[2]]);
    }
}

/// A coupon is used once: after a successful redemption, any further
/// redemption of the same number, by anyone at any partner, is refused.
pub proof fn redeemed_coupon_cannot_be_redeemed_again(
    s: LedgerView,
    user: Seq<u8>,
    coupon_id: u32,
    partner: Seq<u8>,
    other_user: Seq<u8>,
    other_partner: Seq<u8>,
)
    requires
        redeem_step(s, user, coupon_id, partner).outcome is Ok,
    ensures
        redeem_step(
            after(s, redeem_step(s, user, coupon_id, partner)),
            other_user,
            coupon_id,
            other_partner,
        ).outcome is Err,
{
    redeem_burns_the_coupon(s, user, coupon_id, partner);
}

/// With a campaign set up, burning needs the admin's authorization; it succeeds
/// exactly when a coupon has the number, deleting it and announcing it for its
/// owner (or the admin); otherwise it is refused with `InvalidCouponStatus`.
pub proof fn burn_deletes_the_coupon(s: LedgerView, coupon_id: u32)
    requires
        s.campaign is Some,
    ensures
        burn_step(s, coupon_id).authorizer == Some(s.campaign->0.admin),
        (burn_step(s, coupon_id).outcome is Ok) <==> s.coupons.contains_key(coupon_id),
        !s.coupons.contains_key(coupon_id) ==> burn_step(s, coupon_id).outcome == Err::<(), Error>(
            Error::InvalidCouponStatus,
        ),
        s.coupons.contains_key(coupon_id) ==> after(s, burn_step(s, coupon_id)) == (LedgerView {
            coupons: s.coupons.remove(coupon_id),
            events: s.events.push(
                EventView::Burned {
                    owner: burn_owner(s.coupons[coupon_id], s.campaign->0.admin),
                    coupon_id,
                    campaign_id: s.campaign->0.id,
                },
            ),
            ..s
        }),
{
    let step = burn_step(s, coupon_id);
    if step.outcome is Ok {
        lemma_apply_two(s, step.actions[0], step.actions[1]);
        assert(step.actions =~= seq![step.actions[0], step.actions[1]]);
    }
}

// ---------------------------------------------------------------------------
// Refusals and pauses.

/// A refused call makes no write: the ledger is left as it was.
pub proof fn refusals_change_nothing(
    s: LedgerView,
    admin: Seq<u8>,
    campaign_id: u32,
    max_supply: u32,
    expiration_time: u64,
    metadata_uri: Seq<u8>,
    authorized_redeemers: Seq<Seq<u8>>,
    account: Seq<u8>,
    accounts: Seq<Seq<u8>>,
    partner: Seq<u8>,
    coupon_id: u32,
    t: u64,
    paused: bool,
)
    ensures
        initialize_step(
            s,
            admin,
            campaign_id,
            max_supply,
            expiration_time,
            metadata_uri,
            authorized_redeemers,
        ).outcome is Err ==> after(
            s,
            initialize_step(
                s,
                admin,
                campaign_id,
                max_supply,
                expiration_time,
                metadata_uri,
                authorized_redeemers,
            ),
        ) == s,
        add_redeemer_step(s, account).outcome is Err ==> after(s, add_redeemer_step(s, account)) == s,
        remove_redeemer_step(s, account).outcome is Err ==> after(s, remove_redeemer_step(s, account))
            == s,
        add_eligible_user_step(s, account).outcome is Err ==> after(
            s,
            add_eligible_user_step(s, account),
        ) == s,
        remove_eligible_user_step(s, account).outcome is Err ==> after(
            s,
            remove_eligible_user_step(s, account),
        ) == s,
        add_eligible_users_step(s, accounts).outcome is Err ==> after(
            s,
            add_eligible_users_step(s, accounts),
        ) == s,
        extend_expiration_step(s, t).outcome is Err ==> after(s, extend_expiration_step(s, t)) == s,
        set_paused_step(s, paused).outcome is Err ==> after(s, set_paused_step(s, paused)) == s,
        claim_step(s, account).outcome is Err ==> after(s, claim_step(s, account)) == s,
        redeem_step(s, account, coupon_id, partner).outcome is Err ==> after(
            s,
            redeem_step(s, account, coupon_id, partner),
        ) == s,
        burn_step(s, coupon_id).outcome is Err ==> after(s, burn_step(s, coupon_id)) == s,
{
}

/// While the campaign is paused, no claim and no redemption succeeds;
/// a redemption is refused with `CampaignPaused`.
pub proof fn pause_stops_claims_and_redemptions(
    s: LedgerView,
    user: Seq<u8>,
    coupon_id: u32,
    partner: Seq<u8>,
)
    requires
        s.campaign is Some,
        s.campaign->0.is_paused,
    ensures
        claim_step(s, user).outcome is Err,
        redeem_step(s, user, coupon_id, partner).outcome == Err::<RedemptionStatus, Error>(
            Error::CampaignPaused,
        ),
{
}

/// Once the ledger's time reaches the expiration time, no claim succeeds, and
/// no redemption answers `Redeemed`.
pub proof fn expiry_stops_claims_and_redemptions(
    s: LedgerView,
    user: Seq<u8>,
    coupon_id: u32,
    partner: Seq<u8>,
)
    requires
        s.campaign is Some,
        s.timestamp >= s.campaign->0.expiration_time,
    ensures
        claim_step(s, user).outcome is Err,
        redeem_step(s, user, coupon_id, partner).outcome != Ok::<RedemptionStatus, Error>(
            RedemptionStatus::Redeemed,
        ),
{
}

} // verus!
