use vstd::prelude::*;

verus! {

/// An account on the ledger, held as the bytes of its textual address.
#[derive(Clone, Debug, PartialEq, Eq)]
pub struct Account {
    bytes: Vec<u8>,
}

impl View for Account {
    type V = Seq<u8>;

    closed spec fn view(&self) -> Seq<u8> {
        self.bytes@
    }
}

impl Account {
    /// Builds an account from the bytes of its address.
    pub fn from_bytes(bytes: Vec<u8>) -> (acct: Account)
        ensures
            acct@ == bytes@,
    {
        Account { bytes }
    }

    /// The bytes of the account's address.
    pub fn as_bytes(&self) -> (bytes: &[u8])
        ensures
            bytes@ == self@,
    {
        self.bytes.as_slice()
    }

    /// Whether two accounts are the same account.
    pub fn same_as(&self, other: &Account) -> (same: bool)
        ensures
            same == (self@ == other@),
    {
        if self.bytes.len() != other.bytes.len() {
            return false;
        }
        let n = self.bytes.len();
        let mut i: usize = 0;
        while i < n
            invariant
                n == self@.len(),
                n == other@.len(),
                i <= n,
                forall|j: int| 0 <= j < i ==> self@[j] == other@[j],
            decreases n - i,
        {
            if self.bytes[i] != other.bytes[i] {
                return false;
            }
            i = i + 1;
        }
        assert(self@ =~= other@);
        true
    }

    /// A second, equal value of the account.
    pub fn duplicate(&self) -> (copy: Account)
        ensures
            copy@ == self@,
    {
        let bytes = self.bytes.clone();
        assert(bytes@ =~= self.bytes@);
        Account { bytes }
    }
}


/// The lifecycle states a coupon can be in.
#[derive(Clone, Copy, Debug, PartialEq, Eq, Structural)]
pub enum CouponStatus {
    Created,
    Minted,
    Claimed,
    Redeemed,
    Burned,
    Expired,
}

/// How a redemption request ended.
#[derive(Clone, Copy, Debug, PartialEq, Eq, Structural)]
pub enum RedemptionStatus {
    Redeemed,
    Expired,
}

/// The errors the contract answers a refused request with.
#[derive(Clone, Copy, Debug, PartialEq, Eq, Structural, PartialOrd, Ord)]
pub enum Error {
    AlreadyInitialized,
    NotInitialized,
    CampaignExpired,
    MaxSupplyReached,
    CouponAlreadyClaimed,
    NotCouponOwner,
    InvalidCouponStatus,
    NotAuthorizedRedeemer,
    CampaignPaused,
    UserNotEligible,
}

impl Error {
    /// The number under which the contract reports this error.
    pub fn code(&self) -> (code: u32)
        ensures
            code == self.spec_code(),
    {
        match self {
            Error::AlreadyInitialized => 1,
            Error::NotInitialized => 2,
            Error::CampaignExpired => 3,
            Error::MaxSupplyReached => 4,
            Error::CouponAlreadyClaimed => 5,
            Error::NotCouponOwner => 6,
            Error::InvalidCouponStatus => 7,
            Error::NotAuthorizedRedeemer => 8,
            Error::CampaignPaused => 9,
            Error::UserNotEligible => 10,
        }
    }

    pub open spec fn spec_code(&self) -> u32 {
        match self {
            Error::AlreadyInitialized => 1,
            Error::NotInitialized => 2,
            Error::CampaignExpired => 3,
            Error::MaxSupplyReached => 4,
            Error::CouponAlreadyClaimed => 5,
            Error::NotCouponOwner => 6,
            Error::InvalidCouponStatus => 7,
            Error::NotAuthorizedRedeemer => 8,
            Error::CampaignPaused => 9,
            Error::UserNotEligible => 10,
        }
    }
}

/// The contents of an optional list of numbers.
pub open spec fn ids_view(ids: Option<Vec<u32>>) -> Option<Seq<u32>> {
    match ids {
        Some(v) => Some(v@),
        None => None,
    }
}

/// The contents of an optional list of byte strings.
pub open spec fn texts_view(texts: Option<Vec<Vec<u8>>>) -> Option<Seq<Seq<u8>>> {
    match texts {
        Some(v) => Some(v@.map_values(|t: Vec<u8>| t@)),
        None => None,
    }
}

/// The address held in an optional account.
pub open spec fn account_view(acct: Option<Account>) -> Option<Seq<u8>> {
    match acct {
        Some(a) => Some(a@),
        None => None,
    }
}

fn duplicate_ids(ids: &Option<Vec<u32>>) -> (copy: Option<Vec<u32>>)
    ensures
        ids_view(copy) == ids_view(*ids),
{
    match ids {
        Some(v) => {
            let c = v.clone();
            assert(c@ =~= v@);
            Some(c)
        },
        None => None,
    }
}

fn duplicate_texts(texts: &Option<Vec<Vec<u8>>>) -> (copy: Option<Vec<Vec<u8>>>)
    ensures
        texts_view(copy) == texts_view(*texts),
{
    match texts {
        Some(v) => {
            let mut c: Vec<Vec<u8>> = Vec::new();
            let mut i: usize = 0;
            while i < v.len()
                invariant
                    i <= v.len(),
                    c@.len() == i,
                    forall|j: int| 0 <= j < i ==> #[trigger] c@[j]@ == v@[j]@,
                decreases v.len() - i,
            {
                let t = v[i].clone();
                assert(t@ =~= v@[i as int]@);
                c.push(t);
                i = i + 1;
            }
            assert(c@.map_values(|t: Vec<u8>| t@) =~= v@.map_values(|t: Vec<u8>| t@));
            Some(c)
        },
        None => None,
    }
}

fn duplicate_account(acct: &Option<Account>) -> (copy: Option<Account>)
    ensures
        account_view(copy) == account_view(*acct),
{
    match acct {
        Some(a) => Some(a.duplicate()),
        None => None,
    }
}

/// A coupon of the campaign.
#[derive(Clone, Debug, PartialEq, Eq)]
pub struct Coupon {
    pub id: u32,
    pub campaign_id: u32,
    pub owner_wallet: Option<Account>,
    pub status: CouponStatus,
    /// Room for chaining coupons later; left empty today.
    pub next_coupons: Option<Vec<u32>>,
    pub previous_coupons: Option<Vec<u32>>,
    pub unlock_conditions: Option<Vec<Vec<u8>>>,
}

/// What a coupon holds, as mathematical values.
pub struct CouponView {
    pub id: u32,
    pub campaign_id: u32,
    pub owner_wallet: Option<Seq<u8>>,
    pub status: CouponStatus,
    pub next_coupons: Option<Seq<u32>>,
    pub previous_coupons: Option<Seq<u32>>,
    pub unlock_conditions: Option<Seq<Seq<u8>>>,
}

impl View for Coupon {
    type V = CouponView;

    open spec fn view(&self) -> CouponView {
        CouponView {
            id: self.id,
            campaign_id: self.campaign_id,
            owner_wallet: account_view(self.owner_wallet),
            status: self.status,
            next_coupons: ids_view(self.next_coupons),
            previous_coupons: ids_view(self.previous_coupons),
            unlock_conditions: texts_view(self.unlock_conditions),
        }
    }
}

impl Coupon {
    /// A second, equal value of the coupon.
    pub fn duplicate(&self) -> (copy: Coupon)
        ensures
            copy@ == self@,
    {
        Coupon {
            id: self.id,
            campaign_id: self.campaign_id,
            owner_wallet: duplicate_account(&self.owner_wallet),
            status: self.status,
            next_coupons: duplicate_ids(&self.next_coupons),
            previous_coupons: duplicate_ids(&self.previous_coupons),
            unlock_conditions: duplicate_texts(&self.unlock_conditions),
        }
    }
}

/// The campaign that issues the coupons.
#[derive(Clone, Debug, PartialEq, Eq)]
pub struct Campaign {
    pub id: u32,
    pub admin: Account,
    pub max_supply: u32,
    pub current_supply: u32,
    /// Unix time, in seconds, from which the campaign counts as expired.
    pub expiration_time: u64,
    pub metadata_uri: Vec<u8>,
    pub is_paused: bool,
}

/// What a campaign holds, as mathematical values.
pub struct CampaignView {
    pub id: u32,
    pub admin: Seq<u8>,
    pub max_supply: u32,
    pub current_supply: u32,
    pub expiration_time: u64,
    pub metadata_uri: Seq<u8>,
    pub is_paused: bool,
}

impl View for Campaign {
    type V = CampaignView;

    open spec fn view(&self) -> CampaignView {
        CampaignView {
            id: self.id,
            admin: self.admin@,
            max_supply: self.max_supply,
            current_supply: self.current_supply,
            expiration_time: self.expiration_time,
            metadata_uri: self.metadata_uri@,
            is_paused: self.is_paused,
        }
    }
}

impl Campaign {
    /// A second, equal value of the campaign.
    pub fn duplicate(&self) -> (copy: Campaign)
        ensures
            copy@ == self@,
    {
        let uri = self.metadata_uri.clone();
        assert(uri@ =~= self.metadata_uri@);
        Campaign {
            id: self.id,
            admin: self.admin.duplicate(),
            max_supply: self.max_supply,
            current_supply: self.current_supply,
            expiration_time: self.expiration_time,
            metadata_uri: uri,
            is_paused: self.is_paused,
        }
    }
}

/// The campaign held in an optional value.
pub open spec fn campaign_view(c: Option<Campaign>) -> Option<CampaignView> {
    match c {
        Some(c) => Some(c@),
        None => None,
    }
}

/// The coupon held in an optional value.
pub open spec fn coupon_view(c: Option<Coupon>) -> Option<CouponView> {
    match c {
        Some(c) => Some(c@),
        None => None,
    }
}

/// What the contract announces to the outside world.
#[derive(Clone, Debug, PartialEq, Eq)]
pub enum Event {
    /// The campaign was set up by its admin.
    Initialized { campaign_id: u32, admin: Account },
    /// A user claimed a coupon.
    Claimed { user: Account, coupon_id: u32, campaign_id: u32 },
    /// A coupon was presented after the campaign had expired.
    Expired { user: Account, coupon_id: u32, campaign_id: u32 },
    /// A coupon was redeemed at a partner.
    Redeemed { user: Account, coupon_id: u32, partner: Account, campaign_id: u32 },
    /// A coupon was taken out of circulation.
    Burned { owner: Account, coupon_id: u32, campaign_id: u32 },
}

impl Event {
    /// A second, equal value of the event.
    pub fn duplicate(&self) -> (copy: Event)
        ensures
            copy@ == self@,
    {
        match self {
            Event::Initialized { campaign_id, admin } => Event::Initialized {
                campaign_id: *campaign_id,
                admin: admin.duplicate(),
            },
            Event::Claimed { user, coupon_id, campaign_id } => Event::Claimed {
                user: user.duplicate(),
                coupon_id: *coupon_id,
                campaign_id: *campaign_id,
            },
            Event::Expired { user, coupon_id, campaign_id } => Event::Expired {
                user: user.duplicate(),
                coupon_id: *coupon_id,
                campaign_id: *campaign_id,
            },
            Event::Redeemed { user, coupon_id, partner, campaign_id } => Event::Redeemed {
                user: user.duplicate(),
                coupon_id: *coupon_id,
                partner: partner.duplicate(),
                campaign_id: *campaign_id,
            },
            Event::Burned { owner, coupon_id, campaign_id } => Event::Burned {
                owner: owner.duplicate(),
                coupon_id: *coupon_id,
                campaign_id: *campaign_id,
            },
        }
    }
}

/// An event, as mathematical values.
pub enum EventView {
    Initialized { campaign_id: u32, admin: Seq<u8> },
    Claimed { user: Seq<u8>, coupon_id: u32, campaign_id: u32 },
    Expired { user: Seq<u8>, coupon_id: u32, campaign_id: u32 },
    Redeemed { user: Seq<u8>, coupon_id: u32, partner: Seq<u8>, campaign_id: u32 },
    Burned { owner: Seq<u8>, coupon_id: u32, campaign_id: u32 },
}

impl View for Event {
    type V = EventView;

    open spec fn view(&self) -> EventView {
        match self {
            Event::Initialized { campaign_id, admin } => EventView::Initialized {
                campaign_id: *campaign_id,
                admin: admin@,
            },
            Event::Claimed { user, coupon_id, campaign_id } => EventView::Claimed {
                user: user@,
                coupon_id: *coupon_id,
                campaign_id: *campaign_id,
            },
            Event::Expired { user, coupon_id, campaign_id } => EventView::Expired {
                user: user@,
                coupon_id: *coupon_id,
                campaign_id: *campaign_id,
            },
            Event::Redeemed { user, coupon_id, partner, campaign_id } => EventView::Redeemed {
                user: user@,
                coupon_id: *coupon_id,
                partner: partner@,
                campaign_id: *campaign_id,
            },
            Event::Burned { owner, coupon_id, campaign_id } => EventView::Burned {
                owner: owner@,
                coupon_id: *coupon_id,
                campaign_id: *campaign_id,
            },
        }
    }
}

} // verus!
