use vstd::prelude::*;

verus! {

/// One NEAR in yoctoNEAR.
pub const ONE_NEAR: u128 = 1_000_000_000_000_000_000_000_000;

/// One year in nanoseconds: the term of an activation.
pub const ONE_YEAR_NS: u64 = 31_536_000_000_000_000;

/// How long an expired entry stays in grace before it becomes reclaimable.
pub const GRACE_PERIOD_NS: u64 = 2_592_000_000_000_000;

/// The byte length of a string's UTF-8 encoding, as `str::len` reports it.
pub open spec fn byte_len(s: Seq<char>) -> usize {
    vstd::utf8::encode_utf8(s).len() as usize
}

#[derive(Clone, Copy, Debug, PartialEq, Eq, Structural)]
pub enum TlaType {
    Business,
    Open,
}

#[derive(Clone, Copy, Debug, PartialEq, Eq, Structural)]
pub enum TlaStatus {
    Registered,
    Active,
    Suspended,
}

#[derive(Clone, Copy, Debug, PartialEq, Eq, Structural)]
pub enum PremiumCategory {
    Legendary,
    Premium,
    Standard,
    Community,
}

/// The rent multiplier of a premium category, as a ratio.
pub open spec fn spec_multiplier(p: PremiumCategory) -> (u128, u128) {
    match p {
        PremiumCategory::Legendary => (10, 1),
        PremiumCategory::Premium => (3, 1),
        PremiumCategory::Standard => (1, 1),
        PremiumCategory::Community => (1, 2),
    }
}

impl PremiumCategory {
    pub fn multiplier(&self) -> (r: (u128, u128))
        ensures
            r == spec_multiplier(*self),
            r.1 > 0,
    {
        match self {
            PremiumCategory::Legendary => (10, 1),
            PremiumCategory::Premium => (3, 1),
            PremiumCategory::Standard => (1, 1),
            PremiumCategory::Community => (1, 2),
        }
    }
}

#[derive(Clone, Copy, Debug, PartialEq, Eq, Structural)]
pub enum LifecycleStatus {
    Registered,
    Active,
    Grace,
    Reclaimable,
    Suspended,
}

/// Where an entry that runs until `expires_at` stands at time `now`.
pub open spec fn time_phase(expires_at: u64, now: u64) -> LifecycleStatus {
    if now < expires_at {
        LifecycleStatus::Active
    } else if now - expires_at < GRACE_PERIOD_NS {
        LifecycleStatus::Grace
    } else {
        LifecycleStatus::Reclaimable
    }
}

pub fn phase_at(expires_at: u64, now: u64) -> (r: LifecycleStatus)
    ensures
        r == time_phase(expires_at, now),
{
    if now < expires_at {
        LifecycleStatus::Active
    } else if now - expires_at < GRACE_PERIOD_NS {
        LifecycleStatus::Grace
    } else {
        LifecycleStatus::Reclaimable
    }
}

/// A registered top-level account.
#[derive(Debug)]
pub struct TlaEntry {
    pub tla_type: TlaType,
    pub status: TlaStatus,
    pub licensee: Option<String>,
    pub premium_category: PremiumCategory,
    pub activated_at: u64,
    pub expires_at: u64,
}

pub fn clone_opt_string(s: &Option<String>) -> (r: Option<String>)
    ensures
        r == *s,
{
    match s {
        Some(x) => Some(x.clone()),
        None => None,
    }
}

impl Clone for TlaEntry {
    fn clone(&self) -> (r: Self)
        ensures
            r == *self,
    {
        TlaEntry {
            tla_type: self.tla_type,
            status: self.status,
            licensee: clone_opt_string(&self.licensee),
            premium_category: self.premium_category,
            activated_at: self.activated_at,
            expires_at: self.expires_at,
        }
    }
}

impl TlaEntry {
    pub open spec fn spec_lifecycle(self, now: u64) -> LifecycleStatus {
        match self.status {
            TlaStatus::Registered => LifecycleStatus::Registered,
            TlaStatus::Suspended => LifecycleStatus::Suspended,
            TlaStatus::Active => time_phase(self.expires_at, now),
        }
    }

    pub fn lifecycle(&self, now: u64) -> (r: LifecycleStatus)
        ensures
            r == self.spec_lifecycle(now),
    {
        match self.status {
            TlaStatus::Registered => LifecycleStatus::Registered,
            TlaStatus::Suspended => LifecycleStatus::Suspended,
            TlaStatus::Active => phase_at(self.expires_at, now),
        }
    }
}

/// A rented sub-account, keyed by its full name.
#[derive(Debug)]
pub struct SubAccountEntry {
    pub owner: String,
    pub tla_id: String,
    pub main_wallet: String,
    pub rented_at: u64,
    pub expires_at: u64,
    pub retraction_at: Option<u64>,
}

impl Clone for SubAccountEntry {
    fn clone(&self) -> (r: Self)
        ensures
            r == *self,
    {
        SubAccountEntry {
            owner: self.owner.clone(),
            tla_id: self.tla_id.clone(),
            main_wallet: self.main_wallet.clone(),
            rented_at: self.rented_at,
            expires_at: self.expires_at,
            retraction_at: self.retraction_at,
        }
    }
}

impl SubAccountEntry {
    pub open spec fn spec_lifecycle(self, now: u64) -> LifecycleStatus {
        time_phase(self.expires_at, now)
    }

    pub fn lifecycle(&self, now: u64) -> (r: LifecycleStatus)
        ensures
            r == self.spec_lifecycle(now),
    {
        phase_at(self.expires_at, now)
    }
}

/// Whether a retraction scheduled at `at` has served its notice by `now`.
pub open spec fn retraction_elapsed(retraction_at: Option<u64>, notice_ns: u64, now: u64) -> bool {
    match retraction_at {
        Some(at) => now >= at + notice_ns,
        None => false,
    }
}

/// The lifecycle that governs a sub-account: reclaimable as soon as its own
/// grace ends, its TLA's grace ends, or a scheduled retraction's notice has
/// elapsed; otherwise its own lifecycle.
pub open spec fn spec_effective_sub_lifecycle(
    sub: SubAccountEntry,
    tla: TlaEntry,
    notice_ns: u64,
    now: u64,
) -> LifecycleStatus {
    if retraction_elapsed(sub.retraction_at, notice_ns, now) || tla.spec_lifecycle(now)
        == LifecycleStatus::Reclaimable {
        LifecycleStatus::Reclaimable
    } else {
        sub.spec_lifecycle(now)
    }
}

pub fn effective_sub_lifecycle(
    sub: &SubAccountEntry,
    tla: &TlaEntry,
    notice_ns: u64,
    now: u64,
) -> (r: LifecycleStatus)
    ensures
        r == spec_effective_sub_lifecycle(*sub, *tla, notice_ns, now),
        tla.status == TlaStatus::Active && now >= tla.expires_at + GRACE_PERIOD_NS ==> r
            == LifecycleStatus::Reclaimable,
        sub.retraction_at matches Some(at) && now >= at + notice_ns ==> r
            == LifecycleStatus::Reclaimable,
        r == LifecycleStatus::Active ==> now < sub.expires_at,
{
    let retraction_due = match sub.retraction_at {
        Some(at) => (now as u128) >= (at as u128) + (notice_ns as u128),
        None => false,
    };
    if retraction_due {
        return LifecycleStatus::Reclaimable;
    }
    match tla.lifecycle(now) {
        LifecycleStatus::Reclaimable => LifecycleStatus::Reclaimable,
        _ => sub.lifecycle(now),
    }
}

/// The registry's fee schedule.
#[derive(Clone, Copy, Debug, PartialEq, Eq, Structural)]
pub struct FeeConfig {
    pub tla_allocation_fee: u128,
    pub rent_tier_5: u128,
    pub rent_tier_8: u128,
    pub rent_tier_10: u128,
    pub rent_tier_12plus: u128,
    pub sub_fee_per_account: u128,
    pub account_creation_deposit: u128,
    pub business_max_subs: u32,
    pub retraction_notice_ns: u64,
    pub resale_commission_bps: u16,
}

/// A public sale offer for a held sub-account.
#[derive(Clone, Copy, Debug, PartialEq, Eq, Structural)]
pub struct Listing {
    pub price: u128,
    pub settling: bool,
}

/// A sale the owner agreed to with one specific buyer.
#[derive(Debug)]
pub struct AcceptedOffer {
    pub buyer: String,
    pub price: u128,
    pub settling: bool,
}

impl Clone for AcceptedOffer {
    fn clone(&self) -> (r: Self)
        ensures
            r == *self,
    {
        AcceptedOffer { buyer: self.buyer.clone(), price: self.price, settling: self.settling }
    }
}

#[derive(Debug)]
pub struct TlaView {
    pub tla_id: String,
    pub tla_type: TlaType,
    pub lifecycle: LifecycleStatus,
    pub licensee: Option<String>,
    pub premium_category: PremiumCategory,
    pub activated_at: u128,
    pub expires_at: u128,
    pub annual_rent: u128,
}

#[derive(Debug)]
pub struct SubAccountView {
    pub full_name: String,
    pub owner: String,
    pub tla_id: String,
    pub main_wallet: String,
    pub lifecycle: LifecycleStatus,
    pub rented_at: u128,
    pub expires_at: u128,
    pub annual_rent: u128,
}

#[derive(Clone, Copy, Debug, PartialEq, Eq, Structural)]
pub struct RentPriceView {
    pub rent_yocto: u128,
    pub creation_deposit_yocto: u128,
    pub total_yocto: u128,
}

#[derive(Clone, Copy, Debug, PartialEq, Eq, Structural)]
pub struct RegistryStats {
    pub tla_count: u64,
    pub sub_account_count: u64,
    pub total_revenue_yocto: u128,
    pub total_pending_refunds_yocto: u128,
}

#[derive(Debug)]
pub struct ListingView {
    pub full_name: String,
    pub price_yocto: u128,
    pub settling: bool,
}

#[derive(Debug)]
pub struct AcceptedOfferView {
    pub full_name: String,
    pub buyer: String,
    pub price_yocto: u128,
    pub settling: bool,
}

} // verus!
