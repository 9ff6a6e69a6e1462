use vstd::prelude::*;

use crate::error::ContractError;
use crate::events::{Event, PauseEvent};
use crate::fees::{default_fee_config, spec_default_fee_config};
use crate::strmap::{MapView, StrMap};
use crate::types::{AcceptedOffer, FeeConfig, Listing, SubAccountEntry, TlaEntry};

verus! {

/// The most tokens an allowlist may hold, so that a balance fan-out over it
/// fits in one transaction's gas.
pub const MAX_ALLOWLIST_SIZE: usize = 40;

/// What the chain tells a call about itself.
pub struct CallContext {
    pub predecessor: String,
    pub attached_deposit: u128,
    pub block_timestamp: u64,
}

/// The state of the TLA registry.
pub struct TlaRegistry {
    pub admins: StrMap<()>,
    pub tlas: StrMap<TlaEntry>,
    pub sub_accounts: StrMap<SubAccountEntry>,
    pub listings: StrMap<Listing>,
    pub accepted_offers: StrMap<AcceptedOffer>,
    pub pending_refunds: StrMap<u128>,
    pub mother_use_count: StrMap<u32>,
    pub business_sub_count: StrMap<u32>,
    pub ft_allowlist: StrMap<()>,
    pub nft_allowlist: StrMap<()>,
    pub fee_config: FeeConfig,
    pub total_revenue: u128,
    pub total_pending_refunds: u128,
    pub sub_account_count: u64,
    pub paused: bool,
    pub resale_locker_wasm: Vec<u8>,
}

/// The abstract state of the registry.
pub struct RegistryView {
    pub admins: MapView<()>,
    pub tlas: MapView<TlaEntry>,
    pub sub_accounts: MapView<SubAccountEntry>,
    pub listings: MapView<Listing>,
    pub accepted_offers: MapView<AcceptedOffer>,
    pub pending_refunds: MapView<u128>,
    pub mother_use_count: MapView<u32>,
    pub business_sub_count: MapView<u32>,
    pub ft_allowlist: MapView<()>,
    pub nft_allowlist: MapView<()>,
    pub fee_config: FeeConfig,
    pub total_revenue: u128,
    pub total_pending_refunds: u128,
    pub sub_account_count: u64,
    pub paused: bool,
    pub resale_locker_wasm: Seq<u8>,
}

impl View for TlaRegistry {
    type V = RegistryView;

    open spec fn view(&self) -> RegistryView {
        RegistryView {
            admins: self.admins@,
            tlas: self.tlas@,
            sub_accounts: self.sub_accounts@,
            listings: self.listings@,
            accepted_offers: self.accepted_offers@,
            pending_refunds: self.pending_refunds@,
            mother_use_count: self.mother_use_count@,
            business_sub_count: self.business_sub_count@,
            ft_allowlist: self.ft_allowlist@,
            nft_allowlist: self.nft_allowlist@,
            fee_config: self.fee_config,
            total_revenue: self.total_revenue,
            total_pending_refunds: self.total_pending_refunds,
            sub_account_count: self.sub_account_count,
            paused: self.paused,
            resale_locker_wasm: self.resale_locker_wasm@,
        }
    }
}

pub open spec fn sat_add(a: u128, b: u128) -> u128 {
    if a + b > u128::MAX {
        u128::MAX
    } else {
        (a + b) as u128
    }
}

pub open spec fn sat_sub(a: u128, b: u128) -> u128 {
    if a < b {
        0
    } else {
        (a - b) as u128
    }
}

pub open spec fn sat_add_u64(a: u64, b: u64) -> u64 {
    if a + b > u64::MAX {
        u64::MAX
    } else {
        (a + b) as u64
    }
}

/// The amount stored under `k`, or zero.
pub open spec fn amount_of(m: MapView<u128>, k: Seq<char>) -> u128 {
    if m.contains_key(k) {
        m.map[k]
    } else {
        0
    }
}

/// The count stored under `k`, or zero.
pub open spec fn count_of(m: MapView<u32>, k: Seq<char>) -> u32 {
    if m.contains_key(k) {
        m.map[k]
    } else {
        0
    }
}

/// Every pending refund is at most the recorded total of pending refunds.
pub open spec fn pending_bounded(pending: MapView<u128>, total: u128) -> bool {
    forall|k: Seq<char>| #[trigger] pending.contains_key(k) ==> pending.map[k] <= total
}

impl RegistryView {
    pub open spec fn is_admin(self, a: Seq<char>) -> bool {
        self.admins.contains_key(a)
    }

    /// The state after `amount` is queued for `account` to pull.
    pub open spec fn credit(self, account: Seq<char>, amount: u128) -> RegistryView {
        RegistryView {
            pending_refunds: self.pending_refunds.insert(
                account,
                sat_add(amount_of(self.pending_refunds, account), amount),
            ),
            total_pending_refunds: sat_add(self.total_pending_refunds, amount),
            ..self
        }
    }
}

/// What `new` gives: one admin, the default fee schedule, the resale locker
/// code it publishes, nothing else.
pub open spec fn spec_initial_state(admin: Seq<char>, resale_locker_wasm: Seq<u8>) -> RegistryView {
    RegistryView {
        admins: MapView::<()>::empty().insert(admin, ()),
        tlas: MapView::empty(),
        sub_accounts: MapView::empty(),
        listings: MapView::empty(),
        accepted_offers: MapView::empty(),
        pending_refunds: MapView::empty(),
        mother_use_count: MapView::empty(),
        business_sub_count: MapView::empty(),
        ft_allowlist: MapView::empty(),
        nft_allowlist: MapView::empty(),
        fee_config: spec_default_fee_config(),
        total_revenue: 0,
        total_pending_refunds: 0,
        sub_account_count: 0,
        paused: false,
        resale_locker_wasm,
    }
}

pub fn sat_add_u128(a: u128, b: u128) -> (r: u128)
    ensures
        r == sat_add(a, b),
{
    a.saturating_add(b)
}

pub fn sat_sub_u128(a: u128, b: u128) -> (r: u128)
    ensures
        r == sat_sub(a, b),
{
    a.saturating_sub(b)
}

impl TlaRegistry {
    /// Well-formedness: every map is well formed, there is always an admin,
    /// neither token allowlist outgrows `MAX_ALLOWLIST_SIZE`, and no single
    /// pending refund exceeds the total of pending refunds.
    pub open spec fn wf(&self) -> bool {
        &&& self.admins.wf()
        &&& self.tlas.wf()
        &&& self.sub_accounts.wf()
        &&& self.listings.wf()
        &&& self.accepted_offers.wf()
        &&& self.pending_refunds.wf()
        &&& self.mother_use_count.wf()
        &&& self.business_sub_count.wf()
        &&& self.ft_allowlist.wf()
        &&& self.nft_allowlist.wf()
        &&& self.admins@.keys.len() >= 1
        &&& self.ft_allowlist@.keys.len() <= MAX_ALLOWLIST_SIZE
        &&& self.nft_allowlist@.keys.len() <= MAX_ALLOWLIST_SIZE
        &&& pending_bounded(self.pending_refunds@, self.total_pending_refunds)
    }

    pub fn new(admin: String, resale_locker_wasm: Vec<u8>) -> (r: TlaRegistry)
        ensures
            r.wf(),
            r@ == spec_initial_state(admin@, resale_locker_wasm@),
    {
        let mut admins = StrMap::new();
        admins.insert(admin, ());
        TlaRegistry {
            admins,
            tlas: StrMap::new(),
            sub_accounts: StrMap::new(),
            listings: StrMap::new(),
            accepted_offers: StrMap::new(),
            pending_refunds: StrMap::new(),
            mother_use_count: StrMap::new(),
            business_sub_count: StrMap::new(),
            ft_allowlist: StrMap::new(),
            nft_allowlist: StrMap::new(),
            fee_config: default_fee_config(),
            total_revenue: 0,
            total_pending_refunds: 0,
            sub_account_count: 0,
            paused: false,
            resale_locker_wasm,
        }
    }

    pub fn assert_admin(&self, ctx: &CallContext) -> (r: Result<(), ContractError>)
        requires
            self.wf(),
        ensures
            r is Ok <==> self@.is_admin(ctx.predecessor@),
            r matches Err(e) ==> e == ContractError::Unauthorized,
    {
        if self.admins.contains_key(&ctx.predecessor) {
            Ok(())
        } else {
            Err(ContractError::Unauthorized)
        }
    }

    pub fn assert_not_paused(&self) -> (r: Result<(), ContractError>)
        ensures
            r is Ok <==> !self.paused,
            r matches Err(e) ==> e == ContractError::Paused,
    {
        if self.paused {
            Err(ContractError::Paused)
        } else {
            Ok(())
        }
    }

    /// Queues `amount` for `account` to pull later.
    pub fn add_pending_refund(&mut self, account: &String, amount: u128)
        requires
            old(self).wf(),
        ensures
            final(self).wf(),
            final(self)@ == old(self)@.credit(account@, amount),
    {
        let current = match self.pending_refunds.get(account) {
            Some(v) => *v,
            None => 0,
        };
        let updated = sat_add_u128(current, amount);
        proof {
            assert(current <= self.total_pending_refunds);
        }
        self.pending_refunds.insert(account.clone(), updated);
        self.total_pending_refunds = sat_add_u128(self.total_pending_refunds, amount);
        proof {
            let pm = self.pending_refunds@;
            let total = self.total_pending_refunds;
            assert forall|k: Seq<char>| #[trigger] pm.contains_key(k) implies pm.map[k] <= total by {
                if k != account@ {
                    assert(old(self).pending_refunds@.contains_key(k));
                    assert(old(self).pending_refunds@.map[k] <= old(self).total_pending_refunds);
                }
            }
            assert(pending_bounded(pm, total));
        }
    }

    pub fn get_pending_refund(&self, account_id: &String) -> (r: u128)
        requires
            self.wf(),
        ensures
            r == amount_of(self@.pending_refunds, account_id@),
    {
        match self.pending_refunds.get(account_id) {
            Some(v) => *v,
            None => 0,
        }
    }

    pub fn get_total_pending_refunds(&self) -> (r: u128)
        ensures
            r == self.total_pending_refunds,
    {
        self.total_pending_refunds
    }

    pub fn is_paused(&self) -> (r: bool)
        ensures
            r == self.paused,
    {
        self.paused
    }

    pub fn pause(&mut self, ctx: &CallContext) -> (r: Result<Event, ContractError>)
        requires
            old(self).wf(),
        ensures
            final(self).wf(),
            r is Ok <==> old(self)@.is_admin(ctx.predecessor@),
            r matches Err(e) ==> e == ContractError::Unauthorized && *final(self) == *old(self),
            r matches Ok(ev) ==> (ev matches Event::ContractPaused(p) && p.by@ == ctx.predecessor@)
                && final(self)@ == (RegistryView { paused: true, ..old(self)@ }),
    {
        self.assert_admin(ctx)?;
        self.paused = true;
        Ok(Event::ContractPaused(PauseEvent { by: ctx.predecessor.clone() }))
    }

    pub fn unpause(&mut self, ctx: &CallContext) -> (r: Result<Event, ContractError>)
        requires
            old(self).wf(),
        ensures
            final(self).wf(),
            r is Ok <==> old(self)@.is_admin(ctx.predecessor@),
            r matches Err(e) ==> e == ContractError::Unauthorized && *final(self) == *old(self),
            r matches Ok(ev) ==> (ev matches Event::ContractUnpaused(p) && p.by@ == ctx.predecessor@)
                && final(self)@ == (RegistryView { paused: false, ..old(self)@ }),
    {
        self.assert_admin(ctx)?;
        self.paused = false;
        Ok(Event::ContractUnpaused(PauseEvent { by: ctx.predecessor.clone() }))
    }
}

/// The one-yocto proof of a full-access key: exactly 1 yoctoNEAR attached.
pub fn assert_one_yocto(ctx: &CallContext) -> (r: Result<(), ContractError>)
    ensures
        r is Ok <==> ctx.attached_deposit == 1,
        r matches Err(e) ==> e == ContractError::RequiresOneYocto,
{
    if ctx.attached_deposit == 1 {
        Ok(())
    } else {
        Err(ContractError::RequiresOneYocto)
    }
}

} // verus!
