use vstd::prelude::*;

use crate::error::ContractError;
use crate::events::{
    AdminChangeEvent, AllowlistEvent, Event, PauseEvent, TlaActivatedEvent, TlaRegisteredEvent,
    TlaSuspendedEvent, WithdrawalEvent,
};
use crate::registry::{
    sat_add, sat_add_u128, sat_add_u64, sat_sub_u128, CallContext, RegistryView, TlaRegistry,
    MAX_ALLOWLIST_SIZE,
};
use crate::strmap::MapView;
use crate::types::{
    clone_opt_string, FeeConfig, PremiumCategory, TlaEntry, TlaStatus, TlaType, ONE_YEAR_NS,
};

verus! {

pub open spec fn spec_tla_type_str(t: TlaType) -> Seq<char> {
    match t {
        TlaType::Business => "business"@,
        TlaType::Open => "open"@,
    }
}

pub open spec fn spec_premium_str(p: PremiumCategory) -> Seq<char> {
    match p {
        PremiumCategory::Legendary => "legendary"@,
        PremiumCategory::Premium => "premium"@,
        PremiumCategory::Standard => "standard"@,
        PremiumCategory::Community => "community"@,
    }
}

pub fn tla_type_str(t: TlaType) -> (s: String)
    ensures
        s@ == spec_tla_type_str(t),
{
    match t {
        TlaType::Business => "business".to_owned(),
        TlaType::Open => "open".to_owned(),
    }
}

pub fn premium_str(p: PremiumCategory) -> (s: String)
    ensures
        s@ == spec_premium_str(p),
{
    match p {
        PremiumCategory::Legendary => "legendary".to_owned(),
        PremiumCategory::Premium => "premium".to_owned(),
        PremiumCategory::Standard => "standard".to_owned(),
        PremiumCategory::Community => "community".to_owned(),
    }
}

/// The error `register_tla` answers, if any.
pub open spec fn register_tla_error(
    st: RegistryView,
    caller: Seq<char>,
    tla_id: Seq<char>,
    tla_type: TlaType,
    licensee: Option<String>,
) -> Option<ContractError> {
    if !st.is_admin(caller) {
        Some(ContractError::Unauthorized)
    } else if st.tlas.contains_key(tla_id) {
        Some(ContractError::TlaAlreadyRegistered)
    } else if tla_type == TlaType::Business && licensee is None {
        Some(ContractError::BusinessTlaRequiresLicensee)
    } else {
        None
    }
}

/// The error `unsuspend_tla` answers, if any.
pub open spec fn unsuspend_tla_error(st: RegistryView, caller: Seq<char>, tla_id: Seq<char>) -> Option<
    ContractError,
> {
    if !st.is_admin(caller) {
        Some(ContractError::Unauthorized)
    } else if !st.tlas.contains_key(tla_id) {
        Some(ContractError::TlaNotFound)
    } else if st.tlas.map[tla_id].status != TlaStatus::Suspended {
        Some(ContractError::TlaNotSuspended)
    } else if st.tlas.map[tla_id].tla_type == TlaType::Business && st.tlas.map[tla_id].licensee is None {
        Some(ContractError::BusinessTlaMissingLicensee)
    } else {
        None
    }
}

/// The error `update_fee_config` answers, if any.
pub open spec fn fee_config_error(st: RegistryView, caller: Seq<char>, c: FeeConfig) -> Option<
    ContractError,
> {
    if !st.is_admin(caller) {
        Some(ContractError::Unauthorized)
    } else if c.rent_tier_5 == 0 && c.rent_tier_8 == 0 && c.rent_tier_10 == 0 && c.rent_tier_12plus
        == 0 {
        Some(ContractError::AllRentTiersZero)
    } else if c.account_creation_deposit == 0 {
        Some(ContractError::CreationDepositZero)
    } else if c.resale_commission_bps > 10_000 {
        Some(ContractError::InvalidCommissionBps)
    } else {
        None
    }
}

/// The error `withdraw` answers, if any.
pub open spec fn withdraw_error(
    st: RegistryView,
    caller: Seq<char>,
    amount: u128,
    available_balance: u128,
) -> Option<ContractError> {
    if !st.is_admin(caller) {
        Some(ContractError::Unauthorized)
    } else if amount == 0 {
        Some(ContractError::WithdrawalAmountZero)
    } else if amount > st.total_revenue {
        Some(ContractError::InsufficientRevenue)
    } else if sat_add(st.total_pending_refunds, amount) > available_balance {
        Some(ContractError::InsufficientContractBalance)
    } else {
        None
    }
}

/// The error `activate_open_tla` answers, if any.
pub open spec fn activate_open_error(st: RegistryView, caller: Seq<char>, tla_id: Seq<char>) -> Option<
    ContractError,
> {
    if !st.is_admin(caller) {
        Some(ContractError::Unauthorized)
    } else if !st.tlas.contains_key(tla_id) {
        Some(ContractError::TlaNotFound)
    } else if st.tlas.map[tla_id].status != TlaStatus::Registered {
        Some(ContractError::TlaNotInRegisteredState)
    } else if st.tlas.map[tla_id].tla_type != TlaType::Open {
        Some(ContractError::WrongActivationEndpoint)
    } else {
        None
    }
}

/// Which token allowlist an operation acts on.
#[derive(Clone, Copy, Debug, PartialEq, Eq, Structural)]
pub enum AllowlistKind {
    Ft,
    Nft,
}

pub open spec fn allowlist_of(st: RegistryView, kind: AllowlistKind) -> MapView<()> {
    match kind {
        AllowlistKind::Ft => st.ft_allowlist,
        AllowlistKind::Nft => st.nft_allowlist,
    }
}

pub open spec fn with_allowlist(st: RegistryView, kind: AllowlistKind, l: MapView<()>) -> RegistryView {
    match kind {
        AllowlistKind::Ft => RegistryView { ft_allowlist: l, ..st },
        AllowlistKind::Nft => RegistryView { nft_allowlist: l, ..st },
    }
}

pub open spec fn spec_kind_str(kind: AllowlistKind) -> Seq<char> {
    match kind {
        AllowlistKind::Ft => "ft"@,
        AllowlistKind::Nft => "nft"@,
    }
}

impl TlaRegistry {
    pub fn register_tla(
        &mut self,
        ctx: &CallContext,
        tla_id: String,
        tla_type: TlaType,
        premium_category: PremiumCategory,
        licensee: Option<String>,
    ) -> (r: Result<Event, ContractError>)
        requires
            old(self).wf(),
        ensures
            final(self).wf(),
            r is Err <==> register_tla_error(old(self)@, ctx.predecessor@, tla_id@, tla_type, licensee)
                is Some,
            r matches Err(e) ==> Some(e) == register_tla_error(
                old(self)@,
                ctx.predecessor@,
                tla_id@,
                tla_type,
                licensee,
            ) && *final(self) == *old(self),
            r is Ok ==> final(self)@ == (RegistryView {
                tlas: old(self)@.tlas.insert(
                    tla_id@,
                    TlaEntry {
                        tla_type,
                        status: TlaStatus::Registered,
                        licensee,
                        premium_category,
                        activated_at: 0,
                        expires_at: 0,
                    },
                ),
                ..old(self)@
            }),
            r matches Ok(ev) ==> ev matches Event::TlaRegistered(e) && e.tla_id@ == tla_id@
                && e.tla_type@ == spec_tla_type_str(tla_type) && e.premium_category@ == spec_premium_str(
                premium_category,
            ) && e.licensee == licensee,
    {
        self.assert_admin(ctx)?;
        if self.tlas.contains_key(&tla_id) {
            return Err(ContractError::TlaAlreadyRegistered);
        }
        if tla_type == TlaType::Business && licensee.is_none() {
            return Err(ContractError::BusinessTlaRequiresLicensee);
        }
        let entry = TlaEntry {
            tla_type,
            status: TlaStatus::Registered,
            licensee: clone_opt_string(&licensee),
            premium_category,
            activated_at: 0,
            expires_at: 0,
        };
        self.tlas.insert(tla_id.clone(), entry);
        Ok(
            Event::TlaRegistered(
                TlaRegisteredEvent {
                    tla_id,
                    tla_type: tla_type_str(tla_type),
                    premium_category: premium_str(premium_category),
                    licensee,
                },
            ),
        )
    }

    pub fn suspend_tla(&mut self, ctx: &CallContext, tla_id: String) -> (r: Result<
        Event,
        ContractError,
    >)
        requires
            old(self).wf(),
        ensures
            final(self).wf(),
            !old(self)@.is_admin(ctx.predecessor@) ==> r == Err::<Event, ContractError>(
                ContractError::Unauthorized,
            ),
            old(self)@.is_admin(ctx.predecessor@) && !old(self)@.tlas.contains_key(tla_id@) ==> r
                == Err::<Event, ContractError>(ContractError::TlaNotFound),
            r is Err ==> *final(self) == *old(self),
            r is Ok <==> old(self)@.is_admin(ctx.predecessor@) && old(self)@.tlas.contains_key(
                tla_id@,
            ),
            r is Ok ==> final(self)@ == (RegistryView {
                tlas: old(self)@.tlas.insert(
                    tla_id@,
                    TlaEntry { status: TlaStatus::Suspended, ..old(self)@.tlas.map[tla_id@] },
                ),
                ..old(self)@
            }),
            r matches Ok(ev) ==> ev matches Event::TlaSuspended(e) && e.tla_id@ == tla_id@
                && e.action@ == "suspended"@ && e.by@ == ctx.predecessor@,
    {
        self.assert_admin(ctx)?;
        let mut entry = match self.tlas.get(&tla_id) {
            Some(e) => e.clone(),
            None => return Err(ContractError::TlaNotFound),
        };
        entry.status = TlaStatus::Suspended;
        self.tlas.insert(tla_id.clone(), entry);
        Ok(
            Event::TlaSuspended(
                TlaSuspendedEvent {
                    tla_id,
                    action: "suspended".to_owned(),
                    by: ctx.predecessor.clone(),
                },
            ),
        )
    }

    pub fn unsuspend_tla(&mut self, ctx: &CallContext, tla_id: String) -> (r: Result<
        Event,
        ContractError,
    >)
        requires
            old(self).wf(),
        ensures
            final(self).wf(),
            r is Err <==> unsuspend_tla_error(old(self)@, ctx.predecessor@, tla_id@) is Some,
            r matches Err(e) ==> Some(e) == unsuspend_tla_error(old(self)@, ctx.predecessor@, tla_id@)
                && *final(self) == *old(self),
            r is Ok ==> final(self)@ == (RegistryView {
                tlas: old(self)@.tlas.insert(
                    tla_id@,
                    TlaEntry { status: TlaStatus::Active, ..old(self)@.tlas.map[tla_id@] },
                ),
                ..old(self)@
            }),
            r matches Ok(ev) ==> ev matches Event::TlaUnsuspended(e) && e.tla_id@ == tla_id@
                && e.action@ == "unsuspended"@ && e.by@ == ctx.predecessor@,
    {
        self.assert_admin(ctx)?;
        let mut entry = match self.tlas.get(&tla_id) {
            Some(e) => e.clone(),
            None => return Err(ContractError::TlaNotFound),
        };
        if entry.status != TlaStatus::Suspended {
            return Err(ContractError::TlaNotSuspended);
        }
        if entry.tla_type == TlaType::Business && entry.licensee.is_none() {
            return Err(ContractError::BusinessTlaMissingLicensee);
        }
        entry.status = TlaStatus::Active;
        self.tlas.insert(tla_id.clone(), entry);
        Ok(
            Event::TlaUnsuspended(
                TlaSuspendedEvent {
                    tla_id,
                    action: "unsuspended".to_owned(),
                    by: ctx.predecessor.clone(),
                },
            ),
        )
    }

    /// Adds an admin; adding an existing admin changes nothing and emits no
    /// event.
    pub fn add_admin(&mut self, ctx: &CallContext, account_id: String) -> (r: Result<
        Option<Event>,
        ContractError,
    >)
        requires
            old(self).wf(),
        ensures
            final(self).wf(),
            r is Ok <==> old(self)@.is_admin(ctx.predecessor@),
            r matches Err(e) ==> e == ContractError::Unauthorized && *final(self) == *old(self),
            r is Ok ==> final(self)@ == (RegistryView {
                admins: old(self)@.admins.insert(account_id@, ()),
                ..old(self)@
            }),
            r matches Ok(None) ==> old(self)@.is_admin(account_id@),
            r matches Ok(Some(ev)) ==> !old(self)@.is_admin(account_id@) && (ev matches Event::AdminAdded(
                e,
            ) && e.action@ == "added"@ && e.account@ == account_id@ && e.by@ == ctx.predecessor@),
    {
        self.assert_admin(ctx)?;
        if self.admins.contains_key(&account_id) {
            proof {
                assert(self.admins@.map.insert(account_id@, ()) =~= self.admins@.map);
            }
            return Ok(None);
        }
        self.admins.insert(account_id.clone(), ());
        Ok(
            Some(
                Event::AdminAdded(
                    AdminChangeEvent {
                        action: "added".to_owned(),
                        account: account_id,
                        by: ctx.predecessor.clone(),
                    },
                ),
            ),
        )
    }

    /// Removes an admin, refusing while only one admin remains.
    pub fn remove_admin(&mut self, ctx: &CallContext, account_id: String) -> (r: Result<
        Event,
        ContractError,
    >)
        requires
            old(self).wf(),
        ensures
            final(self).wf(),
            !old(self)@.is_admin(ctx.predecessor@) ==> r == Err::<Event, ContractError>(
                ContractError::Unauthorized,
            ),
            old(self)@.is_admin(ctx.predecessor@) && old(self)@.admins.keys.len() <= 1 ==> r == Err::<
                Event,
                ContractError,
            >(ContractError::CannotRemoveLastAdmin),
            r is Ok <==> old(self)@.is_admin(ctx.predecessor@) && old(self)@.admins.keys.len() > 1,
            r is Err ==> *final(self) == *old(self),
            r is Ok ==> final(self)@ == (RegistryView {
                admins: old(self)@.admins.remove(account_id@),
                ..old(self)@
            }),
            r matches Ok(ev) ==> ev matches Event::AdminRemoved(e) && e.action@ == "removed"@
                && e.account@ == account_id@ && e.by@ == ctx.predecessor@,
    {
        self.assert_admin(ctx)?;
        if self.admins.len() <= 1 {
            return Err(ContractError::CannotRemoveLastAdmin);
        }
        proof {
            self.admins.lemma_wf_consistent();
            self.admins@.lemma_remove_len(account_id@);
        }
        self.admins.remove(&account_id);
        Ok(
            Event::AdminRemoved(
                AdminChangeEvent {
                    action: "removed".to_owned(),
                    account: account_id,
                    by: ctx.predecessor.clone(),
                },
            ),
        )
    }

    pub fn update_fee_config(&mut self, ctx: &CallContext, config: FeeConfig) -> (r: Result<
        Event,
        ContractError,
    >)
        requires
            old(self).wf(),
        ensures
            final(self).wf(),
            r is Err <==> fee_config_error(old(self)@, ctx.predecessor@, config) is Some,
            r matches Err(e) ==> Some(e) == fee_config_error(old(self)@, ctx.predecessor@, config)
                && *final(self) == *old(self),
            r is Ok ==> final(self)@ == (RegistryView { fee_config: config, ..old(self)@ }),
            r is Ok <==> old(self)@.admins.contains_key(ctx.predecessor@) && (config.rent_tier_5 != 0
                || config.rent_tier_8 != 0 || config.rent_tier_10 != 0 || config.rent_tier_12plus != 0)
                && config.account_creation_deposit != 0 && config.resale_commission_bps <= 10_000,
            r == Err::<Event, ContractError>(ContractError::AllRentTiersZero) ==> config.rent_tier_5 == 0
                && config.rent_tier_8 == 0 && config.rent_tier_10 == 0 && config.rent_tier_12plus == 0,
            r matches Ok(ev) ==> ev matches Event::FeeConfigUpdated(e) && e.by@ == ctx.predecessor@,
    {
        self.assert_admin(ctx)?;
        if config.rent_tier_5 == 0 && config.rent_tier_8 == 0 && config.rent_tier_10 == 0
            && config.rent_tier_12plus == 0 {
            return Err(ContractError::AllRentTiersZero);
        }
        if config.account_creation_deposit == 0 {
            return Err(ContractError::CreationDepositZero);
        }
        if config.resale_commission_bps > 10_000 {
            return Err(ContractError::InvalidCommissionBps);
        }
        self.fee_config = config;
        Ok(Event::FeeConfigUpdated(PauseEvent { by: ctx.predecessor.clone() }))
    }

    /// Moves `amount` of revenue into `recipient`'s pending refunds, provided
    /// the contract's `available_balance` covers every pending refund after.
    pub fn withdraw(
        &mut self,
        ctx: &CallContext,
        amount: u128,
        recipient: String,
        available_balance: u128,
    ) -> (r: Result<Event, ContractError>)
        requires
            old(self).wf(),
        ensures
            final(self).wf(),
            r is Err <==> withdraw_error(old(self)@, ctx.predecessor@, amount, available_balance)
                is Some,
            r matches Err(e) ==> Some(e) == withdraw_error(
                old(self)@,
                ctx.predecessor@,
                amount,
                available_balance,
            ) && *final(self) == *old(self),
            r is Ok ==> final(self)@ == (RegistryView {
                total_revenue: (old(self).total_revenue - amount) as u128,
                ..old(self)@
            }).credit(recipient@, amount),
            r is Ok <==> old(self)@.admins.contains_key(ctx.predecessor@) && 0 < amount && amount
                <= old(self).total_revenue && (old(self).total_pending_refunds + amount <= available_balance
                || (old(self).total_pending_refunds + amount > u128::MAX && available_balance == u128::MAX)),
            r is Ok ==> final(self).total_revenue == old(self).total_revenue - amount,
            r is Ok && available_balance < u128::MAX ==> final(self).total_pending_refunds
                == old(self).total_pending_refunds + amount,
            r matches Ok(ev) ==> ev matches Event::WithdrawalQueued(e) && e.amount_yocto == amount
                && e.recipient@ == recipient@,
    {
        self.assert_admin(ctx)?;
        if amount == 0 {
            return Err(ContractError::WithdrawalAmountZero);
        }
        if amount > self.total_revenue {
            return Err(ContractError::InsufficientRevenue);
        }
        if sat_add_u128(self.total_pending_refunds, amount) > available_balance {
            return Err(ContractError::InsufficientContractBalance);
        }
        self.total_revenue = sat_sub_u128(self.total_revenue, amount);
        self.add_pending_refund(&recipient, amount);
        Ok(Event::WithdrawalQueued(WithdrawalEvent { amount_yocto: amount, recipient }))
    }

    /// Adds a token to an allowlist; an already present token changes nothing
    /// and emits no event.
    pub fn add_allowlist(&mut self, ctx: &CallContext, kind: AllowlistKind, token: String) -> (r:
        Result<Option<Event>, ContractError>)
        requires
            old(self).wf(),
        ensures
            final(self).wf(),
            !old(self)@.is_admin(ctx.predecessor@) ==> r == Err::<Option<Event>, ContractError>(
                ContractError::Unauthorized,
            ),
            old(self)@.is_admin(ctx.predecessor@) && allowlist_of(old(self)@, kind).contains_key(
                token@,
            ) ==> r == Ok::<Option<Event>, ContractError>(None) && *final(self) == *old(self),
            old(self)@.is_admin(ctx.predecessor@) && !allowlist_of(old(self)@, kind).contains_key(
                token@,
            ) && allowlist_of(old(self)@, kind).keys.len() >= MAX_ALLOWLIST_SIZE ==> r == Err::<
                Option<Event>,
                ContractError,
            >(ContractError::AllowlistFull),
            r is Err ==> *final(self) == *old(self),
            r matches Ok(None) ==> allowlist_of(old(self)@, kind).contains_key(token@) && *final(self)
                == *old(self),
            r matches Ok(Some(ev)) ==> final(self)@ == with_allowlist(
                old(self)@,
                kind,
                allowlist_of(old(self)@, kind).insert(token@, ()),
            ) && (match kind {
                AllowlistKind::Ft => ev is FtAllowlistAdded,
                AllowlistKind::Nft => ev is NftAllowlistAdded,
            }) && (ev matches Event::FtAllowlistAdded(e) ==> e.kind@ == "ft"@ && e.token@ == token@
                && e.by@ == ctx.predecessor@) && (ev matches Event::NftAllowlistAdded(e) ==> e.kind@
                == "nft"@ && e.token@ == token@ && e.by@ == ctx.predecessor@),
            r is Ok <==> old(self)@.is_admin(ctx.predecessor@) && (allowlist_of(
                old(self)@,
                kind,
            ).contains_key(token@) || allowlist_of(old(self)@, kind).keys.len()
                < MAX_ALLOWLIST_SIZE),
    {
        self.assert_admin(ctx)?;
        let list = match kind {
            AllowlistKind::Ft => &mut self.ft_allowlist,
            AllowlistKind::Nft => &mut self.nft_allowlist,
        };
        if list.contains_key(&token) {
            return Ok(None);
        }
        if list.len() >= MAX_ALLOWLIST_SIZE {
            return Err(ContractError::AllowlistFull);
        }
        list.insert(token.clone(), ());
        let by = ctx.predecessor.clone();
        match kind {
            AllowlistKind::Ft => Ok(
                Some(Event::FtAllowlistAdded(AllowlistEvent { kind: "ft".to_owned(), token, by })),
            ),
            AllowlistKind::Nft => Ok(
                Some(Event::NftAllowlistAdded(AllowlistEvent { kind: "nft".to_owned(), token, by })),
            ),
        }
    }

    /// Removes a token from an allowlist; an absent token changes nothing and
    /// emits no event.
    pub fn remove_allowlist(&mut self, ctx: &CallContext, kind: AllowlistKind, token: String) -> (r:
        Result<Option<Event>, ContractError>)
        requires
            old(self).wf(),
        ensures
            final(self).wf(),
            r is Ok <==> old(self)@.is_admin(ctx.predecessor@),
            r matches Err(e) ==> e == ContractError::Unauthorized && *final(self) == *old(self),
            r matches Ok(None) ==> !allowlist_of(old(self)@, kind).contains_key(token@) && *final(self)
                == *old(self),
            r matches Ok(Some(ev)) ==> allowlist_of(old(self)@, kind).contains_key(token@) && final(self)@ == with_allowlist(old(self)@, kind, allowlist_of(old(self)@, kind).remove(token@))
                && (match kind {
                AllowlistKind::Ft => ev is FtAllowlistRemoved,
                AllowlistKind::Nft => ev is NftAllowlistRemoved,
            }) && (ev matches Event::FtAllowlistRemoved(e) ==> e.kind@ == "ft"@ && e.token@ == token@
                && e.by@ == ctx.predecessor@) && (ev matches Event::NftAllowlistRemoved(e) ==> e.kind@
                == "nft"@ && e.token@ == token@ && e.by@ == ctx.predecessor@),
    {
        self.assert_admin(ctx)?;
        let list = match kind {
            AllowlistKind::Ft => &mut self.ft_allowlist,
            AllowlistKind::Nft => &mut self.nft_allowlist,
        };
        if !list.contains_key(&token) {
            return Ok(None);
        }
        proof {
            list.lemma_wf_consistent();
            list@.lemma_remove_len(token@);
        }
        list.remove(&token);
        let by = ctx.predecessor.clone();
        match kind {
            AllowlistKind::Ft => Ok(
                Some(Event::FtAllowlistRemoved(AllowlistEvent { kind: "ft".to_owned(), token, by })),
            ),
            AllowlistKind::Nft => Ok(
                Some(
                    Event::NftAllowlistRemoved(AllowlistEvent { kind: "nft".to_owned(), token, by }),
                ),
            ),
        }
    }

    pub fn add_ft_allowlist(&mut self, ctx: &CallContext, token: String) -> (r: Result<
        Option<Event>,
        ContractError,
    >)
        requires
            old(self).wf(),
        ensures
            final(self).wf(),
            r is Ok <==> old(self)@.is_admin(ctx.predecessor@) && (old(self)@.ft_allowlist.contains_key(
                token@,
            ) || old(self)@.ft_allowlist.keys.len() < MAX_ALLOWLIST_SIZE),
            r matches Err(e) ==> *final(self) == *old(self) && (if old(self)@.is_admin(
                ctx.predecessor@,
            ) {
                e == ContractError::AllowlistFull
            } else {
                e == ContractError::Unauthorized
            }),
            r matches Ok(None) ==> old(self)@.ft_allowlist.contains_key(token@) && *final(self)
                == *old(self),
            r matches Ok(Some(_)) ==> !old(self)@.ft_allowlist.contains_key(token@),
            r matches Ok(Some(ev)) ==> final(self)@ == (RegistryView {
                ft_allowlist: old(self)@.ft_allowlist.insert(token@, ()),
                ..old(self)@
            }) && (ev matches Event::FtAllowlistAdded(e) && e.kind@ == "ft"@ && e.token@ == token@
                && e.by@ == ctx.predecessor@),
    {
        self.add_allowlist(ctx, AllowlistKind::Ft, token)
    }

    pub fn remove_ft_allowlist(&mut self, ctx: &CallContext, token: String) -> (r: Result<
        Option<Event>,
        ContractError,
    >)
        requires
            old(self).wf(),
        ensures
            final(self).wf(),
            r is Ok <==> old(self)@.is_admin(ctx.predecessor@),
            r matches Err(e) ==> e == ContractError::Unauthorized && *final(self) == *old(self),
            r matches Ok(None) ==> !old(self)@.ft_allowlist.contains_key(token@) && *final(self)
                == *old(self),
            r matches Ok(Some(ev)) ==> final(self)@ == (RegistryView {
                ft_allowlist: old(self)@.ft_allowlist.remove(token@),
                ..old(self)@
            }) && (ev matches Event::FtAllowlistRemoved(e) && e.kind@ == "ft"@ && e.token@ == token@
                && e.by@ == ctx.predecessor@),
    {
        self.remove_allowlist(ctx, AllowlistKind::Ft, token)
    }

    pub fn add_nft_allowlist(&mut self, ctx: &CallContext, token: String) -> (r: Result<
        Option<Event>,
        ContractError,
    >)
        requires
            old(self).wf(),
        ensures
            final(self).wf(),
            r is Ok <==> old(self)@.is_admin(ctx.predecessor@) && (old(self)@.nft_allowlist.contains_key(token@) || old(self)@.nft_allowlist.keys.len()
                < MAX_ALLOWLIST_SIZE),
            r matches Err(e) ==> *final(self) == *old(self) && (if old(self)@.is_admin(
                ctx.predecessor@,
            ) {
                e == ContractError::AllowlistFull
            } else {
                e == ContractError::Unauthorized
            }),
            r matches Ok(None) ==> old(self)@.nft_allowlist.contains_key(token@) && *final(self)
                == *old(self),
            r matches Ok(Some(_)) ==> !old(self)@.nft_allowlist.contains_key(token@),
            r matches Ok(Some(ev)) ==> final(self)@ == (RegistryView {
                nft_allowlist: old(self)@.nft_allowlist.insert(token@, ()),
                ..old(self)@
            }) && (ev matches Event::NftAllowlistAdded(e) && e.kind@ == "nft"@ && e.token@ == token@
                && e.by@ == ctx.predecessor@),
    {
        self.add_allowlist(ctx, AllowlistKind::Nft, token)
    }

    pub fn remove_nft_allowlist(&mut self, ctx: &CallContext, token: String) -> (r: Result<
        Option<Event>,
        ContractError,
    >)
        requires
            old(self).wf(),
        ensures
            final(self).wf(),
            r is Ok <==> old(self)@.is_admin(ctx.predecessor@),
            r matches Err(e) ==> e == ContractError::Unauthorized && *final(self) == *old(self),
            r matches Ok(None) ==> !old(self)@.nft_allowlist.contains_key(token@) && *final(self)
                == *old(self),
            r matches Ok(Some(ev)) ==> final(self)@ == (RegistryView {
                nft_allowlist: old(self)@.nft_allowlist.remove(token@),
                ..old(self)@
            }) && (ev matches Event::NftAllowlistRemoved(e) && e.kind@ == "nft"@ && e.token@
                == token@ && e.by@ == ctx.predecessor@),
    {
        self.remove_allowlist(ctx, AllowlistKind::Nft, token)
    }

    /// Activates a registered Open TLA for one year from now, free of charge.
    pub fn activate_open_tla(&mut self, ctx: &CallContext, tla_id: String) -> (r: Result<
        Event,
        ContractError,
    >)
        requires
            old(self).wf(),
        ensures
            final(self).wf(),
            r is Err <==> activate_open_error(old(self)@, ctx.predecessor@, tla_id@) is Some,
            r matches Err(e) ==> Some(e) == activate_open_error(old(self)@, ctx.predecessor@, tla_id@)
                && *final(self) == *old(self),
            r is Ok ==> final(self)@ == (RegistryView {
                tlas: old(self)@.tlas.insert(
                    tla_id@,
                    TlaEntry {
                        status: TlaStatus::Active,
                        activated_at: ctx.block_timestamp,
                        expires_at: sat_add_u64(ctx.block_timestamp, ONE_YEAR_NS),
                        ..old(self)@.tlas.map[tla_id@]
                    },
                ),
                ..old(self)@
            }),
            r matches Ok(ev) ==> ev matches Event::TlaActivated(e) && e.tla_id@ == tla_id@
                && e.expires_at == sat_add_u64(ctx.block_timestamp, ONE_YEAR_NS) && e.paid_yocto == 0,
    {
        self.assert_admin(ctx)?;
        let now = ctx.block_timestamp;
        let mut entry = match self.tlas.get(&tla_id) {
            Some(e) => e.clone(),
            None => return Err(ContractError::TlaNotFound),
        };
        if entry.status != TlaStatus::Registered {
            return Err(ContractError::TlaNotInRegisteredState);
        }
        if entry.tla_type != TlaType::Open {
            return Err(ContractError::WrongActivationEndpoint);
        }
        let expires_at = now.saturating_add(ONE_YEAR_NS);
        entry.status = TlaStatus::Active;
        entry.activated_at = now;
        entry.expires_at = expires_at;
        self.tlas.insert(tla_id.clone(), entry);
        Ok(Event::TlaActivated(TlaActivatedEvent { tla_id, expires_at, paid_yocto: 0 }))
    }
}

} // verus!
