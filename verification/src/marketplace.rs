use vstd::prelude::*;

use crate::account::{account_id_is_valid, is_valid_account_id, spec_sub_account_key, sub_account_key};
use crate::error::ContractError;
use crate::events::{
    Event, OfferAcceptedEvent, OfferRevokedEvent, SaleBlockedEvent, SaleFailedEvent,
    SubAccountListedEvent, SubAccountSoldEvent, SubAccountUnlistedEvent,
};
use crate::registry::{
    assert_one_yocto, count_of, sat_add, sat_add_u128, sat_sub, sat_sub_u128, CallContext,
    RegistryView, TlaRegistry,
};
use crate::types::{
    effective_sub_lifecycle, spec_effective_sub_lifecycle, AcceptedOffer, AcceptedOfferView,
    LifecycleStatus, Listing, ListingView, SubAccountEntry, TlaStatus, GRACE_PERIOD_NS,
};

verus! {

/// Commission rates are in basis points of this denominator.
pub const BPS_DENOMINATOR: u128 = 10_000;

/// Whether a sale of `key` is waiting on its settlement callback.
pub open spec fn sale_busy(st: RegistryView, key: Seq<char>) -> bool {
    ||| st.listings.contains_key(key) && st.listings.map[key].settling
    ||| st.accepted_offers.contains_key(key) && st.accepted_offers.map[key].settling
}

/// Whether `key` may be traded now, answering its owner if so: a valid
/// account id, not anyone's mother, rented, with no retraction pending,
/// under an Active TLA, and itself Active.
pub open spec fn sellable_result(st: RegistryView, key: Seq<char>, tla_id: Seq<char>, now: u64) -> Result<
    Seq<char>,
    ContractError,
> {
    if !is_valid_account_id(key) {
        Err(ContractError::InvalidSubAccountId)
    } else if count_of(st.mother_use_count, key) > 0 {
        Err(ContractError::SubAccountIsMother)
    } else if !st.sub_accounts.contains_key(key) {
        Err(ContractError::SubAccountNotFound)
    } else if st.sub_accounts.map[key].retraction_at is Some {
        Err(ContractError::RetractionPending)
    } else if !st.tlas.contains_key(tla_id) {
        Err(ContractError::TlaNotFound)
    } else if st.tlas.map[tla_id].status != TlaStatus::Active {
        Err(ContractError::SubAccountNotSellable)
    } else if spec_effective_sub_lifecycle(
        st.sub_accounts.map[key],
        st.tlas.map[tla_id],
        st.fee_config.retraction_notice_ns,
        now,
    ) != LifecycleStatus::Active {
        Err(ContractError::SubAccountNotSellable)
    } else {
        Ok(st.sub_accounts.map[key].owner@)
    }
}

/// What trading `key` under `tla_id` at `now` needs, said directly: the
/// account is rented, nobody's mother, with no retraction scheduled and its
/// own term running, under an Active TLA whose grace has not run out.
pub open spec fn open_for_trade(st: RegistryView, key: Seq<char>, tla_id: Seq<char>, now: u64) -> bool {
    &&& st.sub_accounts.contains_key(key)
    &&& !(st.mother_use_count.contains_key(key) && st.mother_use_count.map[key] > 0)
    &&& st.sub_accounts.map[key].retraction_at is None
    &&& now < st.sub_accounts.map[key].expires_at
    &&& st.tlas.contains_key(tla_id)
    &&& st.tlas.map[tla_id].status == TlaStatus::Active
    &&& now < st.tlas.map[tla_id].expires_at + GRACE_PERIOD_NS
}

/// The error `list_sub_account` and `accept_offer` answer, if any.
pub open spec fn offer_error(
    st: RegistryView,
    ctx: CallContext,
    tla_id: Seq<char>,
    name: Seq<char>,
    price: u128,
) -> Option<ContractError> {
    let key = spec_sub_account_key(tla_id, name);
    if ctx.attached_deposit != 1 {
        Some(ContractError::RequiresOneYocto)
    } else if st.paused {
        Some(ContractError::Paused)
    } else if price == 0 {
        Some(ContractError::InvalidPrice)
    } else if sale_busy(st, key) {
        Some(ContractError::SaleInProgress)
    } else if sellable_result(st, key, tla_id, ctx.block_timestamp) is Err {
        Some(sellable_result(st, key, tla_id, ctx.block_timestamp)->Err_0)
    } else if ctx.predecessor@ != sellable_result(st, key, tla_id, ctx.block_timestamp)->Ok_0 {
        Some(ContractError::OnlyOwner)
    } else {
        None
    }
}

/// The error `unlist_sub_account` (`offer == false`) and `revoke_offer`
/// (`offer == true`) answer, if any.
pub open spec fn withdraw_sale_error(
    st: RegistryView,
    ctx: CallContext,
    key: Seq<char>,
    offer: bool,
) -> Option<ContractError> {
    if ctx.attached_deposit != 1 {
        Some(ContractError::RequiresOneYocto)
    } else if st.paused {
        Some(ContractError::Paused)
    } else if sale_busy(st, key) {
        Some(ContractError::SaleInProgress)
    } else if !offer && !st.listings.contains_key(key) {
        Some(ContractError::NotListed)
    } else if offer && !st.accepted_offers.contains_key(key) {
        Some(ContractError::NoAcceptedOffer)
    } else if !st.sub_accounts.contains_key(key) {
        Some(ContractError::SubAccountNotFound)
    } else if ctx.predecessor@ != st.sub_accounts.map[key].owner@ {
        Some(ContractError::OnlyOwner)
    } else {
        None
    }
}

/// Which terms a buyer fills: the accepted offer if it is bound to them,
/// else the public listing. Answers the price and whether the offer was
/// used.
pub open spec fn resolve_sale(st: RegistryView, key: Seq<char>, buyer: Seq<char>, deposit: u128) -> Result<
    (u128, bool),
    ContractError,
> {
    if st.accepted_offers.contains_key(key) && st.accepted_offers.map[key].buyer@ == buyer {
        if deposit < st.accepted_offers.map[key].price {
            Err(ContractError::PriceNotMet)
        } else {
            Ok((st.accepted_offers.map[key].price, true))
        }
    } else if st.listings.contains_key(key) {
        if deposit < st.listings.map[key].price {
            Err(ContractError::PriceNotMet)
        } else {
            Ok((st.listings.map[key].price, false))
        }
    } else {
        Err(ContractError::NotListed)
    }
}

/// The error `buy_sub_account` answers, if any.
pub open spec fn buy_error(st: RegistryView, ctx: CallContext, tla_id: Seq<char>, name: Seq<char>) -> Option<
    ContractError,
> {
    let key = spec_sub_account_key(tla_id, name);
    if st.paused {
        Some(ContractError::Paused)
    } else if sale_busy(st, key) {
        Some(ContractError::SaleInProgress)
    } else if sellable_result(st, key, tla_id, ctx.block_timestamp) is Err {
        Some(sellable_result(st, key, tla_id, ctx.block_timestamp)->Err_0)
    } else if resolve_sale(st, key, ctx.predecessor@, ctx.attached_deposit) is Err {
        Some(resolve_sale(st, key, ctx.predecessor@, ctx.attached_deposit)->Err_0)
    } else {
        None
    }
}

/// The state with the sale of `key` marked as settling on the terms used.
pub open spec fn locked_sale(st: RegistryView, key: Seq<char>, via_offer: bool) -> RegistryView {
    if via_offer {
        RegistryView {
            accepted_offers: st.accepted_offers.insert(
                key,
                AcceptedOffer { settling: true, ..st.accepted_offers.map[key] },
            ),
            ..st
        }
    } else {
        RegistryView {
            listings: st.listings.insert(key, Listing { settling: true, ..st.listings.map[key] }),
            ..st
        }
    }
}

/// The state with any settling mark on the sale of `key` lifted.
pub open spec fn cleared_sale(st: RegistryView, key: Seq<char>) -> RegistryView {
    RegistryView {
        listings: if st.listings.contains_key(key) {
            st.listings.insert(key, Listing { settling: false, ..st.listings.map[key] })
        } else {
            st.listings
        },
        accepted_offers: if st.accepted_offers.contains_key(key) {
            st.accepted_offers.insert(
                key,
                AcceptedOffer { settling: false, ..st.accepted_offers.map[key] },
            )
        } else {
            st.accepted_offers
        },
        ..st
    }
}

/// The commission on a sale at `price`: `price * bps / 10000` (the product
/// saturating), never more than the price.
pub open spec fn spec_commission(price: u128, bps: u16) -> u128 {
    let product = if price * bps > u128::MAX {
        u128::MAX as int
    } else {
        price * bps
    };
    let c = product / 10_000;
    if c < price {
        c as u128
    } else {
        price
    }
}

/// The state after a successful transfer of `key` to `buyer`: the seller is
/// credited the price less commission, the commission goes to revenue, any
/// excess deposit goes back to the buyer, the buyer becomes owner and main
/// wallet, and the listing and accepted offer are gone.
pub open spec fn settled_sale(
    st: RegistryView,
    key: Seq<char>,
    buyer: String,
    price: u128,
    deposit: u128,
) -> RegistryView {
    let sub = st.sub_accounts.map[key];
    let commission = spec_commission(price, st.fee_config.resale_commission_bps);
    let s1 = RegistryView { total_revenue: sat_add(st.total_revenue, commission), ..st }.credit(
        sub.owner@,
        sat_sub(price, commission),
    );
    let excess = sat_sub(deposit, price);
    let s2 = if excess > 0 {
        s1.credit(buyer@, excess)
    } else {
        s1
    };
    RegistryView {
        sub_accounts: s2.sub_accounts.insert(
            key,
            SubAccountEntry { owner: buyer, main_wallet: buyer, ..sub },
        ),
        listings: s2.listings.remove(key),
        accepted_offers: s2.accepted_offers.remove(key),
        ..s2
    }
}

/// Whether a balance fan-out confirms the account holds none of the
/// `expected` allowlisted tokens: every answer arrived and is zero.
pub open spec fn balances_clear(balances: Seq<Option<u128>>, expected: nat) -> bool {
    &&& balances.len() == expected
    &&& forall|i: int| 0 <= i < balances.len() ==> #[trigger] balances[i] == Some(0u128)
}

/// A sale locked for settlement: the account, the price it settles at, and
/// the allowlisted tokens whose balances must be confirmed zero first.
pub struct SaleLock {
    pub sub_account: String,
    pub price: u128,
    pub balance_checks: Vec<String>,
}

impl TlaRegistry {
    pub fn assert_sale_idle(&self, key: &String) -> (r: Result<(), ContractError>)
        requires
            self.wf(),
        ensures
            r is Ok <==> !sale_busy(self@, key@),
            r matches Err(e) ==> e == ContractError::SaleInProgress,
    {
        if let Some(listing) = self.listings.get(key) {
            if listing.settling {
                return Err(ContractError::SaleInProgress);
            }
        }
        if let Some(offer) = self.accepted_offers.get(key) {
            if offer.settling {
                return Err(ContractError::SaleInProgress);
            }
        }
        Ok(())
    }

    pub fn assert_sellable(&self, key: &String, tla_id: &String, now: u64) -> (r: Result<
        String,
        ContractError,
    >)
        requires
            self.wf(),
        ensures
            r matches Ok(owner) ==> sellable_result(self@, key@, tla_id@, now) == Ok::<
                Seq<char>,
                ContractError,
            >(owner@),
            r matches Err(e) ==> sellable_result(self@, key@, tla_id@, now) == Err::<
                Seq<char>,
                ContractError,
            >(e),
            r matches Ok(owner) ==> open_for_trade(self@, key@, tla_id@, now)
                && owner@ == self@.sub_accounts.map[key@].owner@,
    {
        if !account_id_is_valid(key.as_str()) {
            return Err(ContractError::InvalidSubAccountId);
        }
        let uses = match self.mother_use_count.get(key) {
            Some(c) => *c,
            None => 0,
        };
        if uses > 0 {
            return Err(ContractError::SubAccountIsMother);
        }
        let sub = match self.sub_accounts.get(key) {
            Some(s) => s,
            None => return Err(ContractError::SubAccountNotFound),
        };
        if sub.retraction_at.is_some() {
            return Err(ContractError::RetractionPending);
        }
        let tla = match self.tlas.get(tla_id) {
            Some(t) => t,
            None => return Err(ContractError::TlaNotFound),
        };
        if tla.status != TlaStatus::Active {
            return Err(ContractError::SubAccountNotSellable);
        }
        match effective_sub_lifecycle(sub, tla, self.fee_config.retraction_notice_ns, now) {
            LifecycleStatus::Active => Ok(sub.owner.clone()),
            _ => Err(ContractError::SubAccountNotSellable),
        }
    }

    pub fn sub_account_owner(&self, key: &String) -> (r: Result<String, ContractError>)
        requires
            self.wf(),
        ensures
            r is Ok <==> self@.sub_accounts.contains_key(key@),
            r matches Ok(owner) ==> owner@ == self@.sub_accounts.map[key@].owner@,
            r matches Err(e) ==> e == ContractError::SubAccountNotFound,
    {
        match self.sub_accounts.get(key) {
            Some(s) => Ok(s.owner.clone()),
            None => Err(ContractError::SubAccountNotFound),
        }
    }

    /// Lists `name.tla_id` for sale at `price`, replacing any earlier listing.
    pub fn list_sub_account(&mut self, ctx: &CallContext, tla_id: String, name: String, price: u128) -> (r:
        Result<Event, ContractError>)
        requires
            old(self).wf(),
        ensures
            final(self).wf(),
            r is Err <==> offer_error(old(self)@, *ctx, tla_id@, name@, price) is Some,
            r matches Err(e) ==> Some(e) == offer_error(old(self)@, *ctx, tla_id@, name@, price)
                && *final(self) == *old(self),
            r is Ok ==> final(self)@ == (RegistryView {
                listings: old(self)@.listings.insert(
                    spec_sub_account_key(tla_id@, name@),
                    Listing { price, settling: false },
                ),
                ..old(self)@
            }),
            r is Ok ==> open_for_trade(old(self)@, spec_sub_account_key(tla_id@, name@), tla_id@, ctx.block_timestamp)
                && ctx.predecessor@ == old(self)@.sub_accounts.map[spec_sub_account_key(tla_id@, name@)].owner@,
            r matches Ok(ev) ==> (ev matches Event::SubAccountListed(e) && e.full_name@
                == spec_sub_account_key(tla_id@, name@) && e.price_yocto == price && e.seller@
                == ctx.predecessor@),
    {
        assert_one_yocto(ctx)?;
        self.assert_not_paused()?;
        if price == 0 {
            return Err(ContractError::InvalidPrice);
        }
        let key = sub_account_key(&tla_id, &name);
        self.assert_sale_idle(&key)?;
        let owner = self.assert_sellable(&key, &tla_id, ctx.block_timestamp)?;
        if ctx.predecessor != owner {
            return Err(ContractError::OnlyOwner);
        }
        self.listings.insert(key.clone(), Listing { price, settling: false });
        Ok(Event::SubAccountListed(SubAccountListedEvent { full_name: key, price_yocto: price, seller: owner }))
    }

    /// Withdraws the listing of `name.tla_id`.
    pub fn unlist_sub_account(&mut self, ctx: &CallContext, tla_id: String, name: String) -> (r: Result<
        Event,
        ContractError,
    >)
        requires
            old(self).wf(),
        ensures
            final(self).wf(),
            r is Err <==> withdraw_sale_error(old(self)@, *ctx, spec_sub_account_key(tla_id@, name@), false)
                is Some,
            r matches Err(e) ==> Some(e) == withdraw_sale_error(
                old(self)@,
                *ctx,
                spec_sub_account_key(tla_id@, name@),
                false,
            ) && *final(self) == *old(self),
            r is Ok ==> final(self)@ == (RegistryView {
                listings: old(self)@.listings.remove(spec_sub_account_key(tla_id@, name@)),
                ..old(self)@
            }),
            r matches Ok(ev) ==> (ev matches Event::SubAccountUnlisted(e) && e.full_name@
                == spec_sub_account_key(tla_id@, name@) && e.by@ == ctx.predecessor@),
    {
        assert_one_yocto(ctx)?;
        self.assert_not_paused()?;
        let key = sub_account_key(&tla_id, &name);
        self.assert_sale_idle(&key)?;
        if !self.listings.contains_key(&key) {
            return Err(ContractError::NotListed);
        }
        let owner = self.sub_account_owner(&key)?;
        if ctx.predecessor != owner {
            return Err(ContractError::OnlyOwner);
        }
        self.listings.remove(&key);
        Ok(Event::SubAccountUnlisted(SubAccountUnlistedEvent { full_name: key, by: owner }))
    }

    /// Binds a sale of `name.tla_id` to `buyer` at `price`, replacing any
    /// earlier accepted offer.
    pub fn accept_offer(
        &mut self,
        ctx: &CallContext,
        tla_id: String,
        name: String,
        buyer: String,
        price: u128,
    ) -> (r: Result<Event, ContractError>)
        requires
            old(self).wf(),
        ensures
            final(self).wf(),
            r is Err <==> offer_error(old(self)@, *ctx, tla_id@, name@, price) is Some,
            r matches Err(e) ==> Some(e) == offer_error(old(self)@, *ctx, tla_id@, name@, price)
                && *final(self) == *old(self),
            r is Ok ==> final(self)@ == (RegistryView {
                accepted_offers: old(self)@.accepted_offers.insert(
                    spec_sub_account_key(tla_id@, name@),
                    AcceptedOffer { buyer, price, settling: false },
                ),
                ..old(self)@
            }),
            r is Ok ==> open_for_trade(old(self)@, spec_sub_account_key(tla_id@, name@), tla_id@, ctx.block_timestamp)
                && ctx.predecessor@ == old(self)@.sub_accounts.map[spec_sub_account_key(tla_id@, name@)].owner@,
            r matches Ok(ev) ==> (ev matches Event::OfferAccepted(e) && e.full_name@
                == spec_sub_account_key(tla_id@, name@) && e.buyer@ == buyer@ && e.price_yocto == price
                && e.seller@ == ctx.predecessor@),
    {
        assert_one_yocto(ctx)?;
        self.assert_not_paused()?;
        if price == 0 {
            return Err(ContractError::InvalidPrice);
        }
        let key = sub_account_key(&tla_id, &name);
        self.assert_sale_idle(&key)?;
        let owner = self.assert_sellable(&key, &tla_id, ctx.block_timestamp)?;
        if ctx.predecessor != owner {
            return Err(ContractError::OnlyOwner);
        }
        self.accepted_offers.insert(
            key.clone(),
            AcceptedOffer { buyer: buyer.clone(), price, settling: false },
        );
        Ok(
            Event::OfferAccepted(
                OfferAcceptedEvent { full_name: key, buyer, price_yocto: price, seller: owner },
            ),
        )
    }

    /// Withdraws the accepted offer on `name.tla_id`.
    pub fn revoke_offer(&mut self, ctx: &CallContext, tla_id: String, name: String) -> (r: Result<
        Event,
        ContractError,
    >)
        requires
            old(self).wf(),
        ensures
            final(self).wf(),
            r is Err <==> withdraw_sale_error(old(self)@, *ctx, spec_sub_account_key(tla_id@, name@), true)
                is Some,
            r matches Err(e) ==> Some(e) == withdraw_sale_error(
                old(self)@,
                *ctx,
                spec_sub_account_key(tla_id@, name@),
                true,
            ) && *final(self) == *old(self),
            r is Ok ==> final(self)@ == (RegistryView {
                accepted_offers: old(self)@.accepted_offers.remove(spec_sub_account_key(tla_id@, name@)),
                ..old(self)@
            }),
            r matches Ok(ev) ==> (ev matches Event::OfferRevoked(e) && e.full_name@
                == spec_sub_account_key(tla_id@, name@) && e.by@ == ctx.predecessor@),
    {
        assert_one_yocto(ctx)?;
        self.assert_not_paused()?;
        let key = sub_account_key(&tla_id, &name);
        self.assert_sale_idle(&key)?;
        if !self.accepted_offers.contains_key(&key) {
            return Err(ContractError::NoAcceptedOffer);
        }
        let owner = self.sub_account_owner(&key)?;
        if ctx.predecessor != owner {
            return Err(ContractError::OnlyOwner);
        }
        self.accepted_offers.remove(&key);
        Ok(Event::OfferRevoked(OfferRevokedEvent { full_name: key, by: owner }))
    }

    /// Picks the terms `buyer` fills and marks them settling.
    pub fn resolve_and_lock_sale(&mut self, key: &String, buyer: &String, deposit: u128) -> (r: Result<
        u128,
        ContractError,
    >)
        requires
            old(self).wf(),
        ensures
            final(self).wf(),
            r is Err <==> resolve_sale(old(self)@, key@, buyer@, deposit) is Err,
            r matches Err(e) ==> resolve_sale(old(self)@, key@, buyer@, deposit) == Err::<
                (u128, bool),
                ContractError,
            >(e) && *final(self) == *old(self),
            r matches Ok(price) ==> resolve_sale(old(self)@, key@, buyer@, deposit)->Ok_0.0 == price
                && final(self)@ == locked_sale(
                old(self)@,
                key@,
                resolve_sale(old(self)@, key@, buyer@, deposit)->Ok_0.1,
            ),
            r is Ok ==> (final(self)@.listings.contains_key(key@) && final(self)@.listings.map[key@].settling)
                || (final(self)@.accepted_offers.contains_key(key@)
                && final(self)@.accepted_offers.map[key@].settling),
            r is Ok ==> deposit >= r->Ok_0,
            old(self)@.accepted_offers.contains_key(key@) && old(self)@.accepted_offers.map[key@].buyer@
                == buyer@ && deposit >= old(self)@.accepted_offers.map[key@].price ==> {
                &&& r == Ok::<u128, ContractError>(old(self)@.accepted_offers.map[key@].price)
                &&& final(self)@.accepted_offers.contains_key(key@)
                &&& final(self)@.accepted_offers.map[key@].settling
                &&& final(self)@.accepted_offers.map[key@].buyer == old(self)@.accepted_offers.map[key@].buyer
                &&& final(self)@.accepted_offers.map[key@].price == old(self)@.accepted_offers.map[key@].price
                &&& final(self)@.listings == old(self)@.listings
                &&& final(self)@.sub_accounts == old(self)@.sub_accounts
                &&& final(self)@.pending_refunds == old(self)@.pending_refunds
            },
    {
        let offer_terms = match self.accepted_offers.get(key) {
            Some(o) => Some(o.clone()),
            None => None,
        };
        if let Some(offer) = offer_terms {
            if offer.buyer == *buyer {
                if deposit < offer.price {
                    return Err(ContractError::PriceNotMet);
                }
                let price = offer.price;
                self.accepted_offers.insert(
                    key.clone(),
                    AcceptedOffer { buyer: offer.buyer, price: offer.price, settling: true },
                );
                return Ok(price);
            }
        }
        let listing = match self.listings.get(key) {
            Some(l) => *l,
            None => return Err(ContractError::NotListed),
        };
        if deposit < listing.price {
            return Err(ContractError::PriceNotMet);
        }
        self.listings.insert(key.clone(), Listing { price: listing.price, settling: true });
        Ok(listing.price)
    }

    /// Lifts any settling mark on the sale of `key`.
    pub fn clear_settling(&mut self, key: &String)
        requires
            old(self).wf(),
        ensures
            final(self).wf(),
            final(self)@ == cleared_sale(old(self)@, key@),
    {
        let listing = match self.listings.get(key) {
            Some(l) => Some(*l),
            None => None,
        };
        if let Some(l) = listing {
            self.listings.insert(key.clone(), Listing { price: l.price, settling: false });
        }
        let offer = match self.accepted_offers.get(key) {
            Some(o) => Some(o.clone()),
            None => None,
        };
        if let Some(o) = offer {
            self.accepted_offers.insert(
                key.clone(),
                AcceptedOffer { buyer: o.buyer, price: o.price, settling: false },
            );
        }
    }

    /// Starts a purchase of `name.tla_id` by the caller with the attached
    /// deposit: checks it is sellable, resolves the terms the caller fills,
    /// and locks them. The returned lock names the allowlisted tokens whose
    /// balances must be confirmed zero before the locker's key is swapped.
    pub fn buy_sub_account(&mut self, ctx: &CallContext, tla_id: String, name: String) -> (r: Result<
        SaleLock,
        ContractError,
    >)
        requires
            old(self).wf(),
        ensures
            final(self).wf(),
            r is Err <==> buy_error(old(self)@, *ctx, tla_id@, name@) is Some,
            r matches Err(e) ==> Some(e) == buy_error(old(self)@, *ctx, tla_id@, name@) && *final(self)
                == *old(self),
            r matches Ok(lock) ==> {
                let key = spec_sub_account_key(tla_id@, name@);
                let terms = resolve_sale(old(self)@, key, ctx.predecessor@, ctx.attached_deposit);
                &&& lock.sub_account@ == key
                &&& lock.price == terms->Ok_0.0
                &&& lock.balance_checks@.map_values(|s: String| s@) == old(self)@.ft_allowlist.keys
                &&& final(self)@ == locked_sale(old(self)@, key, terms->Ok_0.1)
            },
            r is Ok ==> open_for_trade(old(self)@, spec_sub_account_key(tla_id@, name@), tla_id@, ctx.block_timestamp),
            r is Ok ==> {
                let key = spec_sub_account_key(tla_id@, name@);
                ||| final(self)@.listings.contains_key(key) && final(self)@.listings.map[key].settling
                ||| final(self)@.accepted_offers.contains_key(key)
                    && final(self)@.accepted_offers.map[key].settling
            },
    {
        self.assert_not_paused()?;
        let key = sub_account_key(&tla_id, &name);
        self.assert_sale_idle(&key)?;
        self.assert_sellable(&key, &tla_id, ctx.block_timestamp)?;
        let price = self.resolve_and_lock_sale(&key, &ctx.predecessor, ctx.attached_deposit)?;
        let balance_checks = self.ft_allowlist.keys_vec();
        Ok(SaleLock { sub_account: key, price, balance_checks })
    }

    /// Resumes a locked purchase once the allowlisted balances are known:
    /// proceeds (answering `None`) only when all `expected` answers arrived
    /// and are zero; otherwise refunds the buyer's whole deposit, unlocks the
    /// sale and reports it blocked.
    pub fn on_buy_balances_checked(
        &mut self,
        tla_id: String,
        name: String,
        buyer: String,
        deposit: u128,
        expected: usize,
        balances: Vec<Option<u128>>,
    ) -> (r: Option<Event>)
        requires
            old(self).wf(),
        ensures
            final(self).wf(),
            r is None <==> balances_clear(balances@, expected as nat),
            r is None ==> *final(self) == *old(self),
            r matches Some(ev) ==> final(self)@ == cleared_sale(
                old(self)@.credit(buyer@, deposit),
                spec_sub_account_key(tla_id@, name@),
            ) && (ev matches Event::SaleBlocked(e) && e.full_name@ == spec_sub_account_key(
                tla_id@,
                name@,
            ) && e.buyer@ == buyer@ && e.reason@ == "allowlisted balances not confirmed empty"@),
    {
        let mut clear = balances.len() == expected;
        let mut i: usize = 0;
        while i < balances.len()
            invariant
                i <= balances@.len(),
                clear == (balances@.len() == expected && forall|j: int|
                    0 <= j < i ==> #[trigger] balances@[j] == Some(0u128)),
            decreases balances@.len() - i,
        {
            match balances[i] {
                Some(0) => {},
                _ => {
                    clear = false;
                },
            }
            i = i + 1;
        }
        if clear {
            return None;
        }
        let key = sub_account_key(&tla_id, &name);
        self.add_pending_refund(&buyer, deposit);
        self.clear_settling(&key);
        Some(
            Event::SaleBlocked(
                SaleBlockedEvent {
                    full_name: key,
                    buyer,
                    reason: "allowlisted balances not confirmed empty".to_owned(),
                },
            ),
        )
    }

    /// Settles a purchase after the locker answered the key swap. On
    /// failure the buyer's deposit is refunded in full and the sale unlocked.
    pub fn on_sub_account_sold(
        &mut self,
        tla_id: String,
        name: String,
        buyer: String,
        price: u128,
        deposit: u128,
        transfer_succeeded: bool,
    ) -> (r: Option<Event>)
        requires
            old(self).wf(),
        ensures
            final(self).wf(),
            !transfer_succeeded ==> final(self)@ == cleared_sale(
                old(self)@.credit(buyer@, deposit),
                spec_sub_account_key(tla_id@, name@),
            ) && (r matches Some(Event::SaleFailed(e)) && e.full_name@ == spec_sub_account_key(
                tla_id@,
                name@,
            ) && e.buyer@ == buyer@),
            transfer_succeeded && !old(self)@.sub_accounts.contains_key(
                spec_sub_account_key(tla_id@, name@),
            ) ==> final(self)@ == cleared_sale(
                old(self)@.credit(buyer@, deposit),
                spec_sub_account_key(tla_id@, name@),
            ) && r is None,
            transfer_succeeded && old(self)@.sub_accounts.contains_key(
                spec_sub_account_key(tla_id@, name@),
            ) ==> final(self)@ == settled_sale(
                old(self)@,
                spec_sub_account_key(tla_id@, name@),
                buyer,
                price,
                deposit,
            ) && (r matches Some(Event::SubAccountSold(e)) && {
                let key = spec_sub_account_key(tla_id@, name@);
                let commission = spec_commission(price, old(self).fee_config.resale_commission_bps);
                &&& e.full_name@ == key
                &&& e.tla_id@ == tla_id@
                &&& e.seller@ == old(self)@.sub_accounts.map[key].owner@
                &&& e.buyer@ == buyer@
                &&& e.price_yocto == price
                &&& e.commission_yocto == commission
                &&& e.seller_proceeds_yocto == sat_sub(price, commission)
            }),
    {
        let key = sub_account_key(&tla_id, &name);
        if !transfer_succeeded {
            self.add_pending_refund(&buyer, deposit);
            self.clear_settling(&key);
            return Some(Event::SaleFailed(SaleFailedEvent { full_name: key, buyer }));
        }
        let sub = match self.sub_accounts.get(&key) {
            Some(s) => s.clone(),
            None => {
                self.add_pending_refund(&buyer, deposit);
                self.clear_settling(&key);
                return None;
            },
        };
        let seller = sub.owner.clone();
        let commission = commission_for(price, self.fee_config.resale_commission_bps);
        let seller_proceeds = sat_sub_u128(price, commission);
        self.total_revenue = sat_add_u128(self.total_revenue, commission);
        self.add_pending_refund(&seller, seller_proceeds);
        let excess = sat_sub_u128(deposit, price);
        if excess > 0 {
            self.add_pending_refund(&buyer, excess);
        }
        self.sub_accounts.insert(
            key.clone(),
            SubAccountEntry {
                owner: buyer.clone(),
                tla_id: sub.tla_id,
                main_wallet: buyer.clone(),
                rented_at: sub.rented_at,
                expires_at: sub.expires_at,
                retraction_at: sub.retraction_at,
            },
        );
        self.listings.remove(&key);
        self.accepted_offers.remove(&key);
        Some(
            Event::SubAccountSold(
                SubAccountSoldEvent {
                    full_name: key,
                    tla_id,
                    seller,
                    buyer,
                    price_yocto: price,
                    commission_yocto: commission,
                    seller_proceeds_yocto: seller_proceeds,
                },
            ),
        )
    }

    pub fn get_listing(&self, tla_id: &String, name: &String) -> (r: Option<ListingView>)
        requires
            self.wf(),
        ensures
            r is Some <==> self@.listings.contains_key(spec_sub_account_key(tla_id@, name@)),
            r matches Some(v) ==> {
                let key = spec_sub_account_key(tla_id@, name@);
                &&& v.full_name@ == key
                &&& v.price_yocto == self@.listings.map[key].price
                &&& v.settling == self@.listings.map[key].settling
            },
    {
        let key = sub_account_key(tla_id, name);
        match self.listings.get(&key) {
            Some(l) => Some(ListingView { full_name: key.clone(), price_yocto: l.price, settling: l.settling }),
            None => None,
        }
    }

    pub fn get_accepted_offer(&self, tla_id: &String, name: &String) -> (r: Option<AcceptedOfferView>)
        requires
            self.wf(),
        ensures
            r is Some <==> self@.accepted_offers.contains_key(spec_sub_account_key(tla_id@, name@)),
            r matches Some(v) ==> {
                let key = spec_sub_account_key(tla_id@, name@);
                &&& v.full_name@ == key
                &&& v.buyer@ == self@.accepted_offers.map[key].buyer@
                &&& v.price_yocto == self@.accepted_offers.map[key].price
                &&& v.settling == self@.accepted_offers.map[key].settling
            },
    {
        let key = sub_account_key(tla_id, name);
        match self.accepted_offers.get(&key) {
            Some(o) => Some(
                AcceptedOfferView {
                    full_name: key.clone(),
                    buyer: o.buyer.clone(),
                    price_yocto: o.price,
                    settling: o.settling,
                },
            ),
            None => None,
        }
    }
}

pub fn commission_for(price: u128, bps: u16) -> (c: u128)
    ensures
        c == spec_commission(price, bps),
{
    let product = match price.checked_mul(bps as u128) {
        Some(p) => p,
        None => u128::MAX,
    };
    let c = product / BPS_DENOMINATOR;
    if c < price {
        c
    } else {
        price
    }
}

} // verus!
