use vstd::prelude::*;

use crate::account::spec_sub_account_key;
use crate::admin::{activate_open_error, fee_config_error, register_tla_error, unsuspend_tla_error, withdraw_error};
use crate::error::{ContractError, LockerError, ResaleLockerError};
use crate::fees::{spec_base_rent, spec_sub_account_rent};
use crate::callbacks::{creation_rolled_back, creation_settled};
use crate::marketplace::{
    buy_error, cleared_sale, locked_sale, offer_error, resolve_sale, sale_busy, sellable_result,
    settled_sale, spec_commission, withdraw_sale_error,
};
use crate::registry::{amount_of, pending_bounded, sat_sub, CallContext, RegistryView, TlaRegistry};
use crate::resale_locker::{settle_error, spec_resolved, LockState, ResaleLocker};
use crate::sub_account_locker::{held_error, LockerState, SubAccountLocker};
use crate::types::{
    spec_effective_sub_lifecycle, FeeConfig, LifecycleStatus, Listing, PremiumCategory,
    SubAccountEntry, TlaEntry, TlaStatus, TlaType, GRACE_PERIOD_NS,
};

verus! {

/// A well-formed registry always has at least one admin, and neither token
/// allowlist holds more than forty tokens.
pub proof fn law_registry_bounds(r: &TlaRegistry)
    requires
        r.wf(),
    ensures
        r@.admins.keys.len() >= 1,
        r@.ft_allowlist.keys.len() <= 40,
        r@.nft_allowlist.keys.len() <= 40,
{
}

/// Every admin operation refuses a caller who is not an admin.
pub proof fn law_admin_gate(
    st: RegistryView,
    caller: Seq<char>,
    tla_id: Seq<char>,
    tla_type: TlaType,
    licensee: Option<String>,
    config: FeeConfig,
    amount: u128,
    available_balance: u128,
)
    requires
        !st.is_admin(caller),
    ensures
        register_tla_error(st, caller, tla_id, tla_type, licensee) == Some(ContractError::Unauthorized),
        unsuspend_tla_error(st, caller, tla_id) == Some(ContractError::Unauthorized),
        fee_config_error(st, caller, config) == Some(ContractError::Unauthorized),
        withdraw_error(st, caller, amount, available_balance) == Some(ContractError::Unauthorized),
        activate_open_error(st, caller, tla_id) == Some(ContractError::Unauthorized),
{
}

/// While the registry is paused every marketplace call is refused with
/// `Paused` (listing calls first demand their one-yocto proof).
pub proof fn law_pause_blocks_marketplace(
    st: RegistryView,
    ctx: CallContext,
    tla_id: Seq<char>,
    name: Seq<char>,
    price: u128,
)
    requires
        st.paused,
        ctx.attached_deposit == 1,
    ensures
        offer_error(st, ctx, tla_id, name, price) == Some(ContractError::Paused),
        withdraw_sale_error(st, ctx, spec_sub_account_key(tla_id, name), false) == Some(
            ContractError::Paused,
        ),
        withdraw_sale_error(st, ctx, spec_sub_account_key(tla_id, name), true) == Some(
            ContractError::Paused,
        ),
        buy_error(st, ctx, tla_id, name) == Some(ContractError::Paused),
{
}

/// While a sale of an account is settling, no other sale call on it gets
/// past the settlement lock.
pub proof fn law_settlement_lock(
    st: RegistryView,
    ctx: CallContext,
    tla_id: Seq<char>,
    name: Seq<char>,
    price: u128,
)
    requires
        sale_busy(st, spec_sub_account_key(tla_id, name)),
        !st.paused,
        ctx.attached_deposit == 1,
        price > 0,
    ensures
        offer_error(st, ctx, tla_id, name, price) == Some(ContractError::SaleInProgress),
        withdraw_sale_error(st, ctx, spec_sub_account_key(tla_id, name), false) == Some(
            ContractError::SaleInProgress,
        ),
        withdraw_sale_error(st, ctx, spec_sub_account_key(tla_id, name), true) == Some(
            ContractError::SaleInProgress,
        ),
        buy_error(st, ctx, tla_id, name) == Some(ContractError::SaleInProgress),
{
}

/// Mothers, sub-accounts with a pending retraction, and sub-accounts under a
/// TLA that is not Active are never sellable.
pub proof fn law_unsellable(st: RegistryView, key: Seq<char>, tla_id: Seq<char>, now: u64)
    ensures
        st.mother_use_count.contains_key(key) && st.mother_use_count.map[key] > 0
            ==> sellable_result(st, key, tla_id, now) is Err,
        st.sub_accounts.contains_key(key) && st.sub_accounts.map[key].retraction_at is Some
            ==> sellable_result(st, key, tla_id, now) is Err,
        st.tlas.contains_key(tla_id) && st.tlas.map[tla_id].status != TlaStatus::Active
            ==> sellable_result(st, key, tla_id, now) is Err,
        sellable_result(st, key, tla_id, now) matches Ok(owner) ==> st.sub_accounts.contains_key(key)
            && owner == st.sub_accounts.map[key].owner@,
{
}

/// A buyer never fills below the terms: whatever they fill, their deposit
/// covers the price.
pub proof fn law_price_floor(st: RegistryView, key: Seq<char>, buyer: Seq<char>, deposit: u128)
    ensures
        resolve_sale(st, key, buyer, deposit) matches Ok(t) ==> deposit >= t.0,
{
}

/// An accepted offer is fillable only by its bound buyer, at its price; any
/// other buyer is held to the public listing, and without one is refused
/// with `NotListed`.
pub proof fn law_offer_bound_to_buyer(st: RegistryView, key: Seq<char>, buyer: Seq<char>, deposit: u128)
    requires
        st.accepted_offers.contains_key(key),
    ensures
        st.accepted_offers.map[key].buyer@ == buyer && deposit >= st.accepted_offers.map[key].price
            ==> resolve_sale(st, key, buyer, deposit) == Ok::<(u128, bool), ContractError>(
            (st.accepted_offers.map[key].price, true),
        ),
        st.accepted_offers.map[key].buyer@ != buyer && !st.listings.contains_key(key) ==> resolve_sale(
            st,
            key,
            buyer,
            deposit,
        ) == Err::<(u128, bool), ContractError>(ContractError::NotListed),
{
}

/// The commission never exceeds the price, the seller's proceeds and the
/// commission add up to the price, and for a rate of at most 100% without
/// overflow the commission is exactly `price * bps / 10000`.
pub proof fn law_commission_split(price: u128, bps: u16)
    ensures
        spec_commission(price, bps) <= price,
        sat_sub(price, spec_commission(price, bps)) + spec_commission(price, bps) == price,
        bps <= 10_000 && price * bps <= u128::MAX ==> spec_commission(price, bps) == (price * bps)
            / 10_000,
{
    if bps <= 10_000 && price * bps <= u128::MAX {
        assert((price * bps) / 10_000 <= price) by (nonlinear_arith)
            requires
                bps <= 10_000,
                price >= 0,
        ;
    }
}

/// A settled sale accounts for the whole deposit: the seller's proceeds,
/// the commission and the buyer's excess add up to it.
pub proof fn law_sale_conserves_deposit(price: u128, deposit: u128, bps: u16)
    requires
        deposit >= price,
    ensures
        sat_sub(price, spec_commission(price, bps)) + spec_commission(price, bps) + sat_sub(
            deposit,
            price,
        ) == deposit,
{
    law_commission_split(price, bps);
}

/// Queuing a refund raises the account's pending amount and the total by
/// exactly that amount, when neither saturates.
pub proof fn law_credit_adds(st: RegistryView, account: Seq<char>, amount: u128)
    requires
        amount_of(st.pending_refunds, account) + amount <= u128::MAX,
        st.total_pending_refunds + amount <= u128::MAX,
    ensures
        amount_of(st.credit(account, amount).pending_refunds, account) == amount_of(
            st.pending_refunds,
            account,
        ) + amount,
        st.credit(account, amount).total_pending_refunds == st.total_pending_refunds + amount,
{
}

/// A failed or blocked sale refunds the buyer's whole deposit and leaves
/// ownership where it was.
pub proof fn law_failed_sale_refunds_buyer(st: RegistryView, key: Seq<char>, buyer: Seq<char>, deposit: u128)
    requires
        amount_of(st.pending_refunds, buyer) + deposit <= u128::MAX,
    ensures
        cleared_sale(st.credit(buyer, deposit), key).sub_accounts == st.sub_accounts,
        amount_of(cleared_sale(st.credit(buyer, deposit), key).pending_refunds, buyer) == amount_of(
            st.pending_refunds,
            buyer,
        ) + deposit,
        !sale_busy(cleared_sale(st.credit(buyer, deposit), key), key),
{
}

/// After a settled sale the buyer owns the account, and the listing and
/// accepted offer are gone, so a replayed purchase finds nothing to fill.
pub proof fn law_settled_sale_clears_terms(
    st: RegistryView,
    key: Seq<char>,
    buyer: String,
    price: u128,
    deposit: u128,
    anyone: Seq<char>,
    any_deposit: u128,
)
    requires
        st.sub_accounts.contains_key(key),
        st.listings.consistent(),
        st.accepted_offers.consistent(),
    ensures
        settled_sale(st, key, buyer, price, deposit).sub_accounts.map[key].owner == buyer,
        settled_sale(st, key, buyer, price, deposit).sub_accounts.map[key].main_wallet == buyer,
        resolve_sale(settled_sale(st, key, buyer, price, deposit), key, anyone, any_deposit) == Err::<
            (u128, bool),
            ContractError,
        >(ContractError::NotListed),
{
}

/// A successful withdrawal keeps every pending refund covered by the
/// balance it was checked against.
pub proof fn law_withdraw_solvent(st: RegistryView, caller: Seq<char>, amount: u128, available_balance: u128, recipient: Seq<char>)
    requires
        withdraw_error(st, caller, amount, available_balance) is None,
    ensures
        (RegistryView { total_revenue: (st.total_revenue - amount) as u128, ..st }).credit(
            recipient,
            amount,
        ).total_pending_refunds <= available_balance,
        amount <= st.total_revenue,
{
}

/// A withdrawal moves exactly the amount: revenue falls by it, and the
/// recipient's pending refund and the total of pending refunds rise by it.
/// (Only an available balance of `u128::MAX` could let the total saturate.)
pub proof fn law_withdraw_moves_exactly(
    r: &TlaRegistry,
    caller: Seq<char>,
    amount: u128,
    available_balance: u128,
    recipient: Seq<char>,
)
    requires
        r.wf(),
        withdraw_error(r@, caller, amount, available_balance) is None,
        available_balance < u128::MAX,
    ensures
        ({
            let after = (RegistryView { total_revenue: (r@.total_revenue - amount) as u128, ..r@ }).credit(
                recipient,
                amount,
            );
            &&& after.total_revenue == r@.total_revenue - amount
            &&& amount_of(after.pending_refunds, recipient) == amount_of(r@.pending_refunds, recipient)
                + amount
            &&& after.total_pending_refunds == r@.total_pending_refunds + amount
        }),
{
    assert(pending_bounded(r.pending_refunds@, r.total_pending_refunds));
    if r@.pending_refunds.contains_key(recipient) {
        assert(r@.pending_refunds.map[recipient] <= r@.total_pending_refunds);
    }
}

/// The Standard category charges exactly the base rent.
pub proof fn law_standard_is_base_rent(total_len: u8, config: FeeConfig)
    ensures
        spec_sub_account_rent(total_len, PremiumCategory::Standard, config) == spec_base_rent(
            total_len,
            config,
        ),
{
    let b = spec_base_rent(total_len, config);
    assert(b * 1 == b);
    assert((b as int) / 1 == b as int);
}

/// A resale lock settles at most once: once settled, both unlock and abort
/// are refused with `AlreadySettled`; in particular an unlock that went
/// through cannot be replayed.
pub proof fn law_resale_lock_one_shot(s: ResaleLocker, caller: Seq<char>, buyer_key: String)
    requires
        caller == s.registry@,
    ensures
        s.state == LockState::Settled ==> settle_error(s, caller) == Some(
            ResaleLockerError::AlreadySettled,
        ),
        s.state == LockState::Active ==> settle_error(
            ResaleLocker {
                state: spec_resolved(
                    ResaleLocker { state: LockState::Settling, ..s }.state,
                    true,
                ),
                ..s
            },
            caller,
        ) == Some(ResaleLockerError::AlreadySettled),
{
}

/// Custody of a rented sub-account: once exported (or while exporting) the
/// registry can no longer sweep, delete, export or resell it, and a resale
/// keeps the account held.
pub proof fn law_locker_custody(s: SubAccountLocker, caller: Seq<char>, new_owner_key: String)
    requires
        caller == s.registry@,
    ensures
        s.state != LockerState::Held ==> held_error(s, caller) == Some(LockerError::NotHeld),
        s.state == LockerState::Held ==> held_error(SubAccountLocker { owner_key: new_owner_key, ..s }, caller)
            is None,
{
}

/// Pausing leaves admin operations as they were: their answers do not
/// depend on the pause flag.
pub proof fn law_pause_spares_admin(
    st: RegistryView,
    caller: Seq<char>,
    tla_id: Seq<char>,
    tla_type: TlaType,
    licensee: Option<String>,
    config: FeeConfig,
    amount: u128,
    available_balance: u128,
)
    ensures
        ({
            let p = RegistryView { paused: true, ..st };
            &&& register_tla_error(p, caller, tla_id, tla_type, licensee) == register_tla_error(
                st,
                caller,
                tla_id,
                tla_type,
                licensee,
            )
            &&& unsuspend_tla_error(p, caller, tla_id) == unsuspend_tla_error(st, caller, tla_id)
            &&& fee_config_error(p, caller, config) == fee_config_error(st, caller, config)
            &&& withdraw_error(p, caller, amount, available_balance) == withdraw_error(
                st,
                caller,
                amount,
                available_balance,
            )
            &&& activate_open_error(p, caller, tla_id) == activate_open_error(st, caller, tla_id)
        }),
{
}

/// Listing (or re-listing) at `price` makes it the binding floor for every
/// buyer without an accepted offer: a lower deposit is refused with
/// `PriceNotMet`, a deposit that covers it fills at exactly `price`.
pub proof fn law_listing_sets_floor(
    st: RegistryView,
    key: Seq<char>,
    price: u128,
    buyer: Seq<char>,
    deposit: u128,
)
    requires
        !(st.accepted_offers.contains_key(key) && st.accepted_offers.map[key].buyer@ == buyer),
    ensures
        ({
            let listed = RegistryView {
                listings: st.listings.insert(key, Listing { price, settling: false }),
                ..st
            };
            &&& deposit < price ==> resolve_sale(listed, key, buyer, deposit) == Err::<
                (u128, bool),
                ContractError,
            >(ContractError::PriceNotMet)
            &&& deposit >= price ==> resolve_sale(listed, key, buyer, deposit) == Ok::<
                (u128, bool),
                ContractError,
            >((price, false))
        }),
{
}

/// Once the listing is withdrawn and no accepted offer binds the buyer,
/// the account cannot be bought; likewise once a bound offer is revoked
/// and nothing is listed.
pub proof fn law_withdrawn_terms_cannot_be_filled(
    st: RegistryView,
    key: Seq<char>,
    buyer: Seq<char>,
    deposit: u128,
)
    requires
        st.listings.consistent(),
        st.accepted_offers.consistent(),
    ensures
        !(st.accepted_offers.contains_key(key) && st.accepted_offers.map[key].buyer@ == buyer)
            ==> resolve_sale(
            RegistryView { listings: st.listings.remove(key), ..st },
            key,
            buyer,
            deposit,
        ) == Err::<(u128, bool), ContractError>(ContractError::NotListed),
        !st.listings.contains_key(key) ==> resolve_sale(
            RegistryView { accepted_offers: st.accepted_offers.remove(key), ..st },
            key,
            buyer,
            deposit,
        ) == Err::<(u128, bool), ContractError>(ContractError::NotListed),
{
}

/// A purchase from a public listing, end to end: the lock marks the sale
/// settling, and the settlement makes the buyer owner, credits the seller
/// the price less commission, books the commission as revenue, refunds the
/// excess deposit, and clears the listing.
pub proof fn law_listed_purchase(
    st: RegistryView,
    key: Seq<char>,
    buyer: String,
    deposit: u128,
)
    requires
        st.listings.consistent(),
        st.accepted_offers.consistent(),
        st.sub_accounts.contains_key(key),
        st.listings.contains_key(key),
        !st.accepted_offers.contains_key(key),
        deposit >= st.listings.map[key].price,
        st.sub_accounts.map[key].owner@ != buyer@,
        st.total_revenue + st.listings.map[key].price <= u128::MAX,
        st.total_pending_refunds + deposit <= u128::MAX,
        amount_of(st.pending_refunds, st.sub_accounts.map[key].owner@) + deposit <= u128::MAX,
        amount_of(st.pending_refunds, buyer@) + deposit <= u128::MAX,
    ensures
        ({
            let price = st.listings.map[key].price;
            let seller = st.sub_accounts.map[key].owner@;
            let commission = spec_commission(price, st.fee_config.resale_commission_bps);
            let locked = locked_sale(st, key, false);
            let done = settled_sale(locked, key, buyer, price, deposit);
            &&& resolve_sale(st, key, buyer@, deposit) == Ok::<(u128, bool), ContractError>(
                (price, false),
            )
            &&& sale_busy(locked, key)
            &&& done.sub_accounts.map[key].owner == buyer
            &&& !done.listings.contains_key(key)
            &&& amount_of(done.pending_refunds, seller) == amount_of(st.pending_refunds, seller)
                + (price - commission)
            &&& amount_of(done.pending_refunds, buyer@) == amount_of(st.pending_refunds, buyer@)
                + (deposit - price)
            &&& done.total_revenue == st.total_revenue + commission
            &&& done.total_pending_refunds == st.total_pending_refunds + (deposit - commission)
        }),
{
    let price = st.listings.map[key].price;
    law_commission_split(price, st.fee_config.resale_commission_bps);
}

/// A failed account creation leaves no trace of the optimistic entry and
/// queues the payer's whole attachment back.
pub proof fn law_failed_creation_rolls_back(
    st: RegistryView,
    tla_id: Seq<char>,
    key: Seq<char>,
    payer: Seq<char>,
    attached: u128,
)
    requires
        amount_of(st.pending_refunds, payer) + attached <= u128::MAX,
    ensures
        !creation_rolled_back(st, tla_id, key, payer, attached).sub_accounts.contains_key(key),
        amount_of(creation_rolled_back(st, tla_id, key, payer, attached).pending_refunds, payer)
            == amount_of(st.pending_refunds, payer) + attached,
{
}

/// Filling a sale locks it: whichever terms the buyer fills, the new state
/// marks them settling. In particular a buyer filling their accepted offer
/// leaves that offer in place, settling, with its buyer and price, so a
/// second purchase of the account and the seller's revoke are both refused
/// with `SaleInProgress` until the settlement callback.
pub proof fn law_fill_locks_sale(
    st: RegistryView,
    key: Seq<char>,
    buyer: Seq<char>,
    deposit: u128,
    again: CallContext,
    tla_id: Seq<char>,
    name: Seq<char>,
)
    requires
        resolve_sale(st, key, buyer, deposit) is Ok,
        key == spec_sub_account_key(tla_id, name),
    ensures
        ({
            let locked = locked_sale(st, key, resolve_sale(st, key, buyer, deposit)->Ok_0.1);
            &&& (locked.listings.contains_key(key) && locked.listings.map[key].settling) || (
            locked.accepted_offers.contains_key(key) && locked.accepted_offers.map[key].settling)
            &&& st.accepted_offers.contains_key(key) && st.accepted_offers.map[key].buyer@ == buyer ==> {
                &&& locked.accepted_offers.contains_key(key)
                &&& locked.accepted_offers.map[key].settling
                &&& locked.accepted_offers.map[key].buyer == st.accepted_offers.map[key].buyer
                &&& locked.accepted_offers.map[key].price == st.accepted_offers.map[key].price
                &&& locked.listings == st.listings
                &&& locked.sub_accounts == st.sub_accounts
            }
            &&& !st.paused ==> buy_error(locked, again, tla_id, name) == Some(
                ContractError::SaleInProgress,
            )
            &&& !st.paused && again.attached_deposit == 1 ==> withdraw_sale_error(
                locked,
                again,
                key,
                true,
            ) == Some(ContractError::SaleInProgress)
            &&& !st.paused && again.attached_deposit == 1 ==> withdraw_sale_error(
                locked,
                again,
                key,
                false,
            ) == Some(ContractError::SaleInProgress)
        }),
{
}

/// A TLA past its grace takes its sub-accounts with it: once an Active
/// TLA's term plus grace has run out, each of its sub-accounts is
/// Reclaimable whatever its own term, and none of them can be traded.
pub proof fn law_lapsed_tla_cascades(
    st: RegistryView,
    key: Seq<char>,
    tla_id: Seq<char>,
    sub: SubAccountEntry,
    tla: TlaEntry,
    notice_ns: u64,
    now: u64,
)
    ensures
        tla.status == TlaStatus::Active && now >= tla.expires_at + GRACE_PERIOD_NS
            ==> spec_effective_sub_lifecycle(sub, tla, notice_ns, now) == LifecycleStatus::Reclaimable,
        st.tlas.contains_key(tla_id) && st.tlas.map[tla_id].status == TlaStatus::Active && now
            >= st.tlas.map[tla_id].expires_at + GRACE_PERIOD_NS ==> sellable_result(st, key, tla_id, now)
            is Err,
        st.tlas.contains_key(tla_id) && st.tlas.map[tla_id].status == TlaStatus::Active && now
            >= st.tlas.map[tla_id].expires_at + GRACE_PERIOD_NS && sellable_result(st, key, tla_id, now)
            != Err::<Seq<char>, ContractError>(ContractError::InvalidSubAccountId) && !(
        st.mother_use_count.contains_key(key) && st.mother_use_count.map[key] > 0)
            && st.sub_accounts.contains_key(key) && st.sub_accounts.map[key].retraction_at is None
            ==> sellable_result(st, key, tla_id, now) == Err::<Seq<char>, ContractError>(
            ContractError::SubAccountNotSellable,
        ),
        sellable_result(st, key, tla_id, now) is Ok ==> now < st.sub_accounts.map[key].expires_at
            && now < st.tlas.map[tla_id].expires_at + GRACE_PERIOD_NS,
{
}

/// A successful account creation adds the rent to the revenue already
/// booked and counts one more sub-account, when neither overflows; the
/// revenue never falls.
pub proof fn law_creation_books_rent(st: RegistryView, payer: Seq<char>, rent: u128, attached: u128)
    ensures
        st.total_revenue + rent <= u128::MAX ==> creation_settled(st, payer, rent, attached).total_revenue
            == st.total_revenue + rent,
        creation_settled(st, payer, rent, attached).total_revenue >= st.total_revenue,
        st.sub_account_count < u64::MAX ==> creation_settled(st, payer, rent, attached).sub_account_count
            == st.sub_account_count + 1,
        creation_settled(st, payer, rent, attached).sub_accounts == st.sub_accounts,
{
}

/// An admin may withdraw any positive amount up to the revenue as long as
/// the pending refunds plus the amount stay within the available balance;
/// a withdrawal that goes through leaves them within it.
pub proof fn law_withdraw_allowed(
    st: RegistryView,
    caller: Seq<char>,
    amount: u128,
    available_balance: u128,
)
    ensures
        st.is_admin(caller) && 0 < amount <= st.total_revenue && st.total_pending_refunds + amount
            <= available_balance ==> withdraw_error(st, caller, amount, available_balance) is None,
        withdraw_error(st, caller, amount, available_balance) is None ==> st.is_admin(caller) && 0
            < amount <= st.total_revenue && (st.total_pending_refunds + amount <= available_balance
            || available_balance == u128::MAX),
{
}

/// An admin may set any schedule with at least one nonzero rent tier, a
/// nonzero creation deposit and a commission of at most 100%; the
/// all-tiers-zero refusal comes only when all four tiers are zero.
pub proof fn law_fee_config_accepted(st: RegistryView, caller: Seq<char>, c: FeeConfig)
    ensures
        st.is_admin(caller) && (c.rent_tier_5 != 0 || c.rent_tier_8 != 0 || c.rent_tier_10 != 0
            || c.rent_tier_12plus != 0) && c.account_creation_deposit != 0 && c.resale_commission_bps
            <= 10_000 ==> fee_config_error(st, caller, c) is None,
        fee_config_error(st, caller, c) == Some(ContractError::AllRentTiersZero) ==> c.rent_tier_5 == 0
            && c.rent_tier_8 == 0 && c.rent_tier_10 == 0 && c.rent_tier_12plus == 0,
        fee_config_error(st, caller, c) is None ==> st.is_admin(caller) && c.account_creation_deposit
            != 0 && c.resale_commission_bps <= 10_000,
{
}

} // verus!
