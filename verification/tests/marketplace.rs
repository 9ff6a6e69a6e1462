use hos_tla::account::sub_account_key;
use hos_tla::error::ContractError;
use hos_tla::events::Event;
use hos_tla::fees::default_fee_config;
use hos_tla::registry::{CallContext, TlaRegistry};
use hos_tla::types::{PremiumCategory, SubAccountEntry, TlaStatus, TlaType, ONE_NEAR, ONE_YEAR_NS};

const NOW: u64 = 1_000_000;

fn ctx(pred: &str, deposit: u128) -> CallContext {
    CallContext { predecessor: pred.to_string(), attached_deposit: deposit, block_timestamp: NOW }
}

fn s(x: &str) -> String {
    x.to_string()
}

/// A registry with an active Business TLA `tla` licensed to `seller`, who
/// rents the held sub-account `name.tla`.
fn rent_business_sub(tla: &str, seller: &str, name: &str) -> TlaRegistry {
    let mut reg = TlaRegistry::new(s("admin.near"), Vec::new());
    let admin = ctx("admin.near", 0);
    reg.register_tla(&admin, s(tla), TlaType::Business, PremiumCategory::Standard, Some(s(seller)))
        .unwrap();
    let mut entry = reg.tlas.get(&s(tla)).unwrap().clone();
    entry.status = TlaStatus::Active;
    entry.activated_at = NOW;
    entry.expires_at = NOW + ONE_YEAR_NS;
    reg.tlas.insert(s(tla), entry);
    reg.sub_accounts.insert(
        sub_account_key(&s(tla), &s(name)),
        SubAccountEntry {
            owner: s(seller),
            tla_id: s(tla),
            main_wallet: s(seller),
            rented_at: NOW,
            expires_at: NOW + ONE_YEAR_NS,
            retraction_at: None,
        },
    );
    reg
}

fn list(reg: &mut TlaRegistry, seller: &str, tla: &str, name: &str, price: u128) {
    reg.list_sub_account(&ctx(seller, 1), s(tla), s(name), price).unwrap();
}

/// Runs a purchase through the balance check and the key swap, both
/// answering as given.
fn buy(
    reg: &mut TlaRegistry,
    buyer: &str,
    tla: &str,
    name: &str,
    deposit: u128,
) -> Result<Option<Event>, ContractError> {
    let lock = reg.buy_sub_account(&ctx(buyer, deposit), s(tla), s(name))?;
    let balances = vec![Some(0u128); lock.balance_checks.len()];
    if let Some(ev) = reg.on_buy_balances_checked(
        s(tla),
        s(name),
        s(buyer),
        deposit,
        lock.balance_checks.len(),
        balances,
    ) {
        return Ok(Some(ev));
    }
    Ok(reg.on_sub_account_sold(s(tla), s(name), s(buyer), lock.price, deposit, true))
}

fn owner_of(reg: &TlaRegistry, tla: &str, name: &str) -> String {
    reg.get_sub_account(&s(tla), &s(name), NOW).unwrap().owner
}

#[test]
fn test_resale_list_buy_transfers_and_pays() {
    let mut reg = rent_business_sub("market.near", "seller-a.near", "item");
    list(&mut reg, "seller-a.near", "market.near", "item", 5 * ONE_NEAR);
    let before = reg.get_pending_refund(&s("seller-a.near"));
    let ev = buy(&mut reg, "buyer-a.near", "market.near", "item", 5 * ONE_NEAR).unwrap();
    assert!(matches!(ev, Some(Event::SubAccountSold(_))));
    assert_eq!(owner_of(&reg, "market.near", "item"), "buyer-a.near");
    assert_eq!(
        reg.get_sub_account(&s("market.near"), &s("item"), NOW).unwrap().main_wallet,
        "buyer-a.near"
    );
    assert_eq!(reg.get_pending_refund(&s("seller-a.near")), before + 5 * ONE_NEAR);
    assert!(reg.get_listing(&s("market.near"), &s("item")).is_none());
    assert_eq!(
        reg.buy_sub_account(&ctx("buyer-a.near", 5 * ONE_NEAR), s("market.near"), s("item"))
            .err()
            .unwrap(),
        ContractError::NotListed
    );
}

#[test]
fn test_resale_accepted_offer_bound_to_buyer() {
    let mut reg = rent_business_sub("bazaar.near", "seller-b.near", "relic");
    reg.accept_offer(&ctx("seller-b.near", 1), s("bazaar.near"), s("relic"), s("buyer-b.near"), 3 * ONE_NEAR)
        .unwrap();
    assert_eq!(
        reg.buy_sub_account(&ctx("intruder-b.near", 3 * ONE_NEAR), s("bazaar.near"), s("relic"))
            .err()
            .unwrap(),
        ContractError::NotListed
    );
    buy(&mut reg, "buyer-b.near", "bazaar.near", "relic", 3 * ONE_NEAR).unwrap();
    assert_eq!(owner_of(&reg, "bazaar.near", "relic"), "buyer-b.near");
    assert!(reg.get_accepted_offer(&s("bazaar.near"), &s("relic")).is_none());
}

#[test]
fn test_resale_authorization_guards() {
    let mut reg = rent_business_sub("exchange.near", "seller-c.near", "token");
    assert_eq!(
        reg.list_sub_account(&ctx("stranger-c.near", 1), s("exchange.near"), s("token"), 5 * ONE_NEAR)
            .unwrap_err(),
        ContractError::OnlyOwner
    );
    list(&mut reg, "seller-c.near", "exchange.near", "token", 5 * ONE_NEAR);
    assert_eq!(
        reg.buy_sub_account(&ctx("stranger-c.near", 4 * ONE_NEAR), s("exchange.near"), s("token"))
            .err()
            .unwrap(),
        ContractError::PriceNotMet
    );
}

#[test]
fn test_resale_commission_split() {
    let mut reg = rent_business_sub("souk.near", "seller-d.near", "gem");
    let mut config = default_fee_config();
    config.resale_commission_bps = 250;
    reg.update_fee_config(&ctx("admin.near", 0), config).unwrap();
    list(&mut reg, "seller-d.near", "souk.near", "gem", 100 * ONE_NEAR);
    let seller_before = reg.get_pending_refund(&s("seller-d.near"));
    let revenue_before = reg.get_stats().total_revenue_yocto;
    buy(&mut reg, "buyer-d.near", "souk.near", "gem", 100 * ONE_NEAR).unwrap();
    let price = 100 * ONE_NEAR;
    let commission = price * 250 / 10_000;
    let proceeds = price - commission;
    assert_eq!(reg.get_pending_refund(&s("seller-d.near")) - seller_before, proceeds);
    assert_eq!(reg.get_stats().total_revenue_yocto - revenue_before, commission);
}

#[test]
fn test_resale_blocked_when_tla_suspended() {
    let mut reg = rent_business_sub("embargo.near", "seller-e.near", "asset");
    reg.suspend_tla(&ctx("admin.near", 0), s("embargo.near")).unwrap();
    assert_eq!(
        reg.list_sub_account(&ctx("seller-e.near", 1), s("embargo.near"), s("asset"), ONE_NEAR)
            .unwrap_err(),
        ContractError::SubAccountNotSellable
    );
}

#[test]
fn test_resale_unlist_clears_sale() {
    let mut reg = rent_business_sub("stall.near", "seller-f.near", "wares");
    list(&mut reg, "seller-f.near", "stall.near", "wares", 10 * ONE_NEAR);
    assert_eq!(
        reg.unlist_sub_account(&ctx("stranger-f.near", 1), s("stall.near"), s("wares")).unwrap_err(),
        ContractError::OnlyOwner
    );
    reg.unlist_sub_account(&ctx("seller-f.near", 1), s("stall.near"), s("wares")).unwrap();
    assert!(reg.get_listing(&s("stall.near"), &s("wares")).is_none());
    assert_eq!(
        reg.buy_sub_account(&ctx("buyer-f.near", 20 * ONE_NEAR), s("stall.near"), s("wares"))
            .err()
            .unwrap(),
        ContractError::NotListed
    );
    assert_eq!(
        reg.unlist_sub_account(&ctx("seller-f.near", 1), s("stall.near"), s("wares")).unwrap_err(),
        ContractError::NotListed
    );
}

#[test]
fn test_resale_revoke_offer_blocks_buyer() {
    let mut reg = rent_business_sub("depot.near", "seller-g.near", "crate");
    reg.accept_offer(&ctx("seller-g.near", 1), s("depot.near"), s("crate"), s("buyer-g.near"), 20 * ONE_NEAR)
        .unwrap();
    reg.revoke_offer(&ctx("seller-g.near", 1), s("depot.near"), s("crate")).unwrap();
    assert!(reg.get_accepted_offer(&s("depot.near"), &s("crate")).is_none());
    assert_eq!(
        reg.buy_sub_account(&ctx("buyer-g.near", 20 * ONE_NEAR), s("depot.near"), s("crate"))
            .err()
            .unwrap(),
        ContractError::NotListed
    );
    assert_eq!(
        reg.revoke_offer(&ctx("seller-g.near", 1), s("depot.near"), s("crate")).unwrap_err(),
        ContractError::NoAcceptedOffer
    );
}

#[test]
fn test_resale_list_requires_one_yocto() {
    let mut reg = rent_business_sub("kiosk.near", "seller-h.near", "good");
    assert_eq!(
        reg.list_sub_account(&ctx("seller-h.near", 0), s("kiosk.near"), s("good"), ONE_NEAR)
            .unwrap_err(),
        ContractError::RequiresOneYocto
    );
}

#[test]
fn test_resale_zero_price_rejected() {
    let mut reg = rent_business_sub("mart.near", "seller-i.near", "lot");
    assert_eq!(
        reg.list_sub_account(&ctx("seller-i.near", 1), s("mart.near"), s("lot"), 0).unwrap_err(),
        ContractError::InvalidPrice
    );
    assert_eq!(
        reg.accept_offer(&ctx("seller-i.near", 1), s("mart.near"), s("lot"), s("b.near"), 0)
            .unwrap_err(),
        ContractError::InvalidPrice
    );
}

#[test]
fn test_resale_buy_refunds_excess() {
    let mut reg = rent_business_sub("outlet.near", "seller-j.near", "parcel");
    list(&mut reg, "seller-j.near", "outlet.near", "parcel", 5 * ONE_NEAR);
    buy(&mut reg, "buyer-j.near", "outlet.near", "parcel", 50 * ONE_NEAR).unwrap();
    assert_eq!(reg.get_pending_refund(&s("buyer-j.near")), 45 * ONE_NEAR);
}

#[test]
fn test_resale_mother_not_sellable() {
    let mut reg = rent_business_sub("anchor.near", "seller-k.near", "home");
    reg.mother_use_count.insert(s("home.anchor.near"), 1);
    assert_eq!(
        reg.list_sub_account(&ctx("seller-k.near", 1), s("anchor.near"), s("home"), ONE_NEAR)
            .unwrap_err(),
        ContractError::SubAccountIsMother
    );
}

#[test]
fn test_resale_retraction_blocks_sale() {
    let mut reg = rent_business_sub("lease.near", "seller-l.near", "unit");
    let key = s("unit.lease.near");
    let mut sub = reg.sub_accounts.get(&key).unwrap().clone();
    sub.retraction_at = Some(NOW);
    reg.sub_accounts.insert(key, sub);
    assert_eq!(
        reg.list_sub_account(&ctx("seller-l.near", 1), s("lease.near"), s("unit"), ONE_NEAR)
            .unwrap_err(),
        ContractError::RetractionPending
    );
}

#[test]
fn test_resale_pause_blocks_marketplace() {
    let mut reg = rent_business_sub("fair.near", "seller-m.near", "booth");
    list(&mut reg, "seller-m.near", "fair.near", "booth", 20 * ONE_NEAR);
    reg.pause(&ctx("admin.near", 0)).unwrap();
    assert_eq!(
        reg.list_sub_account(&ctx("seller-m.near", 1), s("fair.near"), s("booth"), ONE_NEAR)
            .unwrap_err(),
        ContractError::Paused
    );
    assert_eq!(
        reg.buy_sub_account(&ctx("buyer-m.near", 20 * ONE_NEAR), s("fair.near"), s("booth"))
            .err()
            .unwrap(),
        ContractError::Paused
    );
}

#[test]
fn test_pause_blocks_user_methods() {
    let mut reg = TlaRegistry::new(s("admin.near"), Vec::new());
    reg.pause(&ctx("admin.near", 0)).unwrap();
    assert_eq!(
        reg.accept_offer(&ctx("u.near", 1), s("nonexistent.test.near"), s("x"), s("b.near"), 1)
            .unwrap_err(),
        ContractError::Paused
    );
    assert_eq!(
        reg.revoke_offer(&ctx("u.near", 1), s("nonexistent.test.near"), s("x")).unwrap_err(),
        ContractError::Paused
    );
}

#[test]
fn test_resale_relist_updates_price() {
    let mut reg = rent_business_sub("plaza.near", "seller-n.near", "spot");
    list(&mut reg, "seller-n.near", "plaza.near", "spot", 5 * ONE_NEAR);
    list(&mut reg, "seller-n.near", "plaza.near", "spot", 9 * ONE_NEAR);
    assert_eq!(reg.get_listing(&s("plaza.near"), &s("spot")).unwrap().price_yocto, 9 * ONE_NEAR);
    assert_eq!(
        reg.buy_sub_account(&ctx("buyer-n.near", 5 * ONE_NEAR), s("plaza.near"), s("spot"))
            .err()
            .unwrap(),
        ContractError::PriceNotMet
    );
    buy(&mut reg, "buyer-n.near", "plaza.near", "spot", 9 * ONE_NEAR).unwrap();
    assert_eq!(owner_of(&reg, "plaza.near", "spot"), "buyer-n.near");
}

#[test]
fn test_resale_blocked_while_assets_unverifiable() {
    let mut reg = rent_business_sub("escrow.near", "seller-o.near", "vault");
    reg.add_ft_allowlist(&ctx("admin.near", 0), s("ghost-ft.near")).unwrap();
    list(&mut reg, "seller-o.near", "escrow.near", "vault", 5 * ONE_NEAR);
    let lock = reg
        .buy_sub_account(&ctx("buyer-o.near", 5 * ONE_NEAR), s("escrow.near"), s("vault"))
        .unwrap();
    assert_eq!(lock.balance_checks, vec![s("ghost-ft.near")]);
    assert_eq!(lock.sub_account, "vault.escrow.near");
    // The balance query failed: the answer is missing.
    let ev = reg.on_buy_balances_checked(
        s("escrow.near"),
        s("vault"),
        s("buyer-o.near"),
        5 * ONE_NEAR,
        lock.balance_checks.len(),
        vec![None],
    );
    assert!(matches!(ev, Some(Event::SaleBlocked(_))));
    assert_eq!(owner_of(&reg, "escrow.near", "vault"), "seller-o.near");
    assert_eq!(reg.get_pending_refund(&s("buyer-o.near")), 5 * ONE_NEAR);
    assert!(!reg.get_listing(&s("escrow.near"), &s("vault")).unwrap().settling);
}

#[test]
fn nonzero_or_missing_balances_block_the_sale() {
    let mut reg = rent_business_sub("m.near", "seller.near", "x");
    list(&mut reg, "seller.near", "m.near", "x", ONE_NEAR);
    reg.buy_sub_account(&ctx("b.near", ONE_NEAR), s("m.near"), s("x")).unwrap();
    assert!(reg
        .on_buy_balances_checked(s("m.near"), s("x"), s("b.near"), ONE_NEAR, 2, vec![Some(0), Some(7)])
        .is_some());
    reg.buy_sub_account(&ctx("b.near", ONE_NEAR), s("m.near"), s("x")).unwrap();
    assert!(reg
        .on_buy_balances_checked(s("m.near"), s("x"), s("b.near"), ONE_NEAR, 2, vec![Some(0)])
        .is_some());
    reg.buy_sub_account(&ctx("b.near", ONE_NEAR), s("m.near"), s("x")).unwrap();
    assert!(reg
        .on_buy_balances_checked(s("m.near"), s("x"), s("b.near"), ONE_NEAR, 2, vec![Some(0), Some(0)])
        .is_none());
    assert!(reg.get_listing(&s("m.near"), &s("x")).unwrap().settling);
}

#[test]
fn settling_sale_locks_out_other_calls() {
    let mut reg = rent_business_sub("lock.near", "seller.near", "x");
    list(&mut reg, "seller.near", "lock.near", "x", ONE_NEAR);
    reg.buy_sub_account(&ctx("b1.near", ONE_NEAR), s("lock.near"), s("x")).unwrap();
    assert!(reg.get_listing(&s("lock.near"), &s("x")).unwrap().settling);
    assert_eq!(
        reg.buy_sub_account(&ctx("b2.near", ONE_NEAR), s("lock.near"), s("x")).err().unwrap(),
        ContractError::SaleInProgress
    );
    assert_eq!(
        reg.unlist_sub_account(&ctx("seller.near", 1), s("lock.near"), s("x")).unwrap_err(),
        ContractError::SaleInProgress
    );
    assert_eq!(
        reg.list_sub_account(&ctx("seller.near", 1), s("lock.near"), s("x"), 2).unwrap_err(),
        ContractError::SaleInProgress
    );
}

#[test]
fn failed_key_swap_refunds_buyer_and_unlocks() {
    let mut reg = rent_business_sub("fail.near", "seller.near", "x");
    list(&mut reg, "seller.near", "fail.near", "x", 2 * ONE_NEAR);
    let lock = reg.buy_sub_account(&ctx("b.near", 3 * ONE_NEAR), s("fail.near"), s("x")).unwrap();
    let ev = reg.on_sub_account_sold(s("fail.near"), s("x"), s("b.near"), lock.price, 3 * ONE_NEAR, false);
    match ev {
        Some(Event::SaleFailed(e)) => {
            assert_eq!(e.full_name, "x.fail.near");
            assert_eq!(e.buyer, "b.near");
        },
        other => panic!("unexpected event {:?}", other),
    }
    assert_eq!(reg.get_pending_refund(&s("b.near")), 3 * ONE_NEAR);
    assert_eq!(reg.get_pending_refund(&s("seller.near")), 0);
    assert_eq!(owner_of(&reg, "fail.near", "x"), "seller.near");
    assert!(!reg.get_listing(&s("fail.near"), &s("x")).unwrap().settling);
    assert_eq!(reg.get_total_pending_refunds(), 3 * ONE_NEAR);
}

#[test]
fn invalid_sub_account_id_is_refused() {
    let mut reg = rent_business_sub("shop.near", "seller.near", "x");
    // "Bad" has an upper-case letter, so "Bad.shop.near" is no account id.
    assert_eq!(
        reg.list_sub_account(&ctx("seller.near", 1), s("shop.near"), s("Bad"), ONE_NEAR)
            .unwrap_err(),
        ContractError::InvalidSubAccountId
    );
    assert_eq!(
        reg.list_sub_account(&ctx("seller.near", 1), s("shop.near"), s("missing"), ONE_NEAR)
            .unwrap_err(),
        ContractError::SubAccountNotFound
    );
    assert_eq!(
        reg.list_sub_account(&ctx("seller.near", 1), s("nope.near"), s("x"), ONE_NEAR).unwrap_err(),
        ContractError::SubAccountNotFound
    );
}

#[test]
fn expired_sub_account_is_not_sellable() {
    let mut reg = rent_business_sub("old.near", "seller.near", "x");
    let later = CallContext {
        predecessor: s("seller.near"),
        attached_deposit: 1,
        block_timestamp: NOW + ONE_YEAR_NS + 1,
    };
    assert_eq!(
        reg.list_sub_account(&later, s("old.near"), s("x"), ONE_NEAR).unwrap_err(),
        ContractError::SubAccountNotSellable
    );
}

#[test]
fn unknown_tla_for_existing_sub_is_refused() {
    let mut reg = rent_business_sub("real.near", "seller.near", "x");
    reg.sub_accounts.insert(
        s("x.ghost.near"),
        SubAccountEntry {
            owner: s("seller.near"),
            tla_id: s("ghost.near"),
            main_wallet: s("seller.near"),
            rented_at: NOW,
            expires_at: NOW + ONE_YEAR_NS,
            retraction_at: None,
        },
    );
    assert_eq!(
        reg.list_sub_account(&ctx("seller.near", 1), s("ghost.near"), s("x"), ONE_NEAR).unwrap_err(),
        ContractError::TlaNotFound
    );
}

#[test]
fn rental_callback_settles_or_rolls_back() {
    let mut reg = rent_business_sub("rent.near", "lic.near", "a");
    reg.business_sub_count.insert(s("rent.near"), 2);
    let ev = reg.on_sub_account_created(s("rent.near"), s("a"), s("payer.near"), ONE_NEAR, 5 * ONE_NEAR, true);
    assert!(matches!(ev, Event::SubAccountRented(_)));
    assert_eq!(reg.get_stats().sub_account_count, 1);
    assert_eq!(reg.get_stats().total_revenue_yocto, ONE_NEAR);
    // 5 attached - (1 rent + 2 creation deposit) = 2 back.
    assert_eq!(reg.get_pending_refund(&s("payer.near")), 2 * ONE_NEAR);

    reg.sub_accounts.insert(
        s("b.rent.near"),
        reg.sub_accounts.get(&s("a.rent.near")).unwrap().clone(),
    );
    let ev = reg.on_sub_account_created(s("rent.near"), s("b"), s("payer.near"), ONE_NEAR, 5 * ONE_NEAR, false);
    match ev {
        Event::RefundPending(e) => {
            assert_eq!(e.amount_yocto, 5 * ONE_NEAR);
            assert_eq!(e.reason, "sub-account creation failed");
        },
        other => panic!("unexpected event {:?}", other),
    }
    assert!(reg.is_name_available(&s("rent.near"), &s("b")));
    assert_eq!(*reg.business_sub_count.get(&s("rent.near")).unwrap(), 1);
    assert_eq!(reg.get_pending_refund(&s("payer.near")), 7 * ONE_NEAR);
}
