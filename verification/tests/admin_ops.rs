use hos_tla::admin::AllowlistKind;
use hos_tla::error::ContractError;
use hos_tla::events::Event;
use hos_tla::fees::default_fee_config;
use hos_tla::registry::{CallContext, TlaRegistry, MAX_ALLOWLIST_SIZE};
use hos_tla::types::{PremiumCategory, TlaStatus, TlaType, ONE_NEAR};

fn ctx(pred: &str) -> CallContext {
    CallContext { predecessor: pred.to_string(), attached_deposit: 0, block_timestamp: 1 }
}

fn registry() -> TlaRegistry {
    TlaRegistry::new("admin.near".to_string(), Vec::new())
}

#[test]
fn register_tla_checks_in_order() {
    let mut reg = registry();
    assert_eq!(
        reg.register_tla(&ctx("eve.near"), "t.near".to_string(), TlaType::Open, PremiumCategory::Standard, None)
            .unwrap_err(),
        ContractError::Unauthorized
    );
    assert_eq!(
        reg.register_tla(&ctx("admin.near"), "t.near".to_string(), TlaType::Business, PremiumCategory::Standard, None)
            .unwrap_err(),
        ContractError::BusinessTlaRequiresLicensee
    );
    let ev = reg
        .register_tla(
            &ctx("admin.near"),
            "t.near".to_string(),
            TlaType::Business,
            PremiumCategory::Premium,
            Some("lic.near".to_string()),
        )
        .unwrap();
    match ev {
        Event::TlaRegistered(e) => {
            assert_eq!(e.tla_id, "t.near");
            assert_eq!(e.tla_type, "business");
            assert_eq!(e.premium_category, "premium");
            assert_eq!(e.licensee.as_deref(), Some("lic.near"));
        },
        other => panic!("unexpected event {:?}", other),
    }
    assert_eq!(
        reg.register_tla(&ctx("admin.near"), "t.near".to_string(), TlaType::Open, PremiumCategory::Standard, None)
            .unwrap_err(),
        ContractError::TlaAlreadyRegistered
    );
    let entry = reg.tlas.get(&"t.near".to_string()).unwrap();
    assert_eq!(entry.status, TlaStatus::Registered);
    assert_eq!(entry.expires_at, 0);
}

#[test]
fn suspend_and_unsuspend() {
    let mut reg = registry();
    let admin = ctx("admin.near");
    assert_eq!(reg.suspend_tla(&admin, "t.near".to_string()).unwrap_err(), ContractError::TlaNotFound);
    reg.register_tla(&admin, "t.near".to_string(), TlaType::Open, PremiumCategory::Standard, None).unwrap();
    assert_eq!(
        reg.unsuspend_tla(&admin, "t.near".to_string()).unwrap_err(),
        ContractError::TlaNotSuspended
    );
    assert_eq!(
        reg.suspend_tla(&ctx("eve.near"), "t.near".to_string()).unwrap_err(),
        ContractError::Unauthorized
    );
    match reg.suspend_tla(&admin, "t.near".to_string()).unwrap() {
        Event::TlaSuspended(e) => {
            assert_eq!(e.action, "suspended");
            assert_eq!(e.by, "admin.near");
        },
        other => panic!("unexpected event {:?}", other),
    }
    assert_eq!(reg.tlas.get(&"t.near".to_string()).unwrap().status, TlaStatus::Suspended);
    match reg.unsuspend_tla(&admin, "t.near".to_string()).unwrap() {
        Event::TlaUnsuspended(e) => assert_eq!(e.action, "unsuspended"),
        other => panic!("unexpected event {:?}", other),
    }
    assert_eq!(reg.tlas.get(&"t.near".to_string()).unwrap().status, TlaStatus::Active);
}

#[test]
fn unsuspend_business_without_licensee_is_refused() {
    let mut reg = registry();
    let admin = ctx("admin.near");
    reg.register_tla(
        &admin,
        "b.near".to_string(),
        TlaType::Business,
        PremiumCategory::Standard,
        Some("lic.near".to_string()),
    )
    .unwrap();
    let mut entry = reg.tlas.get(&"b.near".to_string()).unwrap().clone();
    entry.licensee = None;
    entry.status = TlaStatus::Suspended;
    reg.tlas.insert("b.near".to_string(), entry);
    assert_eq!(
        reg.unsuspend_tla(&admin, "b.near".to_string()).unwrap_err(),
        ContractError::BusinessTlaMissingLicensee
    );
}

#[test]
fn admin_set_never_empties() {
    let mut reg = registry();
    let admin = ctx("admin.near");
    assert_eq!(
        reg.remove_admin(&admin, "admin.near".to_string()).unwrap_err(),
        ContractError::CannotRemoveLastAdmin
    );
    assert!(reg.add_admin(&admin, "second.near".to_string()).unwrap().is_some());
    assert!(reg.add_admin(&admin, "second.near".to_string()).unwrap().is_none());
    assert_eq!(reg.get_admins(), vec!["admin.near".to_string(), "second.near".to_string()]);
    assert_eq!(
        reg.add_admin(&ctx("eve.near"), "eve.near".to_string()).unwrap_err(),
        ContractError::Unauthorized
    );
    reg.remove_admin(&admin, "admin.near".to_string()).unwrap();
    assert_eq!(reg.get_admins(), vec!["second.near".to_string()]);
    assert_eq!(
        reg.remove_admin(&ctx("second.near"), "second.near".to_string()).unwrap_err(),
        ContractError::CannotRemoveLastAdmin
    );
    assert_eq!(
        reg.remove_admin(&admin, "second.near".to_string()).unwrap_err(),
        ContractError::Unauthorized
    );
}

#[test]
fn update_fee_config_validates() {
    let mut reg = registry();
    let admin = ctx("admin.near");
    let mut c = default_fee_config();
    c.rent_tier_5 = 0;
    c.rent_tier_8 = 0;
    c.rent_tier_10 = 0;
    c.rent_tier_12plus = 0;
    assert_eq!(reg.update_fee_config(&admin, c).unwrap_err(), ContractError::AllRentTiersZero);
    let mut c = default_fee_config();
    c.account_creation_deposit = 0;
    assert_eq!(reg.update_fee_config(&admin, c).unwrap_err(), ContractError::CreationDepositZero);
    let mut c = default_fee_config();
    c.resale_commission_bps = 10_001;
    assert_eq!(reg.update_fee_config(&admin, c).unwrap_err(), ContractError::InvalidCommissionBps);
    let mut c = default_fee_config();
    c.resale_commission_bps = 250;
    assert_eq!(reg.update_fee_config(&ctx("eve.near"), c).unwrap_err(), ContractError::Unauthorized);
    reg.update_fee_config(&admin, c).unwrap();
    assert_eq!(reg.get_fee_config().resale_commission_bps, 250);
}

#[test]
fn withdraw_queues_revenue_as_pull_payment() {
    let mut reg = registry();
    let admin = ctx("admin.near");
    reg.total_revenue = 10 * ONE_NEAR;
    assert_eq!(
        reg.withdraw(&admin, 0, "r.near".to_string(), 100 * ONE_NEAR).unwrap_err(),
        ContractError::WithdrawalAmountZero
    );
    assert_eq!(
        reg.withdraw(&admin, 11 * ONE_NEAR, "r.near".to_string(), 100 * ONE_NEAR).unwrap_err(),
        ContractError::InsufficientRevenue
    );
    assert_eq!(
        reg.withdraw(&admin, 5 * ONE_NEAR, "r.near".to_string(), 4 * ONE_NEAR).unwrap_err(),
        ContractError::InsufficientContractBalance
    );
    assert_eq!(
        reg.withdraw(&ctx("eve.near"), ONE_NEAR, "r.near".to_string(), 100 * ONE_NEAR).unwrap_err(),
        ContractError::Unauthorized
    );
    match reg.withdraw(&admin, 4 * ONE_NEAR, "r.near".to_string(), 100 * ONE_NEAR).unwrap() {
        Event::WithdrawalQueued(e) => {
            assert_eq!(e.amount_yocto, 4 * ONE_NEAR);
            assert_eq!(e.recipient, "r.near");
        },
        other => panic!("unexpected event {:?}", other),
    }
    assert_eq!(reg.total_revenue, 6 * ONE_NEAR);
    assert_eq!(reg.get_pending_refund(&"r.near".to_string()), 4 * ONE_NEAR);
    assert_eq!(reg.get_total_pending_refunds(), 4 * ONE_NEAR);
    // The pending refunds must stay covered: 4 already pending + 5 > 8.
    assert_eq!(
        reg.withdraw(&admin, 5 * ONE_NEAR, "r.near".to_string(), 8 * ONE_NEAR).unwrap_err(),
        ContractError::InsufficientContractBalance
    );
}

#[test]
fn allowlists_are_bounded_and_idempotent() {
    let mut reg = registry();
    let admin = ctx("admin.near");
    assert!(reg.add_ft_allowlist(&admin, "usdc.near".to_string()).unwrap().is_some());
    assert!(reg.add_ft_allowlist(&admin, "usdc.near".to_string()).unwrap().is_none());
    assert_eq!(reg.get_ft_allowlist(), vec!["usdc.near".to_string()]);
    assert!(reg.remove_ft_allowlist(&admin, "dai.near".to_string()).unwrap().is_none());
    assert_eq!(reg.get_ft_allowlist(), vec!["usdc.near".to_string()]);
    assert!(reg.remove_ft_allowlist(&admin, "usdc.near".to_string()).unwrap().is_some());
    assert!(reg.get_ft_allowlist().is_empty());
    for i in 0..MAX_ALLOWLIST_SIZE {
        reg.add_nft_allowlist(&admin, format!("nft{}.near", i)).unwrap();
    }
    assert_eq!(
        reg.add_nft_allowlist(&admin, "one-more.near".to_string()).unwrap_err(),
        ContractError::AllowlistFull
    );
    assert!(reg.add_nft_allowlist(&admin, "nft0.near".to_string()).unwrap().is_none());
    assert_eq!(reg.get_nft_allowlist().len(), MAX_ALLOWLIST_SIZE);
    assert!(reg.remove_nft_allowlist(&admin, "nft0.near".to_string()).unwrap().is_some());
    // The last token takes the removed one's place.
    assert_eq!(reg.get_nft_allowlist()[0], format!("nft{}.near", MAX_ALLOWLIST_SIZE - 1));
    assert_eq!(
        reg.add_allowlist(&ctx("eve.near"), AllowlistKind::Ft, "x.near".to_string()).unwrap_err(),
        ContractError::Unauthorized
    );
    assert_eq!(
        reg.remove_nft_allowlist(&ctx("eve.near"), "x.near".to_string()).unwrap_err(),
        ContractError::Unauthorized
    );
}

#[test]
fn activate_open_tla_errors() {
    let mut reg = registry();
    let admin = ctx("admin.near");
    assert_eq!(
        reg.activate_open_tla(&admin, "o.near".to_string()).unwrap_err(),
        ContractError::TlaNotFound
    );
    reg.register_tla(
        &admin,
        "b.near".to_string(),
        TlaType::Business,
        PremiumCategory::Standard,
        Some("lic.near".to_string()),
    )
    .unwrap();
    assert_eq!(
        reg.activate_open_tla(&admin, "b.near".to_string()).unwrap_err(),
        ContractError::WrongActivationEndpoint
    );
    reg.register_tla(&admin, "o.near".to_string(), TlaType::Open, PremiumCategory::Standard, None).unwrap();
    reg.activate_open_tla(&admin, "o.near".to_string()).unwrap();
    assert_eq!(
        reg.activate_open_tla(&admin, "o.near".to_string()).unwrap_err(),
        ContractError::TlaNotInRegisteredState
    );
    assert_eq!(
        reg.activate_open_tla(&ctx("eve.near"), "o.near".to_string()).unwrap_err(),
        ContractError::Unauthorized
    );
}

#[test]
fn pause_is_admin_only() {
    let mut reg = registry();
    assert_eq!(reg.pause(&ctx("eve.near")).unwrap_err(), ContractError::Unauthorized);
    reg.pause(&ctx("admin.near")).unwrap();
    assert!(reg.is_paused());
    reg.unpause(&ctx("admin.near")).unwrap();
    assert!(!reg.is_paused());
}

#[test]
fn resale_dispatch_is_admin_only() {
    let reg = registry();
    assert_eq!(
        reg.resale_unlock(&ctx("eve.near"), "alice.near".to_string()).unwrap_err(),
        ContractError::Unauthorized
    );
    match reg.resale_abort(&ctx("admin.near"), "alice.near".to_string()).unwrap() {
        Event::ResaleAbortRequested(e) => assert_eq!(e.account, "alice.near"),
        other => panic!("unexpected event {:?}", other),
    }
    match reg.resale_unlock(&ctx("admin.near"), "alice.near".to_string()).unwrap() {
        Event::ResaleUnlockRequested(e) => assert_eq!(e.by, "admin.near"),
        other => panic!("unexpected event {:?}", other),
    }
}

#[test]
fn pause_spares_admin_operations() {
    let mut reg = registry();
    let admin = ctx("admin.near");
    reg.pause(&admin).unwrap();
    reg.register_tla(&admin, "t.near".to_string(), TlaType::Open, PremiumCategory::Standard, None)
        .unwrap();
    reg.add_admin(&admin, "second.near".to_string()).unwrap();
    reg.total_revenue = ONE_NEAR;
    reg.withdraw(&admin, ONE_NEAR, "r.near".to_string(), 10 * ONE_NEAR).unwrap();
    assert_eq!(reg.get_pending_refund(&"r.near".to_string()), ONE_NEAR);
    assert!(reg.is_paused());
}

#[test]
fn event_names_and_error_codes() {
    let mut reg = registry();
    let ev = reg.pause(&ctx("admin.near")).unwrap();
    assert_eq!(ev.name(), "paused");
    let ev = reg
        .register_tla(&ctx("admin.near"), "t.near".to_string(), TlaType::Open, PremiumCategory::Standard, None)
        .unwrap();
    assert_eq!(ev.name(), "tla_registered");
    assert_eq!(ContractError::OnlyOwner.code(), "only_owner");
    assert_eq!(ContractError::SubAccountIsMother.code(), "sub_account_is_mother");
    assert_eq!(ContractError::RequiresOneYocto.code(), "requires_one_yocto");
    assert_eq!(hos_tla::error::ResaleLockerError::AlreadySettled.code(), "already_settled");
    assert_eq!(hos_tla::error::LockerError::NotHeld.code(), "not_held");
    assert_eq!(hos_tla::error::ManagerError::InvalidSubAccountName.code(), "invalid_sub_account_name");
}

#[test]
fn withdrawal_moves_exact_amount() {
    let mut reg = registry();
    let admin = ctx("admin.near");
    reg.total_revenue = 10 * ONE_NEAR;
    reg.add_pending_refund(&"r.near".to_string(), 3 * ONE_NEAR);
    reg.add_pending_refund(&"other.near".to_string(), ONE_NEAR);
    reg.withdraw(&admin, 2 * ONE_NEAR, "r.near".to_string(), 100 * ONE_NEAR).unwrap();
    assert_eq!(reg.total_revenue, 8 * ONE_NEAR);
    assert_eq!(reg.get_pending_refund(&"r.near".to_string()), 5 * ONE_NEAR);
    assert_eq!(reg.get_pending_refund(&"other.near".to_string()), ONE_NEAR);
    assert_eq!(reg.get_total_pending_refunds(), 6 * ONE_NEAR);
}

#[test]
fn locker_code_survives_operations() {
    let mut reg = TlaRegistry::new("admin.near".to_string(), vec![7, 8]);
    reg.pause(&ctx("admin.near")).unwrap();
    reg.register_tla(&ctx("admin.near"), "t.near".to_string(), TlaType::Open, PremiumCategory::Standard, None)
        .unwrap();
    assert_eq!(reg.get_resale_locker_size(), 2);
    assert_eq!(reg.get_resale_locker_wasm(), vec![7, 8]);
}
