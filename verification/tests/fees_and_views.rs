use hos_tla::events::{event_log_line, Event};
use hos_tla::fees::{base_rent, calculate_rent, default_fee_config, sub_account_rent, total_name_length};
use hos_tla::registry::{CallContext, TlaRegistry};
use hos_tla::resale::hex_lower;
use hos_tla::types::{
    LifecycleStatus, PremiumCategory, SubAccountEntry, TlaEntry, TlaStatus, TlaType, ONE_NEAR,
    ONE_YEAR_NS,
};

fn ctx(pred: &str, deposit: u128, now: u64) -> CallContext {
    CallContext { predecessor: pred.to_string(), attached_deposit: deposit, block_timestamp: now }
}

#[test]
fn default_fee_config_values() {
    let c = default_fee_config();
    assert_eq!(c.tla_allocation_fee, 1000 * ONE_NEAR);
    assert_eq!(c.rent_tier_5, 50 * ONE_NEAR);
    assert_eq!(c.rent_tier_8, 20 * ONE_NEAR);
    assert_eq!(c.rent_tier_10, 10 * ONE_NEAR);
    assert_eq!(c.rent_tier_12plus, 5 * ONE_NEAR);
    assert_eq!(c.sub_fee_per_account, ONE_NEAR / 2);
    assert_eq!(c.account_creation_deposit, 2 * ONE_NEAR);
    assert_eq!(c.business_max_subs, 1000);
    assert_eq!(c.retraction_notice_ns, 604_800_000_000_000);
    assert_eq!(c.resale_commission_bps, 0);
}

#[test]
fn base_rent_tiers_by_length() {
    let c = default_fee_config();
    assert_eq!(base_rent(0, &c), 50 * ONE_NEAR);
    assert_eq!(base_rent(5, &c), 50 * ONE_NEAR);
    assert_eq!(base_rent(6, &c), 20 * ONE_NEAR);
    assert_eq!(base_rent(8, &c), 20 * ONE_NEAR);
    assert_eq!(base_rent(9, &c), 10 * ONE_NEAR);
    assert_eq!(base_rent(10, &c), 10 * ONE_NEAR);
    assert_eq!(base_rent(11, &c), 5 * ONE_NEAR);
    assert_eq!(base_rent(255, &c), 5 * ONE_NEAR);
}

#[test]
fn sub_account_rent_applies_premium() {
    let c = default_fee_config();
    assert_eq!(sub_account_rent(5, &PremiumCategory::Standard, &c), 50 * ONE_NEAR);
    assert_eq!(sub_account_rent(5, &PremiumCategory::Legendary, &c), 500 * ONE_NEAR);
    assert_eq!(sub_account_rent(5, &PremiumCategory::Premium, &c), 150 * ONE_NEAR);
    assert_eq!(sub_account_rent(5, &PremiumCategory::Community, &c), 25 * ONE_NEAR);
}

#[test]
fn sub_account_rent_saturates() {
    let mut c = default_fee_config();
    c.rent_tier_5 = u128::MAX;
    assert_eq!(sub_account_rent(1, &PremiumCategory::Legendary, &c), u128::MAX);
    assert_eq!(sub_account_rent(1, &PremiumCategory::Community, &c), u128::MAX / 2);
}

#[test]
fn total_name_length_counts_full_name() {
    assert_eq!(total_name_length(&"ab".to_string(), &"c".to_string()), 4);
    let long = "x".repeat(300);
    assert_eq!(total_name_length(&long, &"c".to_string()), 255);
}

#[test]
fn calculate_rent_business_is_flat_fee() {
    let c = default_fee_config();
    let business = TlaEntry {
        tla_type: TlaType::Business,
        status: TlaStatus::Active,
        licensee: Some("lic.near".to_string()),
        premium_category: PremiumCategory::Legendary,
        activated_at: 0,
        expires_at: 0,
    };
    assert_eq!(calculate_rent(&business, &"tla".to_string(), &"a".to_string(), &c), ONE_NEAR / 2);
    let open = TlaEntry { tla_type: TlaType::Open, ..business.clone() };
    // "a.tla" is 5 bytes: tier 5, times ten for Legendary.
    assert_eq!(calculate_rent(&open, &"tla".to_string(), &"a".to_string(), &c), 500 * ONE_NEAR);
    // "abcdef.tla" is 10 bytes.
    assert_eq!(
        calculate_rent(&open, &"tla".to_string(), &"abcdef".to_string(), &c),
        100 * ONE_NEAR
    );
}

#[test]
fn lifecycle_phases() {
    let e = TlaEntry {
        tla_type: TlaType::Open,
        status: TlaStatus::Active,
        licensee: None,
        premium_category: PremiumCategory::Standard,
        activated_at: 0,
        expires_at: 1000,
    };
    assert_eq!(e.lifecycle(999), LifecycleStatus::Active);
    assert_eq!(e.lifecycle(1000), LifecycleStatus::Grace);
    assert_eq!(e.lifecycle(1000 + 2_592_000_000_000_000), LifecycleStatus::Reclaimable);
    let reg = TlaEntry { status: TlaStatus::Registered, ..e.clone() };
    assert_eq!(reg.lifecycle(5), LifecycleStatus::Registered);
    let sus = TlaEntry { status: TlaStatus::Suspended, ..e.clone() };
    assert_eq!(sus.lifecycle(5), LifecycleStatus::Suspended);
    let sub = SubAccountEntry {
        owner: "o".to_string(),
        tla_id: "t".to_string(),
        main_wallet: "o".to_string(),
        rented_at: 0,
        expires_at: 10,
        retraction_at: None,
    };
    assert_eq!(sub.lifecycle(3), LifecycleStatus::Active);
}

#[test]
fn hex_spells_digest_lowercase() {
    assert_eq!(hex_lower(&[0x00, 0x0f, 0xa5, 0xff]), "000fa5ff");
    assert_eq!(hex_lower(&[]), "");
}

#[test]
fn resale_locker_size_and_sha_views() {
    let reg = TlaRegistry::new("admin.near".to_string(), vec![1, 2, 3]);
    assert_eq!(reg.get_resale_locker_size(), 3);
    assert_eq!(reg.get_resale_locker_wasm(), vec![1, 2, 3]);
    assert_eq!(reg.get_resale_locker_sha256(&[0xde, 0xad, 0xbe, 0xef]), "deadbeef");
}

#[test]
fn event_log_line_envelope() {
    let line = event_log_line("tla_registered", "{\"tla_id\":\"x\"}");
    assert_eq!(
        line,
        "EVENT_JSON:{\"standard\":\"hos-tla\",\"version\":\"1.0.0\",\"event\":\"tla_registered\",\"data\":{\"tla_id\":\"x\"}}"
    );
}

#[test]
fn views_of_registered_tlas() {
    let mut reg = TlaRegistry::new("admin.near".to_string(), Vec::new());
    let admin = ctx("admin.near", 0, 100);
    for id in ["aa.near", "bbbbbb.near", "cc.near"] {
        reg.register_tla(&admin, id.to_string(), TlaType::Open, PremiumCategory::Standard, None)
            .unwrap();
    }
    let all = reg.list_tlas(0, 10, 100);
    let ids: Vec<String> = all.iter().map(|v| v.tla_id.clone()).collect();
    assert_eq!(ids, vec!["aa.near", "bbbbbb.near", "cc.near"]);
    // "aa.near" is 7 bytes: tier 8.
    assert_eq!(all[0].annual_rent, 20 * ONE_NEAR);
    // "bbbbbb.near" is 11 bytes: tier 12plus.
    assert_eq!(all[1].annual_rent, 5 * ONE_NEAR);
    assert_eq!(all[0].lifecycle, LifecycleStatus::Registered);
    let page = reg.list_tlas(1, 1, 100);
    assert_eq!(page.len(), 1);
    assert_eq!(page[0].tla_id, "bbbbbb.near");
    assert!(reg.list_tlas(5, 3, 100).is_empty());
    assert_eq!(reg.list_tlas(2, 100, 100).len(), 1);

    let stats = reg.get_stats();
    assert_eq!(stats.tla_count, 3);
    assert_eq!(stats.sub_account_count, 0);
    assert_eq!(reg.get_fee_config(), default_fee_config());
    assert!(reg.get_tla(&"zz.near".to_string(), 0).is_none());
    assert_eq!(reg.get_tla(&"cc.near".to_string(), 0).unwrap().tla_type, TlaType::Open);

    let price = reg.get_rent_price(&"aa.near".to_string(), &"x".to_string()).unwrap();
    // "x.aa.near" is 9 bytes: tier 10.
    assert_eq!(price.rent_yocto, 10 * ONE_NEAR);
    assert_eq!(price.creation_deposit_yocto, 2 * ONE_NEAR);
    assert_eq!(price.total_yocto, 12 * ONE_NEAR);
    assert_eq!(
        reg.get_rent_price(&"zz.near".to_string(), &"x".to_string()).unwrap_err(),
        hos_tla::error::ContractError::TlaNotFound
    );
    assert!(reg.is_name_available(&"aa.near".to_string(), &"x".to_string()));
}

#[test]
fn open_tla_activation_sets_one_year_term() {
    let mut reg = TlaRegistry::new("admin.near".to_string(), Vec::new());
    let admin = ctx("admin.near", 0, 5_000);
    reg.register_tla(&admin, "open.near".to_string(), TlaType::Open, PremiumCategory::Premium, None)
        .unwrap();
    let ev = reg.activate_open_tla(&admin, "open.near".to_string()).unwrap();
    match ev {
        Event::TlaActivated(e) => {
            assert_eq!(e.expires_at, 5_000 + ONE_YEAR_NS);
            assert_eq!(e.paid_yocto, 0);
        },
        other => panic!("unexpected event {:?}", other),
    }
    let view = reg.get_tla(&"open.near".to_string(), 6_000).unwrap();
    assert_eq!(view.lifecycle, LifecycleStatus::Active);
    assert_eq!(view.activated_at, 5_000);
}
