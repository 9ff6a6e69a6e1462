use hos_tla::error::{LockerError, ManagerError, ResaleLockerError};
use hos_tla::manager::TlaManager;
use hos_tla::resale_locker::{LockState, ResaleLocker};
use hos_tla::sub_account_locker::{LockerState, SubAccountLocker};

fn s(x: &str) -> String {
    x.to_string()
}

#[test]
fn test_resale_lock_unlock_replay_blocked() {
    let mut lock = ResaleLocker::new(s("registry.near"), s("ed25519:recovery"));
    assert_eq!(lock.get_config(s("alice-resale.near")).state, LockState::Active);
    let key = lock.unlock(&s("registry.near"), s("ed25519:buyer")).unwrap();
    assert_eq!(key, "ed25519:buyer");
    assert_eq!(lock.state, LockState::Settling);
    assert_eq!(
        lock.unlock(&s("registry.near"), s("ed25519:buyer")).unwrap_err(),
        ResaleLockerError::SettlementInProgress
    );
    lock.on_settle_resolved(true);
    assert_eq!(
        lock.unlock(&s("registry.near"), s("ed25519:buyer")).unwrap_err(),
        ResaleLockerError::AlreadySettled
    );
    assert_eq!(lock.abort(&s("registry.near")).unwrap_err(), ResaleLockerError::AlreadySettled);
    let config = lock.get_config(s("alice-resale.near"));
    assert_eq!(config.state, LockState::Settled);
    assert_eq!(config.version, 2);
    assert_eq!(config.recovery_key, "ed25519:recovery");
}

#[test]
fn resale_abort_uses_recovery_key_and_reopens_on_failure() {
    let mut lock = ResaleLocker::new(s("registry.near"), s("ed25519:recovery"));
    assert_eq!(lock.abort(&s("eve.near")).unwrap_err(), ResaleLockerError::Unauthorized);
    assert_eq!(lock.abort(&s("registry.near")).unwrap(), "ed25519:recovery");
    lock.on_settle_resolved(false);
    assert_eq!(lock.state, LockState::Active);
    assert!(lock.unlock(&s("registry.near"), s("k")).is_ok());
}

#[test]
fn test_hold_until_export() {
    let manager = TlaManager::new(s("registry.near"));
    let plan = manager
        .create_sub_account(&s("registry.near"), &s("vault.near"), s("carol"), s("ed25519:carol"), 10)
        .unwrap();
    assert_eq!(plan.sub_account, "carol.vault.near");
    assert_eq!(plan.owner_key, "ed25519:carol");
    assert_eq!(plan.registry, "registry.near");
    assert_eq!(plan.deposit, 10);

    let mut locker = SubAccountLocker::new(plan.registry, plan.owner_key);
    let config = locker.get_config(s("carol.vault.near"));
    assert_eq!(config.state, LockerState::Held);
    assert_eq!(config.owner_key, "ed25519:carol");

    assert_eq!(locker.export(&s("carol.near")).unwrap_err(), LockerError::Unauthorized);
    assert_eq!(locker.export(&s("registry.near")).unwrap(), "ed25519:carol");
    assert_eq!(locker.state, LockerState::Exporting);
    locker.on_export_resolved(true);
    assert_eq!(locker.get_config(s("carol.vault.near")).state, LockerState::Exported);
    assert_eq!(locker.sweep_ft(&s("registry.near")).unwrap_err(), LockerError::NotHeld);
    assert_eq!(locker.finalize_delete(&s("registry.near")).unwrap_err(), LockerError::NotHeld);
    assert_eq!(
        locker.transfer(&s("registry.near"), s("ed25519:other")).unwrap_err(),
        LockerError::NotHeld
    );
}

#[test]
fn failed_export_returns_to_held() {
    let mut locker = SubAccountLocker::new(s("registry.near"), s("k1"));
    locker.export(&s("registry.near")).unwrap();
    assert_eq!(locker.export(&s("registry.near")).unwrap_err(), LockerError::NotHeld);
    locker.on_export_resolved(false);
    assert_eq!(locker.state, LockerState::Held);
    assert!(locker.sweep_ft(&s("registry.near")).is_ok());
}

#[test]
fn resale_transfer_swaps_stored_key_and_stays_held() {
    let mut locker = SubAccountLocker::new(s("registry.near"), s("seller-key"));
    assert_eq!(locker.transfer(&s("eve.near"), s("x")).unwrap_err(), LockerError::Unauthorized);
    locker.transfer(&s("registry.near"), s("buyer-key")).unwrap();
    let config = locker.get_config(s("item.market.near"));
    assert_eq!(config.owner_key, "buyer-key");
    assert_eq!(config.state, LockerState::Held);
    assert_eq!(config.version, 1);
}

#[test]
fn sweep_steps() {
    assert_eq!(SubAccountLocker::after_balance_query(Some(0)), None);
    assert_eq!(SubAccountLocker::after_balance_query(None), None);
    assert_eq!(SubAccountLocker::after_balance_query(Some(42)), Some(42));
    assert_eq!(SubAccountLocker::after_storage_deposit(true, 42), Some(42));
    assert_eq!(SubAccountLocker::after_storage_deposit(false, 42), None);
}

#[test]
fn manager_guards() {
    let manager = TlaManager::new(s("registry.near"));
    assert_eq!(
        manager
            .create_sub_account(&s("eve.near"), &s("vault.near"), s("carol"), s("k"), 0)
            .err()
            .unwrap(),
        ManagerError::Unauthorized
    );
    assert_eq!(
        manager
            .create_sub_account(&s("registry.near"), &s("vault.near"), s("Carol"), s("k"), 0)
            .err()
            .unwrap(),
        ManagerError::InvalidSubAccountName
    );
    assert_eq!(
        manager
            .create_sub_account(&s("registry.near"), &s("vault.near"), s("a--b"), s("k"), 0)
            .err()
            .unwrap(),
        ManagerError::InvalidSubAccountName
    );
    let config = manager.get_config(s("vault.near"));
    assert_eq!(config.version, 3);
    assert_eq!(config.tla, "vault.near");
}
