use vstd::prelude::*;

use crate::error::LockerError;

verus! {

/// The version the sub-account locker reports in its config.
pub const SUB_ACCOUNT_LOCKER_VERSION: u8 = 1;

/// What the locker attaches to register the destination with a token
/// before moving its balance (NEP-145).
pub const STORAGE_DEPOSIT_AMOUNT: u128 = 1_250_000_000_000_000_000_000;

/// Custody of a rented sub-account: held by the locker, being exported to
/// its owner, or exported and out of the registry's hands.
#[derive(Clone, Copy, Debug, PartialEq, Eq, Structural)]
pub enum LockerState {
    Held,
    Exporting,
    Exported,
}

/// The contract on every rented sub-account. The account has no keys of its
/// own; the owner's key is stored here and added only on export.
pub struct SubAccountLocker {
    pub registry: String,
    pub owner_key: String,
    pub state: LockerState,
}

pub struct LockerConfig {
    pub registry: String,
    pub locker: String,
    pub owner_key: String,
    pub state: LockerState,
    pub version: u8,
}

/// The error a registry request by `caller` answers, if any: only the
/// registry may act, and only while the account is held.
pub open spec fn held_error(s: SubAccountLocker, caller: Seq<char>) -> Option<LockerError> {
    if caller != s.registry@ {
        Some(LockerError::Unauthorized)
    } else if s.state != LockerState::Held {
        Some(LockerError::NotHeld)
    } else {
        None
    }
}

/// After the balance query of a sweep: the amount to move, if the query
/// answered a positive balance; a failed query or a zero balance ends the
/// sweep of that token.
pub open spec fn spec_sweep_amount(balance: Option<u128>) -> Option<u128> {
    match balance {
        Some(b) => if b > 0 {
            Some(b)
        } else {
            None
        },
        None => None,
    }
}

impl SubAccountLocker {
    pub fn new(registry: String, owner_key: String) -> (r: Self)
        ensures
            r.registry == registry,
            r.owner_key == owner_key,
            r.state == LockerState::Held,
    {
        SubAccountLocker { registry, owner_key, state: LockerState::Held }
    }

    pub fn assert_registry(&self, caller: &String) -> (r: Result<(), LockerError>)
        ensures
            r is Ok <==> caller@ == self.registry@,
            r matches Err(e) ==> e == LockerError::Unauthorized,
    {
        if *caller != self.registry {
            return Err(LockerError::Unauthorized);
        }
        Ok(())
    }

    fn assert_held(&self, caller: &String) -> (r: Result<(), LockerError>)
        ensures
            r is Err <==> held_error(*self, caller@) is Some,
            r matches Err(e) ==> Some(e) == held_error(*self, caller@),
    {
        self.assert_registry(caller)?;
        if self.state != LockerState::Held {
            return Err(LockerError::NotHeld);
        }
        Ok(())
    }

    /// The registry asks to sweep a token to `destination`; the sweep is a
    /// chain of calls that changes nothing here.
    pub fn sweep_ft(&self, caller: &String) -> (r: Result<(), LockerError>)
        ensures
            r is Err <==> held_error(*self, caller@) is Some,
            r matches Err(e) ==> Some(e) == held_error(*self, caller@),
    {
        self.assert_held(caller)
    }

    /// What to move once the balance query answered.
    pub fn after_balance_query(balance: Option<u128>) -> (amount: Option<u128>)
        ensures
            amount == spec_sweep_amount(balance),
    {
        match balance {
            Some(b) => if b > 0 {
                Some(b)
            } else {
                None
            },
            None => None,
        }
    }

    /// What to transfer once the storage deposit answered: the amount if
    /// the deposit went through, nothing otherwise.
    pub fn after_storage_deposit(deposit_succeeded: bool, amount: u128) -> (transfer: Option<u128>)
        ensures
            transfer == (if deposit_succeeded {
                Some(amount)
            } else {
                None::<u128>
            }),
    {
        if deposit_succeeded {
            Some(amount)
        } else {
            None
        }
    }

    /// The registry asks the account to delete itself in favour of
    /// `destination`.
    pub fn finalize_delete(&self, caller: &String) -> (r: Result<(), LockerError>)
        ensures
            r is Err <==> held_error(*self, caller@) is Some,
            r matches Err(e) ==> Some(e) == held_error(*self, caller@),
    {
        self.assert_held(caller)
    }

    /// The registry releases the account to its owner: answers the stored
    /// key to add and marks the export in flight.
    pub fn export(&mut self, caller: &String) -> (r: Result<String, LockerError>)
        ensures
            r is Err <==> held_error(*old(self), caller@) is Some,
            r matches Err(e) ==> Some(e) == held_error(*old(self), caller@) && *final(self)
                == *old(self),
            r matches Ok(key) ==> key == old(self).owner_key && *final(self) == (SubAccountLocker {
                state: LockerState::Exporting,
                ..*old(self)
            }),
    {
        self.assert_held(caller)?;
        self.state = LockerState::Exporting;
        Ok(self.owner_key.clone())
    }

    /// The outcome of the export's key grant: exported for good, or held
    /// again.
    pub fn on_export_resolved(&mut self, succeeded: bool)
        ensures
            *final(self) == (SubAccountLocker {
                state: if succeeded {
                    LockerState::Exported
                } else {
                    LockerState::Held
                },
                ..*old(self)
            }),
    {
        if succeeded {
            self.state = LockerState::Exported;
        } else {
            self.state = LockerState::Held;
        }
    }

    /// A resale: the stored owner key becomes the buyer's, and the account
    /// stays held.
    pub fn transfer(&mut self, caller: &String, new_owner_key: String) -> (r: Result<(), LockerError>)
        ensures
            r is Err <==> held_error(*old(self), caller@) is Some,
            r matches Err(e) ==> Some(e) == held_error(*old(self), caller@) && *final(self)
                == *old(self),
            r is Ok ==> *final(self) == (SubAccountLocker { owner_key: new_owner_key, ..*old(self) }),
    {
        self.assert_held(caller)?;
        self.owner_key = new_owner_key;
        Ok(())
    }

    pub fn get_config(&self, locker: String) -> (c: LockerConfig)
        ensures
            c.registry == self.registry,
            c.locker == locker,
            c.owner_key == self.owner_key,
            c.state == self.state,
            c.version == SUB_ACCOUNT_LOCKER_VERSION,
    {
        LockerConfig {
            registry: self.registry.clone(),
            locker,
            owner_key: self.owner_key.clone(),
            state: self.state,
            version: SUB_ACCOUNT_LOCKER_VERSION,
        }
    }
}

} // verus!
