use vstd::prelude::*;

use crate::error::ResaleLockerError;

verus! {

/// The version the resale locker reports in its config.
pub const RESALE_LOCKER_VERSION: u8 = 2;

/// Where a resale lock stands: open, waiting for a key grant to land, or
/// done for good.
#[derive(Clone, Copy, Debug, PartialEq, Eq, Structural)]
pub enum LockState {
    Active,
    Settling,
    Settled,
}

/// A `.near` account locked for sale: only the registry may settle it, once,
/// either to a buyer's key or back to the recovery key fixed at creation.
pub struct ResaleLocker {
    pub registry: String,
    pub recovery_key: String,
    pub state: LockState,
}

pub struct ResaleLockerConfig {
    pub account: String,
    pub registry: String,
    pub recovery_key: String,
    pub state: LockState,
    pub version: u8,
}

/// The error a settlement request by `caller` answers, if any.
pub open spec fn settle_error(s: ResaleLocker, caller: Seq<char>) -> Option<ResaleLockerError> {
    if caller != s.registry@ {
        Some(ResaleLockerError::Unauthorized)
    } else {
        match s.state {
            LockState::Active => None,
            LockState::Settling => Some(ResaleLockerError::SettlementInProgress),
            LockState::Settled => Some(ResaleLockerError::AlreadySettled),
        }
    }
}

/// The state once a key grant's outcome is known.
pub open spec fn spec_resolved(state: LockState, succeeded: bool) -> LockState {
    if succeeded {
        LockState::Settled
    } else {
        LockState::Active
    }
}

impl ResaleLocker {
    pub fn new(registry: String, recovery_key: String) -> (r: Self)
        ensures
            r.registry == registry,
            r.recovery_key == recovery_key,
            r.state == LockState::Active,
    {
        ResaleLocker { registry, recovery_key, state: LockState::Active }
    }

    pub fn assert_registry(&self, caller: &String) -> (r: Result<(), ResaleLockerError>)
        ensures
            r is Ok <==> caller@ == self.registry@,
            r matches Err(e) ==> e == ResaleLockerError::Unauthorized,
    {
        if *caller != self.registry {
            return Err(ResaleLockerError::Unauthorized);
        }
        Ok(())
    }

    pub fn assert_active(&self) -> (r: Result<(), ResaleLockerError>)
        ensures
            r is Ok <==> self.state == LockState::Active,
            self.state == LockState::Settling ==> r == Err::<(), ResaleLockerError>(
                ResaleLockerError::SettlementInProgress,
            ),
            self.state == LockState::Settled ==> r == Err::<(), ResaleLockerError>(
                ResaleLockerError::AlreadySettled,
            ),
    {
        match self.state {
            LockState::Active => Ok(()),
            LockState::Settling => Err(ResaleLockerError::SettlementInProgress),
            LockState::Settled => Err(ResaleLockerError::AlreadySettled),
        }
    }

    /// The registry asks to hand the account to `buyer_key`: answers the key
    /// to grant full access to and marks the lock settling.
    pub fn unlock(&mut self, caller: &String, buyer_key: String) -> (r: Result<
        String,
        ResaleLockerError,
    >)
        ensures
            r is Err <==> settle_error(*old(self), caller@) is Some,
            r matches Err(e) ==> Some(e) == settle_error(*old(self), caller@) && *final(self)
                == *old(self),
            r matches Ok(key) ==> key == buyer_key && *final(self) == (ResaleLocker {
                state: LockState::Settling,
                ..*old(self)
            }),
    {
        self.assert_registry(caller)?;
        self.assert_active()?;
        self.state = LockState::Settling;
        Ok(buyer_key)
    }

    /// The registry asks to give the account back: answers the recovery key
    /// to grant full access to and marks the lock settling.
    pub fn abort(&mut self, caller: &String) -> (r: Result<String, ResaleLockerError>)
        ensures
            r is Err <==> settle_error(*old(self), caller@) is Some,
            r matches Err(e) ==> Some(e) == settle_error(*old(self), caller@) && *final(self)
                == *old(self),
            r matches Ok(key) ==> key == old(self).recovery_key && *final(self) == (ResaleLocker {
                state: LockState::Settling,
                ..*old(self)
            }),
    {
        self.assert_registry(caller)?;
        self.assert_active()?;
        self.state = LockState::Settling;
        Ok(self.recovery_key.clone())
    }

    /// The outcome of the key grant: settled for good, or open again.
    pub fn on_settle_resolved(&mut self, succeeded: bool)
        ensures
            *final(self) == (ResaleLocker {
                state: spec_resolved(old(self).state, succeeded),
                ..*old(self)
            }),
    {
        if succeeded {
            self.state = LockState::Settled;
        } else {
            self.state = LockState::Active;
        }
    }

    pub fn get_config(&self, account: String) -> (c: ResaleLockerConfig)
        ensures
            c.account == account,
            c.registry == self.registry,
            c.recovery_key == self.recovery_key,
            c.state == self.state,
            c.version == RESALE_LOCKER_VERSION,
    {
        ResaleLockerConfig {
            account,
            registry: self.registry.clone(),
            recovery_key: self.recovery_key.clone(),
            state: self.state,
            version: RESALE_LOCKER_VERSION,
        }
    }
}

} // verus!
