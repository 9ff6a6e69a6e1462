use vstd::prelude::*;

use crate::account::{account_id_is_valid, is_valid_account_id, spec_sub_account_key, sub_account_key};
use crate::error::ManagerError;

verus! {

/// The version the manager reports in its config.
pub const MANAGER_VERSION: u8 = 3;

/// The contract at a TLA account: creates its sub-accounts on the registry's
/// behalf.
pub struct TlaManager {
    pub registry: String,
}

pub struct ManagerConfig {
    pub registry: String,
    pub tla: String,
    pub version: u8,
}

/// A sub-account to create: the account id, the locker's init arguments
/// (the registry and the owner key it stores), and the deposit to fund it.
pub struct SubAccountCreation {
    pub sub_account: String,
    pub registry: String,
    pub owner_key: String,
    pub deposit: u128,
}

/// The error `create_sub_account` answers, if any.
pub open spec fn create_error(m: TlaManager, caller: Seq<char>, tla: Seq<char>, name: Seq<char>) -> Option<
    ManagerError,
> {
    if caller != m.registry@ {
        Some(ManagerError::Unauthorized)
    } else if !is_valid_account_id(spec_sub_account_key(tla, name)) {
        Some(ManagerError::InvalidSubAccountName)
    } else {
        None
    }
}

impl TlaManager {
    pub fn new(registry: String) -> (r: Self)
        ensures
            r.registry == registry,
    {
        TlaManager { registry }
    }

    pub fn assert_registry(&self, caller: &String) -> (r: Result<(), ManagerError>)
        ensures
            r is Ok <==> caller@ == self.registry@,
            r matches Err(e) ==> e == ManagerError::Unauthorized,
    {
        if *caller != self.registry {
            return Err(ManagerError::Unauthorized);
        }
        Ok(())
    }

    /// Plans the creation of `name.tla`: the new account gets the locker,
    /// initialised with the registry and `owner_key`, and the whole attached
    /// deposit; no key is added to it.
    pub fn create_sub_account(
        &self,
        caller: &String,
        tla: &String,
        name: String,
        owner_key: String,
        attached_deposit: u128,
    ) -> (r: Result<SubAccountCreation, ManagerError>)
        ensures
            r is Err <==> create_error(*self, caller@, tla@, name@) is Some,
            r matches Err(e) ==> Some(e) == create_error(*self, caller@, tla@, name@),
            r matches Ok(c) ==> c.sub_account@ == spec_sub_account_key(tla@, name@) && c.registry
                == self.registry && c.owner_key == owner_key && c.deposit == attached_deposit,
    {
        self.assert_registry(caller)?;
        let sub_account = sub_account_key(tla, &name);
        if !account_id_is_valid(sub_account.as_str()) {
            return Err(ManagerError::InvalidSubAccountName);
        }
        Ok(
            SubAccountCreation {
                sub_account,
                registry: self.registry.clone(),
                owner_key,
                deposit: attached_deposit,
            },
        )
    }

    pub fn get_config(&self, tla: String) -> (c: ManagerConfig)
        ensures
            c.registry == self.registry,
            c.tla == tla,
            c.version == MANAGER_VERSION,
    {
        ManagerConfig { registry: self.registry.clone(), tla, version: MANAGER_VERSION }
    }
}

} // verus!
