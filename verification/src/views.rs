use vstd::prelude::*;

use crate::account::{spec_sub_account_key, sub_account_key};
use crate::error::ContractError;
use crate::fees::{base_rent, calculate_rent, spec_base_rent, spec_calculate_rent};
use crate::registry::{sat_add, sat_add_u128, TlaRegistry};
use crate::types::{
    byte_len, clone_opt_string, FeeConfig, RegistryStats, RentPriceView, SubAccountEntry,
    SubAccountView, TlaEntry, TlaView,
};

verus! {

/// `v` is the public view of TLA `tla_id` with entry `e` at time `now`.
pub open spec fn describes_tla(v: TlaView, tla_id: Seq<char>, e: TlaEntry, config: FeeConfig, now: u64) -> bool {
    &&& v.tla_id@ == tla_id
    &&& v.tla_type == e.tla_type
    &&& v.lifecycle == e.spec_lifecycle(now)
    &&& v.licensee == e.licensee
    &&& v.premium_category == e.premium_category
    &&& v.activated_at == e.activated_at as u128
    &&& v.expires_at == e.expires_at as u128
    &&& v.annual_rent == spec_base_rent(byte_len(tla_id) as u8, config)
}

/// `v` is the public view of sub-account `key` (`name` under `tla_id`).
pub open spec fn describes_sub(
    v: SubAccountView,
    key: Seq<char>,
    e: SubAccountEntry,
    tla: TlaEntry,
    tla_id: Seq<char>,
    name: Seq<char>,
    config: FeeConfig,
    now: u64,
) -> bool {
    &&& v.full_name@ == key
    &&& v.owner@ == e.owner@
    &&& v.tla_id@ == e.tla_id@
    &&& v.main_wallet@ == e.main_wallet@
    &&& v.lifecycle == e.spec_lifecycle(now)
    &&& v.rented_at == e.rented_at as u128
    &&& v.expires_at == e.expires_at as u128
    &&& v.annual_rent == spec_calculate_rent(tla, tla_id, name, config)
}

pub fn to_tla_view(tla_id: &String, entry: &TlaEntry, config: &FeeConfig, now: u64) -> (v: TlaView)
    ensures
        describes_tla(v, tla_id@, *entry, *config, now),
{
    let tla_len = tla_id.as_str().len() as u8;
    let rent = base_rent(tla_len, config);
    TlaView {
        tla_id: tla_id.clone(),
        tla_type: entry.tla_type,
        lifecycle: entry.lifecycle(now),
        licensee: clone_opt_string(&entry.licensee),
        premium_category: entry.premium_category,
        activated_at: entry.activated_at as u128,
        expires_at: entry.expires_at as u128,
        annual_rent: rent,
    }
}

pub fn to_sub_view(
    key: &String,
    entry: &SubAccountEntry,
    tla: &TlaEntry,
    tla_id: &String,
    name: &String,
    config: &FeeConfig,
    now: u64,
) -> (v: SubAccountView)
    ensures
        describes_sub(v, key@, *entry, *tla, tla_id@, name@, *config, now),
{
    let rent = calculate_rent(tla, tla_id, name, config);
    SubAccountView {
        full_name: key.clone(),
        owner: entry.owner.clone(),
        tla_id: entry.tla_id.clone(),
        main_wallet: entry.main_wallet.clone(),
        lifecycle: entry.lifecycle(now),
        rented_at: entry.rented_at as u128,
        expires_at: entry.expires_at as u128,
        annual_rent: rent,
    }
}

impl TlaRegistry {
    pub fn get_tla(&self, tla_id: &String, now: u64) -> (r: Option<TlaView>)
        requires
            self.wf(),
        ensures
            r is Some <==> self@.tlas.contains_key(tla_id@),
            r matches Some(v) ==> describes_tla(v, tla_id@, self@.tlas.map[tla_id@], self.fee_config, now),
    {
        match self.tlas.get(tla_id) {
            Some(e) => Some(to_tla_view(tla_id, e, &self.fee_config, now)),
            None => None,
        }
    }

    /// The view of `name.tla_id`; a rented sub-account's TLA must be known.
    pub fn get_sub_account(&self, tla_id: &String, name: &String, now: u64) -> (r: Option<SubAccountView>)
        requires
            self.wf(),
            self@.sub_accounts.contains_key(spec_sub_account_key(tla_id@, name@)) ==> self@.tlas.contains_key(
                tla_id@,
            ),
        ensures
            r is Some <==> self@.sub_accounts.contains_key(spec_sub_account_key(tla_id@, name@)),
            r matches Some(v) ==> describes_sub(
                v,
                spec_sub_account_key(tla_id@, name@),
                self@.sub_accounts.map[spec_sub_account_key(tla_id@, name@)],
                self@.tlas.map[tla_id@],
                tla_id@,
                name@,
                self.fee_config,
                now,
            ),
    {
        let key = sub_account_key(tla_id, name);
        let sub = match self.sub_accounts.get(&key) {
            Some(s) => s,
            None => return None,
        };
        let tla = match self.tlas.get(tla_id) {
            Some(t) => t,
            None => return None,
        };
        Some(to_sub_view(&key, sub, tla, tla_id, name, &self.fee_config, now))
    }

    pub fn get_rent_price(&self, tla_id: &String, name: &String) -> (r: Result<RentPriceView, ContractError>)
        requires
            self.wf(),
        ensures
            r is Ok <==> self@.tlas.contains_key(tla_id@),
            r matches Err(e) ==> e == ContractError::TlaNotFound,
            r matches Ok(v) ==> {
                let rent = spec_calculate_rent(self@.tlas.map[tla_id@], tla_id@, name@, self.fee_config);
                &&& v.rent_yocto == rent
                &&& v.creation_deposit_yocto == self.fee_config.account_creation_deposit
                &&& v.total_yocto == sat_add(rent, self.fee_config.account_creation_deposit)
            },
    {
        let tla = match self.tlas.get(tla_id) {
            Some(t) => t,
            None => return Err(ContractError::TlaNotFound),
        };
        let rent = calculate_rent(tla, tla_id, name, &self.fee_config);
        let deposit = self.fee_config.account_creation_deposit;
        Ok(
            RentPriceView {
                rent_yocto: rent,
                creation_deposit_yocto: deposit,
                total_yocto: sat_add_u128(rent, deposit),
            },
        )
    }

    pub fn is_name_available(&self, tla_id: &String, name: &String) -> (r: bool)
        requires
            self.wf(),
        ensures
            r == !self@.sub_accounts.contains_key(spec_sub_account_key(tla_id@, name@)),
    {
        let key = sub_account_key(tla_id, name);
        !self.sub_accounts.contains_key(&key)
    }

    /// The TLAs in registration order, skipping `from_index` and taking at
    /// most `limit`.
    pub fn list_tlas(&self, from_index: u64, limit: u64, now: u64) -> (r: Vec<TlaView>)
        requires
            self.wf(),
        ensures
            ({
                let n = self@.tlas.keys.len() as int;
                let start = if from_index < n {
                    from_index as int
                } else {
                    n
                };
                let count = if limit < n - start {
                    limit as int
                } else {
                    n - start
                };
                &&& r@.len() == count
                &&& forall|i: int|
                    0 <= i < count ==> describes_tla(
                        #[trigger] r@[i],
                        self@.tlas.keys[start + i],
                        self@.tlas.map[self@.tlas.keys[start + i]],
                        self.fee_config,
                        now,
                    )
            }),
    {
        let n = self.tlas.len();
        let start: usize = if (from_index as u128) < (n as u128) {
            from_index as usize
        } else {
            n
        };
        let count: usize = if (limit as u128) < ((n - start) as u128) {
            limit as usize
        } else {
            n - start
        };
        let mut out: Vec<TlaView> = Vec::new();
        let mut i: usize = 0;
        while i < count
            invariant
                self.wf(),
                n == self@.tlas.keys.len(),
                start + count <= n,
                i <= count,
                out@.len() == i,
                forall|j: int|
                    0 <= j < i ==> describes_tla(
                        #[trigger] out@[j],
                        self@.tlas.keys[start + j],
                        self@.tlas.map[self@.tlas.keys[start + j]],
                        self.fee_config,
                        now,
                    ),
            decreases count - i,
        {
            let id = self.tlas.key_at(start + i);
            let entry = self.tlas.value_at(start + i);
            out.push(to_tla_view(id, entry, &self.fee_config, now));
            i = i + 1;
        }
        out
    }

    pub fn get_fee_config(&self) -> (r: FeeConfig)
        ensures
            r == self.fee_config,
    {
        self.fee_config
    }

    pub fn get_stats(&self) -> (r: RegistryStats)
        requires
            self.wf(),
        ensures
            r.tla_count == self@.tlas.keys.len(),
            r.sub_account_count == self.sub_account_count,
            r.total_revenue_yocto == self.total_revenue,
            r.total_pending_refunds_yocto == self.total_pending_refunds,
    {
        RegistryStats {
            tla_count: self.tlas.len() as u64,
            sub_account_count: self.sub_account_count,
            total_revenue_yocto: self.total_revenue,
            total_pending_refunds_yocto: self.total_pending_refunds,
        }
    }

    pub fn get_admins(&self) -> (r: Vec<String>)
        requires
            self.wf(),
        ensures
            r@.map_values(|s: String| s@) == self@.admins.keys,
    {
        self.admins.keys_vec()
    }

    pub fn get_ft_allowlist(&self) -> (r: Vec<String>)
        requires
            self.wf(),
        ensures
            r@.map_values(|s: String| s@) == self@.ft_allowlist.keys,
    {
        self.ft_allowlist.keys_vec()
    }

    pub fn get_nft_allowlist(&self) -> (r: Vec<String>)
        requires
            self.wf(),
        ensures
            r@.map_values(|s: String| s@) == self@.nft_allowlist.keys,
    {
        self.nft_allowlist.keys_vec()
    }
}

} // verus!
