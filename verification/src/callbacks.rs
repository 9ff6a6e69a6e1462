use vstd::prelude::*;
use vstd::string::*;

use crate::account::{spec_sub_account_key, sub_account_key};
use crate::events::{Event, RefundFailedEvent, SubAccountRentedEvent};
use crate::registry::{count_of, sat_add, sat_add_u128, sat_sub, sat_sub_u128, RegistryView, TlaRegistry};
use crate::types::TlaType;

verus! {

/// The state after a failed creation of `key` under `tla_id` has been
/// rolled back: the optimistic entry is gone, a Business TLA's count is
/// decremented, and the payer's whole attachment is queued back.
pub open spec fn creation_rolled_back(
    st: RegistryView,
    tla_id: Seq<char>,
    key: Seq<char>,
    payer: Seq<char>,
    attached: u128,
) -> RegistryView {
    let s1 = RegistryView { sub_accounts: st.sub_accounts.remove(key), ..st };
    let s2 = if st.tlas.contains_key(tla_id) && st.tlas.map[tla_id].tla_type == TlaType::Business {
        RegistryView {
            business_sub_count: st.business_sub_count.insert(
                tla_id,
                (if count_of(st.business_sub_count, tla_id) == 0 {
                    0u32
                } else {
                    (count_of(st.business_sub_count, tla_id) - 1) as u32
                }),
            ),
            ..s1
        }
    } else {
        s1
    };
    s2.credit(payer, attached)
}

/// The state after a successful creation: one more sub-account, the rent
/// booked as revenue, and anything attached beyond rent plus creation
/// deposit queued back to the payer.
pub open spec fn creation_settled(st: RegistryView, payer: Seq<char>, rent: u128, attached: u128) -> RegistryView {
    let s1 = RegistryView {
        sub_account_count: if st.sub_account_count == u64::MAX {
            u64::MAX
        } else {
            (st.sub_account_count + 1) as u64
        },
        total_revenue: sat_add(st.total_revenue, rent),
        ..st
    };
    let excess = sat_sub(attached, sat_add(rent, st.fee_config.account_creation_deposit));
    if excess > 0 {
        s1.credit(payer, excess)
    } else {
        s1
    }
}

impl TlaRegistry {
    /// Lowers a Business TLA's sub-account count by one (never below zero).
    pub fn business_count_decrement(&mut self, tla_id: &String)
        requires
            old(self).wf(),
        ensures
            final(self).wf(),
            final(self)@ == (RegistryView {
                business_sub_count: old(self)@.business_sub_count.insert(
                    tla_id@,
                    (if count_of(old(self)@.business_sub_count, tla_id@) == 0 {
                        0u32
                    } else {
                        (count_of(old(self)@.business_sub_count, tla_id@) - 1) as u32
                    }),
                ),
                ..old(self)@
            }),
    {
        let current = match self.business_sub_count.get(tla_id) {
            Some(c) => *c,
            None => 0,
        };
        let next = if current == 0 {
            0
        } else {
            current - 1
        };
        self.business_sub_count.insert(tla_id.clone(), next);
    }

    /// Settles a rental after the manager answered the account creation.
    /// A success needs the optimistic entry to be present.
    pub fn on_sub_account_created(
        &mut self,
        tla_id: String,
        name: String,
        payer: String,
        rent_yocto: u128,
        attached_yocto: u128,
        created: bool,
    ) -> (r: Event)
        requires
            old(self).wf(),
            created ==> old(self)@.sub_accounts.contains_key(spec_sub_account_key(tla_id@, name@)),
        ensures
            final(self).wf(),
            created ==> final(self)@ == creation_settled(old(self)@, payer@, rent_yocto, attached_yocto)
                && (r matches Event::SubAccountRented(e) && e.full_name@ == spec_sub_account_key(
                tla_id@,
                name@,
            ) && e.tla_id@ == tla_id@ && e.owner@ == payer@ && e.rent_yocto == rent_yocto
                && e.expires_at == old(self)@.sub_accounts.map[spec_sub_account_key(
                tla_id@,
                name@,
            )].expires_at),
            created && old(self).total_revenue + rent_yocto <= u128::MAX ==> final(self).total_revenue
                == old(self).total_revenue + rent_yocto,
            created ==> final(self).total_revenue >= old(self).total_revenue
                && final(self).total_revenue >= rent_yocto,
            created && old(self).sub_account_count < u64::MAX ==> final(self).sub_account_count
                == old(self).sub_account_count + 1,
            created ==> final(self)@.sub_accounts == old(self)@.sub_accounts,
            !created ==> final(self).total_revenue == old(self).total_revenue
                && !final(self)@.sub_accounts.contains_key(spec_sub_account_key(tla_id@, name@)),
            !created ==> final(self)@.sub_accounts == old(self)@.sub_accounts.remove(spec_sub_account_key(tla_id@, name@)),
            !created ==> final(self)@ == creation_rolled_back(
                old(self)@,
                tla_id@,
                spec_sub_account_key(tla_id@, name@),
                payer@,
                attached_yocto,
            ) && (r matches Event::RefundPending(e) && e.account@ == payer@ && e.amount_yocto
                == attached_yocto && e.reason@ == "sub-account creation failed"@),
    {
        let key = sub_account_key(&tla_id, &name);
        if created {
            self.sub_account_count = self.sub_account_count.saturating_add(1);
            self.total_revenue = sat_add_u128(self.total_revenue, rent_yocto);
            let charged = sat_add_u128(rent_yocto, self.fee_config.account_creation_deposit);
            let excess = sat_sub_u128(attached_yocto, charged);
            if excess > 0 {
                self.add_pending_refund(&payer, excess);
            }
            let expires_at = match self.sub_accounts.get(&key) {
                Some(s) => s.expires_at,
                None => 0,
            };
            Event::SubAccountRented(
                SubAccountRentedEvent {
                    full_name: key,
                    tla_id,
                    owner: payer,
                    rent_yocto,
                    expires_at,
                },
            )
        } else {
            self.sub_accounts.remove(&key);
            let is_business = match self.tlas.get(&tla_id) {
                Some(t) => t.tla_type == TlaType::Business,
                None => false,
            };
            if is_business {
                self.business_count_decrement(&tla_id);
            }
            self.add_pending_refund(&payer, attached_yocto);
            Event::RefundPending(
                RefundFailedEvent {
                    account: payer,
                    amount_yocto: attached_yocto,
                    reason: "sub-account creation failed".to_owned(),
                },
            )
        }
    }
}

} // verus!
