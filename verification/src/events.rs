use vstd::prelude::*;
use vstd::string::*;

verus! {

/// A TLA entered the registry.
#[derive(Debug)]
pub struct TlaRegisteredEvent {
    pub tla_id: String,
    pub tla_type: String,
    pub premium_category: String,
    pub licensee: Option<String>,
}

/// A TLA became active.
#[derive(Debug)]
pub struct TlaActivatedEvent {
    pub tla_id: String,
    pub expires_at: u64,
    pub paid_yocto: u128,
}

/// A sub-account rental settled.
#[derive(Debug)]
pub struct SubAccountRentedEvent {
    pub full_name: String,
    pub tla_id: String,
    pub owner: String,
    pub rent_yocto: u128,
    pub expires_at: u64,
}

/// A TLA or sub-account term was extended.
#[derive(Debug)]
pub struct RenewalEvent {
    pub entity: String,
    pub new_expires_at: u64,
    pub paid_yocto: u128,
}

/// Revenue was queued for an admin-chosen recipient.
#[derive(Debug)]
pub struct WithdrawalEvent {
    pub amount_yocto: u128,
    pub recipient: String,
}

/// An admin-only change, naming who made it.
#[derive(Debug)]
pub struct PauseEvent {
    pub by: String,
}

/// The admin set changed.
#[derive(Debug)]
pub struct AdminChangeEvent {
    pub action: String,
    pub account: String,
    pub by: String,
}

/// A TLA was suspended or unsuspended.
#[derive(Debug)]
pub struct TlaSuspendedEvent {
    pub tla_id: String,
    pub action: String,
    pub by: String,
}

/// An amount was queued back to a payer.
#[derive(Debug)]
pub struct RefundFailedEvent {
    pub account: String,
    pub amount_yocto: u128,
    pub reason: String,
}

/// A sub-account was reclaimed.
#[derive(Debug)]
pub struct SubAccountReclaimedEvent {
    pub full_name: String,
    pub tla_id: String,
    pub swept_to: String,
}

/// A token allowlist changed.
#[derive(Debug)]
pub struct AllowlistEvent {
    pub kind: String,
    pub token: String,
    pub by: String,
}

/// A sub-account's main wallet changed.
#[derive(Debug)]
pub struct MainWalletEvent {
    pub full_name: String,
    pub new_wallet: String,
}

/// A reclaim could not finalize.
#[derive(Debug)]
pub struct FinalizeBlockedEvent {
    pub full_name: String,
    pub token: String,
    pub reason: String,
}

/// A user's mother account was set.
#[derive(Debug)]
pub struct MotherEvent {
    pub user: String,
    pub mother: String,
    pub source: String,
}

/// A user's mother account was cleared.
#[derive(Debug)]
pub struct MotherClearedEvent {
    pub user: String,
    pub previous_mother: String,
    pub by: String,
}

/// A retraction was scheduled.
#[derive(Debug)]
pub struct RetractionScheduledEvent {
    pub full_name: String,
    pub retraction_at: u64,
    pub by: String,
}

/// A retraction was canceled.
#[derive(Debug)]
pub struct RetractionCanceledEvent {
    pub full_name: String,
    pub by: String,
}

/// A business TLA's sub-account cap changed.
#[derive(Debug)]
pub struct BusinessSubCapEvent {
    pub tla_id: String,
    pub cap: u32,
    pub by: String,
}

/// An admin asked a resale locker to unlock.
#[derive(Debug)]
pub struct ResaleUnlockRequestedEvent {
    pub account: String,
    pub by: String,
}

/// An admin asked a resale locker to abort.
#[derive(Debug)]
pub struct ResaleAbortRequestedEvent {
    pub account: String,
    pub by: String,
}

/// An owner listed a held sub-account.
#[derive(Debug)]
pub struct SubAccountListedEvent {
    pub full_name: String,
    pub price_yocto: u128,
    pub seller: String,
}

/// An owner withdrew a listing.
#[derive(Debug)]
pub struct SubAccountUnlistedEvent {
    pub full_name: String,
    pub by: String,
}

/// An owner bound a sale to one buyer.
#[derive(Debug)]
pub struct OfferAcceptedEvent {
    pub full_name: String,
    pub buyer: String,
    pub price_yocto: u128,
    pub seller: String,
}

/// An owner withdrew an accepted offer.
#[derive(Debug)]
pub struct OfferRevokedEvent {
    pub full_name: String,
    pub by: String,
}

/// A sale's key transfer failed and the buyer was refunded.
#[derive(Debug)]
pub struct SaleFailedEvent {
    pub full_name: String,
    pub buyer: String,
}

/// A sale was refused because allowlisted balances were not confirmed empty.
#[derive(Debug)]
pub struct SaleBlockedEvent {
    pub full_name: String,
    pub buyer: String,
    pub reason: String,
}

/// A sale settled.
#[derive(Debug)]
pub struct SubAccountSoldEvent {
    pub full_name: String,
    pub tla_id: String,
    pub seller: String,
    pub buyer: String,
    pub price_yocto: u128,
    pub commission_yocto: u128,
    pub seller_proceeds_yocto: u128,
}

/// An event the registry emits, under its NEP-297 event name.
#[derive(Debug)]
pub enum Event {
    TlaRegistered(TlaRegisteredEvent),
    TlaSuspended(TlaSuspendedEvent),
    TlaUnsuspended(TlaSuspendedEvent),
    AdminAdded(AdminChangeEvent),
    AdminRemoved(AdminChangeEvent),
    FeeConfigUpdated(PauseEvent),
    WithdrawalQueued(WithdrawalEvent),
    FtAllowlistAdded(AllowlistEvent),
    FtAllowlistRemoved(AllowlistEvent),
    NftAllowlistAdded(AllowlistEvent),
    NftAllowlistRemoved(AllowlistEvent),
    TlaActivated(TlaActivatedEvent),
    ContractPaused(PauseEvent),
    ContractUnpaused(PauseEvent),
    SubAccountRented(SubAccountRentedEvent),
    RefundPending(RefundFailedEvent),
    SubAccountListed(SubAccountListedEvent),
    SubAccountUnlisted(SubAccountUnlistedEvent),
    OfferAccepted(OfferAcceptedEvent),
    OfferRevoked(OfferRevokedEvent),
    SaleFailed(SaleFailedEvent),
    SaleBlocked(SaleBlockedEvent),
    SubAccountSold(SubAccountSoldEvent),
    ResaleUnlockRequested(ResaleUnlockRequestedEvent),
    ResaleAbortRequested(ResaleAbortRequestedEvent),
}

/// The NEP-297 name under which an event is logged.
pub open spec fn spec_event_name(e: Event) -> Seq<char> {
    match e {
        Event::TlaRegistered(_) => "tla_registered"@,
        Event::TlaSuspended(_) => "tla_suspended"@,
        Event::TlaUnsuspended(_) => "tla_unsuspended"@,
        Event::AdminAdded(_) => "admin_added"@,
        Event::AdminRemoved(_) => "admin_removed"@,
        Event::FeeConfigUpdated(_) => "fee_config_updated"@,
        Event::WithdrawalQueued(_) => "withdrawal_queued"@,
        Event::FtAllowlistAdded(_) => "ft_allowlist_added"@,
        Event::FtAllowlistRemoved(_) => "ft_allowlist_removed"@,
        Event::NftAllowlistAdded(_) => "nft_allowlist_added"@,
        Event::NftAllowlistRemoved(_) => "nft_allowlist_removed"@,
        Event::TlaActivated(_) => "tla_activated"@,
        Event::ContractPaused(_) => "paused"@,
        Event::ContractUnpaused(_) => "unpaused"@,
        Event::SubAccountRented(_) => "sub_account_rented"@,
        Event::RefundPending(_) => "refund_pending"@,
        Event::SubAccountListed(_) => "sub_account_listed"@,
        Event::SubAccountUnlisted(_) => "sub_account_unlisted"@,
        Event::OfferAccepted(_) => "offer_accepted"@,
        Event::OfferRevoked(_) => "offer_revoked"@,
        Event::SaleFailed(_) => "sub_account_sale_failed"@,
        Event::SaleBlocked(_) => "sub_account_sale_blocked"@,
        Event::SubAccountSold(_) => "sub_account_sold"@,
        Event::ResaleUnlockRequested(_) => "resale_unlock_requested"@,
        Event::ResaleAbortRequested(_) => "resale_abort_requested"@,
    }
}

impl Event {
    pub fn name(&self) -> (n: &'static str)
        ensures
            n@ == spec_event_name(*self),
    {
        match self {
            Event::TlaRegistered(_) => "tla_registered",
            Event::TlaSuspended(_) => "tla_suspended",
            Event::TlaUnsuspended(_) => "tla_unsuspended",
            Event::AdminAdded(_) => "admin_added",
            Event::AdminRemoved(_) => "admin_removed",
            Event::FeeConfigUpdated(_) => "fee_config_updated",
            Event::WithdrawalQueued(_) => "withdrawal_queued",
            Event::FtAllowlistAdded(_) => "ft_allowlist_added",
            Event::FtAllowlistRemoved(_) => "ft_allowlist_removed",
            Event::NftAllowlistAdded(_) => "nft_allowlist_added",
            Event::NftAllowlistRemoved(_) => "nft_allowlist_removed",
            Event::TlaActivated(_) => "tla_activated",
            Event::ContractPaused(_) => "paused",
            Event::ContractUnpaused(_) => "unpaused",
            Event::SubAccountRented(_) => "sub_account_rented",
            Event::RefundPending(_) => "refund_pending",
            Event::SubAccountListed(_) => "sub_account_listed",
            Event::SubAccountUnlisted(_) => "sub_account_unlisted",
            Event::OfferAccepted(_) => "offer_accepted",
            Event::OfferRevoked(_) => "offer_revoked",
            Event::SaleFailed(_) => "sub_account_sale_failed",
            Event::SaleBlocked(_) => "sub_account_sale_blocked",
            Event::SubAccountSold(_) => "sub_account_sold",
            Event::ResaleUnlockRequested(_) => "resale_unlock_requested",
            Event::ResaleAbortRequested(_) => "resale_abort_requested",
        }
    }
}

/// The NEP-297 log line for event `name` carrying the JSON object `data`.
pub open spec fn spec_event_log_line(name: Seq<char>, data: Seq<char>) -> Seq<char> {
    "EVENT_JSON:{\"standard\":\"hos-tla\",\"version\":\"1.0.0\",\"event\":\""@ + name
        + "\",\"data\":"@ + data + "}"@
}

pub fn event_log_line(name: &str, data: &str) -> (line: String)
    ensures
        line@ == spec_event_log_line(name@, data@),
{
    let mut line = "EVENT_JSON:{\"standard\":\"hos-tla\",\"version\":\"1.0.0\",\"event\":\"".to_owned();
    line.append(name);
    line.append("\",\"data\":");
    line.append(data);
    line.append("}");
    line
}

} // verus!
