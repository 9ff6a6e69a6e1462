use vstd::prelude::*;

verus! {

/// Why a registry call was refused.
#[derive(Clone, Copy, Debug, PartialEq, Eq, Structural)]
pub enum ContractError {
    Unauthorized,
    Paused,
    RequiresOneYocto,
    TlaAlreadyRegistered,
    BusinessTlaRequiresLicensee,
    TlaNotFound,
    TlaNotSuspended,
    BusinessTlaMissingLicensee,
    CannotRemoveLastAdmin,
    AllRentTiersZero,
    CreationDepositZero,
    InvalidCommissionBps,
    WithdrawalAmountZero,
    InsufficientRevenue,
    InsufficientContractBalance,
    AllowlistFull,
    TlaNotInRegisteredState,
    WrongActivationEndpoint,
    SubAccountNotFound,
    InvalidSubAccountId,
    InvalidPrice,
    OnlyOwner,
    NotListed,
    NoAcceptedOffer,
    SaleInProgress,
    SubAccountIsMother,
    RetractionPending,
    SubAccountNotSellable,
    PriceNotMet,
}

/// Why a sub-account locker call was refused.
#[derive(Clone, Copy, Debug, PartialEq, Eq, Structural)]
pub enum LockerError {
    Unauthorized,
    NotHeld,
}

/// Why a resale locker call was refused.
#[derive(Clone, Copy, Debug, PartialEq, Eq, Structural)]
pub enum ResaleLockerError {
    Unauthorized,
    SettlementInProgress,
    AlreadySettled,
}

/// Why a manager call was refused.
#[derive(Clone, Copy, Debug, PartialEq, Eq, Structural)]
pub enum ManagerError {
    Unauthorized,
    InvalidSubAccountName,
}

/// The reported code of a `ContractError`.
pub open spec fn spec_contract_error_code(e: ContractError) -> Seq<char> {
    match e {
        ContractError::Unauthorized => "unauthorized"@,
        ContractError::Paused => "paused"@,
        ContractError::RequiresOneYocto => "requires_one_yocto"@,
        ContractError::TlaAlreadyRegistered => "tla_already_registered"@,
        ContractError::BusinessTlaRequiresLicensee => "business_tla_requires_licensee"@,
        ContractError::TlaNotFound => "tla_not_found"@,
        ContractError::TlaNotSuspended => "tla_not_suspended"@,
        ContractError::BusinessTlaMissingLicensee => "business_tla_missing_licensee"@,
        ContractError::CannotRemoveLastAdmin => "cannot_remove_last_admin"@,
        ContractError::AllRentTiersZero => "all_rent_tiers_zero"@,
        ContractError::CreationDepositZero => "creation_deposit_zero"@,
        ContractError::InvalidCommissionBps => "invalid_commission_bps"@,
        ContractError::WithdrawalAmountZero => "withdrawal_amount_zero"@,
        ContractError::InsufficientRevenue => "insufficient_revenue"@,
        ContractError::InsufficientContractBalance => "insufficient_contract_balance"@,
        ContractError::AllowlistFull => "allowlist_full"@,
        ContractError::TlaNotInRegisteredState => "tla_not_in_registered_state"@,
        ContractError::WrongActivationEndpoint => "wrong_activation_endpoint"@,
        ContractError::SubAccountNotFound => "sub_account_not_found"@,
        ContractError::InvalidSubAccountId => "invalid_sub_account_id"@,
        ContractError::InvalidPrice => "invalid_price"@,
        ContractError::OnlyOwner => "only_owner"@,
        ContractError::NotListed => "not_listed"@,
        ContractError::NoAcceptedOffer => "no_accepted_offer"@,
        ContractError::SaleInProgress => "sale_in_progress"@,
        ContractError::SubAccountIsMother => "sub_account_is_mother"@,
        ContractError::RetractionPending => "retraction_pending"@,
        ContractError::SubAccountNotSellable => "sub_account_not_sellable"@,
        ContractError::PriceNotMet => "price_not_met"@,
    }
}

impl ContractError {
    /// The snake-case code under which the error is reported.
    pub fn code(&self) -> (c: &'static str)
        ensures
            c@ == spec_contract_error_code(*self),
    {
        match self {
            ContractError::Unauthorized => "unauthorized",
            ContractError::Paused => "paused",
            ContractError::RequiresOneYocto => "requires_one_yocto",
            ContractError::TlaAlreadyRegistered => "tla_already_registered",
            ContractError::BusinessTlaRequiresLicensee => "business_tla_requires_licensee",
            ContractError::TlaNotFound => "tla_not_found",
            ContractError::TlaNotSuspended => "tla_not_suspended",
            ContractError::BusinessTlaMissingLicensee => "business_tla_missing_licensee",
            ContractError::CannotRemoveLastAdmin => "cannot_remove_last_admin",
            ContractError::AllRentTiersZero => "all_rent_tiers_zero",
            ContractError::CreationDepositZero => "creation_deposit_zero",
            ContractError::InvalidCommissionBps => "invalid_commission_bps",
            ContractError::WithdrawalAmountZero => "withdrawal_amount_zero",
            ContractError::InsufficientRevenue => "insufficient_revenue",
            ContractError::InsufficientContractBalance => "insufficient_contract_balance",
            ContractError::AllowlistFull => "allowlist_full",
            ContractError::TlaNotInRegisteredState => "tla_not_in_registered_state",
            ContractError::WrongActivationEndpoint => "wrong_activation_endpoint",
            ContractError::SubAccountNotFound => "sub_account_not_found",
            ContractError::InvalidSubAccountId => "invalid_sub_account_id",
            ContractError::InvalidPrice => "invalid_price",
            ContractError::OnlyOwner => "only_owner",
            ContractError::NotListed => "not_listed",
            ContractError::NoAcceptedOffer => "no_accepted_offer",
            ContractError::SaleInProgress => "sale_in_progress",
            ContractError::SubAccountIsMother => "sub_account_is_mother",
            ContractError::RetractionPending => "retraction_pending",
            ContractError::SubAccountNotSellable => "sub_account_not_sellable",
            ContractError::PriceNotMet => "price_not_met",
        }
    }
}

/// The reported code of a `LockerError`.
pub open spec fn spec_locker_error_code(e: LockerError) -> Seq<char> {
    match e {
        LockerError::Unauthorized => "unauthorized"@,
        LockerError::NotHeld => "not_held"@,
    }
}

impl LockerError {
    /// The snake-case code under which the error is reported.
    pub fn code(&self) -> (c: &'static str)
        ensures
            c@ == spec_locker_error_code(*self),
    {
        match self {
            LockerError::Unauthorized => "unauthorized",
            LockerError::NotHeld => "not_held",
        }
    }
}

/// The reported code of a `ResaleLockerError`.
pub open spec fn spec_resale_locker_error_code(e: ResaleLockerError) -> Seq<char> {
    match e {
        ResaleLockerError::Unauthorized => "unauthorized"@,
        ResaleLockerError::SettlementInProgress => "settlement_in_progress"@,
        ResaleLockerError::AlreadySettled => "already_settled"@,
    }
}

impl ResaleLockerError {
    /// The snake-case code under which the error is reported.
    pub fn code(&self) -> (c: &'static str)
        ensures
            c@ == spec_resale_locker_error_code(*self),
    {
        match self {
            ResaleLockerError::Unauthorized => "unauthorized",
            ResaleLockerError::SettlementInProgress => "settlement_in_progress",
            ResaleLockerError::AlreadySettled => "already_settled",
        }
    }
}

/// The reported code of a `ManagerError`.
pub open spec fn spec_manager_error_code(e: ManagerError) -> Seq<char> {
    match e {
        ManagerError::Unauthorized => "unauthorized"@,
        ManagerError::InvalidSubAccountName => "invalid_sub_account_name"@,
    }
}

impl ManagerError {
    /// The snake-case code under which the error is reported.
    pub fn code(&self) -> (c: &'static str)
        ensures
            c@ == spec_manager_error_code(*self),
    {
        match self {
            ManagerError::Unauthorized => "unauthorized",
            ManagerError::InvalidSubAccountName => "invalid_sub_account_name",
        }
    }
}

} // verus!
