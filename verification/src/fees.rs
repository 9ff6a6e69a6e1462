use vstd::prelude::*;

use crate::types::{byte_len, spec_multiplier, FeeConfig, PremiumCategory, TlaEntry, TlaType, ONE_NEAR};

verus! {

/// The annual rent tier for a name of `total_len` bytes.
pub open spec fn spec_base_rent(total_len: u8, config: FeeConfig) -> u128 {
    if total_len <= 5 {
        config.rent_tier_5
    } else if total_len <= 8 {
        config.rent_tier_8
    } else if total_len <= 10 {
        config.rent_tier_10
    } else {
        config.rent_tier_12plus
    }
}

/// The base rent scaled by the premium multiplier; the product saturates at
/// `u128::MAX` before the division.
pub open spec fn spec_sub_account_rent(
    total_len: u8,
    premium: PremiumCategory,
    config: FeeConfig,
) -> u128 {
    let base = spec_base_rent(total_len, config);
    let (num, den) = spec_multiplier(premium);
    let product = if base * num > u128::MAX {
        u128::MAX as int
    } else {
        base * num
    };
    (product / (den as int)) as u128
}

/// The length used for pricing a sub-account: the bytes of `name.tla_id`,
/// capped at 255.
pub open spec fn spec_total_name_length(tla_id: Seq<char>, name: Seq<char>) -> u8 {
    let n = byte_len(name) + 1 + byte_len(tla_id);
    if n > 255 {
        255
    } else {
        n as u8
    }
}

/// The annual rent of sub-account `name` under `tla`: the flat per-account
/// fee for a Business TLA, the length-and-premium price for an Open one.
pub open spec fn spec_calculate_rent(
    tla: TlaEntry,
    tla_id: Seq<char>,
    name: Seq<char>,
    config: FeeConfig,
) -> u128 {
    match tla.tla_type {
        TlaType::Business => config.sub_fee_per_account,
        TlaType::Open => spec_sub_account_rent(
            spec_total_name_length(tla_id, name),
            tla.premium_category,
            config,
        ),
    }
}

pub fn base_rent(total_len: u8, config: &FeeConfig) -> (rent: u128)
    ensures
        rent == spec_base_rent(total_len, *config),
{
    if total_len <= 5 {
        config.rent_tier_5
    } else if total_len <= 8 {
        config.rent_tier_8
    } else if total_len <= 10 {
        config.rent_tier_10
    } else {
        config.rent_tier_12plus
    }
}

pub fn sub_account_rent(total_len: u8, premium: &PremiumCategory, config: &FeeConfig) -> (rent: u128)
    ensures
        rent == spec_sub_account_rent(total_len, *premium, *config),
{
    let base = base_rent(total_len, config);
    let (num, den) = premium.multiplier();
    let product = match base.checked_mul(num) {
        Some(p) => p,
        None => u128::MAX,
    };
    product / den
}

pub fn total_name_length(tla_id: &String, name: &String) -> (len: u8)
    ensures
        len == spec_total_name_length(tla_id@, name@),
{
    let name_len = name.as_str().len();
    let tla_len = tla_id.as_str().len();
    let total: u128 = (name_len as u128) + 1 + (tla_len as u128);
    if total > 255 {
        255
    } else {
        total as u8
    }
}

pub fn calculate_rent(tla: &TlaEntry, tla_id: &String, name: &String, config: &FeeConfig) -> (rent:
    u128)
    ensures
        rent == spec_calculate_rent(*tla, tla_id@, name@, *config),
{
    match tla.tla_type {
        TlaType::Business => config.sub_fee_per_account,
        TlaType::Open => {
            let total_len = total_name_length(tla_id, name);
            sub_account_rent(total_len, &tla.premium_category, config)
        },
    }
}

/// The fee schedule a fresh registry starts with.
pub open spec fn spec_default_fee_config() -> FeeConfig {
    FeeConfig {
        tla_allocation_fee: 1_000_000_000_000_000_000_000_000_000,
        rent_tier_5: 50_000_000_000_000_000_000_000_000,
        rent_tier_8: 20_000_000_000_000_000_000_000_000,
        rent_tier_10: 10_000_000_000_000_000_000_000_000,
        rent_tier_12plus: 5_000_000_000_000_000_000_000_000,
        sub_fee_per_account: 500_000_000_000_000_000_000_000,
        account_creation_deposit: 2_000_000_000_000_000_000_000_000,
        business_max_subs: 1000,
        retraction_notice_ns: 604_800_000_000_000,
        resale_commission_bps: 0,
    }
}

pub fn default_fee_config() -> (config: FeeConfig)
    ensures
        config == spec_default_fee_config(),
{
    FeeConfig {
        tla_allocation_fee: 1000 * ONE_NEAR,
        rent_tier_5: 50 * ONE_NEAR,
        rent_tier_8: 20 * ONE_NEAR,
        rent_tier_10: 10 * ONE_NEAR,
        rent_tier_12plus: 5 * ONE_NEAR,
        sub_fee_per_account: ONE_NEAR / 2,
        account_creation_deposit: 2 * ONE_NEAR,
        business_max_subs: 1000,
        retraction_notice_ns: 7 * 24 * 60 * 60 * 1_000_000_000,
        resale_commission_bps: 0,
    }
}

} // verus!
