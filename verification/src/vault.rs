//! Vault-level bookkeeping: pooled liquidity, reserves, debt, guaranteed
//! USD, and hourly funding accrual, together with the per-vault oracle and
//! open-interest cache.

use vstd::prelude::*;

use crate::cache::{sum_weights, weight_spec, Cache};
use crate::config::Config;
use crate::constants::{FUNDING_RATE_FACTOR, SECONDS_IN_HOUR};
use crate::conversions::{usd_to_token, usd_to_token_spec};
use crate::error::ErrorCode;
use crate::fees::{funding_fee_spec, get_funding_fee, get_position_fee, position_fee_spec};
use crate::price::{get_next_average_price, next_average_price_spec};

verus! {

/// The type of oracle price feed backing a vault.
#[derive(Debug, Clone, Copy, PartialEq, Eq, Structural)]
pub enum OracleType {
    /// Pyth oracle price feeds.
    Pyth,
    /// Switchboard V2 oracle price feeds.
    SwitchboardV2,
}

impl Default for OracleType {
    /// Pyth, unless stated otherwise.
    fn default() -> (r: Self)
        ensures
            r == OracleType::Pyth,
    {
        Self::Pyth
    }
}

/// Per-vault oracle and open-interest cache.
#[derive(Debug, Clone, Copy, PartialEq, Eq, Structural)]
pub struct VaultCache {
    /// The type of oracle price feed.
    pub oracle_type: OracleType,
    /// The authority.
    pub authority: u64,
    /// The vault this cache belongs to.
    pub vault: u64,
    /// The total amount of deposits.
    pub total_deposits: u128,
    /// The long open interest.
    pub long_open_interest: u128,
    /// The short open interest.
    pub short_open_interest: u128,
    /// The average entry price of all long positions.
    pub long_avg_entry_price: u64,
    /// The average entry price of all short positions.
    pub short_avg_entry_price: u64,
    /// The oracle price, normalized to the oracle target exponent.
    pub oracle_price: u64,
    /// The funding index.
    pub funding_index: u64,
}

impl VaultCache {
    /// Initializes the vault cache.
    pub fn init(&mut self, authority: u64, vault: u64)
        ensures
            *final(self) == (VaultCache { authority, vault, ..*old(self) }),
    {
        self.authority = authority;
        self.vault = vault;
    }

    /// The next average entry price for long positions, folding the given
    /// delta into the long open interest.
    ///
    /// On failure nothing is changed.
    pub fn get_next_long_average_entry_price(&mut self, long_position_delta: u64) -> (r: Result<
        u64,
        ErrorCode,
    >)
        requires
            old(self).long_open_interest + long_position_delta > 0,
            old(self).long_open_interest + long_position_delta <= u128::MAX,
        ensures
            ({
                let next = next_average_price_spec(
                    old(self).long_open_interest as int,
                    old(self).long_avg_entry_price as int,
                    long_position_delta as int,
                    old(self).oracle_price as int,
                );
                match next {
                    Ok(p) => r == Ok::<u64, ErrorCode>(p) && *final(self) == (VaultCache {
                        long_avg_entry_price: p,
                        long_open_interest: (old(self).long_open_interest + long_position_delta)
                            as u128,
                        ..*old(self)
                    }),
                    Err(e) => r == Err::<u64, ErrorCode>(e) && *final(self) == *old(self),
                }
            }),
    {
        let next_average_price = match get_next_average_price(
            self.long_open_interest,
            self.long_avg_entry_price,
            long_position_delta,
            self.oracle_price,
        ) {
            Ok(p) => p,
            Err(e) => {
                return Err(e);
            },
        };
        self.long_avg_entry_price = next_average_price;
        self.long_open_interest = self.long_open_interest + long_position_delta as u128;
        Ok(next_average_price)
    }

    /// The next average entry price for short positions, folding the given
    /// delta into the short open interest.
    ///
    /// On failure nothing is changed.
    pub fn get_next_short_average_entry_price(&mut self, short_position_delta: u64) -> (r: Result<
        u64,
        ErrorCode,
    >)
        requires
            old(self).short_open_interest + short_position_delta > 0,
            old(self).short_open_interest + short_position_delta <= u128::MAX,
        ensures
            ({
                let next = next_average_price_spec(
                    old(self).short_open_interest as int,
                    old(self).short_avg_entry_price as int,
                    short_position_delta as int,
                    old(self).oracle_price as int,
                );
                match next {
                    Ok(p) => r == Ok::<u64, ErrorCode>(p) && *final(self) == (VaultCache {
                        short_avg_entry_price: p,
                        short_open_interest: (old(self).short_open_interest + short_position_delta)
                            as u128,
                        ..*old(self)
                    }),
                    Err(e) => r == Err::<u64, ErrorCode>(e) && *final(self) == *old(self),
                }
            }),
    {
        let next_average_price = match get_next_average_price(
            self.short_open_interest,
            self.short_avg_entry_price,
            short_position_delta,
            self.oracle_price,
        ) {
            Ok(p) => p,
            Err(e) => {
                return Err(e);
            },
        };
        self.short_avg_entry_price = next_average_price;
        self.short_open_interest = self.short_open_interest + short_position_delta as u128;
        Ok(next_average_price)
    }

    /// Decreases the long open interest.
    pub fn decrease_long_open_interest(&mut self, amount: u64)
        requires
            amount <= old(self).long_open_interest,
        ensures
            *final(self) == (VaultCache {
                long_open_interest: (old(self).long_open_interest - amount) as u128,
                ..*old(self)
            }),
    {
        self.long_open_interest = self.long_open_interest - amount as u128;
    }

    /// Decreases the short open interest.
    pub fn decrease_short_open_interest(&mut self, amount: u64)
        requires
            amount <= old(self).short_open_interest,
        ensures
            *final(self) == (VaultCache {
                short_open_interest: (old(self).short_open_interest - amount) as u128,
                ..*old(self)
            }),
    {
        self.short_open_interest = self.short_open_interest - amount as u128;
    }
}

/// Pooled liquidity for one underlying asset backing leveraged positions.
#[derive(Debug, Clone, Copy, PartialEq, Eq, Structural)]
pub struct Vault {
    /// Whether the vault has dynamic fees.
    pub has_dynamic_fees: bool,
    /// Whether the vault represents a stable coin.
    pub is_stable: bool,
    /// The index of the vault in the global LP-weighting registry.
    pub cache_index: u8,
    /// The decimals of the underlying token.
    pub decimals: u8,
    /// The maximum allowed leverage for this vault, represented in basis
    /// points.
    pub max_leverage: u32,
    /// The address of the vault.
    pub self_address: u64,
    /// The authority of the liquidity pool.
    pub authority: u64,
    /// The token mint.
    pub token_mint: u64,
    /// The token account.
    pub token_vault: u64,
    /// The vault signer.
    pub vault_signer: u64,
    /// The amount of deposits, in native token units.
    pub deposits: u128,
    /// The amount of assets reserved for positions, in native token units.
    pub reserved: u128,
    /// The funding rate index.
    pub cumulative_funding_rate: u128,
    /// The debt amount on the vault.
    pub debt_amount: u128,
    /// The amount of USD guaranteed by open leveraged positions, used to
    /// calculate redemption values to sell debt.
    pub guaranteed_usd: u128,
    /// The timestamp of the last funding update.
    pub last_funding_update: u64,
}

/// A vault is well-formed when its reserved liquidity never exceeds its
/// deposits.
pub open spec fn vault_wf(v: Vault) -> bool {
    v.reserved <= v.deposits
}

/// What a vault's target debt is: its weight-proportional share of the LP
/// token supply, or zero when no supply or no weights are registered.
pub open spec fn target_debt_spec(lp_token_supply: int, weights: Seq<u64>, cache_index: int) -> int {
    if lp_token_supply == 0 || sum_weights(weights) == 0 {
        0
    } else {
        lp_token_supply * weight_spec(weights, cache_index) / sum_weights(weights)
    }
}

/// What [`Vault::get_next_funding_rate`] returns: the funding accrued over
/// the whole hours elapsed since the last update, proportional to the share
/// of deposits that is reserved.
pub open spec fn next_funding_rate_spec(v: Vault, unix_timestamp: int) -> Result<u128, ErrorCode> {
    let intervals = (unix_timestamp - v.last_funding_update) / (SECONDS_IN_HOUR as int);
    if v.deposits == 0 {
        Err(ErrorCode::DivideByZero)
    } else if (FUNDING_RATE_FACTOR as int) * v.reserved > u128::MAX {
        Err(ErrorCode::ArithmeticOverflow)
    } else if (FUNDING_RATE_FACTOR as int) * v.reserved * intervals > u128::MAX {
        Err(ErrorCode::ArithmeticOverflow)
    } else {
        Ok(((FUNDING_RATE_FACTOR as int) * v.reserved * intervals / (v.deposits as int)) as u128)
    }
}

/// What [`Vault::update_funding_rate`] does to a vault.
///
/// Within an hour of the last update nothing changes; afterwards the
/// accrued funding is folded into the cumulative index and the update
/// timestamp advances. An empty vault has no funding to charge: the bucket
/// is consumed with zero accrual.
pub open spec fn update_funding_rate_spec(v: Vault, unix_timestamp: int) -> Result<
    Vault,
    ErrorCode,
> {
    if v.last_funding_update + SECONDS_IN_HOUR > unix_timestamp {
        Ok(v)
    } else if v.deposits == 0 {
        Ok(Vault { last_funding_update: unix_timestamp as u64, ..v })
    } else {
        match next_funding_rate_spec(v, unix_timestamp) {
            Ok(rate) => {
                if v.cumulative_funding_rate + rate > u128::MAX {
                    Err(ErrorCode::ArithmeticOverflow)
                } else {
                    Ok(
                        Vault {
                            cumulative_funding_rate: (v.cumulative_funding_rate + rate) as u128,
                            last_funding_update: unix_timestamp as u64,
                            ..v
                        },
                    )
                }
            },
            Err(e) => Err(e),
        }
    }
}

impl Vault {
    /// Initializes the vault's identities.
    pub fn init(
        &mut self,
        self_address: u64,
        authority: u64,
        token_mint: u64,
        token_vault: u64,
        vault_signer: u64,
    )
        ensures
            *final(self) == (Vault {
                self_address,
                authority,
                token_mint,
                token_vault,
                vault_signer,
                ..*old(self)
            }),
    {
        self.self_address = self_address;
        self.authority = authority;
        self.token_mint = token_mint;
        self.token_vault = token_vault;
        self.vault_signer = vault_signer;
    }

    /// Gets the target debt amount for this vault.
    pub fn get_target_debt_amount(&self, cache: &Cache) -> (r: u128)
        requires
            sum_weights(cache.weights@) <= u64::MAX,
            cache.lp_token_supply * weight_spec(cache.weights@, self.cache_index as int)
                <= u64::MAX,
        ensures
            r == target_debt_spec(
                cache.lp_token_supply as int,
                cache.weights@,
                self.cache_index as int,
            ),
    {
        if cache.lp_token_supply == 0 {
            return 0;
        }
        let weight = cache.get_weight(self.cache_index as usize);
        let total_weights = cache.get_total_token_weights();
        if total_weights == 0 {
            return 0;
        }
        ((cache.lp_token_supply * weight) / total_weights) as u128
    }

    /// Gets the funding accrued since the last funding update.
    pub fn get_next_funding_rate(&self, unix_timestamp: u64) -> (r: Result<u128, ErrorCode>)
        requires
            unix_timestamp >= self.last_funding_update,
        ensures
            r == next_funding_rate_spec(*self, unix_timestamp as int),
    {
        let intervals = (unix_timestamp - self.last_funding_update) / SECONDS_IN_HOUR;
        if self.deposits == 0 {
            return Err(ErrorCode::DivideByZero);
        }
        let reserved_rate = match FUNDING_RATE_FACTOR.checked_mul(self.reserved) {
            Some(n) => n,
            None => {
                return Err(ErrorCode::ArithmeticOverflow);
            },
        };
        let funding_rate = match reserved_rate.checked_mul(intervals as u128) {
            Some(n) => n,
            None => {
                return Err(ErrorCode::ArithmeticOverflow);
            },
        };
        Ok(funding_rate / self.deposits)
    }

    /// Updates the funding rate if enough time has passed for a whole hour
    /// bucket to have elapsed.
    ///
    /// On failure nothing is changed.
    pub fn update_funding_rate(&mut self, unix_timestamp: u64) -> (r: Result<(), ErrorCode>)
        ensures
            ({
                match update_funding_rate_spec(*old(self), unix_timestamp as int) {
                    Ok(v) => r == Ok::<(), ErrorCode>(()) && *final(self) == v,
                    Err(e) => r == Err::<(), ErrorCode>(e) && *final(self) == *old(self),
                }
            }),
    {
        if (self.last_funding_update as u128) + (SECONDS_IN_HOUR as u128) <= unix_timestamp
            as u128 {
            if self.deposits == 0 {
                self.last_funding_update = unix_timestamp;
                return Ok(());
            }
            let rate = match self.get_next_funding_rate(unix_timestamp) {
                Ok(n) => n,
                Err(e) => {
                    return Err(e);
                },
            };
            let next_cumulative = match self.cumulative_funding_rate.checked_add(rate) {
                Some(n) => n,
                None => {
                    return Err(ErrorCode::ArithmeticOverflow);
                },
            };
            self.cumulative_funding_rate = next_cumulative;
            self.last_funding_update = unix_timestamp;
        }
        Ok(())
    }

    /// Increases the amount of reserved assets.
    pub fn increase_reserved(&mut self, amount: u128)
        requires
            old(self).reserved + amount <= u128::MAX,
        ensures
            *final(self) == (Vault {
                reserved: (old(self).reserved + amount) as u128,
                ..*old(self)
            }),
    {
        self.reserved = self.reserved + amount;
    }

    /// Decreases the amount of reserved assets.
    ///
    /// On failure nothing is changed.
    pub fn decrease_reserved(&mut self, amount: u128) -> (r: Result<(), ErrorCode>)
        ensures
            amount <= old(self).reserved ==> r == Ok::<(), ErrorCode>(()) && *final(self)
                == (Vault { reserved: (old(self).reserved - amount) as u128, ..*old(self) }),
            amount > old(self).reserved ==> r == Err::<(), ErrorCode>(
                ErrorCode::ArithmeticUnderflow,
            ) && *final(self) == *old(self),
    {
        if amount <= self.reserved {
            self.reserved = self.reserved - amount;
            Ok(())
        } else {
            Err(ErrorCode::ArithmeticUnderflow)
        }
    }

    /// Increases the pool amount.
    pub fn increase_pool_amount(&mut self, amount: u128)
        requires
            old(self).deposits + amount <= u128::MAX,
        ensures
            *final(self) == (Vault {
                deposits: (old(self).deposits + amount) as u128,
                ..*old(self)
            }),
    {
        self.deposits = self.deposits + amount;
    }

    /// Decreases the pool amount.
    ///
    /// On failure nothing is changed.
    pub fn decrease_pool_amount(&mut self, amount: u128) -> (r: Result<(), ErrorCode>)
        ensures
            amount <= old(self).deposits ==> r == Ok::<(), ErrorCode>(()) && *final(self)
                == (Vault { deposits: (old(self).deposits - amount) as u128, ..*old(self) }),
            amount > old(self).deposits ==> r == Err::<(), ErrorCode>(
                ErrorCode::ArithmeticUnderflow,
            ) && *final(self) == *old(self),
    {
        if amount <= self.deposits {
            self.deposits = self.deposits - amount;
            Ok(())
        } else {
            Err(ErrorCode::ArithmeticUnderflow)
        }
    }

    /// Increases the debt amount.
    pub fn increase_debt_amount(&mut self, amount: u128)
        requires
            old(self).debt_amount + amount <= u128::MAX,
        ensures
            *final(self) == (Vault {
                debt_amount: (old(self).debt_amount + amount) as u128,
                ..*old(self)
            }),
    {
        self.debt_amount = self.debt_amount + amount;
    }

    /// Decreases the debt amount.
    ///
    /// On failure nothing is changed.
    pub fn decrease_debt_amount(&mut self, amount: u128) -> (r: Result<(), ErrorCode>)
        ensures
            amount <= old(self).debt_amount ==> r == Ok::<(), ErrorCode>(()) && *final(self)
                == (Vault { debt_amount: (old(self).debt_amount - amount) as u128, ..*old(self) }),
            amount > old(self).debt_amount ==> r == Err::<(), ErrorCode>(
                ErrorCode::ArithmeticUnderflow,
            ) && *final(self) == *old(self),
    {
        if amount <= self.debt_amount {
            self.debt_amount = self.debt_amount - amount;
            Ok(())
        } else {
            Err(ErrorCode::ArithmeticUnderflow)
        }
    }

    /// Increases the guaranteed USD amount.
    pub fn increase_guaranteed_usd(&mut self, amount: u128)
        requires
            old(self).guaranteed_usd + amount <= u128::MAX,
        ensures
            *final(self) == (Vault {
                guaranteed_usd: (old(self).guaranteed_usd + amount) as u128,
                ..*old(self)
            }),
    {
        self.guaranteed_usd = self.guaranteed_usd + amount;
    }

    /// Decreases the guaranteed USD amount.
    ///
    /// On failure nothing is changed.
    pub fn decrease_guaranteed_usd(&mut self, amount: u128) -> (r: Result<(), ErrorCode>)
        ensures
            amount <= old(self).guaranteed_usd ==> r == Ok::<(), ErrorCode>(()) && *final(self)
                == (Vault {
                guaranteed_usd: (old(self).guaranteed_usd - amount) as u128,
                ..*old(self)
            }),
            amount > old(self).guaranteed_usd ==> r == Err::<(), ErrorCode>(
                ErrorCode::ArithmeticUnderflow,
            ) && *final(self) == *old(self),
    {
        if amount <= self.guaranteed_usd {
            self.guaranteed_usd = self.guaranteed_usd - amount;
            Ok(())
        } else {
            Err(ErrorCode::ArithmeticUnderflow)
        }
    }

    /// The margin fees charged on a size change: the position fee on the
    /// size delta plus the funding fee accrued since the given funding
    /// index, converted to native token units at the cached oracle price.
    pub fn collect_margin_fees(
        &self,
        config: &Config,
        vault_cache: &VaultCache,
        size_delta: u64,
        size: u64,
        funding_rate: u64,
    ) -> (r: Result<u128, ErrorCode>)
        requires
            config.margin_fee_bps <= 10000,
            self.decimals <= 19,
            size > 0 ==> self.cumulative_funding_rate >= funding_rate,
            size > 0 ==> (self.cumulative_funding_rate - funding_rate) * size <= u64::MAX,
            position_fee_spec(config.margin_fee_bps as int, size_delta as int) + funding_fee_spec(
                self.cumulative_funding_rate as int,
                funding_rate as int,
                size as int,
            ) <= u64::MAX,
        ensures
            r == usd_to_token_spec(
                position_fee_spec(config.margin_fee_bps as int, size_delta as int)
                    + funding_fee_spec(
                    self.cumulative_funding_rate as int,
                    funding_rate as int,
                    size as int,
                ),
                vault_cache.oracle_price as int,
                self.decimals as int,
            ),
    {
        let mut fee = get_position_fee(config, size_delta);
        fee = fee + get_funding_fee(self, size, funding_rate);
        usd_to_token(fee as u128, vault_cache.oracle_price, self.decimals)
    }
}

} // verus!
