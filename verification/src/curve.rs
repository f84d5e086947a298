//! The per-asset bonding curve: reserves, pricing, and settlement.

use vstd::prelude::*;
use crate::errors::PumpfunError;
use crate::math::{
    amount_out_spec, apply_fee, apply_fee_spec, constant_product_out, fee_portion,
    fee_portion_spec, lemma_amount_out_bounds, lemma_fee_monotonicity, lemma_fee_split_bounds,
    pow10, pow10_u64,
};
use crate::state::{Config, MintState, Pubkey};

verus! {

/// State of one launched asset's curve. Created once at launch, mutated only
/// through the swap and settlement algorithms.
#[derive(Clone, Copy, Debug, PartialEq, Eq, Structural)]
pub struct BondingCurve {
    pub token_mint: Pubkey,
    pub creator: Pubkey,
    /// Lamports contributed at launch; a baseline that is never counted as
    /// earned by trading.
    pub init_lamport: u64,
    pub reserve_lamport: u64,
    pub reserve_token: u64,
    /// One-way flag: set when the lamport reserve first reaches the
    /// configured limit, never cleared.
    pub is_completed: bool,
}

/// Everything a swap settles: what the user receives, the net amount that
/// entered the pricing formula, the fee owed to the treasury, and whether
/// this call found the reserve at or above the completion limit.
#[derive(Clone, Copy, Debug, PartialEq, Eq, Structural)]
pub struct SwapOutcome {
    pub amount_out: u64,
    pub adjusted_amount: u64,
    pub fee_amount: u64,
    pub is_completed: bool,
}

/// The admin's entitlement when a completed curve is drained directly.
#[derive(Clone, Copy, Debug, PartialEq, Eq, Structural)]
pub struct WithdrawOutcome {
    pub lamport_amount: u64,
    pub token_amount: u64,
}

/// The settlement split when a completed curve is handed to the external
/// pool: the treasury's fee in both assets and the seed amounts for the new
/// pool.
#[derive(Clone, Copy, Debug, PartialEq, Eq, Structural)]
pub struct MigrationOutcome {
    pub fee_lamport: u64,
    pub fee_token: u64,
    /// Base-currency seed of the new pool.
    pub init_pc_amount: u64,
    /// Token seed of the new pool, the same share of the token reserve that
    /// `init_pc_amount` is of the lamport reserve.
    pub coin_amount: u64,
}

/// Lamports set aside from the migrated liquidity for the external pool's
/// creation costs: market creation, pool creation, and transaction overhead.
pub const POOL_CREATION_OVERHEAD: u64 = 730_000_000;

/// Lamports repaid to the caller who triggers migration, covering the market
/// identifier creation fee and the transaction fee.
pub const MIGRATION_SIGNER_REFUND: u64 = 330_000_000;

/// What `update_reserves` does: both reserve fields are overwritten, and the
/// completion flag is set - never cleared - when the new lamport reserve has
/// reached the configured limit. The boolean reports that comparison.
pub open spec fn update_reserves_spec(
    c: BondingCurve,
    config: Config,
    reserve_token: u64,
    reserve_lamport: u64,
) -> (BondingCurve, bool) {
    (
        BondingCurve {
            reserve_token,
            reserve_lamport,
            is_completed: c.is_completed || reserve_lamport >= config.curve_limit,
            ..c
        },
        reserve_lamport >= config.curve_limit,
    )
}

/// The fee that applies to a swap: the sell fee for direction `1`, the buy
/// fee otherwise.
pub open spec fn swap_fee(config: Config, direction: u8) -> u64 {
    if direction == 1 {
        config.platform_sell_fee
    } else {
        config.platform_buy_fee
    }
}

/// What `swap` does. A zero amount is rejected outright. Otherwise the fee
/// is taken off the input, the constant-product payout is priced with the
/// net amount, and the reserves move by the gross input and the payout; a
/// reserve sum that leaves the machine range aborts the call unchanged.
pub open spec fn swap_spec(c: BondingCurve, config: Config, amount: u64, direction: u8)
    -> Result<(BondingCurve, SwapOutcome), PumpfunError> {
    if amount == 0 {
        Err(PumpfunError::InvalidAmount)
    } else {
        let adjusted = apply_fee_spec(amount as int, swap_fee(config, direction) as int);
        if direction == 1 {
            if c.reserve_token + adjusted > u64::MAX || c.reserve_token + amount > u64::MAX {
                Err(PumpfunError::OverflowOrUnderflowOccurred)
            } else {
                let out = amount_out_spec(c.reserve_lamport as int, adjusted, c.reserve_token as int);
                let (c2, completed) = update_reserves_spec(
                    c,
                    config,
                    (c.reserve_token + amount) as u64,
                    (c.reserve_lamport - out) as u64,
                );
                Ok(
                    (
                        c2,
                        SwapOutcome {
                            amount_out: out as u64,
                            adjusted_amount: adjusted as u64,
                            fee_amount: (amount - adjusted) as u64,
                            is_completed: completed,
                        },
                    ),
                )
            }
        } else {
            if c.reserve_lamport + adjusted > u64::MAX || c.reserve_lamport + amount > u64::MAX {
                Err(PumpfunError::OverflowOrUnderflowOccurred)
            } else {
                let out = amount_out_spec(c.reserve_token as int, adjusted, c.reserve_lamport as int);
                let (c2, completed) = update_reserves_spec(
                    c,
                    config,
                    (c.reserve_token - out) as u64,
                    (c.reserve_lamport + amount) as u64,
                );
                Ok(
                    (
                        c2,
                        SwapOutcome {
                            amount_out: out as u64,
                            adjusted_amount: adjusted as u64,
                            fee_amount: (amount - adjusted) as u64,
                            is_completed: completed,
                        },
                    ),
                )
            }
        }
    }
}

/// What `simulate_swap` returns: the pricing steps of [`swap_spec`] alone,
/// with no reserve change.
pub open spec fn simulate_swap_spec(c: BondingCurve, config: Config, amount: u64, direction: u8)
    -> Result<u64, PumpfunError> {
    if amount == 0 {
        Err(PumpfunError::InvalidAmount)
    } else {
        let adjusted = apply_fee_spec(amount as int, swap_fee(config, direction) as int);
        if direction == 1 {
            if c.reserve_token + adjusted > u64::MAX {
                Err(PumpfunError::OverflowOrUnderflowOccurred)
            } else {
                Ok(amount_out_spec(c.reserve_lamport as int, adjusted, c.reserve_token as int) as u64)
            }
        } else {
            if c.reserve_lamport + adjusted > u64::MAX {
                Err(PumpfunError::OverflowOrUnderflowOccurred)
            } else {
                Ok(amount_out_spec(c.reserve_token as int, adjusted, c.reserve_lamport as int) as u64)
            }
        }
    }
}

/// What `launch` does: the supply must be a whole number of tokens, and the
/// reserve, whole-token supply and decimal count must each satisfy the
/// configured constraint, checked in that order; the curve then opens with
/// the full supply, the seed reserve, and the completion flag clear.
pub open spec fn launch_spec(
    config: Config,
    token_mint: Pubkey,
    creator: Pubkey,
    decimals: u8,
    token_supply: u64,
    reserve_lamport: u64,
) -> Result<BondingCurve, PumpfunError> {
    let multiplier = pow10(decimals as nat) as int;
    if token_supply as int % multiplier != 0 {
        Err(PumpfunError::ValueInvalid)
    } else {
        match config.lamport_amount_config.validate_spec(reserve_lamport) {
            Err(e) => Err(e),
            Ok(_) => match config.token_supply_config.validate_spec(
                (token_supply as int / multiplier) as u64,
            ) {
                Err(e) => Err(e),
                Ok(_) => match config.token_decimals_config.validate_spec(decimals as u64) {
                    Err(e) => Err(e),
                    Ok(_) => Ok(
                        BondingCurve {
                            token_mint,
                            creator,
                            init_lamport: reserve_lamport,
                            reserve_lamport,
                            reserve_token: token_supply,
                            is_completed: false,
                        },
                    ),
                },
            },
        }
    }
}

/// What `withdraw` does: only a completed curve can be drained; the admin is
/// owed the lamports earned over the launch baseline and the whole token
/// reserve, and the record is left fully drained.
pub open spec fn withdraw_spec(c: BondingCurve, config: Config)
    -> Result<(BondingCurve, WithdrawOutcome), PumpfunError> {
    if !c.is_completed {
        Err(PumpfunError::CurveNotCompleted)
    } else if c.reserve_lamport < c.init_lamport {
        Err(PumpfunError::OverflowOrUnderflowOccurred)
    } else {
        let (c2, _) = update_reserves_spec(c, config, 0, 0);
        Ok(
            (
                c2,
                WithdrawOutcome {
                    lamport_amount: (c.reserve_lamport - c.init_lamport) as u64,
                    token_amount: c.reserve_token,
                },
            ),
        )
    }
}

/// What `migrate` does: the curve must be completed and both mint
/// authorities revoked, checked in that order. Of the lamports earned over
/// the baseline, the migration fee and the pool-creation overhead are set
/// aside; what remains seeds the pool together with the matching share of
/// the token reserve, the treasury takes the rest, and the record is left
/// fully drained.
pub open spec fn migrate_spec(c: BondingCurve, config: Config, mint: MintState)
    -> Result<(BondingCurve, MigrationOutcome), PumpfunError> {
    if !c.is_completed {
        Err(PumpfunError::CurveNotCompleted)
    } else if mint.freeze_authority is Some {
        Err(PumpfunError::FreezeAuthorityEnabled)
    } else if mint.mint_authority is Some {
        Err(PumpfunError::MintAuthorityEnabled)
    } else if c.reserve_lamport < c.init_lamport {
        Err(PumpfunError::OverflowOrUnderflowOccurred)
    } else {
        let lamport_on_curve = c.reserve_lamport - c.init_lamport;
        let fee_lamport = fee_portion_spec(lamport_on_curve, config.platform_migration_fee as int);
        if lamport_on_curve - fee_lamport < POOL_CREATION_OVERHEAD {
            Err(PumpfunError::OverflowOrUnderflowOccurred)
        } else {
            let init_pc_amount = lamport_on_curve - fee_lamport - POOL_CREATION_OVERHEAD;
            let coin_amount = init_pc_amount * c.reserve_token as int / c.reserve_lamport as int;
            let (c2, _) = update_reserves_spec(c, config, 0, 0);
            Ok(
                (
                    c2,
                    MigrationOutcome {
                        fee_lamport: fee_lamport as u64,
                        fee_token: (c.reserve_token - coin_amount) as u64,
                        init_pc_amount: init_pc_amount as u64,
                        coin_amount: coin_amount as u64,
                    },
                ),
            )
        }
    }
}

impl BondingCurve {
    /// Overwrites both reserves and runs the completion check; returns
    /// whether the new lamport reserve has reached the limit. The flag is
    /// never cleared, so completion is monotonic across any sequence of
    /// calls.
    pub fn update_reserves(&mut self, config: &Config, reserve_token: u64, reserve_lamport: u64)
        -> (completed: bool)
        ensures
            (*final(self), completed) == update_reserves_spec(
                *old(self),
                *config,
                reserve_token,
                reserve_lamport,
            ),
            old(self).is_completed ==> final(self).is_completed,
    {
        self.reserve_token = reserve_token;
        self.reserve_lamport = reserve_lamport;
        if reserve_lamport >= config.curve_limit {
            self.is_completed = true;
            return true;
        }
        false
    }

    /// One trade against the curve. Direction `1` sells tokens for
    /// lamports; any other direction buys tokens with lamports. The input
    /// reserve grows by the gross amount while pricing uses the net amount,
    /// so the fee is borne by the counter-asset's payout. On any error the
    /// curve is unchanged; on success the input-side reserve strictly grows.
    pub fn swap(&mut self, config: &Config, amount: u64, direction: u8)
        -> (r: Result<SwapOutcome, PumpfunError>)
        requires
            config.wf(),
        ensures
            swap_spec(*old(self), *config, amount, direction) matches Ok(p) ==> r == Ok::<
                SwapOutcome,
                PumpfunError,
            >(p.1) && *final(self) == p.0,
            swap_spec(*old(self), *config, amount, direction) matches Err(e) ==> r == Err::<
                SwapOutcome,
                PumpfunError,
            >(e) && *final(self) == *old(self),
            old(self).is_completed ==> final(self).is_completed,
            r is Ok && direction == 1 ==> final(self).reserve_token > old(self).reserve_token,
            r is Ok && direction != 1 ==> final(self).reserve_lamport > old(self).reserve_lamport,
    {
        if amount == 0 {
            return Err(PumpfunError::InvalidAmount);
        }
        let fee_percent = if direction == 1 {
            config.platform_sell_fee
        } else {
            config.platform_buy_fee
        };
        let adjusted_amount = apply_fee(amount, fee_percent);
        if direction == 1 {
            if self.reserve_token > u64::MAX - adjusted_amount
                || self.reserve_token > u64::MAX - amount {
                return Err(PumpfunError::OverflowOrUnderflowOccurred);
            }
            let amount_out = constant_product_out(
                self.reserve_lamport,
                adjusted_amount,
                self.reserve_token,
            );
            let new_reserve_token = self.reserve_token + amount;
            let new_reserve_lamport = self.reserve_lamport - amount_out;
            let completed = self.update_reserves(config, new_reserve_token, new_reserve_lamport);
            Ok(
                SwapOutcome {
                    amount_out,
                    adjusted_amount,
                    fee_amount: amount - adjusted_amount,
                    is_completed: completed,
                },
            )
        } else {
            if self.reserve_lamport > u64::MAX - adjusted_amount
                || self.reserve_lamport > u64::MAX - amount {
                return Err(PumpfunError::OverflowOrUnderflowOccurred);
            }
            let amount_out = constant_product_out(
                self.reserve_token,
                adjusted_amount,
                self.reserve_lamport,
            );
            let new_reserve_token = self.reserve_token - amount_out;
            let new_reserve_lamport = self.reserve_lamport + amount;
            let completed = self.update_reserves(config, new_reserve_token, new_reserve_lamport);
            Ok(
                SwapOutcome {
                    amount_out,
                    adjusted_amount,
                    fee_amount: amount - adjusted_amount,
                    is_completed: completed,
                },
            )
        }
    }

    /// Prices a trade without settling it: the payout the same call to
    /// `swap` would produce, with the reserves untouched.
    pub fn simulate_swap(&self, config: &Config, amount: u64, direction: u8)
        -> (r: Result<u64, PumpfunError>)
        requires
            config.wf(),
        ensures
            r == simulate_swap_spec(*self, *config, amount, direction),
    {
        if amount == 0 {
            return Err(PumpfunError::InvalidAmount);
        }
        let fee_percent = if direction == 1 {
            config.platform_sell_fee
        } else {
            config.platform_buy_fee
        };
        let adjusted_amount = apply_fee(amount, fee_percent);
        if direction == 1 {
            if self.reserve_token > u64::MAX - adjusted_amount {
                return Err(PumpfunError::OverflowOrUnderflowOccurred);
            }
            Ok(constant_product_out(self.reserve_lamport, adjusted_amount, self.reserve_token))
        } else {
            if self.reserve_lamport > u64::MAX - adjusted_amount {
                return Err(PumpfunError::OverflowOrUnderflowOccurred);
            }
            Ok(constant_product_out(self.reserve_token, adjusted_amount, self.reserve_lamport))
        }
    }

    /// Drains a completed curve to the admin: the lamports earned over the
    /// launch baseline and the full token reserve, leaving the record at
    /// zero reserves.
    pub fn withdraw(&mut self, config: &Config) -> (r: Result<WithdrawOutcome, PumpfunError>)
        ensures
            withdraw_spec(*old(self), *config) matches Ok(p) ==> r == Ok::<
                WithdrawOutcome,
                PumpfunError,
            >(p.1) && *final(self) == p.0,
            withdraw_spec(*old(self), *config) matches Err(e) ==> r == Err::<
                WithdrawOutcome,
                PumpfunError,
            >(e) && *final(self) == *old(self),
    {
        if !self.is_completed {
            return Err(PumpfunError::CurveNotCompleted);
        }
        if self.reserve_lamport < self.init_lamport {
            return Err(PumpfunError::OverflowOrUnderflowOccurred);
        }
        let lamport_amount = self.reserve_lamport - self.init_lamport;
        let token_amount = self.reserve_token;
        let _ = self.update_reserves(config, 0, 0);
        Ok(WithdrawOutcome { lamport_amount, token_amount })
    }

    /// Settles a completed curve into the external pool's seed amounts and
    /// the treasury's fee, leaving the record at zero reserves. Fails, with
    /// nothing changed, while the curve is not completed, while either mint
    /// authority is still set, or when the earned lamports cannot cover the
    /// fee and the pool-creation overhead.
    pub fn migrate(&mut self, config: &Config, mint: &MintState)
        -> (r: Result<MigrationOutcome, PumpfunError>)
        requires
            config.wf(),
        ensures
            migrate_spec(*old(self), *config, *mint) matches Ok(p) ==> r == Ok::<
                MigrationOutcome,
                PumpfunError,
            >(p.1) && *final(self) == p.0,
            migrate_spec(*old(self), *config, *mint) matches Err(e) ==> r == Err::<
                MigrationOutcome,
                PumpfunError,
            >(e) && *final(self) == *old(self),
    {
        if !self.is_completed {
            return Err(PumpfunError::CurveNotCompleted);
        }
        if mint.freeze_authority.is_some() {
            return Err(PumpfunError::FreezeAuthorityEnabled);
        }
        if mint.mint_authority.is_some() {
            return Err(PumpfunError::MintAuthorityEnabled);
        }
        if self.reserve_lamport < self.init_lamport {
            return Err(PumpfunError::OverflowOrUnderflowOccurred);
        }
        let lamport_on_curve = self.reserve_lamport - self.init_lamport;
        let fee_lamport = fee_portion(lamport_on_curve, config.platform_migration_fee);
        if lamport_on_curve - fee_lamport < POOL_CREATION_OVERHEAD {
            return Err(PumpfunError::OverflowOrUnderflowOccurred);
        }
        let init_pc_amount = lamport_on_curve - fee_lamport - POOL_CREATION_OVERHEAD;
        let coin_amount = crate::math::mul_div(
            init_pc_amount,
            self.reserve_token,
            self.reserve_lamport,
        );
        let fee_token = self.reserve_token - coin_amount;
        let _ = self.update_reserves(config, 0, 0);
        Ok(MigrationOutcome { fee_lamport, fee_token, init_pc_amount, coin_amount })
    }
}

/// Opens a new curve for `token_mint`, checking the launch parameters
/// against the configuration exactly as [`launch_spec`] says. On success
/// the curve holds the full supply against the seed reserve and is not
/// completed.
pub fn launch(
    config: &Config,
    token_mint: Pubkey,
    creator: Pubkey,
    decimals: u8,
    token_supply: u64,
    reserve_lamport: u64,
) -> (r: Result<BondingCurve, PumpfunError>)
    requires
        decimals <= 19,
    ensures
        r == launch_spec(*config, token_mint, creator, decimals, token_supply, reserve_lamport),
        r matches Ok(c) ==> c.reserve_token == token_supply && c.reserve_lamport == reserve_lamport
            && c.init_lamport == reserve_lamport && !c.is_completed,
{
    let multiplier = pow10_u64(decimals);
    if token_supply % multiplier != 0 {
        return Err(PumpfunError::ValueInvalid);
    }
    match config.lamport_amount_config.validate(reserve_lamport) {
        Err(e) => {
            return Err(e);
        },
        Ok(_) => {},
    }
    match config.token_supply_config.validate(token_supply / multiplier) {
        Err(e) => {
            return Err(e);
        },
        Ok(_) => {},
    }
    match config.token_decimals_config.validate(decimals as u64) {
        Err(e) => {
            return Err(e);
        },
        Ok(_) => {},
    }
    Ok(
        BondingCurve {
            token_mint,
            creator,
            init_lamport: reserve_lamport,
            reserve_lamport,
            reserve_token: token_supply,
            is_completed: false,
        },
    )
}

/// The curve after one call of `swap`: the new state on success, the same
/// state on any error.
pub open spec fn swap_step(c: BondingCurve, config: Config, amount: u64, direction: u8)
    -> BondingCurve {
    match swap_spec(c, config, amount, direction) {
        Ok(p) => p.0,
        Err(_) => c,
    }
}

/// The curve after a whole sequence of swap calls, applied in order.
pub open spec fn run_swaps(c: BondingCurve, config: Config, calls: Seq<(u64, u8)>) -> BondingCurve
    decreases calls.len(),
{
    if calls.len() == 0 {
        c
    } else {
        run_swaps(swap_step(c, config, calls[0].0, calls[0].1), config, calls.drop_first())
    }
}

/// Completion is monotonic: once a curve is completed, no sequence of
/// further swap calls can clear the flag.
pub proof fn lemma_completion_monotonic(c: BondingCurve, config: Config, calls: Seq<(u64, u8)>)
    requires
        c.is_completed,
    ensures
        run_swaps(c, config, calls).is_completed,
    decreases calls.len(),
{
    if calls.len() > 0 {
        let c1 = swap_step(c, config, calls[0].0, calls[0].1);
        assert(c1.is_completed);
        lemma_completion_monotonic(c1, config, calls.drop_first());
    }
}

/// The preview is faithful: whenever `swap` succeeds, `simulate_swap` on
/// the same state succeeds and quotes exactly the payout the swap settles.
pub proof fn lemma_simulate_agrees_with_swap(
    c: BondingCurve,
    config: Config,
    amount: u64,
    direction: u8,
)
    ensures
        swap_spec(c, config, amount, direction) matches Ok(p) ==> simulate_swap_spec(
            c,
            config,
            amount,
            direction,
        ) == Ok::<u64, PumpfunError>(p.1.amount_out),
{
}

/// Raising the platform fee never raises a swap's payout: with two
/// configurations whose applicable fees are ordered, whenever both price
/// the same trade, the higher-fee payout is no larger. Rounding can make
/// the two payouts equal, so the bound is not strict.
pub proof fn lemma_swap_fee_monotonic(
    c: BondingCurve,
    cfg_lo: Config,
    cfg_hi: Config,
    amount: u64,
    direction: u8,
)
    requires
        cfg_lo.wf(),
        cfg_hi.wf(),
        swap_fee(cfg_lo, direction) <= swap_fee(cfg_hi, direction),
    ensures
        simulate_swap_spec(c, cfg_hi, amount, direction) is Ok && simulate_swap_spec(
            c,
            cfg_lo,
            amount,
            direction,
        ) is Ok ==> simulate_swap_spec(c, cfg_hi, amount, direction)->Ok_0 <= simulate_swap_spec(
            c,
            cfg_lo,
            amount,
            direction,
        )->Ok_0,
{
    let fee_lo = swap_fee(cfg_lo, direction) as int;
    let fee_hi = swap_fee(cfg_hi, direction) as int;
    let adj_lo = apply_fee_spec(amount as int, fee_lo);
    let adj_hi = apply_fee_spec(amount as int, fee_hi);
    lemma_fee_split_bounds(amount as int, fee_lo);
    lemma_fee_split_bounds(amount as int, fee_hi);
    if direction == 1 {
        lemma_fee_monotonicity(
            c.reserve_lamport as int,
            c.reserve_token as int,
            amount as int,
            fee_lo,
            fee_hi,
        );
        lemma_amount_out_bounds(c.reserve_lamport as int, adj_lo, c.reserve_token as int);
        lemma_amount_out_bounds(c.reserve_lamport as int, adj_hi, c.reserve_token as int);
    } else {
        lemma_fee_monotonicity(
            c.reserve_token as int,
            c.reserve_lamport as int,
            amount as int,
            fee_lo,
            fee_hi,
        );
        lemma_amount_out_bounds(c.reserve_token as int, adj_lo, c.reserve_lamport as int);
        lemma_amount_out_bounds(c.reserve_token as int, adj_hi, c.reserve_lamport as int);
    }
}

/// Draining an already drained curve changes nothing: the reserves stay at
/// zero both times and the completion flag keeps its value.
pub proof fn lemma_drain_idempotent(c: BondingCurve, config: Config)
    ensures
        ({
            let (c1, _) = update_reserves_spec(c, config, 0, 0);
            let (c2, _) = update_reserves_spec(c1, config, 0, 0);
            &&& c1.reserve_token == 0
            &&& c1.reserve_lamport == 0
            &&& c2 == c1
        }),
{
}

} // verus!
