//! Identities, launch-parameter constraints, and the global configuration.

use vstd::prelude::*;
use crate::errors::PumpfunError;
use crate::math::FEE_DENOM;

verus! {

/// A 32-byte account identity, held as four 64-bit words so that equality is
/// plain field equality.
#[derive(Clone, Copy, Debug, PartialEq, Eq, Structural)]
pub struct Pubkey {
    pub w0: u64,
    pub w1: u64,
    pub w2: u64,
    pub w3: u64,
}

impl Pubkey {
    pub fn new(w0: u64, w1: u64, w2: u64, w3: u64) -> (r: Pubkey)
        ensures
            r == (Pubkey { w0, w1, w2, w3 }),
    {
        Pubkey { w0, w1, w2, w3 }
    }
}

impl Default for Pubkey {
    /// The all-zero identity, used to clear a nominated authority.
    fn default() -> (r: Pubkey)
        ensures
            r == (Pubkey { w0: 0u64, w1: 0u64, w2: 0u64, w3: 0u64 }),
    {
        Pubkey { w0: 0, w1: 0, w2: 0, w3: 0 }
    }
}

/// What the curve's logic reads of the external token mint: its decimal
/// scale and whether its two authorities have been revoked. The host keeps
/// the mint itself; this record carries the checked facts into the logic.
#[derive(Clone, Copy, Debug, PartialEq, Eq, Structural)]
pub struct MintState {
    pub decimals: u8,
    pub mint_authority: Option<Pubkey>,
    pub freeze_authority: Option<Pubkey>,
}

/// A constraint on one launch parameter: either an inclusive range, with
/// either bound optional, or an explicit set of allowed values.
#[derive(Clone, Debug)]
pub enum AmountConfig {
    Range { min: Option<u64>, max: Option<u64> },
    Enum(Vec<u64>),
}

impl AmountConfig {
    /// What `validate` returns: range bounds are inclusive, so the bounds
    /// themselves pass; set membership is plain equality.
    pub open spec fn validate_spec(self, value: u64) -> Result<(), PumpfunError> {
        match self {
            AmountConfig::Range { min, max } => {
                if min matches Some(lo) && value < lo {
                    Err(PumpfunError::ValueTooSmall)
                } else if max matches Some(hi) && value > hi {
                    Err(PumpfunError::ValueTooLarge)
                } else {
                    Ok(())
                }
            },
            AmountConfig::Enum(options) => {
                if options@.contains(value) {
                    Ok(())
                } else {
                    Err(PumpfunError::ValueInvalid)
                }
            },
        }
    }

    /// Accepts `value` iff it satisfies the constraint, naming the violated
    /// bound otherwise.
    pub fn validate(&self, value: u64) -> (r: Result<(), PumpfunError>)
        ensures
            r == self.validate_spec(value),
    {
        match self {
            AmountConfig::Range { min, max } => {
                if let Some(lo) = min {
                    if value < *lo {
                        return Err(PumpfunError::ValueTooSmall);
                    }
                }
                if let Some(hi) = max {
                    if value > *hi {
                        return Err(PumpfunError::ValueTooLarge);
                    }
                }
                Ok(())
            },
            AmountConfig::Enum(options) => {
                let n = options.len();
                let mut i: usize = 0;
                while i < n
                    invariant
                        self is Enum,
                        self->Enum_0 == *options,
                        n == options@.len(),
                        i <= n,
                        forall|j: int| 0 <= j < i ==> options@[j] != value,
                    decreases n - i,
                {
                    if options[i] == value {
                        proof {
                            assert(options@.contains(value));
                        }
                        return Ok(());
                    }
                    i = i + 1;
                }
                Err(PumpfunError::ValueInvalid)
            },
        }
    }
}

/// The process-wide configuration: the admin identity with its two-phase
/// handover slot, the treasury destination, the platform fees, the
/// completion threshold, and the constraints on launch parameters.
/// Fees are in hundredths of a percent (see [`FEE_DENOM`]).
#[derive(Clone, Debug)]
pub struct Config {
    pub authority: Pubkey,
    pub pending_authority: Pubkey,
    pub team_wallet: Pubkey,
    pub platform_buy_fee: u64,
    pub platform_sell_fee: u64,
    pub platform_migration_fee: u64,
    /// Lamport reserve level at which a curve completes.
    pub curve_limit: u64,
    pub lamport_amount_config: AmountConfig,
    pub token_supply_config: AmountConfig,
    pub token_decimals_config: AmountConfig,
}

impl Config {
    /// Every fee is a percentage in `[0, 100)`.
    pub open spec fn wf(self) -> bool {
        &&& self.platform_buy_fee < FEE_DENOM
        &&& self.platform_sell_fee < FEE_DENOM
        &&& self.platform_migration_fee < FEE_DENOM
    }
}

/// What `configure` does: the very first call installs its configuration
/// unconditionally (the deployer's trust-on-first-use bootstrap); afterwards
/// only the current authority may replace it.
pub open spec fn configure_spec(current: Option<Config>, payer: Pubkey, new_config: Config)
    -> Result<Config, PumpfunError> {
    match current {
        None => Ok(new_config),
        Some(c) => {
            if c.authority == payer {
                Ok(new_config)
            } else {
                Err(PumpfunError::IncorrectAuthority)
            }
        },
    }
}

/// Installs or replaces the global configuration, as [`configure_spec`]
/// says; a caller that is not the stored authority changes nothing.
pub fn configure(current: Option<&Config>, payer: Pubkey, new_config: Config)
    -> (r: Result<Config, PumpfunError>)
    ensures
        r == configure_spec(
            match current {
                Some(c) => Some(*c),
                None => None,
            },
            payer,
            new_config,
        ),
{
    match current {
        None => Ok(new_config),
        Some(c) => {
            if c.authority == payer {
                Ok(new_config)
            } else {
                Err(PumpfunError::IncorrectAuthority)
            }
        },
    }
}

/// What `nominate_authority` does: only the current authority may set the
/// pending slot; nothing else changes either way.
pub open spec fn nominate_authority_spec(config: Config, signer: Pubkey, new_admin: Pubkey)
    -> (Config, Result<(), PumpfunError>) {
    if config.authority == signer {
        (Config { pending_authority: new_admin, ..config }, Ok(()))
    } else {
        (config, Err(PumpfunError::IncorrectAuthority))
    }
}

/// First half of the two-phase handover: the current authority nominates a
/// successor. A signer that is not the authority fails and leaves the
/// pending slot untouched.
pub fn nominate_authority(config: &mut Config, signer: Pubkey, new_admin: Pubkey)
    -> (r: Result<(), PumpfunError>)
    ensures
        (*final(config), r) == nominate_authority_spec(*old(config), signer, new_admin),
        old(config).authority != signer ==> r == Err::<(), PumpfunError>(
            PumpfunError::IncorrectAuthority,
        ) && *final(config) == *old(config),
{
    if config.authority == signer {
        config.pending_authority = new_admin;
        Ok(())
    } else {
        Err(PumpfunError::IncorrectAuthority)
    }
}

/// What `accept_authority` does: only the nominated successor may commit the
/// handover, which installs it as authority and clears the pending slot.
pub open spec fn accept_authority_spec(config: Config, signer: Pubkey)
    -> (Config, Result<(), PumpfunError>) {
    if config.pending_authority == signer {
        (
            Config {
                authority: signer,
                pending_authority: Pubkey { w0: 0, w1: 0, w2: 0, w3: 0 },
                ..config
            },
            Ok(()),
        )
    } else {
        (config, Err(PumpfunError::IncorrectAuthority))
    }
}

/// Second half of the two-phase handover: the nominated successor accepts.
/// Any other signer fails and leaves the authority untouched.
pub fn accept_authority(config: &mut Config, signer: Pubkey) -> (r: Result<(), PumpfunError>)
    ensures
        (*final(config), r) == accept_authority_spec(*old(config), signer),
        old(config).pending_authority != signer ==> r == Err::<(), PumpfunError>(
            PumpfunError::IncorrectAuthority,
        ) && *final(config) == *old(config),
{
    if config.pending_authority == signer {
        config.authority = signer;
        config.pending_authority = Pubkey::default();
        Ok(())
    } else {
        Err(PumpfunError::IncorrectAuthority)
    }
}

/// Two-phase authority handover, end to end: a nomination by the authority
/// followed by the nominee's acceptance installs the nominee, and the old
/// authority can thereafter no longer configure.
pub proof fn lemma_two_phase_handover(
    c: Config,
    old_admin: Pubkey,
    new_admin: Pubkey,
    nc: Config,
)
    requires
        c.authority == old_admin,
        old_admin != new_admin,
    ensures
        ({
            let (c1, r1) = nominate_authority_spec(c, old_admin, new_admin);
            let (c2, r2) = accept_authority_spec(c1, new_admin);
            &&& r1 == Ok::<(), PumpfunError>(())
            &&& r2 == Ok::<(), PumpfunError>(())
            &&& c2.authority == new_admin
            &&& configure_spec(Some(c2), old_admin, nc) == Err::<Config, PumpfunError>(
                PumpfunError::IncorrectAuthority,
            )
        }),
{
}

} // verus!
