//! The pool processor: six operations, each a pure state-machine step.
//!
//! Every operation validates its preconditions against the plain views of
//! the accounts it was handed and either returns the exact error the pool
//! defines for the failing check, or the full effect: the ledger calls to
//! perform, the derived pool authority with its bump, and, for Init and
//! Close, the new record or balance.  The host performs the calls as one
//! atomic unit, so an error means no balance changes at all.

use vstd::prelude::*;
use crate::authority::{derive_pool_authority, spec_derive_pool_authority};
use crate::error::AMMError;
use crate::identity::Identity;
use crate::ledger::{AccountView, AccountViewV, LedgerOp, LedgerOpV, VaultAccount, VaultAccountV, ops_view};
use crate::state::{AMM, AMMV, spec_unpack_amm, valid_record};
use crate::token::{token_account_balance, token_account_error, token_account_ready, token_balance};

verus! {

/// The effect of a successful Init.
pub struct InitOutcome {
    /// The record to write into the pool-state account.
    pub state: AMM,
    /// The three ownership changes that hand the vaults to the pool
    /// authority.
    pub ops: Vec<LedgerOp>,
    /// The derived pool authority.
    pub authority: Identity,
    /// The authority's bump byte.
    pub bump: u8,
}

/// The model of an Init effect.
#[verifier::ext_equal]
pub struct InitOutcomeV {
    pub state: AMMV,
    pub ops: Seq<LedgerOpV>,
    pub authority: Seq<u8>,
    pub bump: u8,
}

impl View for InitOutcome {
    type V = InitOutcomeV;

    open spec fn view(&self) -> InitOutcomeV {
        InitOutcomeV {
            state: self.state@,
            ops: ops_view(self.ops@),
            authority: self.authority@,
            bump: self.bump,
        }
    }
}

/// The effect of a successful ProvideLiquidity, ClaimLiquidity or trade.
pub struct OpOutcome {
    /// The transfers to perform, in order.
    pub ops: Vec<LedgerOp>,
    /// The derived pool authority.
    pub authority: Identity,
    /// The authority's bump byte.
    pub bump: u8,
}

/// The model of a transfer-operation effect.
#[verifier::ext_equal]
pub struct OpOutcomeV {
    pub ops: Seq<LedgerOpV>,
    pub authority: Seq<u8>,
    pub bump: u8,
}

impl View for OpOutcome {
    type V = OpOutcomeV;

    open spec fn view(&self) -> OpOutcomeV {
        OpOutcomeV { ops: ops_view(self.ops@), authority: self.authority@, bump: self.bump }
    }
}

/// The effect of a successful Close.
pub struct CloseOutcome {
    /// The three vault-closing calls.
    pub ops: Vec<LedgerOp>,
    /// The initializer's balance after reclaiming the pool authority's
    /// resources.
    pub new_initializer_lamports: u64,
    /// The derived pool authority.
    pub authority: Identity,
    /// The authority's bump byte.
    pub bump: u8,
}

/// The model of a Close effect.
#[verifier::ext_equal]
pub struct CloseOutcomeV {
    pub ops: Seq<LedgerOpV>,
    pub new_initializer_lamports: u64,
    pub authority: Seq<u8>,
    pub bump: u8,
}

impl View for CloseOutcome {
    type V = CloseOutcomeV;

    open spec fn view(&self) -> CloseOutcomeV {
        CloseOutcomeV {
            ops: ops_view(self.ops@),
            new_initializer_lamports: self.new_initializer_lamports,
            authority: self.authority@,
            bump: self.bump,
        }
    }
}

/// What Init returns: the caller must sign, the pool-state account must be
/// rent exempt, and its record must decode as uninitialized; then the
/// record is filled in and the three vaults are handed to the derived pool
/// authority.
pub open spec fn spec_process_init_amm(
    initializer: AccountViewV,
    busd_vault: Seq<u8>,
    bstock_vault: Seq<u8>,
    bstocklqdy_vault: Seq<u8>,
    amm_record: Seq<u8>,
    rent_exempt: bool,
    program_id: Seq<u8>,
) -> Result<InitOutcomeV, AMMError> {
    if !initializer.is_signer {
        Err(AMMError::MissingRequiredSignature)
    } else if !rent_exempt {
        Err(AMMError::NotRentExempt)
    } else if !valid_record(amm_record) {
        Err(AMMError::InvalidAccountData)
    } else if spec_unpack_amm(amm_record).is_initialized {
        Err(AMMError::AccountAlreadyInitialized)
    } else {
        match spec_derive_pool_authority(program_id) {
            None => Err(AMMError::AuthorityNotFound),
            Some((auth, bump)) => Ok(InitOutcomeV {
                state: AMMV {
                    is_initialized: true,
                    initializer: initializer.identity,
                    busd: busd_vault,
                    bstock: bstock_vault,
                    bstocklqdy: bstocklqdy_vault,
                },
                ops: seq![
                    LedgerOpV::SetOwner {
                        account: busd_vault,
                        new_owner: auth,
                        current_owner: initializer.identity,
                    },
                    LedgerOpV::SetOwner {
                        account: bstock_vault,
                        new_owner: auth,
                        current_owner: initializer.identity,
                    },
                    LedgerOpV::SetOwner {
                        account: bstocklqdy_vault,
                        new_owner: auth,
                        current_owner: initializer.identity,
                    },
                ],
                authority: auth,
                bump,
            }),
        }
    }
}

/// What ProvideLiquidity returns: the provider must sign; the record must
/// decode as initialized and hold the presented vault identities; both
/// tradable vaults must parse; the pool ratio `floor(vaultA / vaultB)`
/// must be defined and equal the deposit ratio `floor(amountB / amountA)`;
/// then the two deposits move in and a receipt equal to the asset-A
/// amount moves out, signed by the pool authority.
pub open spec fn spec_process_provide_liquidity(
    provider: AccountViewV,
    provider_busd: Seq<u8>,
    provider_bstock: Seq<u8>,
    provider_bstocklqdy: Seq<u8>,
    pool_busd: VaultAccountV,
    pool_bstock: VaultAccountV,
    pool_bstocklqdy: Seq<u8>,
    amm_record: Seq<u8>,
    busd_amount: u64,
    bstock_amount: u64,
    program_id: Seq<u8>,
) -> Result<OpOutcomeV, AMMError> {
    if !provider.is_signer {
        Err(AMMError::MissingRequiredSignature)
    } else if !valid_record(amm_record) {
        Err(AMMError::InvalidAccountData)
    } else if !spec_unpack_amm(amm_record).is_initialized {
        Err(AMMError::UninitializedAccount)
    } else if spec_unpack_amm(amm_record).busd != pool_busd.identity
        || spec_unpack_amm(amm_record).bstock != pool_bstock.identity
        || spec_unpack_amm(amm_record).bstocklqdy != pool_bstocklqdy {
        Err(AMMError::InvalidAccountData)
    } else if !token_account_ready(pool_busd.data) {
        Err(token_account_error(pool_busd.data))
    } else if !token_account_ready(pool_bstock.data) {
        Err(token_account_error(pool_bstock.data))
    } else if token_balance(pool_bstock.data) == 0 || busd_amount == 0 {
        Err(AMMError::DivisionByZero)
    } else if token_balance(pool_busd.data) / token_balance(pool_bstock.data) != bstock_amount
        / busd_amount {
        Err(AMMError::InvalidRatio)
    } else {
        match spec_derive_pool_authority(program_id) {
            None => Err(AMMError::AuthorityNotFound),
            Some((auth, bump)) => Ok(OpOutcomeV {
                ops: seq![
                    LedgerOpV::Transfer {
                        source: provider_busd,
                        dest: pool_busd.identity,
                        authority: provider.identity,
                        amount: busd_amount,
                        pool_signed: false,
                    },
                    LedgerOpV::Transfer {
                        source: provider_bstock,
                        dest: pool_bstock.identity,
                        authority: provider.identity,
                        amount: bstock_amount,
                        pool_signed: false,
                    },
                    LedgerOpV::Transfer {
                        source: pool_bstocklqdy,
                        dest: provider_bstocklqdy,
                        authority: auth,
                        amount: busd_amount,
                        pool_signed: true,
                    },
                ],
                authority: auth,
                bump,
            }),
        }
    }
}

/// What ClaimLiquidity returns: the provider must sign; the record must
/// decode as initialized and hold the presented vault identities; both
/// tradable vaults must parse; the pool ratio must be defined and the
/// asset-B payout `amount * ratio` must fit in `u64`; then the receipt
/// amount moves back into the pool and `amount` of asset A plus
/// `amount * ratio` of asset B move out, signed by the pool authority.
pub open spec fn spec_process_claim_liquidity(
    provider: AccountViewV,
    provider_busd: Seq<u8>,
    provider_bstock: Seq<u8>,
    provider_bstocklqdy: Seq<u8>,
    pool_busd: VaultAccountV,
    pool_bstock: VaultAccountV,
    pool_bstocklqdy: Seq<u8>,
    amm_record: Seq<u8>,
    bstocklqdy_amount: u64,
    program_id: Seq<u8>,
) -> Result<OpOutcomeV, AMMError> {
    if !provider.is_signer {
        Err(AMMError::MissingRequiredSignature)
    } else if !valid_record(amm_record) {
        Err(AMMError::InvalidAccountData)
    } else if !spec_unpack_amm(amm_record).is_initialized {
        Err(AMMError::UninitializedAccount)
    } else if spec_unpack_amm(amm_record).busd != pool_busd.identity
        || spec_unpack_amm(amm_record).bstock != pool_bstock.identity
        || spec_unpack_amm(amm_record).bstocklqdy != pool_bstocklqdy {
        Err(AMMError::InvalidAccountData)
    } else if !token_account_ready(pool_busd.data) {
        Err(token_account_error(pool_busd.data))
    } else if !token_account_ready(pool_bstock.data) {
        Err(token_account_error(pool_bstock.data))
    } else if token_balance(pool_bstock.data) == 0 {
        Err(AMMError::DivisionByZero)
    } else if bstocklqdy_amount * (token_balance(pool_busd.data) / token_balance(
        pool_bstock.data,
    )) > u64::MAX {
        Err(AMMError::AmountOverflow)
    } else {
        match spec_derive_pool_authority(program_id) {
            None => Err(AMMError::AuthorityNotFound),
            Some((auth, bump)) => Ok(OpOutcomeV {
                ops: seq![
                    LedgerOpV::Transfer {
                        source: provider_bstocklqdy,
                        dest: pool_bstocklqdy,
                        authority: provider.identity,
                        amount: bstocklqdy_amount,
                        pool_signed: false,
                    },
                    LedgerOpV::Transfer {
                        source: pool_busd.identity,
                        dest: provider_busd,
                        authority: auth,
                        amount: bstocklqdy_amount,
                        pool_signed: true,
                    },
                    LedgerOpV::Transfer {
                        source: pool_bstock.identity,
                        dest: provider_bstock,
                        authority: auth,
                        amount: (bstocklqdy_amount * (token_balance(pool_busd.data)
                            / token_balance(pool_bstock.data))) as u64,
                        pool_signed: true,
                    },
                ],
                authority: auth,
                bump,
            }),
        }
    }
}

/// What TradeAForB returns: the trader must sign; the record must decode
/// as initialized and hold the presented vault identities; both tradable
/// vaults must parse; the pool ratio `floor(vaultA / vaultB)` must be
/// defined and the payout `amount * ratio` must fit in `u64`; then
/// `amount` of asset A moves in and `amount * ratio` of asset B moves
/// out, signed by the pool authority.
pub open spec fn spec_process_trade_busd(
    user: AccountViewV,
    user_busd: Seq<u8>,
    user_bstock: Seq<u8>,
    pool_busd: VaultAccountV,
    pool_bstock: VaultAccountV,
    amm_record: Seq<u8>,
    busd_amount: u64,
    program_id: Seq<u8>,
) -> Result<OpOutcomeV, AMMError> {
    if !user.is_signer {
        Err(AMMError::MissingRequiredSignature)
    } else if !valid_record(amm_record) {
        Err(AMMError::InvalidAccountData)
    } else if !spec_unpack_amm(amm_record).is_initialized {
        Err(AMMError::UninitializedAccount)
    } else if spec_unpack_amm(amm_record).busd != pool_busd.identity
        || spec_unpack_amm(amm_record).bstock != pool_bstock.identity {
        Err(AMMError::InvalidAccountData)
    } else if !token_account_ready(pool_busd.data) {
        Err(token_account_error(pool_busd.data))
    } else if !token_account_ready(pool_bstock.data) {
        Err(token_account_error(pool_bstock.data))
    } else if token_balance(pool_bstock.data) == 0 {
        Err(AMMError::DivisionByZero)
    } else if busd_amount * (token_balance(pool_busd.data) / token_balance(pool_bstock.data))
        > u64::MAX {
        Err(AMMError::AmountOverflow)
    } else {
        match spec_derive_pool_authority(program_id) {
            None => Err(AMMError::AuthorityNotFound),
            Some((auth, bump)) => Ok(OpOutcomeV {
                ops: seq![
                    LedgerOpV::Transfer {
                        source: user_busd,
                        dest: pool_busd.identity,
                        authority: user.identity,
                        amount: busd_amount,
                        pool_signed: false,
                    },
                    LedgerOpV::Transfer {
                        source: pool_bstock.identity,
                        dest: user_bstock,
                        authority: auth,
                        amount: (busd_amount * (token_balance(pool_busd.data) / token_balance(
                            pool_bstock.data,
                        ))) as u64,
                        pool_signed: true,
                    },
                ],
                authority: auth,
                bump,
            }),
        }
    }
}

/// What TradeBForA returns: the mirror of TradeAForB.  After the same
/// signer and record checks, the swapped ratio `floor(vaultB / vaultA)`
/// must be defined and the payout `amount * ratio` must fit in `u64`;
/// then `amount` of asset B moves in and the payout of asset A moves out,
/// signed by the pool authority.
pub open spec fn spec_process_trade_bstock(
    user: AccountViewV,
    user_busd: Seq<u8>,
    user_bstock: Seq<u8>,
    pool_busd: VaultAccountV,
    pool_bstock: VaultAccountV,
    amm_record: Seq<u8>,
    bstock_amount: u64,
    program_id: Seq<u8>,
) -> Result<OpOutcomeV, AMMError> {
    if !user.is_signer {
        Err(AMMError::MissingRequiredSignature)
    } else if !valid_record(amm_record) {
        Err(AMMError::InvalidAccountData)
    } else if !spec_unpack_amm(amm_record).is_initialized {
        Err(AMMError::UninitializedAccount)
    } else if spec_unpack_amm(amm_record).busd != pool_busd.identity
        || spec_unpack_amm(amm_record).bstock != pool_bstock.identity {
        Err(AMMError::InvalidAccountData)
    } else if !token_account_ready(pool_busd.data) {
        Err(token_account_error(pool_busd.data))
    } else if !token_account_ready(pool_bstock.data) {
        Err(token_account_error(pool_bstock.data))
    } else if token_balance(pool_busd.data) == 0 {
        Err(AMMError::DivisionByZero)
    } else if bstock_amount * (token_balance(pool_bstock.data) / token_balance(pool_busd.data))
        > u64::MAX {
        Err(AMMError::AmountOverflow)
    } else {
        match spec_derive_pool_authority(program_id) {
            None => Err(AMMError::AuthorityNotFound),
            Some((auth, bump)) => Ok(OpOutcomeV {
                ops: seq![
                    LedgerOpV::Transfer {
                        source: user_bstock,
                        dest: pool_bstock.identity,
                        authority: user.identity,
                        amount: bstock_amount,
                        pool_signed: false,
                    },
                    LedgerOpV::Transfer {
                        source: pool_busd.identity,
                        dest: user_busd,
                        authority: auth,
                        amount: (bstock_amount * (token_balance(pool_bstock.data)
                            / token_balance(pool_busd.data))) as u64,
                        pool_signed: true,
                    },
                ],
                authority: auth,
                bump,
            }),
        }
    }
}

/// What Close returns: the initializer must sign; the record must decode
/// as initialized and name the caller as its initializer; the
/// initializer's balance plus the pool authority's reclaimable balance
/// must fit in `u64`; then each of the three vaults is closed toward the
/// initializer, signed by the pool authority, and the initializer's
/// balance becomes the checked sum.  The pool authority's own balance
/// drops to zero and the record is destroyed by the host.
pub open spec fn spec_process_close_amm(
    initializer: AccountViewV,
    pool_busd: Seq<u8>,
    pool_bstock: Seq<u8>,
    pool_bstocklqdy: Seq<u8>,
    amm_record: Seq<u8>,
    initializer_lamports: u64,
    pda_lamports: u64,
    program_id: Seq<u8>,
) -> Result<CloseOutcomeV, AMMError> {
    if !initializer.is_signer {
        Err(AMMError::MissingRequiredSignature)
    } else if !valid_record(amm_record) {
        Err(AMMError::InvalidAccountData)
    } else if !spec_unpack_amm(amm_record).is_initialized {
        Err(AMMError::UninitializedAccount)
    } else if spec_unpack_amm(amm_record).initializer != initializer.identity {
        Err(AMMError::InvalidInitializer)
    } else if initializer_lamports + pda_lamports > u64::MAX {
        Err(AMMError::AmountOverflow)
    } else {
        match spec_derive_pool_authority(program_id) {
            None => Err(AMMError::AuthorityNotFound),
            Some((auth, bump)) => Ok(CloseOutcomeV {
                ops: seq![
                    LedgerOpV::CloseAccount {
                        account: pool_busd,
                        dest: initializer.identity,
                    },
                    LedgerOpV::CloseAccount {
                        account: pool_bstock,
                        dest: initializer.identity,
                    },
                    LedgerOpV::CloseAccount {
                        account: pool_bstocklqdy,
                        dest: initializer.identity,
                    },
                ],
                new_initializer_lamports: (initializer_lamports + pda_lamports) as u64,
                authority: auth,
                bump,
            }),
        }
    }
}

/// Init rejects every request whose pool-state record is already
/// initialized: the result is an error for any such input, and exactly
/// `AccountAlreadyInitialized` once the signer and rent checks that come
/// before it pass.
pub proof fn lemma_init_rejects_initialized(
    initializer: AccountViewV,
    busd_vault: Seq<u8>,
    bstock_vault: Seq<u8>,
    bstocklqdy_vault: Seq<u8>,
    amm_record: Seq<u8>,
    rent_exempt: bool,
    program_id: Seq<u8>,
)
    requires
        valid_record(amm_record),
        spec_unpack_amm(amm_record).is_initialized,
    ensures
        (spec_process_init_amm(
            initializer,
            busd_vault,
            bstock_vault,
            bstocklqdy_vault,
            amm_record,
            rent_exempt,
            program_id,
        ) is Err),
        initializer.is_signer && rent_exempt ==> spec_process_init_amm(
            initializer,
            busd_vault,
            bstock_vault,
            bstocklqdy_vault,
            amm_record,
            rent_exempt,
            program_id,
        ) == Err::<InitOutcomeV, AMMError>(AMMError::AccountAlreadyInitialized),
{
}

/// Close never succeeds for a caller whose identity differs from the
/// stored initializer identity; once the caller signed, the error is
/// exactly `InvalidInitializer`.
pub proof fn lemma_close_rejects_non_initializer(
    initializer: AccountViewV,
    pool_busd: Seq<u8>,
    pool_bstock: Seq<u8>,
    pool_bstocklqdy: Seq<u8>,
    amm_record: Seq<u8>,
    initializer_lamports: u64,
    pda_lamports: u64,
    program_id: Seq<u8>,
)
    requires
        valid_record(amm_record),
        spec_unpack_amm(amm_record).is_initialized,
        spec_unpack_amm(amm_record).initializer != initializer.identity,
    ensures
        (spec_process_close_amm(
            initializer,
            pool_busd,
            pool_bstock,
            pool_bstocklqdy,
            amm_record,
            initializer_lamports,
            pda_lamports,
            program_id,
        ) is Err),
        initializer.is_signer ==> spec_process_close_amm(
            initializer,
            pool_busd,
            pool_bstock,
            pool_bstocklqdy,
            amm_record,
            initializer_lamports,
            pda_lamports,
            program_id,
        ) == Err::<CloseOutcomeV, AMMError>(AMMError::InvalidInitializer),
{
}

/// Close, called by the signed initializer, fails with exactly
/// `AmountOverflow` whenever the initializer's balance plus the pool
/// authority's reclaimable balance exceeds `u64::MAX` — and since an
/// error carries no ledger calls, no balance changes; when the sum fits
/// and the pool authority derives, the initializer's balance becomes
/// exactly that sum.
pub proof fn lemma_close_reclaims_balance(
    initializer: AccountViewV,
    pool_busd: Seq<u8>,
    pool_bstock: Seq<u8>,
    pool_bstocklqdy: Seq<u8>,
    amm_record: Seq<u8>,
    initializer_lamports: u64,
    pda_lamports: u64,
    program_id: Seq<u8>,
)
    requires
        initializer.is_signer,
        valid_record(amm_record),
        spec_unpack_amm(amm_record).is_initialized,
        spec_unpack_amm(amm_record).initializer == initializer.identity,
    ensures
        initializer_lamports + pda_lamports > u64::MAX ==> spec_process_close_amm(
            initializer,
            pool_busd,
            pool_bstock,
            pool_bstocklqdy,
            amm_record,
            initializer_lamports,
            pda_lamports,
            program_id,
        ) == Err::<CloseOutcomeV, AMMError>(AMMError::AmountOverflow),
        initializer_lamports + pda_lamports <= u64::MAX && spec_derive_pool_authority(
            program_id,
        ) is Some ==> (spec_process_close_amm(
            initializer,
            pool_busd,
            pool_bstock,
            pool_bstocklqdy,
            amm_record,
            initializer_lamports,
            pda_lamports,
            program_id,
        ) matches Ok(o) && o.new_initializer_lamports == initializer_lamports + pda_lamports),
{
}

/// ProvideLiquidity never succeeds when a presented vault identity
/// differs from the stored one, whatever the vault balances hold; once
/// the caller signed, the error is exactly `InvalidAccountData`.  An
/// error carries no ledger calls, so no balance changes.
pub proof fn lemma_provide_rejects_vault_mismatch(
    provider: AccountViewV,
    provider_busd: Seq<u8>,
    provider_bstock: Seq<u8>,
    provider_bstocklqdy: Seq<u8>,
    pool_busd: VaultAccountV,
    pool_bstock: VaultAccountV,
    pool_bstocklqdy: Seq<u8>,
    amm_record: Seq<u8>,
    busd_amount: u64,
    bstock_amount: u64,
    program_id: Seq<u8>,
)
    requires
        valid_record(amm_record),
        spec_unpack_amm(amm_record).is_initialized,
        spec_unpack_amm(amm_record).busd != pool_busd.identity
                || spec_unpack_amm(amm_record).bstock != pool_bstock.identity
                || spec_unpack_amm(amm_record).bstocklqdy != pool_bstocklqdy,
    ensures
        (spec_process_provide_liquidity(
            provider,
            provider_busd,
            provider_bstock,
            provider_bstocklqdy,
            pool_busd,
            pool_bstock,
            pool_bstocklqdy,
            amm_record,
            busd_amount,
            bstock_amount,
            program_id,
        ) is Err),
        provider.is_signer ==> spec_process_provide_liquidity(
            provider,
            provider_busd,
            provider_bstock,
            provider_bstocklqdy,
            pool_busd,
            pool_bstock,
            pool_bstocklqdy,
            amm_record,
            busd_amount,
            bstock_amount,
            program_id,
        ) == Err::<OpOutcomeV, AMMError>(AMMError::InvalidAccountData),
{
}

/// ClaimLiquidity never succeeds when a presented vault identity differs
/// from the stored one, whatever the vault balances hold; once the
/// caller signed, the error is exactly `InvalidAccountData`.
pub proof fn lemma_claim_rejects_vault_mismatch(
    provider: AccountViewV,
    provider_busd: Seq<u8>,
    provider_bstock: Seq<u8>,
    provider_bstocklqdy: Seq<u8>,
    pool_busd: VaultAccountV,
    pool_bstock: VaultAccountV,
    pool_bstocklqdy: Seq<u8>,
    amm_record: Seq<u8>,
    bstocklqdy_amount: u64,
    program_id: Seq<u8>,
)
    requires
        valid_record(amm_record),
        spec_unpack_amm(amm_record).is_initialized,
        spec_unpack_amm(amm_record).busd != pool_busd.identity
                || spec_unpack_amm(amm_record).bstock != pool_bstock.identity
                || spec_unpack_amm(amm_record).bstocklqdy != pool_bstocklqdy,
    ensures
        (spec_process_claim_liquidity(
            provider,
            provider_busd,
            provider_bstock,
            provider_bstocklqdy,
            pool_busd,
            pool_bstock,
            pool_bstocklqdy,
            amm_record,
            bstocklqdy_amount,
            program_id,
        ) is Err),
        provider.is_signer ==> spec_process_claim_liquidity(
            provider,
            provider_busd,
            provider_bstock,
            provider_bstocklqdy,
            pool_busd,
            pool_bstock,
            pool_bstocklqdy,
            amm_record,
            bstocklqdy_amount,
            program_id,
        ) == Err::<OpOutcomeV, AMMError>(AMMError::InvalidAccountData),
{
}

/// TradeAForB never succeeds when a presented vault identity differs from
/// the stored one, whatever the vault balances hold; once the caller
/// signed, the error is exactly `InvalidAccountData`.
pub proof fn lemma_trade_busd_rejects_vault_mismatch(
    user: AccountViewV,
    user_busd: Seq<u8>,
    user_bstock: Seq<u8>,
    pool_busd: VaultAccountV,
    pool_bstock: VaultAccountV,
    amm_record: Seq<u8>,
    busd_amount: u64,
    program_id: Seq<u8>,
)
    requires
        valid_record(amm_record),
        spec_unpack_amm(amm_record).is_initialized,
        spec_unpack_amm(amm_record).busd != pool_busd.identity
                || spec_unpack_amm(amm_record).bstock != pool_bstock.identity,
    ensures
        (spec_process_trade_busd(
            user,
            user_busd,
            user_bstock,
            pool_busd,
            pool_bstock,
            amm_record,
            busd_amount,
            program_id,
        ) is Err),
        user.is_signer ==> spec_process_trade_busd(
            user,
            user_busd,
            user_bstock,
            pool_busd,
            pool_bstock,
            amm_record,
            busd_amount,
            program_id,
        ) == Err::<OpOutcomeV, AMMError>(AMMError::InvalidAccountData),
{
}

/// TradeBForA never succeeds when a presented vault identity differs from
/// the stored one, whatever the vault balances hold; once the caller
/// signed, the error is exactly `InvalidAccountData`.
pub proof fn lemma_trade_bstock_rejects_vault_mismatch(
    user: AccountViewV,
    user_busd: Seq<u8>,
    user_bstock: Seq<u8>,
    pool_busd: VaultAccountV,
    pool_bstock: VaultAccountV,
    amm_record: Seq<u8>,
    bstock_amount: u64,
    program_id: Seq<u8>,
)
    requires
        valid_record(amm_record),
        spec_unpack_amm(amm_record).is_initialized,
        spec_unpack_amm(amm_record).busd != pool_busd.identity
                || spec_unpack_amm(amm_record).bstock != pool_bstock.identity,
    ensures
        (spec_process_trade_bstock(
            user,
            user_busd,
            user_bstock,
            pool_busd,
            pool_bstock,
            amm_record,
            bstock_amount,
            program_id,
        ) is Err),
        user.is_signer ==> spec_process_trade_bstock(
            user,
            user_busd,
            user_bstock,
            pool_busd,
            pool_bstock,
            amm_record,
            bstock_amount,
            program_id,
        ) == Err::<OpOutcomeV, AMMError>(AMMError::InvalidAccountData),
{
}

/// The pool processor.
pub struct Processor;

impl Processor {
    /// Initializes the pool over the given vaults.
    pub fn process_init_amm(
        initializer: &AccountView,
        busd_vault: &Identity,
        bstock_vault: &Identity,
        bstocklqdy_vault: &Identity,
        amm_record: &[u8],
        rent_exempt: bool,
        program_id: &Identity,
    ) -> (r: Result<InitOutcome, AMMError>)
        ensures
            match r {
                Ok(o) => spec_process_init_amm(
                    initializer@,
                    busd_vault@,
                    bstock_vault@,
                    bstocklqdy_vault@,
                    amm_record@,
                    rent_exempt,
                    program_id@,
                ) matches Ok(v) && o@ == v,
                Err(e) => spec_process_init_amm(
                    initializer@,
                    busd_vault@,
                    bstock_vault@,
                    bstocklqdy_vault@,
                    amm_record@,
                    rent_exempt,
                    program_id@,
                ) matches Err(e2) && e == e2,
            },
    {
        if !initializer.is_signer {
            return Err(AMMError::MissingRequiredSignature);
        }
        if !rent_exempt {
            return Err(AMMError::NotRentExempt);
        }
        let amm = AMM::unpack_from_slice(amm_record)?;
        if amm.is_initialized() {
            return Err(AMMError::AccountAlreadyInitialized);
        }
        let (authority, bump) = match derive_pool_authority(program_id) {
            Some(p) => p,
            None => {
                return Err(AMMError::AuthorityNotFound);
            },
        };
        let state = AMM {
            is_initialized: true,
            initializer_account_pubkey: initializer.identity.clone(),
            busd_token_account_pubkey: busd_vault.clone(),
            bstock_token_account_pubkey: bstock_vault.clone(),
            bstocklqdy_token_account_pubkey: bstocklqdy_vault.clone(),
        };
        let mut ops: Vec<LedgerOp> = Vec::new();
        ops.push(LedgerOp::SetOwner {
            account: busd_vault.clone(),
            new_owner: authority.clone(),
            current_owner: initializer.identity.clone(),
        });
        ops.push(LedgerOp::SetOwner {
            account: bstock_vault.clone(),
            new_owner: authority.clone(),
            current_owner: initializer.identity.clone(),
        });
        ops.push(LedgerOp::SetOwner {
            account: bstocklqdy_vault.clone(),
            new_owner: authority.clone(),
            current_owner: initializer.identity.clone(),
        });
        let outcome = InitOutcome { state, ops, authority, bump };
        proof {
            let expected = spec_process_init_amm(
                initializer@,
                busd_vault@,
                bstock_vault@,
                bstocklqdy_vault@,
                amm_record@,
                rent_exempt,
                program_id@,
            );
            assert(outcome@.ops =~= expected->Ok_0.ops);
            assert(outcome@ =~= expected->Ok_0);
        }
        Ok(outcome)
    }

    /// Deposits liquidity at the pool's current ratio.
    pub fn process_provide_liquidity(
        provider: &AccountView,
        provider_busd: &Identity,
        provider_bstock: &Identity,
        provider_bstocklqdy: &Identity,
        pool_busd: &VaultAccount,
        pool_bstock: &VaultAccount,
        pool_bstocklqdy: &Identity,
        amm_record: &[u8],
        busd_amount: u64,
        bstock_amount: u64,
        program_id: &Identity,
    ) -> (r: Result<OpOutcome, AMMError>)
        ensures
            match r {
                Ok(o) => spec_process_provide_liquidity(
                    provider@,
                    provider_busd@,
                    provider_bstock@,
                    provider_bstocklqdy@,
                    pool_busd@,
                    pool_bstock@,
                    pool_bstocklqdy@,
                    amm_record@,
                    busd_amount,
                    bstock_amount,
                    program_id@,
                ) matches Ok(v) && o@ == v,
                Err(e) => spec_process_provide_liquidity(
                    provider@,
                    provider_busd@,
                    provider_bstock@,
                    provider_bstocklqdy@,
                    pool_busd@,
                    pool_bstock@,
                    pool_bstocklqdy@,
                    amm_record@,
                    busd_amount,
                    bstock_amount,
                    program_id@,
                ) matches Err(e2) && e == e2,
            },
    {
        if !provider.is_signer {
            return Err(AMMError::MissingRequiredSignature);
        }
        let amm = AMM::unpack(amm_record)?;
        if !(amm.busd_token_account_pubkey == pool_busd.identity)
            || !(amm.bstock_token_account_pubkey == pool_bstock.identity)
            || !(amm.bstocklqdy_token_account_pubkey == *pool_bstocklqdy) {
            return Err(AMMError::InvalidAccountData);
        }
        let pool_busd_balance = token_account_balance(pool_busd.data.as_slice())?;
        let pool_bstock_balance = token_account_balance(pool_bstock.data.as_slice())?;
        if pool_bstock_balance == 0 || busd_amount == 0 {
            return Err(AMMError::DivisionByZero);
        }
        let amm_ratio = pool_busd_balance / pool_bstock_balance;
        let provider_ratio = bstock_amount / busd_amount;
        if amm_ratio != provider_ratio {
            return Err(AMMError::InvalidRatio);
        }
        let (authority, bump) = match derive_pool_authority(program_id) {
            Some(p) => p,
            None => {
                return Err(AMMError::AuthorityNotFound);
            },
        };
        let mut ops: Vec<LedgerOp> = Vec::new();
        ops.push(LedgerOp::Transfer {
            source: provider_busd.clone(),
            dest: pool_busd.identity.clone(),
            authority: provider.identity.clone(),
            amount: busd_amount,
            pool_signed: false,
        });
        ops.push(LedgerOp::Transfer {
            source: provider_bstock.clone(),
            dest: pool_bstock.identity.clone(),
            authority: provider.identity.clone(),
            amount: bstock_amount,
            pool_signed: false,
        });
        ops.push(LedgerOp::Transfer {
            source: pool_bstocklqdy.clone(),
            dest: provider_bstocklqdy.clone(),
            authority: authority.clone(),
            amount: busd_amount,
            pool_signed: true,
        });
        let outcome = OpOutcome { ops, authority, bump };
        proof {
            let expected = spec_process_provide_liquidity(
                provider@,
                provider_busd@,
                provider_bstock@,
                provider_bstocklqdy@,
                pool_busd@,
                pool_bstock@,
                pool_bstocklqdy@,
                amm_record@,
                busd_amount,
                bstock_amount,
                program_id@,
            );
            assert(outcome@.ops =~= expected->Ok_0.ops);
            assert(outcome@ =~= expected->Ok_0);
        }
        Ok(outcome)
    }

    /// Redeems receipt tokens for pool assets at the pool's current ratio.
    pub fn process_claim_liquidity(
        provider: &AccountView,
        provider_busd: &Identity,
        provider_bstock: &Identity,
        provider_bstocklqdy: &Identity,
        pool_busd: &VaultAccount,
        pool_bstock: &VaultAccount,
        pool_bstocklqdy: &Identity,
        amm_record: &[u8],
        bstocklqdy_amount: u64,
        program_id: &Identity,
    ) -> (r: Result<OpOutcome, AMMError>)
        ensures
            match r {
                Ok(o) => spec_process_claim_liquidity(
                    provider@,
                    provider_busd@,
                    provider_bstock@,
                    provider_bstocklqdy@,
                    pool_busd@,
                    pool_bstock@,
                    pool_bstocklqdy@,
                    amm_record@,
                    bstocklqdy_amount,
                    program_id@,
                ) matches Ok(v) && o@ == v,
                Err(e) => spec_process_claim_liquidity(
                    provider@,
                    provider_busd@,
                    provider_bstock@,
                    provider_bstocklqdy@,
                    pool_busd@,
                    pool_bstock@,
                    pool_bstocklqdy@,
                    amm_record@,
                    bstocklqdy_amount,
                    program_id@,
                ) matches Err(e2) && e == e2,
            },
    {
        if !provider.is_signer {
            return Err(AMMError::MissingRequiredSignature);
        }
        let amm = AMM::unpack(amm_record)?;
        if !(amm.busd_token_account_pubkey == pool_busd.identity)
            || !(amm.bstock_token_account_pubkey == pool_bstock.identity)
            || !(amm.bstocklqdy_token_account_pubkey == *pool_bstocklqdy) {
            return Err(AMMError::InvalidAccountData);
        }
        let pool_busd_balance = token_account_balance(pool_busd.data.as_slice())?;
        let pool_bstock_balance = token_account_balance(pool_bstock.data.as_slice())?;
        if pool_bstock_balance == 0 {
            return Err(AMMError::DivisionByZero);
        }
        let amm_ratio = pool_busd_balance / pool_bstock_balance;
        let busd_amount = bstocklqdy_amount;
        let bstock_amount = match busd_amount.checked_mul(amm_ratio) {
            Some(v) => v,
            None => {
                return Err(AMMError::AmountOverflow);
            },
        };
        let (authority, bump) = match derive_pool_authority(program_id) {
            Some(p) => p,
            None => {
                return Err(AMMError::AuthorityNotFound);
            },
        };
        let mut ops: Vec<LedgerOp> = Vec::new();
        ops.push(LedgerOp::Transfer {
            source: provider_bstocklqdy.clone(),
            dest: pool_bstocklqdy.clone(),
            authority: provider.identity.clone(),
            amount: bstocklqdy_amount,
            pool_signed: false,
        });
        ops.push(LedgerOp::Transfer {
            source: pool_busd.identity.clone(),
            dest: provider_busd.clone(),
            authority: authority.clone(),
            amount: busd_amount,
            pool_signed: true,
        });
        ops.push(LedgerOp::Transfer {
            source: pool_bstock.identity.clone(),
            dest: provider_bstock.clone(),
            authority: authority.clone(),
            amount: bstock_amount,
            pool_signed: true,
        });
        let outcome = OpOutcome { ops, authority, bump };
        proof {
            let expected = spec_process_claim_liquidity(
                provider@,
                provider_busd@,
                provider_bstock@,
                provider_bstocklqdy@,
                pool_busd@,
                pool_bstock@,
                pool_bstocklqdy@,
                amm_record@,
                bstocklqdy_amount,
                program_id@,
            );
            assert(outcome@.ops =~= expected->Ok_0.ops);
            assert(outcome@ =~= expected->Ok_0);
        }
        Ok(outcome)
    }

    /// Trades asset A for asset B at the pool's current ratio.
    pub fn process_trade_busd(
        user: &AccountView,
        user_busd: &Identity,
        user_bstock: &Identity,
        pool_busd: &VaultAccount,
        pool_bstock: &VaultAccount,
        amm_record: &[u8],
        busd_amount: u64,
        program_id: &Identity,
    ) -> (r: Result<OpOutcome, AMMError>)
        ensures
            match r {
                Ok(o) => spec_process_trade_busd(
                    user@,
                    user_busd@,
                    user_bstock@,
                    pool_busd@,
                    pool_bstock@,
                    amm_record@,
                    busd_amount,
                    program_id@,
                ) matches Ok(v) && o@ == v,
                Err(e) => spec_process_trade_busd(
                    user@,
                    user_busd@,
                    user_bstock@,
                    pool_busd@,
                    pool_bstock@,
                    amm_record@,
                    busd_amount,
                    program_id@,
                ) matches Err(e2) && e == e2,
            },
    {
        if !user.is_signer {
            return Err(AMMError::MissingRequiredSignature);
        }
        let amm = AMM::unpack(amm_record)?;
        if !(amm.busd_token_account_pubkey == pool_busd.identity)
            || !(amm.bstock_token_account_pubkey == pool_bstock.identity) {
            return Err(AMMError::InvalidAccountData);
        }
        let pool_busd_balance = token_account_balance(pool_busd.data.as_slice())?;
        let pool_bstock_balance = token_account_balance(pool_bstock.data.as_slice())?;
        if pool_bstock_balance == 0 {
            return Err(AMMError::DivisionByZero);
        }
        let amm_ratio = pool_busd_balance / pool_bstock_balance;
        let bstock_amount = match busd_amount.checked_mul(amm_ratio) {
            Some(v) => v,
            None => {
                return Err(AMMError::AmountOverflow);
            },
        };
        let (authority, bump) = match derive_pool_authority(program_id) {
            Some(p) => p,
            None => {
                return Err(AMMError::AuthorityNotFound);
            },
        };
        let mut ops: Vec<LedgerOp> = Vec::new();
        ops.push(LedgerOp::Transfer {
            source: user_busd.clone(),
            dest: pool_busd.identity.clone(),
            authority: user.identity.clone(),
            amount: busd_amount,
            pool_signed: false,
        });
        ops.push(LedgerOp::Transfer {
            source: pool_bstock.identity.clone(),
            dest: user_bstock.clone(),
            authority: authority.clone(),
            amount: bstock_amount,
            pool_signed: true,
        });
        let outcome = OpOutcome { ops, authority, bump };
        proof {
            let expected = spec_process_trade_busd(
                user@,
                user_busd@,
                user_bstock@,
                pool_busd@,
                pool_bstock@,
                amm_record@,
                busd_amount,
                program_id@,
            );
            assert(outcome@.ops =~= expected->Ok_0.ops);
            assert(outcome@ =~= expected->Ok_0);
        }
        Ok(outcome)
    }

    /// Trades asset B for asset A, the mirror of `process_trade_busd`.
    pub fn process_trade_bstock(
        user: &AccountView,
        user_busd: &Identity,
        user_bstock: &Identity,
        pool_busd: &VaultAccount,
        pool_bstock: &VaultAccount,
        amm_record: &[u8],
        bstock_amount: u64,
        program_id: &Identity,
    ) -> (r: Result<OpOutcome, AMMError>)
        ensures
            match r {
                Ok(o) => spec_process_trade_bstock(
                    user@,
                    user_busd@,
                    user_bstock@,
                    pool_busd@,
                    pool_bstock@,
                    amm_record@,
                    bstock_amount,
                    program_id@,
                ) matches Ok(v) && o@ == v,
                Err(e) => spec_process_trade_bstock(
                    user@,
                    user_busd@,
                    user_bstock@,
                    pool_busd@,
                    pool_bstock@,
                    amm_record@,
                    bstock_amount,
                    program_id@,
                ) matches Err(e2) && e == e2,
            },
    {
        if !user.is_signer {
            return Err(AMMError::MissingRequiredSignature);
        }
        let amm = AMM::unpack(amm_record)?;
        if !(amm.busd_token_account_pubkey == pool_busd.identity)
            || !(amm.bstock_token_account_pubkey == pool_bstock.identity) {
            return Err(AMMError::InvalidAccountData);
        }
        let pool_busd_balance = token_account_balance(pool_busd.data.as_slice())?;
        let pool_bstock_balance = token_account_balance(pool_bstock.data.as_slice())?;
        if pool_busd_balance == 0 {
            return Err(AMMError::DivisionByZero);
        }
        let amm_ratio = pool_bstock_balance / pool_busd_balance;
        let busd_amount = match bstock_amount.checked_mul(amm_ratio) {
            Some(v) => v,
            None => {
                return Err(AMMError::AmountOverflow);
            },
        };
        let (authority, bump) = match derive_pool_authority(program_id) {
            Some(p) => p,
            None => {
                return Err(AMMError::AuthorityNotFound);
            },
        };
        let mut ops: Vec<LedgerOp> = Vec::new();
        ops.push(LedgerOp::Transfer {
            source: user_bstock.clone(),
            dest: pool_bstock.identity.clone(),
            authority: user.identity.clone(),
            amount: bstock_amount,
            pool_signed: false,
        });
        ops.push(LedgerOp::Transfer {
            source: pool_busd.identity.clone(),
            dest: user_busd.clone(),
            authority: authority.clone(),
            amount: busd_amount,
            pool_signed: true,
        });
        let outcome = OpOutcome { ops, authority, bump };
        proof {
            let expected = spec_process_trade_bstock(
                user@,
                user_busd@,
                user_bstock@,
                pool_busd@,
                pool_bstock@,
                amm_record@,
                bstock_amount,
                program_id@,
            );
            assert(outcome@.ops =~= expected->Ok_0.ops);
            assert(outcome@ =~= expected->Ok_0);
        }
        Ok(outcome)
    }

    /// Closes the pool and returns its reclaimable resources to the
    /// initializer.
    pub fn process_close_amm(
        initializer: &AccountView,
        pool_busd: &Identity,
        pool_bstock: &Identity,
        pool_bstocklqdy: &Identity,
        amm_record: &[u8],
        initializer_lamports: u64,
        pda_lamports: u64,
        program_id: &Identity,
    ) -> (r: Result<CloseOutcome, AMMError>)
        ensures
            match r {
                Ok(o) => spec_process_close_amm(
                    initializer@,
                    pool_busd@,
                    pool_bstock@,
                    pool_bstocklqdy@,
                    amm_record@,
                    initializer_lamports,
                    pda_lamports,
                    program_id@,
                ) matches Ok(v) && o@ == v,
                Err(e) => spec_process_close_amm(
                    initializer@,
                    pool_busd@,
                    pool_bstock@,
                    pool_bstocklqdy@,
                    amm_record@,
                    initializer_lamports,
                    pda_lamports,
                    program_id@,
                ) matches Err(e2) && e == e2,
            },
    {
        if !initializer.is_signer {
            return Err(AMMError::MissingRequiredSignature);
        }
        let amm = AMM::unpack(amm_record)?;
        if !(amm.initializer_account_pubkey == initializer.identity) {
            return Err(AMMError::InvalidInitializer);
        }
        let new_initializer_lamports = match initializer_lamports.checked_add(pda_lamports) {
            Some(v) => v,
            None => {
                return Err(AMMError::AmountOverflow);
            },
        };
        let (authority, bump) = match derive_pool_authority(program_id) {
            Some(p) => p,
            None => {
                return Err(AMMError::AuthorityNotFound);
            },
        };
        let mut ops: Vec<LedgerOp> = Vec::new();
        ops.push(LedgerOp::CloseAccount {
            account: pool_busd.clone(),
            dest: initializer.identity.clone(),
        });
        ops.push(LedgerOp::CloseAccount {
            account: pool_bstock.clone(),
            dest: initializer.identity.clone(),
        });
        ops.push(LedgerOp::CloseAccount {
            account: pool_bstocklqdy.clone(),
            dest: initializer.identity.clone(),
        });
        let outcome = CloseOutcome { ops, new_initializer_lamports, authority, bump };
        proof {
            let expected = spec_process_close_amm(
                initializer@,
                pool_busd@,
                pool_bstock@,
                pool_bstocklqdy@,
                amm_record@,
                initializer_lamports,
                pda_lamports,
                program_id@,
            );
            assert(outcome@.ops =~= expected->Ok_0.ops);
            assert(outcome@ =~= expected->Ok_0);
        }
        Ok(outcome)
    }
}

} // verus!
