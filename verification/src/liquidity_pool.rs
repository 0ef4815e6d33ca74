//! The liquidity pool: one `Pool` record per pool. Deposits of the base
//! asset mint share tokens at a fixed 1:1 rate; redeeming shares burns
//! them and returns the same number of base units.

use vstd::prelude::*;

use crate::ledger::{AccountId, AssetId, Authorizer, LedgerInstruction, MAX_FEE_BASIS_POINTS};

verus! {

/// Why a pool operation was refused. The check runs before any ledger
/// instruction is produced, so a refused operation changes nothing.
#[derive(Clone, Copy, Debug, PartialEq, Eq, Structural)]
pub enum ErrorCode {
    /// The pool's accounted deposits cannot cover the requested shares.
    InsufficientLiquidity,
}

/// A successful deposit: the two instructions to execute, in order, and
/// the event to publish.
#[derive(Clone, Copy, Debug, PartialEq, Eq, Structural)]
pub struct ProvideOutcome {
    /// Base-asset transfer from the depositor to the pool vault, signed by
    /// the depositor; executed first.
    pub deposit: LedgerInstruction,
    /// Mint of the same number of share tokens to the depositor, signed by
    /// the record's derived authority; executed second.
    pub mint_shares: LedgerInstruction,
    /// Notification describing the completed deposit.
    pub event: LiquidityProvidedEvent,
}

/// A completed deposit, published to observers.
#[derive(Clone, Copy, Debug, PartialEq, Eq, Structural)]
pub struct LiquidityProvidedEvent {
    pub user: AccountId,
    pub usdc_amount: u64,
    pub lp_tokens_minted: u64,
}

/// A successful withdrawal: the two instructions to execute, in order, and
/// the event to publish.
#[derive(Clone, Copy, Debug, PartialEq, Eq, Structural)]
pub struct WithdrawOutcome {
    /// Burn of the redeemed share tokens, signed by the holder; it must be
    /// confirmed before the compensating transfer is issued, and if the
    /// transfer then fails the host must roll the whole operation back
    /// rather than leave shares burned without a payout.
    pub burn_shares: LedgerInstruction,
    /// Base-asset transfer from the pool vault back to the holder, signed
    /// by the record's derived authority; executed second.
    pub refund: LedgerInstruction,
    /// Notification describing the completed withdrawal.
    pub event: LiquidityWithdrawnEvent,
}

/// A completed withdrawal, published to observers.
#[derive(Clone, Copy, Debug, PartialEq, Eq, Structural)]
pub struct LiquidityWithdrawnEvent {
    pub user: AccountId,
    pub lp_tokens_burned: u64,
    pub usdc_returned: u64,
}

/// The record after a deposit of `usdc_amount` has been confirmed.
pub open spec fn provided(p: Pool, usdc_amount: u64) -> Pool
    recommends
        p.total_liquidity + usdc_amount <= u64::MAX,
{
    Pool {
        authority: p.authority,
        usdc_mint: p.usdc_mint,
        lp_token_mint: p.lp_token_mint,
        total_liquidity: (p.total_liquidity + usdc_amount) as u64,
    }
}

/// Whether the pool's accounted deposits cover a redemption of
/// `lp_token_amount` shares at the fixed 1:1 rate.
pub open spec fn withdraw_allowed(p: Pool, lp_token_amount: u64) -> bool {
    lp_token_amount <= p.total_liquidity
}

/// The record after a withdrawal of `lp_token_amount` shares has been
/// confirmed.
pub open spec fn withdrawn(p: Pool, lp_token_amount: u64) -> Pool
    recommends
        withdraw_allowed(p, lp_token_amount),
{
    Pool {
        authority: p.authority,
        usdc_mint: p.usdc_mint,
        lp_token_mint: p.lp_token_mint,
        total_liquidity: (p.total_liquidity - lp_token_amount) as u64,
    }
}

/// The persistent record for one liquidity pool.
#[derive(Clone, Copy, Debug, PartialEq, Eq, Structural)]
pub struct Pool {
    /// Identity permitted to perform administrative actions; immutable.
    pub authority: AccountId,
    /// The deposit (base) asset; immutable.
    pub usdc_mint: AssetId,
    /// The share asset minted 1:1 against deposits; immutable.
    pub lp_token_mint: AssetId,
    /// The pool's accounted deposits.
    pub total_liquidity: u64,
}

impl Pool {
    /// Creates the record for a new pool and asks the ledger for a fresh
    /// nine-decimal share asset controlled by the record, with the given
    /// transfer-fee rate forwarded opaquely.
    pub fn initialize(
        authority: AccountId,
        usdc_mint: AssetId,
        lp_token_mint: AssetId,
        fee_basis_points: u16,
    ) -> (r: (Pool, LedgerInstruction))
        requires
            fee_basis_points <= MAX_FEE_BASIS_POINTS,
        ensures
            r.0.authority == authority,
            r.0.usdc_mint == usdc_mint,
            r.0.lp_token_mint == lp_token_mint,
            r.0.total_liquidity == 0,
            r.1 == (LedgerInstruction::CreateAsset {
                decimals: 9u8,
                transfer_fee_basis_points: fee_basis_points,
            }),
    {
        let pool = Pool { authority, usdc_mint, lp_token_mint, total_liquidity: 0 };
        let instr = LedgerInstruction::CreateAsset {
            decimals: 9,
            transfer_fee_basis_points: fee_basis_points,
        };
        (pool, instr)
    }

    /// Accepts a deposit of the base asset and mints share tokens to the
    /// depositor at the fixed 1:1 rate. A zero-amount deposit is a
    /// degenerate no-op that still succeeds and produces its event. The
    /// host must confirm both instructions before committing the record
    /// update.
    pub fn provide_liquidity(
        &mut self,
        usdc_amount: u64,
        user: AccountId,
        user_usdc_account: AccountId,
        pool_usdc_account: AccountId,
        user_lp_token_account: AccountId,
    ) -> (out: ProvideOutcome)
        requires
            old(self).total_liquidity + usdc_amount <= u64::MAX,
        ensures
            *final(self) == provided(*old(self), usdc_amount),
            final(self).total_liquidity == old(self).total_liquidity + usdc_amount,
            out.deposit == (LedgerInstruction::Transfer {
                from: user_usdc_account,
                to: pool_usdc_account,
                amount: usdc_amount,
                authority: Authorizer::Caller(user),
            }),
            out.mint_shares == (LedgerInstruction::Mint {
                to: user_lp_token_account,
                amount: usdc_amount,
                authority: Authorizer::Record,
            }),
            out.event == (LiquidityProvidedEvent {
                user,
                usdc_amount,
                lp_tokens_minted: usdc_amount,
            }),
    {
        let deposit = LedgerInstruction::Transfer {
            from: user_usdc_account,
            to: pool_usdc_account,
            amount: usdc_amount,
            authority: Authorizer::Caller(user),
        };
        let lp_tokens_to_mint: u64 = usdc_amount;
        let mint_shares = LedgerInstruction::Mint {
            to: user_lp_token_account,
            amount: lp_tokens_to_mint,
            authority: Authorizer::Record,
        };
        self.total_liquidity = self.total_liquidity + usdc_amount;
        let event = LiquidityProvidedEvent {
            user,
            usdc_amount,
            lp_tokens_minted: lp_tokens_to_mint,
        };
        ProvideOutcome { deposit, mint_shares, event }
    }

    /// Redeems share tokens for the same number of base units: checks the
    /// pool's accounted deposits, and returns the burn of the shares
    /// followed by the compensating transfer from the pool vault. The
    /// check runs before any instruction is produced, so a refused call
    /// leaves the record untouched.
    pub fn withdraw_liquidity(
        &mut self,
        lp_token_amount: u64,
        user: AccountId,
        user_usdc_account: AccountId,
        pool_usdc_account: AccountId,
        user_lp_token_account: AccountId,
    ) -> (r: Result<WithdrawOutcome, ErrorCode>)
        ensures
            r is Ok <==> withdraw_allowed(*old(self), lp_token_amount),
            r matches Ok(out) ==> {
                &&& *final(self) == withdrawn(*old(self), lp_token_amount)
                &&& final(self).total_liquidity == old(self).total_liquidity - lp_token_amount
                &&& out.burn_shares == (LedgerInstruction::Burn {
                    from: user_lp_token_account,
                    amount: lp_token_amount,
                    authority: Authorizer::Caller(user),
                })
                &&& out.refund == (LedgerInstruction::Transfer {
                    from: pool_usdc_account,
                    to: user_usdc_account,
                    amount: lp_token_amount,
                    authority: Authorizer::Record,
                })
                &&& out.event == (LiquidityWithdrawnEvent {
                    user,
                    lp_tokens_burned: lp_token_amount,
                    usdc_returned: lp_token_amount,
                })
            },
            r is Err ==> *final(self) == *old(self),
            r matches Err(e) ==> e == ErrorCode::InsufficientLiquidity,
    {
        let usdc_to_return: u64 = lp_token_amount;
        if self.total_liquidity < usdc_to_return {
            return Err(ErrorCode::InsufficientLiquidity);
        }
        let burn_shares = LedgerInstruction::Burn {
            from: user_lp_token_account,
            amount: lp_token_amount,
            authority: Authorizer::Caller(user),
        };
        let refund = LedgerInstruction::Transfer {
            from: pool_usdc_account,
            to: user_usdc_account,
            amount: usdc_to_return,
            authority: Authorizer::Record,
        };
        self.total_liquidity = self.total_liquidity - usdc_to_return;
        let event = LiquidityWithdrawnEvent {
            user,
            lp_tokens_burned: lp_token_amount,
            usdc_returned: usdc_to_return,
        };
        Ok(WithdrawOutcome { burn_shares, refund, event })
    }
}

/// Providing liquidity and immediately withdrawing the same number of
/// shares is a round trip: the withdrawal is permitted, returns exactly
/// the deposited amount, and restores the record to its pre-deposit value.
pub proof fn lemma_liquidity_round_trip(p: Pool, amount: u64)
    requires
        p.total_liquidity + amount <= u64::MAX,
    ensures
        withdraw_allowed(provided(p, amount), amount),
        withdrawn(provided(p, amount), amount) == p,
{
}

} // verus!
