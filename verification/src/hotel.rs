//! The revenue-unit registry: one `Hotel` record per tokenized inventory
//! pool. Rooms are the inventory units; each successfully issued room is
//! represented by exactly one claim token minted by the external ledger.
//! Booking revenue accrues on the record and is paid out pro rata to claim
//! token holders by floor division, the remainder staying on the record.

use vstd::prelude::*;
use vstd::arithmetic::div_mod::{
    lemma_basic_div, lemma_div_non_zero, lemma_div_pos_is_pos, lemma_fundamental_div_mod,
    lemma_mod_division_less_than_divisor,
};
use vstd::arithmetic::mul::{
    lemma_mul_by_zero_is_zero, lemma_mul_inequality, lemma_mul_is_commutative,
    lemma_mul_nonnegative,
};

use crate::ledger::{AccountId, Authorizer, LedgerInstruction, MAX_FEE_BASIS_POINTS};

verus! {

/// Why a registry operation was refused. Every check runs before any
/// ledger instruction is produced, so a refused operation changes nothing.
#[derive(Clone, Copy, Debug, PartialEq, Eq, Structural)]
pub enum ErrorCode {
    /// A hotel cannot be created with zero rooms.
    InvalidConfiguration,
    /// The room number lies outside the hotel's room range.
    InvalidRoomNumber,
    /// Every room already has its claim token minted.
    AllRoomsMinted,
    /// There is no accrued revenue to distribute.
    NoProfitToDistribute,
    /// No claim tokens are outstanding, so no pro-rata share exists.
    NoClaimTokensOutstanding,
}

/// The persistent registry record for one hotel.
#[derive(Clone, Copy, Debug, PartialEq, Eq, Structural)]
pub struct Hotel {
    /// Identity permitted to perform administrative actions; immutable.
    pub authority: AccountId,
    /// Total number of rooms ever issuable; immutable after creation.
    pub room_count: u64,
    /// Rooms for which a claim token has been minted.
    pub rooms_minted: u64,
    /// Revenue collected but not yet distributed.
    pub total_profit: u64,
}

/// A successful booking: the payment to execute and the event to publish.
#[derive(Clone, Copy, Debug, PartialEq, Eq, Structural)]
pub struct BookingOutcome {
    /// Settlement-asset transfer from the tourist to the hotel vault,
    /// signed by the tourist; confirmed before the record is updated.
    pub payment: LedgerInstruction,
    /// Notification describing the completed booking.
    pub event: BookingEvent,
}

/// A completed booking, published to observers.
#[derive(Clone, Copy, Debug, PartialEq, Eq, Structural)]
pub struct BookingEvent {
    pub room_number: u64,
    pub tourist: AccountId,
    pub price: u64,
}

/// A successful distribution: the payout to execute and the event to
/// publish.
#[derive(Clone, Copy, Debug, PartialEq, Eq, Structural)]
pub struct DistributionOutcome {
    /// Exactly what the record's accrued revenue decreased by.
    pub paid_amount: u64,
    /// Settlement-asset transfer from the hotel vault to the user, signed
    /// by the record's own derived authority.
    pub payout: LedgerInstruction,
    /// Notification describing the completed distribution.
    pub event: ProfitDistributionEvent,
}

/// A completed distribution, published to observers.
#[derive(Clone, Copy, Debug, PartialEq, Eq, Structural)]
pub struct ProfitDistributionEvent {
    pub user: AccountId,
    pub amount: u64,
}

/// Whether a claim token may be issued for `room_number`: the number must
/// lie in the hotel's range and some room must still be without a token.
/// The range check is inclusive of `room_count`, as the registry has
/// always read it.
pub open spec fn mint_allowed(h: Hotel, room_number: u64) -> bool {
    room_number <= h.room_count && h.rooms_minted < h.room_count
}

/// The record after one claim token has been issued.
pub open spec fn minted_once(h: Hotel) -> Hotel
    recommends
        h.rooms_minted < u64::MAX,
{
    Hotel {
        authority: h.authority,
        room_count: h.room_count,
        rooms_minted: (h.rooms_minted + 1) as u64,
        total_profit: h.total_profit,
    }
}

/// The record after a booking of `price` has been confirmed.
pub open spec fn booked(h: Hotel, price: u64) -> Hotel
    recommends
        h.total_profit + price <= u64::MAX,
{
    Hotel {
        authority: h.authority,
        room_count: h.room_count,
        rooms_minted: h.rooms_minted,
        total_profit: (h.total_profit + price) as u64,
    }
}

/// What one distribution pays a holder: the floor of revenue per token,
/// times the holder's balance. The remainder of the division stays on the
/// record, by design: it bounds the round's total payout by the accrued
/// revenue, and later rounds can still collect it.
pub open spec fn payout_of(profit: u64, supply: u64, balance: u64) -> int
    recommends
        supply > 0,
{
    (profit as int / supply as int) * (balance as int)
}

/// The record after one distribution against the given fresh ledger
/// readings of supply and holder balance.
pub open spec fn distributed(h: Hotel, supply: u64, balance: u64) -> Hotel
    recommends
        supply > 0,
        balance <= supply,
{
    Hotel {
        authority: h.authority,
        room_count: h.room_count,
        rooms_minted: h.rooms_minted,
        total_profit: (h.total_profit - payout_of(h.total_profit, supply, balance)) as u64,
    }
}

/// A distribution's payout is never negative and never exceeds the
/// accrued revenue; while the revenue is below the supply the payout is
/// zero, and while it is at least the supply any holder of at least one
/// token is paid something.
pub proof fn lemma_payout_bounds(profit: u64, supply: u64, balance: u64)
    requires
        supply > 0,
        balance <= supply,
    ensures
        0 <= payout_of(profit, supply, balance) <= profit,
        profit < supply ==> payout_of(profit, supply, balance) == 0,
        profit >= supply && balance >= 1 ==> 1 <= payout_of(profit, supply, balance),
{
    let p = profit as int;
    let s = supply as int;
    let b = balance as int;
    let q = p / s;
    lemma_div_pos_is_pos(p, s);
    lemma_mul_nonnegative(q, b);
    lemma_mul_inequality(b, s, q);
    lemma_mul_is_commutative(q, b);
    lemma_mul_is_commutative(q, s);
    lemma_fundamental_div_mod(p, s);
    lemma_mod_division_less_than_divisor(p, s);
    if p < s {
        lemma_basic_div(p, s);
        lemma_mul_by_zero_is_zero(b);
    }
    if p >= s && b >= 1 {
        lemma_div_non_zero(p, s);
        lemma_mul_inequality(1, q, b);
        lemma_mul_is_commutative(b, q);
    }
}

impl Hotel {
    /// The record's invariant: no more claim tokens than rooms.
    pub open spec fn wf(self) -> bool {
        self.rooms_minted <= self.room_count
    }

    /// Creates the registry record for a new hotel and asks the ledger for
    /// a fresh zero-decimal claim asset controlled by the record, with the
    /// given transfer-fee rate forwarded opaquely.
    pub fn initialize(
        authority: AccountId,
        room_count: u64,
        transfer_fee_basis_points: u16,
    ) -> (r: Result<(Hotel, LedgerInstruction), ErrorCode>)
        requires
            transfer_fee_basis_points <= MAX_FEE_BASIS_POINTS,
        ensures
            r is Ok <==> room_count > 0,
            r matches Ok((hotel, instr)) ==> {
                &&& hotel.authority == authority
                &&& hotel.room_count == room_count
                &&& hotel.rooms_minted == 0
                &&& hotel.total_profit == 0
                &&& hotel.wf()
                &&& instr == (LedgerInstruction::CreateAsset {
                    decimals: 0u8,
                    transfer_fee_basis_points,
                })
            },
            r matches Err(e) ==> e == ErrorCode::InvalidConfiguration,
    {
        if room_count == 0 {
            return Err(ErrorCode::InvalidConfiguration);
        }
        let hotel = Hotel { authority, room_count, rooms_minted: 0, total_profit: 0 };
        let instr = LedgerInstruction::CreateAsset { decimals: 0, transfer_fee_basis_points };
        Ok((hotel, instr))
    }

    /// Issues the claim token for one room: checks the room number and the
    /// remaining supply, counts the room as minted, and returns the mint
    /// of exactly one token to the buyer's holding account, signed by the
    /// record's derived authority. Both checks run before the instruction
    /// is produced, so a refused call leaves the record untouched.
    pub fn mint_room_token(&mut self, room_number: u64, user_room_ata: AccountId) -> (r: Result<
        LedgerInstruction,
        ErrorCode,
    >)
        requires
            old(self).wf(),
        ensures
            final(self).wf(),
            r is Ok <==> mint_allowed(*old(self), room_number),
            r matches Ok(instr) ==> {
                &&& *final(self) == minted_once(*old(self))
                &&& instr == (LedgerInstruction::Mint {
                    to: user_room_ata,
                    amount: 1u64,
                    authority: Authorizer::Record,
                })
            },
            r is Err ==> *final(self) == *old(self),
            r matches Err(e) ==> e == (if room_number > old(self).room_count {
                ErrorCode::InvalidRoomNumber
            } else {
                ErrorCode::AllRoomsMinted
            }),
    {
        if room_number > self.room_count {
            return Err(ErrorCode::InvalidRoomNumber);
        }
        if self.rooms_minted >= self.room_count {
            return Err(ErrorCode::AllRoomsMinted);
        }
        self.rooms_minted = self.rooms_minted + 1;
        Ok(LedgerInstruction::Mint { to: user_room_ata, amount: 1, authority: Authorizer::Record })
    }

    /// Records a booking: checks the room number, and returns the payment
    /// transfer together with the booking event. The host must confirm the
    /// transfer before committing the record update; on any failure the
    /// accrued revenue stays as it was. A zero-price booking succeeds,
    /// leaves the revenue unchanged, and still produces its event.
    pub fn book_room(
        &mut self,
        room_number: u64,
        booking_price: u64,
        tourist: AccountId,
        tourist_usdc_account: AccountId,
        hotel_usdc_vault: AccountId,
    ) -> (r: Result<BookingOutcome, ErrorCode>)
        requires
            old(self).wf(),
            old(self).total_profit + booking_price <= u64::MAX,
        ensures
            final(self).wf(),
            r is Ok <==> room_number <= old(self).room_count,
            r matches Ok(out) ==> {
                &&& *final(self) == booked(*old(self), booking_price)
                &&& final(self).total_profit == old(self).total_profit + booking_price
                &&& out.payment == (LedgerInstruction::Transfer {
                    from: tourist_usdc_account,
                    to: hotel_usdc_vault,
                    amount: booking_price,
                    authority: Authorizer::Caller(tourist),
                })
                &&& out.event == (BookingEvent { room_number, tourist, price: booking_price })
            },
            r is Err ==> *final(self) == *old(self),
            r matches Err(e) ==> e == ErrorCode::InvalidRoomNumber,
    {
        if room_number > self.room_count {
            return Err(ErrorCode::InvalidRoomNumber);
        }
        let payment = LedgerInstruction::Transfer {
            from: tourist_usdc_account,
            to: hotel_usdc_vault,
            amount: booking_price,
            authority: Authorizer::Caller(tourist),
        };
        self.total_profit = self.total_profit + booking_price;
        let event = BookingEvent { room_number, tourist, price: booking_price };
        Ok(BookingOutcome { payment, event })
    }

    /// Distributes accrued revenue pro rata to one claim-token holder.
    ///
    /// `total_supply` and `user_room_balance` must be read from the ledger
    /// immediately before the call — supply and balances drift between
    /// invocations and are never cached on the record. The payout is the
    /// floor of revenue per token times the holder's balance; it never
    /// exceeds the accrued revenue, which decreases by exactly the amount
    /// paid. A zero supply is refused rather than divided by.
    pub fn distribute_profits(
        &mut self,
        total_supply: u64,
        user: AccountId,
        user_room_balance: u64,
        user_usdc_account: AccountId,
        hotel_usdc_vault: AccountId,
    ) -> (r: Result<DistributionOutcome, ErrorCode>)
        requires
            old(self).wf(),
            // the ledger never reports a holder's balance above the supply
            user_room_balance <= total_supply,
        ensures
            final(self).wf(),
            r is Ok <==> old(self).total_profit > 0 && total_supply > 0,
            r matches Ok(out) ==> {
                &&& out.paid_amount == payout_of(
                    old(self).total_profit,
                    total_supply,
                    user_room_balance,
                )
                &&& out.paid_amount <= old(self).total_profit
                &&& *final(self) == distributed(*old(self), total_supply, user_room_balance)
                &&& final(self).total_profit == old(self).total_profit - out.paid_amount
                &&& out.payout == (LedgerInstruction::Transfer {
                    from: hotel_usdc_vault,
                    to: user_usdc_account,
                    amount: out.paid_amount,
                    authority: Authorizer::Record,
                })
                &&& out.event == (ProfitDistributionEvent { user, amount: out.paid_amount })
            },
            r is Err ==> *final(self) == *old(self),
            r matches Err(e) ==> e == (if old(self).total_profit == 0 {
                ErrorCode::NoProfitToDistribute
            } else {
                ErrorCode::NoClaimTokensOutstanding
            }),
    {
        if self.total_profit == 0 {
            return Err(ErrorCode::NoProfitToDistribute);
        }
        if total_supply == 0 {
            return Err(ErrorCode::NoClaimTokensOutstanding);
        }
        proof {
            lemma_payout_bounds(self.total_profit, total_supply, user_room_balance);
        }
        let profit_per_token: u64 = self.total_profit / total_supply;
        let paid_amount: u64 = profit_per_token * user_room_balance;
        let payout = LedgerInstruction::Transfer {
            from: hotel_usdc_vault,
            to: user_usdc_account,
            amount: paid_amount,
            authority: Authorizer::Record,
        };
        self.total_profit = self.total_profit - paid_amount;
        let event = ProfitDistributionEvent { user, amount: paid_amount };
        Ok(DistributionOutcome { paid_amount, payout, event })
    }
}

/// The record after `n` claim tokens have been issued one by one.
pub open spec fn minted_n(h: Hotel, n: nat) -> Hotel
    decreases n,
{
    if n == 0 {
        h
    } else {
        minted_once(minted_n(h, (n - 1) as nat))
    }
}

/// Issuing claim tokens one by one only counts: after `n` issuances the
/// minted count has grown by `n` and every other field is as it was.
pub proof fn lemma_minted_n_fields(h: Hotel, n: nat)
    requires
        h.rooms_minted + n <= u64::MAX,
    ensures
        minted_n(h, n).rooms_minted == h.rooms_minted + n,
        minted_n(h, n).room_count == h.room_count,
        minted_n(h, n).total_profit == h.total_profit,
        minted_n(h, n).authority == h.authority,
    decreases n,
{
    if n > 0 {
        lemma_minted_n_fields(h, (n - 1) as nat);
    }
}

/// On a fresh hotel every one of the first `room_count` issuances is
/// permitted, and the issuance after the last room is refused.
pub proof fn lemma_rooms_exhausted(h: Hotel, room_number: u64)
    requires
        h.rooms_minted == 0,
        room_number <= h.room_count,
    ensures
        forall|k: nat| k < h.room_count ==> mint_allowed(#[trigger] minted_n(h, k), room_number),
        !mint_allowed(minted_n(h, h.room_count as nat), room_number),
{
    assert forall|k: nat| k < h.room_count implies mint_allowed(
        #[trigger] minted_n(h, k),
        room_number,
    ) by {
        lemma_minted_n_fields(h, k);
    }
    lemma_minted_n_fields(h, h.room_count as nat);
}

/// The sum of a sequence of booking amounts.
pub open spec fn sum_amounts(amounts: Seq<u64>) -> int
    decreases amounts.len(),
{
    if amounts.len() == 0 {
        0
    } else {
        amounts[0] + sum_amounts(amounts.drop_first())
    }
}

/// The record after a sequence of bookings, applied in order.
pub open spec fn booked_all(h: Hotel, amounts: Seq<u64>) -> Hotel
    decreases amounts.len(),
{
    if amounts.len() == 0 {
        h
    } else {
        booked_all(booked(h, amounts[0]), amounts.drop_first())
    }
}

/// A sum of booking amounts is never negative.
pub proof fn lemma_sum_amounts_nonneg(amounts: Seq<u64>)
    ensures
        sum_amounts(amounts) >= 0,
    decreases amounts.len(),
{
    if amounts.len() > 0 {
        lemma_sum_amounts_nonneg(amounts.drop_first());
    }
}

/// Bookings accumulate: before any distribution, the accrued revenue
/// after any sequence of bookings is the starting revenue plus the sum of
/// the booked amounts, and no other field moves.
pub proof fn lemma_bookings_accumulate(h: Hotel, amounts: Seq<u64>)
    requires
        h.total_profit + sum_amounts(amounts) <= u64::MAX,
    ensures
        booked_all(h, amounts).total_profit == h.total_profit + sum_amounts(amounts),
        booked_all(h, amounts).rooms_minted == h.rooms_minted,
        booked_all(h, amounts).room_count == h.room_count,
        booked_all(h, amounts).authority == h.authority,
    decreases amounts.len(),
{
    if amounts.len() > 0 {
        lemma_sum_amounts_nonneg(amounts.drop_first());
        lemma_bookings_accumulate(booked(h, amounts[0]), amounts.drop_first());
    }
}

/// Booking is not idempotent: recording the same booking twice raises the
/// accrued revenue by twice the amount, not once.
pub proof fn lemma_booking_not_idempotent(h: Hotel, price: u64)
    requires
        h.total_profit + 2 * price <= u64::MAX,
    ensures
        booked(booked(h, price), price).total_profit == h.total_profit + 2 * price,
{
}

/// Repeated distributions with unchanged supply and holder balance make
/// progress: each round pays out at most what is accrued; while the
/// accrued revenue is at least the supply a holder of at least one token
/// strictly shrinks it, and once it falls below the supply the remainder
/// is stable — further rounds pay nothing and leave the record unchanged.
pub proof fn lemma_distribution_progress(h: Hotel, supply: u64, balance: u64)
    requires
        supply > 0,
        1 <= balance <= supply,
    ensures
        distributed(h, supply, balance).total_profit
            == h.total_profit - payout_of(h.total_profit, supply, balance),
        distributed(h, supply, balance).total_profit <= h.total_profit,
        h.total_profit >= supply ==> distributed(h, supply, balance).total_profit
            < h.total_profit,
        h.total_profit < supply ==> distributed(h, supply, balance) == h,
{
    lemma_payout_bounds(h.total_profit, supply, balance);
}

} // verus!
