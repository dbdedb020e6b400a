//! The protocol's laws: properties that hold of every run of the state
//! machine, proved from the transition functions alone.

use vstd::prelude::*;
use crate::authority::spec_pda;
use crate::error::{EscrowError, LedgerError, OpError};
use crate::ledger::{close_check, set_authority_check, transfer_check, TokenAccount, UserAccount};
use crate::processor::{
    cancel_spec, exchange_spec, init_spec, CancelAccountsView, ExchangeAccountsView,
    InitAccountsView,
};
use crate::state::{lemma_escrow_round_trip, parse_escrow, parse_live_escrow, Identity};

verus! {

/// Initialize is rejected on a slot that a previous Initialize filled:
/// the second call never succeeds, whatever its amount, and once its
/// caller-side validations (signature, receive-account ownership, rent)
/// pass, the failure is exactly the state conflict.
pub proof fn lemma_initialize_rejects_live_slot(
    a1: InitAccountsView,
    amount1: u64,
    pid1: Identity,
    a2: InitAccountsView,
    amount2: u64,
    pid2: Identity,
)
    requires
        init_spec(a1, amount1, pid1) is Ok,
        a2.escrow_account.data == init_spec(a1, amount1, pid1)->Ok_0.escrow_account.data,
    ensures
        init_spec(a2, amount2, pid2) is Err,
        (a2.initializer.is_signer && a2.token_to_receive_account.owner_program == a2.token_program
            && a2.escrow_account.lamports >= a2.rent_minimum_balance) ==> init_spec(a2, amount2,
            pid2) == Err::<InitAccountsView, OpError>(OpError::AccountAlreadyInitialized),
{
    lemma_escrow_round_trip(crate::processor::init_record(a1, amount1));
}

/// Round trip: an Initialize followed by a Cancel wired to the same
/// escrow returns the full locked balance to the maker's receive account,
/// closes the holding account, credits all reclaimed storage to the
/// maker, and leaves the slot Empty.  The side conditions only rule out
/// balance overflow at the maker and ask for a live receive account of
/// the locked asset's type.
pub proof fn lemma_initialize_then_cancel(
    a: InitAccountsView,
    amount: u64,
    pid: Identity,
    owner_receive: TokenAccount,
)
    requires
        init_spec(a, amount, pid) is Ok,
        owner_receive.is_open,
        owner_receive.mint == a.temp_token_account.mint,
        owner_receive.amount + a.temp_token_account.amount <= u64::MAX,
        a.initializer.lamports + a.temp_token_account.lamports + a.escrow_account.lamports
            <= u64::MAX,
    ensures
        ({
            let v = init_spec(a, amount, pid)->Ok_0;
            let c = CancelAccountsView {
                owner: a.initializer,
                owner_token_to_receive: owner_receive,
                escrow_temp_token: v.temp_token_account,
                escrow_account: v.escrow_account,
            };
            let r = cancel_spec(c, pid);
            &&& r is Ok
            &&& r->Ok_0.owner_token_to_receive.amount == owner_receive.amount
                + a.temp_token_account.amount
            &&& !r->Ok_0.escrow_temp_token.is_open
            &&& r->Ok_0.owner.lamports == a.initializer.lamports + a.temp_token_account.lamports
                + a.escrow_account.lamports
            &&& r->Ok_0.escrow_account.lamports == 0
            &&& r->Ok_0.escrow_account.data.len() == 0
        }),
{
    lemma_escrow_round_trip(crate::processor::init_record(a, amount));
}

/// Exchange settles atomically: whenever it succeeds, the maker's receive
/// account gains exactly the demanded amount, the taker's receive account
/// gains the holding account's whole content, the taker's paying account
/// loses exactly the demanded amount, the holding account is closed, the
/// maker is credited all reclaimed storage, and the slot is Empty.
pub proof fn lemma_exchange_settles(a: ExchangeAccountsView, amount_expected: u64, pid: Identity)
    requires
        exchange_spec(a, amount_expected, pid) is Ok,
    ensures
        ({
            let record = parse_live_escrow(a.escrow_account.data)->Ok_0;
            let v = exchange_spec(a, amount_expected, pid)->Ok_0;
            &&& v.escrow_maker_to_receive.amount == a.escrow_maker_to_receive.amount
                + record.expected_amount
            &&& v.taker_token_to_receive.amount == a.taker_token_to_receive.amount
                + a.escrow_temp_token.amount
            &&& v.taker_token_sent.amount == a.taker_token_sent.amount - record.expected_amount
            &&& v.escrow_temp_token.amount == 0
            &&& !v.escrow_temp_token.is_open
            &&& v.escrow_maker.lamports == a.escrow_maker.lamports + a.escrow_temp_token.lamports
                + a.escrow_account.lamports
            &&& v.escrow_account.lamports == 0
            &&& v.escrow_account.data.len() == 0
            &&& v.taker == a.taker
        }),
{
}

/// Initialize is the Empty-to-Live transition: it succeeds only on a slot
/// holding an Empty record, and leaves the slot holding exactly the Live
/// record it declares.
pub proof fn lemma_initialize_is_empty_to_live(a: InitAccountsView, amount: u64, pid: Identity)
    requires
        init_spec(a, amount, pid) is Ok,
    ensures
        parse_escrow(a.escrow_account.data) is Ok,
        !parse_escrow(a.escrow_account.data)->Ok_0.is_initialized,
        parse_live_escrow(init_spec(a, amount, pid)->Ok_0.escrow_account.data)
            == Ok::<crate::state::Escrow, OpError>(crate::processor::init_record(a, amount)),
{
    lemma_escrow_round_trip(crate::processor::init_record(a, amount));
}

/// Exchange succeeds only on a slot holding a Live record, and returns
/// the slot to Empty: there is no Live-to-Live transition.
pub proof fn lemma_exchange_is_live_to_empty(
    a: ExchangeAccountsView,
    amount_expected: u64,
    pid: Identity,
)
    requires
        exchange_spec(a, amount_expected, pid) is Ok,
    ensures
        parse_live_escrow(a.escrow_account.data) is Ok,
        exchange_spec(a, amount_expected, pid)->Ok_0.escrow_account.data.len() == 0,
        exchange_spec(a, amount_expected, pid)->Ok_0.escrow_account.lamports == 0,
{
}

/// Cancel succeeds only on a slot holding a Live record, and returns the
/// slot to Empty.  Whenever it succeeds, the maker's receive account
/// gains the holding account's whole content, the holding account is
/// closed, and the maker is credited all reclaimed storage.
pub proof fn lemma_cancel_settles(a: CancelAccountsView, pid: Identity)
    requires
        cancel_spec(a, pid) is Ok,
    ensures
        parse_live_escrow(a.escrow_account.data) is Ok,
        ({
            let v = cancel_spec(a, pid)->Ok_0;
            &&& v.owner_token_to_receive.amount == a.owner_token_to_receive.amount
                + a.escrow_temp_token.amount
            &&& v.escrow_temp_token.amount == 0
            &&& !v.escrow_temp_token.is_open
            &&& v.owner.lamports == a.owner.lamports + a.escrow_temp_token.lamports
                + a.escrow_account.lamports
            &&& v.escrow_account.lamports == 0
            &&& v.escrow_account.data.len() == 0
        }),
{
}

/// A taker whose offered balance equals the demanded amount exactly is
/// rejected as having insufficient balance: the demanded amount must be
/// strictly exceeded.  (The handler's own contract adds that a rejected
/// call changes no account.)
pub proof fn lemma_exchange_rejects_equal_balance(
    a: ExchangeAccountsView,
    amount_expected: u64,
    pid: Identity,
)
    requires
        a.taker.is_signer,
        a.taker_token_sent.is_open,
        a.taker_token_to_receive.is_open,
        a.escrow_temp_token.is_open,
        a.escrow_maker_to_receive.is_open,
        parse_live_escrow(a.escrow_account.data) is Ok,
        a.taker_token_sent.mint == a.escrow_maker_to_receive.mint,
        a.taker_token_to_receive.mint == a.escrow_temp_token.mint,
        amount_expected == a.escrow_temp_token.amount,
        a.taker_token_sent.amount == parse_live_escrow(
            a.escrow_account.data,
        )->Ok_0.expected_amount,
    ensures
        exchange_spec(a, amount_expected, pid) == Err::<ExchangeAccountsView, OpError>(
            OpError::Escrow(EscrowError::NotEnoughBalanceToSent),
        ),
{
}

/// An Exchange that pairs a live record with a maker identity other than
/// the recorded initializer is rejected as a stale reference, before any
/// transfer is reached in the transition's order.  (The handler's own
/// contract adds that a rejected call changes no account.)
pub proof fn lemma_exchange_rejects_spoofed_maker(
    a: ExchangeAccountsView,
    amount_expected: u64,
    pid: Identity,
)
    requires
        a.taker.is_signer,
        a.taker_token_sent.is_open,
        a.taker_token_to_receive.is_open,
        a.escrow_temp_token.is_open,
        a.escrow_maker_to_receive.is_open,
        parse_live_escrow(a.escrow_account.data) is Ok,
        a.taker_token_sent.mint == a.escrow_maker_to_receive.mint,
        a.taker_token_to_receive.mint == a.escrow_temp_token.mint,
        amount_expected == a.escrow_temp_token.amount,
        a.taker_token_sent.amount > parse_live_escrow(a.escrow_account.data)->Ok_0.expected_amount,
        parse_live_escrow(a.escrow_account.data)->Ok_0.temp_token_account_pubkey
            == a.escrow_temp_token.key,
        parse_live_escrow(a.escrow_account.data)->Ok_0.initializer_pubkey != a.escrow_maker.key,
    ensures
        exchange_spec(a, amount_expected, pid) == Err::<ExchangeAccountsView, OpError>(
            OpError::Escrow(EscrowError::InvalidAccountData),
        ),
{
}

/// Authority exclusivity: after Initialize, the holding account answers
/// only to the program-derived authority.  Any ledger call the maker
/// authorizes with its own identity — moving funds out, closing the
/// account, or reassigning its authority — fails, and fails as an
/// authority mismatch whenever the call is otherwise well-formed.  The
/// one hypothesis is that the maker's identity is not itself the derived
/// authority, which the off-curve derivation guarantees.
pub proof fn lemma_authority_exclusive_after_initialize(
    a: InitAccountsView,
    amount: u64,
    pid: Identity,
    to: TokenAccount,
    dest: UserAccount,
    move_amount: u64,
)
    requires
        init_spec(a, amount, pid) is Ok,
        a.initializer.key != spec_pda(pid),
    ensures
        ({
            let temp = init_spec(a, amount, pid)->Ok_0.temp_token_account;
            &&& !(transfer_check(temp, to, a.initializer.key, true, move_amount) is Ok)
            &&& !(close_check(temp, dest, a.initializer.key, true) is Ok)
            &&& !(set_authority_check(temp, a.initializer.key, true) is Ok)
            &&& (to.is_open && temp.mint == to.mint && temp.amount >= move_amount && to.amount
                + move_amount <= u64::MAX) ==> transfer_check(temp, to, a.initializer.key, true,
                move_amount) == Err::<(), LedgerError>(LedgerError::OwnerMismatch)
        }),
{
}

} // verus!
