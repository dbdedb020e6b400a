use escrow::error::{EscrowError, LedgerError, OpError};
use escrow::ledger::{transfer, TokenAccount, UserAccount};
use escrow::processor::{
    CancelAccounts, EscrowAccounts, ExchangeAccounts, InitAccounts, ProgramAccount, Processor,
};
use escrow::state::{Escrow, Identity, Slot};

fn id(n: u64) -> Identity {
    Identity { w0: n, w1: 0, w2: 0, w3: 0 }
}

const PROGRAM: u64 = 900;
const MAKER: u64 = 1;
const TEMP: u64 = 2;
const MAKER_RECEIVE: u64 = 3;
const TAKER: u64 = 4;
const TAKER_SEND: u64 = 5;
const TAKER_RECEIVE: u64 = 6;
const LOCKED_MINT: u64 = 50;
const COUNTER_MINT: u64 = 60;
const TOKEN_PROGRAM: u64 = 77;

const DEMANDED: u64 = 10;
const LOCKED: u64 = 11;

fn instruction_data(tag: u8, amount: u64) -> Vec<u8> {
    let mut data = vec![tag];
    data.extend_from_slice(&amount.to_le_bytes());
    data
}

fn fresh_init_accounts() -> InitAccounts {
    InitAccounts {
        initializer: UserAccount { key: id(MAKER), is_signer: true, lamports: 1000 },
        temp_token_account: TokenAccount {
            key: id(TEMP),
            mint: id(LOCKED_MINT),
            authority: id(MAKER),
            amount: LOCKED,
            lamports: 70,
            is_open: true,
        },
        token_to_receive_account: ProgramAccount {
            key: id(MAKER_RECEIVE),
            owner_program: id(TOKEN_PROGRAM),
        },
        escrow_account: Slot { lamports: 500, data: vec![0u8; 105] },
        rent_minimum_balance: 500,
        token_program: id(TOKEN_PROGRAM),
    }
}

/// Runs a successful Initialize and hands back the holding account and
/// slot as the protocol left them.
fn initialized_escrow() -> (TokenAccount, Slot) {
    let mut accounts = EscrowAccounts::Initialize(fresh_init_accounts());
    let r = Processor::process(&id(PROGRAM), &mut accounts, &instruction_data(0, DEMANDED));
    assert_eq!(r, Ok(()));
    match accounts {
        EscrowAccounts::Initialize(a) => (a.temp_token_account, a.escrow_account),
        _ => unreachable!(),
    }
}

fn wired_exchange_accounts() -> ExchangeAccounts {
    let (temp, slot) = initialized_escrow();
    ExchangeAccounts {
        taker: UserAccount { key: id(TAKER), is_signer: true, lamports: 5 },
        taker_token_sent: TokenAccount {
            key: id(TAKER_SEND),
            mint: id(COUNTER_MINT),
            authority: id(TAKER),
            amount: DEMANDED + 1,
            lamports: 0,
            is_open: true,
        },
        taker_token_to_receive: TokenAccount {
            key: id(TAKER_RECEIVE),
            mint: id(LOCKED_MINT),
            authority: id(TAKER),
            amount: 7,
            lamports: 0,
            is_open: true,
        },
        escrow_temp_token: temp,
        escrow_maker: UserAccount { key: id(MAKER), is_signer: false, lamports: 1000 },
        escrow_maker_to_receive: TokenAccount {
            key: id(MAKER_RECEIVE),
            mint: id(COUNTER_MINT),
            authority: id(MAKER),
            amount: 2,
            lamports: 0,
            is_open: true,
        },
        escrow_account: slot,
    }
}

fn wired_cancel_accounts() -> CancelAccounts {
    let (temp, slot) = initialized_escrow();
    CancelAccounts {
        owner: UserAccount { key: id(MAKER), is_signer: true, lamports: 1000 },
        owner_token_to_receive: TokenAccount {
            key: id(8),
            mint: id(LOCKED_MINT),
            authority: id(MAKER),
            amount: 3,
            lamports: 0,
            is_open: true,
        },
        escrow_temp_token: temp,
        escrow_account: slot,
    }
}

#[test]
fn initialize_writes_live_record_and_locks_authority() {
    let (temp, slot) = initialized_escrow();
    let record = Escrow::unpack(&slot.data).unwrap();
    assert!(record.is_initialized);
    assert_eq!(record.initializer_pubkey, id(MAKER));
    assert_eq!(record.temp_token_account_pubkey, id(TEMP));
    assert_eq!(record.initializer_token_to_receive_account_pubkey, id(MAKER_RECEIVE));
    assert_eq!(record.expected_amount, DEMANDED);
    // The holding account now answers to the program-derived authority.
    let (pda, _bump) = escrow::authority::derive_authority(&id(PROGRAM));
    assert_eq!(temp.authority, pda);
    assert_ne!(pda, id(MAKER));
    // The locked balance is untouched by Initialize.
    assert_eq!(temp.amount, LOCKED);
    assert!(temp.is_open);
    assert_eq!(slot.lamports, 500);
}

#[test]
fn initialize_rejects_missing_signature() {
    let mut a = fresh_init_accounts();
    a.initializer.is_signer = false;
    let mut accounts = EscrowAccounts::Initialize(a);
    let r = Processor::process(&id(PROGRAM), &mut accounts, &instruction_data(0, DEMANDED));
    assert_eq!(r, Err(OpError::MissingRequiredSignature));
}

#[test]
fn initialize_rejects_foreign_receive_account() {
    let mut a = fresh_init_accounts();
    a.token_to_receive_account.owner_program = id(78);
    let mut accounts = EscrowAccounts::Initialize(a);
    let r = Processor::process(&id(PROGRAM), &mut accounts, &instruction_data(0, DEMANDED));
    assert_eq!(r, Err(OpError::IncorrectProgramId));
}

#[test]
fn initialize_rejects_underfunded_slot() {
    let mut a = fresh_init_accounts();
    a.escrow_account.lamports = 499;
    let mut accounts = EscrowAccounts::Initialize(a);
    let r = Processor::process(&id(PROGRAM), &mut accounts, &instruction_data(0, DEMANDED));
    assert_eq!(r, Err(OpError::AccountNotRentExempt));
}

#[test]
fn initialize_twice_rejected() {
    let (_, slot) = initialized_escrow();
    let mut again = fresh_init_accounts();
    again.escrow_account = slot;
    let mut accounts = EscrowAccounts::Initialize(again);
    // A different amount makes no difference: the slot is already Live.
    let r = Processor::process(&id(PROGRAM), &mut accounts, &instruction_data(0, 99));
    assert_eq!(r, Err(OpError::AccountAlreadyInitialized));
}

#[test]
fn exchange_settles_exact_amounts() {
    let mut accounts = EscrowAccounts::Exchange(wired_exchange_accounts());
    let r = Processor::process(&id(PROGRAM), &mut accounts, &instruction_data(1, LOCKED));
    assert_eq!(r, Ok(()));
    let a = match accounts {
        EscrowAccounts::Exchange(a) => a,
        _ => unreachable!(),
    };
    // The maker gains exactly the demanded amount.
    assert_eq!(a.escrow_maker_to_receive.amount, 2 + DEMANDED);
    // The taker gains the holding account's whole content.
    assert_eq!(a.taker_token_to_receive.amount, 7 + LOCKED);
    // The taker paid exactly the demanded amount.
    assert_eq!(a.taker_token_sent.amount, 1);
    // The holding account is closed and its storage went to the maker,
    // along with the slot's.
    assert!(!a.escrow_temp_token.is_open);
    assert_eq!(a.escrow_temp_token.amount, 0);
    assert_eq!(a.escrow_maker.lamports, 1000 + 70 + 500);
    // The slot is Empty again.
    assert_eq!(a.escrow_account.lamports, 0);
    assert!(a.escrow_account.data.is_empty());
}

#[test]
fn exchange_rejects_equal_balance() {
    let mut wired = wired_exchange_accounts();
    wired.taker_token_sent.amount = DEMANDED;
    let mut accounts = EscrowAccounts::Exchange(wired);
    let r = Processor::process(&id(PROGRAM), &mut accounts, &instruction_data(1, LOCKED));
    assert_eq!(r, Err(OpError::Escrow(EscrowError::NotEnoughBalanceToSent)));
    let a = match accounts {
        EscrowAccounts::Exchange(a) => a,
        _ => unreachable!(),
    };
    // Nothing moved.
    assert_eq!(a.taker_token_sent.amount, DEMANDED);
    assert_eq!(a.taker_token_to_receive.amount, 7);
    assert_eq!(a.escrow_maker_to_receive.amount, 2);
    assert_eq!(a.escrow_temp_token.amount, LOCKED);
    assert!(a.escrow_temp_token.is_open);
    assert_eq!(a.escrow_maker.lamports, 1000);
    assert_eq!(a.escrow_account.lamports, 500);
    assert_eq!(Escrow::unpack(&a.escrow_account.data).unwrap().expected_amount, DEMANDED);
}

#[test]
fn exchange_rejects_spoofed_maker() {
    let mut wired = wired_exchange_accounts();
    wired.escrow_maker.key = id(99);
    let mut accounts = EscrowAccounts::Exchange(wired);
    let r = Processor::process(&id(PROGRAM), &mut accounts, &instruction_data(1, LOCKED));
    assert_eq!(r, Err(OpError::Escrow(EscrowError::InvalidAccountData)));
    let a = match accounts {
        EscrowAccounts::Exchange(a) => a,
        _ => unreachable!(),
    };
    // Rejected before any transfer: every balance is intact.
    assert_eq!(a.taker_token_sent.amount, DEMANDED + 1);
    assert_eq!(a.taker_token_to_receive.amount, 7);
    assert_eq!(a.escrow_temp_token.amount, LOCKED);
    assert!(a.escrow_temp_token.is_open);
}

#[test]
fn exchange_rejects_mint_mismatch() {
    let mut wired = wired_exchange_accounts();
    wired.taker_token_sent.mint = id(61);
    let mut accounts = EscrowAccounts::Exchange(wired);
    let r = Processor::process(&id(PROGRAM), &mut accounts, &instruction_data(1, LOCKED));
    assert_eq!(r, Err(OpError::Escrow(EscrowError::ExpectedMintMismatch)));
}

#[test]
fn exchange_rejects_declared_amount_mismatch() {
    let mut accounts = EscrowAccounts::Exchange(wired_exchange_accounts());
    let r = Processor::process(&id(PROGRAM), &mut accounts, &instruction_data(1, LOCKED + 1));
    assert_eq!(r, Err(OpError::Escrow(EscrowError::ExpectedAmountMismatch)));
}

#[test]
fn exchange_rejects_storage_credit_overflow() {
    let mut wired = wired_exchange_accounts();
    wired.escrow_maker.lamports = u64::MAX - 70;
    let mut accounts = EscrowAccounts::Exchange(wired);
    let r = Processor::process(&id(PROGRAM), &mut accounts, &instruction_data(1, LOCKED));
    assert_eq!(r, Err(OpError::Escrow(EscrowError::AmountOverflow)));
}

#[test]
fn exchange_rejects_close_overflow_at_ledger() {
    let mut wired = wired_exchange_accounts();
    wired.escrow_maker.lamports = u64::MAX;
    let mut accounts = EscrowAccounts::Exchange(wired);
    let r = Processor::process(&id(PROGRAM), &mut accounts, &instruction_data(1, LOCKED));
    assert_eq!(r, Err(OpError::Ledger(LedgerError::Overflow)));
}

#[test]
fn exchange_rejects_stale_settled_slot() {
    // Settle once, then replay the exchange against the now-Empty slot.
    let mut accounts = EscrowAccounts::Exchange(wired_exchange_accounts());
    Processor::process(&id(PROGRAM), &mut accounts, &instruction_data(1, LOCKED)).unwrap();
    let settled = match accounts {
        EscrowAccounts::Exchange(a) => a,
        _ => unreachable!(),
    };
    let mut replay = wired_exchange_accounts();
    replay.escrow_account = settled.escrow_account;
    let mut accounts = EscrowAccounts::Exchange(replay);
    let r = Processor::process(&id(PROGRAM), &mut accounts, &instruction_data(1, LOCKED));
    assert_eq!(r, Err(OpError::InvalidAccountData));
}

#[test]
fn cancel_returns_locked_balance() {
    let mut accounts = EscrowAccounts::Cancel(wired_cancel_accounts());
    let r = Processor::process(&id(PROGRAM), &mut accounts, &instruction_data(2, 0));
    assert_eq!(r, Ok(()));
    let a = match accounts {
        EscrowAccounts::Cancel(a) => a,
        _ => unreachable!(),
    };
    // The full locked balance is back with the maker.
    assert_eq!(a.owner_token_to_receive.amount, 3 + LOCKED);
    assert!(!a.escrow_temp_token.is_open);
    assert_eq!(a.owner.lamports, 1000 + 70 + 500);
    // The slot is Empty: zeroed out and truncated.
    assert_eq!(a.escrow_account.lamports, 0);
    assert!(a.escrow_account.data.is_empty());
}

#[test]
fn cancel_rejects_mint_mismatch() {
    let mut wired = wired_cancel_accounts();
    wired.owner_token_to_receive.mint = id(COUNTER_MINT);
    let mut accounts = EscrowAccounts::Cancel(wired);
    let r = Processor::process(&id(PROGRAM), &mut accounts, &instruction_data(2, 0));
    assert_eq!(r, Err(OpError::Escrow(EscrowError::ExpectedMintMismatch)));
}

#[test]
fn cancel_rejects_caller_other_than_recorded_maker() {
    let mut wired = wired_cancel_accounts();
    wired.owner.key = id(99);
    let mut accounts = EscrowAccounts::Cancel(wired);
    let r = Processor::process(&id(PROGRAM), &mut accounts, &instruction_data(2, 0));
    assert_eq!(r, Err(OpError::Escrow(EscrowError::InvalidAccountData)));
}

#[test]
fn cancel_rejects_missing_signature() {
    let mut wired = wired_cancel_accounts();
    wired.owner.is_signer = false;
    let mut accounts = EscrowAccounts::Cancel(wired);
    let r = Processor::process(&id(PROGRAM), &mut accounts, &instruction_data(2, 0));
    assert_eq!(r, Err(OpError::MissingRequiredSignature));
}

#[test]
fn cancel_rejects_closed_holding_account() {
    let mut wired = wired_cancel_accounts();
    wired.escrow_temp_token.is_open = false;
    let mut accounts = EscrowAccounts::Cancel(wired);
    let r = Processor::process(&id(PROGRAM), &mut accounts, &instruction_data(2, 0));
    assert_eq!(r, Err(OpError::UninitializedAccount));
}

#[test]
fn maker_cannot_move_locked_funds() {
    // After Initialize the maker's own authority no longer moves the
    // holding account's balance: the ledger refuses the authority.
    let (mut temp, _) = initialized_escrow();
    let mut elsewhere = TokenAccount {
        key: id(9),
        mint: id(LOCKED_MINT),
        authority: id(MAKER),
        amount: 0,
        lamports: 0,
        is_open: true,
    };
    let r = transfer(&mut temp, &mut elsewhere, id(MAKER), true, 5);
    assert_eq!(r, Err(LedgerError::OwnerMismatch));
    assert_eq!(temp.amount, LOCKED);
    assert_eq!(elsewhere.amount, 0);
}

#[test]
fn ledger_transfer_moves_balance() {
    let mut from = TokenAccount {
        key: id(9),
        mint: id(LOCKED_MINT),
        authority: id(MAKER),
        amount: 8,
        lamports: 0,
        is_open: true,
    };
    let mut to = TokenAccount { key: id(10), amount: 1, ..from };
    assert_eq!(transfer(&mut from, &mut to, id(MAKER), true, 5), Ok(()));
    assert_eq!(from.amount, 3);
    assert_eq!(to.amount, 6);
    assert_eq!(
        transfer(&mut from, &mut to, id(MAKER), true, 5),
        Err(LedgerError::InsufficientFunds)
    );
    assert_eq!(
        transfer(&mut from, &mut to, id(MAKER), false, 1),
        Err(LedgerError::MissingSignature)
    );
}

#[test]
fn process_rejects_mismatched_account_list() {
    let mut accounts = EscrowAccounts::Cancel(wired_cancel_accounts());
    let r = Processor::process(&id(PROGRAM), &mut accounts, &instruction_data(1, LOCKED));
    assert_eq!(r, Err(OpError::NotEnoughAccountKeys));
}

#[test]
fn derived_authority_matches_environment_derivation() {
    let pid = id(PROGRAM);
    let mut bytes = [0u8; 32];
    bytes[0..8].copy_from_slice(&PROGRAM.to_le_bytes());
    let pk = solana_program::pubkey::Pubkey::new_from_array(bytes);
    let (pda, bump) = solana_program::pubkey::Pubkey::find_program_address(&[b"escrow"], &pk);
    let (lid, lbump) = escrow::authority::derive_authority(&pid);
    assert_eq!(lbump, bump);
    let pda_bytes = pda.to_bytes();
    let expect = Identity {
        w0: u64::from_le_bytes(pda_bytes[0..8].try_into().unwrap()),
        w1: u64::from_le_bytes(pda_bytes[8..16].try_into().unwrap()),
        w2: u64::from_le_bytes(pda_bytes[16..24].try_into().unwrap()),
        w3: u64::from_le_bytes(pda_bytes[24..32].try_into().unwrap()),
    };
    assert_eq!(lid, expect);
}
