//! The escrow state machine: the three operations, each a sequence of
//! validations followed by delegated asset-ledger calls and a record
//! mutation.
//!
//! Every handler is atomic: its contract says that on success the accounts
//! change exactly as the matching transition function describes, and that
//! on any failure nothing changes at all.  The transition functions
//! (`init_spec`, `exchange_spec`, `cancel_spec`, `process_spec`) are the
//! authoritative statement of the protocol, validation order included.

use vstd::prelude::*;
use crate::authority::{derive_authority, spec_pda};
use crate::error::{EscrowError, LedgerError, OpError};
use crate::instruction::{parse_instruction, EscrowInstruction};
use crate::ledger::{
    close_account, close_check, set_authority, set_authority_check, transfer, transfer_allowed,
    transfer_check, TokenAccount, UserAccount,
};
use crate::state::{escrow_bytes, parse_escrow, parse_live_escrow, Escrow, Identity, Slot};

verus! {

/// An account reference carrying the program that owns it.
#[derive(Clone, Copy, Debug, PartialEq, Eq, Structural)]
pub struct ProgramAccount {
    /// The account's public identity.
    pub key: Identity,
    /// The program that owns the account's storage.
    pub owner_program: Identity,
}

/// A storage slot as it appears in contracts: balance and stored bytes.
pub struct SlotView {
    pub lamports: u64,
    pub data: Seq<u8>,
}

impl View for Slot {
    type V = SlotView;

    open spec fn view(&self) -> SlotView {
        SlotView { lamports: self.lamports, data: self.data@ }
    }
}

/// The accounts an Initialize call supplies.
pub struct InitAccounts {
    /// The maker, who must sign.
    pub initializer: UserAccount,
    /// The holding account whose authority is handed to the protocol.
    pub temp_token_account: TokenAccount,
    /// The account that must later receive the counter-asset.
    pub token_to_receive_account: ProgramAccount,
    /// The caller-chosen storage slot for the escrow record.
    pub escrow_account: Slot,
    /// The storage-rent oracle's exemption threshold for the slot.
    pub rent_minimum_balance: u64,
    /// The asset ledger's identity; the receive account must be its.
    pub token_program: Identity,
}

/// The ghost image of `InitAccounts`.
pub struct InitAccountsView {
    pub initializer: UserAccount,
    pub temp_token_account: TokenAccount,
    pub token_to_receive_account: ProgramAccount,
    pub escrow_account: SlotView,
    pub rent_minimum_balance: u64,
    pub token_program: Identity,
}

impl View for InitAccounts {
    type V = InitAccountsView;

    open spec fn view(&self) -> InitAccountsView {
        InitAccountsView {
            initializer: self.initializer,
            temp_token_account: self.temp_token_account,
            token_to_receive_account: self.token_to_receive_account,
            escrow_account: self.escrow_account@,
            rent_minimum_balance: self.rent_minimum_balance,
            token_program: self.token_program,
        }
    }
}

/// The accounts an Exchange call supplies.
pub struct ExchangeAccounts {
    /// The taker, who must sign.
    pub taker: UserAccount,
    /// The taker's account paying the counter-asset.
    pub taker_token_sent: TokenAccount,
    /// The taker's account receiving the locked asset.
    pub taker_token_to_receive: TokenAccount,
    /// The holding account custodying the maker's locked asset.
    pub escrow_temp_token: TokenAccount,
    /// The maker, credited with the reclaimed storage.
    pub escrow_maker: UserAccount,
    /// The maker's account receiving the counter-asset.
    pub escrow_maker_to_receive: TokenAccount,
    /// The storage slot holding the live escrow record.
    pub escrow_account: Slot,
}

/// The ghost image of `ExchangeAccounts`.
pub struct ExchangeAccountsView {
    pub taker: UserAccount,
    pub taker_token_sent: TokenAccount,
    pub taker_token_to_receive: TokenAccount,
    pub escrow_temp_token: TokenAccount,
    pub escrow_maker: UserAccount,
    pub escrow_maker_to_receive: TokenAccount,
    pub escrow_account: SlotView,
}

impl View for ExchangeAccounts {
    type V = ExchangeAccountsView;

    open spec fn view(&self) -> ExchangeAccountsView {
        ExchangeAccountsView {
            taker: self.taker,
            taker_token_sent: self.taker_token_sent,
            taker_token_to_receive: self.taker_token_to_receive,
            escrow_temp_token: self.escrow_temp_token,
            escrow_maker: self.escrow_maker,
            escrow_maker_to_receive: self.escrow_maker_to_receive,
            escrow_account: self.escrow_account@,
        }
    }
}

/// The accounts a Cancel call supplies.
pub struct CancelAccounts {
    /// The maker, who must sign and is credited the reclaimed storage.
    pub owner: UserAccount,
    /// The maker's account taking the locked asset back.
    pub owner_token_to_receive: TokenAccount,
    /// The holding account custodying the locked asset.
    pub escrow_temp_token: TokenAccount,
    /// The storage slot holding the live escrow record.
    pub escrow_account: Slot,
}

/// The ghost image of `CancelAccounts`.
pub struct CancelAccountsView {
    pub owner: UserAccount,
    pub owner_token_to_receive: TokenAccount,
    pub escrow_temp_token: TokenAccount,
    pub escrow_account: SlotView,
}

impl View for CancelAccounts {
    type V = CancelAccountsView;

    open spec fn view(&self) -> CancelAccountsView {
        CancelAccountsView {
            owner: self.owner,
            owner_token_to_receive: self.owner_token_to_receive,
            escrow_temp_token: self.escrow_temp_token,
            escrow_account: self.escrow_account@,
        }
    }
}

/// The record an Initialize call writes.
pub open spec fn init_record(a: InitAccountsView, amount: u64) -> Escrow {
    Escrow {
        is_initialized: true,
        initializer_pubkey: a.initializer.key,
        temp_token_account_pubkey: a.temp_token_account.key,
        initializer_token_to_receive_account_pubkey: a.token_to_receive_account.key,
        expected_amount: amount,
    }
}

/// The Initialize transition: the first failing validation wins, and on
/// success the slot holds the packed live record and the holding account's
/// authority is the program-derived authority.
pub open spec fn init_spec(a: InitAccountsView, amount: u64, program_id: Identity) -> Result<
    InitAccountsView,
    OpError,
> {
    if !a.initializer.is_signer {
        Err(OpError::MissingRequiredSignature)
    } else if a.token_to_receive_account.owner_program != a.token_program {
        Err(OpError::IncorrectProgramId)
    } else if a.escrow_account.lamports < a.rent_minimum_balance {
        Err(OpError::AccountNotRentExempt)
    } else {
        match parse_escrow(a.escrow_account.data) {
            Err(e) => Err(e),
            Ok(record) => if record.is_initialized {
                Err(OpError::AccountAlreadyInitialized)
            } else {
                match set_authority_check(a.temp_token_account, a.initializer.key,
                    a.initializer.is_signer) {
                    Err(e) => Err(OpError::Ledger(e)),
                    Ok(()) => Ok(
                        InitAccountsView {
                            temp_token_account: TokenAccount {
                                authority: spec_pda(program_id),
                                ..a.temp_token_account
                            },
                            escrow_account: SlotView {
                                lamports: a.escrow_account.lamports,
                                data: escrow_bytes(init_record(a, amount)),
                            },
                            ..a
                        },
                    ),
                }
            },
        }
    }
}

/// The Exchange transition: validations in order (signature, live
/// accounts, live record, asset types, declared amount against the live
/// holding balance, strict taker balance, anti-spoofing), then the two
/// transfers, the close of the holding account, and the storage credit;
/// on success the slot is returned to Empty.
pub open spec fn exchange_spec(
    a: ExchangeAccountsView,
    amount_expected: u64,
    program_id: Identity,
) -> Result<ExchangeAccountsView, OpError> {
    if !a.taker.is_signer {
        Err(OpError::MissingRequiredSignature)
    } else if !a.taker_token_sent.is_open {
        Err(OpError::UninitializedAccount)
    } else if !a.taker_token_to_receive.is_open {
        Err(OpError::UninitializedAccount)
    } else if !a.escrow_temp_token.is_open {
        Err(OpError::UninitializedAccount)
    } else if !a.escrow_maker_to_receive.is_open {
        Err(OpError::UninitializedAccount)
    } else {
        match parse_live_escrow(a.escrow_account.data) {
            Err(e) => Err(e),
            Ok(record) => if a.taker_token_sent.mint != a.escrow_maker_to_receive.mint {
                Err(OpError::Escrow(EscrowError::ExpectedMintMismatch))
            } else if a.taker_token_to_receive.mint != a.escrow_temp_token.mint {
                Err(OpError::Escrow(EscrowError::ExpectedMintMismatch))
            } else if amount_expected != a.escrow_temp_token.amount {
                Err(OpError::Escrow(EscrowError::ExpectedAmountMismatch))
            } else if a.taker_token_sent.amount <= record.expected_amount {
                Err(OpError::Escrow(EscrowError::NotEnoughBalanceToSent))
            } else if record.temp_token_account_pubkey != a.escrow_temp_token.key {
                Err(OpError::Escrow(EscrowError::InvalidAccountData))
            } else if record.initializer_pubkey != a.escrow_maker.key {
                Err(OpError::Escrow(EscrowError::InvalidAccountData))
            } else if record.initializer_token_to_receive_account_pubkey
                != a.escrow_maker_to_receive.key {
                Err(OpError::Escrow(EscrowError::InvalidAccountData))
            } else {
                let pda = spec_pda(program_id);
                match transfer_check(a.escrow_temp_token, a.taker_token_to_receive, pda, true,
                    amount_expected) {
                    Err(e) => Err(OpError::Ledger(e)),
                    Ok(()) => {
                        let temp1 = TokenAccount {
                            amount: (a.escrow_temp_token.amount - amount_expected) as u64,
                            ..a.escrow_temp_token
                        };
                        let taker_recv1 = TokenAccount {
                            amount: (a.taker_token_to_receive.amount + amount_expected) as u64,
                            ..a.taker_token_to_receive
                        };
                        match transfer_check(a.taker_token_sent, a.escrow_maker_to_receive,
                            a.taker.key, a.taker.is_signer, record.expected_amount) {
                            Err(e) => Err(OpError::Ledger(e)),
                            Ok(()) => {
                                let sent1 = TokenAccount {
                                    amount: (a.taker_token_sent.amount
                                        - record.expected_amount) as u64,
                                    ..a.taker_token_sent
                                };
                                let maker_recv1 = TokenAccount {
                                    amount: (a.escrow_maker_to_receive.amount
                                        + record.expected_amount) as u64,
                                    ..a.escrow_maker_to_receive
                                };
                                match close_check(temp1, a.escrow_maker, pda, true) {
                                    Err(e) => Err(OpError::Ledger(e)),
                                    Ok(()) => {
                                        let temp2 = TokenAccount {
                                            lamports: 0,
                                            is_open: false,
                                            ..temp1
                                        };
                                        let maker1 = UserAccount {
                                            lamports: (a.escrow_maker.lamports
                                                + temp1.lamports) as u64,
                                            ..a.escrow_maker
                                        };
                                        if maker1.lamports + a.escrow_account.lamports
                                            > u64::MAX {
                                            Err(OpError::Escrow(EscrowError::AmountOverflow))
                                        } else {
                                            Ok(
                                                ExchangeAccountsView {
                                                    taker: a.taker,
                                                    taker_token_sent: sent1,
                                                    taker_token_to_receive: taker_recv1,
                                                    escrow_temp_token: temp2,
                                                    escrow_maker: UserAccount {
                                                        lamports: (maker1.lamports
                                                            + a.escrow_account.lamports) as u64,
                                                        ..maker1
                                                    },
                                                    escrow_maker_to_receive: maker_recv1,
                                                    escrow_account: SlotView {
                                                        lamports: 0,
                                                        data: Seq::empty(),
                                                    },
                                                },
                                            )
                                        }
                                    },
                                }
                            },
                        }
                    },
                }
            },
        }
    }
}

/// The Cancel transition: signature, live accounts, live record, asset
/// type match, the maker named in the record, then the return transfer,
/// the close of the holding account, and the storage credit; on success
/// the slot is returned to Empty.
pub open spec fn cancel_spec(a: CancelAccountsView, program_id: Identity) -> Result<
    CancelAccountsView,
    OpError,
> {
    if !a.owner.is_signer {
        Err(OpError::MissingRequiredSignature)
    } else if !a.owner_token_to_receive.is_open {
        Err(OpError::UninitializedAccount)
    } else if !a.escrow_temp_token.is_open {
        Err(OpError::UninitializedAccount)
    } else {
        match parse_live_escrow(a.escrow_account.data) {
            Err(e) => Err(e),
            Ok(record) => if a.owner_token_to_receive.mint != a.escrow_temp_token.mint {
                Err(OpError::Escrow(EscrowError::ExpectedMintMismatch))
            } else if record.initializer_pubkey != a.owner.key {
                Err(OpError::Escrow(EscrowError::InvalidAccountData))
            } else {
                let pda = spec_pda(program_id);
                match transfer_check(a.escrow_temp_token, a.owner_token_to_receive, pda, true,
                    a.escrow_temp_token.amount) {
                    Err(e) => Err(OpError::Ledger(e)),
                    Ok(()) => {
                        let temp1 = TokenAccount { amount: 0, ..a.escrow_temp_token };
                        let recv1 = TokenAccount {
                            amount: (a.owner_token_to_receive.amount
                                + a.escrow_temp_token.amount) as u64,
                            ..a.owner_token_to_receive
                        };
                        match close_check(temp1, a.owner, pda, true) {
                            Err(e) => Err(OpError::Ledger(e)),
                            Ok(()) => {
                                let temp2 = TokenAccount { lamports: 0, is_open: false, ..temp1 };
                                let owner1 = UserAccount {
                                    lamports: (a.owner.lamports + temp1.lamports) as u64,
                                    ..a.owner
                                };
                                if owner1.lamports + a.escrow_account.lamports > u64::MAX {
                                    Err(OpError::Escrow(EscrowError::AmountOverflow))
                                } else {
                                    Ok(
                                        CancelAccountsView {
                                            owner: UserAccount {
                                                lamports: (owner1.lamports
                                                    + a.escrow_account.lamports) as u64,
                                                ..owner1
                                            },
                                            owner_token_to_receive: recv1,
                                            escrow_temp_token: temp2,
                                            escrow_account: SlotView {
                                                lamports: 0,
                                                data: Seq::empty(),
                                            },
                                        },
                                    )
                                }
                            },
                        }
                    },
                }
            },
        }
    }
}

/// The account list supplied with an operation, shaped for the operation
/// it accompanies.
pub enum EscrowAccounts {
    Initialize(InitAccounts),
    Exchange(ExchangeAccounts),
    Cancel(CancelAccounts),
}

/// The ghost image of `EscrowAccounts`.
pub enum EscrowAccountsView {
    Initialize(InitAccountsView),
    Exchange(ExchangeAccountsView),
    Cancel(CancelAccountsView),
}

impl View for EscrowAccounts {
    type V = EscrowAccountsView;

    open spec fn view(&self) -> EscrowAccountsView {
        match self {
            EscrowAccounts::Initialize(a) => EscrowAccountsView::Initialize(a@),
            EscrowAccounts::Exchange(a) => EscrowAccountsView::Exchange(a@),
            EscrowAccounts::Cancel(a) => EscrowAccountsView::Cancel(a@),
        }
    }
}

/// The whole state machine: decode the payload, then run the matching
/// transition.  An account list that does not fit the decoded operation
/// is refused without effect.
pub open spec fn process_spec(
    program_id: Identity,
    a: EscrowAccountsView,
    instruction_data: Seq<u8>,
) -> Result<EscrowAccountsView, OpError> {
    match parse_instruction(instruction_data) {
        Err(e) => Err(e),
        Ok(EscrowInstruction::InitEscrow { amount }) => match a {
            EscrowAccountsView::Initialize(v) => match init_spec(v, amount, program_id) {
                Ok(v2) => Ok(EscrowAccountsView::Initialize(v2)),
                Err(e) => Err(e),
            },
            _ => Err(OpError::NotEnoughAccountKeys),
        },
        Ok(EscrowInstruction::Exchange { amount }) => match a {
            EscrowAccountsView::Exchange(v) => match exchange_spec(v, amount, program_id) {
                Ok(v2) => Ok(EscrowAccountsView::Exchange(v2)),
                Err(e) => Err(e),
            },
            _ => Err(OpError::NotEnoughAccountKeys),
        },
        Ok(EscrowInstruction::CancelEscrow { amount: _ }) => match a {
            EscrowAccountsView::Cancel(v) => match cancel_spec(v, program_id) {
                Ok(v2) => Ok(EscrowAccountsView::Cancel(v2)),
                Err(e) => Err(e),
            },
            _ => Err(OpError::NotEnoughAccountKeys),
        },
    }
}

/// The state machine's entry point, dispatching on the decoded operation.
pub struct Processor;

impl Processor {
    /// Decodes the operation payload and dispatches to the matching
    /// handler; on failure the accounts are untouched.
    pub fn process(
        program_id: &Identity,
        accounts: &mut EscrowAccounts,
        instruction_data: &[u8],
    ) -> (r: Result<(), OpError>)
        ensures
            match process_spec(*program_id, old(accounts)@, instruction_data@) {
                Ok(v) => r is Ok && final(accounts)@ == v,
                Err(e) => r == Err::<(), OpError>(e) && final(accounts)@ == old(accounts)@,
            },
    {
        let instruction = match EscrowInstruction::unpack(instruction_data) {
            Ok(i) => i,
            Err(e) => {
                return Err(e);
            },
        };
        match instruction {
            EscrowInstruction::InitEscrow { amount } => match accounts {
                EscrowAccounts::Initialize(a) => Self::process_init_escrow(a, amount, program_id),
                _ => Err(OpError::NotEnoughAccountKeys),
            },
            EscrowInstruction::Exchange { amount } => match accounts {
                EscrowAccounts::Exchange(a) => Self::process_exchange(a, amount, program_id),
                _ => Err(OpError::NotEnoughAccountKeys),
            },
            EscrowInstruction::CancelEscrow { amount: _ } => match accounts {
                EscrowAccounts::Cancel(a) => Self::process_cancel(a, program_id),
                _ => Err(OpError::NotEnoughAccountKeys),
            },
        }
    }

    /// Opens an escrow: validates the maker's call, writes the live
    /// record into the Empty slot, and hands the holding account's
    /// authority to the program-derived authority.
    pub fn process_init_escrow(
        accounts: &mut InitAccounts,
        amount: u64,
        program_id: &Identity,
    ) -> (r: Result<(), OpError>)
        ensures
            match init_spec(old(accounts)@, amount, *program_id) {
                Ok(v) => r is Ok && final(accounts)@ == v,
                Err(e) => r == Err::<(), OpError>(e) && final(accounts)@ == old(accounts)@,
            },
    {
        if !accounts.initializer.is_signer {
            return Err(OpError::MissingRequiredSignature);
        }
        if accounts.token_to_receive_account.owner_program != accounts.token_program {
            return Err(OpError::IncorrectProgramId);
        }
        if accounts.escrow_account.lamports < accounts.rent_minimum_balance {
            return Err(OpError::AccountNotRentExempt);
        }
        let record = match Escrow::unpack_unchecked(accounts.escrow_account.data.as_slice()) {
            Ok(e) => e,
            Err(err) => {
                return Err(err);
            },
        };
        if record.is_initialized() {
            return Err(OpError::AccountAlreadyInitialized);
        }
        let (pda, _bump) = derive_authority(program_id);
        let maker_key = accounts.initializer.key;
        let signed = accounts.initializer.is_signer;
        match set_authority(&mut accounts.temp_token_account, pda, maker_key, signed) {
            Ok(()) => {},
            Err(e) => {
                return Err(OpError::Ledger(e));
            },
        }
        let new_record = Escrow {
            is_initialized: true,
            initializer_pubkey: accounts.initializer.key,
            temp_token_account_pubkey: accounts.temp_token_account.key,
            initializer_token_to_receive_account_pubkey: accounts.token_to_receive_account.key,
            expected_amount: amount,
        };
        match new_record.pack(&mut accounts.escrow_account.data) {
            Ok(()) => Ok(()),
            Err(err) => Err(err),
        }
    }

    /// Settles an escrow: validates the taker's call against the live
    /// record and live balances, then atomically moves the locked asset
    /// to the taker, the counter-asset to the maker, closes the holding
    /// account, credits the reclaimed storage to the maker, and returns
    /// the slot to Empty.
    pub fn process_exchange(
        accounts: &mut ExchangeAccounts,
        amount_expected: u64,
        program_id: &Identity,
    ) -> (r: Result<(), OpError>)
        ensures
            match exchange_spec(old(accounts)@, amount_expected, *program_id) {
                Ok(v) => r is Ok && final(accounts)@ == v,
                Err(e) => r == Err::<(), OpError>(e) && final(accounts)@ == old(accounts)@,
            },
    {
        if !accounts.taker.is_signer {
            return Err(OpError::MissingRequiredSignature);
        }
        if !accounts.taker_token_sent.is_open {
            return Err(OpError::UninitializedAccount);
        }
        if !accounts.taker_token_to_receive.is_open {
            return Err(OpError::UninitializedAccount);
        }
        if !accounts.escrow_temp_token.is_open {
            return Err(OpError::UninitializedAccount);
        }
        if !accounts.escrow_maker_to_receive.is_open {
            return Err(OpError::UninitializedAccount);
        }
        let record = match Escrow::unpack(accounts.escrow_account.data.as_slice()) {
            Ok(e) => e,
            Err(err) => {
                return Err(err);
            },
        };
        if accounts.taker_token_sent.mint != accounts.escrow_maker_to_receive.mint {
            return Err(OpError::Escrow(EscrowError::ExpectedMintMismatch));
        }
        if accounts.taker_token_to_receive.mint != accounts.escrow_temp_token.mint {
            return Err(OpError::Escrow(EscrowError::ExpectedMintMismatch));
        }
        if amount_expected != accounts.escrow_temp_token.amount {
            return Err(OpError::Escrow(EscrowError::ExpectedAmountMismatch));
        }
        if accounts.taker_token_sent.amount <= record.expected_amount {
            return Err(OpError::Escrow(EscrowError::NotEnoughBalanceToSent));
        }
        if record.temp_token_account_pubkey != accounts.escrow_temp_token.key {
            return Err(OpError::Escrow(EscrowError::InvalidAccountData));
        }
        if record.initializer_pubkey != accounts.escrow_maker.key {
            return Err(OpError::Escrow(EscrowError::InvalidAccountData));
        }
        if record.initializer_token_to_receive_account_pubkey
            != accounts.escrow_maker_to_receive.key {
            return Err(OpError::Escrow(EscrowError::InvalidAccountData));
        }
        let (pda, _bump) = derive_authority(program_id);
        // All validations passed; check every delegated call before any
        // effect is applied, so that a failure leaves nothing changed.
        if let Err(e) = transfer_allowed(&accounts.escrow_temp_token,
            &accounts.taker_token_to_receive, pda, true, amount_expected) {
            return Err(OpError::Ledger(e));
        }
        let taker_key = accounts.taker.key;
        let taker_signed = accounts.taker.is_signer;
        if let Err(e) = transfer_allowed(&accounts.taker_token_sent,
            &accounts.escrow_maker_to_receive, taker_key, taker_signed, record.expected_amount) {
            return Err(OpError::Ledger(e));
        }
        if accounts.escrow_temp_token.lamports > u64::MAX - accounts.escrow_maker.lamports {
            return Err(OpError::Ledger(LedgerError::Overflow));
        }
        let maker_lamports_after_close = accounts.escrow_maker.lamports
            + accounts.escrow_temp_token.lamports;
        if accounts.escrow_account.lamports > u64::MAX - maker_lamports_after_close {
            return Err(OpError::Escrow(EscrowError::AmountOverflow));
        }
        if let Err(e) = transfer(&mut accounts.escrow_temp_token,
            &mut accounts.taker_token_to_receive, pda, true, amount_expected) {
            return Err(OpError::Ledger(e));
        }
        if let Err(e) = transfer(&mut accounts.taker_token_sent,
            &mut accounts.escrow_maker_to_receive, taker_key, taker_signed,
            record.expected_amount) {
            return Err(OpError::Ledger(e));
        }
        if let Err(e) = close_account(&mut accounts.escrow_temp_token, &mut accounts.escrow_maker,
            pda, true) {
            return Err(OpError::Ledger(e));
        }
        accounts.escrow_maker.lamports = accounts.escrow_maker.lamports
            + accounts.escrow_account.lamports;
        accounts.escrow_account.lamports = 0;
        accounts.escrow_account.data = Vec::new();
        proof {
            assert(accounts@.escrow_account.data =~= Seq::<u8>::empty());
        }
        Ok(())
    }

    /// Cancels an escrow: validates the maker's call against the live
    /// record, then atomically returns the locked asset to the maker,
    /// closes the holding account, credits the reclaimed storage to the
    /// maker, and returns the slot to Empty.
    pub fn process_cancel(accounts: &mut CancelAccounts, program_id: &Identity) -> (r: Result<
        (),
        OpError,
    >)
        ensures
            match cancel_spec(old(accounts)@, *program_id) {
                Ok(v) => r is Ok && final(accounts)@ == v,
                Err(e) => r == Err::<(), OpError>(e) && final(accounts)@ == old(accounts)@,
            },
    {
        if !accounts.owner.is_signer {
            return Err(OpError::MissingRequiredSignature);
        }
        if !accounts.owner_token_to_receive.is_open {
            return Err(OpError::UninitializedAccount);
        }
        if !accounts.escrow_temp_token.is_open {
            return Err(OpError::UninitializedAccount);
        }
        let record = match Escrow::unpack(accounts.escrow_account.data.as_slice()) {
            Ok(e) => e,
            Err(err) => {
                return Err(err);
            },
        };
        if accounts.owner_token_to_receive.mint != accounts.escrow_temp_token.mint {
            return Err(OpError::Escrow(EscrowError::ExpectedMintMismatch));
        }
        if record.initializer_pubkey != accounts.owner.key {
            return Err(OpError::Escrow(EscrowError::InvalidAccountData));
        }
        let (pda, _bump) = derive_authority(program_id);
        let locked = accounts.escrow_temp_token.amount;
        if let Err(e) = transfer_allowed(&accounts.escrow_temp_token,
            &accounts.owner_token_to_receive, pda, true, locked) {
            return Err(OpError::Ledger(e));
        }
        if accounts.escrow_temp_token.lamports > u64::MAX - accounts.owner.lamports {
            return Err(OpError::Ledger(LedgerError::Overflow));
        }
        let owner_lamports_after_close = accounts.owner.lamports
            + accounts.escrow_temp_token.lamports;
        if accounts.escrow_account.lamports > u64::MAX - owner_lamports_after_close {
            return Err(OpError::Escrow(EscrowError::AmountOverflow));
        }
        if let Err(e) = transfer(&mut accounts.escrow_temp_token,
            &mut accounts.owner_token_to_receive, pda, true, locked) {
            return Err(OpError::Ledger(e));
        }
        if let Err(e) = close_account(&mut accounts.escrow_temp_token, &mut accounts.owner, pda,
            true) {
            return Err(OpError::Ledger(e));
        }
        accounts.owner.lamports = accounts.owner.lamports + accounts.escrow_account.lamports;
        accounts.escrow_account.lamports = 0;
        accounts.escrow_account.data = Vec::new();
        proof {
            assert(accounts@.escrow_account.data =~= Seq::<u8>::empty());
        }
        Ok(())
    }
}

} // verus!
