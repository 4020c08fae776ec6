//! The fee that a vote costs, and the instruction that moves it.
//!
//! The library does not move funds. It builds the instruction that asks the
//! host's system program to move them, and it judges what the host reports.

use vstd::prelude::*;
use anchor_lang::solana_program::pubkey::Pubkey;
use anchor_lang::solana_program::system_instruction::transfer;
use crate::errors::Errors;

verus! {

/// What one vote costs, in lamports.
pub const VOTING_FEE: u64 = 1_000_000;

/// An account that an instruction names, and what the instruction may do
/// with it.
#[derive(Clone, Copy, Debug, PartialEq, Eq)]
pub struct AccountRole {
    pub key: [u8; 32],
    pub is_signer: bool,
    pub is_writable: bool,
}

/// An instruction for the host, in plain values: the program that is to run
/// it, the accounts it names, and the bytes handed to that program.
#[derive(Debug, PartialEq, Eq)]
pub struct TransferInstruction {
    pub program_id: [u8; 32],
    pub accounts: Vec<AccountRole>,
    pub data: Vec<u8>,
}

/// The bytes in which the system program reads "transfer `lamports`".
pub uninterp spec fn system_transfer_data(lamports: u64) -> Seq<u8>;

/// The address of the system program: thirty-two zero bytes.
pub open spec fn system_program_id() -> Seq<u8> {
    Seq::new(32, |i: int| 0u8)
}

impl TransferInstruction {
    /// This instruction asks the system program to move `lamports` from the
    /// account `from`, which has to sign, to the account `to`.
    pub open spec fn moves(self, from: Seq<u8>, to: Seq<u8>, lamports: u64) -> bool {
        &&& self.program_id@ == system_program_id()
        &&& self.accounts@.len() == 2
        &&& self.accounts@[0].key@ == from
        &&& self.accounts@[0].is_signer
        &&& self.accounts@[0].is_writable
        &&& self.accounts@[1].key@ == to
        &&& !self.accounts@[1].is_signer
        &&& self.accounts@[1].is_writable
        &&& self.data@ == system_transfer_data(lamports)
    }
}

/// Calls `system_instruction::transfer` of `solana_program`, as `anchor_lang`
/// hands it on, and copies the instruction it builds into plain values.
///
/// Taken on trust from that function's source: the instruction is addressed
/// to the system program; it names `from` first, as a writable signer, and
/// `to` second, writable and no signer; and its data depend on `lamports`
/// alone.
#[verifier::external_body]
fn system_transfer(from: &[u8; 32], to: &[u8; 32], lamports: u64) -> (instruction:
    TransferInstruction)
    ensures
        instruction.program_id@ == system_program_id(),
        instruction.accounts@.len() == 2,
        instruction.accounts@[0].key@ == from@,
        instruction.accounts@[0].is_signer,
        instruction.accounts@[0].is_writable,
        instruction.accounts@[1].key@ == to@,
        !instruction.accounts@[1].is_signer,
        instruction.accounts@[1].is_writable,
        instruction.data@ == system_transfer_data(lamports),
{
    let built = transfer(&Pubkey::new_from_array(*from), &Pubkey::new_from_array(*to), lamports);
    let mut accounts: Vec<AccountRole> = Vec::new();
    for meta in built.accounts.iter() {
        accounts.push(
            AccountRole {
                key: meta.pubkey.to_bytes(),
                is_signer: meta.is_signer,
                is_writable: meta.is_writable,
            },
        );
    }
    TransferInstruction { program_id: built.program_id.to_bytes(), accounts, data: built.data }
}

/// What the host reported of the transfer it was asked for.
#[derive(Clone, Copy, Debug, PartialEq, Eq, Structural)]
pub enum TransferOutcome {
    /// The fee was moved.
    Completed,
    /// The host declined to move it.
    Declined,
}

/// The fee that was paid, or why none was.
pub open spec fn fee_outcome(funds: u64, outcome: TransferOutcome) -> Result<u64, Errors> {
    if funds < VOTING_FEE {
        Err(Errors::InsufficientFunds)
    } else if outcome == TransferOutcome::Declined {
        Err(Errors::TransferRejected)
    } else {
        Ok(VOTING_FEE)
    }
}

/// The instruction that moves the voting fee from `payer` to `payee`, for a
/// payer who holds `funds`. A payer who holds less than the fee gets
/// `InsufficientFunds` and no instruction.
pub fn fee_transfer(payer: &[u8; 32], funds: u64, payee: &[u8; 32]) -> (request: Result<
    TransferInstruction,
    Errors,
>)
    ensures
        funds < VOTING_FEE ==> request == Err::<TransferInstruction, Errors>(
            Errors::InsufficientFunds,
        ),
        funds >= VOTING_FEE ==> request.is_ok() && request.unwrap().moves(
            payer@,
            payee@,
            VOTING_FEE,
        ),
{
    if funds < VOTING_FEE {
        Err(Errors::InsufficientFunds)
    } else {
        Ok(system_transfer(payer, payee, VOTING_FEE))
    }
}

/// Judges a transfer that was asked of the host for a payer who held
/// `funds`: the fee that was paid, `InsufficientFunds` where the payer held
/// less than the fee, `TransferRejected` where the host declined for another
/// reason.
pub fn settle_fee(funds: u64, outcome: TransferOutcome) -> (paid: Result<u64, Errors>)
    ensures
        paid == fee_outcome(funds, outcome),
{
    if funds < VOTING_FEE {
        Err(Errors::InsufficientFunds)
    } else {
        match outcome {
            TransferOutcome::Declined => Err(Errors::TransferRejected),
            TransferOutcome::Completed => Ok(VOTING_FEE),
        }
    }
}

} // verus!
