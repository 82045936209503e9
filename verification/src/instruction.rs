//! Instructions for the ledger's system program, as plain values.

use crate::address::Address;
use anchor_lang::solana_program::pubkey::Pubkey;
use anchor_lang::solana_program::system_instruction;
use vstd::prelude::*;

verus! {

/// An account that an instruction names, and how it is used.
#[derive(Clone, Copy, Debug, PartialEq, Eq)]
pub struct AccountMeta {
    pub address: Address,
    pub is_signer: bool,
    pub is_writable: bool,
}

/// An instruction for a program of the ledger: the program, the accounts it is handed, and
/// the bytes it is to read.
#[derive(Debug, PartialEq, Eq)]
pub struct Instruction {
    pub program_id: Address,
    pub accounts: Vec<AccountMeta>,
    pub data: Vec<u8>,
}

/// The address of the system program: thirty-two zero bytes.
pub open spec fn system_program() -> Seq<u8> {
    Seq::new(32, |i: int| 0u8)
}

/// The bytes that tell the system program to transfer `lamports`.
pub uninterp spec fn transfer_data(lamports: u64) -> Seq<u8>;

/// Whether the instruction asks the system program to move `lamports` out of `from`, which
/// signs, into `to`.
pub open spec fn is_transfer(ix: Instruction, from: Seq<u8>, to: Seq<u8>, lamports: u64) -> bool {
    &&& ix.program_id@ == system_program()
    &&& ix.accounts@.len() == 2
    &&& ix.accounts@[0].address@ == from
    &&& ix.accounts@[0].is_signer
    &&& ix.accounts@[0].is_writable
    &&& ix.accounts@[1].address@ == to
    &&& !ix.accounts@[1].is_signer
    &&& ix.accounts@[1].is_writable
    &&& ix.data@ == transfer_data(lamports)
}

/// `system_instruction::transfer` of solana_program: the instruction is addressed to the
/// system program and names two writable accounts, the sender as signer and then the
/// receiver. Its data is the serialised transfer order, which the contract only names.
#[verifier::external_body]
pub(crate) fn system_transfer(from: &Address, to: &Address, lamports: u64) -> (ix: Instruction)
    ensures
        ix.program_id@ == system_program(),
        ix.accounts@.len() == 2,
        ix.accounts@[0] == (AccountMeta { address: *from, is_signer: true, is_writable: true }),
        ix.accounts@[1] == (AccountMeta { address: *to, is_signer: false, is_writable: true }),
        ix.data@ == transfer_data(lamports),
{
    let from = Pubkey::new_from_array(from.bytes);
    let to = Pubkey::new_from_array(to.bytes);
    let ix = system_instruction::transfer(&from, &to, lamports);
    let program_id = Address { bytes: ix.program_id.to_bytes() };
    let mut accounts = Vec::new();
    for meta in ix.accounts.iter() {
        let (is_signer, is_writable) = (meta.is_signer, meta.is_writable);
        let address = Address { bytes: meta.pubkey.to_bytes() };
        accounts.push(AccountMeta { address, is_signer, is_writable });
    }
    Instruction { program_id, accounts, data: ix.data }
}

} // verus!
