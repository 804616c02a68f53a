use vstd::prelude::*;
use crate::pubkey::Pubkey;
use crate::sweep::SweepExceptBadseed;

verus! {

/// One account that an instruction names: its address, whether it signs the
/// transaction, and whether the program may write to it.
#[derive(Clone, Copy, Debug, PartialEq, Eq)]
pub struct AccountMeta {
    pub pubkey: Pubkey,
    pub is_signer: bool,
    pub is_writable: bool,
}

/// An instruction for a program of the runtime: the program, the accounts
/// that it is given, and the data that it reads.
#[derive(Clone, Debug, PartialEq, Eq)]
pub struct Instruction {
    pub program_id: Pubkey,
    pub accounts: Vec<AccountMeta>,
    pub data: Vec<u8>,
}

/// The address of the system program: thirty-two zero bytes.
pub open spec fn spec_system_program(key: Pubkey) -> bool {
    forall|i: int| 0 <= i < 32 ==> key.bytes[i] == 0u8
}

/// The data of the instruction that `system_instruction::transfer` of
/// solana makes for this number of lamports.
pub uninterp spec fn system_transfer_data(lamports: u64) -> Seq<u8>;

/// Calls `solana_system_interface::instruction::transfer`, which anchor
/// hands on as `anchor_lang::solana_program::system_instruction::transfer`,
/// and copies the instruction that it returns field by field.
///
/// The contract states what the source of `transfer` shows: the program is
/// the system program; the accounts are `from`, which signs and is written
/// to, and `to`, which is written to; the data depends on `lamports` alone,
/// and is only named.
#[verifier::external_body]
fn system_transfer(from: &Pubkey, to: &Pubkey, lamports: u64) -> (ix: Instruction)
    ensures
        spec_system_program(ix.program_id),
        ix.accounts@ == seq![
            (AccountMeta { pubkey: *from, is_signer: true, is_writable: true }),
            (AccountMeta { pubkey: *to, is_signer: false, is_writable: true }),
        ],
        ix.data@ == system_transfer_data(lamports),
{
    let from = anchor_lang::prelude::Pubkey::new_from_array(from.bytes);
    let to = anchor_lang::prelude::Pubkey::new_from_array(to.bytes);
    let ix = anchor_lang::solana_program::system_instruction::transfer(&from, &to, lamports);
    let meta = |m: &anchor_lang::prelude::AccountMeta| AccountMeta {
        pubkey: Pubkey { bytes: m.pubkey.to_bytes() },
        is_signer: m.is_signer,
        is_writable: m.is_writable,
    };
    let program_id = Pubkey { bytes: ix.program_id.to_bytes() };
    Instruction { program_id, accounts: ix.accounts.iter().map(meta).collect(), data: ix.data }
}

impl SweepExceptBadseed {
    /// The instruction that performs the step `TransferNative { amount }`: it
    /// asks the system program to move `amount` lamports from the signer's
    /// wallet, which signs, to the destination.
    pub fn native_transfer(&self, amount: u64) -> (ix: Instruction)
        ensures
            spec_system_program(ix.program_id),
            ix.accounts@ == seq![
                (AccountMeta { pubkey: self.user_wallet, is_signer: true, is_writable: true }),
                (AccountMeta {
                    pubkey: self.sweep_destination,
                    is_signer: false,
                    is_writable: true,
                }),
            ],
            ix.data@ == system_transfer_data(amount),
    {
        system_transfer(&self.user_wallet, &self.sweep_destination, amount)
    }
}

} // verus!
