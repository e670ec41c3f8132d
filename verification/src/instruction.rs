//! Instructions as plain values: the program they address, the accounts
//! they touch and their encoded payload.

use crate::address::Address;
use vstd::prelude::*;

verus! {

/// A reference from an instruction to an account.
#[derive(Clone, Copy, Debug, PartialEq, Eq)]
pub struct AccountMeta {
    pub address: Address,
    pub is_signer: bool,
    pub is_writable: bool,
}

impl AccountMeta {
    /// The reference with the given address bytes and flags.
    pub fn from_parts(bytes: [u8; 32], is_signer: bool, is_writable: bool) -> (r: AccountMeta)
        ensures
            r == (AccountMeta { address: Address { bytes }, is_signer, is_writable }),
    {
        AccountMeta { address: Address { bytes }, is_signer, is_writable }
    }
}

/// A writable account that need not sign.
pub open spec fn writable(address: Address) -> AccountMeta {
    AccountMeta { address, is_signer: false, is_writable: true }
}

/// A writable account that must sign.
pub open spec fn writable_signer(address: Address) -> AccountMeta {
    AccountMeta { address, is_signer: true, is_writable: true }
}

/// A read-only account that need not sign.
pub open spec fn readonly(address: Address) -> AccountMeta {
    AccountMeta { address, is_signer: false, is_writable: false }
}

/// A read-only account that must sign.
pub open spec fn readonly_signer(address: Address) -> AccountMeta {
    AccountMeta { address, is_signer: true, is_writable: false }
}

/// One instruction of a transaction.
#[derive(Clone, Debug, PartialEq, Eq)]
pub struct Instruction {
    pub program: Address,
    pub accounts: Vec<AccountMeta>,
    pub data: Vec<u8>,
}

/// What an instruction holds, as mathematical values.
pub struct InstructionView {
    pub program: Address,
    pub accounts: Seq<AccountMeta>,
    pub data: Seq<u8>,
}

impl View for Instruction {
    type V = InstructionView;

    open spec fn view(&self) -> InstructionView {
        InstructionView { program: self.program, accounts: self.accounts@, data: self.data@ }
    }
}

impl Instruction {
    /// The instruction with the given program address, accounts and payload.
    pub fn from_parts(program: [u8; 32], accounts: Vec<AccountMeta>, data: Vec<u8>) -> (r:
        Instruction)
        ensures
            r@ == (InstructionView {
                program: Address { bytes: program },
                accounts: accounts@,
                data: data@,
            }),
    {
        Instruction { program: Address { bytes: program }, accounts, data }
    }
}

/// The views of a list of instructions, in order.
pub open spec fn instruction_views(instructions: Seq<Instruction>) -> Seq<InstructionView> {
    instructions.map_values(|i: Instruction| i@)
}

/// The four bytes by which the payload of an instruction names the variant
/// `index` of its program's instruction set: the index as a 32-bit
/// little-endian integer.
pub open spec fn variant_tag(index: u8) -> Seq<u8> {
    seq![index, 0u8, 0u8, 0u8]
}

/// The eight bytes of a 64-bit integer in a payload, least significant
/// first.
pub open spec fn le_u64(value: u64) -> Seq<u8> {
    vstd::bytes::spec_u64_to_le_bytes(value)
}

} // verus!
