//! The instruction model: what a transaction asks one program to do.
use vstd::prelude::*;
use vstd::string::{StrSliceExecFns, StringSliceAdditionalSpecFns};

verus! {

/// One account an instruction touches, with the access it needs.
#[derive(Clone, Copy, Debug, PartialEq, Eq)]
pub struct AccountMeta {
    pub pubkey: [u8; 32],
    pub is_signer: bool,
    pub is_writable: bool,
}

/// An instruction: the program to run, the accounts it reads or writes and
/// its encoded arguments.
#[derive(Clone, Debug, PartialEq, Eq)]
pub struct Instruction {
    pub program_id: [u8; 32],
    pub accounts: Vec<AccountMeta>,
    pub data: Vec<u8>,
}

/// The mathematical value of an instruction.
#[verifier::ext_equal]
pub struct InstructionModel {
    pub program_id: [u8; 32],
    pub accounts: Seq<AccountMeta>,
    pub data: Seq<u8>,
}

impl View for Instruction {
    type V = InstructionModel;

    open spec fn view(&self) -> InstructionModel {
        InstructionModel { program_id: self.program_id, accounts: self.accounts@, data: self.data@ }
    }
}

/// An account the instruction may change but that need not sign.
pub open spec fn writable(key: [u8; 32]) -> AccountMeta {
    AccountMeta { pubkey: key, is_signer: false, is_writable: true }
}

/// An account the instruction may change and that must sign.
pub open spec fn writable_signer(key: [u8; 32]) -> AccountMeta {
    AccountMeta { pubkey: key, is_signer: true, is_writable: true }
}

/// An account the instruction only reads.
pub open spec fn readonly(key: [u8; 32]) -> AccountMeta {
    AccountMeta { pubkey: key, is_signer: false, is_writable: false }
}

/// An account the instruction only reads but that must sign.
pub open spec fn readonly_signer(key: [u8; 32]) -> AccountMeta {
    AccountMeta { pubkey: key, is_signer: true, is_writable: false }
}

/// The instruction with the given parts.
pub open spec fn model(program_id: [u8; 32], accounts: Seq<AccountMeta>, data: Seq<u8>) -> InstructionModel {
    InstructionModel { program_id, accounts, data }
}

/// Two addresses with the same bytes are the same address.
pub proof fn same_bytes_same_key(x: [u8; 32], y: [u8; 32])
    requires
        x@ == y@,
    ensures
        x == y,
{
    broadcast use vstd::array::group_array_axioms;
    assert forall|i: int| 0 <= i < 32 implies x[i] == y[i] by {
        assert(x[i] == x@[i]);
        assert(y[i] == y@[i]);
    }
    assert(x =~= y);
}

/// The bytes of an address as a vector.
pub fn key_bytes(key: &[u8; 32]) -> (bytes: Vec<u8>)
    ensures
        bytes@ == key@,
{
    vstd::slice::slice_to_vec(vstd::array::array_as_slice(key))
}

/// A memo instruction: the memo program, no accounts, and the UTF-8 bytes
/// of the message as data.
pub fn memo_instruction(memo_program: [u8; 32], message: &str) -> (ix: Instruction)
    ensures
        ix@ == model(memo_program, Seq::empty(), message.spec_bytes()),
{
    let data = message.as_bytes_vec();
    Instruction { program_id: memo_program, accounts: Vec::new(), data }
}

} // verus!
