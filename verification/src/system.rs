//! Instructions of the System and Compute Budget programs.
use crate::ids::{COMPUTE_BUDGET_PROGRAM_ID, SYSTEM_PROGRAM_ID};
use crate::instruction::{model, writable, writable_signer, AccountMeta, Instruction};
use solana_compute_budget_interface::ComputeBudgetInstruction;
use vstd::bytes::{spec_u32_to_le_bytes, spec_u64_to_le_bytes};
use vstd::prelude::*;

verus! {

/// Data of the System program's `Transfer`: the variant index 2 as a
/// little-endian `u32`, then the lamports.
pub open spec fn system_transfer_data(lamports: u64) -> Seq<u8> {
    spec_u32_to_le_bytes(2) + spec_u64_to_le_bytes(lamports)
}

/// Data of the System program's `CreateAccount`: the variant index 0, the
/// lamports, the space and the owning program.
pub open spec fn create_account_data(lamports: u64, space: u64, owner: [u8; 32]) -> Seq<u8> {
    spec_u32_to_le_bytes(0) + spec_u64_to_le_bytes(lamports) + spec_u64_to_le_bytes(space) + owner@
}

/// Data of `SetComputeUnitLimit`: tag 2 and the unit count.
pub open spec fn compute_unit_limit_data(units: u32) -> Seq<u8> {
    seq![2u8] + spec_u32_to_le_bytes(units)
}

/// Data of `SetComputeUnitPrice`: tag 3 and the price in micro-lamports.
pub open spec fn compute_unit_price_data(micro_lamports: u64) -> Seq<u8> {
    seq![3u8] + spec_u64_to_le_bytes(micro_lamports)
}

/// `solana_system_interface::instruction::transfer`. Returns a System program
/// instruction whose accounts are the payer (writable signer) and the recipient
/// (writable), with the bincode encoding of `Transfer { lamports }` as data.
/// Verus takes this contract on trust.
#[verifier::external_body]
pub fn system_transfer(from: [u8; 32], to: [u8; 32], lamports: u64) -> (ix: Instruction)
    ensures
        ix@ == model(SYSTEM_PROGRAM_ID, seq![writable_signer(from), writable(to)], system_transfer_data(lamports)),
{
    let ix = solana_system_interface::instruction::transfer(&from.into(), &to.into(), lamports);
    Instruction { program_id: ix.program_id.to_bytes(), accounts: ix.accounts.iter().map(|m| AccountMeta { pubkey: m.pubkey.to_bytes(), is_signer: m.is_signer, is_writable: m.is_writable }).collect(), data: ix.data }
}

/// `solana_system_interface::instruction::create_account`. Returns a System
/// program instruction whose accounts are the payer and the new account (both
/// writable signers), with the bincode encoding of `CreateAccount { lamports,
/// space, owner }` as data. Verus takes this contract on trust.
#[verifier::external_body]
pub fn system_create_account(from: [u8; 32], to: [u8; 32], lamports: u64, space: u64, owner: [u8; 32]) -> (ix: Instruction)
    ensures
        ix@ == model(
            SYSTEM_PROGRAM_ID,
            seq![writable_signer(from), writable_signer(to)],
            create_account_data(lamports, space, owner),
        ),
{
    let ix = solana_system_interface::instruction::create_account(&from.into(), &to.into(), lamports, space, &owner.into());
    Instruction { program_id: ix.program_id.to_bytes(), accounts: ix.accounts.iter().map(|m| AccountMeta { pubkey: m.pubkey.to_bytes(), is_signer: m.is_signer, is_writable: m.is_writable }).collect(), data: ix.data }
}

/// `ComputeBudgetInstruction::set_compute_unit_limit`. Returns a Compute Budget
/// instruction with no accounts and data `[2] ++ units (little-endian)`. Verus
/// takes this contract on trust.
#[verifier::external_body]
pub fn compute_unit_limit(units: u32) -> (ix: Instruction)
    ensures
        ix@ == model(COMPUTE_BUDGET_PROGRAM_ID, Seq::empty(), compute_unit_limit_data(units)),
{
    let ix = ComputeBudgetInstruction::set_compute_unit_limit(units);
    Instruction { program_id: ix.program_id.to_bytes(), accounts: ix.accounts.iter().map(|m| AccountMeta { pubkey: m.pubkey.to_bytes(), is_signer: m.is_signer, is_writable: m.is_writable }).collect(), data: ix.data }
}

/// `ComputeBudgetInstruction::set_compute_unit_price`. Returns a Compute Budget
/// instruction with no accounts and data `[3] ++ micro_lamports
/// (little-endian)`. Verus takes this contract on trust.
#[verifier::external_body]
pub fn compute_unit_price(micro_lamports: u64) -> (ix: Instruction)
    ensures
        ix@ == model(COMPUTE_BUDGET_PROGRAM_ID, Seq::empty(), compute_unit_price_data(micro_lamports)),
{
    let ix = ComputeBudgetInstruction::set_compute_unit_price(micro_lamports);
    Instruction { program_id: ix.program_id.to_bytes(), accounts: ix.accounts.iter().map(|m| AccountMeta { pubkey: m.pubkey.to_bytes(), is_signer: m.is_signer, is_writable: m.is_writable }).collect(), data: ix.data }
}

} // verus!
