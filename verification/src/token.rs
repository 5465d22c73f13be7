//! Instructions of the SPL Token program, built by `spl_token`, and the
//! layout of the arguments they carry.
use crate::ids::{RENT_SYSVAR_ID, TOKEN_PROGRAM_ID};
use crate::instruction::{model, readonly, readonly_signer, writable, AccountMeta, Instruction};
use spl_token::solana_program::program_error::ProgramError;
use spl_token::solana_program::pubkey::Pubkey as TokenKey;
use vstd::bytes::spec_u64_to_le_bytes;
use vstd::prelude::*;

verus! {

#[verifier::external_type_specification]
#[verifier::external_body]
pub struct ExternalProgramError(ProgramError);

/// The accounts that authorise a token instruction: the authority itself,
/// which signs only when no multisignature signers are given, followed by
/// each of those signers.
pub open spec fn authority_metas(authority: [u8; 32], signers: Seq<[u8; 32]>) -> Seq<AccountMeta> {
    seq![AccountMeta { pubkey: authority, is_signer: signers.len() == 0, is_writable: false }]
        + signers.map_values(|s: [u8; 32]| readonly_signer(s))
}

/// Instruction data made of a one-byte tag and a little-endian amount.
pub open spec fn amount_data(tag: u8, amount: u64) -> Seq<u8> {
    seq![tag] + spec_u64_to_le_bytes(amount)
}

/// An optional address as the token program encodes it in instruction data.
pub open spec fn optional_key_data(key: Option<[u8; 32]>) -> Seq<u8> {
    match key {
        Some(k) => seq![1u8] + k@,
        None => seq![0u8],
    }
}

/// Data of `InitializeMint`.
pub open spec fn initialize_mint_data(decimals: u8, authority: [u8; 32], freeze: Option<[u8; 32]>) -> Seq<u8> {
    seq![0u8, decimals] + authority@ + optional_key_data(freeze)
}

/// `spl_token::instruction::initialize_mint`. It fails exactly when the program
/// is not the token program; otherwise the instruction goes to that program
/// with the mint (writable) and the rent sysvar, and data `[0, decimals] ++
/// authority ++ freeze option`. Verus takes this contract on trust.
#[verifier::external_body]
pub fn spl_initialize_mint(
    token_program: [u8; 32],
    mint: [u8; 32],
    mint_authority: [u8; 32],
    freeze_authority: Option<[u8; 32]>,
    decimals: u8,
) -> (r: Result<Instruction, ProgramError>)
    ensures
        r is Ok <==> token_program == TOKEN_PROGRAM_ID,
        r matches Ok(ix) ==> ix@ == model(
            token_program,
            seq![writable(mint), readonly(RENT_SYSVAR_ID)],
            initialize_mint_data(decimals, mint_authority, freeze_authority),
        ),
{
    let freeze = freeze_authority.map(TokenKey::from);
    spl_token::instruction::initialize_mint(&token_program.into(), &mint.into(), &mint_authority.into(), freeze.as_ref(), decimals)
        .map(|ix| Instruction { program_id: ix.program_id.to_bytes(), accounts: ix.accounts.iter().map(|m| AccountMeta { pubkey: m.pubkey.to_bytes(), is_signer: m.is_signer, is_writable: m.is_writable }).collect(), data: ix.data })
}

/// `spl_token::instruction::mint_to`. It fails exactly when the program is not
/// the token program; otherwise the accounts are the mint and the destination
/// (both writable) and the authority accounts, and the data is tag 7 and the
/// amount. Verus takes this contract on trust.
#[verifier::external_body]
pub fn spl_mint_to(
    token_program: [u8; 32],
    mint: [u8; 32],
    destination: [u8; 32],
    authority: [u8; 32],
    signers: &Vec<[u8; 32]>,
    amount: u64,
) -> (r: Result<Instruction, ProgramError>)
    ensures
        r is Ok <==> token_program == TOKEN_PROGRAM_ID,
        r matches Ok(ix) ==> ix@ == model(
            token_program,
            seq![writable(mint), writable(destination)] + authority_metas(authority, signers@),
            amount_data(7, amount),
        ),
{
    let keys: Vec<TokenKey> = signers.iter().map(|s| TokenKey::from(*s)).collect();
    let refs: Vec<&TokenKey> = keys.iter().collect();
    spl_token::instruction::mint_to(&token_program.into(), &mint.into(), &destination.into(), &authority.into(), &refs, amount)
        .map(|ix| Instruction { program_id: ix.program_id.to_bytes(), accounts: ix.accounts.iter().map(|m| AccountMeta { pubkey: m.pubkey.to_bytes(), is_signer: m.is_signer, is_writable: m.is_writable }).collect(), data: ix.data })
}

/// `spl_token::instruction::burn`. It fails exactly when the program is not the
/// token program; otherwise the accounts are the token account and the mint
/// (both writable) and the authority accounts, and the data is tag 8 and the
/// amount. Verus takes this contract on trust.
#[verifier::external_body]
pub fn spl_burn(
    token_program: [u8; 32],
    account: [u8; 32],
    mint: [u8; 32],
    authority: [u8; 32],
    signers: &Vec<[u8; 32]>,
    amount: u64,
) -> (r: Result<Instruction, ProgramError>)
    ensures
        r is Ok <==> token_program == TOKEN_PROGRAM_ID,
        r matches Ok(ix) ==> ix@ == model(
            token_program,
            seq![writable(account), writable(mint)] + authority_metas(authority, signers@),
            amount_data(8, amount),
        ),
{
    let keys: Vec<TokenKey> = signers.iter().map(|s| TokenKey::from(*s)).collect();
    let refs: Vec<&TokenKey> = keys.iter().collect();
    spl_token::instruction::burn(&token_program.into(), &account.into(), &mint.into(), &authority.into(), &refs, amount)
        .map(|ix| Instruction { program_id: ix.program_id.to_bytes(), accounts: ix.accounts.iter().map(|m| AccountMeta { pubkey: m.pubkey.to_bytes(), is_signer: m.is_signer, is_writable: m.is_writable }).collect(), data: ix.data })
}

/// `spl_token::instruction::transfer`. It fails exactly when the program is not
/// the token program; otherwise the accounts are the source and the destination
/// (both writable) and the authority accounts, and the data is tag 3 and the
/// amount. Verus takes this contract on trust.
#[verifier::external_body]
pub fn spl_transfer(
    token_program: [u8; 32],
    source: [u8; 32],
    destination: [u8; 32],
    authority: [u8; 32],
    signers: &Vec<[u8; 32]>,
    amount: u64,
) -> (r: Result<Instruction, ProgramError>)
    ensures
        r is Ok <==> token_program == TOKEN_PROGRAM_ID,
        r matches Ok(ix) ==> ix@ == model(
            token_program,
            seq![writable(source), writable(destination)] + authority_metas(authority, signers@),
            amount_data(3, amount),
        ),
{
    let keys: Vec<TokenKey> = signers.iter().map(|s| TokenKey::from(*s)).collect();
    let refs: Vec<&TokenKey> = keys.iter().collect();
    spl_token::instruction::transfer(&token_program.into(), &source.into(), &destination.into(), &authority.into(), &refs, amount)
        .map(|ix| Instruction { program_id: ix.program_id.to_bytes(), accounts: ix.accounts.iter().map(|m| AccountMeta { pubkey: m.pubkey.to_bytes(), is_signer: m.is_signer, is_writable: m.is_writable }).collect(), data: ix.data })
}

/// `spl_token::instruction::freeze_account`. It fails exactly when the program
/// is not the token program; otherwise the accounts are the token account
/// (writable), the mint (read-only) and the authority accounts, and the data is
/// the single byte 10. Verus takes this contract on trust.
#[verifier::external_body]
pub fn spl_freeze_account(
    token_program: [u8; 32],
    account: [u8; 32],
    mint: [u8; 32],
    authority: [u8; 32],
    signers: &Vec<[u8; 32]>,
) -> (r: Result<Instruction, ProgramError>)
    ensures
        r is Ok <==> token_program == TOKEN_PROGRAM_ID,
        r matches Ok(ix) ==> ix@ == model(
            token_program,
            seq![writable(account), readonly(mint)] + authority_metas(authority, signers@),
            seq![10u8],
        ),
{
    let keys: Vec<TokenKey> = signers.iter().map(|s| TokenKey::from(*s)).collect();
    let refs: Vec<&TokenKey> = keys.iter().collect();
    spl_token::instruction::freeze_account(&token_program.into(), &account.into(), &mint.into(), &authority.into(), &refs)
        .map(|ix| Instruction { program_id: ix.program_id.to_bytes(), accounts: ix.accounts.iter().map(|m| AccountMeta { pubkey: m.pubkey.to_bytes(), is_signer: m.is_signer, is_writable: m.is_writable }).collect(), data: ix.data })
}

/// `spl_token::instruction::close_account`. It fails exactly when the program
/// is not the token program; otherwise the accounts are the token account and
/// the destination (both writable) and the authority accounts, and the data is
/// the single byte 9. Verus takes this contract on trust.
#[verifier::external_body]
pub fn spl_close_account(
    token_program: [u8; 32],
    account: [u8; 32],
    destination: [u8; 32],
    authority: [u8; 32],
    signers: &Vec<[u8; 32]>,
) -> (r: Result<Instruction, ProgramError>)
    ensures
        r is Ok <==> token_program == TOKEN_PROGRAM_ID,
        r matches Ok(ix) ==> ix@ == model(
            token_program,
            seq![writable(account), writable(destination)] + authority_metas(authority, signers@),
            seq![9u8],
        ),
{
    let keys: Vec<TokenKey> = signers.iter().map(|s| TokenKey::from(*s)).collect();
    let refs: Vec<&TokenKey> = keys.iter().collect();
    spl_token::instruction::close_account(&token_program.into(), &account.into(), &destination.into(), &authority.into(), &refs)
        .map(|ix| Instruction { program_id: ix.program_id.to_bytes(), accounts: ix.accounts.iter().map(|m| AccountMeta { pubkey: m.pubkey.to_bytes(), is_signer: m.is_signer, is_writable: m.is_writable }).collect(), data: ix.data })
}

/// `spl_token::instruction::sync_native`. It fails exactly when the program is
/// not the token program; otherwise the only account is the native token
/// account (writable) and the data is the single byte 17. Verus takes this
/// contract on trust.
#[verifier::external_body]
pub fn spl_sync_native(token_program: [u8; 32], account: [u8; 32]) -> (r: Result<Instruction, ProgramError>)
    ensures
        r is Ok <==> token_program == TOKEN_PROGRAM_ID,
        r matches Ok(ix) ==> ix@ == model(token_program, seq![writable(account)], seq![17u8]),
{
    spl_token::instruction::sync_native(&token_program.into(), &account.into())
        .map(|ix| Instruction { program_id: ix.program_id.to_bytes(), accounts: ix.accounts.iter().map(|m| AccountMeta { pubkey: m.pubkey.to_bytes(), is_signer: m.is_signer, is_writable: m.is_writable }).collect(), data: ix.data })
}

} // verus!
