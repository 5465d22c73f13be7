//! Associated token accounts: where a wallet's account for a mint lives,
//! the instruction that creates it, and when a failed creation is harmless.
use crate::ids::{token_program_id, ASSOCIATED_TOKEN_PROGRAM_ID, SYSTEM_PROGRAM_ID, TOKEN_PROGRAM_ID};
use crate::pda::{find_program_address, program_address};
use crate::instruction::{key_bytes, model, readonly, writable, writable_signer, AccountMeta, Instruction};
use vstd::prelude::*;

verus! {

/// The seeds of an associated token account: the wallet, the token program
/// and the mint.
pub open spec fn ata_seeds(wallet: [u8; 32], token_program: [u8; 32], mint: [u8; 32]) -> Seq<Seq<u8>> {
    seq![wallet@, token_program@, mint@]
}

/// The associated token account of `wallet` for `mint` under the SPL Token
/// program, when its program-derived address can be found.
pub open spec fn associated_token_address_of(wallet: [u8; 32], mint: [u8; 32]) -> Option<[u8; 32]> {
    match program_address(ata_seeds(wallet, TOKEN_PROGRAM_ID, mint), ASSOCIATED_TOKEN_PROGRAM_ID) {
        Some(found) => Some(found.0),
        None => None,
    }
}

/// The address of the Associated Token Account program, as
/// `spl_associated_token_account::ID` gives it. It is
/// `ATokenGPvbdGVxr1b2hvZbsiqW5xWH25efTNsLJA8knL`, whose bytes are
/// `ASSOCIATED_TOKEN_PROGRAM_ID`. Verus takes this contract on trust.
#[verifier::external_body]
pub fn associated_token_program_id() -> (id: [u8; 32])
    ensures
        id == ASSOCIATED_TOKEN_PROGRAM_ID,
{
    spl_associated_token_account::ID.to_bytes()
}

/// `spl_associated_token_account::get_associated_token_address`. It is the
/// program-derived address of the seeds `[wallet, SPL Token program, mint]`
/// under the Associated Token Account program (found by `find_program_address`,
/// which panics when the search finds nothing, so the search must succeed).
/// Verus takes this contract on trust.
#[verifier::external_body]
pub fn get_associated_token_address(wallet: [u8; 32], mint: [u8; 32]) -> (ata: [u8; 32])
    requires
        program_address(ata_seeds(wallet, TOKEN_PROGRAM_ID, mint), ASSOCIATED_TOKEN_PROGRAM_ID) is Some,
    ensures
        associated_token_address_of(wallet, mint) == Some(ata),
{
    #[allow(deprecated)]
    spl_associated_token_account::get_associated_token_address(&wallet.into(), &mint.into()).to_bytes()
}

/// `spl_associated_token_account::instruction::create_associated_token_account`.
/// Returns an instruction to the Associated Token Account program with data
/// `[0]` and accounts: the funder (writable signer), the new account
/// (writable), the wallet, the mint, the System program and the token program
/// (read-only), where the new account is the program-derived address of
/// `[wallet, token program, mint]` under the Associated Token Account program.
/// That search must succeed, since the crate panics when it finds nothing.
/// Verus takes this contract on trust.
#[verifier::external_body]
pub fn create_associated_token_account(
    funding: [u8; 32],
    wallet: [u8; 32],
    mint: [u8; 32],
    token_program: [u8; 32],
) -> (ix: Instruction)
    requires
        program_address(ata_seeds(wallet, token_program, mint), ASSOCIATED_TOKEN_PROGRAM_ID) is Some,
    ensures
        ix@ == model(
            ASSOCIATED_TOKEN_PROGRAM_ID,
            seq![
                writable_signer(funding),
                writable((program_address(ata_seeds(wallet, token_program, mint), ASSOCIATED_TOKEN_PROGRAM_ID)->0).0),
                readonly(wallet),
                readonly(mint),
                readonly(SYSTEM_PROGRAM_ID),
                readonly(token_program),
            ],
            seq![0u8],
        ),
{
    let ix = spl_associated_token_account::instruction::create_associated_token_account(&funding.into(), &wallet.into(), &mint.into(), &token_program.into());
    Instruction { program_id: ix.program_id.to_bytes(), accounts: ix.accounts.iter().map(|m| AccountMeta { pubkey: m.pubkey.to_bytes(), is_signer: m.is_signer, is_writable: m.is_writable }).collect(), data: ix.data }
}

/// Builds the seeds of an associated token account.
pub fn associated_token_seeds(wallet: [u8; 32], token_program: [u8; 32], mint: [u8; 32]) -> (seeds: Vec<Vec<u8>>)
    ensures
        seeds.deep_view() == ata_seeds(wallet, token_program, mint),
{
    let mut seeds: Vec<Vec<u8>> = Vec::new();
    seeds.push(key_bytes(&wallet));
    seeds.push(key_bytes(&token_program));
    seeds.push(key_bytes(&mint));
    assert(seeds.deep_view() =~= ata_seeds(wallet, token_program, mint)) by {
        assert(seeds.deep_view()[0] == seeds@[0]@);
        assert(seeds.deep_view()[1] == seeds@[1]@);
        assert(seeds.deep_view()[2] == seeds@[2]@);
    }
    seeds
}

/// Whether the associated token account of `wallet` for `mint` under the
/// SPL Token program can be derived; when it can, deriving it (and building
/// the instruction that creates it) cannot fail.
pub fn associated_token_address_derivable(wallet: [u8; 32], mint: [u8; 32]) -> (found: bool)
    ensures
        found <==> program_address(ata_seeds(wallet, TOKEN_PROGRAM_ID, mint), ASSOCIATED_TOKEN_PROGRAM_ID) is Some,
{
    let seeds = associated_token_seeds(wallet, token_program_id(), mint);
    find_program_address(&seeds, associated_token_program_id()).is_some()
}

/// How sending a transaction failed, as far as deciding about it needs.
#[derive(Clone, Debug, PartialEq, Eq)]
pub enum SendFailure {
    /// The RPC node answered with an error response carrying this message.
    RpcResponse { message: String },
    /// The RPC client failed in another way.
    OtherClientError,
    /// The failure did not come from the RPC client at all.
    NotClientError,
}

/// The response message the node gives when the associated token account
/// to be created exists already.
pub open spec fn account_exists_message() -> Seq<char> {
    "Provided owner is not allowed"@
}

/// Whether a failed creation of an associated token account only means
/// that the account exists already, so that the client can go on with it.
pub fn creation_failure_means_exists(failure: &SendFailure) -> (exists: bool)
    ensures
        exists <==> (failure matches SendFailure::RpcResponse { message } && message@ == account_exists_message()),
{
    match failure {
        SendFailure::RpcResponse { message } => {
            let expected = "Provided owner is not allowed".to_owned();
            *message == expected
        },
        _ => false,
    }
}

} // verus!
