//! Token metadata: the account that holds it, the instruction that creates
//! it and the fields read back from it.
use crate::ids::{metadata_program_id, METADATA_PROGRAM_ID};
use crate::pda::{find_program_address, program_address};
use crate::instruction::{key_bytes, model, readonly, readonly_signer, writable, writable_signer, AccountMeta, Instruction};
use mpl_token_metadata::accounts::Metadata;
use mpl_token_metadata::instructions::CreateMetadataAccountV3Builder;
use mpl_token_metadata::types::DataV2;
use vstd::bytes::{spec_u16_to_le_bytes, spec_u32_to_le_bytes};
use vstd::prelude::*;
use vstd::utf8::encode_utf8;

verus! {

/// The bytes of the word `metadata`, the first seed of a metadata account.
pub open spec fn metadata_prefix() -> Seq<u8> {
    seq![109u8, 101, 116, 97, 100, 97, 116, 97]
}

/// The seeds of the metadata account of a mint: `metadata`, the metadata
/// program and the mint.
pub open spec fn metadata_seeds_of(mint: [u8; 32]) -> Seq<Seq<u8>> {
    seq![metadata_prefix(), METADATA_PROGRAM_ID@, mint@]
}

/// The address of the metadata account of a mint, when it can be derived.
pub open spec fn metadata_address_of(mint: [u8; 32]) -> Option<[u8; 32]> {
    match program_address(metadata_seeds_of(mint), METADATA_PROGRAM_ID) {
        Some(found) => Some(found.0),
        None => None,
    }
}

/// Builds the seeds of the metadata account of a mint.
pub fn metadata_seeds(mint: [u8; 32]) -> (seeds: Vec<Vec<u8>>)
    ensures
        seeds.deep_view() == metadata_seeds_of(mint),
{
    let prefix: Vec<u8> = vec![109u8, 101, 116, 97, 100, 97, 116, 97];
    let program = metadata_program_id();
    let program_bytes = key_bytes(&program);
    let mint_bytes = key_bytes(&mint);
    assert(prefix@ =~= metadata_prefix());
    let mut seeds: Vec<Vec<u8>> = Vec::new();
    seeds.push(prefix);
    seeds.push(program_bytes);
    seeds.push(mint_bytes);
    assert(seeds.deep_view() =~= metadata_seeds_of(mint)) by {
        assert(seeds.deep_view()[0] == seeds@[0]@);
        assert(seeds.deep_view()[1] == seeds@[1]@);
        assert(seeds.deep_view()[2] == seeds@[2]@);
    }
    seeds
}

/// The metadata account of a mint: the program-derived address of its seeds
/// under the metadata program; `None` when no such address can be found.
pub fn metadata_address(mint: [u8; 32]) -> (address: Option<[u8; 32]>)
    ensures
        address == metadata_address_of(mint),
{
    let seeds = metadata_seeds(mint);
    let program = metadata_program_id();
    match find_program_address(&seeds, program) {
        Some((key, _bump)) => Some(key),
        None => None,
    }
}

/// A string as borsh encodes it: its UTF-8 length as a little-endian `u32`,
/// then its UTF-8 bytes.
pub open spec fn borsh_string(s: Seq<char>) -> Seq<u8> {
    spec_u32_to_le_bytes(encode_utf8(s).len() as u32) + encode_utf8(s)
}

/// Whether a string's UTF-8 length fits the `u32` prefix borsh gives it.
pub open spec fn borsh_encodable(s: Seq<char>) -> bool {
    encode_utf8(s).len() <= u32::MAX
}

/// A string's UTF-8 encoding takes at most four bytes per character.
pub proof fn utf8_length_bound(s: Seq<char>)
    ensures
        encode_utf8(s).len() <= 4 * s.len(),
    decreases s.len(),
{
    if s.len() > 0 {
        utf8_length_bound(s.drop_first());
    }
}

/// Strings of up to a billion characters fit borsh's length prefix.
pub proof fn short_strings_are_encodable(s: Seq<char>)
    requires
        s.len() <= 1_000_000_000,
    ensures
        borsh_encodable(s),
{
    utf8_length_bound(s);
}

/// Data of `CreateMetadataAccountV3` for metadata without creators,
/// collection or uses and without collection details: the discriminator 33,
/// the name, symbol and uri, the seller fee, three absent options, the
/// mutability flag and one more absent option.
pub open spec fn create_metadata_data(
    name: Seq<char>,
    symbol: Seq<char>,
    uri: Seq<char>,
    seller_fee_basis_points: u16,
    is_mutable: bool,
) -> Seq<u8> {
    seq![33u8] + borsh_string(name) + borsh_string(symbol) + borsh_string(uri)
        + spec_u16_to_le_bytes(seller_fee_basis_points) + seq![0u8, 0u8, 0u8]
        + seq![if is_mutable { 1u8 } else { 0u8 }] + seq![0u8]
}

/// The accounts of `CreateMetadataAccountV3` when no rent account is given.
pub open spec fn create_metadata_accounts(
    metadata: [u8; 32],
    mint: [u8; 32],
    mint_authority: [u8; 32],
    payer: [u8; 32],
    update_authority: [u8; 32],
    update_authority_signs: bool,
    system_program: [u8; 32],
) -> Seq<AccountMeta> {
    seq![
        writable(metadata),
        readonly(mint),
        readonly_signer(mint_authority),
        writable_signer(payer),
        AccountMeta { pubkey: update_authority, is_signer: update_authority_signs, is_writable: false },
        readonly(system_program),
    ]
}

/// `CreateMetadataAccountV3Builder::instruction` of `mpl_token_metadata`, with
/// every account, the data (no creators, collection or uses) and the mutability
/// set, and no rent account or collection details. Returns an instruction to
/// the metadata program with the accounts of `create_metadata_accounts` and the
/// borsh encoding of `create_metadata_data`. The builder panics when borsh
/// cannot encode a string, so the strings' UTF-8 lengths must fit in a `u32`.
/// Verus takes this contract on trust.
#[verifier::external_body]
pub fn create_metadata_account_v3(
    metadata: [u8; 32],
    mint: [u8; 32],
    mint_authority: [u8; 32],
    payer: [u8; 32],
    update_authority: [u8; 32],
    update_authority_signs: bool,
    system_program: [u8; 32],
    name: String,
    symbol: String,
    uri: String,
    seller_fee_basis_points: u16,
    is_mutable: bool,
) -> (ix: Instruction)
    requires
        borsh_encodable(name@),
        borsh_encodable(symbol@),
        borsh_encodable(uri@),
    ensures
        ix@ == model(
            METADATA_PROGRAM_ID,
            create_metadata_accounts(metadata, mint, mint_authority, payer, update_authority, update_authority_signs, system_program),
            create_metadata_data(name@, symbol@, uri@, seller_fee_basis_points, is_mutable),
        ),
{
    let data = DataV2 { name, symbol, uri, seller_fee_basis_points, creators: None, collection: None, uses: None };
    let ix = CreateMetadataAccountV3Builder::new().metadata(metadata.into()).mint(mint.into()).mint_authority(mint_authority.into()).payer(payer.into())
        .update_authority(update_authority.into(), update_authority_signs).system_program(system_program.into()).data(data).is_mutable(is_mutable).instruction();
    Instruction { program_id: ix.program_id.to_bytes(), accounts: ix.accounts.iter().map(|m| AccountMeta { pubkey: m.pubkey.to_bytes(), is_signer: m.is_signer, is_writable: m.is_writable }).collect(), data: ix.data }
}

/// The fields of a metadata account that the client shows.
#[derive(Clone, Debug, PartialEq, Eq)]
pub struct MetadataSummary {
    pub update_authority: [u8; 32],
    pub mint: [u8; 32],
    pub name: String,
    pub symbol: String,
    pub uri: String,
    pub is_mutable: bool,
    /// How many creators the metadata lists, when it lists any.
    pub creator_count: Option<usize>,
}

/// The fields of a metadata account as values: update authority, mint,
/// name, symbol, uri, mutability and the number of listed creators.
pub open spec fn summary_fields(m: MetadataSummary) -> ([u8; 32], [u8; 32], Seq<char>, Seq<char>, Seq<char>, bool, Option<usize>) {
    (m.update_authority, m.mint, m.name@, m.symbol@, m.uri@, m.is_mutable, m.creator_count)
}

/// What the borsh decoding of a `Metadata` account gives for the shown
/// fields, or `None` when the bytes do not decode.
pub uninterp spec fn decoded_metadata(data: Seq<u8>) -> Option<([u8; 32], [u8; 32], Seq<char>, Seq<char>, Seq<char>, bool, Option<usize>)>;

/// Why the bytes of a metadata account did not decode: the message of the
/// decoder's error.
#[derive(Clone, Debug, PartialEq, Eq)]
pub struct MetadataDecodeError {
    pub message: String,
}

/// `Metadata::from_bytes` of `mpl_token_metadata` (the borsh decoding of a
/// metadata account from the start of the data). Whether it succeeds, and
/// what it gives, depends on the bytes alone and is named
/// `decoded_metadata`; on failure the error's message is borsh's own and is
/// not stated. Verus takes this contract on trust.
#[verifier::external_body]
pub fn decode_metadata(data: &[u8]) -> (r: Result<MetadataSummary, MetadataDecodeError>)
    ensures
        match r {
            Ok(m) => decoded_metadata(data@) == Some(summary_fields(m)),
            Err(_) => decoded_metadata(data@) is None,
        },
{
    Metadata::from_bytes(data).map(|m| MetadataSummary { update_authority: m.update_authority.to_bytes(), mint: m.mint.to_bytes(), name: m.name,
        symbol: m.symbol, uri: m.uri, is_mutable: m.is_mutable, creator_count: m.creators.map(|c| c.len()) })
        .map_err(|e| MetadataDecodeError { message: e.to_string() })
}

/// The number of creators to show: none listed counts as zero.
pub fn creators_shown(summary: &MetadataSummary) -> (count: usize)
    ensures
        count == match summary.creator_count {
            Some(n) => n,
            None => 0,
        },
{
    match summary.creator_count {
        Some(n) => n,
        None => 0,
    }
}

} // verus!
