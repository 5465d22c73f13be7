//! What the planned instructions do, read back from their accounts and
//! bytes: which account each one debits, credits, creates or closes, and
//! which amounts, sizes and strings its data carries.
use crate::ids::{ASSOCIATED_TOKEN_PROGRAM_ID, COMPUTE_BUDGET_PROGRAM_ID, SYSTEM_PROGRAM_ID, TOKEN_PROGRAM_ID};
use crate::instruction::AccountMeta;
use crate::plan::{
    burn_ix, centisol, centisol_transfers, close_ix, create_ata_ix, create_metadata_ix, create_mint_instructions,
    freeze_ix, memo_ix, mint_to_ix, nft_plan_models, sol_transfer_ix, sync_native_ix, transfer_ix, unit_limit_ix,
    unit_price_ix,
};
use crate::ata::ata_seeds;
use crate::metadata::metadata_seeds_of;
use crate::ids::METADATA_PROGRAM_ID;
use crate::state::MINT_LEN;
use vstd::bytes::{
    lemma_auto_spec_u32_to_from_le_bytes, lemma_auto_spec_u64_to_from_le_bytes, spec_u32_from_le_bytes,
    spec_u64_from_le_bytes,
};
use vstd::prelude::*;
use vstd::utf8::encode_utf8;

verus! {

/// An account the instruction writes without its signature.
pub open spec fn written(key: [u8; 32]) -> AccountMeta {
    AccountMeta { pubkey: key, is_signer: false, is_writable: true }
}

/// Whether `data` is a token-program tag followed by `amount` in eight
/// little-endian bytes.
pub open spec fn tag_and_amount(data: Seq<u8>, tag: u8, amount: u64) -> bool {
    &&& data.len() == 9
    &&& data[0] == tag
    &&& spec_u64_from_le_bytes(data.subrange(1, 9)) == amount
}

/// The payer as the owner of the debited account, listed once as the
/// authority and once as its single signer.
pub open spec fn owner_signs(accounts: Seq<AccountMeta>, payer: [u8; 32]) -> bool {
    &&& accounts.len() == 4
    &&& accounts[2] == (AccountMeta { pubkey: payer, is_signer: false, is_writable: false })
    &&& accounts[3] == (AccountMeta { pubkey: payer, is_signer: true, is_writable: false })
}

/// A token transfer moves exactly `amount` tokens out of `source` and into
/// `destination`: it goes to the token program as `Transfer` (tag 3), with
/// the source first and the destination second, both written, and the
/// payer as the signing owner.
pub proof fn transfer_moves_the_amount_from_source_to_destination(
    payer: [u8; 32],
    source: [u8; 32],
    destination: [u8; 32],
    amount: u64,
)
    ensures
        transfer_ix(payer, source, destination, amount).program_id == TOKEN_PROGRAM_ID,
        transfer_ix(payer, source, destination, amount).accounts[0] == written(source),
        transfer_ix(payer, source, destination, amount).accounts[1] == written(destination),
        owner_signs(transfer_ix(payer, source, destination, amount).accounts, payer),
        tag_and_amount(transfer_ix(payer, source, destination, amount).data, 3, amount),
{
    lemma_auto_spec_u64_to_from_le_bytes();
    let ix = transfer_ix(payer, source, destination, amount);
    assert(ix.data.subrange(1, 9) =~= vstd::bytes::spec_u64_to_le_bytes(amount));
}

/// Minting creates exactly `amount` tokens of `mint` in `destination`: it
/// goes to the token program as `MintTo` (tag 7), with the mint first and
/// the destination second, both written, and the payer as the signing
/// mint authority.
pub proof fn minting_credits_the_amount_to_the_destination(payer: [u8; 32], mint: [u8; 32], destination: [u8; 32], amount: u64)
    ensures
        mint_to_ix(payer, mint, destination, amount).program_id == TOKEN_PROGRAM_ID,
        mint_to_ix(payer, mint, destination, amount).accounts[0] == written(mint),
        mint_to_ix(payer, mint, destination, amount).accounts[1] == written(destination),
        owner_signs(mint_to_ix(payer, mint, destination, amount).accounts, payer),
        tag_and_amount(mint_to_ix(payer, mint, destination, amount).data, 7, amount),
{
    lemma_auto_spec_u64_to_from_le_bytes();
    let ix = mint_to_ix(payer, mint, destination, amount);
    assert(ix.data.subrange(1, 9) =~= vstd::bytes::spec_u64_to_le_bytes(amount));
}

/// Burning destroys exactly `amount` tokens held in `account`: it goes to
/// the token program as `Burn` (tag 8), with the account first and the mint
/// second, both written, and the payer as the signing owner.
pub proof fn burning_debits_the_amount_from_the_account(payer: [u8; 32], mint: [u8; 32], account: [u8; 32], amount: u64)
    ensures
        burn_ix(payer, mint, account, amount).program_id == TOKEN_PROGRAM_ID,
        burn_ix(payer, mint, account, amount).accounts[0] == written(account),
        burn_ix(payer, mint, account, amount).accounts[1] == written(mint),
        owner_signs(burn_ix(payer, mint, account, amount).accounts, payer),
        tag_and_amount(burn_ix(payer, mint, account, amount).data, 8, amount),
{
    lemma_auto_spec_u64_to_from_le_bytes();
    let ix = burn_ix(payer, mint, account, amount);
    assert(ix.data.subrange(1, 9) =~= vstd::bytes::spec_u64_to_le_bytes(amount));
}

/// Freezing freezes `account` of `mint`: `FreezeAccount` (tag 10, nothing
/// else) with the account written first, the mint read second, and the
/// payer as the signing freeze authority.
pub proof fn freezing_names_the_account_and_its_mint(payer: [u8; 32], mint: [u8; 32], account: [u8; 32])
    ensures
        freeze_ix(payer, mint, account).program_id == TOKEN_PROGRAM_ID,
        freeze_ix(payer, mint, account).accounts[0] == written(account),
        freeze_ix(payer, mint, account).accounts[1] == (AccountMeta { pubkey: mint, is_signer: false, is_writable: false }),
        owner_signs(freeze_ix(payer, mint, account).accounts, payer),
        freeze_ix(payer, mint, account).data == seq![10u8],
{
}

/// Closing closes `account` and pays its lamports to the payer:
/// `CloseAccount` (tag 9, nothing else) with the closed account first and
/// the payer, as the destination, second, both written, and the payer as
/// the signing owner.
pub proof fn closing_returns_the_lamports_to_the_payer(payer: [u8; 32], account: [u8; 32])
    ensures
        close_ix(payer, account).program_id == TOKEN_PROGRAM_ID,
        close_ix(payer, account).accounts[0] == written(account),
        close_ix(payer, account).accounts[1] == written(payer),
        owner_signs(close_ix(payer, account).accounts, payer),
        close_ix(payer, account).data == seq![9u8],
{
}

/// Wrapping moves exactly `lamports` from the payer to the native account
/// (a System `Transfer`, variant 2, with the signing payer first and the
/// account second) and then has the token program bring the account's
/// token amount in line (`SyncNative`, tag 17, on that account alone).
pub proof fn wrapping_moves_the_lamports_into_the_account(payer: [u8; 32], account: [u8; 32], lamports: u64)
    ensures
        sol_transfer_ix(payer, account, lamports).program_id == SYSTEM_PROGRAM_ID,
        sol_transfer_ix(payer, account, lamports).accounts == seq![
            AccountMeta { pubkey: payer, is_signer: true, is_writable: true },
            written(account),
        ],
        sol_transfer_ix(payer, account, lamports).data.len() == 12,
        spec_u32_from_le_bytes(sol_transfer_ix(payer, account, lamports).data.subrange(0, 4)) == 2,
        spec_u64_from_le_bytes(sol_transfer_ix(payer, account, lamports).data.subrange(4, 12)) == lamports,
        sync_native_ix(account).program_id == TOKEN_PROGRAM_ID,
        sync_native_ix(account).accounts == seq![written(account)],
        sync_native_ix(account).data == seq![17u8],
{
    lemma_auto_spec_u32_to_from_le_bytes();
    lemma_auto_spec_u64_to_from_le_bytes();
    let d = sol_transfer_ix(payer, account, lamports).data;
    assert(d.subrange(0, 4) =~= vstd::bytes::spec_u32_to_le_bytes(2));
    assert(d.subrange(4, 12) =~= vstd::bytes::spec_u64_to_le_bytes(lamports));
}

/// Creating an associated token account: the Associated Token Account
/// program's `Create` (data `[0]`), funded by the signing `funding` key,
/// writing the new account `ata` and naming its wallet, its mint, the
/// System program and the token program, in that order.
pub proof fn account_creation_names_wallet_and_mint(funding: [u8; 32], wallet: [u8; 32], mint: [u8; 32], ata: [u8; 32])
    ensures
        create_ata_ix(funding, wallet, mint, ata).program_id == ASSOCIATED_TOKEN_PROGRAM_ID,
        create_ata_ix(funding, wallet, mint, ata).accounts == seq![
            AccountMeta { pubkey: funding, is_signer: true, is_writable: true },
            written(ata),
            AccountMeta { pubkey: wallet, is_signer: false, is_writable: false },
            AccountMeta { pubkey: mint, is_signer: false, is_writable: false },
            AccountMeta { pubkey: SYSTEM_PROGRAM_ID, is_signer: false, is_writable: false },
            AccountMeta { pubkey: TOKEN_PROGRAM_ID, is_signer: false, is_writable: false },
        ],
        create_ata_ix(funding, wallet, mint, ata).data == seq![0u8],
{
}

/// The length of a string's UTF-8 bytes.
pub open spec fn utf8_len(s: Seq<char>) -> int {
    encode_utf8(s).len() as int
}

/// Whether `data`, from byte `at` on, holds borsh's encoding of `s`: its
/// UTF-8 length as four little-endian bytes, then its UTF-8 bytes.
pub open spec fn borsh_string_at(data: Seq<u8>, at: int, s: Seq<char>) -> bool {
    &&& data.subrange(at + 4, at + 4 + utf8_len(s)) == encode_utf8(s)
    &&& utf8_len(s) <= u32::MAX ==> spec_u32_from_le_bytes(data.subrange(at, at + 4)) == utf8_len(s)
}

/// The metadata that the create-metadata instruction writes is named
/// `name`, has symbol `symbol` and points to `uri`, in that order, with no
/// seller fee, no creators, collection or uses, and stays mutable: the data
/// is `CreateMetadataAccountV3` (tag 33), the three strings, the fee as two
/// zero bytes, three absent options, the mutability flag 1 and no
/// collection details.
pub proof fn metadata_is_written_with_the_given_name_symbol_and_uri(
    metadata: [u8; 32],
    mint: [u8; 32],
    payer: [u8; 32],
    name: Seq<char>,
    symbol: Seq<char>,
    uri: Seq<char>,
)
    ensures
        ({
            let d = create_metadata_ix(metadata, mint, payer, name, symbol, uri).data;
            let tail = 13 + utf8_len(name) + utf8_len(symbol) + utf8_len(uri);
            &&& d.len() == tail + 7
            &&& d[0] == 33
            &&& borsh_string_at(d, 1, name)
            &&& borsh_string_at(d, 5 + utf8_len(name), symbol)
            &&& borsh_string_at(d, 9 + utf8_len(name) + utf8_len(symbol), uri)
            &&& vstd::bytes::spec_u16_from_le_bytes(d.subrange(tail, tail + 2)) == 0
            &&& d.subrange(tail + 2, tail + 7) == seq![0u8, 0u8, 0u8, 1u8, 0u8]
        }),
        create_metadata_ix(metadata, mint, payer, name, symbol, uri).accounts[0] == written(metadata),
        create_metadata_ix(metadata, mint, payer, name, symbol, uri).accounts[1]
            == (AccountMeta { pubkey: mint, is_signer: false, is_writable: false }),
{
    lemma_auto_spec_u32_to_from_le_bytes();
    vstd::bytes::lemma_auto_spec_u16_to_from_le_bytes();
    let d = create_metadata_ix(metadata, mint, payer, name, symbol, uri).data;
    let (n, m, k) = (utf8_len(name), utf8_len(symbol), utf8_len(uri));
    let pn = vstd::bytes::spec_u32_to_le_bytes(n as u32);
    let pm = vstd::bytes::spec_u32_to_le_bytes(m as u32);
    let pk = vstd::bytes::spec_u32_to_le_bytes(k as u32);
    assert(d.subrange(1, 5) =~= pn);
    assert(d.subrange(5, 5 + n) =~= encode_utf8(name));
    assert(d.subrange(5 + n, 9 + n) =~= pm);
    assert(d.subrange(9 + n, 9 + n + m) =~= encode_utf8(symbol));
    assert(d.subrange(9 + n + m, 13 + n + m) =~= pk);
    assert(d.subrange(13 + n + m, 13 + n + m + k) =~= encode_utf8(uri));
    assert(d.subrange(13 + n + m + k, 15 + n + m + k) =~= vstd::bytes::spec_u16_to_le_bytes(0));
    assert(d.subrange(15 + n + m + k, 20 + n + m + k) =~= seq![0u8, 0u8, 0u8, 1u8, 0u8]);
}

/// Whether `ix` is the System program's `CreateAccount` that funds the
/// signing `payer`'s new account `account`, also signing, with `lamports`,
/// gives it `space` bytes and hands it to `owner`.
pub open spec fn creates_account(
    ix: crate::instruction::InstructionModel,
    payer: [u8; 32],
    account: [u8; 32],
    lamports: u64,
    space: u64,
    owner: [u8; 32],
) -> bool {
    &&& ix.program_id == SYSTEM_PROGRAM_ID
    &&& ix.accounts == seq![
        AccountMeta { pubkey: payer, is_signer: true, is_writable: true },
        AccountMeta { pubkey: account, is_signer: true, is_writable: true },
    ]
    &&& ix.data.len() == 52
    &&& spec_u32_from_le_bytes(ix.data.subrange(0, 4)) == 0
    &&& spec_u64_from_le_bytes(ix.data.subrange(4, 12)) == lamports
    &&& spec_u64_from_le_bytes(ix.data.subrange(12, 20)) == space
    &&& ix.data.subrange(20, 52) == owner@
}

/// Whether `ix` is the token program's `InitializeMint` (tag 0) of `mint`
/// (written, with the rent sysvar read after it) with `decimals` decimals,
/// mint authority `authority` and freeze authority `freeze`.
pub open spec fn initialises_mint(
    ix: crate::instruction::InstructionModel,
    mint: [u8; 32],
    decimals: u8,
    authority: [u8; 32],
    freeze: Option<[u8; 32]>,
) -> bool {
    &&& ix.program_id == TOKEN_PROGRAM_ID
    &&& ix.accounts[0] == written(mint)
    &&& ix.data[0] == 0
    &&& ix.data[1] == decimals
    &&& ix.data.subrange(2, 34) == authority@
    &&& match freeze {
        Some(k) => ix.data.len() == 67 && ix.data[34] == 1 && ix.data.subrange(35, 67) == k@,
        None => ix.data.len() == 35 && ix.data[34] == 0,
    }
}

/// Creating a mint first funds and allocates a mint account of exactly
/// `MINT_LEN` (82) bytes, the size of the token program's mint layout,
/// owned by the token program, and then initialises it with the given
/// decimals and authorities.
pub proof fn mint_creation_allocates_exactly_a_mint(
    payer: [u8; 32],
    mint: [u8; 32],
    rent: u64,
    authority: [u8; 32],
    freeze: Option<[u8; 32]>,
    decimals: u8,
)
    ensures
        create_mint_instructions(payer, mint, rent, authority, freeze, decimals).len() == 2,
        MINT_LEN == 82,
        creates_account(create_mint_instructions(payer, mint, rent, authority, freeze, decimals)[0], payer, mint, rent, MINT_LEN as u64, TOKEN_PROGRAM_ID),
        initialises_mint(create_mint_instructions(payer, mint, rent, authority, freeze, decimals)[1], mint, decimals, authority, freeze),
{
    lemma_auto_spec_u32_to_from_le_bytes();
    lemma_auto_spec_u64_to_from_le_bytes();
    let ixs = create_mint_instructions(payer, mint, rent, authority, freeze, decimals);
    let d = ixs[0].data;
    assert(d.subrange(0, 4) =~= vstd::bytes::spec_u32_to_le_bytes(0));
    assert(d.subrange(4, 12) =~= vstd::bytes::spec_u64_to_le_bytes(rent));
    assert(d.subrange(12, 20) =~= vstd::bytes::spec_u64_to_le_bytes(MINT_LEN as u64));
    assert(d.subrange(20, 52) =~= TOKEN_PROGRAM_ID@);
    assert(ixs[1].data.subrange(2, 34) =~= authority@);
    if let Some(k) = freeze {
        assert(ixs[1].data.subrange(35, 67) =~= k@);
    }
}

/// The NFT's transactions create a mint account of exactly `MINT_LEN` (82)
/// bytes owned by the token program, funded with `rent` by the wallet;
/// initialise it with no decimals and the wallet as mint and freeze
/// authority; create the wallet's token account `ata`; mint exactly one
/// token into it; and write metadata named "My Lovely NFT" with symbol
/// "MLNG" to `metadata`.
pub proof fn nft_is_a_single_token_of_a_fresh_mint(wallet: [u8; 32], mint: [u8; 32], rent: u64, ata: [u8; 32], metadata: [u8; 32])
    ensures
        ({
            let p = nft_plan_models(wallet, mint, rent, ata, metadata);
            &&& p.len() == 5
            &&& p[0].instructions.len() == 1
            &&& creates_account(p[0].instructions[0], wallet, mint, rent, 82, TOKEN_PROGRAM_ID)
            &&& p[1].instructions.len() == 1
            &&& initialises_mint(p[1].instructions[0], mint, 0, wallet, Some(wallet))
            &&& p[2].instructions.len() == 1
            &&& p[2].instructions[0] == create_ata_ix(wallet, wallet, mint, ata)
            &&& p[3].instructions.len() == 1
            &&& p[3].instructions[0].program_id == TOKEN_PROGRAM_ID
            &&& p[3].instructions[0].accounts[0] == written(mint)
            &&& p[3].instructions[0].accounts[1] == written(ata)
            &&& tag_and_amount(p[3].instructions[0].data, 7, 1)
            &&& p[4].instructions.len() == 1
            &&& p[4].instructions[0].accounts[0] == written(metadata)
            &&& borsh_string_at(p[4].instructions[0].data, 1, "My Lovely NFT"@)
            &&& borsh_string_at(p[4].instructions[0].data, 5 + utf8_len("My Lovely NFT"@), "MLNG"@)
        }),
{
    let p = nft_plan_models(wallet, mint, rent, ata, metadata);
    mint_creation_allocates_exactly_a_mint(wallet, mint, rent, wallet, Some(wallet), 0);
    minting_credits_the_amount_to_the_destination(wallet, mint, ata, 1);
    metadata_is_written_with_the_given_name_symbol_and_uri(
        metadata,
        mint,
        wallet,
        "My Lovely NFT"@,
        "MLNG"@,
        "https://example.com/metadata.json"@,
    );
}

/// Whether `ix` is the System program's `Transfer` of `lamports` from the
/// signing `from` to `to`.
pub open spec fn moves_lamports(ix: crate::instruction::InstructionModel, from: [u8; 32], to: [u8; 32], lamports: u64) -> bool {
    &&& ix.program_id == SYSTEM_PROGRAM_ID
    &&& ix.accounts == seq![AccountMeta { pubkey: from, is_signer: true, is_writable: true }, written(to)]
    &&& ix.data.len() == 12
    &&& spec_u32_from_le_bytes(ix.data.subrange(0, 4)) == 2
    &&& spec_u64_from_le_bytes(ix.data.subrange(4, 12)) == lamports
}

/// A System transfer moves exactly `lamports` from the signing sender to
/// the receiver.
pub proof fn sol_transfer_moves_the_lamports(from: [u8; 32], to: [u8; 32], lamports: u64)
    ensures
        moves_lamports(sol_transfer_ix(from, to, lamports), from, to, lamports),
{
    lemma_auto_spec_u32_to_from_le_bytes();
    lemma_auto_spec_u64_to_from_le_bytes();
    let d = sol_transfer_ix(from, to, lamports).data;
    assert(d.subrange(0, 4) =~= vstd::bytes::spec_u32_to_le_bytes(2));
    assert(d.subrange(4, 12) =~= vstd::bytes::spec_u64_to_le_bytes(lamports));
}

/// Paying several receivers sends each of them, in the order given, one
/// hundredth of a SOL (a hundred such payments make one SOL of 10^9
/// lamports) from the sender, and nobody else.
pub proof fn each_receiver_gets_a_hundredth_of_a_sol(sender: [u8; 32], receivers: Seq<[u8; 32]>)
    ensures
        centisol_transfers(sender, receivers).len() == receivers.len(),
        centisol() * 100 == 1_000_000_000,
        forall|i: int| 0 <= i < receivers.len() ==> moves_lamports(#[trigger] centisol_transfers(sender, receivers)[i], sender, receivers[i], centisol()),
{
    assert forall|i: int| 0 <= i < receivers.len() implies moves_lamports(#[trigger] centisol_transfers(sender, receivers)[i], sender, receivers[i], centisol()) by {
        sol_transfer_moves_the_lamports(sender, receivers[i], centisol());
    }
}

/// The Compute Budget instructions carry what they set: the unit limit as
/// tag 2 and four little-endian bytes, the unit price in micro-lamports as
/// tag 3 and eight, and neither names an account; a memo carries the
/// message's bytes as they are.
pub proof fn budget_instructions_carry_their_limit_and_price(units: u32, micro_lamports: u64, memo_program: [u8; 32], message: Seq<u8>)
    ensures
        unit_limit_ix(units).program_id == COMPUTE_BUDGET_PROGRAM_ID,
        unit_limit_ix(units).accounts.len() == 0,
        unit_limit_ix(units).data.len() == 5,
        unit_limit_ix(units).data[0] == 2,
        spec_u32_from_le_bytes(unit_limit_ix(units).data.subrange(1, 5)) == units,
        unit_price_ix(micro_lamports).program_id == COMPUTE_BUDGET_PROGRAM_ID,
        unit_price_ix(micro_lamports).accounts.len() == 0,
        tag_and_amount(unit_price_ix(micro_lamports).data, 3, micro_lamports),
        memo_ix(memo_program, message).program_id == memo_program,
        memo_ix(memo_program, message).accounts.len() == 0,
        memo_ix(memo_program, message).data == message,
{
    lemma_auto_spec_u32_to_from_le_bytes();
    lemma_auto_spec_u64_to_from_le_bytes();
    assert(unit_limit_ix(units).data.subrange(1, 5) =~= vstd::bytes::spec_u32_to_le_bytes(units));
    assert(unit_price_ix(micro_lamports).data.subrange(1, 9) =~= vstd::bytes::spec_u64_to_le_bytes(micro_lamports));
}

/// Derived addresses come from the seeds their programs expect: a mint's
/// metadata account from the ASCII bytes of `metadata`, the metadata
/// program and the mint, in that order; a wallet's token account from the
/// wallet, the token program and the mint, in that order.
pub proof fn derived_addresses_use_the_expected_seeds(wallet: [u8; 32], token_program: [u8; 32], mint: [u8; 32])
    ensures
        metadata_seeds_of(mint) == seq![
            seq![109u8 /* m */, 101 /* e */, 116 /* t */, 97 /* a */, 100 /* d */, 97 /* a */, 116 /* t */, 97 /* a */],
            METADATA_PROGRAM_ID@,
            mint@,
        ],
        ata_seeds(wallet, token_program, mint) == seq![wallet@, token_program@, mint@],
{
}

} // verus!
