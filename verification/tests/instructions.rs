use solana_workshop::ata::{
    associated_token_address_derivable, associated_token_program_id, associated_token_seeds,
    create_associated_token_account, get_associated_token_address,
};
use solana_workshop::pda::find_program_address;
use solana_workshop::ids::{
    clock_sysvar_id, memo_program_address, metadata_program_id, native_mint_address, parse_address, token_program_id,
    ASSOCIATED_TOKEN_PROGRAM_ID, CLOCK_SYSVAR_ID, COMPUTE_BUDGET_PROGRAM_ID, METADATA_PROGRAM_ID, RENT_SYSVAR_ID,
    SYSTEM_PROGRAM_ID, TOKEN_PROGRAM_ID,
};
use solana_workshop::instruction::{memo_instruction, AccountMeta};
use solana_workshop::system::{compute_unit_limit, compute_unit_price, system_create_account, system_transfer};
use solana_workshop::token::{
    spl_burn, spl_close_account, spl_freeze_account, spl_initialize_mint, spl_mint_to, spl_sync_native, spl_transfer,
};

fn key(b: u8) -> [u8; 32] {
    let mut k = [0u8; 32];
    for (i, x) in k.iter_mut().enumerate() {
        *x = b.wrapping_add(i as u8);
    }
    k
}

fn meta(pubkey: [u8; 32], is_signer: bool, is_writable: bool) -> AccountMeta {
    AccountMeta { pubkey, is_signer, is_writable }
}

fn amount_bytes(tag: u8, amount: u64) -> Vec<u8> {
    let mut v = vec![tag];
    v.extend_from_slice(&amount.to_le_bytes());
    v
}

#[test]
fn program_ids_match_their_crates() {
    assert_eq!(token_program_id(), TOKEN_PROGRAM_ID);
    assert_eq!(metadata_program_id(), METADATA_PROGRAM_ID);
    assert_eq!(clock_sysvar_id(), CLOCK_SYSVAR_ID);
    assert_eq!(TOKEN_PROGRAM_ID, spl_token::ID.to_bytes());
    assert_eq!(ASSOCIATED_TOKEN_PROGRAM_ID, spl_associated_token_account::ID.to_bytes());
    assert_eq!(METADATA_PROGRAM_ID, mpl_token_metadata::ID.to_bytes());
    assert_eq!(COMPUTE_BUDGET_PROGRAM_ID, solana_compute_budget_interface::ID.to_bytes());
    assert_eq!(SYSTEM_PROGRAM_ID, [0u8; 32]);
}

#[test]
fn addresses_parse_from_base58() {
    assert_eq!(parse_address("TokenkegQfeZyiNwAJbNbGKPFXCWuBvf9Ss623VQ5DA"), Some(TOKEN_PROGRAM_ID));
    assert_eq!(parse_address("SysvarRent111111111111111111111111111111111"), Some(RENT_SYSVAR_ID));
    assert_eq!(parse_address("11111111111111111111111111111111"), Some([0u8; 32]));
    assert_eq!(parse_address("not an address"), None);
    assert_eq!(parse_address(""), None);
    let memo = memo_program_address().unwrap();
    assert_eq!(memo[0], 5);
    assert_eq!(memo[31], 141);
    let native = native_mint_address().unwrap();
    assert_eq!(native, spl_token::native_mint::ID.to_bytes());
}

#[test]
fn initialize_mint_encodes_authorities() {
    let ix = spl_initialize_mint(TOKEN_PROGRAM_ID, key(1), key(2), Some(key(3)), 6).unwrap();
    assert_eq!(ix.program_id, TOKEN_PROGRAM_ID);
    assert_eq!(ix.accounts, vec![meta(key(1), false, true), meta(RENT_SYSVAR_ID, false, false)]);
    let mut data = vec![0u8, 6];
    data.extend_from_slice(&key(2));
    data.push(1);
    data.extend_from_slice(&key(3));
    assert_eq!(ix.data, data);

    let ix = spl_initialize_mint(TOKEN_PROGRAM_ID, key(1), key(2), None, 0).unwrap();
    let mut data = vec![0u8, 0];
    data.extend_from_slice(&key(2));
    data.push(0);
    assert_eq!(ix.data, data);
}

#[test]
fn token_instructions_refuse_other_programs() {
    let signers = vec![key(9)];
    assert!(spl_initialize_mint(key(50), key(1), key(2), None, 0).is_err());
    assert!(spl_mint_to(key(50), key(1), key(2), key(3), &signers, 5).is_err());
    assert!(spl_burn(key(50), key(1), key(2), key(3), &signers, 5).is_err());
    assert!(spl_transfer(key(50), key(1), key(2), key(3), &signers, 5).is_err());
    assert!(spl_freeze_account(key(50), key(1), key(2), key(3), &signers).is_err());
    assert!(spl_close_account(key(50), key(1), key(2), key(3), &signers).is_err());
    assert!(spl_sync_native(key(50), key(1)).is_err());
}

#[test]
fn mint_to_with_and_without_multisig_signers() {
    let ix = spl_mint_to(TOKEN_PROGRAM_ID, key(1), key(2), key(3), &vec![key(3)], 5_000_000).unwrap();
    assert_eq!(
        ix.accounts,
        vec![meta(key(1), false, true), meta(key(2), false, true), meta(key(3), false, false), meta(key(3), true, false)]
    );
    assert_eq!(ix.data, amount_bytes(7, 5_000_000));
    let ix = spl_mint_to(TOKEN_PROGRAM_ID, key(1), key(2), key(3), &vec![], 1).unwrap();
    assert_eq!(ix.accounts, vec![meta(key(1), false, true), meta(key(2), false, true), meta(key(3), true, false)]);
    assert_eq!(ix.data, amount_bytes(7, 1));
}

#[test]
fn burn_transfer_freeze_close_sync_layouts() {
    let s = vec![key(3)];
    let ix = spl_burn(TOKEN_PROGRAM_ID, key(1), key(2), key(3), &s, 2_500_000).unwrap();
    assert_eq!(
        ix.accounts,
        vec![meta(key(1), false, true), meta(key(2), false, true), meta(key(3), false, false), meta(key(3), true, false)]
    );
    assert_eq!(ix.data, amount_bytes(8, 2_500_000));

    let ix = spl_transfer(TOKEN_PROGRAM_ID, key(1), key(2), key(3), &s, 1_250_000).unwrap();
    assert_eq!(
        ix.accounts,
        vec![meta(key(1), false, true), meta(key(2), false, true), meta(key(3), false, false), meta(key(3), true, false)]
    );
    assert_eq!(ix.data, amount_bytes(3, 1_250_000));

    let ix = spl_freeze_account(TOKEN_PROGRAM_ID, key(1), key(2), key(3), &s).unwrap();
    assert_eq!(
        ix.accounts,
        vec![meta(key(1), false, true), meta(key(2), false, false), meta(key(3), false, false), meta(key(3), true, false)]
    );
    assert_eq!(ix.data, vec![10u8]);

    let ix = spl_close_account(TOKEN_PROGRAM_ID, key(1), key(2), key(3), &s).unwrap();
    assert_eq!(
        ix.accounts,
        vec![meta(key(1), false, true), meta(key(2), false, true), meta(key(3), false, false), meta(key(3), true, false)]
    );
    assert_eq!(ix.data, vec![9u8]);

    let ix = spl_sync_native(TOKEN_PROGRAM_ID, key(1)).unwrap();
    assert_eq!(ix.program_id, TOKEN_PROGRAM_ID);
    assert_eq!(ix.accounts, vec![meta(key(1), false, true)]);
    assert_eq!(ix.data, vec![17u8]);
}

#[test]
fn system_instructions_use_bincode_layout() {
    let ix = system_transfer(key(1), key(2), 10_000_000);
    assert_eq!(ix.program_id, SYSTEM_PROGRAM_ID);
    assert_eq!(ix.accounts, vec![meta(key(1), true, true), meta(key(2), false, true)]);
    let mut data = vec![2u8, 0, 0, 0];
    data.extend_from_slice(&10_000_000u64.to_le_bytes());
    assert_eq!(ix.data, data);

    let ix = system_create_account(key(1), key(2), 1_461_600, 82, TOKEN_PROGRAM_ID);
    assert_eq!(ix.accounts, vec![meta(key(1), true, true), meta(key(2), true, true)]);
    let mut data = vec![0u8, 0, 0, 0];
    data.extend_from_slice(&1_461_600u64.to_le_bytes());
    data.extend_from_slice(&82u64.to_le_bytes());
    data.extend_from_slice(&TOKEN_PROGRAM_ID);
    assert_eq!(ix.data, data);
}

#[test]
fn compute_budget_instructions() {
    let ix = compute_unit_limit(400_000);
    assert_eq!(ix.program_id, COMPUTE_BUDGET_PROGRAM_ID);
    assert!(ix.accounts.is_empty());
    let mut data = vec![2u8];
    data.extend_from_slice(&400_000u32.to_le_bytes());
    assert_eq!(ix.data, data);
    let ix = compute_unit_price(2_500);
    assert_eq!(ix.data, amount_bytes(3, 2_500));
}

#[test]
fn memo_carries_the_message_bytes() {
    let ix = memo_instruction(key(7), "Solana workshop: transactions");
    assert_eq!(ix.program_id, key(7));
    assert!(ix.accounts.is_empty());
    assert_eq!(ix.data, b"Solana workshop: transactions".to_vec());
    let ix = memo_instruction(key(7), "héllo");
    assert_eq!(ix.data, "héllo".as_bytes().to_vec());
}

#[test]
fn associated_token_account_address_and_creation() {
    let wallet = key(1);
    let mint = key(2);
    let ata = get_associated_token_address(wallet, mint);
    let (expected, _) = solana_sdk::pubkey::Pubkey::find_program_address(
        &[&wallet, &TOKEN_PROGRAM_ID, &mint],
        &ASSOCIATED_TOKEN_PROGRAM_ID.into(),
    );
    assert_eq!(ata, expected.to_bytes());
    assert_ne!(ata, get_associated_token_address(mint, wallet));

    let ix = create_associated_token_account(key(9), wallet, mint, TOKEN_PROGRAM_ID);
    assert_eq!(ix.program_id, ASSOCIATED_TOKEN_PROGRAM_ID);
    assert_eq!(ix.data, vec![0u8]);
    assert_eq!(
        ix.accounts,
        vec![
            meta(key(9), true, true),
            meta(ata, false, true),
            meta(wallet, false, false),
            meta(mint, false, false),
            meta(SYSTEM_PROGRAM_ID, false, false),
            meta(TOKEN_PROGRAM_ID, false, false),
        ]
    );
}

#[test]
fn associated_token_program_id_is_the_known_address() {
    assert_eq!(associated_token_program_id(), ASSOCIATED_TOKEN_PROGRAM_ID);
    assert_eq!(
        associated_token_program_id(),
        parse_address("ATokenGPvbdGVxr1b2hvZbsiqW5xWH25efTNsLJA8knL").unwrap()
    );
}

#[test]
fn associated_token_address_is_the_program_address_of_its_seeds() {
    let wallet = key(4);
    let mint = key(6);
    let seeds = associated_token_seeds(wallet, TOKEN_PROGRAM_ID, mint);
    assert_eq!(seeds, vec![wallet.to_vec(), TOKEN_PROGRAM_ID.to_vec(), mint.to_vec()]);
    assert!(associated_token_address_derivable(wallet, mint));
    let (found, _) = find_program_address(&seeds, ASSOCIATED_TOKEN_PROGRAM_ID).unwrap();
    assert_eq!(found, get_associated_token_address(wallet, mint));
    assert_ne!(found, wallet);
}

#[test]
fn parse_address_keeps_leading_ones_and_the_length_limit() {
    assert_eq!(parse_address(&"1".repeat(31)), None);
    assert_eq!(parse_address(&"1".repeat(33)), None);
    let mut one = [0u8; 32];
    one[31] = 1;
    assert_eq!(parse_address(&format!("{}2", "1".repeat(31))), Some(one));
    assert_eq!(parse_address("0okenkegQfeZyiNwAJbNbGKPFXCWuBvf9Ss623VQ5DA"), None);
    assert_eq!(parse_address("TokenkegQfeZyiNwAJbNbGKPFXCWuBvf9Ss623VQ5DAA"), None);
    assert_eq!(parse_address(&"z".repeat(44)), None);
}
