use solana_workshop::metadata::{
    create_metadata_account_v3, creators_shown, decode_metadata, metadata_address, metadata_seeds, MetadataSummary,
};
use solana_workshop::pda::find_program_address;
use solana_workshop::ids::{METADATA_PROGRAM_ID, SYSTEM_PROGRAM_ID};
use solana_workshop::instruction::AccountMeta;
use solana_workshop::state::{
    decode_clock, mint_account_len, unpack_mint, unpack_token_account, AccountStatus, ClockState, MintState,
    TokenAccountState,
};
use spl_token::solana_program::program_option::COption;
use spl_token::solana_program::program_pack::Pack;

fn key(b: u8) -> [u8; 32] {
    let mut k = [0u8; 32];
    for (i, x) in k.iter_mut().enumerate() {
        *x = b.wrapping_add(i as u8);
    }
    k
}

fn borsh_str(s: &str) -> Vec<u8> {
    let mut v = (s.len() as u32).to_le_bytes().to_vec();
    v.extend_from_slice(s.as_bytes());
    v
}

#[test]
fn metadata_account_is_the_program_address_of_its_seeds() {
    let mint = key(4);
    let seeds = metadata_seeds(mint);
    assert_eq!(seeds, vec![b"metadata".to_vec(), METADATA_PROGRAM_ID.to_vec(), mint.to_vec()]);
    let found = metadata_address(mint).unwrap();
    let (pda, _) = mpl_token_metadata::accounts::Metadata::find_pda(&mint.into());
    assert_eq!(found, pda.to_bytes());
    let (direct, bump) = find_program_address(&seeds, METADATA_PROGRAM_ID).unwrap();
    assert_eq!(direct, found);
    assert_eq!(mpl_token_metadata::accounts::Metadata::create_pda(mint.into(), bump).unwrap().to_bytes(), found);
}

#[test]
fn program_address_search_refuses_bad_seeds() {
    let too_many: Vec<Vec<u8>> = (0..16).map(|i| vec![i as u8]).collect();
    assert_eq!(find_program_address(&too_many, METADATA_PROGRAM_ID), None);
    let too_long = vec![vec![1u8; 33]];
    assert_eq!(find_program_address(&too_long, METADATA_PROGRAM_ID), None);
}

#[test]
fn create_metadata_instruction_layout() {
    let ix = create_metadata_account_v3(
        key(1), key(2), key(3), key(4), key(5), true, SYSTEM_PROGRAM_ID,
        "Workshop Token".to_string(), "WRK".to_string(), "https://x.y/z.json".to_string(), 0, true,
    );
    assert_eq!(ix.program_id, METADATA_PROGRAM_ID);
    let m = |pubkey, is_signer, is_writable| AccountMeta { pubkey, is_signer, is_writable };
    assert_eq!(
        ix.accounts,
        vec![
            m(key(1), false, true),
            m(key(2), false, false),
            m(key(3), true, false),
            m(key(4), true, true),
            m(key(5), true, false),
            m(SYSTEM_PROGRAM_ID, false, false),
        ]
    );
    let mut data = vec![33u8];
    data.extend(borsh_str("Workshop Token"));
    data.extend(borsh_str("WRK"));
    data.extend(borsh_str("https://x.y/z.json"));
    data.extend_from_slice(&0u16.to_le_bytes());
    data.extend_from_slice(&[0, 0, 0, 1, 0]);
    assert_eq!(ix.data, data);

    let ix = create_metadata_account_v3(
        key(1), key(2), key(3), key(4), key(5), false, SYSTEM_PROGRAM_ID,
        "Ünï".to_string(), "".to_string(), "u".to_string(), 500, false,
    );
    assert!(!ix.accounts[4].is_signer);
    let mut data = vec![33u8];
    data.extend(borsh_str("Ünï"));
    data.extend(borsh_str(""));
    data.extend(borsh_str("u"));
    data.extend_from_slice(&500u16.to_le_bytes());
    data.extend_from_slice(&[0, 0, 0, 0, 0]);
    assert_eq!(ix.data, data);
}

fn metadata_bytes(creators: Option<u32>) -> Vec<u8> {
    let mut v = vec![4u8];
    v.extend_from_slice(&key(10));
    v.extend_from_slice(&key(20));
    v.extend(borsh_str("Workshop Token"));
    v.extend(borsh_str("WRK"));
    v.extend(borsh_str("https://example.com/metadata.json"));
    v.extend_from_slice(&250u16.to_le_bytes());
    match creators {
        None => v.push(0),
        Some(n) => {
            v.push(1);
            v.extend_from_slice(&n.to_le_bytes());
            for i in 0..n {
                v.extend_from_slice(&key(30 + i as u8));
                v.push(1);
                v.push(100);
            }
        }
    }
    v.push(0); // primary sale happened
    v.push(1); // is mutable
    v.extend_from_slice(&[0, 0, 0, 0, 0, 0]); // absent optional fields
    v.extend_from_slice(&[0u8; 20]); // padding after the record
    v
}

#[test]
fn metadata_decodes_to_its_fields() {
    let summary = decode_metadata(&metadata_bytes(None)).unwrap();
    assert_eq!(
        summary,
        MetadataSummary {
            update_authority: key(10),
            mint: key(20),
            name: "Workshop Token".to_string(),
            symbol: "WRK".to_string(),
            uri: "https://example.com/metadata.json".to_string(),
            is_mutable: true,
            creator_count: None,
        }
    );
    assert_eq!(creators_shown(&summary), 0);
    let with_creators = decode_metadata(&metadata_bytes(Some(2))).unwrap();
    assert_eq!(with_creators.creator_count, Some(2));
    assert_eq!(creators_shown(&with_creators), 2);
}

#[test]
fn truncated_metadata_does_not_decode() {
    let bytes = metadata_bytes(None);
    assert!(decode_metadata(&bytes[..40]).is_err());
    assert!(decode_metadata(&[]).is_err());
}

#[test]
fn mint_state_round_trips_through_the_token_layout() {
    assert_eq!(mint_account_len(), spl_token::state::Mint::LEN);
    let mint = spl_token::state::Mint {
        mint_authority: COption::Some(key(1).into()),
        supply: 5_000_000,
        decimals: 6,
        is_initialized: true,
        freeze_authority: COption::None,
    };
    let mut data = vec![0u8; 82];
    spl_token::state::Mint::pack(mint, &mut data).unwrap();
    assert_eq!(
        unpack_mint(&data),
        Some(MintState { mint_authority: Some(key(1)), supply: 5_000_000, decimals: 6, is_initialized: true, freeze_authority: None })
    );
    let mut bad_tag = data.clone();
    bad_tag[0] = 2;
    assert_eq!(unpack_mint(&bad_tag), None);
    let mut bad_flag = data.clone();
    bad_flag[45] = 7;
    assert_eq!(unpack_mint(&bad_flag), None);
    assert_eq!(unpack_mint(&data[..81]), None);
    let zeros = vec![0u8; 82];
    assert_eq!(
        unpack_mint(&zeros),
        Some(MintState { mint_authority: None, supply: 0, decimals: 0, is_initialized: false, freeze_authority: None })
    );
}

#[test]
fn token_account_round_trips_through_the_token_layout() {
    let account = spl_token::state::Account {
        mint: key(1).into(),
        owner: key(2).into(),
        amount: 1_250_000,
        delegate: COption::None,
        state: spl_token::state::AccountState::Frozen,
        is_native: COption::Some(2_039_280),
        delegated_amount: 0,
        close_authority: COption::Some(key(3).into()),
    };
    let mut data = vec![0u8; 165];
    spl_token::state::Account::pack(account, &mut data).unwrap();
    assert_eq!(
        unpack_token_account(&data),
        Some(TokenAccountState {
            mint: key(1),
            owner: key(2),
            amount: 1_250_000,
            delegate: None,
            state: AccountStatus::Frozen,
            is_native: Some(2_039_280),
            delegated_amount: 0,
            close_authority: Some(key(3)),
        })
    );
    let mut bad_state = data.clone();
    bad_state[108] = 3;
    assert_eq!(unpack_token_account(&bad_state), None);
    assert_eq!(unpack_token_account(&data[..100]), None);
}

#[test]
fn clock_decodes_little_endian_fields() {
    let mut data = Vec::new();
    data.extend_from_slice(&123u64.to_le_bytes());
    data.extend_from_slice(&(-5i64).to_le_bytes());
    data.extend_from_slice(&7u64.to_le_bytes());
    data.extend_from_slice(&8u64.to_le_bytes());
    data.extend_from_slice(&1_725_029_869i64.to_le_bytes());
    let expected = ClockState { slot: 123, epoch_start_timestamp: -5, epoch: 7, leader_schedule_epoch: 8, unix_timestamp: 1_725_029_869 };
    assert_eq!(decode_clock(&data), Some(expected));
    data.push(9);
    assert_eq!(decode_clock(&data), Some(expected));
    assert_eq!(decode_clock(&data[..39]), None);
}
