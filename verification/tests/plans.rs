use solana_workshop::ata::get_associated_token_address;
use solana_workshop::ids::{METADATA_PROGRAM_ID, RENT_SYSVAR_ID, SYSTEM_PROGRAM_ID, TOKEN_PROGRAM_ID};
use solana_workshop::instruction::{memo_instruction, AccountMeta};
use solana_workshop::metadata::metadata_address;
use solana_workshop::plan::{
    budgeted_memo_plan, burn_tokens_plan, close_token_account_plan, create_metadata_plan, create_mint_plan,
    create_token_account_plan, freeze_tokens_plan, mint_tokens_plan, nft_plans, priority_memo_plan,
    sol_transfer_plan, three_receivers_plan, transfer_tokens_plan, wrap_sol_plan,
};
use solana_workshop::system::{compute_unit_limit, compute_unit_price, system_create_account, system_transfer};
use solana_workshop::token::{spl_initialize_mint, spl_mint_to};

fn key(b: u8) -> [u8; 32] {
    let mut k = [0u8; 32];
    for (i, x) in k.iter_mut().enumerate() {
        *x = b.wrapping_add(i as u8);
    }
    k
}

#[test]
fn create_mint_plan_funds_and_initialises() {
    let plan = create_mint_plan(key(1), key(2), key(1), Some(key(1)), 6, 1_461_600);
    assert_eq!(plan.payer, key(1));
    assert_eq!(plan.signers, vec![key(1), key(2)]);
    assert_eq!(plan.instructions.len(), 2);
    assert_eq!(plan.instructions[0], system_create_account(key(1), key(2), 1_461_600, 82, TOKEN_PROGRAM_ID));
    assert_eq!(plan.instructions[1], spl_initialize_mint(TOKEN_PROGRAM_ID, key(2), key(1), Some(key(1)), 6).unwrap());
    assert_eq!(plan.instructions[1].accounts[1].pubkey, RENT_SYSVAR_ID);
}

#[test]
fn single_token_instruction_plans() {
    let payer = key(1);
    let signer = AccountMeta { pubkey: payer, is_signer: true, is_writable: false };
    for plan in [
        mint_tokens_plan(payer, key(2), key(3), 5_000_000),
        burn_tokens_plan(payer, key(2), key(3), 2_500_000),
        transfer_tokens_plan(payer, key(3), key(4), 1_250_000),
        freeze_tokens_plan(payer, key(2), key(3)),
        close_token_account_plan(payer, key(3)),
    ] {
        assert_eq!(plan.payer, payer);
        assert_eq!(plan.signers, vec![payer]);
        assert_eq!(plan.instructions.len(), 1);
        let ix = &plan.instructions[0];
        assert_eq!(ix.program_id, TOKEN_PROGRAM_ID);
        assert_eq!(ix.accounts.len(), 4);
        assert_eq!(ix.accounts[2], AccountMeta { pubkey: payer, is_signer: false, is_writable: false });
        assert_eq!(ix.accounts[3], signer);
    }
    assert_eq!(mint_tokens_plan(payer, key(2), key(3), 5_000_000).instructions[0].data[0], 7);
    assert_eq!(burn_tokens_plan(payer, key(2), key(3), 2_500_000).instructions[0].data[0], 8);
    assert_eq!(transfer_tokens_plan(payer, key(3), key(4), 1).instructions[0].data[0], 3);
    assert_eq!(freeze_tokens_plan(payer, key(2), key(3)).instructions[0].data, vec![10]);
    let close = close_token_account_plan(payer, key(3));
    assert_eq!(close.instructions[0].accounts[1], AccountMeta { pubkey: payer, is_signer: false, is_writable: true });
}

#[test]
fn wrap_sol_moves_lamports_then_syncs() {
    let plan = wrap_sol_plan(key(1), key(3), 1_000_000_000);
    assert_eq!(plan.instructions.len(), 2);
    assert_eq!(plan.instructions[0], system_transfer(key(1), key(3), 1_000_000_000));
    assert_eq!(plan.instructions[1].program_id, TOKEN_PROGRAM_ID);
    assert_eq!(plan.instructions[1].data, vec![17]);
    assert_eq!(plan.signers, vec![key(1)]);
}

#[test]
fn token_account_plan_returns_the_created_address() {
    let (ata, plan) = create_token_account_plan(key(1), key(5), key(2)).unwrap();
    assert_eq!(ata, get_associated_token_address(key(5), key(2)));
    assert_eq!(plan.instructions[0].accounts[1], AccountMeta { pubkey: ata, is_signer: false, is_writable: true });
    assert_eq!(plan.instructions[0].accounts[2].pubkey, key(5));
    assert_eq!(plan.signers, vec![key(1)]);
}

#[test]
fn metadata_plan_writes_the_derived_account() {
    let (plan, md) = create_metadata_plan(key(1), key(2), "Workshop Token".into(), "WRK".into(), "u".into()).unwrap();
    assert_eq!(Some(md), metadata_address(key(2)));
    let ix = &plan.instructions[0];
    assert_eq!(ix.program_id, METADATA_PROGRAM_ID);
    assert_eq!(ix.accounts[0], AccountMeta { pubkey: md, is_signer: false, is_writable: true });
    assert_eq!(ix.accounts[4], AccountMeta { pubkey: key(1), is_signer: true, is_writable: false });
    assert_eq!(ix.accounts[5].pubkey, SYSTEM_PROGRAM_ID);
    assert_eq!(plan.signers, vec![key(1)]);
}

#[test]
fn nft_plans_chain_five_transactions() {
    let wallet = key(1);
    let mint = key(2);
    let plans = nft_plans(wallet, mint, 1_461_600);
    assert_eq!(plans.len(), 5);
    assert_eq!(plans[0].signers, vec![wallet, mint]);
    for p in &plans[1..] {
        assert_eq!(p.signers, vec![wallet]);
    }
    assert_eq!(plans[1].instructions[0], spl_initialize_mint(TOKEN_PROGRAM_ID, mint, wallet, Some(wallet), 0).unwrap());
    let ata = get_associated_token_address(wallet, mint);
    assert_eq!(plans[2].instructions[0].accounts[1].pubkey, ata);
    assert_eq!(plans[3].instructions[0], spl_mint_to(TOKEN_PROGRAM_ID, mint, ata, wallet, &vec![], 1).unwrap());
    let md = metadata_address(mint).unwrap();
    assert_eq!(plans[4].instructions[0].accounts[0].pubkey, md);
    assert!(plans[4].instructions[0].data.windows(13).any(|w| w == b"My Lovely NFT"));
}

#[test]
fn transfer_plans_send_a_hundredth_of_a_sol() {
    let plan = sol_transfer_plan(key(1), key(2));
    assert_eq!(plan.instructions, vec![system_transfer(key(1), key(2), 10_000_000)]);
    let plan = three_receivers_plan(key(1), key(2), key(3), key(4));
    assert_eq!(
        plan.instructions,
        vec![
            system_transfer(key(1), key(2), 10_000_000),
            system_transfer(key(1), key(3), 10_000_000),
            system_transfer(key(1), key(4), 10_000_000),
        ]
    );
    assert_eq!(plan.signers, vec![key(1)]);
}

#[test]
fn memo_plans_order_their_budget_instructions() {
    let message = "Solana workshop: transactions 0xDecadance";
    let plan = priority_memo_plan(key(1), 1000, key(9), message);
    assert_eq!(
        plan.instructions,
        vec![compute_unit_price(2_500), compute_unit_limit(400_000), memo_instruction(key(9), message)]
    );
    let plan = priority_memo_plan(key(1), 0, key(9), message);
    assert_eq!(plan.instructions[0], compute_unit_price(0));
    let plan = budgeted_memo_plan(key(1), 1_000_123, key(9), "Solana workshop: transactions");
    assert_eq!(
        plan.instructions,
        vec![compute_unit_limit(400_000), compute_unit_price(1_000_123), memo_instruction(key(9), "Solana workshop: transactions")]
    );
}

#[test]
fn metadata_address_is_the_same_for_every_payer_and_text() {
    let (_, first) = create_metadata_plan(key(1), key(2), "Workshop Token".into(), "WRK".into(), "u".into()).unwrap();
    let (plan, second) = create_metadata_plan(key(7), key(2), String::new(), "X".into(), "https://x".into()).unwrap();
    assert_eq!(first, second);
    assert_eq!(Some(first), metadata_address(key(2)));
    assert_eq!(plan.instructions[0].accounts[0], AccountMeta { pubkey: first, is_signer: false, is_writable: true });
    let (_, other_mint) = create_metadata_plan(key(1), key(3), "Workshop Token".into(), "WRK".into(), "u".into()).unwrap();
    assert_ne!(first, other_mint);
}
