use solana_workshop::ata::get_associated_token_address;
use solana_workshop::metadata::metadata_address;
use solana_workshop::plan::{
    burn_tokens_plan, close_token_account_plan, create_metadata_plan, create_token_account_plan, freeze_tokens_plan,
    mint_tokens_plan, transfer_tokens_plan, wrap_sol_plan,
};
use solana_workshop::script::Step;
use solana_workshop::walk::{after_step, fresh_walk, take_step, walk_with_mint, Operation, Reply, StepError, Walk};

fn key(b: u8) -> [u8; 32] {
    [b; 32]
}

fn ok(walk: &Walk, step: Step, payer: [u8; 32], fresh: [u8; 32]) -> Operation {
    take_step(walk, &step, payer, fresh).unwrap()
}

#[test]
fn token_walkthrough_steps_use_the_created_accounts() {
    let payer = key(1);
    let mint = key(2);
    let receiver = key(3);
    let walk = fresh_walk();

    let op = ok(&walk, Step::CreateMint { decimals: 6 }, payer, key(9));
    assert_eq!(op, Operation::CreateMint { mint_authority: payer, freeze_authority: Some(payer), decimals: 6 });
    let walk = after_step(walk, &op, Reply::MintCreated(mint));
    assert_eq!(walk.mint, Some(mint));
    assert_eq!(ok(&walk, Step::ShowMint, payer, key(9)), Operation::ShowMint { mint });

    let own = get_associated_token_address(payer, mint);
    let op = ok(&walk, Step::CreateOwnAccount, payer, key(9));
    let (_, plan) = create_token_account_plan(payer, payer, mint).unwrap();
    assert_eq!(op, Operation::CreateTokenAccount { plan, account: own, receiver: false });
    let walk = after_step(walk, &op, Reply::Done);
    assert_eq!(walk.own_account, Some(own));
    assert_eq!(ok(&walk, Step::ShowOwnAccount, payer, key(9)), Operation::ShowTokenAccount { account: own });

    assert_eq!(
        ok(&walk, Step::MintTokens { amount: 5_000_000 }, payer, key(9)),
        Operation::MintTokens { plan: mint_tokens_plan(payer, mint, own, 5_000_000), account: own }
    );
    assert_eq!(
        ok(&walk, Step::BurnTokens { amount: 2_500_000 }, payer, key(9)),
        Operation::BurnTokens { plan: burn_tokens_plan(payer, mint, own, 2_500_000), account: own }
    );
    assert_eq!(
        take_step(&walk, &Step::TransferTokens { amount: 1 }, payer, key(9)),
        Err(StepError::NoReceiverAccount)
    );

    let to = get_associated_token_address(receiver, mint);
    let op = ok(&walk, Step::CreateReceiverAccount, payer, receiver);
    let (_, plan) = create_token_account_plan(payer, receiver, mint).unwrap();
    assert_eq!(op, Operation::CreateTokenAccount { plan, account: to, receiver: true });
    let walk = after_step(walk, &op, Reply::Done);
    assert_eq!(walk.receiver_account, Some(to));
    assert_eq!(walk.own_account, Some(own));

    assert_eq!(
        ok(&walk, Step::TransferTokens { amount: 1_250_000 }, payer, key(9)),
        Operation::TransferTokens {
            plan: transfer_tokens_plan(payer, own, to, 1_250_000),
            from: own,
            to,
            amount: 1_250_000,
        }
    );
    assert_eq!(
        ok(&walk, Step::FreezeOwnAccount, payer, key(9)),
        Operation::FreezeAccount { plan: freeze_tokens_plan(payer, mint, own), account: own }
    );
}

#[test]
fn wrap_walkthrough_reads_balances_and_closes_the_account() {
    let payer = key(1);
    let native = key(6);
    let walk = walk_with_mint(native);
    let op = ok(&walk, Step::ReadBalance, payer, key(9));
    assert_eq!(op, Operation::ReadBalance { owner: payer });
    let walk = after_step(walk, &op, Reply::Balance(10));
    assert_eq!(take_step(&walk, &Step::ReportBalanceChange, payer, key(9)), Err(StepError::TooFewBalanceReadings));
    assert_eq!(take_step(&walk, &Step::WrapSol { lamports: 5 }, payer, key(9)), Err(StepError::NoOwnAccount));

    let op = ok(&walk, Step::CreateOwnAccount, payer, key(9));
    let walk = after_step(walk, &op, Reply::Done);
    let own = get_associated_token_address(payer, native);
    assert_eq!(
        ok(&walk, Step::WrapSol { lamports: 1_000_000_000 }, payer, key(9)),
        Operation::WrapSol { plan: wrap_sol_plan(payer, own, 1_000_000_000), account: own, lamports: 1_000_000_000 }
    );
    assert_eq!(
        ok(&walk, Step::CloseOwnAccount, payer, key(9)),
        Operation::CloseAccount { plan: close_token_account_plan(payer, own), account: own }
    );

    let op = ok(&walk, Step::ReadBalance, payer, key(9));
    let walk = after_step(walk, &op, Reply::Balance(7));
    assert_eq!(walk.balances, vec![10, 7]);
    assert_eq!(
        ok(&walk, Step::ReportBalanceChange, payer, key(9)),
        Operation::ReportBalanceChange { before: 10, after: 7 }
    );
}

#[test]
fn metadata_walkthrough_writes_and_reads_the_derived_account() {
    let payer = key(1);
    let mint = key(2);
    let fresh = fresh_walk();
    assert_eq!(take_step(&fresh, &Step::ShowMetadata, payer, key(9)), Err(StepError::NoMint));
    let walk = after_step(fresh, &Operation::CreateMint { mint_authority: payer, freeze_authority: Some(payer), decimals: 6 }, Reply::MintCreated(mint));
    let step = Step::CreateMetadata { name: "Workshop Token".into(), symbol: "WRK".into(), uri: "u".into() };
    let (plan, metadata) = create_metadata_plan(payer, mint, "Workshop Token".into(), "WRK".into(), "u".into()).unwrap();
    assert_eq!(metadata, metadata_address(mint).unwrap());
    let op = ok(&walk, step, payer, key(9));
    assert_eq!(op, Operation::CreateMetadata { plan, metadata });
    let after = after_step(walk.clone(), &op, Reply::Done);
    assert_eq!(after, walk);
    assert_eq!(ok(&after, Step::ShowMetadata, payer, key(9)), Operation::ShowMetadata { metadata });
}

#[test]
fn a_reply_that_does_not_fit_the_operation_changes_nothing() {
    let walk = fresh_walk();
    let op = Operation::ShowMint { mint: key(2) };
    assert_eq!(after_step(walk.clone(), &op, Reply::MintCreated(key(4))), walk);
    assert_eq!(after_step(walk.clone(), &op, Reply::Balance(3)), walk);
}

fn simulate(steps: &[Step], mut walk: Walk, payer: [u8; 32], fresh: [u8; 32], mint: [u8; 32]) -> Walk {
    for step in steps {
        let op = take_step(&walk, step, payer, fresh).unwrap();
        let reply = match op {
            Operation::CreateMint { .. } => Reply::MintCreated(mint),
            Operation::ReadBalance { .. } => Reply::Balance(42),
            _ => Reply::Done,
        };
        walk = after_step(walk, &op, reply);
    }
    walk
}

#[test]
fn every_walkthrough_step_has_what_it_needs() {
    let payer = key(1);
    let mint = key(2);
    let fresh = key(3);
    let (steps, _) = solana_workshop::script::token_operations();
    let end = simulate(&steps, fresh_walk(), payer, fresh, mint);
    assert_eq!(end.mint, Some(mint));
    assert_eq!(end.own_account, Some(get_associated_token_address(payer, mint)));
    assert_eq!(end.receiver_account, Some(get_associated_token_address(fresh, mint)));

    let (steps, _) = solana_workshop::script::wrap_unwrap_sol();
    let end = simulate(&steps, walk_with_mint(key(6)), payer, fresh, mint);
    assert_eq!(end.balances, vec![42, 42]);

    let (steps, _) = solana_workshop::script::mint_with_metadata();
    let end = simulate(&steps, fresh_walk(), payer, fresh, mint);
    assert_eq!(end.mint, Some(mint));
}
