use solana_workshop::ata::{creation_failure_means_exists, SendFailure};
use solana_workshop::config::{rpc_url_or_default, select_example, Example};
use solana_workshop::fees::{lamport_delta, lamports_per_sol, price_above_recent_fees, price_per_compute_unit};
use solana_workshop::script::{
    advance, mint_with_metadata, token_operations, wrap_unwrap_sol, Expectation, Outcome, Progress, Step,
};

#[test]
fn rpc_url_defaults_to_devnet() {
    assert_eq!(rpc_url_or_default(None), "https://api.devnet.solana.com");
    assert_eq!(rpc_url_or_default(Some("http://localhost:8899".to_string())), "http://localhost:8899");
}

#[test]
fn examples_are_chosen_by_number() {
    assert_eq!(select_example(&"1".to_string()), Some(Example::TokenOperations));
    assert_eq!(select_example(&"2".to_string()), Some(Example::WrapUnwrapSol));
    assert_eq!(select_example(&"3".to_string()), Some(Example::MintWithMetadata));
    assert_eq!(select_example(&"4".to_string()), None);
    assert_eq!(select_example(&"".to_string()), None);
    assert_eq!(select_example(&" 1".to_string()), None);
}

#[test]
fn unit_price_spreads_the_fee_over_the_budget() {
    assert_eq!(price_per_compute_unit(0, 400_000), 0);
    assert_eq!(price_per_compute_unit(1000, 400_000), 2_500);
    assert_eq!(price_per_compute_unit(1, 400_000), 2);
    assert_eq!(price_per_compute_unit(7, 3), 2_333_333);
    assert_eq!(price_per_compute_unit(5, 0), 5_000_000);
    assert_eq!(price_per_compute_unit(u64::MAX, 1), u64::MAX);
    assert_eq!(price_per_compute_unit(u64::MAX / 1_000_000 + 1, 2), u64::MAX / 2);
    let fee = 1234u64;
    let units = 777u64;
    let price = price_per_compute_unit(fee, units);
    assert!(price * units <= fee * 1_000_000);
    assert!(fee * 1_000_000 < (price + 1) * units);
}

#[test]
fn lamport_delta_is_signed_difference() {
    assert_eq!(lamport_delta(2_000_000_000, 1_999_995_000), -5_000);
    assert_eq!(lamport_delta(5, 12), 7);
    assert_eq!(lamport_delta(0, 0), 0);
    let before = 3_000_000_000u64;
    let after = 2_997_960_720u64;
    assert_eq!(before as i64 + lamport_delta(before, after), after as i64);
    assert_eq!(lamports_per_sol(), 1_000_000_000);
}

#[test]
fn recent_fee_price_adds_the_surcharge() {
    assert_eq!(price_above_recent_fees(&vec![]), None);
    assert_eq!(price_above_recent_fees(&vec![5, 0]), Some(1_000_000));
    assert_eq!(price_above_recent_fees(&vec![0, 42]), Some(1_000_042));
}

#[test]
fn only_the_exists_response_is_tolerated() {
    let exists = SendFailure::RpcResponse { message: "Provided owner is not allowed".to_string() };
    assert!(creation_failure_means_exists(&exists));
    let other = SendFailure::RpcResponse { message: "insufficient funds".to_string() };
    assert!(!creation_failure_means_exists(&other));
    assert!(!creation_failure_means_exists(&SendFailure::OtherClientError));
    assert!(!creation_failure_means_exists(&SendFailure::NotClientError));
}

#[test]
fn token_walkthrough_steps() {
    let (steps, expected) = token_operations();
    assert_eq!(steps.len(), 19);
    assert_eq!(expected.len(), 19);
    assert_eq!(steps[0], Step::CreateMint { decimals: 6 });
    assert_eq!(steps[4], Step::MintTokens { amount: 5_000_000 });
    assert_eq!(steps[7], Step::BurnTokens { amount: 2_500_000 });
    assert_eq!(steps[11], Step::TransferTokens { amount: 1_250_000 });
    assert_eq!(steps[13], Step::FreezeOwnAccount);
    assert_eq!(steps[16], Step::TransferTokens { amount: 1_250_000 });
    assert_eq!(expected[16], Expectation::Fail);
    assert_eq!(expected.iter().filter(|e| **e == Expectation::Fail).count(), 1);
}

#[test]
fn runs_stop_at_the_first_surprise() {
    let (_, expected) = token_operations();
    let mut at = 0usize;
    let mut visited = 0;
    loop {
        let outcome = if expected[at] == Expectation::Fail { Outcome::Failed } else { Outcome::Succeeded };
        visited += 1;
        match advance(&expected, at, outcome) {
            Progress::Next(next) => {
                assert_eq!(next, at + 1);
                at = next;
            }
            Progress::Finished => break,
            other => panic!("unexpected {:?}", other),
        }
    }
    assert_eq!(visited, 19);
    assert_eq!(advance(&expected, 16, Outcome::Succeeded), Progress::SucceededAt(16));
    assert_eq!(advance(&expected, 3, Outcome::Failed), Progress::FailedAt(3));
    assert_eq!(advance(&expected, 18, Outcome::Succeeded), Progress::Finished);
}

#[test]
fn wrap_and_metadata_walkthroughs() {
    let (steps, expected) = wrap_unwrap_sol();
    assert_eq!(steps.len(), 9);
    assert_eq!(steps[4], Step::WrapSol { lamports: 1_000_000_000 });
    assert!(expected.iter().all(|e| *e == Expectation::Succeed));
    assert_eq!(steps[8], Step::ReportBalanceChange);
    let (steps, expected) = mint_with_metadata();
    assert_eq!(steps.len(), 3);
    assert_eq!(expected.len(), 3);
    match &steps[1] {
        Step::CreateMetadata { name, symbol, .. } => {
            assert_eq!(name, "Workshop Token");
            assert_eq!(symbol, "WRK");
        }
        other => panic!("unexpected {:?}", other),
    }
}
