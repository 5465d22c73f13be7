//! The walkthroughs as step lists, and the rule that drives them: each step
//! runs once, in order, and the run stops at the first step whose outcome
//! is not the expected one.
use crate::fees::lamports_per_sol;
use vstd::prelude::*;

verus! {

/// What a step is expected to do.
#[derive(Clone, Copy, Debug, PartialEq, Eq)]
pub enum Expectation {
    Succeed,
    Fail,
}

/// What a step did.
#[derive(Clone, Copy, Debug, PartialEq, Eq)]
pub enum Outcome {
    Succeeded,
    Failed,
}

/// Where a run stands after a step.
#[derive(Clone, Copy, Debug, PartialEq, Eq)]
pub enum Progress {
    /// Run the step with this index next.
    Next(usize),
    /// Every step behaved as expected.
    Finished,
    /// The step with this index failed although it had to succeed.
    FailedAt(usize),
    /// The step with this index succeeded although it had to fail.
    SucceededAt(usize),
}

/// Whether an outcome is the expected one.
pub open spec fn as_expected(e: Expectation, o: Outcome) -> bool {
    (e == Expectation::Succeed && o == Outcome::Succeeded) || (e == Expectation::Fail && o == Outcome::Failed)
}

/// Where a run stands after step `at` had outcome `o`.
pub open spec fn step_progress(expected: Seq<Expectation>, at: int, o: Outcome) -> Progress {
    if !as_expected(expected[at], o) {
        if o == Outcome::Succeeded { Progress::SucceededAt(at as usize) } else { Progress::FailedAt(at as usize) }
    } else if at >= expected.len() - 1 {
        Progress::Finished
    } else {
        Progress::Next((at + 1) as usize)
    }
}

/// Decides how the run goes on after step `at` had outcome `outcome`.
pub fn advance(expected: &Vec<Expectation>, at: usize, outcome: Outcome) -> (p: Progress)
    requires
        at < expected@.len(),
    ensures
        p == step_progress(expected@, at as int, outcome),
{
    let e = expected[at];
    let ok = match (e, outcome) {
        (Expectation::Succeed, Outcome::Succeeded) => true,
        (Expectation::Fail, Outcome::Failed) => true,
        _ => false,
    };
    if !ok {
        match outcome {
            Outcome::Succeeded => Progress::SucceededAt(at),
            Outcome::Failed => Progress::FailedAt(at),
        }
    } else if at >= expected.len() - 1 {
        Progress::Finished
    } else {
        Progress::Next(at + 1)
    }
}

/// Where a run that starts at step `at` ends, when step `i` has outcome
/// `outcomes[i]`.
pub open spec fn run_from(expected: Seq<Expectation>, outcomes: Seq<Outcome>, at: int) -> Progress
    decreases expected.len() - at,
{
    if at < 0 || at >= expected.len() {
        Progress::Finished
    } else {
        match step_progress(expected, at, outcomes[at]) {
            Progress::Next(k) => if k > at { run_from(expected, outcomes, k as int) } else { Progress::Finished },
            other => other,
        }
    }
}

/// Whether steps `from` up to `to` (excluded) behaved as expected.
pub open spec fn all_as_expected(expected: Seq<Expectation>, outcomes: Seq<Outcome>, from: int, to: int) -> bool {
    forall|i: int| from <= i < to ==> #[trigger] as_expected(expected[i], outcomes[i])
}

/// A run finishes exactly when every step from `at` on behaves as expected;
/// otherwise it stops at the first step that does not, reporting whether
/// that step failed or succeeded.
pub proof fn run_stops_at_first_surprise(expected: Seq<Expectation>, outcomes: Seq<Outcome>, at: int)
    requires
        0 <= at <= expected.len(),
        outcomes.len() == expected.len(),
        expected.len() <= usize::MAX,
    ensures
        (run_from(expected, outcomes, at) == Progress::Finished) <==> all_as_expected(expected, outcomes, at, expected.len() as int),
        !all_as_expected(expected, outcomes, at, expected.len() as int) ==> exists|j: int|
            at <= j < expected.len() && all_as_expected(expected, outcomes, at, j) && !as_expected(expected[j], outcomes[j])
            && run_from(expected, outcomes, at) == (if outcomes[j] == Outcome::Succeeded {
                Progress::SucceededAt(j as usize)
            } else {
                Progress::FailedAt(j as usize)
            }),
    decreases expected.len() - at,
{
    if at < expected.len() {
        run_stops_at_first_surprise(expected, outcomes, at + 1);
        if !as_expected(expected[at], outcomes[at]) {
            assert(all_as_expected(expected, outcomes, at, at));
        } else if at + 1 < expected.len() {
            assert(run_from(expected, outcomes, at) == run_from(expected, outcomes, at + 1));
            if !all_as_expected(expected, outcomes, at + 1, expected.len() as int) {
                let j = choose|j: int|
                    at + 1 <= j < expected.len() && all_as_expected(expected, outcomes, at + 1, j) && !as_expected(expected[j], outcomes[j])
                    && run_from(expected, outcomes, at + 1) == (if outcomes[j] == Outcome::Succeeded {
                        Progress::SucceededAt(j as usize)
                    } else {
                        Progress::FailedAt(j as usize)
                    });
                assert(all_as_expected(expected, outcomes, at, j));
            }
        }
    }
}

/// One step of a walkthrough.
#[derive(Clone, Debug, PartialEq, Eq)]
pub enum Step {
    /// Create a mint with the payer as mint and freeze authority.
    CreateMint { decimals: u8 },
    /// Read and show the mint.
    ShowMint,
    /// Create (or find existing) the payer's token account for the mint.
    CreateOwnAccount,
    /// Read and show the payer's token account.
    ShowOwnAccount,
    /// Mint tokens into the payer's token account.
    MintTokens { amount: u64 },
    /// Burn tokens from the payer's token account.
    BurnTokens { amount: u64 },
    /// Create the token account of a fresh receiver.
    CreateReceiverAccount,
    /// Transfer tokens from the payer's account to the receiver's.
    TransferTokens { amount: u64 },
    /// Freeze the payer's token account.
    FreezeOwnAccount,
    /// Read the payer's SOL balance.
    ReadBalance,
    /// Move lamports into the payer's native token account and sync it.
    WrapSol { lamports: u64 },
    /// Close the payer's token account.
    CloseOwnAccount,
    /// Report the balance change between the two balance readings.
    ReportBalanceChange,
    /// Create Metaplex metadata for the mint.
    CreateMetadata { name: String, symbol: String, uri: String },
    /// Read and show the mint's metadata.
    ShowMetadata,
}

/// The amount the token walkthrough mints.
pub open spec fn minted_amount() -> u64 {
    5_000_000
}

/// The steps of the token walkthrough: create a mint (6 decimals) and an
/// account, mint 5 000 000, burn half, create a receiver and transfer a
/// quarter, freeze the account, then try the same transfer again, which has
/// to fail; the mint and the account are shown along the way.
pub open spec fn token_operation_steps() -> Seq<(Step, Expectation)> {
    let ok = Expectation::Succeed;
    seq![
        (Step::CreateMint { decimals: 6 }, ok),
        (Step::ShowMint, ok),
        (Step::CreateOwnAccount, ok),
        (Step::ShowOwnAccount, ok),
        (Step::MintTokens { amount: 5_000_000 }, ok),
        (Step::ShowMint, ok),
        (Step::ShowOwnAccount, ok),
        (Step::BurnTokens { amount: 2_500_000 }, ok),
        (Step::ShowMint, ok),
        (Step::ShowOwnAccount, ok),
        (Step::CreateReceiverAccount, ok),
        (Step::TransferTokens { amount: 1_250_000 }, ok),
        (Step::ShowOwnAccount, ok),
        (Step::FreezeOwnAccount, ok),
        (Step::ShowMint, ok),
        (Step::ShowOwnAccount, ok),
        (Step::TransferTokens { amount: 1_250_000 }, Expectation::Fail),
        (Step::ShowMint, ok),
        (Step::ShowOwnAccount, ok),
    ]
}

/// Appends a step and its expectation.
fn add_step(steps: &mut Vec<Step>, expected: &mut Vec<Expectation>, step: Step, e: Expectation)
    ensures
        final(steps)@ == old(steps)@.push(step),
        final(expected)@ == old(expected)@.push(e),
{
    steps.push(step);
    expected.push(e);
}

/// The token walkthrough as parallel lists of steps and expectations.
pub fn token_operations() -> (r: (Vec<Step>, Vec<Expectation>))
    ensures
        r.0@.len() == r.1@.len(),
        r.0@ == token_operation_steps().map_values(|p: (Step, Expectation)| p.0),
        r.1@ == token_operation_steps().map_values(|p: (Step, Expectation)| p.1),
{
    let amount: u64 = 5_000_000;
    let ok = Expectation::Succeed;
    let mut s: Vec<Step> = Vec::new();
    let mut e: Vec<Expectation> = Vec::new();
    add_step(&mut s, &mut e, Step::CreateMint { decimals: 6 }, ok);
    add_step(&mut s, &mut e, Step::ShowMint, ok);
    add_step(&mut s, &mut e, Step::CreateOwnAccount, ok);
    add_step(&mut s, &mut e, Step::ShowOwnAccount, ok);
    add_step(&mut s, &mut e, Step::MintTokens { amount }, ok);
    add_step(&mut s, &mut e, Step::ShowMint, ok);
    add_step(&mut s, &mut e, Step::ShowOwnAccount, ok);
    add_step(&mut s, &mut e, Step::BurnTokens { amount: amount / 2 }, ok);
    add_step(&mut s, &mut e, Step::ShowMint, ok);
    add_step(&mut s, &mut e, Step::ShowOwnAccount, ok);
    add_step(&mut s, &mut e, Step::CreateReceiverAccount, ok);
    add_step(&mut s, &mut e, Step::TransferTokens { amount: amount / 4 }, ok);
    add_step(&mut s, &mut e, Step::ShowOwnAccount, ok);
    add_step(&mut s, &mut e, Step::FreezeOwnAccount, ok);
    add_step(&mut s, &mut e, Step::ShowMint, ok);
    add_step(&mut s, &mut e, Step::ShowOwnAccount, ok);
    add_step(&mut s, &mut e, Step::TransferTokens { amount: amount / 4 }, Expectation::Fail);
    add_step(&mut s, &mut e, Step::ShowMint, ok);
    add_step(&mut s, &mut e, Step::ShowOwnAccount, ok);
    assert(s@ =~= token_operation_steps().map_values(|p: (Step, Expectation)| p.0));
    assert(e@ =~= token_operation_steps().map_values(|p: (Step, Expectation)| p.1));
    (s, e)
}

/// The steps of the wrapping walkthrough, all of which must succeed: show
/// the native mint, read the balance, create and show the native token
/// account, wrap one SOL, show the account, close it, read the balance
/// again and report the change.
pub open spec fn wrap_unwrap_steps() -> Seq<Step> {
    seq![
        Step::ShowMint,
        Step::ReadBalance,
        Step::CreateOwnAccount,
        Step::ShowOwnAccount,
        Step::WrapSol { lamports: 1_000_000_000 },
        Step::ShowOwnAccount,
        Step::CloseOwnAccount,
        Step::ReadBalance,
        Step::ReportBalanceChange,
    ]
}

/// Every step of a list is expected to succeed.
pub open spec fn all_succeed(n: nat) -> Seq<Expectation> {
    Seq::new(n, |i: int| Expectation::Succeed)
}

/// Expectations that every one of `n` steps succeeds.
fn expect_success(n: usize) -> (e: Vec<Expectation>)
    ensures
        e@ == all_succeed(n as nat),
{
    let mut e: Vec<Expectation> = Vec::new();
    let mut i: usize = 0;
    while i < n
        invariant
            i <= n,
            e@ == all_succeed(i as nat),
        decreases n - i,
    {
        e.push(Expectation::Succeed);
        i = i + 1;
        assert(e@ =~= all_succeed(i as nat));
    }
    e
}

/// The wrapping walkthrough as steps and expectations.
pub fn wrap_unwrap_sol() -> (r: (Vec<Step>, Vec<Expectation>))
    ensures
        r.0@ == wrap_unwrap_steps(),
        r.1@ == all_succeed(wrap_unwrap_steps().len()),
{
    let lamports: u64 = lamports_per_sol();
    let mut s: Vec<Step> = Vec::new();
    s.push(Step::ShowMint);
    s.push(Step::ReadBalance);
    s.push(Step::CreateOwnAccount);
    s.push(Step::ShowOwnAccount);
    s.push(Step::WrapSol { lamports });
    s.push(Step::ShowOwnAccount);
    s.push(Step::CloseOwnAccount);
    s.push(Step::ReadBalance);
    s.push(Step::ReportBalanceChange);
    assert(s@ =~= wrap_unwrap_steps());
    let e = expect_success(s.len());
    (s, e)
}

/// The name, symbol and uri of the walkthrough's metadata.
pub open spec fn workshop_metadata() -> (Seq<char>, Seq<char>, Seq<char>) {
    (
        "Workshop Token"@,
        "WRK"@,
        "https://raw.githubusercontent.com/solana-developers/program-examples/new-examples/tokens/tokens/.assets/spl-token.json"@,
    )
}

/// The metadata walkthrough, all of whose steps must succeed: create a mint
/// with 6 decimals, attach metadata to it and show the metadata.
pub fn mint_with_metadata() -> (r: (Vec<Step>, Vec<Expectation>))
    ensures
        r.0@.len() == 3,
        r.0@[0] == (Step::CreateMint { decimals: 6 }),
        (r.0@[1] matches Step::CreateMetadata { name, symbol, uri } && (name@, symbol@, uri@) == workshop_metadata()),
        r.0@[2] == Step::ShowMetadata,
        r.1@ == all_succeed(3),
{
    let mut s: Vec<Step> = Vec::new();
    s.push(Step::CreateMint { decimals: 6 });
    s.push(Step::CreateMetadata {
        name: "Workshop Token".to_owned(),
        symbol: "WRK".to_owned(),
        uri: "https://raw.githubusercontent.com/solana-developers/program-examples/new-examples/tokens/tokens/.assets/spl-token.json".to_owned(),
    });
    s.push(Step::ShowMetadata);
    let e = expect_success(3);
    (s, e)
}

/// How a step changes the token balance of the payer's account, if it
/// goes through.
pub open spec fn token_change(step: Step) -> int {
    match step {
        Step::MintTokens { amount } => amount as int,
        Step::BurnTokens { amount } => -(amount as int),
        Step::TransferTokens { amount } => -(amount as int),
        _ => 0,
    }
}

/// The payer's token balance after the first `n` steps, counting every
/// step as if it went through.
pub open spec fn balance_after(steps: Seq<(Step, Expectation)>, n: int) -> int
    decreases n,
{
    if n <= 0 || n > steps.len() {
        0
    } else {
        balance_after(steps, n - 1) + token_change(steps[n - 1].0)
    }
}

/// The token walkthrough never spends tokens the account does not hold,
/// not even with the transfer that must fail: that transfer is refused
/// because the account is frozen, not for want of tokens.
pub proof fn token_walkthrough_never_overdraws()
    ensures
        forall|n: int| 0 <= n <= token_operation_steps().len() ==> #[trigger] balance_after(token_operation_steps(), n) >= 0,
        balance_after(token_operation_steps(), 16) >= 1_250_000,
{
    let steps = token_operation_steps();
    reveal_with_fuel(balance_after, 20);
    assert forall|n: int| 0 <= n <= steps.len() implies #[trigger] balance_after(steps, n) >= 0 by {
        assert(0 <= n <= 19);
    }
}

/// Whether `steps` reads the balance at `first` and `second` only, ends by
/// reporting on those readings, wraps one SOL at `wrap` into an account
/// created before, and closes that account at `close`, in the order
/// `first < wrap < close < second`, with no other account created between
/// the wrapping and the closing.
pub open spec fn unwraps_between(steps: Seq<Step>, first: int, wrap: int, close: int, second: int) -> bool {
    &&& 0 <= first < wrap
    &&& wrap < close
    &&& close < second
    &&& second < steps.len() - 1
    &&& steps[first] == Step::ReadBalance
    &&& steps[wrap] == (Step::WrapSol { lamports: 1_000_000_000 })
    &&& steps[close] == Step::CloseOwnAccount
    &&& steps[second] == Step::ReadBalance
    &&& steps.last() == Step::ReportBalanceChange
    &&& forall|i: int| 0 <= i < steps.len() && #[trigger] steps[i] == Step::ReadBalance ==> i == first || i == second
    &&& exists|c: int| 0 <= c < wrap && #[trigger] steps[c] == Step::CreateOwnAccount
    &&& forall|i: int| wrap < i < close ==> #[trigger] steps[i] != Step::CreateOwnAccount
}

/// The wrapping walkthrough unwraps what it wraps before it measures:
/// between its two balance readings (the only ones, which its last step
/// reports on) it wraps one SOL into the payer's native account and then
/// closes that same account, which was created before the wrapping and not
/// replaced in between.
pub proof fn wrapped_sol_is_unwrapped_before_the_second_reading()
    ensures
        exists|first: int, wrap: int, close: int, second: int| #[trigger] unwraps_between(wrap_unwrap_steps(), first, wrap, close, second),
{
    let steps = wrap_unwrap_steps();
    assert(steps[2] == Step::CreateOwnAccount);
    assert forall|i: int| 0 <= i < steps.len() && #[trigger] steps[i] == Step::ReadBalance implies i == 1 || i == 7 by {
        assert(0 <= i < 9);
    }
    assert forall|i: int| 4 < i < 6 implies #[trigger] steps[i] != Step::CreateOwnAccount by {
        assert(i == 5);
    }
    assert(steps.last() == Step::ReportBalanceChange);
    assert(unwraps_between(steps, 1, 4, 6, 7));
}

/// Whether the token walkthrough `steps` creates the mint first, mints
/// `amount` at `mint` into the payer's account created before, burns half
/// of it at `burn`, transfers a quarter at `transfer` to a receiver's
/// account created before, freezes the payer's account at `freeze`, and
/// then, at `refused`, tries the same transfer again, which alone is
/// expected to fail.
pub open spec fn refused_after_freezing(
    steps: Seq<(Step, Expectation)>,
    amount: u64,
    mint: int,
    burn: int,
    transfer: int,
    freeze: int,
    refused: int,
) -> bool {
    &&& 0 < mint < burn
    &&& burn < transfer
    &&& transfer < freeze
    &&& freeze < refused
    &&& refused < steps.len()
    &&& steps[0] == (Step::CreateMint { decimals: 6 }, Expectation::Succeed)
    &&& steps[mint] == (Step::MintTokens { amount }, Expectation::Succeed)
    &&& steps[burn] == (Step::BurnTokens { amount: amount / 2 }, Expectation::Succeed)
    &&& steps[transfer] == (Step::TransferTokens { amount: amount / 4 }, Expectation::Succeed)
    &&& steps[freeze] == (Step::FreezeOwnAccount, Expectation::Succeed)
    &&& steps[refused] == (Step::TransferTokens { amount: amount / 4 }, Expectation::Fail)
    &&& forall|i: int| 0 <= i < steps.len() && #[trigger] steps[i].1 == Expectation::Fail ==> i == refused
    &&& exists|c: int| 0 <= c < mint && #[trigger] steps[c].0 == Step::CreateOwnAccount
    &&& exists|r: int| 0 <= r < transfer && #[trigger] steps[r].0 == Step::CreateReceiverAccount
}

/// The token walkthrough mints 5 000 000 units, burns half and transfers a
/// quarter, and its only step expected to fail is the repeated transfer
/// after the payer's account was frozen.
pub proof fn only_the_transfer_after_freezing_is_refused()
    ensures
        exists|mint: int, burn: int, transfer: int, freeze: int, refused: int|
            #[trigger] refused_after_freezing(token_operation_steps(), 5_000_000, mint, burn, transfer, freeze, refused),
{
    let steps = token_operation_steps();
    assert forall|i: int| 0 <= i < steps.len() && #[trigger] steps[i].1 == Expectation::Fail implies i == 16 by {
        assert(0 <= i < 19);
    }
    assert(steps[2].0 == Step::CreateOwnAccount);
    assert(steps[10].0 == Step::CreateReceiverAccount);
    assert(refused_after_freezing(steps, 5_000_000, 4, 7, 11, 13, 16));
}

} // verus!
