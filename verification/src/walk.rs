//! What each walkthrough step does: from the step and what the walkthrough
//! has created so far, the operation to perform on the cluster (with the
//! transaction to send, where there is one), and from the operation and the
//! cluster's reply, what the walkthrough holds next.
use crate::ata::associated_token_address_of;
use crate::instruction::InstructionModel;
use crate::laws::{
    borsh_string_at, burning_debits_the_amount_from_the_account, closing_returns_the_lamports_to_the_payer,
    metadata_is_written_with_the_given_name_symbol_and_uri, utf8_len,
    freezing_names_the_account_and_its_mint, minting_credits_the_amount_to_the_destination, moves_lamports,
    sol_transfer_moves_the_lamports, tag_and_amount, transfer_moves_the_amount_from_source_to_destination, written,
};
use crate::metadata::{borsh_encodable, metadata_address, metadata_address_of};
use crate::plan::{
    burn_ix, burn_tokens_plan, close_ix, close_token_account_plan, create_ata_ix, create_metadata_ix,
    create_metadata_plan, create_token_account_plan, freeze_ix, freeze_tokens_plan, mint_to_ix, mint_tokens_plan,
    plan_model, sol_transfer_ix, sync_native_ix, transfer_ix, transfer_tokens_plan, wrap_sol_plan, TxPlan,
    TxPlanModel,
};
use crate::script::{token_operation_steps, wrap_unwrap_steps, Expectation, Step};
use vstd::prelude::*;

verus! {

/// What a walkthrough has created and read so far.
#[derive(Clone, Debug, PartialEq, Eq)]
pub struct Walk {
    /// The mint the walkthrough works with.
    pub mint: Option<[u8; 32]>,
    /// The payer's token account for the mint.
    pub own_account: Option<[u8; 32]>,
    /// The receiver's token account for the mint.
    pub receiver_account: Option<[u8; 32]>,
    /// The payer's SOL balance readings, oldest first.
    pub balances: Vec<u64>,
}

/// The mathematical value of a walkthrough's state.
pub struct WalkModel {
    pub mint: Option<[u8; 32]>,
    pub own_account: Option<[u8; 32]>,
    pub receiver_account: Option<[u8; 32]>,
    pub balances: Seq<u64>,
}

impl View for Walk {
    type V = WalkModel;

    open spec fn view(&self) -> WalkModel {
        WalkModel {
            mint: self.mint,
            own_account: self.own_account,
            receiver_account: self.receiver_account,
            balances: self.balances@,
        }
    }
}

/// A walkthrough that has created and read nothing yet.
pub fn fresh_walk() -> (w: Walk)
    ensures
        w@ == start_walk(None),
{
    Walk { mint: None, own_account: None, receiver_account: None, balances: Vec::new() }
}

/// A walkthrough that works with an existing mint.
pub fn walk_with_mint(mint: [u8; 32]) -> (w: Walk)
    ensures
        w@ == start_walk(Some(mint)),
{
    Walk { mint: Some(mint), own_account: None, receiver_account: None, balances: Vec::new() }
}

/// Why a step cannot be performed.
#[derive(Clone, Copy, Debug, PartialEq, Eq)]
pub enum StepError {
    /// No mint has been created or given yet.
    NoMint,
    /// The payer's token account has not been created yet.
    NoOwnAccount,
    /// The receiver's token account has not been created yet.
    NoReceiverAccount,
    /// Fewer than two balance readings have been taken.
    TooFewBalanceReadings,
    /// A program-derived address the step needs cannot be found.
    AddressNotDerivable,
}

/// What to perform on the cluster for a step.
#[derive(Clone, Debug, PartialEq, Eq)]
pub enum Operation {
    /// Create a fresh mint with these authorities and decimals.
    CreateMint { mint_authority: [u8; 32], freeze_authority: Option<[u8; 32]>, decimals: u8 },
    /// Read and show this mint.
    ShowMint { mint: [u8; 32] },
    /// Send the plan that creates the token account `account` (of the
    /// receiver when `receiver` holds, else of the payer).
    CreateTokenAccount { plan: TxPlan, account: [u8; 32], receiver: bool },
    /// Read and show this token account.
    ShowTokenAccount { account: [u8; 32] },
    /// Send the plan that mints tokens into `account`.
    MintTokens { plan: TxPlan, account: [u8; 32] },
    /// Send the plan that burns tokens from `account`.
    BurnTokens { plan: TxPlan, account: [u8; 32] },
    /// Send the plan that transfers `amount` tokens from `from` to `to`.
    TransferTokens { plan: TxPlan, from: [u8; 32], to: [u8; 32], amount: u64 },
    /// Send the plan that freezes `account`.
    FreezeAccount { plan: TxPlan, account: [u8; 32] },
    /// Read the SOL balance of `owner`.
    ReadBalance { owner: [u8; 32] },
    /// Send the plan that wraps `lamports` into `account`.
    WrapSol { plan: TxPlan, account: [u8; 32], lamports: u64 },
    /// Send the plan that closes `account`.
    CloseAccount { plan: TxPlan, account: [u8; 32] },
    /// Report the change between two balance readings.
    ReportBalanceChange { before: u64, after: u64 },
    /// Send the plan that creates the metadata account `metadata`.
    CreateMetadata { plan: TxPlan, metadata: [u8; 32] },
    /// Read and show the metadata account `metadata`.
    ShowMetadata { metadata: [u8; 32] },
}

/// The mathematical value of an operation.
pub enum OperationModel {
    CreateMint { mint_authority: [u8; 32], freeze_authority: Option<[u8; 32]>, decimals: u8 },
    ShowMint { mint: [u8; 32] },
    CreateTokenAccount { plan: TxPlanModel, account: [u8; 32], receiver: bool },
    ShowTokenAccount { account: [u8; 32] },
    MintTokens { plan: TxPlanModel, account: [u8; 32] },
    BurnTokens { plan: TxPlanModel, account: [u8; 32] },
    TransferTokens { plan: TxPlanModel, from: [u8; 32], to: [u8; 32], amount: u64 },
    FreezeAccount { plan: TxPlanModel, account: [u8; 32] },
    ReadBalance { owner: [u8; 32] },
    WrapSol { plan: TxPlanModel, account: [u8; 32], lamports: u64 },
    CloseAccount { plan: TxPlanModel, account: [u8; 32] },
    ReportBalanceChange { before: u64, after: u64 },
    CreateMetadata { plan: TxPlanModel, metadata: [u8; 32] },
    ShowMetadata { metadata: [u8; 32] },
}

impl View for Operation {
    type V = OperationModel;

    open spec fn view(&self) -> OperationModel {
        match self {
            Operation::CreateMint { mint_authority, freeze_authority, decimals } => OperationModel::CreateMint {
                mint_authority: *mint_authority,
                freeze_authority: *freeze_authority,
                decimals: *decimals,
            },
            Operation::ShowMint { mint } => OperationModel::ShowMint { mint: *mint },
            Operation::CreateTokenAccount { plan, account, receiver } => OperationModel::CreateTokenAccount {
                plan: plan@,
                account: *account,
                receiver: *receiver,
            },
            Operation::ShowTokenAccount { account } => OperationModel::ShowTokenAccount { account: *account },
            Operation::MintTokens { plan, account } => OperationModel::MintTokens { plan: plan@, account: *account },
            Operation::BurnTokens { plan, account } => OperationModel::BurnTokens { plan: plan@, account: *account },
            Operation::TransferTokens { plan, from, to, amount } => OperationModel::TransferTokens {
                plan: plan@,
                from: *from,
                to: *to,
                amount: *amount,
            },
            Operation::FreezeAccount { plan, account } => OperationModel::FreezeAccount { plan: plan@, account: *account },
            Operation::ReadBalance { owner } => OperationModel::ReadBalance { owner: *owner },
            Operation::WrapSol { plan, account, lamports } => OperationModel::WrapSol {
                plan: plan@,
                account: *account,
                lamports: *lamports,
            },
            Operation::CloseAccount { plan, account } => OperationModel::CloseAccount { plan: plan@, account: *account },
            Operation::ReportBalanceChange { before, after } => OperationModel::ReportBalanceChange {
                before: *before,
                after: *after,
            },
            Operation::CreateMetadata { plan, metadata } => OperationModel::CreateMetadata {
                plan: plan@,
                metadata: *metadata,
            },
            Operation::ShowMetadata { metadata } => OperationModel::ShowMetadata { metadata: *metadata },
        }
    }
}

/// The value of an operation that may have been refused.
pub open spec fn operation_result(r: Result<Operation, StepError>) -> Result<OperationModel, StepError> {
    match r {
        Ok(op) => Ok(op@),
        Err(e) => Err(e),
    }
}

/// A transaction of one instruction, paid for and signed by `payer` alone.
pub open spec fn single(ix: InstructionModel, payer: [u8; 32]) -> TxPlanModel {
    plan_model(seq![ix], payer, seq![payer])
}

/// The operation that creates the associated token account of `owner` for
/// `mint`, paid by `payer`.
pub open spec fn account_creation(payer: [u8; 32], owner: [u8; 32], mint: [u8; 32], receiver: bool) -> Result<OperationModel, StepError> {
    match associated_token_address_of(owner, mint) {
        Some(ata) => Ok(OperationModel::CreateTokenAccount {
            plan: single(create_ata_ix(payer, owner, mint, ata), payer),
            account: ata,
            receiver,
        }),
        None => Err(StepError::AddressNotDerivable),
    }
}

/// What a step performs, paid for by `payer`; `fresh` is the owner of the
/// receiver's account when the step creates one. Every operation uses the
/// walkthrough's mint, the payer's account as the account tokens are
/// minted into, burned from, transferred from, frozen, wrapped into and
/// closed, the receiver's account as the transfer's destination, and the
/// payer as every authority.
pub open spec fn step_operation(w: WalkModel, step: Step, payer: [u8; 32], fresh: [u8; 32]) -> Result<OperationModel, StepError> {
    match step {
        Step::CreateMint { decimals } => Ok(OperationModel::CreateMint {
            mint_authority: payer,
            freeze_authority: Some(payer),
            decimals,
        }),
        Step::ShowMint => match w.mint {
            Some(mint) => Ok(OperationModel::ShowMint { mint }),
            None => Err(StepError::NoMint),
        },
        Step::CreateOwnAccount => match w.mint {
            Some(mint) => account_creation(payer, payer, mint, false),
            None => Err(StepError::NoMint),
        },
        Step::ShowOwnAccount => match w.own_account {
            Some(account) => Ok(OperationModel::ShowTokenAccount { account }),
            None => Err(StepError::NoOwnAccount),
        },
        Step::MintTokens { amount } => match (w.mint, w.own_account) {
            (None, _) => Err(StepError::NoMint),
            (_, None) => Err(StepError::NoOwnAccount),
            (Some(mint), Some(account)) => Ok(OperationModel::MintTokens {
                plan: single(mint_to_ix(payer, mint, account, amount), payer),
                account,
            }),
        },
        Step::BurnTokens { amount } => match (w.mint, w.own_account) {
            (None, _) => Err(StepError::NoMint),
            (_, None) => Err(StepError::NoOwnAccount),
            (Some(mint), Some(account)) => Ok(OperationModel::BurnTokens {
                plan: single(burn_ix(payer, mint, account, amount), payer),
                account,
            }),
        },
        Step::CreateReceiverAccount => match w.mint {
            Some(mint) => account_creation(payer, fresh, mint, true),
            None => Err(StepError::NoMint),
        },
        Step::TransferTokens { amount } => match (w.own_account, w.receiver_account) {
            (None, _) => Err(StepError::NoOwnAccount),
            (_, None) => Err(StepError::NoReceiverAccount),
            (Some(from), Some(to)) => Ok(OperationModel::TransferTokens {
                plan: single(transfer_ix(payer, from, to, amount), payer),
                from,
                to,
                amount,
            }),
        },
        Step::FreezeOwnAccount => match (w.mint, w.own_account) {
            (None, _) => Err(StepError::NoMint),
            (_, None) => Err(StepError::NoOwnAccount),
            (Some(mint), Some(account)) => Ok(OperationModel::FreezeAccount {
                plan: single(freeze_ix(payer, mint, account), payer),
                account,
            }),
        },
        Step::ReadBalance => Ok(OperationModel::ReadBalance { owner: payer }),
        Step::WrapSol { lamports } => match w.own_account {
            Some(account) => Ok(OperationModel::WrapSol {
                plan: plan_model(seq![sol_transfer_ix(payer, account, lamports), sync_native_ix(account)], payer, seq![payer]),
                account,
                lamports,
            }),
            None => Err(StepError::NoOwnAccount),
        },
        Step::CloseOwnAccount => match w.own_account {
            Some(account) => Ok(OperationModel::CloseAccount { plan: single(close_ix(payer, account), payer), account }),
            None => Err(StepError::NoOwnAccount),
        },
        Step::ReportBalanceChange => if w.balances.len() >= 2 {
            Ok(OperationModel::ReportBalanceChange { before: w.balances[0], after: w.balances[1] })
        } else {
            Err(StepError::TooFewBalanceReadings)
        },
        Step::CreateMetadata { name, symbol, uri } => match w.mint {
            None => Err(StepError::NoMint),
            Some(mint) => match metadata_address_of(mint) {
                Some(metadata) => Ok(OperationModel::CreateMetadata {
                    plan: single(create_metadata_ix(metadata, mint, payer, name@, symbol@, uri@), payer),
                    metadata,
                }),
                None => Err(StepError::AddressNotDerivable),
            },
        },
        Step::ShowMetadata => match w.mint {
            None => Err(StepError::NoMint),
            Some(mint) => match metadata_address_of(mint) {
                Some(metadata) => Ok(OperationModel::ShowMetadata { metadata }),
                None => Err(StepError::AddressNotDerivable),
            },
        },
    }
}

/// Whether the strings a step writes can be encoded.
pub open spec fn step_encodable(step: Step) -> bool {
    match step {
        Step::CreateMetadata { name, symbol, uri } => borsh_encodable(name@) && borsh_encodable(symbol@) && borsh_encodable(uri@),
        _ => true,
    }
}

/// The operation that creates the associated token account of `owner`.
fn create_account_operation(payer: [u8; 32], owner: [u8; 32], mint: [u8; 32], receiver: bool) -> (r: Result<Operation, StepError>)
    ensures
        operation_result(r) == account_creation(payer, owner, mint, receiver),
{
    match create_token_account_plan(payer, owner, mint) {
        Some((account, plan)) => Ok(Operation::CreateTokenAccount { plan, account, receiver }),
        None => Err(StepError::AddressNotDerivable),
    }
}

/// Decides what a step performs, paid for by `payer`; `fresh` is the owner
/// of the receiver's account when the step creates one.
pub fn take_step(walk: &Walk, step: &Step, payer: [u8; 32], fresh: [u8; 32]) -> (r: Result<Operation, StepError>)
    requires
        step_encodable(*step),
    ensures
        operation_result(r) == step_operation(walk@, *step, payer, fresh),
{
    match step {
        Step::CreateMint { decimals } => Ok(Operation::CreateMint {
            mint_authority: payer,
            freeze_authority: Some(payer),
            decimals: *decimals,
        }),
        Step::ShowMint => match walk.mint {
            Some(mint) => Ok(Operation::ShowMint { mint }),
            None => Err(StepError::NoMint),
        },
        Step::CreateOwnAccount => match walk.mint {
            Some(mint) => create_account_operation(payer, payer, mint, false),
            None => Err(StepError::NoMint),
        },
        Step::ShowOwnAccount => match walk.own_account {
            Some(account) => Ok(Operation::ShowTokenAccount { account }),
            None => Err(StepError::NoOwnAccount),
        },
        Step::MintTokens { amount } => match (walk.mint, walk.own_account) {
            (None, _) => Err(StepError::NoMint),
            (_, None) => Err(StepError::NoOwnAccount),
            (Some(mint), Some(account)) => Ok(Operation::MintTokens {
                plan: mint_tokens_plan(payer, mint, account, *amount),
                account,
            }),
        },
        Step::BurnTokens { amount } => match (walk.mint, walk.own_account) {
            (None, _) => Err(StepError::NoMint),
            (_, None) => Err(StepError::NoOwnAccount),
            (Some(mint), Some(account)) => Ok(Operation::BurnTokens {
                plan: burn_tokens_plan(payer, mint, account, *amount),
                account,
            }),
        },
        Step::CreateReceiverAccount => match walk.mint {
            Some(mint) => create_account_operation(payer, fresh, mint, true),
            None => Err(StepError::NoMint),
        },
        Step::TransferTokens { amount } => match (walk.own_account, walk.receiver_account) {
            (None, _) => Err(StepError::NoOwnAccount),
            (_, None) => Err(StepError::NoReceiverAccount),
            (Some(from), Some(to)) => Ok(Operation::TransferTokens {
                plan: transfer_tokens_plan(payer, from, to, *amount),
                from,
                to,
                amount: *amount,
            }),
        },
        Step::FreezeOwnAccount => match (walk.mint, walk.own_account) {
            (None, _) => Err(StepError::NoMint),
            (_, None) => Err(StepError::NoOwnAccount),
            (Some(mint), Some(account)) => Ok(Operation::FreezeAccount {
                plan: freeze_tokens_plan(payer, mint, account),
                account,
            }),
        },
        Step::ReadBalance => Ok(Operation::ReadBalance { owner: payer }),
        Step::WrapSol { lamports } => match walk.own_account {
            Some(account) => Ok(Operation::WrapSol {
                plan: wrap_sol_plan(payer, account, *lamports),
                account,
                lamports: *lamports,
            }),
            None => Err(StepError::NoOwnAccount),
        },
        Step::CloseOwnAccount => match walk.own_account {
            Some(account) => Ok(Operation::CloseAccount { plan: close_token_account_plan(payer, account), account }),
            None => Err(StepError::NoOwnAccount),
        },
        Step::ReportBalanceChange => if walk.balances.len() >= 2 {
            Ok(Operation::ReportBalanceChange { before: walk.balances[0], after: walk.balances[1] })
        } else {
            Err(StepError::TooFewBalanceReadings)
        },
        Step::CreateMetadata { name, symbol, uri } => match walk.mint {
            None => Err(StepError::NoMint),
            Some(mint) => match create_metadata_plan(payer, mint, name.clone(), symbol.clone(), uri.clone()) {
                Some((plan, metadata)) => Ok(Operation::CreateMetadata { plan, metadata }),
                None => Err(StepError::AddressNotDerivable),
            },
        },
        Step::ShowMetadata => match walk.mint {
            None => Err(StepError::NoMint),
            Some(mint) => match metadata_address(mint) {
                Some(metadata) => Ok(Operation::ShowMetadata { metadata }),
                None => Err(StepError::AddressNotDerivable),
            },
        },
    }
}

/// What the cluster answered to an operation.
#[derive(Clone, Copy, Debug, PartialEq, Eq)]
pub enum Reply {
    /// The operation went through and returned nothing to keep.
    Done,
    /// A mint was created with this address.
    MintCreated([u8; 32]),
    /// A balance was read.
    Balance(u64),
}

/// What the walkthrough holds after `op` went through with `reply`: a
/// created mint or token account is kept, a balance reading is appended,
/// and everything else stays as it was.
pub open spec fn walk_after(w: WalkModel, op: OperationModel, reply: Reply) -> WalkModel {
    match (op, reply) {
        (OperationModel::CreateMint { .. }, Reply::MintCreated(mint)) => WalkModel {
            mint: Some(mint),
            own_account: w.own_account,
            receiver_account: w.receiver_account,
            balances: w.balances,
        },
        (OperationModel::CreateTokenAccount { account, receiver, .. }, _) => if receiver {
            WalkModel { mint: w.mint, own_account: w.own_account, receiver_account: Some(account), balances: w.balances }
        } else {
            WalkModel { mint: w.mint, own_account: Some(account), receiver_account: w.receiver_account, balances: w.balances }
        },
        (OperationModel::ReadBalance { .. }, Reply::Balance(b)) => WalkModel {
            mint: w.mint,
            own_account: w.own_account,
            receiver_account: w.receiver_account,
            balances: w.balances.push(b),
        },
        _ => w,
    }
}

/// Updates the walkthrough after `op` went through with `reply`.
pub fn after_step(walk: Walk, op: &Operation, reply: Reply) -> (next: Walk)
    ensures
        next@ == walk_after(walk@, op@, reply),
{
    let mut next = walk;
    match (op, reply) {
        (Operation::CreateMint { .. }, Reply::MintCreated(mint)) => {
            next.mint = Some(mint);
        },
        (Operation::CreateTokenAccount { account, receiver, .. }, _) => {
            if *receiver {
                next.receiver_account = Some(*account);
            } else {
                next.own_account = Some(*account);
            }
        },
        (Operation::ReadBalance { .. }, Reply::Balance(b)) => {
            next.balances.push(b);
        },
        _ => {},
    }
    next
}

/// The reply a cluster gives when it creates the mint `mint` and reports
/// the balance `balance`.
pub open spec fn cluster_reply(op: OperationModel, mint: [u8; 32], balance: u64) -> Reply {
    match op {
        OperationModel::CreateMint { .. } => Reply::MintCreated(mint),
        OperationModel::ReadBalance { .. } => Reply::Balance(balance),
        _ => Reply::Done,
    }
}

/// The state after the first `n` steps, each decided by `step_operation`
/// and answered by `cluster_reply`, or the first step's refusal.
pub open spec fn walk_through(
    steps: Seq<Step>,
    start: WalkModel,
    payer: [u8; 32],
    fresh: [u8; 32],
    mint: [u8; 32],
    balance: u64,
    n: nat,
) -> Result<WalkModel, StepError>
    decreases n,
{
    if n == 0 {
        Ok(start)
    } else {
        match walk_through(steps, start, payer, fresh, mint, balance, (n - 1) as nat) {
            Err(e) => Err(e),
            Ok(w) => match step_operation(w, steps[n - 1], payer, fresh) {
                Err(e) => Err(e),
                Ok(op) => Ok(walk_after(w, op, cluster_reply(op, mint, balance))),
            },
        }
    }
}

/// The walkthrough's state before its first step.
pub open spec fn start_walk(mint: Option<[u8; 32]>) -> WalkModel {
    WalkModel { mint, own_account: None, receiver_account: None, balances: Seq::empty() }
}

/// Whether `step`, decided in state `w` and answered by `cluster_reply`,
/// goes through and leaves the state as it was.
pub open spec fn keeps_state(w: WalkModel, step: Step, payer: [u8; 32], fresh: [u8; 32], mint: [u8; 32], balance: u64) -> bool {
    match step_operation(w, step, payer, fresh) {
        Ok(op) => walk_after(w, op, cluster_reply(op, mint, balance)) == w,
        Err(_) => false,
    }
}

/// Steps that each go through and keep the state carry a run's state
/// unchanged from step `a` to step `b`.
proof fn lemma_steps_keep_state(
    steps: Seq<Step>,
    start: WalkModel,
    payer: [u8; 32],
    fresh: [u8; 32],
    mint: [u8; 32],
    balance: u64,
    w: WalkModel,
    a: nat,
    b: nat,
)
    requires
        a <= b <= steps.len(),
        walk_through(steps, start, payer, fresh, mint, balance, a) == Ok::<WalkModel, StepError>(w),
        forall|i: int| a <= i < b ==> keeps_state(w, #[trigger] steps[i], payer, fresh, mint, balance),
    ensures
        walk_through(steps, start, payer, fresh, mint, balance, b) == Ok::<WalkModel, StepError>(w),
    decreases b - a,
{
    if a < b {
        assert(keeps_state(w, steps[a as int], payer, fresh, mint, balance));
        assert(walk_through(steps, start, payer, fresh, mint, balance, a + 1) == Ok::<WalkModel, StepError>(w));
        lemma_steps_keep_state(steps, start, payer, fresh, mint, balance, w, a + 1, b);
    }
}

/// The token walkthrough has what every one of its steps needs: run from
/// an empty state, no step is refused, as long as the payer's and the
/// receiver's token accounts for the created mint can be derived.
pub proof fn token_walkthrough_has_what_each_step_needs(payer: [u8; 32], fresh: [u8; 32], mint: [u8; 32], balance: u64)
    requires
        associated_token_address_of(payer, mint) is Some,
        associated_token_address_of(fresh, mint) is Some,
    ensures
        walk_through(
            token_operation_steps().map_values(|p: (Step, Expectation)| p.0),
            start_walk(None),
            payer,
            fresh,
            mint,
            balance,
            token_operation_steps().len(),
        ) is Ok,
{
    let steps = token_operation_steps().map_values(|p: (Step, Expectation)| p.0);
    assert(steps =~= seq![
        Step::CreateMint { decimals: 6 },
        Step::ShowMint,
        Step::CreateOwnAccount,
        Step::ShowOwnAccount,
        Step::MintTokens { amount: 5_000_000 },
        Step::ShowMint,
        Step::ShowOwnAccount,
        Step::BurnTokens { amount: 2_500_000 },
        Step::ShowMint,
        Step::ShowOwnAccount,
        Step::CreateReceiverAccount,
        Step::TransferTokens { amount: 1_250_000 },
        Step::ShowOwnAccount,
        Step::FreezeOwnAccount,
        Step::ShowMint,
        Step::ShowOwnAccount,
        Step::TransferTokens { amount: 1_250_000 },
        Step::ShowMint,
        Step::ShowOwnAccount,
    ]);
    let own = associated_token_address_of(payer, mint)->0;
    let to = associated_token_address_of(fresh, mint)->0;
    let with_mint = WalkModel { mint: Some(mint), own_account: None, receiver_account: None, balances: Seq::empty() };
    let with_own = WalkModel { own_account: Some(own), ..with_mint };
    let with_both = WalkModel { receiver_account: Some(to), ..with_own };
    assert(walk_through(steps, start_walk(None), payer, fresh, mint, balance, 0) == Ok::<WalkModel, StepError>(start_walk(None)));
    assert(walk_through(steps, start_walk(None), payer, fresh, mint, balance, 1) == Ok::<WalkModel, StepError>(with_mint));
    assert forall|i: int| 1 <= i < 2 implies keeps_state(with_mint, #[trigger] steps[i], payer, fresh, mint, balance) by {
        assert(i == 1);
    }
    lemma_steps_keep_state(steps, start_walk(None), payer, fresh, mint, balance, with_mint, 1, 2);
    assert(walk_through(steps, start_walk(None), payer, fresh, mint, balance, 3) == Ok::<WalkModel, StepError>(with_own));
    assert forall|i: int| 3 <= i < 10 implies keeps_state(with_own, #[trigger] steps[i], payer, fresh, mint, balance) by {
        assert(3 <= i < 10);
    }
    lemma_steps_keep_state(steps, start_walk(None), payer, fresh, mint, balance, with_own, 3, 10);
    assert(walk_through(steps, start_walk(None), payer, fresh, mint, balance, 11) == Ok::<WalkModel, StepError>(with_both));
    assert forall|i: int| 11 <= i < 19 implies keeps_state(with_both, #[trigger] steps[i], payer, fresh, mint, balance) by {
        assert(11 <= i < 19);
    }
    lemma_steps_keep_state(steps, start_walk(None), payer, fresh, mint, balance, with_both, 11, 19);
}

/// The wrapping walkthrough has what every one of its steps needs: run
/// from a state that holds the native mint, no step is refused, as long as
/// the payer's native token account can be derived.
pub proof fn wrap_walkthrough_has_what_each_step_needs(payer: [u8; 32], fresh: [u8; 32], native: [u8; 32], balance: u64)
    requires
        associated_token_address_of(payer, native) is Some,
    ensures
        walk_through(wrap_unwrap_steps(), start_walk(Some(native)), payer, fresh, native, balance, wrap_unwrap_steps().len()) is Ok,
{
    let steps = wrap_unwrap_steps();
    let start = start_walk(Some(native));
    let read_once = WalkModel { balances: seq![balance], ..start };
    let with_own = WalkModel { own_account: Some(associated_token_address_of(payer, native)->0), ..read_once };
    let read_twice = WalkModel { balances: seq![balance, balance], ..with_own };
    assert(walk_through(steps, start, payer, fresh, native, balance, 0) == Ok::<WalkModel, StepError>(start));
    assert(walk_through(steps, start, payer, fresh, native, balance, 1) == Ok::<WalkModel, StepError>(start));
    assert(walk_through(steps, start, payer, fresh, native, balance, 2) == Ok::<WalkModel, StepError>(read_once)) by {
        assert(read_once.balances =~= start.balances.push(balance));
    }
    assert(walk_through(steps, start, payer, fresh, native, balance, 3) == Ok::<WalkModel, StepError>(with_own));
    assert forall|i: int| 3 <= i < 7 implies keeps_state(with_own, #[trigger] steps[i], payer, fresh, native, balance) by {
        assert(3 <= i < 7);
    }
    lemma_steps_keep_state(steps, start, payer, fresh, native, balance, with_own, 3, 7);
    assert(walk_through(steps, start, payer, fresh, native, balance, 8) == Ok::<WalkModel, StepError>(read_twice)) by {
        assert(read_twice.balances =~= with_own.balances.push(balance));
    }
    assert(walk_through(steps, start, payer, fresh, native, balance, 9) == Ok::<WalkModel, StepError>(read_twice));
}

/// The metadata walkthrough has what every one of its steps needs: run
/// from an empty state, no step is refused, as long as the created mint's
/// metadata account can be derived.
pub proof fn metadata_walkthrough_has_what_each_step_needs(payer: [u8; 32], fresh: [u8; 32], mint: [u8; 32], balance: u64, steps: Seq<Step>)
    requires
        metadata_address_of(mint) is Some,
        steps.len() == 3,
        steps[0] == (Step::CreateMint { decimals: 6 }),
        steps[1] is CreateMetadata,
        steps[2] == Step::ShowMetadata,
    ensures
        walk_through(steps, start_walk(None), payer, fresh, mint, balance, 3) is Ok,
{
    let with_mint = WalkModel { mint: Some(mint), ..start_walk(None) };
    assert(walk_through(steps, start_walk(None), payer, fresh, mint, balance, 0) == Ok::<WalkModel, StepError>(start_walk(None)));
    assert(walk_through(steps, start_walk(None), payer, fresh, mint, balance, 1) == Ok::<WalkModel, StepError>(with_mint));
    assert(walk_through(steps, start_walk(None), payer, fresh, mint, balance, 2) == Ok::<WalkModel, StepError>(with_mint));
    assert(walk_through(steps, start_walk(None), payer, fresh, mint, balance, 3) == Ok::<WalkModel, StepError>(with_mint));
}

/// The plan an operation sends, if it sends one.
pub open spec fn sent_plan(op: OperationModel) -> Option<TxPlanModel> {
    match op {
        OperationModel::CreateTokenAccount { plan, .. } => Some(plan),
        OperationModel::MintTokens { plan, .. } => Some(plan),
        OperationModel::BurnTokens { plan, .. } => Some(plan),
        OperationModel::TransferTokens { plan, .. } => Some(plan),
        OperationModel::FreezeAccount { plan, .. } => Some(plan),
        OperationModel::WrapSol { plan, .. } => Some(plan),
        OperationModel::CloseAccount { plan, .. } => Some(plan),
        OperationModel::CreateMetadata { plan, .. } => Some(plan),
        _ => None,
    }
}

/// The first instruction of the plan that `step` sends in state `w`.
pub open spec fn sent_instruction(w: WalkModel, step: Step, payer: [u8; 32], fresh: [u8; 32]) -> InstructionModel {
    (sent_plan(step_operation(w, step, payer, fresh)->Ok_0)->0).instructions[0]
}

/// A walkthrough's token steps use the accounts its creation steps made.
/// Starting from a mint, once the payer's account and a fresh receiver's
/// account have been created, the transfer debits the payer's associated
/// token account and credits the receiver's; minting credits the payer's
/// account; burning, freezing and closing act on the payer's account (and
/// closing pays the lamports back to the payer); wrapping moves the
/// lamports from the payer into that account; each with exactly the amount
/// the step names and the payer alone signing. A created mint has the
/// payer as its mint and freeze authority.
pub proof fn walk_steps_use_the_accounts_they_created(
    payer: [u8; 32],
    fresh: [u8; 32],
    mint: [u8; 32],
    amount: u64,
    lamports: u64,
    decimals: u8,
)
    requires
        associated_token_address_of(payer, mint) is Some,
        associated_token_address_of(fresh, mint) is Some,
    ensures
        ({
            let own = associated_token_address_of(payer, mint)->0;
            let to = associated_token_address_of(fresh, mint)->0;
            let w0 = start_walk(Some(mint));
            let w1 = walk_after(w0, step_operation(w0, Step::CreateOwnAccount, payer, fresh)->Ok_0, Reply::Done);
            let w = walk_after(w1, step_operation(w1, Step::CreateReceiverAccount, payer, fresh)->Ok_0, Reply::Done);
            &&& w.mint == Some(mint)
            &&& w.own_account == Some(own)
            &&& w.receiver_account == Some(to)
            &&& forall|step: Step| #![trigger step_operation(w, step, payer, fresh)]
                step_operation(w, step, payer, fresh) is Ok ==> match sent_plan(step_operation(w, step, payer, fresh)->Ok_0) {
                    Some(plan) => plan.payer == payer && plan.signers == seq![payer],
                    None => true,
                }
            &&& {
                let ix = sent_instruction(w, Step::TransferTokens { amount }, payer, fresh);
                &&& ix.accounts[0] == written(own)
                &&& ix.accounts[1] == written(to)
                &&& tag_and_amount(ix.data, 3, amount)
            }
            &&& {
                let ix = sent_instruction(w, Step::MintTokens { amount }, payer, fresh);
                &&& ix.accounts[0] == written(mint)
                &&& ix.accounts[1] == written(own)
                &&& tag_and_amount(ix.data, 7, amount)
            }
            &&& {
                let ix = sent_instruction(w, Step::BurnTokens { amount }, payer, fresh);
                &&& ix.accounts[0] == written(own)
                &&& ix.accounts[1] == written(mint)
                &&& tag_and_amount(ix.data, 8, amount)
            }
            &&& {
                let ix = sent_instruction(w, Step::FreezeOwnAccount, payer, fresh);
                &&& ix.accounts[0] == written(own)
                &&& ix.accounts[1].pubkey == mint
                &&& ix.data == seq![10u8]
            }
            &&& {
                let ix = sent_instruction(w, Step::CloseOwnAccount, payer, fresh);
                &&& ix.accounts[0] == written(own)
                &&& ix.accounts[1] == written(payer)
                &&& ix.data == seq![9u8]
            }
            &&& moves_lamports(sent_instruction(w, Step::WrapSol { lamports }, payer, fresh), payer, own, lamports)
            &&& step_operation(w, Step::CreateMint { decimals }, payer, fresh) == Ok::<OperationModel, StepError>(
                OperationModel::CreateMint { mint_authority: payer, freeze_authority: Some(payer), decimals },
            )
        }),
{
    let own = associated_token_address_of(payer, mint)->0;
    let to = associated_token_address_of(fresh, mint)->0;
    transfer_moves_the_amount_from_source_to_destination(payer, own, to, amount);
    minting_credits_the_amount_to_the_destination(payer, mint, own, amount);
    burning_debits_the_amount_from_the_account(payer, mint, own, amount);
    freezing_names_the_account_and_its_mint(payer, mint, own);
    closing_returns_the_lamports_to_the_payer(payer, own);
    sol_transfer_moves_the_lamports(payer, own, lamports);
}

/// A walkthrough shows the metadata from the account it wrote it to: for a
/// walkthrough that holds a mint, writing metadata can be decided exactly
/// when showing it can; the written account is the mint's derived metadata
/// address, the one showing reads; and the data written names the step's
/// name, symbol and uri, in that order.
pub proof fn shown_metadata_is_the_written_one(w: WalkModel, step: Step, payer: [u8; 32], fresh: [u8; 32])
    requires
        w.mint is Some,
        step is CreateMetadata,
    ensures
        step_operation(w, step, payer, fresh) is Ok <==> step_operation(w, Step::ShowMetadata, payer, fresh) is Ok,
        step_operation(w, step, payer, fresh) matches Ok(OperationModel::CreateMetadata { plan, metadata }) ==> {
            &&& step_operation(w, Step::ShowMetadata, payer, fresh) == Ok::<OperationModel, StepError>(OperationModel::ShowMetadata { metadata })
            &&& metadata_address_of(w.mint->0) == Some(metadata)
            &&& plan.instructions.len() == 1
            &&& plan.instructions[0].accounts[0] == written(metadata)
            &&& borsh_string_at(plan.instructions[0].data, 1, step->name@)
            &&& borsh_string_at(plan.instructions[0].data, 5 + utf8_len(step->name@), step->symbol@)
            &&& borsh_string_at(plan.instructions[0].data, 9 + utf8_len(step->name@) + utf8_len(step->symbol@), step->uri@)
        },
{
    if let Some(metadata) = metadata_address_of(w.mint->0) {
        metadata_is_written_with_the_given_name_symbol_and_uri(metadata, w.mint->0, payer, step->name@, step->symbol@, step->uri@);
    }
}

} // verus!
