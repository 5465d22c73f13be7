//! Transaction plans: the instructions each step of the client sends, who
//! pays for them and who has to sign.
use crate::ata::{
    associated_token_address_derivable, associated_token_address_of, create_associated_token_account,
    get_associated_token_address,
};
use crate::fees::{lamports_per_sol, price_per_compute_unit, unit_price, PRIORITY_COMPUTE_UNITS};
use crate::ids::{
    token_program_id, ASSOCIATED_TOKEN_PROGRAM_ID, COMPUTE_BUDGET_PROGRAM_ID, METADATA_PROGRAM_ID, RENT_SYSVAR_ID,
    SYSTEM_PROGRAM_ID, TOKEN_PROGRAM_ID,
};
use crate::instruction::{
    memo_instruction, model, readonly, readonly_signer, writable, writable_signer, AccountMeta, Instruction,
    InstructionModel,
};
use crate::metadata::{
    borsh_encodable, create_metadata_account_v3, create_metadata_accounts, create_metadata_data, metadata_address,
    metadata_address_of, short_strings_are_encodable,
};
use crate::state::{mint_account_len, MINT_LEN};
use crate::system::{
    compute_unit_limit, compute_unit_limit_data, compute_unit_price, compute_unit_price_data, create_account_data,
    system_create_account, system_transfer, system_transfer_data,
};
use crate::token::{
    amount_data, authority_metas, initialize_mint_data, spl_burn, spl_close_account, spl_freeze_account,
    spl_initialize_mint, spl_mint_to, spl_sync_native, spl_transfer,
};
use vstd::pervasive::unreached;
use vstd::prelude::*;
use vstd::string::StringSliceAdditionalSpecFns;

verus! {

/// A transaction to send: its instructions in order, the fee payer and the
/// accounts whose keys must sign it.
#[derive(Clone, Debug, PartialEq, Eq)]
pub struct TxPlan {
    pub instructions: Vec<Instruction>,
    pub payer: [u8; 32],
    pub signers: Vec<[u8; 32]>,
}

/// The mathematical value of a transaction plan.
#[verifier::ext_equal]
pub struct TxPlanModel {
    pub instructions: Seq<InstructionModel>,
    pub payer: [u8; 32],
    pub signers: Seq<[u8; 32]>,
}

impl View for TxPlan {
    type V = TxPlanModel;

    open spec fn view(&self) -> TxPlanModel {
        TxPlanModel {
            instructions: self.instructions@.map_values(|ix: Instruction| ix@),
            payer: self.payer,
            signers: self.signers@,
        }
    }
}

/// The plan with the given parts.
pub open spec fn plan_model(instructions: Seq<InstructionModel>, payer: [u8; 32], signers: Seq<[u8; 32]>) -> TxPlanModel {
    TxPlanModel { instructions, payer, signers }
}

/// Whether `key` signs some instruction of the plan as a signer account.
pub open spec fn signs_an_instruction(p: TxPlanModel, key: [u8; 32]) -> bool {
    exists|i: int, j: int|
        0 <= i < p.instructions.len() && 0 <= j < p.instructions[i].accounts.len()
            && #[trigger] p.instructions[i].accounts[j] == AccountMeta { pubkey: key, is_signer: true, is_writable: p.instructions[i].accounts[j].is_writable }
}

/// The keys whose signatures a plan needs: the fee payer and every account
/// that one of its instructions marks as a signer.
pub open spec fn required_signers(p: TxPlanModel) -> Set<[u8; 32]> {
    Set::new(|key: [u8; 32]| key == p.payer || signs_an_instruction(p, key))
}

/// A plan lists exactly the signatures it needs: no required signer is
/// missing (signing would fail) and no listed key is superfluous (signing
/// would reject it).
pub open spec fn signs_exactly_as_required(p: TxPlanModel) -> bool {
    p.signers.to_set() == required_signers(p)
}

/// Whether every signer account of an instruction is one of `keys`.
pub open spec fn signers_among(ix: InstructionModel, keys: Seq<[u8; 32]>) -> bool {
    forall|j: int| 0 <= j < ix.accounts.len() && #[trigger] ix.accounts[j].is_signer ==> keys.contains(ix.accounts[j].pubkey)
}

/// A plan signs exactly as required when it lists the payer and the keys of
/// its instructions' signer accounts, and each listed key is the payer or
/// signs some instruction.
proof fn lemma_signs_exactly(p: TxPlanModel)
    requires
        p.signers.len() > 0,
        p.signers[0] == p.payer,
        forall|i: int| 0 <= i < p.instructions.len() ==> signers_among(#[trigger] p.instructions[i], p.signers),
        forall|k: [u8; 32]| p.signers.contains(k) ==> k == p.payer || signs_an_instruction(p, k),
    ensures
        signs_exactly_as_required(p),
{
    assert forall|k: [u8; 32]| #[trigger] required_signers(p).contains(k) implies p.signers.to_set().contains(k) by {
        if k != p.payer {
            let (i, j) = choose|i: int, j: int|
                0 <= i < p.instructions.len() && 0 <= j < p.instructions[i].accounts.len()
                    && #[trigger] p.instructions[i].accounts[j] == AccountMeta { pubkey: k, is_signer: true, is_writable: p.instructions[i].accounts[j].is_writable };
            assert(signers_among(p.instructions[i], p.signers));
            assert(p.instructions[i].accounts[j].is_signer);
        }
    }
    assert(p.signers.contains(p.payer)) by {
        assert(p.signers[0] == p.payer);
    }
    assert(p.signers.to_set() =~= required_signers(p));
}

/// A token program instruction with the given accounts and data.
pub open spec fn token_ix(accounts: Seq<AccountMeta>, data: Seq<u8>) -> InstructionModel {
    model(TOKEN_PROGRAM_ID, accounts, data)
}

/// Packs one instruction into a plan paid for and signed by `payer` alone.
fn paid_by(ix: Instruction, payer: [u8; 32]) -> (plan: TxPlan)
    ensures
        plan@ == plan_model(seq![ix@], payer, seq![payer]),
{
    let mut instructions: Vec<Instruction> = Vec::new();
    instructions.push(ix);
    let mut signers: Vec<[u8; 32]> = Vec::new();
    signers.push(payer);
    let plan = TxPlan { instructions, payer, signers };
    assert(plan@.instructions =~= seq![ix@]);
    plan
}

/// The payer as the only multisignature signer of a token instruction.
fn payer_as_signer(payer: [u8; 32]) -> (signers: Vec<[u8; 32]>)
    ensures
        signers@ == seq![payer],
{
    let mut signers: Vec<[u8; 32]> = Vec::new();
    signers.push(payer);
    signers
}

/// The instructions that create a mint account: the System program funds
/// and allocates it for the token program, the token program initialises it.
pub open spec fn create_mint_instructions(
    payer: [u8; 32],
    mint: [u8; 32],
    rent: u64,
    mint_authority: [u8; 32],
    freeze_authority: Option<[u8; 32]>,
    decimals: u8,
) -> Seq<InstructionModel> {
    seq![
        model(SYSTEM_PROGRAM_ID, seq![writable_signer(payer), writable_signer(mint)], create_account_data(rent, MINT_LEN as u64, TOKEN_PROGRAM_ID)),
        token_ix(seq![writable(mint), readonly(RENT_SYSVAR_ID)], initialize_mint_data(decimals, mint_authority, freeze_authority)),
    ]
}

/// The transaction that creates and initialises a new mint, funded with
/// `rent` lamports by the payer; both the payer and the new mint sign.
pub fn create_mint_plan(
    payer: [u8; 32],
    mint: [u8; 32],
    mint_authority: [u8; 32],
    freeze_authority: Option<[u8; 32]>,
    decimals: u8,
    rent: u64,
) -> (plan: TxPlan)
    ensures
        plan@ == plan_model(create_mint_instructions(payer, mint, rent, mint_authority, freeze_authority, decimals), payer, seq![payer, mint]),
        signs_exactly_as_required(plan@),
{
    let token_program = token_program_id();
    let space = mint_account_len();
    let create = system_create_account(payer, mint, rent, space as u64, token_program);
    let init = match spl_initialize_mint(token_program, mint, mint_authority, freeze_authority, decimals) {
        Ok(ix) => ix,
        Err(_) => unreached(),
    };
    let mut instructions: Vec<Instruction> = Vec::new();
    instructions.push(create);
    instructions.push(init);
    let mut signers: Vec<[u8; 32]> = Vec::new();
    signers.push(payer);
    signers.push(mint);
    let plan = TxPlan { instructions, payer, signers };
    assert(plan@.instructions =~= create_mint_instructions(payer, mint, rent, mint_authority, freeze_authority, decimals));
    assert(plan@.signers =~= seq![payer, mint]);
    proof {
        assert(plan@.instructions[0].accounts =~= seq![writable_signer(payer), writable_signer(mint)]);
        assert(plan@.instructions[1].accounts =~= seq![writable(mint), readonly(RENT_SYSVAR_ID)]);
        assert(plan@.instructions[0].accounts[1] == AccountMeta { pubkey: mint, is_signer: true, is_writable: plan@.instructions[0].accounts[1].is_writable });
        lemma_signs_exactly(plan@);
    }
    plan
}

/// The token instruction that mints `amount` to `destination`, authorised by
/// the payer as its single multisignature signer.
pub open spec fn mint_to_ix(payer: [u8; 32], mint: [u8; 32], destination: [u8; 32], amount: u64) -> InstructionModel {
    token_ix(seq![writable(mint), writable(destination)] + authority_metas(payer, seq![payer]), amount_data(7, amount))
}

/// The transaction that mints `amount` tokens of `mint` into `owner_ata`,
/// with the payer as mint authority.
pub fn mint_tokens_plan(payer: [u8; 32], mint: [u8; 32], owner_ata: [u8; 32], amount: u64) -> (plan: TxPlan)
    ensures
        plan@ == plan_model(seq![mint_to_ix(payer, mint, owner_ata, amount)], payer, seq![payer]),
        signs_exactly_as_required(plan@),
{
    let token_program = token_program_id();
    let signers = payer_as_signer(payer);
    let ix = match spl_mint_to(token_program, mint, owner_ata, payer, &signers, amount) {
        Ok(ix) => ix,
        Err(_) => unreached(),
    };
    let plan = paid_by(ix, payer);
    proof {
        assert(plan@.instructions[0].accounts =~= seq![
            writable(mint), writable(owner_ata), AccountMeta { pubkey: payer, is_signer: false, is_writable: false }, readonly_signer(payer),
        ]);
        lemma_signs_exactly(plan@);
    }
    plan
}

/// The token instruction that freezes `account`, authorised by the payer as
/// freeze authority.
pub open spec fn freeze_ix(payer: [u8; 32], mint: [u8; 32], account: [u8; 32]) -> InstructionModel {
    token_ix(seq![writable(account), readonly(mint)] + authority_metas(payer, seq![payer]), seq![10u8])
}

/// The transaction that freezes the token account `owner_ata` of `mint`.
pub fn freeze_tokens_plan(payer: [u8; 32], mint: [u8; 32], owner_ata: [u8; 32]) -> (plan: TxPlan)
    ensures
        plan@ == plan_model(seq![freeze_ix(payer, mint, owner_ata)], payer, seq![payer]),
        signs_exactly_as_required(plan@),
{
    let token_program = token_program_id();
    let signers = payer_as_signer(payer);
    let ix = match spl_freeze_account(token_program, owner_ata, mint, payer, &signers) {
        Ok(ix) => ix,
        Err(_) => unreached(),
    };
    let plan = paid_by(ix, payer);
    proof {
        assert(plan@.instructions[0].accounts =~= seq![writable(owner_ata), readonly(mint), AccountMeta { pubkey: payer, is_signer: false, is_writable: false }, readonly_signer(payer)]);
        lemma_signs_exactly(plan@);
    }
    plan
}

/// The token instruction that burns `amount` from `account`.
pub open spec fn burn_ix(payer: [u8; 32], mint: [u8; 32], account: [u8; 32], amount: u64) -> InstructionModel {
    token_ix(seq![writable(account), writable(mint)] + authority_metas(payer, seq![payer]), amount_data(8, amount))
}

/// The transaction that burns `amount` tokens from `owner_ata`.
pub fn burn_tokens_plan(payer: [u8; 32], mint: [u8; 32], owner_ata: [u8; 32], amount: u64) -> (plan: TxPlan)
    ensures
        plan@ == plan_model(seq![burn_ix(payer, mint, owner_ata, amount)], payer, seq![payer]),
        signs_exactly_as_required(plan@),
{
    let token_program = token_program_id();
    let signers = payer_as_signer(payer);
    let ix = match spl_burn(token_program, owner_ata, mint, payer, &signers, amount) {
        Ok(ix) => ix,
        Err(_) => unreached(),
    };
    let plan = paid_by(ix, payer);
    proof {
        assert(plan@.instructions[0].accounts =~= seq![writable(owner_ata), writable(mint), AccountMeta { pubkey: payer, is_signer: false, is_writable: false }, readonly_signer(payer)]);
        lemma_signs_exactly(plan@);
    }
    plan
}

/// The token instruction that moves `amount` from `source` to `destination`.
pub open spec fn transfer_ix(payer: [u8; 32], source: [u8; 32], destination: [u8; 32], amount: u64) -> InstructionModel {
    token_ix(seq![writable(source), writable(destination)] + authority_metas(payer, seq![payer]), amount_data(3, amount))
}

/// The transaction that transfers `amount` tokens from `owner_ata` to
/// `receiver_ata`, authorised by the payer.
pub fn transfer_tokens_plan(payer: [u8; 32], owner_ata: [u8; 32], receiver_ata: [u8; 32], amount: u64) -> (plan: TxPlan)
    ensures
        plan@ == plan_model(seq![transfer_ix(payer, owner_ata, receiver_ata, amount)], payer, seq![payer]),
        signs_exactly_as_required(plan@),
{
    let token_program = token_program_id();
    let signers = payer_as_signer(payer);
    let ix = match spl_transfer(token_program, owner_ata, receiver_ata, payer, &signers, amount) {
        Ok(ix) => ix,
        Err(_) => unreached(),
    };
    let plan = paid_by(ix, payer);
    proof {
        assert(plan@.instructions[0].accounts =~= seq![writable(owner_ata), writable(receiver_ata), AccountMeta { pubkey: payer, is_signer: false, is_writable: false }, readonly_signer(payer)]);
        lemma_signs_exactly(plan@);
    }
    plan
}

/// The token instruction that closes `account` and returns its lamports to
/// the payer.
pub open spec fn close_ix(payer: [u8; 32], account: [u8; 32]) -> InstructionModel {
    token_ix(seq![writable(account), writable(payer)] + authority_metas(payer, seq![payer]), seq![9u8])
}

/// The transaction that closes the token account `owner_ata`, sending its
/// lamports back to the payer.
pub fn close_token_account_plan(payer: [u8; 32], owner_ata: [u8; 32]) -> (plan: TxPlan)
    ensures
        plan@ == plan_model(seq![close_ix(payer, owner_ata)], payer, seq![payer]),
        signs_exactly_as_required(plan@),
{
    let token_program = token_program_id();
    let signers = payer_as_signer(payer);
    let ix = match spl_close_account(token_program, owner_ata, payer, payer, &signers) {
        Ok(ix) => ix,
        Err(_) => unreached(),
    };
    let plan = paid_by(ix, payer);
    proof {
        assert(plan@.instructions[0].accounts =~= seq![writable(owner_ata), writable(payer), AccountMeta { pubkey: payer, is_signer: false, is_writable: false }, readonly_signer(payer)]);
        lemma_signs_exactly(plan@);
    }
    plan
}

/// A System program transfer of `lamports` from `from` to `to`.
pub open spec fn sol_transfer_ix(from: [u8; 32], to: [u8; 32], lamports: u64) -> InstructionModel {
    model(SYSTEM_PROGRAM_ID, seq![writable_signer(from), writable(to)], system_transfer_data(lamports))
}

/// The token instruction that brings a native account's token amount in
/// line with its lamports.
pub open spec fn sync_native_ix(account: [u8; 32]) -> InstructionModel {
    token_ix(seq![writable(account)], seq![17u8])
}

/// The transaction that wraps `amount` lamports: it moves them into the
/// native token account `owner_ata` and then synchronises that account.
pub fn wrap_sol_plan(payer: [u8; 32], owner_ata: [u8; 32], amount: u64) -> (plan: TxPlan)
    ensures
        plan@ == plan_model(seq![sol_transfer_ix(payer, owner_ata, amount), sync_native_ix(owner_ata)], payer, seq![payer]),
        signs_exactly_as_required(plan@),
{
    let token_program = token_program_id();
    let transfer = system_transfer(payer, owner_ata, amount);
    let sync = match spl_sync_native(token_program, owner_ata) {
        Ok(ix) => ix,
        Err(_) => unreached(),
    };
    let mut instructions: Vec<Instruction> = Vec::new();
    instructions.push(transfer);
    instructions.push(sync);
    let signers = payer_as_signer(payer);
    let plan = TxPlan { instructions, payer, signers };
    assert(plan@.instructions =~= seq![sol_transfer_ix(payer, owner_ata, amount), sync_native_ix(owner_ata)]);
    proof {
        assert(plan@.instructions[0].accounts =~= seq![writable_signer(payer), writable(owner_ata)]);
        assert(plan@.instructions[1].accounts =~= seq![writable(owner_ata)]);
        lemma_signs_exactly(plan@);
    }
    plan
}

/// The instruction that creates `ata`, the associated token account of
/// `wallet` for `mint`, funded by `funding`.
pub open spec fn create_ata_ix(funding: [u8; 32], wallet: [u8; 32], mint: [u8; 32], ata: [u8; 32]) -> InstructionModel {
    model(
        ASSOCIATED_TOKEN_PROGRAM_ID,
        seq![
            writable_signer(funding),
            writable(ata),
            readonly(wallet),
            readonly(mint),
            readonly(SYSTEM_PROGRAM_ID),
            readonly(TOKEN_PROGRAM_ID),
        ],
        seq![0u8],
    )
}

/// The transaction that creates the associated token account of `owner`
/// for `mint`, paid by the payer, together with that account's address;
/// `None` when that address cannot be derived.
pub fn create_token_account_plan(payer: [u8; 32], owner: [u8; 32], mint: [u8; 32]) -> (r: Option<([u8; 32], TxPlan)>)
    ensures
        r is None <==> associated_token_address_of(owner, mint) is None,
        r matches Some((ata, plan)) ==> {
            &&& associated_token_address_of(owner, mint) == Some(ata)
            &&& plan@ == plan_model(seq![create_ata_ix(payer, owner, mint, ata)], payer, seq![payer])
            &&& signs_exactly_as_required(plan@)
        },
{
    if !associated_token_address_derivable(owner, mint) {
        return None;
    }
    let ata = get_associated_token_address(owner, mint);
    let token_program = token_program_id();
    let ix = create_associated_token_account(payer, owner, mint, token_program);
    let plan = paid_by(ix, payer);
    proof {
        assert(ix@.accounts =~= create_ata_ix(payer, owner, mint, ata).accounts);
        assert(plan@.signers[0] == payer);
        lemma_signs_exactly(plan@);
    }
    Some((ata, plan))
}

/// The metadata instruction the client sends: the payer is mint authority,
/// payer and signing update authority; no seller fee; the metadata stays
/// mutable.
pub open spec fn create_metadata_ix(metadata: [u8; 32], mint: [u8; 32], payer: [u8; 32], name: Seq<char>, symbol: Seq<char>, uri: Seq<char>) -> InstructionModel {
    model(
        METADATA_PROGRAM_ID,
        create_metadata_accounts(metadata, mint, payer, payer, payer, true, SYSTEM_PROGRAM_ID),
        create_metadata_data(name, symbol, uri, 0, true),
    )
}

/// The transaction that creates the Metaplex metadata of `mint`, paid for
/// and signed by `payer`, with the metadata account's address; `None` when
/// that address cannot be derived.
pub open spec fn metadata_plan(payer: [u8; 32], mint: [u8; 32], name: Seq<char>, symbol: Seq<char>, uri: Seq<char>) -> Option<(TxPlanModel, [u8; 32])> {
    match metadata_address_of(mint) {
        Some(metadata) => Some((
            plan_model(seq![create_metadata_ix(metadata, mint, payer, name, symbol, uri)], payer, seq![payer]),
            metadata,
        )),
        None => None,
    }
}

/// The transaction that creates the Metaplex metadata of `mint`, with the
/// metadata account's address; `None` when that address cannot be derived.
pub fn create_metadata_plan(payer: [u8; 32], mint: [u8; 32], name: String, symbol: String, uri: String) -> (r: Option<(TxPlan, [u8; 32])>)
    requires
        borsh_encodable(name@),
        borsh_encodable(symbol@),
        borsh_encodable(uri@),
    ensures
        r is None <==> metadata_address_of(mint) is None,
        match r {
            Some((plan, metadata)) => metadata_plan(payer, mint, name@, symbol@, uri@) == Some((plan@, metadata)),
            None => metadata_plan(payer, mint, name@, symbol@, uri@) is None,
        },
        r matches Some((plan, metadata)) ==> {
            &&& metadata_address_of(mint) == Some(metadata)
            &&& plan@ == plan_model(seq![create_metadata_ix(metadata, mint, payer, name@, symbol@, uri@)], payer, seq![payer])
            &&& signs_exactly_as_required(plan@)
        },
{
    match metadata_address(mint) {
        None => None,
        Some(metadata) => {
            let ix = create_metadata_account_v3(metadata, mint, payer, payer, payer, true, SYSTEM_PROGRAM_ID, name, symbol, uri, 0, true);
            let plan = paid_by(ix, payer);
            proof {
                assert(plan@.instructions[0].accounts =~= create_metadata_accounts(metadata, mint, payer, payer, payer, true, SYSTEM_PROGRAM_ID));
                assert(plan@.signers[0] == payer);
                lemma_signs_exactly(plan@);
            }
            Some((plan, metadata))
        },
    }
}

/// One hundredth of a SOL, in lamports.
pub open spec fn centisol() -> u64 {
    10_000_000
}

/// The transaction that sends one hundredth of a SOL from `from` to `to`.
pub fn sol_transfer_plan(from: [u8; 32], to: [u8; 32]) -> (plan: TxPlan)
    ensures
        plan@ == plan_model(seq![sol_transfer_ix(from, to, centisol())], from, seq![from]),
        signs_exactly_as_required(plan@),
{
    let amount: u64 = lamports_per_sol() / 100;
    let plan = paid_by(system_transfer(from, to, amount), from);
    proof {
        assert(plan@.instructions[0].accounts =~= seq![writable_signer(from), writable(to)]);
        assert(plan@.signers[0] == from);
        lemma_signs_exactly(plan@);
    }
    plan
}

/// The transfers of one hundredth of a SOL from `sender` to each of
/// `receivers`, in order.
pub open spec fn centisol_transfers(sender: [u8; 32], receivers: Seq<[u8; 32]>) -> Seq<InstructionModel> {
    receivers.map_values(|to: [u8; 32]| sol_transfer_ix(sender, to, centisol()))
}

/// The transaction that sends one hundredth of a SOL from `sender` to each
/// of three receivers, in order, in a single transaction.
pub fn three_receivers_plan(sender: [u8; 32], first: [u8; 32], second: [u8; 32], third: [u8; 32]) -> (plan: TxPlan)
    ensures
        plan@ == plan_model(
            seq![sol_transfer_ix(sender, first, centisol()), sol_transfer_ix(sender, second, centisol()), sol_transfer_ix(sender, third, centisol())],
            sender,
            seq![sender],
        ),
        plan@.instructions == centisol_transfers(sender, seq![first, second, third]),
        signs_exactly_as_required(plan@),
{
    let amount: u64 = lamports_per_sol() / 100;
    let mut instructions: Vec<Instruction> = Vec::new();
    instructions.push(system_transfer(sender, first, amount));
    instructions.push(system_transfer(sender, second, amount));
    instructions.push(system_transfer(sender, third, amount));
    let signers = payer_as_signer(sender);
    let plan = TxPlan { instructions, payer: sender, signers };
    assert(plan@.instructions =~= seq![
        sol_transfer_ix(sender, first, centisol()),
        sol_transfer_ix(sender, second, centisol()),
        sol_transfer_ix(sender, third, centisol()),
    ]);
    assert(plan@.instructions =~= centisol_transfers(sender, seq![first, second, third]));
    proof {
        assert(plan@.instructions[0].accounts =~= seq![writable_signer(sender), writable(first)]);
        assert(plan@.instructions[1].accounts =~= seq![writable_signer(sender), writable(second)]);
        assert(plan@.instructions[2].accounts =~= seq![writable_signer(sender), writable(third)]);
        assert(plan@.signers[0] == sender);
        lemma_signs_exactly(plan@);
    }
    plan
}

/// A Compute Budget instruction setting the unit limit.
pub open spec fn unit_limit_ix(units: u32) -> InstructionModel {
    model(COMPUTE_BUDGET_PROGRAM_ID, Seq::empty(), compute_unit_limit_data(units))
}

/// A Compute Budget instruction setting the unit price.
pub open spec fn unit_price_ix(micro_lamports: u64) -> InstructionModel {
    model(COMPUTE_BUDGET_PROGRAM_ID, Seq::empty(), compute_unit_price_data(micro_lamports))
}

/// A memo instruction carrying the UTF-8 bytes of a message.
pub open spec fn memo_ix(memo_program: [u8; 32], message: Seq<u8>) -> InstructionModel {
    model(memo_program, Seq::empty(), message)
}

/// The prioritised memo transaction: a unit price that spreads
/// `priority_fee_lamports` over `PRIORITY_COMPUTE_UNITS` units, then that
/// unit limit, then the memo.
pub fn priority_memo_plan(sender: [u8; 32], priority_fee_lamports: u64, memo_program: [u8; 32], message: &str) -> (plan: TxPlan)
    ensures
        plan@ == plan_model(
            seq![
                unit_price_ix(unit_price(priority_fee_lamports, PRIORITY_COMPUTE_UNITS)),
                unit_limit_ix(PRIORITY_COMPUTE_UNITS as u32),
                memo_ix(memo_program, message.spec_bytes()),
            ],
            sender,
            seq![sender],
        ),
        signs_exactly_as_required(plan@),
{
    let price: u64 = price_per_compute_unit(priority_fee_lamports, PRIORITY_COMPUTE_UNITS);
    let mut instructions: Vec<Instruction> = Vec::new();
    instructions.push(compute_unit_price(price));
    instructions.push(compute_unit_limit(PRIORITY_COMPUTE_UNITS as u32));
    instructions.push(memo_instruction(memo_program, message));
    let signers = payer_as_signer(sender);
    let plan = TxPlan { instructions, payer: sender, signers };
    assert(plan@.instructions =~= seq![
        unit_price_ix(unit_price(priority_fee_lamports, PRIORITY_COMPUTE_UNITS)),
        unit_limit_ix(PRIORITY_COMPUTE_UNITS as u32),
        memo_ix(memo_program, message.spec_bytes()),
    ]);
    proof {
        assert(plan@.instructions[0].accounts.len() == 0);
        assert(plan@.instructions[1].accounts.len() == 0);
        assert(plan@.instructions[2].accounts.len() == 0);
        lemma_signs_exactly(plan@);
    }
    plan
}

/// The budgeted memo transaction: the unit limit of
/// `PRIORITY_COMPUTE_UNITS`, then the unit price, then the memo.
pub fn budgeted_memo_plan(sender: [u8; 32], unit_price: u64, memo_program: [u8; 32], message: &str) -> (plan: TxPlan)
    ensures
        plan@ == plan_model(
            seq![unit_limit_ix(PRIORITY_COMPUTE_UNITS as u32), unit_price_ix(unit_price), memo_ix(memo_program, message.spec_bytes())],
            sender,
            seq![sender],
        ),
        signs_exactly_as_required(plan@),
{
    let mut instructions: Vec<Instruction> = Vec::new();
    instructions.push(compute_unit_limit(PRIORITY_COMPUTE_UNITS as u32));
    instructions.push(compute_unit_price(unit_price));
    instructions.push(memo_instruction(memo_program, message));
    let signers = payer_as_signer(sender);
    let plan = TxPlan { instructions, payer: sender, signers };
    assert(plan@.instructions =~= seq![
        unit_limit_ix(PRIORITY_COMPUTE_UNITS as u32),
        unit_price_ix(unit_price),
        memo_ix(memo_program, message.spec_bytes()),
    ]);
    proof {
        assert(plan@.instructions[0].accounts.len() == 0);
        assert(plan@.instructions[1].accounts.len() == 0);
        assert(plan@.instructions[2].accounts.len() == 0);
        lemma_signs_exactly(plan@);
    }
    plan
}

/// The name of the demonstration NFT.
pub open spec fn nft_name() -> Seq<char> {
    "My Lovely NFT"@
}

/// The symbol of the demonstration NFT.
pub open spec fn nft_symbol() -> Seq<char> {
    "MLNG"@
}

/// The metadata uri of the demonstration NFT.
pub open spec fn nft_uri() -> Seq<char> {
    "https://example.com/metadata.json"@
}

/// The five transactions that create an NFT, in the order they are sent:
/// create the mint account, initialise it with the wallet as mint and
/// freeze authority and no decimals, create the wallet's token account
/// `ata`, mint exactly one token into it, and attach the metadata.
pub open spec fn nft_plan_models(wallet: [u8; 32], mint: [u8; 32], rent: u64, ata: [u8; 32], metadata: [u8; 32]) -> Seq<TxPlanModel> {
    seq![
        plan_model(seq![create_mint_instructions(wallet, mint, rent, wallet, Some(wallet), 0)[0]], wallet, seq![wallet, mint]),
        plan_model(seq![create_mint_instructions(wallet, mint, rent, wallet, Some(wallet), 0)[1]], wallet, seq![wallet]),
        plan_model(seq![create_ata_ix(wallet, wallet, mint, ata)], wallet, seq![wallet]),
        plan_model(
            seq![token_ix(seq![writable(mint), writable(ata)] + authority_metas(wallet, Seq::empty()), amount_data(7, 1))],
            wallet,
            seq![wallet],
        ),
        plan_model(seq![create_metadata_ix(metadata, mint, wallet, nft_name(), nft_symbol(), nft_uri())], wallet, seq![wallet]),
    ]
}

/// How many of the NFT transactions can be planned: the first two always;
/// the token account and minting ones when the token account's address can
/// be derived; the metadata one when the metadata address can be derived
/// too.
pub open spec fn nft_plan_count(wallet: [u8; 32], mint: [u8; 32]) -> int {
    if associated_token_address_of(wallet, mint) is None {
        2
    } else if metadata_address_of(mint) is None {
        4
    } else {
        5
    }
}

/// The transactions that create the demonstration NFT with a fresh `mint`
/// owned by `wallet`, in order. They stop short where an address needed by
/// the next one cannot be derived: after the second when the token account
/// cannot, after the fourth when the metadata account cannot.
pub fn nft_plans(wallet: [u8; 32], mint: [u8; 32], rent: u64) -> (plans: Vec<TxPlan>)
    ensures
        plans@.len() == nft_plan_count(wallet, mint),
        plans@.map_values(|p: TxPlan| p@) == nft_plan_models(
            wallet,
            mint,
            rent,
            associated_token_address_of(wallet, mint)->0,
            metadata_address_of(mint)->0,
        ).take(plans@.len() as int),
        forall|i: int| 0 <= i < plans@.len() ==> signs_exactly_as_required(#[trigger] plans@[i]@),
{
    let ghost models = nft_plan_models(wallet, mint, rent, associated_token_address_of(wallet, mint)->0, metadata_address_of(mint)->0);
    let token_program = token_program_id();
    let space: usize = mint_account_len();
    let create = system_create_account(wallet, mint, rent, space as u64, token_program);
    let mut create_signers: Vec<[u8; 32]> = Vec::new();
    create_signers.push(wallet);
    create_signers.push(mint);
    let mut create_instructions: Vec<Instruction> = Vec::new();
    create_instructions.push(create);
    let create_plan = TxPlan { instructions: create_instructions, payer: wallet, signers: create_signers };
    let init = match spl_initialize_mint(token_program, mint, wallet, Some(wallet), 0) {
        Ok(ix) => ix,
        Err(_) => unreached(),
    };
    let mut plans: Vec<TxPlan> = Vec::new();
    plans.push(create_plan);
    plans.push(paid_by(init, wallet));
    proof {
        assert(plans@[0]@.instructions =~= models[0].instructions);
        assert(plans@[0]@.signers =~= models[0].signers);
        assert(plans@[0]@.instructions[0].accounts =~= seq![writable_signer(wallet), writable_signer(mint)]);
        assert(plans@[0]@.instructions[0].accounts[1] == AccountMeta { pubkey: mint, is_signer: true, is_writable: true });
        assert(plans@[0]@.signers[1] == mint);
        lemma_signs_exactly(plans@[0]@);
        assert(plans@[1]@.instructions[0].accounts =~= seq![writable(mint), readonly(RENT_SYSVAR_ID)]);
        lemma_signs_exactly(plans@[1]@);
        assert(plans@.map_values(|p: TxPlan| p@) =~= models.take(2));
    }
    if !associated_token_address_derivable(wallet, mint) {
        return plans;
    }
    let ata = get_associated_token_address(wallet, mint);
    let ata_ix = create_associated_token_account(wallet, wallet, mint, token_program);
    let no_signers: Vec<[u8; 32]> = Vec::new();
    let mint_ix = match spl_mint_to(token_program, mint, ata, wallet, &no_signers, 1) {
        Ok(ix) => ix,
        Err(_) => unreached(),
    };
    plans.push(paid_by(ata_ix, wallet));
    plans.push(paid_by(mint_ix, wallet));
    proof {
        assert(plans@[2]@.instructions[0].accounts =~= create_ata_ix(wallet, wallet, mint, ata).accounts);
        lemma_signs_exactly(plans@[2]@);
        assert(no_signers@ =~= Seq::<[u8; 32]>::empty());
        assert(plans@[3]@.instructions[0].accounts =~= seq![writable(mint), writable(ata), readonly_signer(wallet)]);
        lemma_signs_exactly(plans@[3]@);
        assert(plans@.map_values(|p: TxPlan| p@) =~= models.take(4));
    }
    let metadata = match metadata_address(mint) {
        Some(m) => m,
        None => return plans,
    };
    let name = "My Lovely NFT".to_owned();
    let symbol = "MLNG".to_owned();
    let uri = "https://example.com/metadata.json".to_owned();
    proof {
        reveal_strlit("My Lovely NFT");
        reveal_strlit("MLNG");
        reveal_strlit("https://example.com/metadata.json");
        short_strings_are_encodable(name@);
        short_strings_are_encodable(symbol@);
        short_strings_are_encodable(uri@);
    }
    let metadata_ix = create_metadata_account_v3(metadata, mint, wallet, wallet, wallet, true, SYSTEM_PROGRAM_ID, name, symbol, uri, 0, true);
    plans.push(paid_by(metadata_ix, wallet));
    proof {
        assert(plans@[4]@.instructions[0].accounts =~= create_metadata_accounts(metadata, mint, wallet, wallet, wallet, true, SYSTEM_PROGRAM_ID));
        lemma_signs_exactly(plans@[4]@);
        assert(plans@.map_values(|p: TxPlan| p@) =~= models.take(5));
    }
    plans
}

/// The metadata of a mint is read where it is written: the account that the
/// create-metadata transaction writes is the mint's derived metadata
/// address, the same address the client reads the metadata from.
pub proof fn metadata_is_read_where_it_is_written(
    payer: [u8; 32],
    mint: [u8; 32],
    name: Seq<char>,
    symbol: Seq<char>,
    uri: Seq<char>,
    metadata: [u8; 32],
)
    requires
        metadata_address_of(mint) == Some(metadata),
    ensures
        create_metadata_ix(metadata, mint, payer, name, symbol, uri).accounts[0] == writable(metadata),
        create_metadata_ix(metadata, mint, payer, name, symbol, uri).accounts[1] == readonly(mint),
        create_metadata_ix(metadata, mint, payer, name, symbol, uri).program_id == METADATA_PROGRAM_ID,
{
}

/// The metadata account that the create-metadata transaction writes
/// depends on the mint alone: the transaction can be planned for one payer,
/// name, symbol and uri exactly when it can for any other, the account is
/// the same for all of them, it is the mint's derived metadata address
/// (the one the client reads the metadata from), and the transaction's
/// instruction writes it.
pub proof fn metadata_address_depends_on_the_mint_alone(
    mint: [u8; 32],
    payer: [u8; 32],
    name: Seq<char>,
    symbol: Seq<char>,
    uri: Seq<char>,
    other_payer: [u8; 32],
    other_name: Seq<char>,
    other_symbol: Seq<char>,
    other_uri: Seq<char>,
)
    ensures
        metadata_plan(payer, mint, name, symbol, uri) is Some <==> metadata_plan(other_payer, mint, other_name, other_symbol, other_uri) is Some,
        metadata_plan(payer, mint, name, symbol, uri) matches Some((plan, metadata)) ==> {
            &&& metadata_address_of(mint) == Some(metadata)
            &&& (metadata_plan(other_payer, mint, other_name, other_symbol, other_uri)->0).1 == metadata
            &&& plan.instructions[0].accounts[0] == writable(metadata)
            &&& plan.instructions[0].program_id == METADATA_PROGRAM_ID
        },
{
}

/// A token account is used where it is created: the account the creation
/// instruction makes writable is the associated token address that the
/// client then mints into, burns from, transfers from, freezes and closes.
pub proof fn token_account_is_used_where_it_is_created(payer: [u8; 32], owner: [u8; 32], mint: [u8; 32], amount: u64, ata: [u8; 32])
    requires
        associated_token_address_of(owner, mint) == Some(ata),
    ensures
        ({
            &&& create_ata_ix(payer, owner, mint, ata).accounts[1] == writable(ata)
            &&& mint_to_ix(payer, mint, ata, amount).accounts[1] == writable(ata)
            &&& burn_ix(payer, mint, ata, amount).accounts[0] == writable(ata)
            &&& transfer_ix(payer, ata, ata, amount).accounts[0] == writable(ata)
            &&& freeze_ix(payer, mint, ata).accounts[0] == writable(ata)
            &&& close_ix(payer, ata).accounts[0] == writable(ata)
        }),
{
}

/// The NFT transactions chain up: the mint that the first transaction
/// creates is the one initialised, the one whose token account is created,
/// the one minted from and the one given metadata; and the single token is
/// minted into exactly the account the third transaction creates.
pub proof fn nft_transactions_chain_up(wallet: [u8; 32], mint: [u8; 32], rent: u64, ata: [u8; 32], metadata: [u8; 32])
    ensures
        ({
            let p = nft_plan_models(wallet, mint, rent, ata, metadata);
            &&& p[0].instructions[0].accounts[1].pubkey == mint
            &&& p[1].instructions[0].accounts[0].pubkey == mint
            &&& p[2].instructions[0].accounts[3].pubkey == mint
            &&& p[3].instructions[0].accounts[0].pubkey == mint
            &&& p[4].instructions[0].accounts[1].pubkey == mint
            &&& p[3].instructions[0].accounts[1].pubkey == p[2].instructions[0].accounts[1].pubkey
        }),
{
    let p = nft_plan_models(wallet, mint, rent, ata, metadata);
    assert(p[3].instructions[0].accounts =~= seq![writable(mint), writable(ata), readonly_signer(wallet)]);
}

/// Where the accounts of the wrapping and unwrapping instructions sit: the
/// wrapping transfer names the payer as its (signing) source and the native
/// token account as its destination, the sync names that account, and the
/// close names that account as the one closed and the payer as the
/// destination of its lamports. It states account positions only; the
/// lamport movements themselves happen on chain.
pub proof fn wrap_and_unwrap_name_the_payer_and_the_native_account(payer: [u8; 32], owner_ata: [u8; 32], amount: u64)
    ensures
        sol_transfer_ix(payer, owner_ata, amount).accounts[0] == writable_signer(payer),
        sol_transfer_ix(payer, owner_ata, amount).accounts[1] == writable(owner_ata),
        sync_native_ix(owner_ata).accounts[0] == writable(owner_ata),
        close_ix(payer, owner_ata).accounts[0] == writable(owner_ata),
        close_ix(payer, owner_ata).accounts[1] == writable(payer),
{
}

} // verus!
