//! Account data read back from the chain: token mints, token accounts and
//! the clock, in the layouts their programs store them.
use spl_token::solana_program::program_pack::Pack;
use spl_token::state::{Account as TokenAccount, AccountState, Mint};
use crate::instruction::same_bytes_same_key;
use vstd::bytes::spec_u64_from_le_bytes;
use vstd::prelude::*;

verus! {

/// The fields of a token mint.
#[derive(Clone, Copy, Debug, PartialEq, Eq)]
pub struct MintState {
    pub mint_authority: Option<[u8; 32]>,
    pub supply: u64,
    pub decimals: u8,
    pub is_initialized: bool,
    pub freeze_authority: Option<[u8; 32]>,
}

/// The lifecycle state of a token account.
#[derive(Clone, Copy, Debug, PartialEq, Eq)]
pub enum AccountStatus {
    Uninitialized,
    Initialized,
    Frozen,
}

/// The fields of a token account.
#[derive(Clone, Copy, Debug, PartialEq, Eq)]
pub struct TokenAccountState {
    pub mint: [u8; 32],
    pub owner: [u8; 32],
    pub amount: u64,
    pub delegate: Option<[u8; 32]>,
    pub state: AccountStatus,
    pub is_native: Option<u64>,
    pub delegated_amount: u64,
    pub close_authority: Option<[u8; 32]>,
}

/// The fields of the clock sysvar.
#[derive(Clone, Copy, Debug, PartialEq, Eq)]
pub struct ClockState {
    pub slot: u64,
    pub epoch_start_timestamp: i64,
    pub epoch: u64,
    pub leader_schedule_epoch: u64,
    pub unix_timestamp: i64,
}

/// The size of a packed mint.
pub const MINT_LEN: usize = 82;

/// The size of a packed token account.
pub const TOKEN_ACCOUNT_LEN: usize = 165;

/// The size of the clock sysvar's data.
pub const CLOCK_LEN: usize = 40;

/// The four-byte tag of an absent optional value.
pub open spec fn none_tag() -> Seq<u8> {
    seq![0u8, 0u8, 0u8, 0u8]
}

/// The four-byte tag of a present optional value.
pub open spec fn some_tag() -> Seq<u8> {
    seq![1u8, 0u8, 0u8, 0u8]
}

/// The little-endian `u64` stored at `at`.
pub open spec fn u64_at(data: Seq<u8>, at: int) -> u64 {
    spec_u64_from_le_bytes(data.subrange(at, at + 8))
}

/// Whether the optional value stored at `at` has a valid tag.
pub open spec fn option_tag_valid(data: Seq<u8>, at: int) -> bool {
    data.subrange(at, at + 4) == none_tag() || data.subrange(at, at + 4) == some_tag()
}

/// Whether `key` is the optional address stored at `at` (tag, then 32 bytes).
pub open spec fn key_option_at(data: Seq<u8>, at: int, key: Option<[u8; 32]>) -> bool {
    match key {
        None => data.subrange(at, at + 4) == none_tag(),
        Some(k) => data.subrange(at, at + 4) == some_tag() && k@ == data.subrange(at + 4, at + 36),
    }
}

/// Whether `value` is the optional amount stored at `at` (tag, then 8 bytes).
pub open spec fn amount_option_at(data: Seq<u8>, at: int, value: Option<u64>) -> bool {
    match value {
        None => data.subrange(at, at + 4) == none_tag(),
        Some(v) => data.subrange(at, at + 4) == some_tag() && v == u64_at(data, at + 4),
    }
}

/// Whether `data` is a well-formed packed mint.
pub open spec fn mint_layout_valid(data: Seq<u8>) -> bool {
    &&& data.len() == 82
    &&& option_tag_valid(data, 0)
    &&& (data[45] == 0 || data[45] == 1)
    &&& option_tag_valid(data, 46)
}

/// Whether `m` is the mint packed in `data`: mint authority at 0, supply at
/// 36, decimals at 44, the initialised flag at 45, freeze authority at 46.
pub open spec fn mint_layout(data: Seq<u8>, m: MintState) -> bool {
    &&& key_option_at(data, 0, m.mint_authority)
    &&& m.supply == u64_at(data, 36)
    &&& m.decimals == data[44]
    &&& m.is_initialized == (data[45] == 1)
    &&& key_option_at(data, 46, m.freeze_authority)
}

/// The state byte of a token account.
pub open spec fn status_code(s: AccountStatus) -> u8 {
    match s {
        AccountStatus::Uninitialized => 0,
        AccountStatus::Initialized => 1,
        AccountStatus::Frozen => 2,
    }
}

/// Whether `data` is a well-formed packed token account.
pub open spec fn token_account_layout_valid(data: Seq<u8>) -> bool {
    &&& data.len() == 165
    &&& option_tag_valid(data, 72)
    &&& data[108] <= 2
    &&& option_tag_valid(data, 109)
    &&& option_tag_valid(data, 129)
}

/// Whether `a` is the token account packed in `data`: mint at 0, owner at
/// 32, amount at 64, delegate at 72, state at 108, native reserve at 109,
/// delegated amount at 121, close authority at 129.
pub open spec fn token_account_layout(data: Seq<u8>, a: TokenAccountState) -> bool {
    &&& a.mint@ == data.subrange(0, 32)
    &&& a.owner@ == data.subrange(32, 64)
    &&& a.amount == u64_at(data, 64)
    &&& key_option_at(data, 72, a.delegate)
    &&& status_code(a.state) == data[108]
    &&& amount_option_at(data, 109, a.is_native)
    &&& a.delegated_amount == u64_at(data, 121)
    &&& key_option_at(data, 129, a.close_authority)
}

/// Whether `c` is the clock encoded at the start of `data`: five
/// little-endian 64-bit fields.
pub open spec fn clock_layout(data: Seq<u8>, c: ClockState) -> bool {
    &&& c.slot == u64_at(data, 0)
    &&& c.epoch_start_timestamp == u64_at(data, 8) as i64
    &&& c.epoch == u64_at(data, 16)
    &&& c.leader_schedule_epoch == u64_at(data, 24)
    &&& c.unix_timestamp == u64_at(data, 32) as i64
}

/// `Mint::LEN` of `spl_token`. It is 82. Verus takes this contract on trust.
#[verifier::external_body]
pub fn mint_account_len() -> (len: usize)
    ensures
        len == MINT_LEN,
{
    Mint::LEN
}

/// `Mint::unpack_unchecked` of `spl_token` (the `Pack` layout, with no check of
/// the initialised flag). It succeeds exactly on well-formed 82-byte data, and
/// then gives the packed fields. Verus takes this contract on trust.
#[verifier::external_body]
pub fn unpack_mint(data: &[u8]) -> (r: Option<MintState>)
    ensures
        r is Some <==> mint_layout_valid(data@),
        r matches Some(m) ==> mint_layout(data@, m),
{
    Mint::unpack_unchecked(data).ok().map(|m| MintState { mint_authority: Option::from(m.mint_authority).map(|k: spl_token::solana_program::pubkey::Pubkey| k.to_bytes()),
        supply: m.supply, decimals: m.decimals, is_initialized: m.is_initialized, freeze_authority: Option::from(m.freeze_authority).map(|k: spl_token::solana_program::pubkey::Pubkey| k.to_bytes()) })
}

/// `Account::unpack_unchecked` of `spl_token` (the `Pack` layout, with no check
/// of the state). It succeeds exactly on well-formed 165-byte data, and then
/// gives the packed fields. Verus takes this contract on trust.
#[verifier::external_body]
pub fn unpack_token_account(data: &[u8]) -> (r: Option<TokenAccountState>)
    ensures
        r is Some <==> token_account_layout_valid(data@),
        r matches Some(a) ==> token_account_layout(data@, a),
{
    TokenAccount::unpack_unchecked(data).ok().map(|a| TokenAccountState { mint: a.mint.to_bytes(), owner: a.owner.to_bytes(), amount: a.amount,
        delegate: Option::from(a.delegate).map(|k: spl_token::solana_program::pubkey::Pubkey| k.to_bytes()),
        state: match a.state { AccountState::Uninitialized => AccountStatus::Uninitialized, AccountState::Initialized => AccountStatus::Initialized, AccountState::Frozen => AccountStatus::Frozen },
        is_native: Option::from(a.is_native), delegated_amount: a.delegated_amount, close_authority: Option::from(a.close_authority).map(|k: spl_token::solana_program::pubkey::Pubkey| k.to_bytes()) })
}

/// `bincode::deserialize::<Clock>` (fixed-width little-endian integers,
/// trailing bytes allowed). With bincode's defaults and the field order of
/// `Clock`, it succeeds exactly when there are at least 40 bytes, and then
/// gives the five fields in order. Verus takes this contract on trust.
#[verifier::external_body]
pub fn decode_clock(data: &[u8]) -> (r: Option<ClockState>)
    ensures
        r is Some <==> data@.len() >= CLOCK_LEN,
        r matches Some(c) ==> clock_layout(data@, c),
{
    bincode::deserialize::<solana_sdk::clock::Clock>(data).ok().map(|c| ClockState { slot: c.slot, epoch_start_timestamp: c.epoch_start_timestamp,
        epoch: c.epoch, leader_schedule_epoch: c.leader_schedule_epoch, unix_timestamp: c.unix_timestamp })
}

/// Decoding a mint is a function of the bytes: two mints that both match
/// the same data are the same mint.
pub proof fn mint_layout_determines_mint(data: Seq<u8>, a: MintState, b: MintState)
    requires
        mint_layout(data, a),
        mint_layout(data, b),
    ensures
        a == b,
{
    match (a.mint_authority, b.mint_authority) {
        (Some(x), Some(y)) => { assert(x@ =~= y@); same_bytes_same_key(x, y); },
        _ => {},
    }
    match (a.freeze_authority, b.freeze_authority) {
        (Some(x), Some(y)) => { assert(x@ =~= y@); same_bytes_same_key(x, y); },
        _ => {},
    }
}

/// Decoding a token account is a function of the bytes.
pub proof fn token_account_layout_determines_account(data: Seq<u8>, a: TokenAccountState, b: TokenAccountState)
    requires
        token_account_layout(data, a),
        token_account_layout(data, b),
    ensures
        a == b,
{
    assert(a.mint@ =~= b.mint@);
    same_bytes_same_key(a.mint, b.mint);
    assert(a.owner@ =~= b.owner@);
    same_bytes_same_key(a.owner, b.owner);
    match (a.delegate, b.delegate) {
        (Some(x), Some(y)) => { assert(x@ =~= y@); same_bytes_same_key(x, y); },
        _ => {},
    }
    match (a.close_authority, b.close_authority) {
        (Some(x), Some(y)) => { assert(x@ =~= y@); same_bytes_same_key(x, y); },
        _ => {},
    }
}

/// Decoding the clock is a function of the bytes.
pub proof fn clock_layout_determines_clock(data: Seq<u8>, a: ClockState, b: ClockState)
    requires
        clock_layout(data, a),
        clock_layout(data, b),
    ensures
        a == b,
{
}

} // verus!
