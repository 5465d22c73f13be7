//! Addresses of the on-chain programs and sysvars the client talks to.
use vstd::prelude::*;

verus! {

/// The SPL Token program.
pub const TOKEN_PROGRAM_ID: [u8; 32] = [
    6, 221, 246, 225, 215, 101, 161, 147, 217, 203, 225, 70, 206, 235, 121, 172,
    28, 180, 133, 237, 95, 91, 55, 145, 58, 140, 245, 133, 126, 255, 0, 169,
];

/// The Associated Token Account program.
pub const ASSOCIATED_TOKEN_PROGRAM_ID: [u8; 32] = [
    140, 151, 37, 143, 78, 36, 137, 241, 187, 61, 16, 41, 20, 142, 13, 131,
    11, 90, 19, 153, 218, 255, 16, 132, 4, 142, 123, 216, 219, 233, 248, 89,
];

/// The Metaplex Token Metadata program.
pub const METADATA_PROGRAM_ID: [u8; 32] = [
    11, 112, 101, 177, 227, 209, 124, 69, 56, 157, 82, 127, 107, 4, 195, 205,
    88, 184, 108, 115, 26, 160, 253, 181, 73, 182, 209, 188, 3, 248, 41, 70,
];

/// The System program (all zero bytes).
pub const SYSTEM_PROGRAM_ID: [u8; 32] = [
    0, 0, 0, 0, 0, 0, 0, 0, 0, 0, 0, 0, 0, 0, 0, 0,
    0, 0, 0, 0, 0, 0, 0, 0, 0, 0, 0, 0, 0, 0, 0, 0,
];

/// The Compute Budget program.
pub const COMPUTE_BUDGET_PROGRAM_ID: [u8; 32] = [
    3, 6, 70, 111, 229, 33, 23, 50, 255, 236, 173, 186, 114, 195, 155, 231,
    188, 140, 229, 187, 197, 247, 18, 107, 44, 67, 155, 58, 64, 0, 0, 0,
];

/// The rent sysvar.
pub const RENT_SYSVAR_ID: [u8; 32] = [
    6, 167, 213, 23, 25, 44, 92, 81, 33, 140, 201, 76, 61, 74, 241, 127,
    88, 218, 238, 8, 155, 161, 253, 68, 227, 219, 217, 138, 0, 0, 0, 0,
];

/// The clock sysvar.
pub const CLOCK_SYSVAR_ID: [u8; 32] = [
    6, 167, 213, 23, 24, 199, 116, 201, 40, 86, 99, 152, 105, 29, 94, 182,
    139, 94, 184, 163, 155, 75, 109, 92, 115, 85, 91, 33, 0, 0, 0, 0,
];

/// The address of the SPL Token program, as `spl_token::ID` gives it. It is the
/// base58 address `TokenkegQfeZyiNwAJbNbGKPFXCWuBvf9Ss623VQ5DA`, whose bytes
/// are `TOKEN_PROGRAM_ID`. Verus takes this contract on trust.
#[verifier::external_body]
pub fn token_program_id() -> (id: [u8; 32])
    ensures
        id == TOKEN_PROGRAM_ID,
{
    spl_token::ID.to_bytes()
}

/// The address of the Token Metadata program, as `mpl_token_metadata::ID` gives
/// it. It is `metaqbxxUerdq28cj1RbAWkYQm3ybzjb6a8bt518x1s`, whose bytes are
/// `METADATA_PROGRAM_ID`. Verus takes this contract on trust.
#[verifier::external_body]
pub fn metadata_program_id() -> (id: [u8; 32])
    ensures
        id == METADATA_PROGRAM_ID,
{
    mpl_token_metadata::ID.to_bytes()
}

/// The address of the clock sysvar, as `<Clock as SysvarId>::id()` gives it. It
/// is `SysvarC1ock11111111111111111111111111111111`, whose bytes are
/// `CLOCK_SYSVAR_ID`. Verus takes this contract on trust.
#[verifier::external_body]
pub fn clock_sysvar_id() -> (id: [u8; 32])
    ensures
        id == CLOCK_SYSVAR_ID,
{
    <solana_sdk::clock::Clock as solana_sdk::sysvar::SysvarId>::id().to_bytes()
}

/// The digit a character stands for in the base58 alphabet
/// `123456789ABCDEFGHJKLMNPQRSTUVWXYZabcdefghijkmnopqrstuvwxyz` (no `0`,
/// `I`, `O` or `l`), or `None` for any other character.
pub open spec fn base58_digit(c: char) -> Option<int> {
    if '1' <= c && c <= '9' {
        Some(c as int - '1' as int)
    } else if 'A' <= c && c <= 'H' {
        Some(9 + (c as int - 'A' as int))
    } else if 'J' <= c && c <= 'N' {
        Some(17 + (c as int - 'J' as int))
    } else if 'P' <= c && c <= 'Z' {
        Some(22 + (c as int - 'P' as int))
    } else if 'a' <= c && c <= 'k' {
        Some(33 + (c as int - 'a' as int))
    } else if 'm' <= c && c <= 'z' {
        Some(44 + (c as int - 'm' as int))
    } else {
        None
    }
}

/// The number `text` spells in base58, most significant digit first
/// (a character outside the alphabet counts as 0).
pub open spec fn base58_value(text: Seq<char>) -> nat
    decreases text.len(),
{
    if text.len() == 0 {
        0
    } else {
        let d = match base58_digit(text.last()) {
            Some(d) => d,
            None => 0,
        };
        (base58_value(text.drop_last()) * 58 + d) as nat
    }
}

/// How many `1` characters (base58 zeros) `text` starts with.
pub open spec fn leading_base58_zeros(text: Seq<char>) -> nat
    decreases text.len(),
{
    if text.len() > 0 && text[0] == '1' {
        1 + leading_base58_zeros(text.drop_first())
    } else {
        0
    }
}

/// How many bytes `v` needs, without leading zero bytes.
pub open spec fn significant_bytes(v: nat) -> nat
    decreases v,
{
    if v == 0 {
        0
    } else {
        1 + significant_bytes(v / 256)
    }
}

/// The `n` low bytes of `v`, most significant first.
pub open spec fn big_endian(v: nat, n: nat) -> Seq<u8>
    decreases n,
{
    if n == 0 {
        Seq::empty()
    } else {
        big_endian(v / 256, (n - 1) as nat).push((v % 256) as u8)
    }
}

/// Whether `text` is the base58 spelling of a 32-byte address: at most 44
/// characters, all from the alphabet, and as many leading `1`s as the
/// value's 32 bytes have leading zero bytes (which keeps the value below
/// 2^256).
pub open spec fn base58_spells_address(text: Seq<char>) -> bool {
    &&& text.len() <= 44
    &&& forall|i: int| 0 <= i < text.len() ==> #[trigger] base58_digit(text[i]) is Some
    &&& leading_base58_zeros(text) + significant_bytes(base58_value(text)) == 32
}

/// The 32 bytes that `text` spells in base58, or `None` when it spells no
/// address.
pub open spec fn base58_address(text: Seq<char>) -> Option<Seq<u8>> {
    if base58_spells_address(text) {
        Some(big_endian(base58_value(text), 32))
    } else {
        None
    }
}

/// The bytes of an address that may be missing.
pub open spec fn address_bytes(r: Option<[u8; 32]>) -> Option<Seq<u8>> {
    match r {
        Some(a) => Some(a@),
        None => None,
    }
}

/// `Pubkey::from_str` of `solana_sdk`. Through `five8::decode_32`, the text is
/// accepted exactly when it is the base58 spelling of a 32-byte address, and
/// the address is the number it spells, in 32 big-endian bytes. Verus takes
/// this contract on trust.
#[verifier::external_body]
pub fn parse_address(text: &str) -> (r: Option<[u8; 32]>)
    ensures
        address_bytes(r) == base58_address(text@),
{
    <solana_sdk::pubkey::Pubkey as core::str::FromStr>::from_str(text).ok().map(|k| k.to_bytes())
}

/// The Memo program's address as the client writes it.
pub open spec fn memo_program_text() -> Seq<char> {
    "MemoSq4gqABAXKb96qnH8TysNcWxMyWCqXgDLGmfcHr"@
}

/// The Memo program, decoded from its base58 address.
pub fn memo_program_address() -> (r: Option<[u8; 32]>)
    ensures
        address_bytes(r) == base58_address(memo_program_text()),
{
    parse_address("MemoSq4gqABAXKb96qnH8TysNcWxMyWCqXgDLGmfcHr")
}

/// The native (wrapped SOL) mint's address as the client writes it.
pub open spec fn native_mint_text() -> Seq<char> {
    "So11111111111111111111111111111111111111112"@
}

/// The native mint, decoded from its base58 address.
pub fn native_mint_address() -> (r: Option<[u8; 32]>)
    ensures
        address_bytes(r) == base58_address(native_mint_text()),
{
    parse_address("So11111111111111111111111111111111111111112")
}

} // verus!
