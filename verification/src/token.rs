use vstd::prelude::*;
use crate::address::Address;
use spl_token::solana_program::program_pack::Pack;

verus! {

/// Length of a token account's data on the ledger.
pub const TOKEN_ACCOUNT_LEN: usize = 165;

/// Length of a mint's data on the ledger.
pub const MINT_LEN: usize = 82;

/// What the marketplace reads of a token account.
#[derive(Clone, Copy, Debug, PartialEq, Eq)]
pub struct TokenAccount {
    pub mint: Address,
    pub owner: Address,
    pub amount: u64,
}

/// What the marketplace reads of a mint.
#[derive(Clone, Copy, Debug, PartialEq, Eq)]
pub struct MintAccount {
    pub supply: u64,
    pub decimals: u8,
}

/// The number that eight bytes spell, the lowest byte first.
pub open spec fn le_u64(b: Seq<u8>) -> int {
    b[0] + 0x100 * b[1] + 0x1_0000 * b[2] + 0x100_0000 * b[3] + 0x1_0000_0000 * b[4]
        + 0x100_0000_0000 * b[5] + 0x1_0000_0000_0000 * b[6] + 0x100_0000_0000_0000 * b[7]
}

/// The four bytes from `at` on are the mark of an optional field: 0 for absent or 1
/// for present, then three zero bytes.
pub open spec fn option_mark(data: Seq<u8>, at: int) -> bool {
    (data[at] == 0 || data[at] == 1) && data[at + 1] == 0 && data[at + 2] == 0 && data[at + 3] == 0
}

/// The data unpack as a token account: the marks of the delegate (from byte 72), of
/// the native reserve (from 109) and of the close authority (from 129) are marks,
/// and the state (byte 108) is one of the three states.
pub open spec fn token_account_unpacks(data: Seq<u8>) -> bool {
    option_mark(data, 72) && data[108] <= 2 && option_mark(data, 109) && option_mark(data, 129)
}

/// `r` is what the data hold of a token account: the mint in bytes 0 to 31, the owner
/// in bytes 32 to 63, the amount in bytes 64 to 71; nothing where they do not unpack.
pub open spec fn reads_token_account(data: Seq<u8>, r: Option<TokenAccount>) -> bool {
    match r {
        Some(a) => token_account_unpacks(data) && a.mint.bytes@ == data.subrange(0, 32)
            && a.owner.bytes@ == data.subrange(32, 64) && a.amount == le_u64(
            data.subrange(64, 72),
        ),
        None => !token_account_unpacks(data),
    }
}

/// The data unpack as a mint: the marks of the mint authority (from byte 0) and of
/// the freeze authority (from 46) are marks, and the flag of initialisation (byte
/// 45) is 0 or 1.
pub open spec fn mint_unpacks(data: Seq<u8>) -> bool {
    option_mark(data, 0) && data[45] <= 1 && option_mark(data, 46)
}

/// `r` is what the data hold of a mint: the supply in bytes 36 to 43, the decimals
/// in byte 44; nothing where they do not unpack.
pub open spec fn reads_mint(data: Seq<u8>, r: Option<MintAccount>) -> bool {
    match r {
        Some(m) => mint_unpacks(data) && m.supply == le_u64(data.subrange(36, 44)) && m.decimals
            == data[44],
        None => !mint_unpacks(data),
    }
}

/// Calls `spl_token::state::Account::unpack_from_slice`. The call takes the first
/// `TOKEN_ACCOUNT_LEN` bytes and panics on fewer, hence the bound. Not proved, but
/// read in its source: it fails exactly where a mark or the state byte is none, and
/// else takes the mint, the owner and the amount from the bytes that
/// `reads_token_account` names. They are handed on as unpacked; an error becomes
/// `None`.
#[verifier::external_body]
fn unpack_token_account(data: &[u8]) -> (r: Option<TokenAccount>)
    requires
        data@.len() >= TOKEN_ACCOUNT_LEN,
    ensures
        reads_token_account(data@, r),
{
    match spl_token::state::Account::unpack_from_slice(data) {
        Ok(a) => Some(TokenAccount {
            mint: Address { bytes: a.mint.to_bytes() },
            owner: Address { bytes: a.owner.to_bytes() },
            amount: a.amount,
        }),
        Err(_) => None,
    }
}

/// Calls `spl_token::state::Mint::unpack_from_slice`. The call takes the first
/// `MINT_LEN` bytes and panics on fewer, hence the bound. Not proved, but read in its
/// source: it fails exactly where a mark or the flag of initialisation is none, and
/// else takes the supply and the decimals from the bytes that `reads_mint` names.
/// They are handed on as unpacked; an error becomes `None`.
#[verifier::external_body]
fn unpack_mint(data: &[u8]) -> (r: Option<MintAccount>)
    requires
        data@.len() >= MINT_LEN,
    ensures
        reads_mint(data@, r),
{
    match spl_token::state::Mint::unpack_from_slice(data) {
        Ok(m) => Some(MintAccount { supply: m.supply, decimals: m.decimals }),
        Err(_) => None,
    }
}

/// What the data of a token account hold: nothing where the data are too short, else
/// the one value that `reads_token_account` admits.
pub open spec fn token_account_of(data: Seq<u8>) -> Option<TokenAccount> {
    if data.len() < TOKEN_ACCOUNT_LEN {
        None
    } else {
        choose|r: Option<TokenAccount>| reads_token_account(data, r)
    }
}

/// The data of a token account hold one value only: whatever `reads_token_account`
/// admits is `token_account_of`.
pub proof fn lemma_token_account_of(data: Seq<u8>, r: Option<TokenAccount>)
    requires
        data.len() >= TOKEN_ACCOUNT_LEN,
        reads_token_account(data, r),
    ensures
        token_account_of(data) == r,
{
    let c = choose|c: Option<TokenAccount>| reads_token_account(data, c);
    assert(reads_token_account(data, c));
    if r is Some {
        assert(c->0.mint.bytes =~= r->0.mint.bytes);
        assert(c->0.owner.bytes =~= r->0.owner.bytes);
    }
}

/// Reads a token account from the data of its account.
pub fn decode_token_account(data: &Vec<u8>) -> (r: Option<TokenAccount>)
    ensures
        r == token_account_of(data@),
        data@.len() >= TOKEN_ACCOUNT_LEN ==> reads_token_account(data@, r),
{
    if data.len() < TOKEN_ACCOUNT_LEN {
        None
    } else {
        let r = unpack_token_account(data.as_slice());
        proof {
            lemma_token_account_of(data@, r);
        }
        r
    }
}

/// What the data of a mint hold: nothing where the data are too short, else the one
/// value that `reads_mint` admits.
pub open spec fn mint_of(data: Seq<u8>) -> Option<MintAccount> {
    if data.len() < MINT_LEN {
        None
    } else {
        choose|r: Option<MintAccount>| reads_mint(data, r)
    }
}

/// The data of a mint hold one value only: whatever `reads_mint` admits is `mint_of`.
pub proof fn lemma_mint_of(data: Seq<u8>, r: Option<MintAccount>)
    requires
        data.len() >= MINT_LEN,
        reads_mint(data, r),
    ensures
        mint_of(data) == r,
{
    let c = choose|c: Option<MintAccount>| reads_mint(data, c);
    assert(reads_mint(data, c));
}

/// Reads a mint from the data of its account.
pub fn decode_mint(data: &Vec<u8>) -> (r: Option<MintAccount>)
    ensures
        r == mint_of(data@),
        data@.len() >= MINT_LEN ==> reads_mint(data@, r),
{
    if data.len() < MINT_LEN {
        None
    } else {
        let r = unpack_mint(data.as_slice());
        proof {
            lemma_mint_of(data@, r);
        }
        r
    }
}

} // verus!
