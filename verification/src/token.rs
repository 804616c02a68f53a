use vstd::prelude::*;
use crate::error::ErrorCode;
use crate::pubkey::Pubkey;
use anchor_lang::prelude::Account;
use anchor_lang::prelude::AccountInfo;
use anchor_spl::token::TokenAccount;

verus! {

/// `anchor_lang::error::Error`, the error of anchor's account checks. Nothing
/// is known of what it holds; it is only carried from the call to the place
/// that replaces it by `ErrorCode::DeserializationFailure`.
#[verifier::external_type_specification]
#[verifier::external_body]
pub struct ExAnchorError(anchor_lang::error::Error);

/// What a sweep reads of a token account: the mint it belongs to, the
/// wallet that owns it, and the tokens it holds.
#[derive(Clone, Copy, Debug, PartialEq, Eq)]
pub struct TokenHolding {
    pub mint: Pubkey,
    pub owner: Pubkey,
    pub amount: u64,
}

/// An account as the host hands it over: its address, the program that owns
/// it, its lamports and its bytes.
#[derive(Clone, Debug, PartialEq, Eq)]
pub struct RawAccount {
    pub key: Pubkey,
    pub owner: Pubkey,
    pub lamports: u64,
    pub data: Vec<u8>,
}

/// What `Account::<TokenAccount>::try_from` of anchor makes of an account
/// with this address, owner, lamports and data: the mint, the owner and the
/// amount of the token account that it reads, in this order, or `None`
/// where it refuses the account.
pub uninterp spec fn token_account_fields(
    key: Seq<u8>,
    owner: Seq<u8>,
    lamports: u64,
    data: Seq<u8>,
) -> Option<(Seq<u8>, Seq<u8>, u64)>;

/// Calls `anchor_lang::accounts::account::Account::<TokenAccount>::try_from`
/// on an `AccountInfo` made of the four fields of `account`, which is
/// neither signer nor writable nor executable.
///
/// The contract only names the result: what the call returns is
/// `token_account_fields` of the four fields. The call reads nothing else,
/// so the same account gives the same result.
#[verifier::external_body]
fn try_token_account(account: &RawAccount) -> (r: Result<TokenHolding, anchor_lang::error::Error>)
    ensures
        match r {
            Ok(holding) => token_account_fields(
                account.key@,
                account.owner@,
                account.lamports,
                account.data@,
            ) == Some((holding.mint@, holding.owner@, holding.amount)),
            Err(_) => token_account_fields(
                account.key@,
                account.owner@,
                account.lamports,
                account.data@,
            ) is None,
        },
{
    let key = anchor_lang::prelude::Pubkey::new_from_array(account.key.bytes);
    let owner = anchor_lang::prelude::Pubkey::new_from_array(account.owner.bytes);
    let mut lamports = account.lamports;
    let mut data = account.data.clone();
    let info = AccountInfo::new(&key, false, false, &mut lamports, &mut data, &owner, false);
    let token = Account::<TokenAccount>::try_from(&info)?;
    Ok(
        TokenHolding {
            mint: Pubkey { bytes: token.mint.to_bytes() },
            owner: Pubkey { bytes: token.owner.to_bytes() },
            amount: token.amount,
        },
    )
}

/// Reads `account` as a token account, as anchor does for an account of
/// type `Account<TokenAccount>`.
///
/// Returns what anchor reads where it accepts the account, and
/// `DeserializationFailure` where it does not.
pub fn resolve_token_account(account: &RawAccount) -> (holding: Result<TokenHolding, ErrorCode>)
    ensures
        match token_account_fields(
            account.key@,
            account.owner@,
            account.lamports,
            account.data@,
        ) {
            Some((mint, owner, amount)) => holding matches Ok(read) && read.mint@ == mint
                && read.owner@ == owner && read.amount == amount,
            None => holding == Err::<TokenHolding, ErrorCode>(ErrorCode::DeserializationFailure),
        },
{
    match try_token_account(account) {
        Ok(read) => Ok(read),
        Err(_) => Err(ErrorCode::DeserializationFailure),
    }
}

} // verus!
