use anchor_lang::solana_program::program_option::COption;
use anchor_lang::solana_program::program_pack::Pack;
use anchor_spl::token::spl_token;
use anchor_spl::token::spl_token::state::AccountState as TokenState;
use badseed_sweeper::pubkey::Pubkey;
use badseed_sweeper::sweep::{SweepEvent, SweepStep};
use badseed_sweeper::token::{resolve_token_account, RawAccount, TokenHolding};
use badseed_sweeper::{ErrorCode, SweepExceptBadseed};

fn packed(mint: [u8; 32], owner: [u8; 32], amount: u64, state: TokenState) -> Vec<u8> {
    let account = spl_token::state::Account {
        mint: anchor_lang::prelude::Pubkey::new_from_array(mint),
        owner: anchor_lang::prelude::Pubkey::new_from_array(owner),
        amount,
        delegate: COption::Some(anchor_lang::prelude::Pubkey::new_from_array([5u8; 32])),
        state,
        is_native: COption::None,
        delegated_amount: 3,
        close_authority: COption::None,
    };
    let mut data = vec![0u8; spl_token::state::Account::LEN];
    account.pack_into_slice(&mut data);
    data
}

fn of_token_program(data: Vec<u8>) -> RawAccount {
    RawAccount {
        key: Pubkey::new_from_array([9u8; 32]),
        owner: Pubkey::new_from_array(spl_token::ID.to_bytes()),
        lamports: 2_039_280,
        data,
    }
}

#[test]
fn resolves_a_packed_token_account() {
    let raw = of_token_program(packed([7u8; 32], [3u8; 32], 1234, TokenState::Initialized));
    assert_eq!(
        resolve_token_account(&raw),
        Ok(TokenHolding {
            mint: Pubkey::new_from_array([7u8; 32]),
            owner: Pubkey::new_from_array([3u8; 32]),
            amount: 1234,
        })
    );
}

#[test]
fn resolves_the_largest_amount() {
    let raw = of_token_program(packed([0u8; 32], [255u8; 32], u64::MAX, TokenState::Initialized));
    let holding = resolve_token_account(&raw).unwrap();
    assert_eq!(holding.amount, u64::MAX);
    assert_eq!(holding.mint.to_bytes(), [0u8; 32]);
    assert_eq!(holding.owner.to_bytes(), [255u8; 32]);
}

#[test]
fn resolves_a_frozen_token_account() {
    let raw = of_token_program(packed([7u8; 32], [3u8; 32], 8, TokenState::Frozen));
    assert_eq!(resolve_token_account(&raw).unwrap().amount, 8);
}

#[test]
fn rejects_an_account_of_another_program() {
    let mut raw = of_token_program(packed([7u8; 32], [3u8; 32], 1234, TokenState::Initialized));
    raw.owner = Pubkey::new_from_array([0u8; 32]);
    assert_eq!(resolve_token_account(&raw), Err(ErrorCode::DeserializationFailure));
    raw.lamports = 0;
    assert_eq!(resolve_token_account(&raw), Err(ErrorCode::DeserializationFailure));
}

#[test]
fn rejects_a_token_account_that_was_never_initialized() {
    let raw = of_token_program(packed([7u8; 32], [3u8; 32], 1234, TokenState::Uninitialized));
    assert_eq!(resolve_token_account(&raw), Err(ErrorCode::DeserializationFailure));
    let zeroed = of_token_program(vec![0u8; 165]);
    assert_eq!(resolve_token_account(&zeroed), Err(ErrorCode::DeserializationFailure));
}

#[test]
fn rejects_data_of_another_length() {
    let mut data = packed([7u8; 32], [3u8; 32], 1234, TokenState::Initialized);
    data.push(0);
    assert_eq!(resolve_token_account(&of_token_program(data)), Err(ErrorCode::DeserializationFailure));
    let mut short = packed([7u8; 32], [3u8; 32], 1234, TokenState::Initialized);
    short.pop();
    assert_eq!(
        resolve_token_account(&of_token_program(short)),
        Err(ErrorCode::DeserializationFailure)
    );
    assert_eq!(
        resolve_token_account(&of_token_program(Vec::new())),
        Err(ErrorCode::DeserializationFailure)
    );
}

#[test]
fn rejects_data_that_is_no_token_account() {
    let mut data = packed([7u8; 32], [3u8; 32], 1234, TokenState::Initialized);
    // The byte of the state holds none of its three values.
    data[108] = 3;
    assert_eq!(resolve_token_account(&of_token_program(data)), Err(ErrorCode::DeserializationFailure));
}

#[test]
fn resolved_account_drives_the_next_step() {
    let accounts = SweepExceptBadseed::new(
        Pubkey::new_from_array([1u8; 32]),
        Pubkey::new_from_array([2u8; 32]),
        Pubkey::new_from_array([7u8; 32]),
    );
    let asked = SweepStep::Resolve { source: 0 };
    let excluded = of_token_program(packed([7u8; 32], [1u8; 32], 500, TokenState::Initialized));
    let event = SweepEvent::Resolved { holding: resolve_token_account(&excluded).ok() };
    assert_eq!(accounts.advance(4, asked, event), SweepStep::Resolve { source: 2 });
    let other = of_token_program(packed([8u8; 32], [1u8; 32], 10, TokenState::Initialized));
    let event = SweepEvent::Resolved { holding: resolve_token_account(&other).ok() };
    assert_eq!(accounts.advance(4, asked, event), SweepStep::TransferAsset { source: 0, amount: 10 });
    let broken = of_token_program(vec![1u8; 10]);
    let event = SweepEvent::Resolved { holding: resolve_token_account(&broken).ok() };
    assert_eq!(
        accounts.advance(4, asked, event),
        SweepStep::Finished { outcome: Err(ErrorCode::DeserializationFailure) }
    );
}

#[test]
fn sweep_of_accounts_read_from_their_bytes() {
    let user = Pubkey::new_from_array([1u8; 32]);
    let destination = Pubkey::new_from_array([2u8; 32]);
    let badseed = Pubkey::new_from_array([7u8; 32]);
    let accounts = SweepExceptBadseed::new(user, destination, badseed);
    let mut ledger = badseed_sweeper::ledger::Ledger::new();
    let wallet = |lamports| badseed_sweeper::ledger::AccountState { lamports, token: None };
    ledger.open_account(user, wallet(5_000_000));
    ledger.open_account(destination, wallet(0));
    let mut list = Vec::new();
    let raw_accounts = [
        (10u8, packed([7u8; 32], [1u8; 32], 500, TokenState::Initialized)),
        (11u8, packed([7u8; 32], [2u8; 32], 0, TokenState::Initialized)),
        (12u8, packed([8u8; 32], [1u8; 32], 10, TokenState::Initialized)),
        (13u8, packed([8u8; 32], [2u8; 32], 1, TokenState::Initialized)),
    ];
    for (byte, data) in raw_accounts {
        let mut raw = of_token_program(data);
        raw.key = Pubkey::new_from_array([byte; 32]);
        let state = badseed_sweeper::ledger::AccountState {
            lamports: raw.lamports,
            token: resolve_token_account(&raw).ok(),
        };
        assert!(ledger.open_account(raw.key, state));
        list.push(raw.key);
    }
    assert_eq!(badseed_sweeper::sweep_except_badseed(&mut ledger, &accounts, &list), Ok(()));
    assert_eq!(ledger.lamports(&user), 2_000_000);
    assert_eq!(ledger.lamports(&destination), 3_000_000);
    assert_eq!(ledger.token_account(&list[0]).unwrap().amount, 500);
    assert_eq!(ledger.token_account(&list[1]).unwrap().amount, 0);
    assert_eq!(ledger.token_account(&list[2]).unwrap().amount, 0);
    assert_eq!(ledger.token_account(&list[3]).unwrap().amount, 11);
}
