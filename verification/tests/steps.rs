use badseed_sweeper::pubkey::Pubkey;
use badseed_sweeper::sweep::{sweep_amount, SweepEvent, SweepStep};
use badseed_sweeper::token::TokenHolding;
use badseed_sweeper::{ErrorCode, SweepExceptBadseed};

fn id(byte: u8) -> Pubkey {
    Pubkey::new_from_array([byte; 32])
}

fn sweep() -> SweepExceptBadseed {
    SweepExceptBadseed::new(id(1), id(2), id(3))
}

fn resolved(mint: u8, amount: u64) -> SweepEvent {
    SweepEvent::Resolved { holding: Some(TokenHolding { mint: id(mint), owner: id(1), amount }) }
}

const DONE: SweepEvent = SweepEvent::Transferred { accepted: true };

const REJECTED: SweepEvent = SweepEvent::Transferred { accepted: false };

#[test]
fn sweep_amount_is_what_lies_above_the_floor() {
    assert_eq!(sweep_amount(5_000_000, 2_000_000), Some(3_000_000));
    assert_eq!(sweep_amount(2_000_001, 2_000_000), Some(1));
    assert_eq!(sweep_amount(2_000_000, 2_000_000), None);
    assert_eq!(sweep_amount(1_000_000, 2_000_000), None);
    assert_eq!(sweep_amount(0, 0), None);
    assert_eq!(sweep_amount(u64::MAX, 0), Some(u64::MAX));
    assert_eq!(sweep_amount(u64::MAX, u64::MAX), None);
}

#[test]
fn begin_asks_for_the_lamports_above_the_floor() {
    assert_eq!(sweep().begin(5_000_000, 0), SweepStep::TransferNative { amount: 3_000_000 });
    assert_eq!(sweep().begin(5_000_000, 3), SweepStep::TransferNative { amount: 3_000_000 });
}

#[test]
fn begin_at_or_below_the_floor_goes_on_to_the_list() {
    assert_eq!(sweep().begin(2_000_000, 0), SweepStep::Finished { outcome: Ok(()) });
    assert_eq!(sweep().begin(1, 2), SweepStep::Resolve { source: 0 });
    assert_eq!(
        sweep().begin(0, 3),
        SweepStep::Finished { outcome: Err(ErrorCode::InvalidAccountPairs) }
    );
}

#[test]
fn list_is_validated_after_the_transfer_of_lamports() {
    let asked = SweepStep::TransferNative { amount: 7 };
    assert_eq!(
        sweep().advance(1, asked, DONE),
        SweepStep::Finished { outcome: Err(ErrorCode::InvalidAccountPairs) }
    );
    assert_eq!(sweep().advance(0, asked, DONE), SweepStep::Finished { outcome: Ok(()) });
    assert_eq!(sweep().advance(6, asked, DONE), SweepStep::Resolve { source: 0 });
}

#[test]
fn rejected_transfer_of_lamports_ends_the_sweep() {
    let asked = SweepStep::TransferNative { amount: 7 };
    assert_eq!(
        sweep().advance(4, asked, REJECTED),
        SweepStep::Finished { outcome: Err(ErrorCode::TransferFailure) }
    );
}

#[test]
fn excluded_mint_leads_to_the_next_pair_without_a_transfer() {
    let asked = SweepStep::Resolve { source: 0 };
    assert_eq!(sweep().advance(4, asked, resolved(3, 500)), SweepStep::Resolve { source: 2 });
    assert_eq!(sweep().advance(4, asked, resolved(3, u64::MAX)), SweepStep::Resolve { source: 2 });
    assert_eq!(
        sweep().advance(2, asked, resolved(3, 500)),
        SweepStep::Finished { outcome: Ok(()) }
    );
}

#[test]
fn empty_holding_leads_to_the_next_pair_without_a_transfer() {
    let asked = SweepStep::Resolve { source: 2 };
    assert_eq!(sweep().advance(6, asked, resolved(9, 0)), SweepStep::Resolve { source: 4 });
    assert_eq!(sweep().advance(4, asked, resolved(9, 0)), SweepStep::Finished { outcome: Ok(()) });
}

#[test]
fn other_holding_is_transferred_whole() {
    let asked = SweepStep::Resolve { source: 2 };
    assert_eq!(
        sweep().advance(4, asked, resolved(9, 10)),
        SweepStep::TransferAsset { source: 2, amount: 10 }
    );
    assert_eq!(
        sweep().advance(4, asked, resolved(9, u64::MAX)),
        SweepStep::TransferAsset { source: 2, amount: u64::MAX }
    );
}

#[test]
fn unreadable_source_ends_the_sweep() {
    let asked = SweepStep::Resolve { source: 0 };
    let unreadable = SweepEvent::Resolved { holding: None };
    assert_eq!(
        sweep().advance(4, asked, unreadable),
        SweepStep::Finished { outcome: Err(ErrorCode::DeserializationFailure) }
    );
}

#[test]
fn transfer_of_tokens_leads_to_the_next_pair() {
    let asked = SweepStep::TransferAsset { source: 0, amount: 10 };
    assert_eq!(sweep().advance(4, asked, DONE), SweepStep::Resolve { source: 2 });
    assert_eq!(sweep().advance(2, asked, DONE), SweepStep::Finished { outcome: Ok(()) });
}

#[test]
fn rejected_transfer_of_tokens_ends_the_sweep() {
    let asked = SweepStep::TransferAsset { source: 0, amount: 10 };
    assert_eq!(
        sweep().advance(6, asked, REJECTED),
        SweepStep::Finished { outcome: Err(ErrorCode::TransferFailure) }
    );
}

#[test]
fn finished_sweep_stays_finished() {
    for outcome in [Ok(()), Err(ErrorCode::TransferFailure), Err(ErrorCode::InvalidAccountPairs)] {
        let ended = SweepStep::Finished { outcome };
        assert_eq!(sweep().advance(4, ended, DONE), ended);
        assert_eq!(sweep().advance(4, ended, REJECTED), ended);
        assert_eq!(sweep().advance(4, ended, resolved(9, 10)), ended);
    }
}

#[test]
fn event_that_answers_another_step_changes_nothing() {
    let native = SweepStep::TransferNative { amount: 7 };
    assert_eq!(sweep().advance(4, native, resolved(9, 10)), native);
    let resolve = SweepStep::Resolve { source: 0 };
    assert_eq!(sweep().advance(4, resolve, DONE), resolve);
    assert_eq!(sweep().advance(4, resolve, REJECTED), resolve);
    let asset = SweepStep::TransferAsset { source: 0, amount: 1 };
    assert_eq!(sweep().advance(4, asset, resolved(9, 10)), asset);
}

#[test]
fn positions_at_the_end_of_the_range_do_not_wrap() {
    let last = SweepStep::TransferAsset { source: usize::MAX - 1, amount: 1 };
    assert_eq!(sweep().advance(usize::MAX, last, DONE), SweepStep::Finished { outcome: Ok(()) });
    let beyond = SweepStep::Resolve { source: usize::MAX };
    assert_eq!(
        sweep().advance(usize::MAX, beyond, resolved(3, 1)),
        SweepStep::Finished { outcome: Ok(()) }
    );
}

#[test]
fn whole_sweep_step_by_step() {
    let accounts = sweep();
    let mut step = accounts.begin(5_000_000, 4);
    assert_eq!(step, SweepStep::TransferNative { amount: 3_000_000 });
    step = accounts.advance(4, step, DONE);
    assert_eq!(step, SweepStep::Resolve { source: 0 });
    step = accounts.advance(4, step, resolved(3, 500));
    assert_eq!(step, SweepStep::Resolve { source: 2 });
    step = accounts.advance(4, step, resolved(9, 10));
    assert_eq!(step, SweepStep::TransferAsset { source: 2, amount: 10 });
    step = accounts.advance(4, step, DONE);
    assert_eq!(step, SweepStep::Finished { outcome: Ok(()) });
}

#[test]
fn failures_are_of_the_kind_of_the_step_that_failed() {
    let unreadable = SweepEvent::Resolved { holding: None };
    for remaining in [2usize, 3, 4, 5] {
        assert_eq!(
            sweep().advance(remaining, SweepStep::TransferNative { amount: 1 }, REJECTED),
            SweepStep::Finished { outcome: Err(ErrorCode::TransferFailure) }
        );
        assert_eq!(
            sweep().advance(remaining, SweepStep::Resolve { source: 0 }, unreadable),
            SweepStep::Finished { outcome: Err(ErrorCode::DeserializationFailure) }
        );
        assert_eq!(
            sweep().advance(remaining, SweepStep::TransferAsset { source: 0, amount: 1 }, REJECTED),
            SweepStep::Finished { outcome: Err(ErrorCode::TransferFailure) }
        );
    }
}

#[test]
fn errors_are_reported_in_words() {
    assert_eq!(ErrorCode::InvalidAccountPairs.message(), "Invalid remaining accounts pairs");
    assert_eq!(ErrorCode::DeserializationFailure.message(), "Source account is not a token account");
    assert_eq!(ErrorCode::TransferFailure.message(), "Transfer rejected");
}
