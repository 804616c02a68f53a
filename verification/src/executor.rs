use vstd::prelude::*;
use crate::error::ErrorCode;
use crate::ledger::{
    spec_lamports, spec_token_account, spec_transfer_asset, spec_transfer_native, Ledger,
    LedgerView,
};
use crate::pubkey::Pubkey;
use crate::sweep::{spec_sweep_amount, SweepEvent, SweepExceptBadseed, SweepStep};

verus! {

/// The ledger after the pairs from position `source` on have been swept, or
/// the error that stopped the sweep.
///
/// The source of a pair must be a token account. One of the excluded mint,
/// or an empty one, is passed over; any other gives all its tokens to the
/// other account of the pair, on the signer's authority.
pub open spec fn spec_sweep_pairs(
    ledger: LedgerView,
    accounts: SweepExceptBadseed,
    remaining: Seq<Pubkey>,
    source: int,
) -> Result<LedgerView, ErrorCode>
    decreases remaining.len() - source,
{
    if source < 0 || source + 1 >= remaining.len() {
        Ok(ledger)
    } else {
        match spec_token_account(ledger, remaining[source]) {
            Err(e) => Err(e),
            Ok(holding) => if accounts.spec_skips(holding) {
                spec_sweep_pairs(ledger, accounts, remaining, source + 2)
            } else {
                match spec_transfer_asset(
                    ledger,
                    remaining[source],
                    remaining[source + 1],
                    accounts.user_wallet,
                    holding.amount,
                ) {
                    None => Err(ErrorCode::TransferFailure),
                    Some(after) => spec_sweep_pairs(after, accounts, remaining, source + 2),
                }
            },
        }
    }
}

/// The ledger after the list has been validated and its pairs swept.
pub open spec fn spec_sweep_validated(
    ledger: LedgerView,
    accounts: SweepExceptBadseed,
    remaining: Seq<Pubkey>,
) -> Result<LedgerView, ErrorCode> {
    if remaining.len() % 2 != 0 {
        Err(ErrorCode::InvalidAccountPairs)
    } else {
        spec_sweep_pairs(ledger, accounts, remaining, 0)
    }
}

/// The ledger after the signer's lamports above the floor have moved to the
/// destination, or `None` where that transfer is rejected.
pub open spec fn spec_sweep_native(ledger: LedgerView, accounts: SweepExceptBadseed) -> Option<
    LedgerView,
> {
    match spec_sweep_amount(spec_lamports(ledger, accounts.user_wallet), accounts.reserve_floor) {
        Some(amount) => spec_transfer_native(
            ledger,
            accounts.user_wallet,
            accounts.sweep_destination,
            amount,
        ),
        None => Some(ledger),
    }
}

/// The ledger after a whole sweep, or the error that stopped it: the
/// lamports first, then the validation of the list, then the pairs in order.
pub open spec fn spec_sweep(
    ledger: LedgerView,
    accounts: SweepExceptBadseed,
    remaining: Seq<Pubkey>,
) -> Result<LedgerView, ErrorCode> {
    match spec_sweep_native(ledger, accounts) {
        None => Err(ErrorCode::TransferFailure),
        Some(after) => spec_sweep_validated(after, accounts, remaining),
    }
}

/// The ledger as a sweep leaves it: swept where the sweep succeeds, as it
/// was where the sweep fails.
pub open spec fn spec_ledger_after(
    ledger: LedgerView,
    accounts: SweepExceptBadseed,
    remaining: Seq<Pubkey>,
) -> LedgerView {
    match spec_sweep(ledger, accounts, remaining) {
        Ok(after) => after,
        Err(_) => ledger,
    }
}

/// What the rest of a sweep makes of `ledger` when `step` is the next one.
spec fn resume(
    ledger: LedgerView,
    accounts: SweepExceptBadseed,
    remaining: Seq<Pubkey>,
    step: SweepStep,
) -> Result<LedgerView, ErrorCode> {
    match step {
        SweepStep::TransferNative { amount } => match spec_transfer_native(
            ledger,
            accounts.user_wallet,
            accounts.sweep_destination,
            amount,
        ) {
            None => Err(ErrorCode::TransferFailure),
            Some(after) => spec_sweep_validated(after, accounts, remaining),
        },
        SweepStep::Resolve { source } => spec_sweep_pairs(
            ledger,
            accounts,
            remaining,
            source as int,
        ),
        SweepStep::TransferAsset { source, amount } => match spec_transfer_asset(
            ledger,
            remaining[source as int],
            remaining[source + 1],
            accounts.user_wallet,
            amount,
        ) {
            None => Err(ErrorCode::TransferFailure),
            Some(after) => spec_sweep_pairs(after, accounts, remaining, source + 2),
        },
        SweepStep::Finished { outcome } => match outcome {
            Ok(_) => Ok(ledger),
            Err(e) => Err(e),
        },
    }
}

/// How far `step` is from the end of a sweep over `remaining` accounts.
spec fn distance(step: SweepStep, remaining: int) -> int {
    match step {
        SweepStep::TransferNative { .. } => 2 * remaining + 4,
        SweepStep::Resolve { source } => 2 * (remaining - source) + 1,
        SweepStep::TransferAsset { source, .. } => 2 * (remaining - source),
        SweepStep::Finished { .. } => 0,
    }
}

/// Sweeps the signer's wallet on `ledger`: the lamports above the floor go
/// to the destination, and every token account that `remaining_accounts`
/// pairs with a receiver gives its tokens to that receiver, but for those
/// of the excluded mint and the empty ones.
///
/// The steps are those of `SweepExceptBadseed::begin` and `advance`, each
/// performed on a copy of the ledger. The sweep is all or nothing: the copy
/// replaces the ledger when the last step has succeeded, and when a step
/// fails the ledger is as it was.
pub fn sweep_except_badseed(
    ledger: &mut Ledger,
    accounts: &SweepExceptBadseed,
    remaining_accounts: &[Pubkey],
) -> (result: Result<(), ErrorCode>)
    ensures
        match spec_sweep(old(ledger)@, *accounts, remaining_accounts@) {
            Ok(after) => result is Ok && final(ledger)@ == after,
            Err(e) => result == Err::<(), ErrorCode>(e) && final(ledger)@ == old(ledger)@,
        },
        final(ledger)@ == spec_ledger_after(old(ledger)@, *accounts, remaining_accounts@),
{
    let mut staged = ledger.snapshot();
    let remaining = remaining_accounts.len();
    let mut step = accounts.begin(staged.lamports(&accounts.user_wallet), remaining);
    loop
        invariant
            remaining == remaining_accounts.len(),
            step.fits(remaining as int),
            ledger@ == old(ledger)@,
            resume(staged@, *accounts, remaining_accounts@, step) == spec_sweep(
                old(ledger)@,
                *accounts,
                remaining_accounts@,
            ),
        decreases distance(step, remaining as int),
    {
        let event = match step {
            SweepStep::TransferNative { amount } => SweepEvent::Transferred {
                accepted: staged.transfer_native(
                    &accounts.user_wallet,
                    &accounts.sweep_destination,
                    amount,
                ).is_ok(),
            },
            SweepStep::Resolve { source } => SweepEvent::Resolved {
                holding: staged.token_account(&remaining_accounts[source]).ok(),
            },
            SweepStep::TransferAsset { source, amount } => SweepEvent::Transferred {
                accepted: staged.transfer_asset(
                    &remaining_accounts[source],
                    &remaining_accounts[source + 1],
                    &accounts.user_wallet,
                    amount,
                ).is_ok(),
            },
            SweepStep::Finished { outcome } => {
                if outcome.is_ok() {
                    *ledger = staged;
                }
                return outcome;
            },
        };
        proof {
            if let SweepStep::Resolve { source } = step {
                // Past the last pair nothing is left to sweep.
                assert(source + 3 >= remaining ==> spec_sweep_pairs(
                    staged@,
                    *accounts,
                    remaining_accounts@,
                    source + 2,
                ) == Ok::<LedgerView, ErrorCode>(staged@));
            }
        }
        step = accounts.advance(remaining, step, event);
    }
}

} // verus!
