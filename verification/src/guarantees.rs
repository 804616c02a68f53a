use vstd::prelude::*;
use crate::error::ErrorCode;
use crate::executor::{
    spec_ledger_after, spec_sweep, spec_sweep_native, spec_sweep_pairs,
};
use crate::ledger::{spec_lamports, spec_token_account, spec_transfer_asset, LedgerView};
use crate::pubkey::Pubkey;
use crate::sweep::SweepExceptBadseed;

verus! {

/// The account at `key` is a token account of the excluded mint.
pub open spec fn spec_excluded(ledger: LedgerView, accounts: SweepExceptBadseed, key: Pubkey) -> bool {
    spec_token_account(ledger, key) matches Ok(holding) && holding.mint == accounts.badseed_mint
}

/// A transfer of tokens leaves every account where it is, with its
/// lamports, and touches no token account of another mint than the one it
/// moves.
proof fn lemma_transfer_asset_keeps(
    ledger: LedgerView,
    source: Pubkey,
    destination: Pubkey,
    authority: Pubkey,
    amount: u64,
    key: Pubkey,
)
    requires
        spec_transfer_asset(ledger, source, destination, authority, amount) is Some,
    ensures
        ({
            let after = spec_transfer_asset(ledger, source, destination, authority, amount)->0;
            &&& after.dom().contains(key) <==> ledger.dom().contains(key)
            &&& spec_lamports(after, key) == spec_lamports(ledger, key)
            &&& (spec_token_account(ledger, key) is Ok && spec_token_account(ledger, key)->Ok_0.mint
                != spec_token_account(ledger, source)->Ok_0.mint) ==> after[key] == ledger[key]
        }),
{
}

/// Sweeping pairs leaves every account where it is, with its lamports, and
/// every token account of the excluded mint as it was.
proof fn lemma_pairs_keep(
    ledger: LedgerView,
    accounts: SweepExceptBadseed,
    remaining: Seq<Pubkey>,
    source: int,
    key: Pubkey,
)
    ensures
        spec_sweep_pairs(ledger, accounts, remaining, source) matches Ok(after) ==> {
            &&& after.dom().contains(key) <==> ledger.dom().contains(key)
            &&& spec_lamports(after, key) == spec_lamports(ledger, key)
            &&& spec_excluded(ledger, accounts, key) ==> after[key] == ledger[key]
        },
    decreases remaining.len() - source,
{
    if source < 0 || source + 1 >= remaining.len() {
    } else if let Ok(holding) = spec_token_account(ledger, remaining[source]) {
        if accounts.spec_skips(holding) {
            lemma_pairs_keep(ledger, accounts, remaining, source + 2, key);
        } else if let Some(moved) = spec_transfer_asset(
            ledger,
            remaining[source],
            remaining[source + 1],
            accounts.user_wallet,
            holding.amount,
        ) {
            lemma_transfer_asset_keeps(
                ledger,
                remaining[source],
                remaining[source + 1],
                accounts.user_wallet,
                holding.amount,
                key,
            );
            lemma_pairs_keep(moved, accounts, remaining, source + 2, key);
        }
    }
}

/// Sweeping pairs changes no account that the list does not name.
proof fn lemma_pairs_leave_the_rest(
    ledger: LedgerView,
    accounts: SweepExceptBadseed,
    remaining: Seq<Pubkey>,
    source: int,
    key: Pubkey,
)
    requires
        !remaining.contains(key),
        ledger.dom().contains(key),
    ensures
        spec_sweep_pairs(ledger, accounts, remaining, source) matches Ok(after) ==> after[key]
            == ledger[key],
    decreases remaining.len() - source,
{
    if source < 0 || source + 1 >= remaining.len() {
    } else if let Ok(holding) = spec_token_account(ledger, remaining[source]) {
        assert(remaining.contains(remaining[source]));
        assert(remaining.contains(remaining[source + 1]));
        if accounts.spec_skips(holding) {
            lemma_pairs_leave_the_rest(ledger, accounts, remaining, source + 2, key);
        } else if let Some(moved) = spec_transfer_asset(
            ledger,
            remaining[source],
            remaining[source + 1],
            accounts.user_wallet,
            holding.amount,
        ) {
            lemma_pairs_leave_the_rest(moved, accounts, remaining, source + 2, key);
        }
    }
}

/// A sweep opens no account and closes none: the ledger holds the same
/// addresses after it as before.
pub proof fn lemma_no_account_comes_or_goes(
    ledger: LedgerView,
    accounts: SweepExceptBadseed,
    remaining: Seq<Pubkey>,
)
    ensures
        spec_ledger_after(ledger, accounts, remaining).dom() == ledger.dom(),
{
    let after = spec_ledger_after(ledger, accounts, remaining);
    assert forall|key: Pubkey| after.dom().contains(key) <==> ledger.dom().contains(key) by {
        if let Some(swept) = spec_sweep_native(ledger, accounts) {
            lemma_pairs_keep(swept, accounts, remaining, 0, key);
        }
    }
    assert(after.dom() =~= ledger.dom());
}

/// A sweep touches only the accounts that it names: an account that is
/// neither the signer's wallet nor the destination nor in the list is after
/// the sweep as it was before.
pub proof fn lemma_unnamed_accounts_are_untouched(
    ledger: LedgerView,
    accounts: SweepExceptBadseed,
    remaining: Seq<Pubkey>,
    key: Pubkey,
)
    requires
        ledger.dom().contains(key),
        key != accounts.user_wallet,
        key != accounts.sweep_destination,
        !remaining.contains(key),
    ensures
        spec_ledger_after(ledger, accounts, remaining)[key] == ledger[key],
{
    if let Some(swept) = spec_sweep_native(ledger, accounts) {
        lemma_pairs_leave_the_rest(swept, accounts, remaining, 0, key);
    }
}

/// Transfers of tokens move no lamports: an account other than the signer's
/// wallet and the destination holds after the sweep the lamports that it
/// held before.
pub proof fn lemma_lamports_move_between_wallet_and_destination_only(
    ledger: LedgerView,
    accounts: SweepExceptBadseed,
    remaining: Seq<Pubkey>,
    key: Pubkey,
)
    requires
        key != accounts.user_wallet,
        key != accounts.sweep_destination,
    ensures
        spec_lamports(spec_ledger_after(ledger, accounts, remaining), key) == spec_lamports(
            ledger,
            key,
        ),
{
    if let Some(swept) = spec_sweep_native(ledger, accounts) {
        lemma_pairs_keep(swept, accounts, remaining, 0, key);
    }
}

/// A wallet that holds no more than the floor keeps its lamports: no
/// transfer of lamports is made, and whether the sweep then succeeds or
/// fails, the wallet holds afterwards what it held before.
pub proof fn lemma_floor_is_kept(
    ledger: LedgerView,
    accounts: SweepExceptBadseed,
    remaining: Seq<Pubkey>,
)
    requires
        spec_lamports(ledger, accounts.user_wallet) <= accounts.reserve_floor,
    ensures
        spec_sweep_native(ledger, accounts) == Some(ledger),
        spec_lamports(spec_ledger_after(ledger, accounts, remaining), accounts.user_wallet)
            == spec_lamports(ledger, accounts.user_wallet),
{
    lemma_pairs_keep(ledger, accounts, remaining, 0, accounts.user_wallet);
}

/// A sweep that succeeds on a wallet above the floor leaves exactly the
/// floor in it, and the destination, where it is another account, has
/// gained exactly what the wallet held above the floor.
pub proof fn lemma_native_sweep_is_exact(
    ledger: LedgerView,
    accounts: SweepExceptBadseed,
    remaining: Seq<Pubkey>,
)
    requires
        spec_lamports(ledger, accounts.user_wallet) > accounts.reserve_floor,
        accounts.user_wallet != accounts.sweep_destination,
        spec_sweep(ledger, accounts, remaining) is Ok,
    ensures
        spec_lamports(spec_ledger_after(ledger, accounts, remaining), accounts.user_wallet)
            == accounts.reserve_floor,
        spec_lamports(spec_ledger_after(ledger, accounts, remaining), accounts.sweep_destination)
            == spec_lamports(ledger, accounts.sweep_destination) + spec_lamports(
            ledger,
            accounts.user_wallet,
        ) - accounts.reserve_floor,
{
    let swept = spec_sweep_native(ledger, accounts)->0;
    lemma_pairs_keep(swept, accounts, remaining, 0, accounts.user_wallet);
    lemma_pairs_keep(swept, accounts, remaining, 0, accounts.sweep_destination);
}

/// A list of odd length fails the sweep, and the ledger stays as it was.
/// The error is `InvalidAccountPairs` unless the transfer of lamports, which
/// comes first, was rejected.
pub proof fn lemma_odd_list_is_rejected(
    ledger: LedgerView,
    accounts: SweepExceptBadseed,
    remaining: Seq<Pubkey>,
)
    requires
        remaining.len() % 2 == 1,
    ensures
        spec_sweep(ledger, accounts, remaining) is Err,
        spec_ledger_after(ledger, accounts, remaining) == ledger,
        spec_sweep_native(ledger, accounts) is Some ==> spec_sweep(ledger, accounts, remaining)
            == Err::<LedgerView, ErrorCode>(ErrorCode::InvalidAccountPairs),
{
}

/// A token account of the excluded mint holds after the sweep what it held
/// before, whatever that is and whether or not the list names it.
pub proof fn lemma_excluded_mint_is_untouched(
    ledger: LedgerView,
    accounts: SweepExceptBadseed,
    remaining: Seq<Pubkey>,
    key: Pubkey,
)
    requires
        spec_excluded(ledger, accounts, key),
    ensures
        spec_token_account(spec_ledger_after(ledger, accounts, remaining), key)
            == spec_token_account(ledger, key),
{
    if let Some(swept) = spec_sweep_native(ledger, accounts) {
        lemma_pairs_keep(swept, accounts, remaining, 0, key);
    }
}

/// A pair whose source is empty is passed over: the sweep goes on with the
/// next pair on the same ledger, and does not fail on this one.
pub proof fn lemma_empty_source_is_passed_over(
    ledger: LedgerView,
    accounts: SweepExceptBadseed,
    remaining: Seq<Pubkey>,
    source: int,
)
    requires
        0 <= source,
        source + 1 < remaining.len(),
        spec_token_account(ledger, remaining[source]) matches Ok(holding) && holding.amount == 0,
    ensures
        spec_sweep_pairs(ledger, accounts, remaining, source) == spec_sweep_pairs(
            ledger,
            accounts,
            remaining,
            source + 2,
        ),
{
}

/// Sweeping the pairs from `source` on is sweeping those before `middle`
/// and then, on the ledger they leave, those from `middle` on.
pub proof fn lemma_pairs_in_two_parts(
    ledger: LedgerView,
    accounts: SweepExceptBadseed,
    remaining: Seq<Pubkey>,
    source: int,
    middle: int,
)
    requires
        0 <= source <= middle <= remaining.len(),
        (middle - source) % 2 == 0,
    ensures
        spec_sweep_pairs(ledger, accounts, remaining, source) == match spec_sweep_pairs(
            ledger,
            accounts,
            remaining.take(middle),
            source,
        ) {
            Ok(halfway) => spec_sweep_pairs(halfway, accounts, remaining, middle),
            Err(e) => Err(e),
        },
    decreases middle - source,
{
    let front = remaining.take(middle);
    if source == middle {
        assert(spec_sweep_pairs(ledger, accounts, front, source) == Ok::<LedgerView, ErrorCode>(
            ledger,
        ));
    } else if let Ok(holding) = spec_token_account(ledger, remaining[source]) {
        if accounts.spec_skips(holding) {
            lemma_pairs_in_two_parts(ledger, accounts, remaining, source + 2, middle);
        } else if let Some(moved) = spec_transfer_asset(
            ledger,
            remaining[source],
            remaining[source + 1],
            accounts.user_wallet,
            holding.amount,
        ) {
            lemma_pairs_in_two_parts(moved, accounts, remaining, source + 2, middle);
        }
    }
}

/// The pair at `source` holds tokens to sweep, and the ledger rejects their
/// transfer.
pub open spec fn spec_rejected_at(
    ledger: LedgerView,
    accounts: SweepExceptBadseed,
    remaining: Seq<Pubkey>,
    source: int,
) -> bool {
    spec_token_account(ledger, remaining[source]) matches Ok(holding) && !accounts.spec_skips(
        holding,
    ) && spec_transfer_asset(
        ledger,
        remaining[source],
        remaining[source + 1],
        accounts.user_wallet,
        holding.amount,
    ) is None
}

/// A transfer of tokens that is rejected fails the whole sweep, whatever the
/// pairs before it have moved: the sweep ends in `TransferFailure`, no pair
/// after the rejected one is swept, and the ledger stays as it was before
/// the sweep.
pub proof fn lemma_rejected_transfer_undoes_the_sweep(
    ledger: LedgerView,
    accounts: SweepExceptBadseed,
    remaining: Seq<Pubkey>,
    source: int,
)
    requires
        remaining.len() % 2 == 0,
        0 <= source,
        source % 2 == 0,
        source + 1 < remaining.len(),
        spec_sweep_native(ledger, accounts) matches Some(swept) && (spec_sweep_pairs(
            swept,
            accounts,
            remaining.take(source),
            0,
        ) matches Ok(halfway) && spec_rejected_at(halfway, accounts, remaining, source)),
    ensures
        spec_sweep(ledger, accounts, remaining) == Err::<LedgerView, ErrorCode>(
            ErrorCode::TransferFailure,
        ),
        spec_ledger_after(ledger, accounts, remaining) == ledger,
{
    lemma_pairs_in_two_parts(
        spec_sweep_native(ledger, accounts)->0,
        accounts,
        remaining,
        0,
        source,
    );
}

} // verus!
