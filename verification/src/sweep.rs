use vstd::prelude::*;
use crate::error::ErrorCode;
use crate::pubkey::Pubkey;
use crate::token::TokenHolding;

verus! {

/// The lamports that a sweep leaves in the signer's wallet by default.
pub const RESERVE_FLOOR: u64 = 2_000_000;

/// The accounts and the floor of one sweep.
#[derive(Clone, Copy, Debug, PartialEq, Eq)]
pub struct SweepExceptBadseed {
    /// The signer: the wallet that is swept, and the authority of every transfer.
    pub user_wallet: Pubkey,
    /// The wallet that receives the lamports.
    pub sweep_destination: Pubkey,
    /// The mint whose token accounts are never touched.
    pub badseed_mint: Pubkey,
    /// The lamports that stay in the signer's wallet.
    pub reserve_floor: u64,
}

/// What the sweep asks of its host next, or how it ended.
///
/// The remaining accounts are a flat list of pairs: the account at an even
/// position `source` is a token account of the signer, the one at
/// `source + 1` receives its tokens.
#[derive(Clone, Copy, Debug, PartialEq, Eq)]
pub enum SweepStep {
    /// Move `amount` lamports from the signer's wallet to the destination.
    TransferNative { amount: u64 },
    /// Read the token account at position `source`.
    Resolve { source: usize },
    /// Move `amount` tokens from the account at `source` to the one at
    /// `source + 1`, on the signer's authority.
    TransferAsset { source: usize, amount: u64 },
    /// Nothing more is asked for.
    Finished { outcome: Result<(), ErrorCode> },
}

/// What the host answers to a step.
#[derive(Clone, Copy, Debug, PartialEq, Eq)]
pub enum SweepEvent {
    /// The transfer that was asked for went through, or was rejected.
    Transferred { accepted: bool },
    /// The account that was asked for holds this, or is no token account.
    Resolved { holding: Option<TokenHolding> },
}

impl SweepStep {
    /// The step speaks of positions that a list of `remaining` accounts has.
    pub open spec fn fits(self, remaining: int) -> bool {
        match self {
            SweepStep::Resolve { source } => source + 1 < remaining,
            SweepStep::TransferAsset { source, amount } => source + 1 < remaining && amount > 0,
            SweepStep::TransferNative { amount } => amount > 0,
            SweepStep::Finished { .. } => true,
        }
    }
}

/// The event is an answer to the step.
pub open spec fn spec_answers(step: SweepStep, event: SweepEvent) -> bool {
    match step {
        SweepStep::TransferNative { .. } | SweepStep::TransferAsset { .. } => event is Transferred,
        SweepStep::Resolve { .. } => event is Resolved,
        SweepStep::Finished { .. } => false,
    }
}

/// The failure that the event reports, if it reports one: a rejected
/// transfer is a `TransferFailure`, an account that is no token account a
/// `DeserializationFailure`.
pub open spec fn spec_failure(event: SweepEvent) -> Option<ErrorCode> {
    match event {
        SweepEvent::Transferred { accepted: false } => Some(ErrorCode::TransferFailure),
        SweepEvent::Resolved { holding: None } => Some(ErrorCode::DeserializationFailure),
        _ => None,
    }
}

/// The pair that starts at `source` is next if the list has one there; else
/// the sweep is over.
pub open spec fn spec_pair_at(remaining: int, source: int) -> SweepStep {
    if 0 <= source && source + 1 < remaining {
        SweepStep::Resolve { source: source as usize }
    } else {
        SweepStep::Finished { outcome: Ok(()) }
    }
}

/// After the native phase the list is validated: an odd length ends the
/// sweep, an even one leads to the first pair.
pub open spec fn spec_validate(remaining: int) -> SweepStep {
    if remaining % 2 != 0 {
        SweepStep::Finished { outcome: Err(ErrorCode::InvalidAccountPairs) }
    } else {
        spec_pair_at(remaining, 0)
    }
}

/// The lamports above the floor, if there are any.
pub open spec fn spec_sweep_amount(lamports: u64, reserve_floor: u64) -> Option<u64> {
    if lamports > reserve_floor {
        Some((lamports - reserve_floor) as u64)
    } else {
        None
    }
}

impl SweepExceptBadseed {
    /// A token account is left alone if it is of the excluded mint or empty.
    pub open spec fn spec_skips(self, holding: TokenHolding) -> bool {
        holding.mint == self.badseed_mint || holding.amount == 0
    }

    /// The first step: the transfer of what lies above the floor, or, where
    /// nothing does, what the validation of the list leads to.
    pub open spec fn spec_begin(self, lamports: u64, remaining: usize) -> SweepStep {
        match spec_sweep_amount(lamports, self.reserve_floor) {
            Some(amount) => SweepStep::TransferNative { amount },
            None => spec_validate(remaining as int),
        }
    }

    /// The step after `step`, given the host's answer: a failure ends the
    /// sweep in that failure; the transfer of lamports is followed by the
    /// validation of the list; a token account that is skipped, and a
    /// transfer of tokens that went through, are followed by the next pair;
    /// any other token account is followed by the transfer of all it holds.
    pub open spec fn spec_advance(
        self,
        remaining: usize,
        step: SweepStep,
        event: SweepEvent,
    ) -> SweepStep {
        match (step, event) {
            (SweepStep::TransferNative { .. }, SweepEvent::Transferred { accepted }) => {
                if accepted {
                    spec_validate(remaining as int)
                } else {
                    SweepStep::Finished { outcome: Err(ErrorCode::TransferFailure) }
                }
            },
            (SweepStep::Resolve { source }, SweepEvent::Resolved { holding }) => match holding {
                None => SweepStep::Finished { outcome: Err(ErrorCode::DeserializationFailure) },
                Some(holding) => if self.spec_skips(holding) {
                    spec_pair_at(remaining as int, source + 2)
                } else {
                    SweepStep::TransferAsset { source, amount: holding.amount }
                },
            },
            (SweepStep::TransferAsset { source, .. }, SweepEvent::Transferred { accepted }) => {
                if accepted {
                    spec_pair_at(remaining as int, source + 2)
                } else {
                    SweepStep::Finished { outcome: Err(ErrorCode::TransferFailure) }
                }
            },
            _ => step,
        }
    }
}

/// The lamports to move out of a wallet that holds `lamports`: what lies
/// above the floor, and nothing at or below it.
pub fn sweep_amount(lamports: u64, reserve_floor: u64) -> (amount: Option<u64>)
    ensures
        amount == spec_sweep_amount(lamports, reserve_floor),
        amount matches Some(a) ==> a > 0 && a + reserve_floor == lamports,
        amount is None <==> lamports <= reserve_floor,
{
    if lamports > reserve_floor {
        Some(lamports - reserve_floor)
    } else {
        None
    }
}

fn pair_at(remaining: usize, source: usize) -> (step: SweepStep)
    ensures
        step == spec_pair_at(remaining as int, source as int),
{
    if source < remaining && source + 1 < remaining {
        SweepStep::Resolve { source }
    } else {
        SweepStep::Finished { outcome: Ok(()) }
    }
}

fn pair_after(remaining: usize, source: usize) -> (step: SweepStep)
    ensures
        step == spec_pair_at(remaining as int, source + 2),
{
    if source < usize::MAX - 1 {
        pair_at(remaining, source + 2)
    } else {
        SweepStep::Finished { outcome: Ok(()) }
    }
}

fn validate(remaining: usize) -> (step: SweepStep)
    ensures
        step == spec_validate(remaining as int),
{
    if remaining % 2 != 0 {
        SweepStep::Finished { outcome: Err(ErrorCode::InvalidAccountPairs) }
    } else {
        pair_at(remaining, 0)
    }
}

impl SweepExceptBadseed {
    /// The accounts of a sweep that leaves the default floor behind.
    pub fn new(user_wallet: Pubkey, sweep_destination: Pubkey, badseed_mint: Pubkey) -> (accounts:
        SweepExceptBadseed)
        ensures
            accounts == (SweepExceptBadseed {
                user_wallet,
                sweep_destination,
                badseed_mint,
                reserve_floor: RESERVE_FLOOR,
            }),
    {
        SweepExceptBadseed { user_wallet, sweep_destination, badseed_mint, reserve_floor: RESERVE_FLOOR }
    }

    /// The first step of a sweep of a wallet that holds `lamports`, with
    /// `remaining` accounts in the list of pairs.
    ///
    /// A wallet above the floor is asked to give what lies above it, and a
    /// wallet at or below the floor is asked for nothing. Without a transfer
    /// of lamports, a list of odd length ends the sweep at once.
    pub fn begin(&self, lamports: u64, remaining: usize) -> (step: SweepStep)
        ensures
            step == self.spec_begin(lamports, remaining),
            step.fits(remaining as int),
            lamports > self.reserve_floor ==> step == (SweepStep::TransferNative {
                amount: (lamports - self.reserve_floor) as u64,
            }),
            lamports <= self.reserve_floor ==> !(step is TransferNative),
            lamports <= self.reserve_floor && remaining % 2 == 1 ==> step == (SweepStep::Finished {
                outcome: Err(ErrorCode::InvalidAccountPairs),
            }),
    {
        match sweep_amount(lamports, self.reserve_floor) {
            Some(amount) => SweepStep::TransferNative { amount },
            None => validate(remaining),
        }
    }

    /// The step that follows `step` once the host has answered it with
    /// `event`. An event that answers another kind of step changes nothing.
    ///
    /// A rejected transfer ends the sweep in `TransferFailure`, and a source
    /// that is no token account ends it in `DeserializationFailure`; a sweep
    /// that has ended stays ended. After the transfer of lamports a list of
    /// odd length ends the sweep in `InvalidAccountPairs`. A token account
    /// of the excluded mint, or an empty one, leads to no transfer and to no
    /// failure; any other is asked to give all it holds. The sweep fails on
    /// nothing else, and it asks for no transfer of lamports after the first
    /// step.
    pub fn advance(&self, remaining: usize, step: SweepStep, event: SweepEvent) -> (next:
        SweepStep)
        ensures
            next == self.spec_advance(remaining, step, event),
            step.fits(remaining as int) ==> next.fits(remaining as int),
            step is Finished || !spec_answers(step, event) ==> next == step,
            next is TransferNative ==> next == step,
            spec_answers(step, event) && spec_failure(event) is Some ==> next == (
            SweepStep::Finished { outcome: Err(spec_failure(event)->0) }),
            step is TransferNative && event == (SweepEvent::Transferred { accepted: true })
                && remaining % 2 == 1 ==> next == (SweepStep::Finished {
                outcome: Err(ErrorCode::InvalidAccountPairs),
            }),
            step matches SweepStep::Resolve { source } ==> (event matches SweepEvent::Resolved {
                holding: Some(holding),
            } ==> if self.spec_skips(holding) {
                !(next is TransferAsset) && !(next matches SweepStep::Finished { outcome: Err(_) })
            } else {
                next == (SweepStep::TransferAsset { source, amount: holding.amount })
            }),
            !(step is Finished) ==> (next matches SweepStep::Finished { outcome: Err(e) } ==> {
                &&& spec_answers(step, event)
                &&& if step is TransferNative && event == (SweepEvent::Transferred {
                    accepted: true,
                }) {
                    e == ErrorCode::InvalidAccountPairs && remaining % 2 == 1
                } else {
                    spec_failure(event) == Some(e)
                }
            }),
    {
        match step {
            SweepStep::TransferNative { .. } => match event {
                SweepEvent::Transferred { accepted: true } => validate(remaining),
                SweepEvent::Transferred { accepted: false } => SweepStep::Finished {
                    outcome: Err(ErrorCode::TransferFailure),
                },
                _ => step,
            },
            SweepStep::Resolve { source } => match event {
                SweepEvent::Resolved { holding: Some(holding) } => {
                    if holding.mint == self.badseed_mint || holding.amount == 0 {
                        pair_after(remaining, source)
                    } else {
                        SweepStep::TransferAsset { source, amount: holding.amount }
                    }
                },
                SweepEvent::Resolved { holding: None } => SweepStep::Finished {
                    outcome: Err(ErrorCode::DeserializationFailure),
                },
                _ => step,
            },
            SweepStep::TransferAsset { source, .. } => match event {
                SweepEvent::Transferred { accepted: true } => pair_after(remaining, source),
                SweepEvent::Transferred { accepted: false } => SweepStep::Finished {
                    outcome: Err(ErrorCode::TransferFailure),
                },
                _ => step,
            },
            SweepStep::Finished { .. } => step,
        }
    }
}

} // verus!
