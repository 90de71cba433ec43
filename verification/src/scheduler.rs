//! What a reporter does at each tick.
//!
//! Every reporter goes through the open windows on its own. A window whose
//! deadline has come is closed: its observations are reduced to their mean, and
//! the mean is handed to the ledger. Else, at the ticks that the grace period
//! divides, a quote is fetched and handed in. Closing comes first, so that no
//! window is closed and added to at one tick.

use vstd::prelude::*;
use crate::aggregate::{calc_avg_price, mean_of, observation_prices, observations_view};
use crate::bytes::copy_bytes;
use crate::error::{FetchError, SubmitError};
use crate::ledger::{Call, Ledger};
use crate::model::{CallView, LedgerView};
use crate::record::{parsed_view, DiaPriceRecord, FetchedPrice, Fetcher};

verus! {

/// What is due for one open window at one tick.
#[derive(Clone, Copy, Debug, PartialEq, Eq, Structural)]
pub enum Task {
    /// The deadline has come: close the window.
    Aggregate,
    /// The grace period divides the tick: fetch a quote.
    Fetch,
    /// Nothing.
    Idle,
}

/// What is due at the tick `block_number` for a window that ends at
/// `end_fetching_at`.
pub open spec fn task_of(end_fetching_at: u64, block_number: u64, grace_period: u64) -> Task {
    if end_fetching_at <= block_number {
        Task::Aggregate
    } else if block_number % grace_period == 0 {
        Task::Fetch
    } else {
        Task::Idle
    }
}

/// Says what is due for `fetcher` at the tick `block_number`.
pub fn task_for(fetcher: &Fetcher<u64>, block_number: u64, grace_period: u64) -> (task: Task)
    requires
        grace_period > 0,
    ensures
        task == task_of(fetcher@.end_fetching_at, block_number, grace_period),
{
    if fetcher.end_fetching_at <= block_number {
        Task::Aggregate
    } else if block_number % grace_period == 0 {
        Task::Fetch
    } else {
        Task::Idle
    }
}

/// What a reporter is to do for one open window.
#[derive(Debug, PartialEq, Eq)]
pub enum Action {
    /// Sign the call and send it to the ledger.
    Submit(Call),
    /// Fetch a quote from this address and hand it in.
    Fetch(Vec<u8>),
    /// Nothing.
    Idle,
}

/// An [`Action`] in specifications.
pub enum ActionView {
    Submit(CallView),
    Fetch(Seq<u8>),
    Idle,
}

impl View for Action {
    type V = ActionView;

    open spec fn view(&self) -> ActionView {
        match self {
            Action::Submit(call) => ActionView::Submit(call@),
            Action::Fetch(url) => ActionView::Fetch(url@),
            Action::Idle => ActionView::Idle,
        }
    }
}

/// The call that closes the window of `symbol`: it publishes the mean of the
/// prices, or, where there is no price, closes the window and publishes
/// nothing.
pub open spec fn closing_call(symbol: Seq<u8>, prices: Seq<u128>) -> CallView {
    match mean_of(prices) {
        Ok(mean) => CallView::SubmitNewAvgPrice(symbol, mean),
        Err(_) => CallView::CloseFetcher(symbol),
    }
}

/// What a reporter that can sign is to do at the tick `block_number` for the
/// open window of `symbol`.
pub open spec fn action_of<AccountId>(
    ledger: LedgerView<AccountId>,
    symbol: Seq<u8>,
    block_number: u64,
    grace_period: u64,
) -> ActionView {
    match task_of(ledger.fetchers[symbol].end_fetching_at, block_number, grace_period) {
        Task::Aggregate => ActionView::Submit(closing_call(symbol, ledger.prices(symbol))),
        Task::Fetch => ActionView::Fetch(ledger.fetchers[symbol].url),
        Task::Idle => ActionView::Idle,
    }
}

/// What a reporter is to do for a window, given whether it holds a key to sign
/// with: without one it can neither close a window nor hand in a quote.
pub open spec fn signed_action(can_sign: bool, action: ActionView) -> Result<
    ActionView,
    SubmitError,
> {
    if action is Idle || can_sign {
        Ok(action)
    } else {
        Err(SubmitError::NoLocalIdentity)
    }
}

/// What a reporter does for a window, or why it cannot, in specifications.
pub open spec fn planned(r: Result<Action, SubmitError>) -> Result<ActionView, SubmitError> {
    match r {
        Ok(action) => Ok(action@),
        Err(e) => Err(e),
    }
}

/// Whether a reporter can hand calls to the ledger at all.
pub fn check_identity(can_sign: bool) -> (r: Result<(), SubmitError>)
    ensures
        r == if can_sign {
            Ok::<(), SubmitError>(())
        } else {
            Err::<(), SubmitError>(SubmitError::NoLocalIdentity)
        },
{
    if can_sign {
        Ok(())
    } else {
        Err(SubmitError::NoLocalIdentity)
    }
}

/// What is reported of a call that was signed with one key: it was sent, or it
/// could not be sent. A call that could not be sent is not sent again.
pub fn transmission_result(sent: bool) -> (r: Result<(), SubmitError>)
    ensures
        r == if sent {
            Ok::<(), SubmitError>(())
        } else {
            Err::<(), SubmitError>(SubmitError::TransmissionError)
        },
{
    if sent {
        Ok(())
    } else {
        Err(SubmitError::TransmissionError)
    }
}

/// Reduces the observations of a window that is due and says which call closes
/// it. A reporter without a key to sign with gets `NoLocalIdentity`.
pub fn calc_and_submit_avg_price<AccountId>(
    can_sign: bool,
    fetcher: &Fetcher<u64>,
    price_points: &Vec<FetchedPrice<AccountId>>,
) -> (r: Result<Call, SubmitError>)
    ensures
        !can_sign ==> r == Err::<Call, SubmitError>(SubmitError::NoLocalIdentity),
        can_sign ==> r is Ok && r->Ok_0@ == closing_call(
            fetcher@.symbol,
            observation_prices(observations_view(price_points@)),
        ),
{
    match check_identity(can_sign) {
        Ok(()) => {},
        Err(e) => {
            return Err(e);
        },
    }
    match calc_avg_price(price_points) {
        Ok(avg_price) => Ok(Call::SubmitNewAvgPrice(copy_bytes(&fetcher.symbol), avg_price)),
        Err(_) => Ok(Call::CloseFetcher(copy_bytes(&fetcher.symbol))),
    }
}

/// Says where the quote for a window is to be fetched from. A reporter without
/// a key to sign with gets `NoLocalIdentity`, and fetches nothing.
pub fn fetch_price_and_submit(can_sign: bool, fetcher: &Fetcher<u64>) -> (r: Result<
    Vec<u8>,
    SubmitError,
>)
    ensures
        !can_sign ==> r == Err::<Vec<u8>, SubmitError>(SubmitError::NoLocalIdentity),
        can_sign ==> r is Ok && r->Ok_0@ == fetcher@.url,
{
    match check_identity(can_sign) {
        Ok(()) => Ok(copy_bytes(&fetcher.url)),
        Err(e) => Err(e),
    }
}

/// The call that hands a fetched quote in. A fetch that failed hands nothing
/// in, and its error is passed on.
pub fn submit_fetched_price(fetched: Result<DiaPriceRecord, FetchError>) -> (r: Result<
    Call,
    FetchError,
>)
    ensures
        match parsed_view(fetched) {
            Ok(record) => r is Ok && r->Ok_0@ == CallView::SubmitNewPrice(record),
            Err(e) => r == Err::<Call, FetchError>(e),
        },
{
    match fetched {
        Ok(record) => Ok(Call::SubmitNewPrice(record)),
        Err(e) => Err(e),
    }
}

/// Goes through the open windows at the tick `block_number` and says, window by
/// window in the order in which the ledger lists them, what the reporter is to
/// do.
pub fn offchain_worker<AccountId: Copy>(
    ledger: &Ledger<AccountId>,
    can_sign: bool,
    block_number: u64,
    grace_period: u64,
) -> (plan: Vec<Result<Action, SubmitError>>)
    requires
        ledger.wf(),
        grace_period > 0,
    ensures
        plan.len() == ledger.open_symbols().len(),
        forall|i: int|
            0 <= i < plan.len() ==> planned(#[trigger] plan[i]) == signed_action(
                can_sign,
                action_of(ledger@, ledger.open_symbols()[i], block_number, grace_period),
            ),
{
    let mut plan: Vec<Result<Action, SubmitError>> = Vec::new();
    let count: usize = ledger.open_count();
    let mut at: usize = 0;
    while at < count
        invariant
            ledger.wf(),
            grace_period > 0,
            count == ledger.open_symbols().len(),
            at <= count,
            plan.len() == at,
            forall|i: int|
                0 <= i < at ==> planned(#[trigger] plan[i]) == signed_action(
                    can_sign,
                    action_of(ledger@, ledger.open_symbols()[i], block_number, grace_period),
                ),
        decreases count - at,
    {
        let fetcher = ledger.fetcher_at(at);
        let step: Result<Action, SubmitError> = match task_for(
            fetcher,
            block_number,
            grace_period,
        ) {
            Task::Aggregate => {
                let price_points = ledger.fetched_prices_at(at);
                match calc_and_submit_avg_price(can_sign, fetcher, price_points) {
                    Ok(call) => Ok(Action::Submit(call)),
                    Err(e) => Err(e),
                }
            },
            Task::Fetch => match fetch_price_and_submit(can_sign, fetcher) {
                Ok(url) => Ok(Action::Fetch(url)),
                Err(e) => Err(e),
            },
            Task::Idle => Ok(Action::Idle),
        };
        plan.push(step);
        at += 1;
    }
    plan
}

} // verus!
