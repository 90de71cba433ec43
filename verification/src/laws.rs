//! What holds of the ledger whatever calls reach it, in whatever order.
//!
//! Reporters share nothing but the ledger, and the ledger carries out their
//! calls one after another. So each law speaks of one call, or of two calls in
//! a row, on any ledger that is in order.

use vstd::prelude::*;
use crate::aggregate::{lemma_mean_is_floor_of_sum, total};
use crate::error::Error;
use crate::model::{CallView, EventView, LedgerView};
use crate::scheduler::{closing_call, task_of, Task};

verus! {

/// A ledger that is in order stays in order after every call: observations are
/// kept for the open windows only, and every record stands under its own
/// symbol.
pub proof fn law_calls_keep_the_ledger_in_order<AccountId>(
    ledger: LedgerView<AccountId>,
    sources: Map<Seq<u8>, Seq<u8>>,
    window_length: u64,
    who: AccountId,
    call: CallView,
    now: u64,
)
    requires
        ledger.wf(),
    ensures
        ledger.dispatch(sources, window_length, who, call, now).0.wf(),
{
    let after = ledger.dispatch(sources, window_length, who, call, now).0;
    assert(after.fetchers.dom() =~= after.fetched_prices.dom());
}

/// A call that fails changes nothing.
pub proof fn law_failed_calls_change_nothing<AccountId>(
    ledger: LedgerView<AccountId>,
    sources: Map<Seq<u8>, Seq<u8>>,
    window_length: u64,
    who: AccountId,
    call: CallView,
    now: u64,
)
    ensures
        ledger.dispatch(sources, window_length, who, call, now).1 is Err ==> ledger.dispatch(
            sources,
            window_length,
            who,
            call,
            now,
        ).0 == ledger,
{
}

/// While a window for a symbol is open, opening one for that symbol fails with
/// `FetcherAlreadyExist` and changes nothing.
pub proof fn law_open_fails_while_open<AccountId>(
    ledger: LedgerView<AccountId>,
    sources: Map<Seq<u8>, Seq<u8>>,
    window_length: u64,
    who: AccountId,
    symbol: Seq<u8>,
    now: u64,
)
    requires
        ledger.fetchers.contains_key(symbol),
    ensures
        ledger.start_fetcher(sources, window_length, who, symbol, now) == (
            ledger,
            Err::<EventView<AccountId>, Error>(Error::FetcherAlreadyExist),
        ),
{
}

/// Of two calls in a row that open a window for one symbol, at most the first
/// succeeds: if it does, the second fails with `FetcherAlreadyExist` and
/// leaves the ledger as the first left it.
pub proof fn law_open_is_exclusive<AccountId>(
    ledger: LedgerView<AccountId>,
    sources: Map<Seq<u8>, Seq<u8>>,
    window_length: u64,
    first: AccountId,
    second: AccountId,
    symbol: Seq<u8>,
    first_at: u64,
    second_at: u64,
)
    ensures
        ({
            let opened = ledger.start_fetcher(sources, window_length, first, symbol, first_at);
            let again = opened.0.start_fetcher(sources, window_length, second, symbol, second_at);
            opened.1 is Ok ==> again == (
                opened.0,
                Err::<EventView<AccountId>, Error>(Error::FetcherAlreadyExist),
            )
        }),
{
}

/// The observations of an open window only grow. After any call, either the
/// window is still open, with the observations that it had and at most one
/// more at their end, or the window is closed and its observations are gone
/// with it.
pub proof fn law_observations_only_grow<AccountId>(
    ledger: LedgerView<AccountId>,
    sources: Map<Seq<u8>, Seq<u8>>,
    window_length: u64,
    who: AccountId,
    call: CallView,
    now: u64,
    symbol: Seq<u8>,
)
    requires
        ledger.wf(),
        ledger.fetchers.contains_key(symbol),
    ensures
        ({
            let before = ledger.fetched_prices[symbol];
            let after = ledger.dispatch(sources, window_length, who, call, now).0;
            ||| {
                &&& after.fetchers.contains_key(symbol)
                &&& after.fetchers[symbol] == ledger.fetchers[symbol]
                &&& after.fetched_prices.contains_key(symbol)
                &&& before.is_prefix_of(after.fetched_prices[symbol])
                &&& after.fetched_prices[symbol].len() <= before.len() + 1
            }
            ||| {
                &&& !after.fetchers.contains_key(symbol)
                &&& !after.fetched_prices.contains_key(symbol)
            }
        }),
{
    let before = ledger.fetched_prices[symbol];
    let after = ledger.dispatch(sources, window_length, who, call, now).0;
    assert(ledger.fetched_prices.dom().contains(symbol));
    if after.fetchers.contains_key(symbol) {
        assert(before.is_prefix_of(after.fetched_prices[symbol])) by {
            assert(before =~= after.fetched_prices[symbol].subrange(0, before.len() as int));
        }
    }
}

/// Only a submitted observation makes a window's observations grow, and it is
/// the one that stands at their end afterwards.
pub proof fn law_only_submission_adds<AccountId>(
    ledger: LedgerView<AccountId>,
    sources: Map<Seq<u8>, Seq<u8>>,
    window_length: u64,
    who: AccountId,
    call: CallView,
    now: u64,
    symbol: Seq<u8>,
)
    requires
        ledger.wf(),
        ledger.fetchers.contains_key(symbol),
    ensures
        ({
            let before = ledger.fetched_prices[symbol];
            let after = ledger.dispatch(sources, window_length, who, call, now).0;
            after.fetched_prices.contains_key(symbol) && after.fetched_prices[symbol].len()
                > before.len() ==> {
                &&& call matches CallView::SubmitNewPrice(record)
                &&& record.symbol == symbol
                &&& after.fetched_prices[symbol].last().price == record.price
                &&& after.fetched_prices[symbol].last().author == who
            }
        }),
{
    assert(ledger.fetched_prices.dom().contains(symbol));
}

/// Closing a window publishes its price and removes the window and its
/// observations at once: after the call the symbol has the price and no
/// window.
pub proof fn law_publish_closes_the_window<AccountId>(
    ledger: LedgerView<AccountId>,
    who: AccountId,
    symbol: Seq<u8>,
    price: u128,
    now: u64,
)
    requires
        ledger.fetchers.contains_key(symbol),
    ensures
        ({
            let published = ledger.submit_new_avg_price(who, symbol, price, now);
            &&& published.1 == Ok::<EventView<AccountId>, Error>(
                EventView::NewAvgPrice(who, symbol, now, price),
            )
            &&& !published.0.fetchers.contains_key(symbol)
            &&& !published.0.fetched_prices.contains_key(symbol)
            &&& published.0.avg_prices.contains_key(symbol)
            &&& published.0.avg_prices[symbol].price == price
            &&& published.0.avg_prices[symbol].as_of == now
            &&& published.0.avg_prices[symbol].published_by == who
        }),
{
}

/// The price that a reporter publishes for a window with observations is their
/// mean; where the sum of the observed prices fits in 128 bits, that is the
/// floor of the sum divided by the count. Afterwards the window and its
/// observations are gone.
pub proof fn law_closing_publishes_the_mean<AccountId>(
    ledger: LedgerView<AccountId>,
    sources: Map<Seq<u8>, Seq<u8>>,
    window_length: u64,
    who: AccountId,
    symbol: Seq<u8>,
    now: u64,
)
    requires
        ledger.fetchers.contains_key(symbol),
        ledger.prices(symbol).len() > 0,
        total(ledger.prices(symbol)) <= u128::MAX,
    ensures
        ({
            let prices = ledger.prices(symbol);
            let call = closing_call(symbol, prices);
            let closed = ledger.dispatch(sources, window_length, who, call, now);
            &&& closed.1 is Ok
            &&& closed.0.avg_prices.contains_key(symbol)
            &&& closed.0.avg_prices[symbol].price == total(prices) / prices.len()
            &&& !closed.0.fetchers.contains_key(symbol)
            &&& !closed.0.fetched_prices.contains_key(symbol)
        }),
{
    lemma_mean_is_floor_of_sum(ledger.prices(symbol));
}

/// A window without observations is closed without a price: the reporter's
/// call removes the window and leaves the published prices as they are.
pub proof fn law_closing_empty_publishes_nothing<AccountId>(
    ledger: LedgerView<AccountId>,
    sources: Map<Seq<u8>, Seq<u8>>,
    window_length: u64,
    who: AccountId,
    symbol: Seq<u8>,
    now: u64,
)
    requires
        ledger.fetchers.contains_key(symbol),
        ledger.prices(symbol).len() == 0,
    ensures
        ({
            let call = closing_call(symbol, ledger.prices(symbol));
            let closed = ledger.dispatch(sources, window_length, who, call, now);
            &&& closed.1 is Ok
            &&& closed.0.avg_prices == ledger.avg_prices
            &&& !closed.0.fetchers.contains_key(symbol)
            &&& !closed.0.fetched_prices.contains_key(symbol)
        }),
{
}

/// Of two reporters that close one window, one after the other, the first
/// publishes and the second fails with `FetcherNotFound`; the ledger stays as
/// the first left it, with the first one's price.
pub proof fn law_close_race_has_one_winner<AccountId>(
    ledger: LedgerView<AccountId>,
    first: AccountId,
    second: AccountId,
    symbol: Seq<u8>,
    first_price: u128,
    second_price: u128,
    first_at: u64,
    second_at: u64,
)
    requires
        ledger.fetchers.contains_key(symbol),
    ensures
        ({
            let won = ledger.submit_new_avg_price(first, symbol, first_price, first_at);
            let lost = won.0.submit_new_avg_price(second, symbol, second_price, second_at);
            &&& won.1 is Ok
            &&& lost.1 == Err::<EventView<AccountId>, Error>(Error::FetcherNotFound)
            &&& lost.0 == won.0
            &&& lost.0.avg_prices[symbol].price == first_price
            &&& lost.0.avg_prices[symbol].published_by == first
        }),
{
}

/// A window that is due is closed, whatever the grace period: closing comes
/// before fetching, so that no window is closed and added to at one tick.
pub proof fn law_closing_comes_first(end_fetching_at: u64, block_number: u64, grace_period: u64)
    ensures
        task_of(end_fetching_at, block_number, grace_period) == Task::Aggregate
            <==> end_fetching_at <= block_number,
        task_of(end_fetching_at, block_number, grace_period) == Task::Fetch ==> block_number
            < end_fetching_at,
{
}

} // verus!
