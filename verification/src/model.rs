//! The ledger as a mathematical value, and what each call does to it.
//!
//! The ledger keeps, by symbol, the open fetch windows, the observations of each
//! open window in the order of their submission, and the last aggregated price.
//! A call either fails and leaves the ledger as it is, or succeeds, changes the
//! ledger and gives notice of the change.

use vstd::prelude::*;
use crate::aggregate::observation_prices;
use crate::error::Error;
use crate::record::{AggregatedPriceView, DiaPriceRecordView, FetchedPriceView, FetcherView};

verus! {

/// The notice that a call gives of what it did.
pub enum EventView<AccountId> {
    /// A window was opened: by whom, for which symbol, when.
    NewFetcher(AccountId, Seq<u8>, u64),
    /// An observation was recorded: by whom, for which symbol, when, the price.
    NewPricePoint(AccountId, Seq<u8>, u64, u128),
    /// A window was closed and its mean published: by whom, for which symbol,
    /// when, the mean.
    NewAvgPrice(AccountId, Seq<u8>, u64, u128),
    /// A window was closed and no price published: by whom, for which symbol,
    /// when.
    FetcherClosed(AccountId, Seq<u8>, u64),
}

/// A call against the ledger.
pub enum CallView {
    /// Open a window for the symbol.
    StartFetcher(Seq<u8>),
    /// Record the quote as an observation.
    SubmitNewPrice(DiaPriceRecordView),
    /// Publish the price for the symbol and close its window.
    SubmitNewAvgPrice(Seq<u8>, u128),
    /// Close the window of the symbol and publish nothing.
    CloseFetcher(Seq<u8>),
}

/// The ledger in specifications.
pub struct LedgerView<AccountId> {
    /// The open windows.
    pub fetchers: Map<Seq<u8>, FetcherView<u64>>,
    /// The observations of each open window, oldest first.
    pub fetched_prices: Map<Seq<u8>, Seq<FetchedPriceView<AccountId>>>,
    /// The last aggregated price of each symbol that has one.
    pub avg_prices: Map<Seq<u8>, AggregatedPriceView<AccountId>>,
}

/// A ledger after a call, and what the call returned.
pub type Outcome<AccountId> = (LedgerView<AccountId>, Result<EventView<AccountId>, Error>);

impl<AccountId> LedgerView<AccountId> {
    /// A ledger with nothing in it.
    pub open spec fn empty() -> Self {
        LedgerView {
            fetchers: Map::empty(),
            fetched_prices: Map::empty(),
            avg_prices: Map::empty(),
        }
    }

    /// What holds of every ledger: observations are kept for the open windows
    /// and for no other symbol, and each record stands under its own symbol.
    pub open spec fn wf(self) -> bool {
        &&& self.fetchers.dom() == self.fetched_prices.dom()
        &&& forall|k: Seq<u8>| #[trigger]
            self.fetchers.contains_key(k) ==> self.fetchers[k].symbol == k
        &&& forall|k: Seq<u8>, i: int|
            self.fetched_prices.contains_key(k) && 0 <= i < self.fetched_prices[k].len()
                ==> (#[trigger] self.fetched_prices[k][i]).symbol == k
        &&& forall|k: Seq<u8>| #[trigger]
            self.avg_prices.contains_key(k) ==> self.avg_prices[k].symbol == k
    }

    /// Opens a window for `symbol`, to be closed from `now + window_length` on.
    ///
    /// Fails where a window for the symbol is open, and where the symbol has
    /// no source.
    pub open spec fn start_fetcher(
        self,
        sources: Map<Seq<u8>, Seq<u8>>,
        window_length: u64,
        who: AccountId,
        symbol: Seq<u8>,
        now: u64,
    ) -> Outcome<AccountId> {
        if self.fetchers.contains_key(symbol) {
            (self, Err(Error::FetcherAlreadyExist))
        } else if !sources.contains_key(symbol) {
            (self, Err(Error::SymbolNotFound))
        } else {
            (
                LedgerView {
                    fetchers: self.fetchers.insert(
                        symbol,
                        FetcherView {
                            symbol,
                            url: sources[symbol],
                            end_fetching_at: (now + window_length) as u64,
                        },
                    ),
                    fetched_prices: self.fetched_prices.insert(symbol, Seq::empty()),
                    avg_prices: self.avg_prices,
                },
                Ok(EventView::NewFetcher(who, symbol, now)),
            )
        }
    }

    /// Records `record` as the newest observation of its symbol's window.
    ///
    /// Fails where no window for the symbol is open.
    pub open spec fn submit_new_price(
        self,
        who: AccountId,
        record: DiaPriceRecordView,
        now: u64,
    ) -> Outcome<AccountId> {
        if !self.fetchers.contains_key(record.symbol) {
            (self, Err(Error::FetcherNotFound))
        } else {
            (
                LedgerView {
                    fetchers: self.fetchers,
                    fetched_prices: self.fetched_prices.insert(
                        record.symbol,
                        self.fetched_prices[record.symbol].push(
                            FetchedPriceView {
                                price: record.price,
                                time: record.time,
                                symbol: record.symbol,
                                author: who,
                            },
                        ),
                    ),
                    avg_prices: self.avg_prices,
                },
                Ok(EventView::NewPricePoint(who, record.symbol, now, record.price)),
            )
        }
    }

    /// The ledger without the window of `symbol` and without its observations.
    pub open spec fn close(self, symbol: Seq<u8>) -> Self {
        LedgerView {
            fetchers: self.fetchers.remove(symbol),
            fetched_prices: self.fetched_prices.remove(symbol),
            avg_prices: self.avg_prices,
        }
    }

    /// Publishes `avg_price` as the price of `symbol` and closes its window,
    /// both at once.
    ///
    /// Fails where no window for the symbol is open.
    pub open spec fn submit_new_avg_price(
        self,
        who: AccountId,
        symbol: Seq<u8>,
        avg_price: u128,
        now: u64,
    ) -> Outcome<AccountId> {
        if !self.fetchers.contains_key(symbol) {
            (self, Err(Error::FetcherNotFound))
        } else {
            (
                LedgerView {
                    fetchers: self.fetchers.remove(symbol),
                    fetched_prices: self.fetched_prices.remove(symbol),
                    avg_prices: self.avg_prices.insert(
                        symbol,
                        AggregatedPriceView {
                            symbol,
                            as_of: now,
                            price: avg_price,
                            published_by: who,
                        },
                    ),
                },
                Ok(EventView::NewAvgPrice(who, symbol, now, avg_price)),
            )
        }
    }

    /// Closes the window of `symbol` and publishes nothing.
    ///
    /// Fails where no window for the symbol is open.
    pub open spec fn close_fetcher(self, who: AccountId, symbol: Seq<u8>, now: u64) -> Outcome<
        AccountId,
    > {
        if !self.fetchers.contains_key(symbol) {
            (self, Err(Error::FetcherNotFound))
        } else {
            (self.close(symbol), Ok(EventView::FetcherClosed(who, symbol, now)))
        }
    }

    /// Carries out `call`.
    pub open spec fn dispatch(
        self,
        sources: Map<Seq<u8>, Seq<u8>>,
        window_length: u64,
        who: AccountId,
        call: CallView,
        now: u64,
    ) -> Outcome<AccountId> {
        match call {
            CallView::StartFetcher(symbol) => self.start_fetcher(
                sources,
                window_length,
                who,
                symbol,
                now,
            ),
            CallView::SubmitNewPrice(record) => self.submit_new_price(who, record, now),
            CallView::SubmitNewAvgPrice(symbol, price) => self.submit_new_avg_price(
                who,
                symbol,
                price,
                now,
            ),
            CallView::CloseFetcher(symbol) => self.close_fetcher(who, symbol, now),
        }
    }

    /// The prices that the window of `symbol` has collected, oldest first.
    pub open spec fn prices(self, symbol: Seq<u8>) -> Seq<u128> {
        observation_prices(self.fetched_prices[symbol])
    }
}

} // verus!
