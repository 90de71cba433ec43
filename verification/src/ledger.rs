//! The ledger: the open fetch windows, their observations and the aggregated
//! prices, each kept by symbol, and the calls that change them.

use vstd::prelude::*;
use vstd::utf8::encode_utf8;
use crate::aggregate::observations_view;
use crate::error::Error;
use crate::bytes::{bytes_equal, copy_bytes};
use crate::model::{CallView, EventView, LedgerView};
use crate::record::{
    de_string_to_bytes, AggregatedPrice, DiaPriceRecord, FetchedPrice, Fetcher,
};
use crate::symbol_map::SymbolMap;
use crate::{Price, Symbol};

verus! {

/// The oracle's settings. They are fixed when the oracle starts.
pub struct Config {
    /// The symbols that may be fetched, each with the address of its source.
    pub sources: SymbolMap<Vec<u8>>,
    /// The number of ticks for which a window stays open.
    pub window_length: u64,
    /// A reporter fetches at the ticks that this number divides.
    pub grace_period: u64,
}

/// The number of ticks for which a window stays open unless set otherwise.
pub const DEFAULT_WINDOW_LENGTH: u64 = 600;

impl Config {
    /// The settings can be used: the grace period is not zero.
    pub open spec fn wf(&self) -> bool {
        &&& self.sources.wf()
        &&& self.grace_period > 0
    }

    /// The address of each symbol's source.
    pub open spec fn source_urls(&self) -> Map<Seq<u8>, Seq<u8>> {
        self.sources.entries().map_values(|url: Vec<u8>| url@)
    }

    /// Settings with no symbol to fetch yet.
    pub fn new(window_length: u64, grace_period: u64) -> (config: Config)
        requires
            grace_period > 0,
        ensures
            config.wf(),
            config.window_length == window_length,
            config.grace_period == grace_period,
            config.source_urls() == Map::<Seq<u8>, Seq<u8>>::empty(),
    {
        let config = Config { sources: SymbolMap::new(), window_length, grace_period };
        assert(config.source_urls() =~= Map::<Seq<u8>, Seq<u8>>::empty());
        config
    }

    /// The settings that track `ETH` alone, with its quotes read from
    /// diadata.org and with windows of 600 ticks.
    pub fn dia(grace_period: u64) -> (config: Config)
        requires
            grace_period > 0,
        ensures
            config.wf(),
            config.window_length == DEFAULT_WINDOW_LENGTH,
            config.grace_period == grace_period,
            config.source_urls() == Map::<Seq<u8>, Seq<u8>>::empty().insert(
                encode_utf8("ETH"@),
                encode_utf8("https://api.diadata.org/v1/quotation/ETH"@),
            ),
    {
        let mut config = Config::new(DEFAULT_WINDOW_LENGTH, grace_period);
        let _ = config.track(
            de_string_to_bytes("ETH"),
            de_string_to_bytes("https://api.diadata.org/v1/quotation/ETH"),
        );
        config
    }

    /// Lets `symbol` be fetched from `url`. A symbol that has a source keeps it:
    /// the call then changes nothing and returns `false`.
    pub fn track(&mut self, symbol: Symbol, url: Vec<u8>) -> (added: bool)
        requires
            old(self).wf(),
        ensures
            final(self).wf(),
            final(self).window_length == old(self).window_length,
            final(self).grace_period == old(self).grace_period,
            added == !old(self).source_urls().contains_key(symbol@),
            added ==> final(self).source_urls() == old(self).source_urls().insert(symbol@, url@),
            !added ==> final(self).source_urls() == old(self).source_urls(),
    {
        match self.sources.position(symbol.as_slice()) {
            Some(_) => false,
            None => {
                let ghost before = self.source_urls();
                self.sources.insert(symbol, url);
                assert(self.source_urls() =~= before.insert(symbol@, url@));
                true
            },
        }
    }

    /// The address of the source of `symbol`, if it has one.
    pub fn source_of(&self, symbol: &[u8]) -> (url: Option<&Vec<u8>>)
        requires
            self.wf(),
        ensures
            url is Some <==> self.source_urls().contains_key(symbol@),
            url matches Some(u) ==> u@ == self.source_urls()[symbol@],
    {
        match self.sources.position(symbol) {
            Some(i) => Some(self.sources.value_at(i)),
            None => None,
        }
    }
}

/// The notice that a call gives of what it did.
#[derive(Debug, PartialEq, Eq)]
pub enum Event<AccountId> {
    /// A window was opened: by whom, for which symbol, when.
    NewFetcher(AccountId, Symbol, u64),
    /// An observation was recorded: by whom, for which symbol, when, the price.
    NewPricePoint(AccountId, Symbol, u64, Price),
    /// A window was closed and its mean published: by whom, for which symbol,
    /// when, the mean.
    NewAvgPrice(AccountId, Symbol, u64, Price),
    /// A window was closed and no price published: by whom, for which symbol,
    /// when.
    FetcherClosed(AccountId, Symbol, u64),
}

impl<AccountId> View for Event<AccountId> {
    type V = EventView<AccountId>;

    open spec fn view(&self) -> EventView<AccountId> {
        match self {
            Event::NewFetcher(who, symbol, now) => EventView::NewFetcher(*who, symbol@, *now),
            Event::NewPricePoint(who, symbol, now, price) => EventView::NewPricePoint(
                *who,
                symbol@,
                *now,
                *price,
            ),
            Event::NewAvgPrice(who, symbol, now, price) => EventView::NewAvgPrice(
                *who,
                symbol@,
                *now,
                *price,
            ),
            Event::FetcherClosed(who, symbol, now) => EventView::FetcherClosed(
                *who,
                symbol@,
                *now,
            ),
        }
    }
}

/// A call against the ledger.
#[derive(Debug, PartialEq, Eq)]
pub enum Call {
    /// Open a window for the symbol.
    StartFetcher(Symbol),
    /// Record the quote as an observation.
    SubmitNewPrice(DiaPriceRecord),
    /// Publish the price for the symbol and close its window.
    SubmitNewAvgPrice(Symbol, Price),
    /// Close the window of the symbol and publish nothing.
    CloseFetcher(Symbol),
}

impl View for Call {
    type V = CallView;

    open spec fn view(&self) -> CallView {
        match self {
            Call::StartFetcher(symbol) => CallView::StartFetcher(symbol@),
            Call::SubmitNewPrice(record) => CallView::SubmitNewPrice(record@),
            Call::SubmitNewAvgPrice(symbol, price) => CallView::SubmitNewAvgPrice(symbol@, *price),
            Call::CloseFetcher(symbol) => CallView::CloseFetcher(symbol@),
        }
    }
}

impl Call {
    /// A copy of the call.
    pub fn duplicate(&self) -> (copy: Self)
        ensures
            copy@ == self@,
    {
        match self {
            Call::StartFetcher(symbol) => Call::StartFetcher(copy_bytes(symbol)),
            Call::SubmitNewPrice(record) => Call::SubmitNewPrice(record.duplicate()),
            Call::SubmitNewAvgPrice(symbol, price) => Call::SubmitNewAvgPrice(
                copy_bytes(symbol),
                *price,
            ),
            Call::CloseFetcher(symbol) => Call::CloseFetcher(copy_bytes(symbol)),
        }
    }
}

/// What a call returned, in specifications.
pub open spec fn returned<AccountId>(r: Result<Event<AccountId>, Error>) -> Result<
    EventView<AccountId>,
    Error,
> {
    match r {
        Ok(event) => Ok(event@),
        Err(e) => Err(e),
    }
}

/// An open window with the observations that it has collected.
struct OpenWindow<AccountId> {
    /// The window.
    fetcher: Fetcher<u64>,
    /// Its observations, oldest first.
    prices: Vec<FetchedPrice<AccountId>>,
}

/// The ledger.
pub struct Ledger<AccountId> {
    windows: SymbolMap<OpenWindow<AccountId>>,
    averages: SymbolMap<AggregatedPrice<AccountId>>,
}

impl<AccountId> View for Ledger<AccountId> {
    type V = LedgerView<AccountId>;

    closed spec fn view(&self) -> LedgerView<AccountId> {
        LedgerView {
            fetchers: self.windows.entries().map_values(|w: OpenWindow<AccountId>| w.fetcher@),
            fetched_prices: self.windows.entries().map_values(
                |w: OpenWindow<AccountId>| observations_view(w.prices@),
            ),
            avg_prices: self.averages.entries().map_values(|a: AggregatedPrice<AccountId>| a@),
        }
    }
}

impl<AccountId: Copy> Ledger<AccountId> {
    /// The ledger is in order: no symbol has two windows or two prices, and
    /// every record stands under its own symbol.
    pub closed spec fn wf(&self) -> bool {
        &&& self.windows.wf()
        &&& self.averages.wf()
        &&& self@.wf()
    }

    /// The symbols of the open windows, in the order in which the ledger lists
    /// them.
    pub closed spec fn open_symbols(&self) -> Seq<Seq<u8>> {
        self.windows.symbols()
    }

    /// The symbols that have an aggregated price, in the order in which the
    /// ledger lists them.
    pub closed spec fn priced_symbols(&self) -> Seq<Seq<u8>> {
        self.averages.symbols()
    }

    /// A ledger that is in order holds at most one window for each symbol, and
    /// lists the symbols that have one, each once.
    pub proof fn lemma_wf(&self)
        requires
            self.wf(),
        ensures
            self@.wf(),
            self.open_symbols().no_duplicates(),
            forall|k: Seq<u8>| self.open_symbols().contains(k) <==> self@.fetchers.contains_key(k),
            self.priced_symbols().no_duplicates(),
            forall|k: Seq<u8>|
                self.priced_symbols().contains(k) <==> self@.avg_prices.contains_key(k),
    {
    }

    /// A ledger with nothing in it.
    pub fn new() -> (ledger: Self)
        ensures
            ledger.wf(),
            ledger@ == LedgerView::<AccountId>::empty(),
            ledger.open_symbols() == Seq::<Seq<u8>>::empty(),
    {
        let ledger = Ledger { windows: SymbolMap::new(), averages: SymbolMap::new() };
        assert(ledger@.fetchers =~= Map::empty());
        assert(ledger@.fetched_prices =~= Map::empty());
        assert(ledger@.avg_prices =~= Map::empty());
        ledger
    }

    /// The number of open windows.
    pub fn open_count(&self) -> (n: usize)
        requires
            self.wf(),
        ensures
            n == self.open_symbols().len(),
    {
        self.windows.len()
    }

    /// The open window at place `i` of the ledger's list.
    pub fn fetcher_at(&self, i: usize) -> (fetcher: &Fetcher<u64>)
        requires
            self.wf(),
            i < self.open_symbols().len(),
        ensures
            self@.fetchers.contains_key(self.open_symbols()[i as int]),
            fetcher@ == self@.fetchers[self.open_symbols()[i as int]],
            fetcher@.symbol == self.open_symbols()[i as int],
    {
        let _ = self.windows.symbol_at(i);
        &self.windows.value_at(i).fetcher
    }

    /// The observations of the open window at place `i` of the ledger's list.
    pub fn fetched_prices_at(&self, i: usize) -> (prices: &Vec<FetchedPrice<AccountId>>)
        requires
            self.wf(),
            i < self.open_symbols().len(),
        ensures
            self@.fetched_prices.contains_key(self.open_symbols()[i as int]),
            observations_view(prices@) == self@.fetched_prices[self.open_symbols()[i as int]],
    {
        let _ = self.windows.symbol_at(i);
        &self.windows.value_at(i).prices
    }

    /// The open window of `symbol`, if there is one.
    pub fn fetcher(&self, symbol: &[u8]) -> (fetcher: Option<&Fetcher<u64>>)
        requires
            self.wf(),
        ensures
            fetcher is Some <==> self@.fetchers.contains_key(symbol@),
            fetcher matches Some(f) ==> f@ == self@.fetchers[symbol@],
    {
        match self.windows.position(symbol) {
            Some(i) => Some(&self.windows.value_at(i).fetcher),
            None => None,
        }
    }

    /// The observations that the window of `symbol` has collected, if it is
    /// open.
    pub fn fetched_prices(&self, symbol: &[u8]) -> (prices: Option<&Vec<FetchedPrice<AccountId>>>)
        requires
            self.wf(),
        ensures
            prices is Some <==> self@.fetched_prices.contains_key(symbol@),
            prices matches Some(p) ==> observations_view(p@) == self@.fetched_prices[symbol@],
    {
        match self.windows.position(symbol) {
            Some(i) => Some(&self.windows.value_at(i).prices),
            None => None,
        }
    }

    /// The last aggregated price of `symbol`, if it has one.
    pub fn avg_price(&self, symbol: &[u8]) -> (price: Option<&AggregatedPrice<AccountId>>)
        requires
            self.wf(),
        ensures
            price is Some <==> self@.avg_prices.contains_key(symbol@),
            price matches Some(p) ==> p@ == self@.avg_prices[symbol@],
    {
        match self.averages.position(symbol) {
            Some(i) => Some(self.averages.value_at(i)),
            None => None,
        }
    }

    /// The number of symbols that have an aggregated price.
    pub fn avg_count(&self) -> (n: usize)
        requires
            self.wf(),
        ensures
            n == self.priced_symbols().len(),
    {
        self.averages.len()
    }

    /// The aggregated price at place `i` of the ledger's list.
    pub fn avg_price_at(&self, i: usize) -> (price: &AggregatedPrice<AccountId>)
        requires
            self.wf(),
            i < self.priced_symbols().len(),
        ensures
            self@.avg_prices.contains_key(self.priced_symbols()[i as int]),
            price@ == self@.avg_prices[self.priced_symbols()[i as int]],
    {
        let _ = self.averages.symbol_at(i);
        self.averages.value_at(i)
    }

    /// Puts an open window with its observations into the ledger, as a stored
    /// ledger is read back. The window is turned down, and the ledger left as
    /// it is, where its symbol has a window already or one of the observations
    /// is for another symbol.
    pub fn insert_fetcher(&mut self, fetcher: Fetcher<u64>, prices: Vec<FetchedPrice<AccountId>>) -> (added:
        bool)
        requires
            old(self).wf(),
        ensures
            final(self).wf(),
            added == (!old(self)@.fetchers.contains_key(fetcher@.symbol) && forall|i: int|
                0 <= i < prices.len() ==> (#[trigger] prices[i])@.symbol == fetcher@.symbol),
            added ==> final(self)@ == (LedgerView {
                fetchers: old(self)@.fetchers.insert(fetcher@.symbol, fetcher@),
                fetched_prices: old(self)@.fetched_prices.insert(
                    fetcher@.symbol,
                    observations_view(prices@),
                ),
                avg_prices: old(self)@.avg_prices,
            }),
            added ==> final(self).open_symbols() == old(self).open_symbols().push(fetcher@.symbol),
            !added ==> final(self)@ == old(self)@ && final(self).open_symbols() == old(
                self,
            ).open_symbols(),
    {
        if self.windows.position(fetcher.symbol.as_slice()).is_some() {
            return false;
        }
        let mut i: usize = 0;
        while i < prices.len()
            invariant
                i <= prices.len(),
                *self == *old(self),
                self.wf(),
                forall|k: int| 0 <= k < i ==> (#[trigger] prices[k])@.symbol == fetcher@.symbol,
            decreases prices.len() - i,
        {
            if !bytes_equal(prices[i].symbol.as_slice(), fetcher.symbol.as_slice()) {
                return false;
            }
            i += 1;
        }
        let ghost before = self@;
        let key: Symbol = copy_bytes(&fetcher.symbol);
        let window = OpenWindow { fetcher, prices };
        self.windows.insert(key, window);
        proof {
            assert(self@.fetchers =~= before.fetchers.insert(fetcher@.symbol, fetcher@));
            assert(self@.fetched_prices =~= before.fetched_prices.insert(
                fetcher@.symbol,
                observations_view(prices@),
            ));
            assert(self@.avg_prices == before.avg_prices);
            assert forall|k: Seq<u8>, j: int|
                self@.fetched_prices.contains_key(k) && 0 <= j < self@.fetched_prices[k].len()
                    implies (#[trigger] self@.fetched_prices[k][j]).symbol == k by {
                if k == fetcher@.symbol {
                    assert(prices[j]@.symbol == k);
                } else {
                    assert(before.fetched_prices.contains_key(k));
                }
            }
        }
        true
    }

    /// Puts an aggregated price into the ledger, as a stored ledger is read
    /// back. The price is turned down where its symbol has a price already.
    pub fn insert_avg_price(&mut self, price: AggregatedPrice<AccountId>) -> (added: bool)
        requires
            old(self).wf(),
        ensures
            final(self).wf(),
            added == !old(self)@.avg_prices.contains_key(price@.symbol),
            added ==> final(self)@ == (LedgerView {
                fetchers: old(self)@.fetchers,
                fetched_prices: old(self)@.fetched_prices,
                avg_prices: old(self)@.avg_prices.insert(price@.symbol, price@),
            }),
            !added ==> final(self)@ == old(self)@,
            final(self).open_symbols() == old(self).open_symbols(),
    {
        if self.averages.position(price.symbol.as_slice()).is_some() {
            return false;
        }
        let ghost before = self@;
        let key: Symbol = copy_bytes(&price.symbol);
        self.averages.insert(key, price);
        proof {
            assert(self@.avg_prices =~= before.avg_prices.insert(price@.symbol, price@));
        }
        true
    }

    /// Opens a window for `symbol`, to be closed from `now + window_length` on.
    ///
    /// Fails with `FetcherAlreadyExist` where a window for the symbol is open,
    /// and with `SymbolNotFound` where the settings name no source for it. A
    /// call that fails leaves the ledger as it is.
    pub fn start_fetcher(&mut self, config: &Config, who: AccountId, symbol: &[u8], now: u64) -> (r:
        Result<Event<AccountId>, Error>)
        requires
            old(self).wf(),
            config.wf(),
            now + config.window_length <= u64::MAX,
        ensures
            final(self).wf(),
            (final(self)@, returned(r)) == old(self)@.start_fetcher(
                config.source_urls(),
                config.window_length,
                who,
                symbol@,
                now,
            ),
            r is Err ==> final(self).open_symbols() == old(self).open_symbols(),
            r is Ok ==> final(self).open_symbols() == old(self).open_symbols().push(symbol@),
    {
        if self.windows.position(symbol).is_some() {
            return Err(Error::FetcherAlreadyExist);
        }
        let url: Vec<u8> = match config.source_of(symbol) {
            Some(u) => copy_bytes(u),
            None => {
                return Err(Error::SymbolNotFound);
            },
        };
        let ghost before = self@;
        let key: Symbol = vstd::slice::slice_to_vec(symbol);
        let window = OpenWindow {
            fetcher: Fetcher {
                symbol: vstd::slice::slice_to_vec(symbol),
                url,
                end_fetching_at: now + config.window_length,
            },
            prices: Vec::new(),
        };
        self.windows.insert(key, window);
        proof {
            assert(observations_view(window.prices@) =~= Seq::empty());
            assert(self@.fetchers =~= before.fetchers.insert(symbol@, window.fetcher@));
            assert(self@.fetched_prices =~= before.fetched_prices.insert(symbol@, Seq::empty()));
            assert(self@.avg_prices == before.avg_prices);
        }
        Ok(Event::NewFetcher(who, vstd::slice::slice_to_vec(symbol), now))
    }

    /// Appends `price` to the observations of its symbol's window, which is
    /// open.
    pub fn add_new_price_to_list(&mut self, price: FetchedPrice<AccountId>)
        requires
            old(self).wf(),
            old(self)@.fetchers.contains_key(price@.symbol),
        ensures
            final(self).wf(),
            final(self)@.fetchers == old(self)@.fetchers,
            final(self)@.avg_prices == old(self)@.avg_prices,
            final(self)@.fetched_prices == old(self)@.fetched_prices.insert(
                price@.symbol,
                old(self)@.fetched_prices[price@.symbol].push(price@),
            ),
            final(self).open_symbols() == old(self).open_symbols(),
    {
        let ghost before = self@;
        let ghost k = price@.symbol;
        let at: usize = self.windows.position(price.symbol.as_slice()).unwrap();
        let spare = OpenWindow {
            fetcher: Fetcher { symbol: Vec::new(), url: Vec::new(), end_fetching_at: 0 },
            prices: Vec::new(),
        };
        let mut window = self.windows.replace_at(at, spare);
        let ghost old_window = window;
        window.prices.push(price);
        let _ = self.windows.replace_at(at, window);
        proof {
            assert(observations_view(window.prices@) =~= observations_view(
                old_window.prices@,
            ).push(price@));
            assert(self@.fetchers =~= before.fetchers);
            assert(self@.fetched_prices =~= before.fetched_prices.insert(
                k,
                before.fetched_prices[k].push(price@),
            ));
            assert(self@.avg_prices == before.avg_prices);
        }
    }

    /// Records `record` as the newest observation of its symbol's window.
    ///
    /// Fails with `FetcherNotFound` where no window for the symbol is open, and
    /// then leaves the ledger as it is.
    pub fn submit_new_price(&mut self, who: AccountId, record: DiaPriceRecord, now: u64) -> (r:
        Result<Event<AccountId>, Error>)
        requires
            old(self).wf(),
        ensures
            final(self).wf(),
            (final(self)@, returned(r)) == old(self)@.submit_new_price(who, record@, now),
            final(self).open_symbols() == old(self).open_symbols(),
    {
        if self.windows.position(record.symbol.as_slice()).is_none() {
            return Err(Error::FetcherNotFound);
        }
        let ghost before = self@;
        let symbol: Symbol = copy_bytes(&record.symbol);
        let price: Price = record.price;
        let new_price = FetchedPrice {
            price: record.price,
            time: record.time,
            symbol: record.symbol,
            author: who,
        };
        self.add_new_price_to_list(new_price);
        proof {
            assert(self@ == before.submit_new_price(who, record@, now).0);
        }
        Ok(Event::NewPricePoint(who, symbol, now, price))
    }

    /// Takes the window of `symbol`, which is open, out of the ledger, together
    /// with its observations, and returns both.
    pub fn close(&mut self, symbol: &[u8]) -> (closed: (Fetcher<u64>, Vec<FetchedPrice<AccountId>>))
        requires
            old(self).wf(),
            old(self)@.fetchers.contains_key(symbol@),
        ensures
            final(self).wf(),
            final(self)@ == old(self)@.close(symbol@),
            closed.0@ == old(self)@.fetchers[symbol@],
            observations_view(closed.1@) == old(self)@.fetched_prices[symbol@],
            final(self).open_symbols() == old(self).open_symbols().remove(
                old(self).open_symbols().index_of(symbol@),
            ),
    {
        let ghost before = self@;
        let ghost symbols_before = self.windows.symbols();
        let at: usize = self.windows.position(symbol).unwrap();
        proof {
            crate::symbol_map::lemma_index_of(symbols_before, self.windows.values(), at as int);
        }
        let (_, window) = self.windows.remove_at(at);
        proof {
            assert(self@.fetchers =~= before.fetchers.remove(symbol@));
            assert(self@.fetched_prices =~= before.fetched_prices.remove(symbol@));
            assert(self@.avg_prices == before.avg_prices);
        }
        (window.fetcher, window.prices)
    }

    /// Publishes `avg_price` as the price of `symbol` and closes its window,
    /// both at once.
    ///
    /// Fails with `FetcherNotFound` where no window for the symbol is open, and
    /// then leaves the ledger as it is.
    pub fn submit_new_avg_price(
        &mut self,
        who: AccountId,
        symbol: Symbol,
        avg_price: Price,
        now: u64,
    ) -> (r: Result<Event<AccountId>, Error>)
        requires
            old(self).wf(),
        ensures
            final(self).wf(),
            (final(self)@, returned(r)) == old(self)@.submit_new_avg_price(
                who,
                symbol@,
                avg_price,
                now,
            ),
            r is Err ==> final(self).open_symbols() == old(self).open_symbols(),
            r is Ok ==> final(self).open_symbols() == old(self).open_symbols().remove(
                old(self).open_symbols().index_of(symbol@),
            ),
    {
        if self.windows.position(symbol.as_slice()).is_none() {
            return Err(Error::FetcherNotFound);
        }
        let ghost before = self@;
        let _ = self.close(symbol.as_slice());
        let ghost closed = self@;
        match self.averages.position(symbol.as_slice()) {
            Some(i) => {
                let _ = self.averages.remove_at(i);
            },
            None => {},
        }
        let average = AggregatedPrice {
            symbol: copy_bytes(&symbol),
            as_of: now,
            price: avg_price,
            published_by: who,
        };
        self.averages.insert(copy_bytes(&symbol), average);
        proof {
            assert(self@.fetchers == closed.fetchers);
            assert(self@.fetched_prices == closed.fetched_prices);
            assert(self@.avg_prices =~= before.avg_prices.insert(symbol@, average@));
        }
        Ok(Event::NewAvgPrice(who, symbol, now, avg_price))
    }

    /// Closes the window of `symbol` and publishes nothing.
    ///
    /// Fails with `FetcherNotFound` where no window for the symbol is open, and
    /// then leaves the ledger as it is.
    pub fn close_fetcher(&mut self, who: AccountId, symbol: Symbol, now: u64) -> (r: Result<
        Event<AccountId>,
        Error,
    >)
        requires
            old(self).wf(),
        ensures
            final(self).wf(),
            (final(self)@, returned(r)) == old(self)@.close_fetcher(who, symbol@, now),
            r is Err ==> final(self).open_symbols() == old(self).open_symbols(),
            r is Ok ==> final(self).open_symbols() == old(self).open_symbols().remove(
                old(self).open_symbols().index_of(symbol@),
            ),
    {
        if self.windows.position(symbol.as_slice()).is_none() {
            return Err(Error::FetcherNotFound);
        }
        let _ = self.close(symbol.as_slice());
        Ok(Event::FetcherClosed(who, symbol, now))
    }

    /// Carries out `call` for the reporter `who` at the tick `now`.
    ///
    /// A call that fails leaves the ledger as it is.
    pub fn dispatch(&mut self, config: &Config, who: AccountId, call: Call, now: u64) -> (r: Result<
        Event<AccountId>,
        Error,
    >)
        requires
            old(self).wf(),
            config.wf(),
            now + config.window_length <= u64::MAX,
        ensures
            final(self).wf(),
            (final(self)@, returned(r)) == old(self)@.dispatch(
                config.source_urls(),
                config.window_length,
                who,
                call@,
                now,
            ),
            r is Err ==> final(self)@ == old(self)@,
    {
        match call {
            Call::StartFetcher(symbol) => self.start_fetcher(config, who, symbol.as_slice(), now),
            Call::SubmitNewPrice(record) => self.submit_new_price(who, record, now),
            Call::SubmitNewAvgPrice(symbol, price) => self.submit_new_avg_price(
                who,
                symbol,
                price,
                now,
            ),
            Call::CloseFetcher(symbol) => self.close_fetcher(who, symbol, now),
        }
    }
}

} // verus!
