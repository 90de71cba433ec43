use price_fetch::aggregate::{aggregate, calc_avg_price};
use price_fetch::error::{AggregationError, Error, SubmitError};
use price_fetch::ledger::{Call, Config, Event, Ledger};
use price_fetch::record::{AggregatedPrice, DiaPriceRecord, FetchedPrice, Fetcher};
use price_fetch::scheduler::{
    calc_and_submit_avg_price, check_identity, fetch_price_and_submit, offchain_worker,
    submit_fetched_price, task_for, transmission_result, Action, Task,
};
use price_fetch::symbol_map::SymbolMap;
use price_fetch::TestAuthId;

const ETH_URL: &[u8] = b"https://api.diadata.org/v1/quotation/ETH";
const BTC_URL: &[u8] = b"https://api.diadata.org/v1/quotation/BTC";
const ALICE: u64 = 1;
const BOB: u64 = 2;

fn config() -> Config {
    let mut config = Config::new(600, 100);
    assert!(config.track(b"ETH".to_vec(), ETH_URL.to_vec()));
    assert!(config.track(b"BTC".to_vec(), BTC_URL.to_vec()));
    config
}

fn quote(symbol: &[u8], price: u128) -> DiaPriceRecord {
    DiaPriceRecord { price, time: b"2021-01-18T13:47:32Z".to_vec(), symbol: symbol.to_vec() }
}

fn observation(symbol: &[u8], price: u128, author: u64) -> FetchedPrice<u64> {
    FetchedPrice { price, time: b"2021-01-18T13:47:32Z".to_vec(), symbol: symbol.to_vec(), author }
}

fn prices_of(ledger: &Ledger<u64>, symbol: &[u8]) -> Vec<u128> {
    ledger.fetched_prices(symbol).unwrap().iter().map(|p| p.price).collect()
}

#[test]
fn window_opens_with_its_deadline() {
    let config = config();
    let mut ledger: Ledger<u64> = Ledger::new();
    assert_eq!(ledger.fetcher(b"ETH"), None);
    let event = ledger.start_fetcher(&config, ALICE, b"ETH", 0);
    assert_eq!(event, Ok(Event::NewFetcher(ALICE, b"ETH".to_vec(), 0)));
    assert_eq!(
        ledger.fetcher(b"ETH"),
        Some(&Fetcher { symbol: b"ETH".to_vec(), url: ETH_URL.to_vec(), end_fetching_at: 600 })
    );
    assert_eq!(ledger.fetched_prices(b"ETH"), Some(&Vec::new()));
    assert_eq!(ledger.avg_price(b"ETH"), None);
    assert_eq!(ledger.open_count(), 1);

    let event = ledger.start_fetcher(&config, BOB, b"BTC", 1_000);
    assert_eq!(event, Ok(Event::NewFetcher(BOB, b"BTC".to_vec(), 1_000)));
    assert_eq!(ledger.fetcher(b"BTC").unwrap().end_fetching_at, 1_600);
    assert_eq!(ledger.fetcher(b"BTC").unwrap().url, BTC_URL.to_vec());
    assert_eq!(ledger.open_count(), 2);
}

#[test]
fn second_open_fails_and_changes_nothing() {
    let config = config();
    let mut ledger: Ledger<u64> = Ledger::new();
    ledger.start_fetcher(&config, ALICE, b"ETH", 0).unwrap();
    ledger.submit_new_price(BOB, quote(b"ETH", 7), 100).unwrap();
    let again = ledger.start_fetcher(&config, BOB, b"ETH", 50);
    assert_eq!(again, Err(Error::FetcherAlreadyExist));
    assert_eq!(ledger.fetcher(b"ETH").unwrap().end_fetching_at, 600);
    assert_eq!(prices_of(&ledger, b"ETH"), vec![7]);
    assert_eq!(ledger.open_count(), 1);
}

#[test]
fn symbol_without_a_source_cannot_be_opened() {
    let config = config();
    let mut ledger: Ledger<u64> = Ledger::new();
    assert_eq!(ledger.start_fetcher(&config, ALICE, b"DOGE", 0), Err(Error::SymbolNotFound));
    assert_eq!(ledger.start_fetcher(&config, ALICE, b"", 0), Err(Error::SymbolNotFound));
    assert_eq!(ledger.start_fetcher(&config, ALICE, b"eth", 0), Err(Error::SymbolNotFound));
    assert_eq!(ledger.open_count(), 0);
    assert_eq!(ledger.fetcher(b"DOGE"), None);
}

#[test]
fn open_window_is_reported_before_an_unknown_symbol() {
    // a window that was opened stays known even where the settings differ
    let config = config();
    let mut ledger: Ledger<u64> = Ledger::new();
    ledger.start_fetcher(&config, ALICE, b"ETH", 0).unwrap();
    let empty = Config::new(600, 100);
    assert_eq!(ledger.start_fetcher(&empty, BOB, b"ETH", 1), Err(Error::FetcherAlreadyExist));
    assert_eq!(ledger.start_fetcher(&empty, BOB, b"BTC", 1), Err(Error::SymbolNotFound));
}

#[test]
fn observations_accumulate_in_order_of_submission() {
    let config = config();
    let mut ledger: Ledger<u64> = Ledger::new();
    ledger.start_fetcher(&config, ALICE, b"ETH", 0).unwrap();
    ledger.start_fetcher(&config, ALICE, b"BTC", 0).unwrap();
    let event = ledger.submit_new_price(BOB, quote(b"ETH", 10), 100);
    assert_eq!(event, Ok(Event::NewPricePoint(BOB, b"ETH".to_vec(), 100, 10)));
    ledger.submit_new_price(ALICE, quote(b"ETH", 30), 100).unwrap();
    ledger.submit_new_price(BOB, quote(b"BTC", 99), 100).unwrap();
    ledger.submit_new_price(BOB, quote(b"ETH", 20), 200).unwrap();
    assert_eq!(prices_of(&ledger, b"ETH"), vec![10, 30, 20]);
    assert_eq!(prices_of(&ledger, b"BTC"), vec![99]);
    let authors: Vec<u64> =
        ledger.fetched_prices(b"ETH").unwrap().iter().map(|p| p.author).collect();
    assert_eq!(authors, vec![BOB, ALICE, BOB]);
    assert_eq!(ledger.fetched_prices(b"ETH").unwrap()[0], observation(b"ETH", 10, BOB));
    assert_eq!(ledger.open_count(), 2);
}

#[test]
fn observation_without_a_window_is_turned_down() {
    let config = config();
    let mut ledger: Ledger<u64> = Ledger::new();
    assert_eq!(ledger.submit_new_price(BOB, quote(b"ETH", 10), 100), Err(Error::FetcherNotFound));
    ledger.start_fetcher(&config, ALICE, b"BTC", 0).unwrap();
    assert_eq!(ledger.submit_new_price(BOB, quote(b"ETH", 10), 100), Err(Error::FetcherNotFound));
    assert_eq!(ledger.fetched_prices(b"ETH"), None);
    assert_eq!(prices_of(&ledger, b"BTC"), Vec::<u128>::new());
}

#[test]
fn observation_is_added_to_an_open_window() {
    let config = config();
    let mut ledger: Ledger<u64> = Ledger::new();
    ledger.start_fetcher(&config, ALICE, b"ETH", 0).unwrap();
    ledger.add_new_price_to_list(observation(b"ETH", 5, BOB));
    ledger.add_new_price_to_list(observation(b"ETH", 6, ALICE));
    assert_eq!(
        ledger.fetched_prices(b"ETH").unwrap(),
        &vec![observation(b"ETH", 5, BOB), observation(b"ETH", 6, ALICE)]
    );
}

#[test]
fn publishing_closes_the_window_and_drops_its_observations() {
    let config = config();
    let mut ledger: Ledger<u64> = Ledger::new();
    ledger.start_fetcher(&config, ALICE, b"ETH", 0).unwrap();
    ledger.start_fetcher(&config, ALICE, b"BTC", 0).unwrap();
    ledger.submit_new_price(BOB, quote(b"ETH", 10), 100).unwrap();
    ledger.submit_new_price(BOB, quote(b"BTC", 50), 100).unwrap();
    let event = ledger.submit_new_avg_price(ALICE, b"ETH".to_vec(), 10, 600);
    assert_eq!(event, Ok(Event::NewAvgPrice(ALICE, b"ETH".to_vec(), 600, 10)));
    assert_eq!(ledger.fetcher(b"ETH"), None);
    assert_eq!(ledger.fetched_prices(b"ETH"), None);
    assert_eq!(
        ledger.avg_price(b"ETH"),
        Some(&AggregatedPrice {
            symbol: b"ETH".to_vec(),
            as_of: 600,
            price: 10,
            published_by: ALICE
        })
    );
    assert_eq!(prices_of(&ledger, b"BTC"), vec![50]);
    assert_eq!(ledger.avg_price(b"BTC"), None);
    assert_eq!(ledger.open_count(), 1);
}

#[test]
fn second_publisher_finds_no_window() {
    let config = config();
    let mut ledger: Ledger<u64> = Ledger::new();
    ledger.start_fetcher(&config, ALICE, b"ETH", 0).unwrap();
    ledger.submit_new_price(BOB, quote(b"ETH", 10), 100).unwrap();
    assert!(ledger.submit_new_avg_price(ALICE, b"ETH".to_vec(), 10, 600).is_ok());
    let late = ledger.submit_new_avg_price(BOB, b"ETH".to_vec(), 11, 601);
    assert_eq!(late, Err(Error::FetcherNotFound));
    let price = ledger.avg_price(b"ETH").unwrap();
    assert_eq!((price.price, price.as_of, price.published_by), (10, 600, ALICE));
    assert_eq!(ledger.fetcher(b"ETH"), None);
}

#[test]
fn new_window_overwrites_the_old_price_when_it_closes() {
    let config = config();
    let mut ledger: Ledger<u64> = Ledger::new();
    ledger.start_fetcher(&config, ALICE, b"ETH", 0).unwrap();
    ledger.submit_new_avg_price(ALICE, b"ETH".to_vec(), 10, 600).unwrap();
    ledger.start_fetcher(&config, BOB, b"ETH", 700).unwrap();
    assert_eq!(ledger.avg_price(b"ETH").unwrap().price, 10);
    assert_eq!(ledger.fetched_prices(b"ETH"), Some(&Vec::new()));
    ledger.submit_new_avg_price(BOB, b"ETH".to_vec(), 12, 1_300).unwrap();
    let price = ledger.avg_price(b"ETH").unwrap();
    assert_eq!((price.price, price.as_of, price.published_by), (12, 1_300, BOB));
}

#[test]
fn close_returns_the_window_and_its_observations() {
    let config = config();
    let mut ledger: Ledger<u64> = Ledger::new();
    ledger.start_fetcher(&config, ALICE, b"ETH", 5).unwrap();
    ledger.start_fetcher(&config, ALICE, b"BTC", 5).unwrap();
    ledger.submit_new_price(BOB, quote(b"ETH", 10), 100).unwrap();
    ledger.submit_new_price(BOB, quote(b"ETH", 11), 200).unwrap();
    let (window, observations) = ledger.close(b"ETH");
    assert_eq!(
        window,
        Fetcher { symbol: b"ETH".to_vec(), url: ETH_URL.to_vec(), end_fetching_at: 605 }
    );
    assert_eq!(observations, vec![observation(b"ETH", 10, BOB), observation(b"ETH", 11, BOB)]);
    assert_eq!(ledger.fetcher(b"ETH"), None);
    assert_eq!(ledger.fetched_prices(b"ETH"), None);
    assert_eq!(ledger.avg_price(b"ETH"), None);
    assert!(ledger.fetcher(b"BTC").is_some());
}

#[test]
fn window_closes_without_a_price() {
    let config = config();
    let mut ledger: Ledger<u64> = Ledger::new();
    assert_eq!(ledger.close_fetcher(ALICE, b"ETH".to_vec(), 600), Err(Error::FetcherNotFound));
    ledger.start_fetcher(&config, ALICE, b"ETH", 0).unwrap();
    let event = ledger.close_fetcher(BOB, b"ETH".to_vec(), 600);
    assert_eq!(event, Ok(Event::FetcherClosed(BOB, b"ETH".to_vec(), 600)));
    assert_eq!(ledger.fetcher(b"ETH"), None);
    assert_eq!(ledger.avg_price(b"ETH"), None);
    assert_eq!(ledger.close_fetcher(BOB, b"ETH".to_vec(), 601), Err(Error::FetcherNotFound));
}

#[test]
fn calls_are_carried_out_by_kind() {
    let config = config();
    let mut ledger: Ledger<u64> = Ledger::new();
    assert_eq!(
        ledger.dispatch(&config, ALICE, Call::StartFetcher(b"ETH".to_vec()), 0),
        Ok(Event::NewFetcher(ALICE, b"ETH".to_vec(), 0))
    );
    assert_eq!(
        ledger.dispatch(&config, BOB, Call::StartFetcher(b"ETH".to_vec()), 1),
        Err(Error::FetcherAlreadyExist)
    );
    assert_eq!(
        ledger.dispatch(&config, BOB, Call::StartFetcher(b"XRP".to_vec()), 1),
        Err(Error::SymbolNotFound)
    );
    assert_eq!(
        ledger.dispatch(&config, BOB, Call::SubmitNewPrice(quote(b"ETH", 4)), 100),
        Ok(Event::NewPricePoint(BOB, b"ETH".to_vec(), 100, 4))
    );
    assert_eq!(
        ledger.dispatch(&config, BOB, Call::SubmitNewPrice(quote(b"BTC", 4)), 100),
        Err(Error::FetcherNotFound)
    );
    assert_eq!(
        ledger.dispatch(&config, ALICE, Call::SubmitNewAvgPrice(b"ETH".to_vec(), 4), 600),
        Ok(Event::NewAvgPrice(ALICE, b"ETH".to_vec(), 600, 4))
    );
    assert_eq!(
        ledger.dispatch(&config, BOB, Call::SubmitNewAvgPrice(b"ETH".to_vec(), 4), 601),
        Err(Error::FetcherNotFound)
    );
    assert_eq!(
        ledger.dispatch(&config, BOB, Call::CloseFetcher(b"ETH".to_vec()), 601),
        Err(Error::FetcherNotFound)
    );
    assert_eq!(ledger.avg_price(b"ETH").unwrap().price, 4);
}

#[test]
fn settings_keep_the_first_source_of_a_symbol() {
    let mut config = Config::new(600, 5);
    assert_eq!(config.source_of(b"ETH"), None);
    assert!(config.track(b"ETH".to_vec(), ETH_URL.to_vec()));
    assert!(!config.track(b"ETH".to_vec(), BTC_URL.to_vec()));
    assert_eq!(config.source_of(b"ETH"), Some(&ETH_URL.to_vec()));
    assert_eq!(config.source_of(b"BTC"), None);
    assert_eq!((config.window_length, config.grace_period), (600, 5));
}

#[test]
fn mean_is_the_floor_of_the_sum_over_the_count() {
    let prices = vec![observation(b"ETH", 10, ALICE), observation(b"ETH", 11, BOB)];
    assert_eq!(calc_avg_price(&prices), Ok(10));
    let prices = vec![
        observation(b"ETH", 1, ALICE),
        observation(b"ETH", 2, BOB),
        observation(b"ETH", 2, BOB),
    ];
    assert_eq!(calc_avg_price(&prices), Ok(1));
    let prices = vec![
        observation(b"ETH", 1_234_500_000_000_000_000_000, ALICE),
        observation(b"ETH", 1_234_700_000_000_000_000_000, BOB),
        observation(b"ETH", 1_234_600_000_000_000_000_001, BOB),
    ];
    assert_eq!(calc_avg_price(&prices), Ok(1_234_600_000_000_000_000_000));
}

#[test]
fn mean_of_one_observation_is_itself() {
    let prices = vec![observation(b"ETH", 1_234_500_000_000_000_000_000, ALICE)];
    assert_eq!(calc_avg_price(&prices), Ok(1_234_500_000_000_000_000_000));
    let prices = vec![observation(b"ETH", u128::MAX, ALICE)];
    assert_eq!(calc_avg_price(&prices), Ok(u128::MAX));
    let prices = vec![observation(b"ETH", 0, ALICE)];
    assert_eq!(calc_avg_price(&prices), Ok(0));
}

#[test]
fn mean_of_no_observation_is_an_error() {
    let prices: Vec<FetchedPrice<u64>> = Vec::new();
    assert_eq!(calc_avg_price(&prices), Err(AggregationError::Empty));
}

#[test]
fn running_sum_saturates() {
    let prices = vec![observation(b"ETH", u128::MAX, ALICE), observation(b"ETH", u128::MAX, BOB)];
    assert_eq!(calc_avg_price(&prices), Ok(u128::MAX / 2));
    let prices = vec![
        observation(b"ETH", u128::MAX, ALICE),
        observation(b"ETH", 1, BOB),
        observation(b"ETH", 0, BOB),
    ];
    assert_eq!(calc_avg_price(&prices), Ok(u128::MAX / 3));
    let prices = vec![observation(b"ETH", u128::MAX - 1, ALICE), observation(b"ETH", 1, BOB)];
    assert_eq!(calc_avg_price(&prices), Ok(u128::MAX / 2));
}

#[test]
fn window_is_reduced_to_its_canonical_price() {
    let window = Fetcher { symbol: b"ETH".to_vec(), url: ETH_URL.to_vec(), end_fetching_at: 600 };
    let prices = vec![observation(b"ETH", 10, ALICE), observation(b"ETH", 20, BOB)];
    assert_eq!(
        aggregate(&window, &prices, BOB, 600),
        Ok(AggregatedPrice { symbol: b"ETH".to_vec(), as_of: 600, price: 15, published_by: BOB })
    );
    let none: Vec<FetchedPrice<u64>> = Vec::new();
    assert_eq!(aggregate(&window, &none, BOB, 600), Err(AggregationError::Empty));
}

#[test]
fn closing_comes_before_fetching() {
    let window = Fetcher { symbol: b"ETH".to_vec(), url: ETH_URL.to_vec(), end_fetching_at: 600 };
    assert_eq!(task_for(&window, 0, 100), Task::Fetch);
    assert_eq!(task_for(&window, 1, 100), Task::Idle);
    assert_eq!(task_for(&window, 99, 100), Task::Idle);
    assert_eq!(task_for(&window, 100, 100), Task::Fetch);
    assert_eq!(task_for(&window, 500, 100), Task::Fetch);
    assert_eq!(task_for(&window, 599, 100), Task::Idle);
    assert_eq!(task_for(&window, 600, 100), Task::Aggregate);
    assert_eq!(task_for(&window, 601, 100), Task::Aggregate);
    assert_eq!(task_for(&window, 700, 100), Task::Aggregate);
    assert_eq!(task_for(&window, 599, 1), Task::Fetch);
    assert_eq!(task_for(&window, u64::MAX, 7), Task::Aggregate);
}

#[test]
fn reporter_without_a_key_cannot_act() {
    assert_eq!(check_identity(true), Ok(()));
    assert_eq!(check_identity(false), Err(SubmitError::NoLocalIdentity));
    let window = Fetcher { symbol: b"ETH".to_vec(), url: ETH_URL.to_vec(), end_fetching_at: 600 };
    let prices = vec![observation(b"ETH", 10, ALICE)];
    assert_eq!(
        calc_and_submit_avg_price(false, &window, &prices),
        Err(SubmitError::NoLocalIdentity)
    );
    assert_eq!(fetch_price_and_submit(false, &window), Err(SubmitError::NoLocalIdentity));
}

#[test]
fn call_that_could_not_be_sent_is_reported() {
    assert_eq!(transmission_result(true), Ok(()));
    assert_eq!(transmission_result(false), Err(SubmitError::TransmissionError));
}

#[test]
fn due_window_is_closed_with_its_mean() {
    let window = Fetcher { symbol: b"ETH".to_vec(), url: ETH_URL.to_vec(), end_fetching_at: 600 };
    let prices = vec![observation(b"ETH", 10, ALICE), observation(b"ETH", 13, BOB)];
    assert_eq!(
        calc_and_submit_avg_price(true, &window, &prices),
        Ok(Call::SubmitNewAvgPrice(b"ETH".to_vec(), 11))
    );
    let none: Vec<FetchedPrice<u64>> = Vec::new();
    assert_eq!(
        calc_and_submit_avg_price(true, &window, &none),
        Ok(Call::CloseFetcher(b"ETH".to_vec()))
    );
    assert_eq!(fetch_price_and_submit(true, &window), Ok(ETH_URL.to_vec()));
}

#[test]
fn fetched_quote_is_handed_in_and_a_failure_is_not() {
    assert_eq!(
        submit_fetched_price(Ok(quote(b"ETH", 5))),
        Ok(Call::SubmitNewPrice(quote(b"ETH", 5)))
    );
    assert_eq!(
        submit_fetched_price(Err(price_fetch::error::FetchError::Timeout)),
        Err(price_fetch::error::FetchError::Timeout)
    );
}

#[test]
fn worker_plans_one_action_for_each_open_window() {
    let config = config();
    let mut ledger: Ledger<u64> = Ledger::new();
    assert_eq!(offchain_worker(&ledger, true, 100, 100), Vec::new());
    ledger.start_fetcher(&config, ALICE, b"ETH", 0).unwrap();
    ledger.start_fetcher(&config, ALICE, b"BTC", 150).unwrap();
    assert_eq!(
        offchain_worker(&ledger, true, 200, 100),
        vec![Ok(Action::Fetch(ETH_URL.to_vec())), Ok(Action::Fetch(BTC_URL.to_vec()))]
    );
    assert_eq!(offchain_worker(&ledger, true, 201, 100), vec![Ok(Action::Idle), Ok(Action::Idle)]);
    ledger.submit_new_price(BOB, quote(b"BTC", 8), 200).unwrap();
    ledger.submit_new_price(BOB, quote(b"ETH", 10), 200).unwrap();
    ledger.submit_new_price(ALICE, quote(b"ETH", 15), 200).unwrap();
    assert_eq!(
        offchain_worker(&ledger, true, 600, 100),
        vec![
            Ok(Action::Submit(Call::SubmitNewAvgPrice(b"ETH".to_vec(), 12))),
            Ok(Action::Fetch(BTC_URL.to_vec())),
        ]
    );
    assert_eq!(
        offchain_worker(&ledger, false, 600, 100),
        vec![Err(SubmitError::NoLocalIdentity), Err(SubmitError::NoLocalIdentity)]
    );
    assert_eq!(
        offchain_worker(&ledger, false, 601, 100),
        vec![Err(SubmitError::NoLocalIdentity), Ok(Action::Idle)]
    );
    assert_eq!(
        offchain_worker(&ledger, true, 750, 100),
        vec![
            Ok(Action::Submit(Call::SubmitNewAvgPrice(b"ETH".to_vec(), 12))),
            Ok(Action::Submit(Call::SubmitNewAvgPrice(b"BTC".to_vec(), 8))),
        ]
    );
}

#[test]
fn window_without_observations_is_closed_without_a_price() {
    let config = config();
    let mut ledger: Ledger<u64> = Ledger::new();
    ledger.start_fetcher(&config, ALICE, b"ETH", 0).unwrap();
    let plan = offchain_worker(&ledger, true, 600, 100);
    assert_eq!(plan, vec![Ok(Action::Submit(Call::CloseFetcher(b"ETH".to_vec())))]);
    for step in plan {
        if let Ok(Action::Submit(call)) = step {
            assert_eq!(
                ledger.dispatch(&config, BOB, call, 600),
                Ok(Event::FetcherClosed(BOB, b"ETH".to_vec(), 600))
            );
        }
    }
    assert_eq!(ledger.fetcher(b"ETH"), None);
    assert_eq!(ledger.avg_price(b"ETH"), None);
}

#[test]
fn eth_window_runs_from_opening_to_publication() {
    let mut config = Config::new(600, 100);
    config.track(b"ETH".to_vec(), ETH_URL.to_vec());
    let mut ledger: Ledger<u64> = Ledger::new();

    // tick 0: reporter A opens the window
    ledger.dispatch(&config, ALICE, Call::StartFetcher(b"ETH".to_vec()), 0).unwrap();
    assert_eq!(ledger.fetcher(b"ETH").unwrap().end_fetching_at, 600);

    // tick 100: reporter B fetches and hands the quote in
    assert_eq!(offchain_worker(&ledger, true, 100, 100), vec![Ok(Action::Fetch(ETH_URL.to_vec()))]);
    let body = b"{\"Symbol\":\"ETH\",\"Price\":1234.5,\"Time\":\"2021-01-18T13:47:32Z\"}";
    let fetched = price_fetch::fetch::read_body(body);
    assert_eq!(fetched.as_ref().unwrap().price, 1_234_500_000_000_000_000_000);
    let call = submit_fetched_price(fetched).unwrap();
    ledger.dispatch(&config, BOB, call, 100).unwrap();
    assert_eq!(prices_of(&ledger, b"ETH"), vec![1_234_500_000_000_000_000_000]);

    // tick 600: reporter A finds the window due and publishes the mean
    let mut plan = offchain_worker(&ledger, true, 600, 100);
    assert_eq!(plan.len(), 1);
    let call = match plan.remove(0) {
        Ok(Action::Submit(call)) => call,
        other => panic!("{:?}", other),
    };
    assert_eq!(call, Call::SubmitNewAvgPrice(b"ETH".to_vec(), 1_234_500_000_000_000_000_000));
    ledger.dispatch(&config, ALICE, call, 600).unwrap();
    let price = ledger.avg_price(b"ETH").unwrap();
    assert_eq!(price.symbol, b"ETH".to_vec());
    assert_eq!(price.price, 1_234_500_000_000_000_000_000);
    assert_eq!(ledger.fetcher(b"ETH"), None);
    assert_eq!(ledger.fetched_prices(b"ETH"), None);

    // tick 601: reporter B is late
    assert_eq!(
        ledger.dispatch(
            &config,
            BOB,
            Call::SubmitNewAvgPrice(b"ETH".to_vec(), 1_234_500_000_000_000_000_000),
            601
        ),
        Err(Error::FetcherNotFound)
    );
    assert_eq!(offchain_worker(&ledger, true, 601, 100), Vec::new());
}

#[test]
fn symbol_map_keeps_each_symbol_once() {
    let mut map: SymbolMap<u32> = SymbolMap::new();
    assert_eq!(map.len(), 0);
    assert_eq!(map.position(b"ETH"), None);
    map.insert(b"ETH".to_vec(), 1);
    map.insert(b"BTC".to_vec(), 2);
    map.insert(b"".to_vec(), 3);
    assert_eq!(map.len(), 3);
    assert_eq!(map.position(b"ETH"), Some(0));
    assert_eq!(map.position(b"BTC"), Some(1));
    assert_eq!(map.position(b""), Some(2));
    assert_eq!(map.position(b"ET"), None);
    assert_eq!(map.value_at(1), &2);
    assert_eq!(map.symbol_at(1), &b"BTC".to_vec());
    assert_eq!(map.replace_at(1, 20), 2);
    assert_eq!(map.value_at(1), &20);
    assert_eq!(map.position(b"BTC"), Some(1));
    assert_eq!(map.remove_at(0), (b"ETH".to_vec(), 1));
    assert_eq!(map.position(b"ETH"), None);
    assert_eq!(map.position(b"BTC"), Some(0));
    assert_eq!(map.len(), 2);
}

#[test]
fn reporters_sign_with_the_oracle_key_type() {
    assert_eq!(&TestAuthId::key_type(), b"pocw");
}

#[test]
fn default_settings_track_eth() {
    let config = Config::dia(100);
    assert_eq!((config.window_length, config.grace_period), (600, 100));
    assert_eq!(config.source_of(b"ETH"), Some(&ETH_URL.to_vec()));
    assert_eq!(config.source_of(b"BTC"), None);
}

#[test]
fn stored_ledger_is_read_back() {
    let mut ledger: Ledger<u64> = Ledger::new();
    let window = Fetcher { symbol: b"ETH".to_vec(), url: ETH_URL.to_vec(), end_fetching_at: 600 };
    assert!(ledger.insert_fetcher(
        window.duplicate(),
        vec![observation(b"ETH", 3, ALICE), observation(b"ETH", 4, BOB)]
    ));
    assert!(!ledger.insert_fetcher(window.duplicate(), Vec::new()));
    let other = Fetcher { symbol: b"BTC".to_vec(), url: BTC_URL.to_vec(), end_fetching_at: 700 };
    assert!(!ledger.insert_fetcher(other.duplicate(), vec![observation(b"ETH", 3, ALICE)]));
    assert!(ledger.insert_fetcher(other, Vec::new()));
    assert_eq!(ledger.open_count(), 2);
    assert_eq!(ledger.fetcher_at(0), &window);
    assert_eq!(ledger.fetched_prices_at(0).len(), 2);
    assert_eq!(ledger.fetcher_at(1).end_fetching_at, 700);
    assert_eq!(prices_of(&ledger, b"ETH"), vec![3, 4]);

    let price =
        AggregatedPrice { symbol: b"ETH".to_vec(), as_of: 9, price: 5, published_by: ALICE };
    assert!(ledger.insert_avg_price(price.duplicate()));
    assert!(!ledger.insert_avg_price(price.duplicate()));
    assert_eq!(ledger.avg_count(), 1);
    assert_eq!(ledger.avg_price_at(0), &price);
    assert_eq!(ledger.avg_price(b"ETH"), Some(&price));
}

#[test]
fn copies_equal_what_they_copy() {
    let call = Call::SubmitNewPrice(quote(b"ETH", 5));
    assert_eq!(call.duplicate(), call);
    let call = Call::SubmitNewAvgPrice(b"ETH".to_vec(), 5);
    assert_eq!(call.duplicate(), call);
    let call = Call::StartFetcher(b"ETH".to_vec());
    assert_eq!(call.duplicate(), call);
    let call = Call::CloseFetcher(b"ETH".to_vec());
    assert_eq!(call.duplicate(), call);
    assert_eq!(quote(b"ETH", 5).duplicate(), quote(b"ETH", 5));
    assert_eq!(observation(b"ETH", 5, BOB).duplicate(), observation(b"ETH", 5, BOB));
}
