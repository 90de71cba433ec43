//! The mean of a window's observations.
//!
//! Prices stay in fixed point throughout. The running sum saturates at the
//! largest 128-bit number, and the mean is the sum divided by the count, cut
//! off to a whole number of units.

use vstd::prelude::*;
use crate::error::AggregationError;
use crate::bytes::copy_bytes;
use crate::record::{
    AggregatedPrice, AggregatedPriceView, FetchedPrice, FetchedPriceView, Fetcher,
};
use crate::Price;

verus! {

/// The observations of `v` in specifications.
pub open spec fn observations_view<AccountId>(v: Seq<FetchedPrice<AccountId>>) -> Seq<
    FetchedPriceView<AccountId>,
> {
    v.map_values(|o: FetchedPrice<AccountId>| o@)
}

/// The prices of the observations, in their order.
pub open spec fn observation_prices<AccountId>(observations: Seq<FetchedPriceView<AccountId>>) -> Seq<
    u128,
> {
    observations.map_values(|o: FetchedPriceView<AccountId>| o.price)
}

/// The sum of the prices.
pub open spec fn total(prices: Seq<u128>) -> nat
    decreases prices.len(),
{
    if prices.len() == 0 {
        0
    } else {
        total(prices.drop_last()) + prices.last() as nat
    }
}

/// The sum of the prices, held at the largest 128-bit number where it is more.
pub open spec fn saturated_total(prices: Seq<u128>) -> nat {
    if total(prices) > u128::MAX {
        u128::MAX as nat
    } else {
        total(prices)
    }
}

/// The mean of the prices: their saturated sum divided by their count, cut off
/// to a whole number. No prices have no mean.
pub open spec fn mean_of(prices: Seq<u128>) -> Result<u128, AggregationError> {
    if prices.len() == 0 {
        Err(AggregationError::Empty)
    } else {
        Ok((saturated_total(prices) / prices.len()) as u128)
    }
}

/// The canonical price that closes a window: the mean of its observations,
/// under the window's symbol, with the tick and the reporter of the closing.
pub open spec fn aggregate_of<AccountId>(
    symbol: Seq<u8>,
    observations: Seq<FetchedPriceView<AccountId>>,
    who: AccountId,
    now: u64,
) -> Result<AggregatedPriceView<AccountId>, AggregationError> {
    match mean_of(observation_prices(observations)) {
        Ok(price) => Ok(AggregatedPriceView { symbol, as_of: now, price, published_by: who }),
        Err(e) => Err(e),
    }
}

/// An aggregated price, or the reason why there is none, in specifications.
pub open spec fn aggregated_view<AccountId>(
    r: Result<AggregatedPrice<AccountId>, AggregationError>,
) -> Result<AggregatedPriceView<AccountId>, AggregationError> {
    match r {
        Ok(price) => Ok(price@),
        Err(e) => Err(e),
    }
}

/// Where the sum of the prices fits in 128 bits, the mean is the floor of the
/// sum divided by the count.
pub proof fn lemma_mean_is_floor_of_sum(prices: Seq<u128>)
    requires
        prices.len() > 0,
        total(prices) <= u128::MAX,
    ensures
        mean_of(prices) == Ok::<u128, AggregationError>((total(prices) / prices.len()) as u128),
        mean_of(prices)->Ok_0 * prices.len() <= total(prices),
        total(prices) < (mean_of(prices)->Ok_0 + 1) * prices.len(),
{
    let n = prices.len() as int;
    let t = total(prices) as int;
    vstd::arithmetic::div_mod::lemma_fundamental_div_mod(t, n);
    vstd::arithmetic::div_mod::lemma_mod_bound(t, n);
    vstd::arithmetic::div_mod::lemma_div_pos_is_pos(t, n);
    assert(n * (t / n) == (t / n) * n) by (nonlinear_arith);
    assert(((t / n) + 1) * n == (t / n) * n + n) by (nonlinear_arith);
    assert(t / n <= t) by {
        vstd::arithmetic::div_mod::lemma_div_is_ordered_by_denominator(t, 1, n);
        vstd::arithmetic::div_mod::lemma_div_basics(t);
    }
}

/// The mean of one price is that price.
pub proof fn lemma_mean_of_one(price: u128)
    ensures
        mean_of(seq![price]) == Ok::<u128, AggregationError>(price),
{
    let prices = seq![price];
    assert(prices.drop_last() =~= Seq::<u128>::empty());
    assert(total(prices.drop_last()) == 0);
    assert(total(prices) == price);
}

/// The mean of a window's observations.
pub fn calc_avg_price<AccountId>(price_points: &Vec<FetchedPrice<AccountId>>) -> (r: Result<
    Price,
    AggregationError,
>)
    ensures
        r == mean_of(observation_prices(observations_view(price_points@))),
{
    let ghost prices = observation_prices(observations_view(price_points@));
    let count: usize = price_points.len();
    if count == 0 {
        return Err(AggregationError::Empty);
    }
    let mut sum: u128 = 0;
    let mut i: usize = 0;
    proof {
        assert(prices.take(0) =~= Seq::<u128>::empty());
    }
    while i < count
        invariant
            i <= count,
            count == price_points.len(),
            prices == observation_prices(observations_view(price_points@)),
            sum == saturated_total(prices.take(i as int)),
        decreases count - i,
    {
        proof {
            assert(prices.take(i + 1).drop_last() =~= prices.take(i as int));
            assert(prices.take(i + 1).last() == price_points[i as int].price);
        }
        sum = sum.saturating_add(price_points[i].price);
        i += 1;
    }
    proof {
        assert(prices.take(count as int) =~= prices);
    }
    Ok(sum / (count as u128))
}

/// Reduces the observations of a window to its canonical price.
///
/// Fails with `Empty` where there is no observation.
pub fn aggregate<AccountId>(
    window: &Fetcher<u64>,
    observations: &Vec<FetchedPrice<AccountId>>,
    who: AccountId,
    now: u64,
) -> (r: Result<AggregatedPrice<AccountId>, AggregationError>)
    ensures
        aggregated_view(r) == aggregate_of(
            window@.symbol,
            observations_view(observations@),
            who,
            now,
        ),
{
    match calc_avg_price(observations) {
        Ok(price) => Ok(
            AggregatedPrice {
                symbol: copy_bytes(&window.symbol),
                as_of: now,
                price,
                published_by: who,
            },
        ),
        Err(e) => Err(e),
    }
}

} // verus!
