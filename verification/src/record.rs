//! The records that the oracle keeps, and how a quote is read from the answer of
//! a price source.

use vstd::prelude::*;
use vstd::slice::slice_to_vec;
use vstd::utf8::*;
use crate::bytes::copy_bytes;
use crate::decimal::{fixed_from_decimal, fixed_of_decimal};
use crate::error::FetchError;
use crate::json::{
    find_member, json_members, member, members_view, parse_members, JsonValue, JsonValueView,
    MembersView,
};
use crate::{Price, Symbol};

verus! {

/// A quote as a price source reports it.
#[derive(Debug, PartialEq, Eq)]
pub struct DiaPriceRecord {
    /// The price, in fixed point.
    pub price: Price,
    /// The time of the quote, as the source writes it.
    pub time: Vec<u8>,
    /// The symbol that the quote is for.
    pub symbol: Symbol,
}

/// A [`DiaPriceRecord`] in specifications.
pub struct DiaPriceRecordView {
    pub price: u128,
    pub time: Seq<u8>,
    pub symbol: Seq<u8>,
}

impl View for DiaPriceRecord {
    type V = DiaPriceRecordView;

    open spec fn view(&self) -> DiaPriceRecordView {
        DiaPriceRecordView { price: self.price, time: self.time@, symbol: self.symbol@ }
    }
}

/// One observation in the ledger: a quote and the reporter who handed it in.
#[derive(Debug, PartialEq, Eq)]
pub struct FetchedPrice<AccountId> {
    /// The price, in fixed point.
    pub price: Price,
    /// The time of the quote, as the source writes it.
    pub time: Vec<u8>,
    /// The symbol that the quote is for.
    pub symbol: Symbol,
    /// The reporter.
    pub author: AccountId,
}

/// A [`FetchedPrice`] in specifications.
pub struct FetchedPriceView<AccountId> {
    pub price: u128,
    pub time: Seq<u8>,
    pub symbol: Seq<u8>,
    pub author: AccountId,
}

impl<AccountId> View for FetchedPrice<AccountId> {
    type V = FetchedPriceView<AccountId>;

    open spec fn view(&self) -> FetchedPriceView<AccountId> {
        FetchedPriceView {
            price: self.price,
            time: self.time@,
            symbol: self.symbol@,
            author: self.author,
        }
    }
}

/// An open fetch window: the period in which observations for one symbol are
/// collected.
#[derive(Debug, PartialEq, Eq)]
pub struct Fetcher<BlockNumber> {
    /// The symbol that is fetched.
    pub symbol: Symbol,
    /// Where its quotes are read from.
    pub url: Vec<u8>,
    /// The tick from which on the window is due to be closed.
    pub end_fetching_at: BlockNumber,
}

/// A [`Fetcher`] in specifications.
pub struct FetcherView<BlockNumber> {
    pub symbol: Seq<u8>,
    pub url: Seq<u8>,
    pub end_fetching_at: BlockNumber,
}

impl<BlockNumber> View for Fetcher<BlockNumber> {
    type V = FetcherView<BlockNumber>;

    open spec fn view(&self) -> FetcherView<BlockNumber> {
        FetcherView {
            symbol: self.symbol@,
            url: self.url@,
            end_fetching_at: self.end_fetching_at,
        }
    }
}

/// The canonical price of a symbol: the mean of a closed window.
#[derive(Debug, PartialEq, Eq)]
pub struct AggregatedPrice<AccountId> {
    /// The symbol that the price is for.
    pub symbol: Symbol,
    /// The tick at which the window was closed.
    pub as_of: u64,
    /// The price, in fixed point.
    pub price: Price,
    /// The reporter whose call closed the window.
    pub published_by: AccountId,
}

/// An [`AggregatedPrice`] in specifications.
pub struct AggregatedPriceView<AccountId> {
    pub symbol: Seq<u8>,
    pub as_of: u64,
    pub price: u128,
    pub published_by: AccountId,
}

impl<AccountId> View for AggregatedPrice<AccountId> {
    type V = AggregatedPriceView<AccountId>;

    open spec fn view(&self) -> AggregatedPriceView<AccountId> {
        AggregatedPriceView {
            symbol: self.symbol@,
            as_of: self.as_of,
            price: self.price,
            published_by: self.published_by,
        }
    }
}

impl DiaPriceRecord {
    /// A copy of the record.
    pub fn duplicate(&self) -> (copy: Self)
        ensures
            copy@ == self@,
    {
        DiaPriceRecord {
            price: self.price,
            time: copy_bytes(&self.time),
            symbol: copy_bytes(&self.symbol),
        }
    }
}

impl<AccountId: Copy> FetchedPrice<AccountId> {
    /// A copy of the observation.
    pub fn duplicate(&self) -> (copy: Self)
        ensures
            copy@ == self@,
    {
        FetchedPrice {
            price: self.price,
            time: copy_bytes(&self.time),
            symbol: copy_bytes(&self.symbol),
            author: self.author,
        }
    }
}

impl<AccountId: Copy> AggregatedPrice<AccountId> {
    /// A copy of the price.
    pub fn duplicate(&self) -> (copy: Self)
        ensures
            copy@ == self@,
    {
        AggregatedPrice {
            symbol: copy_bytes(&self.symbol),
            as_of: self.as_of,
            price: self.price,
            published_by: self.published_by,
        }
    }
}

impl<BlockNumber: Copy> Fetcher<BlockNumber> {
    /// A copy of the window.
    pub fn duplicate(&self) -> (copy: Self)
        ensures
            copy@ == self@,
    {
        Fetcher {
            symbol: copy_bytes(&self.symbol),
            url: copy_bytes(&self.url),
            end_fetching_at: self.end_fetching_at,
        }
    }
}

/// The bytes of a text field, in UTF-8.
pub fn de_string_to_bytes(s: &str) -> (bytes: Vec<u8>)
    ensures
        bytes@ == encode_utf8(s@),
{
    slice_to_vec(s.as_bytes())
}

/// The fixed-point price that a decimal number writes: the number times 10^18,
/// cut off toward zero.
///
/// The same text gives the same price on every call. Text that is no decimal
/// number is `Malformed`; a number too large for 128 bits is `Overflow`.
pub fn de_float_to_price(text: &str) -> (r: Result<Price, FetchError>)
    ensures
        r == fixed_of_decimal(encode_utf8(text@)),
{
    fixed_from_decimal(text.as_bytes())
}

/// A parsed quote, or the reason why there is none, in specifications.
pub open spec fn parsed_view(r: Result<DiaPriceRecord, FetchError>) -> Result<
    DiaPriceRecordView,
    FetchError,
> {
    match r {
        Ok(record) => Ok(record@),
        Err(e) => Err(e),
    }
}

/// The quote that the members of a JSON object hold.
///
/// The object needs a number under `Price` and text under `Time` and under
/// `Symbol`; without them it is `Malformed`. Other members are passed over. The
/// price is converted to fixed point, and fails as that conversion does.
pub open spec fn record_of_members(members: MembersView) -> Result<DiaPriceRecordView, FetchError> {
    match (member(members, "Price"@), member(members, "Time"@), member(members, "Symbol"@)) {
        (
            Some(JsonValueView::Number(price)),
            Some(JsonValueView::Text(time)),
            Some(JsonValueView::Text(symbol)),
        ) => match fixed_of_decimal(encode_utf8(price)) {
            Ok(units) => Ok(
                DiaPriceRecordView {
                    price: units,
                    time: encode_utf8(time),
                    symbol: encode_utf8(symbol),
                },
            ),
            Err(e) => Err(e),
        },
        _ => Err(FetchError::Malformed),
    }
}

/// The quote that the JSON text `body` holds.
pub open spec fn record_of_text(body: Seq<char>) -> Result<DiaPriceRecordView, FetchError> {
    match json_members(body) {
        Some(members) => record_of_members(members),
        None => Err(FetchError::Malformed),
    }
}

/// Reads a quote from the members of a JSON object.
pub fn record_from_members(members: &Vec<(String, JsonValue)>) -> (r: Result<
    DiaPriceRecord,
    FetchError,
>)
    ensures
        parsed_view(r) == record_of_members(members_view(members@)),
{
    let price_at: usize = match find_member(members, "Price") {
        Some(i) => i,
        None => {
            return Err(FetchError::Malformed);
        },
    };
    let time_at: usize = match find_member(members, "Time") {
        Some(i) => i,
        None => {
            return Err(FetchError::Malformed);
        },
    };
    let symbol_at: usize = match find_member(members, "Symbol") {
        Some(i) => i,
        None => {
            return Err(FetchError::Malformed);
        },
    };
    let price_text: &String = match &members[price_at].1 {
        JsonValue::Number(n) => n,
        _ => {
            return Err(FetchError::Malformed);
        },
    };
    let time_text: &String = match &members[time_at].1 {
        JsonValue::Text(t) => t,
        _ => {
            return Err(FetchError::Malformed);
        },
    };
    let symbol_text: &String = match &members[symbol_at].1 {
        JsonValue::Text(t) => t,
        _ => {
            return Err(FetchError::Malformed);
        },
    };
    let price: Price = match de_float_to_price(price_text.as_str()) {
        Ok(units) => units,
        Err(e) => {
            return Err(e);
        },
    };
    Ok(
        DiaPriceRecord {
            price,
            time: de_string_to_bytes(time_text.as_str()),
            symbol: de_string_to_bytes(symbol_text.as_str()),
        },
    )
}

/// Reads a quote from the JSON text that a price source answers with.
pub fn parse_dia_res(body: &str) -> (r: Result<DiaPriceRecord, FetchError>)
    ensures
        parsed_view(r) == record_of_text(body@),
{
    match parse_members(body) {
        Some(members) => record_from_members(&members),
        None => Err(FetchError::Malformed),
    }
}

} // verus!
