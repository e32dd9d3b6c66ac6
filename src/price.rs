//! The price service: the request that asks it, and what its answers mean.
use vstd::prelude::*;
use vstd::string::*;
use crate::json::{
    JsonModel, json_model, json_parse, json_text, member, parse_json, get_member, array_items,
    value_text,
};
use crate::text::{without, remove_char};

verus! {

/// The endpoint that converts an amount of an asset into US dollars.
pub const PRICE_ENDPOINT: &'static str = "https://pro-api.coinmarketcap.com/v2/tools/price-conversion";

/// The header that carries the service's key.
pub const API_KEY_HEADER: &'static str = "X-CMC_PRO_API_KEY";

/// The client name sent as `User-Agent`.
pub const CLIENT_NAME: &'static str = "reqwest";

/// One asset that the service matched, with its price in US dollars as the
/// service wrote it.
#[derive(Debug, Clone, PartialEq, Eq)]
pub struct PriceQuote {
    pub name: String,
    pub symbol: String,
    pub price: String,
}

/// A quote as plain sequences of characters.
pub struct QuoteModel {
    pub name: Seq<char>,
    pub symbol: Seq<char>,
    pub price: Seq<char>,
}

impl View for PriceQuote {
    type V = QuoteModel;

    open spec fn view(&self) -> QuoteModel {
        QuoteModel { name: self.name@, symbol: self.symbol@, price: self.price@ }
    }
}

/// The outcome of one lookup: the quotes found, an error that the user can
/// mend (such as an unknown symbol), or a failure of the service.
#[derive(Debug, Clone, PartialEq, Eq)]
pub enum PriceLookupResult {
    Success(Vec<PriceQuote>),
    UserError(String),
    ServiceError(String),
}

/// A lookup outcome as plain values.
pub enum LookupModel {
    Success(Seq<QuoteModel>),
    UserError(Seq<char>),
    ServiceError(Seq<char>),
}

impl View for PriceLookupResult {
    type V = LookupModel;

    open spec fn view(&self) -> LookupModel {
        match self {
            PriceLookupResult::Success(q) => LookupModel::Success(
                q@.map_values(|x: PriceQuote| x@),
            ),
            PriceLookupResult::UserError(m) => LookupModel::UserError(m@),
            PriceLookupResult::ServiceError(m) => LookupModel::ServiceError(m@),
        }
    }
}

/// The one message shown for any failure of the service.
pub open spec fn service_failure_text() -> Seq<char> {
    "CoinMarketCap API error, please try again later."@
}

/// The outcome for any failure of the service.
pub open spec fn service_failure() -> LookupModel {
    LookupModel::ServiceError(service_failure_text())
}

/// A status in the range 200 to 299.
pub open spec fn is_success(status: u16) -> bool {
    200 <= status <= 299
}

/// The text of a JSON value without its double quotes.
pub open spec fn unquoted(m: JsonModel) -> Seq<char> {
    without(json_text(m), '"')
}

/// The quote that one element of the answer's `data` array gives.
pub open spec fn quote_of(e: JsonModel) -> QuoteModel {
    QuoteModel {
        name: unquoted(member(e, "name"@)),
        symbol: unquoted(member(e, "symbol"@)),
        price: json_text(member(member(member(e, "quote"@), "USD"@), "price"@)),
    }
}

/// The message of a rejected request: the text of `status.error_message`
/// without backslashes and double quotes.
pub open spec fn rejection_message(doc: JsonModel) -> Seq<char> {
    without(without(json_text(member(member(doc, "status"@), "error_message"@)), '\\'), '"')
}

/// What an answer of the service with this status and body means.
pub open spec fn outcome_of(status: u16, body: Seq<char>) -> LookupModel {
    if is_success(status) {
        match json_parse(body) {
            Some(doc) => match member(doc, "data"@) {
                JsonModel::Array(items) => LookupModel::Success(
                    items.map_values(|e: JsonModel| quote_of(e)),
                ),
                _ => service_failure(),
            },
            None => service_failure(),
        }
    } else if status == 400 {
        match json_parse(body) {
            Some(doc) => LookupModel::UserError(rejection_message(doc)),
            None => service_failure(),
        }
    } else {
        service_failure()
    }
}

/// The outcome where no answer came: the service could not be reached or its
/// body could not be read.
pub fn transport_failure() -> (r: PriceLookupResult)
    ensures
        r@ == service_failure(),
{
    PriceLookupResult::ServiceError(String::from_str("CoinMarketCap API error, please try again later."))
}

/// The JSON text of a value without its double quotes.
fn unquoted_text(v: &serde_json::Value) -> (r: String)
    ensures
        r@ == unquoted(json_model(*v)),
{
    let t = value_text(v);
    remove_char(t.as_str(), '"')
}

/// The quote that one element of `data` gives.
fn quote_from(e: &serde_json::Value) -> (r: PriceQuote)
    ensures
        r@ == quote_of(json_model(*e)),
{
    let name = unquoted_text(get_member(e, "name"));
    let symbol = unquoted_text(get_member(e, "symbol"));
    let usd = get_member(get_member(e, "quote"), "USD");
    let price = value_text(get_member(usd, "price"));
    PriceQuote { name, symbol, price }
}

/// Interprets an answer of the price service: a success status gives one
/// quote per element of `data`, in order; 400 gives the service's message as
/// a user error; any other status, and a body that is not the JSON expected,
/// gives the fixed service failure.
pub fn interpret_response(status: u16, body: &str) -> (r: PriceLookupResult)
    ensures
        r@ == outcome_of(status, body@),
        !is_success(status) && status != 400 ==> r@ == service_failure(),
{
    if 200 <= status && status <= 299 {
        match parse_json(body) {
            Some(doc) => {
                let data = get_member(&doc, "data");
                match array_items(data) {
                    Some(items) => {
                        let ghost elems = items@.map_values(|e: serde_json::Value| json_model(e));
                        let mut quotes: Vec<PriceQuote> = Vec::new();
                        let mut i: usize = 0;
                        while i < items.len()
                            invariant
                                i <= items@.len(),
                                elems == items@.map_values(|e: serde_json::Value| json_model(e)),
                                quotes@.len() == i,
                                forall|j: int| 0 <= j < i ==> #[trigger] quotes@[j]@ == quote_of(elems[j]),
                            decreases items@.len() - i,
                        {
                            let q = quote_from(&items[i]);
                            assert(elems[i as int] == json_model(items@[i as int]));
                            quotes.push(q);
                            i = i + 1;
                        }
                        assert(quotes@.map_values(|x: PriceQuote| x@) =~= elems.map_values(
                            |e: JsonModel| quote_of(e),
                        ));
                        PriceLookupResult::Success(quotes)
                    },
                    None => transport_failure(),
                }
            },
            None => transport_failure(),
        }
    } else if status == 400 {
        match parse_json(body) {
            Some(doc) => {
                let m = get_member(get_member(&doc, "status"), "error_message");
                let t = value_text(m);
                let t = remove_char(t.as_str(), '\\');
                PriceLookupResult::UserError(remove_char(t.as_str(), '"'))
            },
            None => transport_failure(),
        }
    } else {
        transport_failure()
    }
}

/// The address of a lookup: the endpoint with `symbol` and `amount` as query
/// parameters, as given.
pub fn request_url(symbol: &str, amount: &str) -> (r: String)
    ensures
        r@ == PRICE_ENDPOINT@ + "?symbol="@ + symbol@ + "&amount="@ + amount@,
{
    let mut r = String::from_str(PRICE_ENDPOINT);
    r.append("?symbol=");
    r.append(symbol);
    r.append("&amount=");
    r.append(amount);
    r
}

} // verus!
