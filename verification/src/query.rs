//! The client: one method for each endpoint of the exchange, the request
//! that a query turns into, and the answer that a response body stands for.

use vstd::prelude::*;
use vstd::string::StringExecFns;
use crate::envelope::{
    envelope_of,
    outcome,
    parse_envelope,
    parse_vec_envelope,
    text_of,
    vec_envelope_of,
    Envelope,
};
use crate::error::{Error, ErrorType, Failure};
use crate::params::{entries, json_text, query_text, Amount, Datum, Field, Params};
use crate::sign::{sign, signed_header, unsigned_failure, Nonce};
use crate::values::{APIResult, APIVecResult};

verus! {

/// Where the exchange is reached.
pub const API_URL: &'static str = "https://tradesatoshi.com/api/";

/// The two classes of endpoint: public ones are read without credentials,
/// private ones must be signed.
#[derive(Clone, Copy, Debug, PartialEq, Eq, Structural)]
pub enum Api {
    Public,
    Private,
}

impl Api {
    /// The path segment that stands for the class in an address.
    pub open spec fn segment_text(self) -> Seq<char> {
        match self {
            Api::Public => "public"@,
            Api::Private => "private"@,
        }
    }

    /// The path segment that stands for the class in an address.
    pub fn segment(self) -> (r: &'static str)
        ensures
            r@ == self.segment_text(),
    {
        match self {
            Api::Public => "public",
            Api::Private => "private",
        }
    }
}

/// A call that has been decided on and not yet sent: which endpoint, of
/// which class, with which parameters.
pub struct Query {
    pub kind: Api,
    pub endpoint: String,
    pub params: Option<Params>,
}

/// A query as the contracts see it.
pub ghost struct QueryView {
    pub kind: Api,
    pub endpoint: Seq<char>,
    pub params: Option<Map<Field, Datum>>,
}

impl View for Query {
    type V = QueryView;

    open spec fn view(&self) -> QueryView {
        QueryView {
            kind: self.kind,
            endpoint: self.endpoint@,
            params: match self.params {
                Some(params) => Some(params@),
                None => None,
            },
        }
    }
}

impl Query {
    /// A query for `endpoint` that carries no parameter set.
    pub fn new(endpoint: String, kind: Api) -> (q: Query)
        ensures
            q@ == (QueryView { kind, endpoint: endpoint@, params: None }),
    {
        Query { endpoint, kind, params: None }
    }

    /// The query with `params` as its parameter set.
    pub fn params(self, params: Params) -> (q: Query)
        ensures
            q@ == (QueryView { kind: self.kind, endpoint: self.endpoint@, params: Some(params@) }),
    {
        Query { endpoint: self.endpoint, kind: self.kind, params: Some(params) }
    }
}

/// How a request is sent.
#[derive(Clone, Copy, Debug, PartialEq, Eq, Structural)]
pub enum Method {
    Get,
    Post,
}

/// A request that is ready to be sent as it stands.
pub struct HttpRequest {
    pub method: Method,
    pub url: String,
    /// The headers, each as name and value, in the order to send them in.
    pub headers: Vec<(String, String)>,
    pub body: Option<String>,
}

/// A request as the contracts see it.
pub ghost struct RequestView {
    pub method: Method,
    pub url: Seq<char>,
    pub headers: Seq<(Seq<char>, Seq<char>)>,
    pub body: Option<Seq<char>>,
}

impl View for HttpRequest {
    type V = RequestView;

    open spec fn view(&self) -> RequestView {
        RequestView {
            method: self.method,
            url: self.url@,
            headers: self.headers.deep_view(),
            body: text_of(self.body),
        }
    }
}

/// The address of an endpoint: the base, the segment of the class, a slash
/// and the name of the endpoint.
pub open spec fn endpoint_url(base: Seq<char>, kind: Api, endpoint: Seq<char>) -> Seq<char> {
    base + kind.segment_text() + seq!['/'] + endpoint
}

/// The headers of a signed request: the content type, the authorization
/// and the name of the client, in this order.
pub open spec fn signed_headers(authorization: Seq<char>) -> Seq<(Seq<char>, Seq<char>)> {
    seq![
        ("Content-Type"@, "application/json; charset=utf-8"@),
        ("Authorization"@, authorization),
        ("User-Agent"@, "Mozilla/4.0 (compatible; TradeSatoshi API Rust client)"@),
    ]
}

/// The text to use where an optional text was left out.
pub open spec fn text_or(value: Option<String>, default: Seq<char>) -> Seq<char> {
    match value {
        Some(s) => s@,
        None => default,
    }
}

/// The number to use where an optional number was left out.
pub open spec fn number_or(value: Option<u32>, default: u32) -> u32 {
    match value {
        Some(n) => n,
        None => default,
    }
}

/// `fields` with `field` set to a text where one is given.
pub open spec fn with_text(fields: Map<Field, Datum>, field: Field, value: Option<String>) -> Map<
    Field,
    Datum,
> {
    match value {
        Some(s) => fields.insert(field, Datum::Text(s@)),
        None => fields,
    }
}

/// `fields` with `field` set to a number where one is given.
pub open spec fn with_number(fields: Map<Field, Datum>, field: Field, value: Option<u32>) -> Map<
    Field,
    Datum,
> {
    match value {
        Some(n) => fields.insert(field, Datum::Number(n as nat)),
        None => fields,
    }
}

/// The parameter set with no field set.
pub open spec fn no_fields() -> Map<Field, Datum> {
    Map::empty()
}

/// A text as a field value.
pub open spec fn text(value: Seq<char>) -> Datum {
    Datum::Text(value)
}

/// A number as a field value.
pub open spec fn number(value: u32) -> Datum {
    Datum::Number(value as nat)
}

/// A quantity as a field value.
pub open spec fn quantity(value: Amount) -> Datum {
    Datum::Quantity(value.units as nat)
}

/// The query for `endpoint` of class `kind` with the parameter set `fields`.
pub open spec fn query_for(kind: Api, endpoint: Seq<char>, fields: Map<Field, Datum>) -> QueryView {
    QueryView { kind, endpoint, params: Some(fields) }
}

/// The credentials and the address that every call of a client goes by.
pub struct Client {
    api_url: String,
    api_key: String,
    api_secret: String,
}

/// A client as the contracts see it.
pub ghost struct ClientView {
    pub api_url: Seq<char>,
    pub api_key: Seq<char>,
    pub api_secret: Seq<char>,
}

impl View for Client {
    type V = ClientView;

    closed spec fn view(&self) -> ClientView {
        ClientView {
            api_url: self.api_url@,
            api_key: self.api_key@,
            api_secret: self.api_secret@,
        }
    }
}

/// The request that a query turns into.
///
/// A public query is a plain `GET` of the endpoint's address with the
/// parameters, where there are any, as its query string. A private query is
/// a `POST` of the parameters as a JSON body to the endpoint's address,
/// signed over that address and that body; where it cannot be signed there
/// is no request.
pub open spec fn request_of(client: ClientView, query: QueryView, nonce: Seq<char>) -> Result<
    RequestView,
    Failure,
>
    recommends
        query.kind == Api::Private ==> query.params is Some,
{
    let url = endpoint_url(client.api_url, query.kind, query.endpoint);
    match query.kind {
        Api::Public => Ok(
            RequestView {
                method: Method::Get,
                url: match query.params {
                    Some(fields) => url + query_text(entries(fields)),
                    None => url,
                },
                headers: Seq::empty(),
                body: None,
            },
        ),
        Api::Private => {
            let body = json_text(entries(query.params->0));
            match signed_header(client.api_key, client.api_secret, "POST"@, url, nonce, body) {
                Some(authorization) => Ok(
                    RequestView {
                        method: Method::Post,
                        url,
                        headers: signed_headers(authorization),
                        body: Some(body),
                    },
                ),
                None => Err(unsigned_failure(client.api_secret)),
            }
        },
    }
}

/// An envelope with a result of any type as the contracts see it.
pub open spec fn envelope<T>(api_result: APIResult<T>) -> Envelope<T> {
    Envelope {
        success: api_result.success,
        message: text_of(api_result.message),
        result: api_result.result,
    }
}

/// An envelope with a list of results of any type as the contracts see it.
pub open spec fn vec_envelope<T>(api_result: APIVecResult<T>) -> Envelope<Vec<T>> {
    Envelope {
        success: api_result.success,
        message: text_of(api_result.message),
        result: api_result.result,
    }
}

/// What a response body stands for when one record is expected: the JSON
/// text of the record, or the failure.
pub open spec fn decoded_scalar(body: Seq<char>) -> Result<Seq<char>, Failure> {
    match envelope_of(body) {
        Ok(envelope) => outcome(envelope),
        Err(failure) => Err(failure),
    }
}

/// What a response body stands for when a list of records is expected: the
/// JSON text of each record, or the failure.
pub open spec fn decoded_list(body: Seq<char>) -> Result<Seq<Seq<char>>, Failure> {
    match vec_envelope_of(body) {
        Ok(envelope) => outcome(envelope),
        Err(failure) => Err(failure),
    }
}

impl Client {
    /// A client for the exchange with the given credentials.
    pub fn new(api_key: String, api_secret: String) -> (client: Client)
        ensures
            client@ == (ClientView {
                api_url: API_URL@,
                api_key: api_key@,
                api_secret: api_secret@,
            }),
    {
        Client { api_url: String::from_str(API_URL), api_key, api_secret }
    }

    /// The request that `query` turns into. The query and the nonce are used
    /// up: a request that is sent again is built again, with a new nonce.
    /// The nonce goes into the signature of a private query; a public query
    /// makes no use of it.
    pub fn run(&self, query: Query, nonce: Nonce) -> (r: Result<HttpRequest, Error>)
        requires
            query.kind == Api::Private ==> query.params is Some,
        ensures
            match r {
                Ok(request) => request_of(self@, query@, nonce@) == Ok::<_, Failure>(request@),
                Err(e) => request_of(self@, query@, nonce@) == Err::<RequestView, _>(e@),
            },
    {
        let mut url = self.api_url.clone();
        url.append(query.kind.segment());
        url.push('/');
        url.append(query.endpoint.as_str());
        assert(url@ =~= endpoint_url(self@.api_url, query.kind, query.endpoint@));
        match query.kind {
            Api::Public => {
                match &query.params {
                    Some(params) => {
                        let query_string = params.to_query_params();
                        url.append(query_string.as_str());
                    },
                    None => {},
                }
                let request = HttpRequest {
                    method: Method::Get,
                    url,
                    headers: Vec::new(),
                    body: None,
                };
                assert(request.headers.deep_view() =~= Seq::empty());
                Ok(request)
            },
            Api::Private => {
                let body = match &query.params {
                    Some(params) => params.to_json_body(),
                    None => String::new(),
                };
                let headers = self.generate_header(url.as_str(), body.as_str(), &nonce)?;
                Ok(HttpRequest { method: Method::Post, url, headers, body: Some(body) })
            },
        }
    }

    /// The headers of a signed `POST` of `body` to `url`.
    ///
    /// Fails with a `ConfigurationError` where the request cannot be signed.
    pub fn generate_header(&self, url: &str, body: &str, nonce: &Nonce) -> (r: Result<
        Vec<(String, String)>,
        Error,
    >)
        ensures
            match r {
                Ok(headers) => {
                    &&& signed_header(self@.api_key, self@.api_secret, "POST"@, url@, nonce@, body@)
                        is Some
                    &&& headers.deep_view() == signed_headers(
                        signed_header(
                            self@.api_key,
                            self@.api_secret,
                            "POST"@,
                            url@,
                            nonce@,
                            body@,
                        )->0,
                    )
                },
                Err(e) => {
                    &&& signed_header(self@.api_key, self@.api_secret, "POST"@, url@, nonce@, body@)
                        is None
                    &&& e@ == unsigned_failure(self@.api_secret)
                },
            },
    {
        let authorization = sign(
            self.api_key.as_str(),
            self.api_secret.as_str(),
            "POST",
            url,
            nonce,
            body,
        )?;
        let mut headers: Vec<(String, String)> = Vec::new();
        headers.push(
            (String::from_str("Content-Type"), String::from_str("application/json; charset=utf-8")),
        );
        headers.push((String::from_str("Authorization"), authorization));
        headers.push(
            (
                String::from_str("User-Agent"),
                String::from_str("Mozilla/4.0 (compatible; TradeSatoshi API Rust client)"),
            ),
        );
        assert(headers.deep_view() =~= signed_headers(authorization@));
        Ok(headers)
    }

    /// The outcome that an envelope around one record stands for.
    pub fn check_single_response<T>(&self, api_result: APIResult<T>) -> (r: Result<T, Error>)
        ensures
            match r {
                Ok(value) => outcome(envelope(api_result)) == Ok::<_, Failure>(value),
                Err(e) => outcome(envelope(api_result)) == Err::<T, _>(e@),
            },
    {
        if api_result.success {
            return match api_result.result {
                Some(value) => Ok(value),
                None => Err(
                    Error::new(
                        ErrorType::MalformedResponseError,
                        "The response reports success but holds no result",
                    ),
                ),
            };
        }
        match api_result.message {
            Some(message) => Err(Error { error_type: ErrorType::APIError, message }),
            None => Err(Error::new(ErrorType::APIError, "An error occurred.")),
        }
    }

    /// The outcome that an envelope around a list of records stands for.
    pub fn check_vec_response<T>(&self, api_result: APIVecResult<T>) -> (r: Result<Vec<T>, Error>)
        ensures
            match r {
                Ok(values) => outcome(vec_envelope(api_result)) == Ok::<_, Failure>(values),
                Err(e) => outcome(vec_envelope(api_result)) == Err::<Vec<T>, _>(e@),
            },
    {
        if api_result.success {
            return match api_result.result {
                Some(values) => Ok(values),
                None => Err(
                    Error::new(
                        ErrorType::MalformedResponseError,
                        "The response reports success but holds no result",
                    ),
                ),
            };
        }
        match api_result.message {
            Some(message) => Err(Error { error_type: ErrorType::APIError, message }),
            None => Err(Error::new(ErrorType::APIError, "An error occurred.")),
        }
    }

    /// Reads a response body that holds one record and returns the JSON
    /// text of the record.
    pub fn decode_scalar(&self, body: &str) -> (r: Result<String, Error>)
        ensures
            match r {
                Ok(record) => decoded_scalar(body@) == Ok::<_, Failure>(record@),
                Err(e) => decoded_scalar(body@) == Err::<Seq<char>, _>(e@),
            },
    {
        let api_result = parse_envelope(body)?;
        self.check_single_response(api_result)
    }

    /// Reads a response body that holds a list of records and returns the
    /// JSON text of each record.
    pub fn decode_list(&self, body: &str) -> (r: Result<Vec<String>, Error>)
        ensures
            match r {
                Ok(records) => decoded_list(body@) == Ok::<_, Failure>(records.deep_view()),
                Err(e) => decoded_list(body@) == Err::<Seq<Seq<char>>, _>(e@),
            },
    {
        let api_result = parse_vec_envelope(body)?;
        self.check_vec_response(api_result)
    }

    // Public endpoints

    /// The currencies that the exchange lists.
    pub fn get_currencies(&self) -> (q: Query)
        ensures
            q@ == (QueryView { kind: Api::Public, endpoint: "getcurrencies"@, params: None }),
    {
        Query::new(String::from_str("getcurrencies"), Api::Public)
    }

    /// The ticker of `market`, for instance `LTC_BTC`.
    pub fn get_ticker(&self, market: String) -> (q: Query)
        ensures
            q@ == query_for(
                Api::Public,
                "getticker"@,
                no_fields().insert(Field::Market, text(market@)),
            ),
    {
        let params = Params::new().market(market);
        Query::new(String::from_str("getticker"), Api::Public).params(params)
    }

    /// The latest trades on `market`: at most `count` of them, 20 where no
    /// count is given.
    pub fn get_market_history(&self, market: String, count: Option<u32>) -> (q: Query)
        ensures
            q@ == query_for(
                Api::Public,
                "getmarkethistory"@,
                no_fields().insert(Field::Market, text(market@)).insert(
                    Field::Count,
                    number(number_or(count, 20)),
                ),
            ),
    {
        let count: u32 = or_number(count, 20);
        let params = Params::new().market(market).count(count);
        Query::new(String::from_str("getmarkethistory"), Api::Public).params(params)
    }

    /// The summary of `market`.
    pub fn get_market_summary(&self, market: String) -> (q: Query)
        ensures
            q@ == query_for(
                Api::Public,
                "getmarketsummary"@,
                no_fields().insert(Field::Market, text(market@)),
            ),
    {
        let params = Params::new().market(market);
        Query::new(String::from_str("getmarketsummary"), Api::Public).params(params)
    }

    /// The summaries of all markets.
    pub fn get_market_summaries(&self) -> (q: Query)
        ensures
            q@ == (QueryView { kind: Api::Public, endpoint: "getmarketsummaries"@, params: None }),
    {
        Query::new(String::from_str("getmarketsummaries"), Api::Public)
    }

    /// The order book of `market`: the side `typeo` of it (`buy`, `sell` or
    /// `both`; `both` where none is given), at most `depth` orders deep, 20
    /// where no depth is given.
    pub fn get_order_book(
        &self,
        market: String,
        typeo: Option<String>,
        depth: Option<u32>,
    ) -> (q: Query)
        ensures
            q@ == query_for(
                Api::Public,
                "getorderbook"@,
                no_fields().insert(Field::Market, text(market@)).insert(
                    Field::Type,
                    text(text_or(typeo, "both"@)),
                ).insert(Field::Depth, number(number_or(depth, 20))),
            ),
    {
        let side = or_text(typeo, "both");
        let depth: u32 = or_number(depth, 20);
        let params = Params::new().market(market).typeo(side).depth(depth);
        Query::new(String::from_str("getorderbook"), Api::Public).params(params)
    }

    // Private endpoints

    /// The balance held in `currency`, for instance `BTC`.
    pub fn get_balance(&self, currency: String) -> (q: Query)
        ensures
            q@ == query_for(
                Api::Private,
                "getbalance"@,
                no_fields().insert(Field::Currency, text(currency@)),
            ),
    {
        let params = Params::new().currency(currency);
        Query::new(String::from_str("getbalance"), Api::Private).params(params)
    }

    /// The balances held in all currencies.
    pub fn get_balances(&self) -> (q: Query)
        ensures
            q@ == query_for(
                Api::Private,
                "getbalances"@,
                no_fields(),
            ),
    {
        let params = Params::new();
        Query::new(String::from_str("getbalances"), Api::Private).params(params)
    }

    /// The order with the identifier `orderid`.
    pub fn get_order(&self, orderid: u32) -> (q: Query)
        ensures
            q@ == query_for(
                Api::Private,
                "getorder"@,
                no_fields().insert(Field::OrderId, number(orderid)),
            ),
    {
        let params = Params::new().orderid(orderid);
        Query::new(String::from_str("getorder"), Api::Private).params(params)
    }

    /// The open orders on `market` (on all markets where none is given): at
    /// most `count` of them, 20 where no count is given.
    pub fn get_orders(&self, market: Option<String>, count: Option<u32>) -> (q: Query)
        ensures
            q@ == query_for(
                Api::Private,
                "getorders"@,
                no_fields().insert(Field::Market, text(text_or(market, "all"@))).insert(
                    Field::Count,
                    number(number_or(count, 20)),
                ),
            ),
    {
        let market_name = or_text(market, "all");
        let count: u32 = or_number(count, 20);
        let params = Params::new().market(market_name).count(count);
        Query::new(String::from_str("getorders"), Api::Private).params(params)
    }

    /// Places an order on `market`: `typeo` is `Buy` or `Sell`, `amount` the
    /// quantity and `price` the price of one coin.
    pub fn submit_order(
        &self,
        market: String,
        typeo: String,
        amount: Amount,
        price: Amount,
    ) -> (q: Query)
        ensures
            q@ == query_for(
                Api::Private,
                "submitorder"@,
                no_fields().insert(Field::Market, text(market@)).insert(
                    Field::Type,
                    text(typeo@),
                ).insert(Field::Amount, quantity(amount)).insert(Field::Price, quantity(price)),
            ),
    {
        let params = Params::new().market(market).typeo(typeo).amount(amount).price(price);
        Query::new(String::from_str("submitorder"), Api::Private).params(params)
    }

    /// Cancels orders. `typeo` says which: `Single`, `Market`, `MarketBuys`,
    /// `MarketSells`, `AllBuys`, `AllSells` or `All`. `orderid` names the order
    /// for `Single`, `market` the market for the three kinds that take one;
    /// each is sent only where it is given.
    pub fn cancel_order(
        &self,
        typeo: String,
        orderid: Option<u32>,
        market: Option<String>,
    ) -> (q: Query)
        ensures
            q@ == query_for(
                Api::Private,
                "cancelorder"@,
                with_number(
                    with_text(no_fields().insert(Field::Type, text(typeo@)), Field::Market, market),
                    Field::OrderId,
                    orderid,
                ),
            ),
    {
        let mut params = Params::new().typeo(typeo);
        params = match market {
            Some(market) => params.market(market),
            None => params,
        };
        params = match orderid {
            Some(orderid) => params.orderid(orderid),
            None => params,
        };
        Query::new(String::from_str("cancelorder"), Api::Private).params(params)

    }

    /// The trades made on `market` (on all markets where none is given): at
    /// most `count` of them, 20 where no count is given, from page `page_num`
    /// on, the first page where none is given.
    pub fn get_trade_history(
        &self,
        market: Option<String>,
        count: Option<u32>,
        page_num: Option<u32>,
    ) -> (q: Query)
        ensures
            q@ == query_for(
                Api::Private,
                "gettradehistory"@,
                no_fields().insert(Field::Market, text(text_or(market, "all"@))).insert(
                    Field::Count,
                    number(number_or(count, 20)),
                ).insert(Field::PageNumber, number(number_or(page_num, 0))),
            ),
    {
        let market_name = or_text(market, "all");
        let count: u32 = or_number(count, 20);
        let page_num: u32 = or_number(page_num, 0);
        let params = Params::new().market(market_name).count(count).page_num(page_num);
        Query::new(String::from_str("gettradehistory"), Api::Private).params(params)
    }

    /// A deposit address for `currency`.
    pub fn generate_address(&self, currency: String) -> (q: Query)
        ensures
            q@ == query_for(
                Api::Private,
                "generateaddress"@,
                no_fields().insert(Field::Currency, text(currency@)),
            ),
    {
        let params = Params::new().currency(currency);
        Query::new(String::from_str("generateaddress"), Api::Private).params(params)
    }

    /// Withdraws `amount` of `currency` to `address`.
    pub fn submit_withdraw(&self, currency: String, address: String, amount: Amount) -> (q: Query)
        ensures
            q@ == query_for(
                Api::Private,
                "submitwithdraw"@,
                no_fields().insert(Field::Currency, text(currency@)).insert(
                    Field::Address,
                    text(address@),
                ).insert(Field::Amount, quantity(amount)),
            ),
    {
        let params = Params::new().currency(currency).address(address).amount(amount);
        Query::new(String::from_str("submitwithdraw"), Api::Private).params(params)
    }

    /// The deposits made in `currency` (in all currencies where none is
    /// given): at most `count` of them, 20 where no count is given.
    pub fn get_deposits(&self, currency: Option<String>, count: Option<u32>) -> (q: Query)
        ensures
            q@ == query_for(
                Api::Private,
                "getdeposits"@,
                no_fields().insert(Field::Currency, text(text_or(currency, "all"@))).insert(
                    Field::Count,
                    number(number_or(count, 20)),
                ),
            ),
    {
        let currency_name = or_text(currency, "all");
        let count: u32 = or_number(count, 20);
        let params = Params::new().currency(currency_name).count(count);
        Query::new(String::from_str("getdeposits"), Api::Private).params(params)
    }

    /// The withdrawals made in `currency` (in all currencies where none is
    /// given): at most `count` of them, 20 where no count is given.
    pub fn get_withdrawals(&self, currency: Option<String>, count: Option<u32>) -> (q: Query)
        ensures
            q@ == query_for(
                Api::Private,
                "getwithdrawals"@,
                no_fields().insert(Field::Currency, text(text_or(currency, "all"@))).insert(
                    Field::Count,
                    number(number_or(count, 20)),
                ),
            ),
    {
        let currency_name = or_text(currency, "all");
        let count: u32 = or_number(count, 20);
        let params = Params::new().currency(currency_name).count(count);
        Query::new(String::from_str("getwithdrawals"), Api::Private).params(params)
    }

    /// Transfers `amount` of `currency` to the user `username`.
    pub fn submit_transfer(&self, currency: String, username: String, amount: Amount) -> (q: Query)
        ensures
            q@ == query_for(
                Api::Private,
                "submittransfer"@,
                no_fields().insert(Field::Currency, text(currency@)).insert(
                    Field::Username,
                    text(username@),
                ).insert(Field::Amount, quantity(amount)),
            ),
    {
        let params = Params::new().currency(currency).username(username).amount(amount);
        Query::new(String::from_str("submittransfer"), Api::Private).params(params)
    }
}

/// The text that was given, or the default where none was.
fn or_text(value: Option<String>, default: &str) -> (r: String)
    ensures
        r@ == text_or(value, default@),
{
    match value {
        Some(s) => s,
        None => String::from_str(default),
    }
}

/// The number that was given, or the default where none was.
fn or_number(value: Option<u32>, default: u32) -> (r: u32)
    ensures
        r == number_or(value, default),
{
    match value {
        Some(n) => n,
        None => default,
    }
}

/// A request depends on nothing but the client, the query and the nonce
/// it is built from: two runs of `run` on the same three end the same way,
/// with the same request or with the same error, whatever else was run
/// before or beside them.
pub proof fn lemma_run_is_deterministic(
    client: &Client,
    query: Query,
    nonce: Nonce,
    first: Result<HttpRequest, Error>,
    second: Result<HttpRequest, Error>,
)
    requires
        call_ensures(Client::run, (client, query, nonce), first),
        call_ensures(Client::run, (client, query, nonce), second),
    ensures
        first is Ok <==> second is Ok,
        first is Ok ==> first->Ok_0@ == second->Ok_0@,
        first is Err ==> first->Err_0@ == second->Err_0@,
{
}

} // verus!
