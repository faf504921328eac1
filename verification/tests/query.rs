use tradesatoshi::error::ErrorType;
use tradesatoshi::params::{Amount, Field, Params, Value};
use tradesatoshi::query::{Api, Client, Method, Query, API_URL};
use tradesatoshi::sign::Nonce;

fn client() -> Client {
    Client::new("key".to_string(), "c2VjcmV0".to_string())
}

fn nonce(digits: &str) -> Nonce {
    Nonce::from_fraction(&format!("0.{}", digits)).unwrap()
}

fn body_of(query: &Query) -> String {
    query.params.as_ref().unwrap().to_json_body()
}

fn text(s: &str) -> Option<Value> {
    Some(Value::Text(s.to_string()))
}

#[test]
fn the_exchange_is_reached_at_its_address() {
    assert_eq!(API_URL, "https://tradesatoshi.com/api/");
}

#[test]
fn each_class_has_its_path_segment() {
    assert_eq!(Api::Public.segment(), "public");
    assert_eq!(Api::Private.segment(), "private");
}

#[test]
fn a_new_query_carries_no_parameters() {
    let query = Query::new("getcurrencies".to_string(), Api::Public);
    assert_eq!(query.kind, Api::Public);
    assert_eq!(query.endpoint, "getcurrencies");
    assert!(query.params.is_none());
}

#[test]
fn a_query_takes_a_parameter_set() {
    let query = Query::new("getticker".to_string(), Api::Public)
        .params(Params::new().market("LTC_BTC".to_string()));
    assert_eq!(query.kind, Api::Public);
    assert_eq!(query.endpoint, "getticker");
    assert_eq!(query.params.unwrap().get(Field::Market), text("LTC_BTC"));
}

#[test]
fn get_market_history_defaults_the_count_to_twenty() {
    let query = client().get_market_history("LTC_BTC".to_string(), None);
    assert_eq!(query.kind, Api::Public);
    assert_eq!(query.endpoint, "getmarkethistory");
    let params = query.params.unwrap();
    assert_eq!(params.get(Field::Count), Some(Value::Number(20)));
    assert_eq!(params.get(Field::Market), text("LTC_BTC"));
    assert_eq!(params.to_query_params(), "?Market=LTC_BTC&Count=20");
}

#[test]
fn get_market_history_keeps_a_given_count() {
    let query = client().get_market_history("LTC_BTC".to_string(), Some(5));
    assert_eq!(query.params.unwrap().get(Field::Count), Some(Value::Number(5)));
}

#[test]
fn get_trade_history_defaults_the_market_to_all() {
    let query = client().get_trade_history(None, None, None);
    assert_eq!(query.kind, Api::Private);
    assert_eq!(query.endpoint, "gettradehistory");
    let params = query.params.unwrap();
    assert_eq!(params.get(Field::Market), text("all"));
    assert_eq!(params.get(Field::Count), Some(Value::Number(20)));
    assert_eq!(params.get(Field::PageNumber), Some(Value::Number(0)));
    assert_eq!(params.to_json_body(), "{\"Market\":\"all\",\"Count\":20,\"PageNumber\":0}");
}

#[test]
fn get_trade_history_keeps_what_is_given() {
    let query = client().get_trade_history(Some("LTC_BTC".to_string()), Some(3), Some(2));
    assert_eq!(body_of(&query), "{\"Market\":\"LTC_BTC\",\"Count\":3,\"PageNumber\":2}");
}

#[test]
fn get_order_book_defaults_the_side_and_the_depth() {
    let query = client().get_order_book("LTC_BTC".to_string(), None, None);
    assert_eq!(query.kind, Api::Public);
    assert_eq!(query.endpoint, "getorderbook");
    assert_eq!(
        query.params.unwrap().to_query_params(),
        "?Market=LTC_BTC&Type=both&Depth=20"
    );
    let query = client().get_order_book("LTC_BTC".to_string(), Some("sell".to_string()), Some(1));
    assert_eq!(query.params.unwrap().to_query_params(), "?Market=LTC_BTC&Type=sell&Depth=1");
}

#[test]
fn public_queries_without_parameters() {
    let query = client().get_currencies();
    assert_eq!((query.kind, query.endpoint.as_str()), (Api::Public, "getcurrencies"));
    assert!(query.params.is_none());
    let query = client().get_market_summaries();
    assert_eq!((query.kind, query.endpoint.as_str()), (Api::Public, "getmarketsummaries"));
    assert!(query.params.is_none());
}

#[test]
fn public_queries_for_one_market() {
    let query = client().get_ticker("LTC_BTC".to_string());
    assert_eq!((query.kind, query.endpoint.as_str()), (Api::Public, "getticker"));
    assert_eq!(query.params.unwrap().to_query_params(), "?Market=LTC_BTC");
    let query = client().get_market_summary("LTC_BTC".to_string());
    assert_eq!((query.kind, query.endpoint.as_str()), (Api::Public, "getmarketsummary"));
    assert_eq!(query.params.unwrap().to_query_params(), "?Market=LTC_BTC");
}

#[test]
fn private_queries_on_balances_and_addresses() {
    let query = client().get_balance("BTC".to_string());
    assert_eq!((query.kind, query.endpoint.as_str()), (Api::Private, "getbalance"));
    assert_eq!(body_of(&query), "{\"Currency\":\"BTC\"}");
    let query = client().get_balances();
    assert_eq!((query.kind, query.endpoint.as_str()), (Api::Private, "getbalances"));
    assert_eq!(body_of(&query), "{}");
    let query = client().generate_address("BTC".to_string());
    assert_eq!((query.kind, query.endpoint.as_str()), (Api::Private, "generateaddress"));
    assert_eq!(body_of(&query), "{\"Currency\":\"BTC\"}");
}

#[test]
fn private_queries_on_orders() {
    let query = client().get_order(17);
    assert_eq!((query.kind, query.endpoint.as_str()), (Api::Private, "getorder"));
    assert_eq!(body_of(&query), "{\"OrderId\":17}");
    let query = client().get_orders(None, None);
    assert_eq!((query.kind, query.endpoint.as_str()), (Api::Private, "getorders"));
    assert_eq!(body_of(&query), "{\"Market\":\"all\",\"Count\":20}");
    let query = client().get_orders(Some("LTC_BTC".to_string()), Some(1));
    assert_eq!(body_of(&query), "{\"Market\":\"LTC_BTC\",\"Count\":1}");
    let query = client().submit_order(
        "LTC_BTC".to_string(),
        "Buy".to_string(),
        Amount { units: 25_100_000_000 },
        Amount { units: 1_250_000 },
    );
    assert_eq!((query.kind, query.endpoint.as_str()), (Api::Private, "submitorder"));
    assert_eq!(
        body_of(&query),
        "{\"Market\":\"LTC_BTC\",\"Type\":\"Buy\",\"Amount\":251.00000000,\"Price\":0.01250000}"
    );
}

#[test]
fn cancel_order_sends_only_what_is_given() {
    let query = client().cancel_order("All".to_string(), None, None);
    assert_eq!((query.kind, query.endpoint.as_str()), (Api::Private, "cancelorder"));
    assert_eq!(body_of(&query), "{\"Type\":\"All\"}");
    let query = client().cancel_order("Single".to_string(), Some(9), None);
    assert_eq!(body_of(&query), "{\"Type\":\"Single\",\"OrderId\":9}");
    let query = client().cancel_order("Market".to_string(), None, Some("LTC_BTC".to_string()));
    assert_eq!(body_of(&query), "{\"Market\":\"LTC_BTC\",\"Type\":\"Market\"}");
    let query = client().cancel_order("Market".to_string(), Some(9), Some("LTC_BTC".to_string()));
    assert_eq!(body_of(&query), "{\"Market\":\"LTC_BTC\",\"Type\":\"Market\",\"OrderId\":9}");
}

#[test]
fn private_queries_on_funds_go_to_their_own_endpoints() {
    let query =
        client().submit_withdraw("BTC".to_string(), "addr".to_string(), Amount { units: 1 });
    assert_eq!((query.kind, query.endpoint.as_str()), (Api::Private, "submitwithdraw"));
    assert_eq!(
        body_of(&query),
        "{\"Currency\":\"BTC\",\"Amount\":0.00000001,\"Address\":\"addr\"}"
    );
    let query = client().get_deposits(None, None);
    assert_eq!((query.kind, query.endpoint.as_str()), (Api::Private, "getdeposits"));
    assert_eq!(body_of(&query), "{\"Count\":20,\"Currency\":\"all\"}");
    let query = client().get_withdrawals(Some("BTC".to_string()), Some(4));
    assert_eq!((query.kind, query.endpoint.as_str()), (Api::Private, "getwithdrawals"));
    assert_eq!(body_of(&query), "{\"Count\":4,\"Currency\":\"BTC\"}");
    let query = client().submit_transfer(
        "BTC".to_string(),
        "bob".to_string(),
        Amount { units: 100_000_000 },
    );
    assert_eq!((query.kind, query.endpoint.as_str()), (Api::Private, "submittransfer"));
    assert_eq!(
        body_of(&query),
        "{\"Currency\":\"BTC\",\"Amount\":1.00000000,\"Username\":\"bob\"}"
    );
}

#[test]
fn a_public_query_runs_as_a_plain_get() {
    let query = client().get_market_history("LTC_BTC".to_string(), None);
    let request = client().run(query, nonce("1")).unwrap();
    assert_eq!(request.method, Method::Get);
    assert_eq!(
        request.url,
        "https://tradesatoshi.com/api/public/getmarkethistory?Market=LTC_BTC&Count=20"
    );
    assert!(request.headers.is_empty());
    assert!(request.body.is_none());
}

#[test]
fn a_public_query_without_parameters_has_no_query_string() {
    let request = client().run(client().get_currencies(), nonce("1")).unwrap();
    assert_eq!(request.method, Method::Get);
    assert_eq!(request.url, "https://tradesatoshi.com/api/public/getcurrencies");
    assert!(request.headers.is_empty());
    assert!(request.body.is_none());
}

#[test]
fn a_public_query_with_an_empty_set_has_no_query_string() {
    let query = Query::new("getcurrencies".to_string(), Api::Public).params(Params::new());
    let request = client().run(query, nonce("1")).unwrap();
    assert_eq!(request.url, "https://tradesatoshi.com/api/public/getcurrencies");
}

#[test]
fn a_private_query_runs_as_a_signed_post() {
    let query = client().get_balance("BTC".to_string());
    let request = client().run(query, nonce("123456")).unwrap();
    assert_eq!(request.method, Method::Post);
    assert_eq!(request.url, "https://tradesatoshi.com/api/private/getbalance");
    assert_eq!(request.body, Some("{\"Currency\":\"BTC\"}".to_string()));
    let expected = vec![
        ("Content-Type".to_string(), "application/json; charset=utf-8".to_string()),
        (
            "Authorization".to_string(),
            "Basic key:nxZyYNfo8u8aMiazlkZxZ71OQHnoVgoic/SbXdy6L5tBAy4Yv2CIyDOG0/Ka1mySIhTVFN1jSOm/\
             UmhoTgm47Q==:123456"
                .to_string(),
        ),
        (
            "User-Agent".to_string(),
            "Mozilla/4.0 (compatible; TradeSatoshi API Rust client)".to_string(),
        ),
    ];
    assert_eq!(request.headers, expected);
}

#[test]
fn a_private_query_with_an_empty_set_posts_an_empty_object() {
    let request = client().run(client().get_balances(), nonce("5")).unwrap();
    assert_eq!(request.method, Method::Post);
    assert_eq!(request.url, "https://tradesatoshi.com/api/private/getbalances");
    assert_eq!(request.body, Some("{}".to_string()));
    assert_eq!(request.headers.len(), 3);
}

#[test]
fn a_private_query_is_not_built_with_a_secret_that_is_not_base64() {
    let client = Client::new("key".to_string(), "***".to_string());
    let error = client.run(client.get_balances(), nonce("5")).err().unwrap();
    assert_eq!(error.error_type, ErrorType::ConfigurationError);
    assert_eq!(error.message, "The API secret is not valid Base64");
}

#[test]
fn a_public_query_needs_no_valid_secret() {
    let client = Client::new("".to_string(), "***".to_string());
    assert!(client.run(client.get_currencies(), nonce("5")).is_ok());
}

#[test]
fn generate_header_signs_the_address_and_the_body() {
    let headers = client()
        .generate_header(
            "https://tradesatoshi.com/api/private/getbalance",
            "{\"Currency\":\"BTC\"}",
            &nonce("123457"),
        )
        .unwrap();
    assert_eq!(headers.len(), 3);
    assert_eq!(headers[1].0, "Authorization");
    assert_eq!(
        headers[1].1,
        "Basic key:noD9qOXnpBhVc0BLdhmhWdHLznrcDXSVs0W9iyxJgiCUd4dldOWQpjG2CoPjY8NgfedGXmjk40VPPbv2\
         j7uVTA==:123457"
    );
}

#[test]
fn run_gives_the_same_request_for_the_same_query_and_nonce() {
    let first = client().run(client().get_balance("BTC".to_string()), nonce("42")).unwrap();
    let other = client().run(client().get_orders(None, None), nonce("43")).unwrap();
    let second = client().run(client().get_balance("BTC".to_string()), nonce("42")).unwrap();
    assert_eq!(first.method, second.method);
    assert_eq!(first.url, second.url);
    assert_eq!(first.headers, second.headers);
    assert_eq!(first.body, second.body);
    assert_ne!(first.headers, other.headers);
}
