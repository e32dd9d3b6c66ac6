use price_bot::price::{interpret_response, request_url, transport_failure, PriceLookupResult, PriceQuote};

const FAILURE: &str = "CoinMarketCap API error, please try again later.";

#[test]
fn success_gives_one_quote_per_element() {
    let body = r#"{"status":{"error_code":0},"data":[{"name":"Bitcoin","symbol":"BTC","quote":{"USD":{"price":65000.5}}},{"name":"Bitcoin Cash","symbol":"BTC","quote":{"USD":{"price":12}}}]}"#;
    assert_eq!(
        interpret_response(200, body),
        PriceLookupResult::Success(vec![
            PriceQuote {
                name: "Bitcoin".to_string(),
                symbol: "BTC".to_string(),
                price: "65000.5".to_string()
            },
            PriceQuote {
                name: "Bitcoin Cash".to_string(),
                symbol: "BTC".to_string(),
                price: "12".to_string()
            },
        ])
    );
}

#[test]
fn success_with_empty_data_is_empty() {
    assert_eq!(interpret_response(200, r#"{"data":[]}"#), PriceLookupResult::Success(vec![]));
}

#[test]
fn missing_fields_print_as_null() {
    assert_eq!(
        interpret_response(200, r#"{"data":[{"name":"X"}]}"#),
        PriceLookupResult::Success(vec![PriceQuote {
            name: "X".to_string(),
            symbol: "null".to_string(),
            price: "null".to_string()
        }])
    );
}

#[test]
fn success_without_data_array_is_service_error() {
    assert_eq!(
        interpret_response(200, r#"{"data":{}}"#),
        PriceLookupResult::ServiceError(FAILURE.to_string())
    );
    assert_eq!(
        interpret_response(201, "not json"),
        PriceLookupResult::ServiceError(FAILURE.to_string())
    );
}

#[test]
fn bad_request_gives_user_error() {
    let body = r#"{"status":{"error_message":"Invalid value for \"symbol\""}}"#;
    assert_eq!(
        interpret_response(400, body),
        PriceLookupResult::UserError("Invalid value for symbol".to_string())
    );
}

#[test]
fn bad_request_with_malformed_body_is_service_error() {
    assert_eq!(
        interpret_response(400, "{oops"),
        PriceLookupResult::ServiceError(FAILURE.to_string())
    );
}

#[test]
fn other_status_is_service_error_whatever_the_body() {
    assert_eq!(
        interpret_response(500, r#"{"data":[]}"#),
        PriceLookupResult::ServiceError(FAILURE.to_string())
    );
    assert_eq!(interpret_response(500, ""), PriceLookupResult::ServiceError(FAILURE.to_string()));
    assert_eq!(interpret_response(401, "x"), PriceLookupResult::ServiceError(FAILURE.to_string()));
    assert_eq!(interpret_response(199, "x"), PriceLookupResult::ServiceError(FAILURE.to_string()));
}

#[test]
fn transport_failure_is_service_error() {
    assert_eq!(transport_failure(), PriceLookupResult::ServiceError(FAILURE.to_string()));
}

#[test]
fn url_carries_symbol_and_amount() {
    assert_eq!(
        request_url("BTC", "10"),
        "https://pro-api.coinmarketcap.com/v2/tools/price-conversion?symbol=BTC&amount=10"
    );
}
