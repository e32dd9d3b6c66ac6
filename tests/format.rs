use price_bot::calc::{decimal, parse_calc_args, split_words};
use price_bot::command::{parse_command, Command};
use price_bot::price::{PriceLookupResult, PriceQuote};
use price_bot::render::render;
use price_bot::text::{escape_dots, remove_char};

fn bitcoin() -> PriceLookupResult {
    PriceLookupResult::Success(vec![PriceQuote {
        name: "Bitcoin".to_string(),
        symbol: "BTC".to_string(),
        price: "65000.5".to_string(),
    }])
}

#[test]
fn render_success_with_amount() {
    assert_eq!(
        render(&bitcoin(), Some("10")),
        "`10` 个\n\n`Bitcoin`（`BTC`）的价格为: 65000\\.5 USD\n"
    );
}

#[test]
fn render_escapes_every_period() {
    let r = PriceLookupResult::Success(vec![PriceQuote {
        name: "A.B".to_string(),
        symbol: "AB".to_string(),
        price: "0.001".to_string(),
    }]);
    assert_eq!(render(&r, None), "\n`A\\.B`（`AB`）的价格为: 0\\.001 USD\n");
}

#[test]
fn render_empty_success_is_empty() {
    assert_eq!(render(&PriceLookupResult::Success(vec![]), None), "");
    assert_eq!(render(&PriceLookupResult::Success(vec![]), Some("2")), "`2` 个\n");
}

#[test]
fn render_errors_as_they_are() {
    let u = PriceLookupResult::UserError("Invalid value for symbol.".to_string());
    assert_eq!(render(&u, Some("3")), "Invalid value for symbol.");
    let s = PriceLookupResult::ServiceError("CoinMarketCap API error, please try again later.".to_string());
    assert_eq!(render(&s, None), "CoinMarketCap API error, please try again later.");
}

#[test]
fn render_twice_is_the_same() {
    let r = bitcoin();
    assert_eq!(render(&r, Some("10")), render(&r, Some("10")));
    assert_eq!(render(&r, None), render(&r, None));
}

#[test]
fn words_split_on_any_white_space() {
    assert_eq!(split_words("  a \t bb\u{3000}c\n"), vec!["a", "bb", "c"]);
    assert_eq!(split_words(""), Vec::<String>::new());
    assert_eq!(split_words(" \u{a0} "), Vec::<String>::new());
}

#[test]
fn decimal_matches_float_parsing() {
    for s in [
        "10", "0.5", ".5", "5.", "-2e3", "+1E-2", "inf", "-Infinity", "NaN", "1e+5", ".", "", "e5",
        "1e", "1e+", "abc", "1.2.3", "1..", "--1", "+", "0x10", "1_000", " 1", "infin", "nanx",
    ] {
        assert_eq!(decimal(s), s.parse::<f32>().is_ok(), "{}", s);
    }
}

#[test]
fn calc_args_split_and_check() {
    let a = parse_calc_args("10 BTC").unwrap();
    assert_eq!(a.amount, "10");
    assert_eq!(a.symbol, "BTC");
    assert!(parse_calc_args("abc BTC").is_none());
    assert!(parse_calc_args("").is_none());
    assert!(parse_calc_args("10").is_none());
    assert!(parse_calc_args("10 BTC ETH").is_none());
}

#[test]
fn commands_parse_with_their_arguments() {
    assert_eq!(parse_command("/p btc eth", "b"), Some(Command::P { name: "btc eth".to_string() }));
    assert_eq!(parse_command("/p", "b"), Some(Command::P { name: "".to_string() }));
    assert_eq!(parse_command("/calc 1 X", "b"), Some(Command::Calc { param: "1 X".to_string() }));
    assert_eq!(parse_command("/info@B", "b"), Some(Command::Info));
    assert_eq!(parse_command("/start@b@x", "b"), Some(Command::Start));
    assert_eq!(parse_command("/start@c", "b"), None);
    assert_eq!(parse_command("start", "b"), None);
}

#[test]
fn text_helpers() {
    assert_eq!(escape_dots("1.5.x"), "1\\.5\\.x");
    assert_eq!(remove_char("\"a\\\"b\"", '"'), "a\\b");
}
