use price_bot::router::{respond, help_text, reply_for_lookup, Action, LookupRequest, Reply};
use price_bot::price::{PriceLookupResult, PriceQuote};

const USAGE: &str = "参数错误，请按照`/calc [数量] [币名]`输入。\n\n示例：`/calc 10 BTC`";

fn usage() -> Action {
    Action::Send(Reply { text: USAGE.to_string(), markdown: true })
}

fn not_found() -> Action {
    Action::Send(Reply { text: "Command not found!".to_string(), markdown: false })
}

#[test]
fn plain_text_is_not_a_command() {
    assert_eq!(respond(Some("hello there"), "coin_bot"), not_found());
    assert_eq!(respond(Some("help"), "coin_bot"), not_found());
    assert_eq!(respond(Some("/unknown"), "coin_bot"), not_found());
    assert_eq!(respond(Some(" /help"), "coin_bot"), not_found());
    assert_eq!(respond(Some("/"), "coin_bot"), not_found());
}

#[test]
fn command_for_another_bot_is_not_found() {
    assert_eq!(respond(Some("/help@other_bot"), "coin_bot"), not_found());
    assert_eq!(respond(Some("/p@other_bot BTC"), "coin_bot"), not_found());
}

#[test]
fn message_without_text_gets_no_reply() {
    assert_eq!(respond(None, "coin_bot"), Action::Ignore);
}

#[test]
fn help_lists_every_command() {
    let expected = "/start - 启动机器人\n/help - 查看所有命令\n/p [币名] - 获取币价\n/calc [数量] [币名] - 计算总价\n/info - 机器人信息\n";
    assert_eq!(help_text(), expected);
    assert_eq!(
        respond(Some("/help"), "coin_bot"),
        Action::Send(Reply { text: expected.to_string(), markdown: false })
    );
}

#[test]
fn keyword_and_bot_name_ignore_case() {
    let help = Action::Send(Reply { text: help_text(), markdown: false });
    assert_eq!(respond(Some("/HELP"), "coin_bot"), help);
    assert_eq!(respond(Some("/help@Coin_Bot"), "coin_bot"), help);
    assert_eq!(respond(Some("/help extra words"), "coin_bot"), help);
}

#[test]
fn start_and_info_are_markup_replies() {
    match respond(Some("/start"), "coin_bot") {
        Action::Send(r) => {
            assert!(r.markdown);
            assert!(r.text.starts_with("输入 `/help` 查看所有命令。"));
        }
        other => panic!("unexpected {:?}", other),
    }
    match respond(Some("/info"), "coin_bot") {
        Action::Send(r) => {
            assert!(r.markdown);
            assert!(r.text.contains("CoinmarketCap"));
        }
        other => panic!("unexpected {:?}", other),
    }
}

#[test]
fn price_command_asks_for_one_unit() {
    assert_eq!(
        respond(Some("/p BTC"), "coin_bot"),
        Action::Lookup(LookupRequest {
            amount: "1".to_string(),
            symbol: "BTC".to_string(),
            show_amount: false
        })
    );
    assert_eq!(
        respond(Some("/p@coin_bot eth"), "coin_bot"),
        Action::Lookup(LookupRequest {
            amount: "1".to_string(),
            symbol: "eth".to_string(),
            show_amount: false
        })
    );
}

#[test]
fn calc_with_wrong_word_count_gives_usage() {
    assert_eq!(respond(Some("/calc"), "coin_bot"), usage());
    assert_eq!(respond(Some("/calc   "), "coin_bot"), usage());
    assert_eq!(respond(Some("/calc 10"), "coin_bot"), usage());
    assert_eq!(respond(Some("/calc 10 BTC extra"), "coin_bot"), usage());
    assert_eq!(respond(Some("/calc 1 2 3 4"), "coin_bot"), usage());
}

#[test]
fn calc_ten_btc_looks_up_ten() {
    match respond(Some("/calc 10 BTC"), "coin_bot") {
        Action::Lookup(req) => {
            assert_eq!(req.symbol, "BTC");
            assert!(req.show_amount);
            assert_eq!(req.amount.parse::<f32>().unwrap(), 10.0);
        }
        other => panic!("unexpected {:?}", other),
    }
}

#[test]
fn calc_accepts_decimals_and_extra_spaces() {
    assert_eq!(
        respond(Some("/calc  0.5\tETH "), "coin_bot"),
        Action::Lookup(LookupRequest {
            amount: "0.5".to_string(),
            symbol: "ETH".to_string(),
            show_amount: true
        })
    );
}

#[test]
fn calc_with_non_numeric_amount_gives_usage() {
    assert_eq!(respond(Some("/calc abc BTC"), "coin_bot"), usage());
    assert_eq!(respond(Some("/calc 1.2.3 BTC"), "coin_bot"), usage());
    assert_eq!(respond(Some("/calc BTC 10"), "coin_bot"), usage());
}

#[test]
fn lookup_reply_heads_with_amount_for_calc() {
    let result = PriceLookupResult::Success(vec![PriceQuote {
        name: "Bitcoin".to_string(),
        symbol: "BTC".to_string(),
        price: "65000.5".to_string(),
    }]);
    let calc = LookupRequest { amount: "10".to_string(), symbol: "BTC".to_string(), show_amount: true };
    let r = reply_for_lookup(&calc, "10", &result);
    assert!(r.markdown);
    assert_eq!(r.text, "`10` 个\n\n`Bitcoin`（`BTC`）的价格为: 65000\\.5 USD\n");
    let p = LookupRequest { amount: "1".to_string(), symbol: "BTC".to_string(), show_amount: false };
    let r = reply_for_lookup(&p, "1", &result);
    assert_eq!(r.text, "\n`Bitcoin`（`BTC`）的价格为: 65000\\.5 USD\n");
}
