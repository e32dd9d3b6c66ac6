//! What the bot does with one inbound message: reply at once, ask the price
//! service first, or stay silent.
use vstd::prelude::*;
use vstd::string::*;
use crate::calc::{calc_args_of, parse_calc_args, words, is_decimal};
use crate::command::{
    Command, CommandModel, Keyword, command_of, keyword_table, keywords, parse_command,
};
use crate::price::PriceLookupResult;
use crate::render::{render, rendered};

verus! {

/// A reply to send, and whether it is in the rich markup dialect.
#[derive(Debug, Clone, PartialEq, Eq)]
pub struct Reply {
    pub text: String,
    pub markdown: bool,
}

/// A lookup to make before replying: `amount` of `symbol`, where `amount`
/// reads as a decimal number; `show_amount` asks for the amount to head the
/// reply.
#[derive(Debug, Clone, PartialEq, Eq)]
pub struct LookupRequest {
    pub amount: String,
    pub symbol: String,
    pub show_amount: bool,
}

/// The next step for one inbound message.
#[derive(Debug, Clone, PartialEq, Eq)]
pub enum Action {
    Ignore,
    Send(Reply),
    Lookup(LookupRequest),
}

/// A step as plain values.
pub enum ActionModel {
    Ignore,
    Send(Seq<char>, bool),
    Lookup(Seq<char>, Seq<char>, bool),
}

impl View for Action {
    type V = ActionModel;

    open spec fn view(&self) -> ActionModel {
        match self {
            Action::Ignore => ActionModel::Ignore,
            Action::Send(r) => ActionModel::Send(r.text@, r.markdown),
            Action::Lookup(l) => ActionModel::Lookup(l.amount@, l.symbol@, l.show_amount),
        }
    }
}

/// One line of the help: `/<name> [args] - <description>`.
pub open spec fn help_line(k: Keyword) -> Seq<char> {
    let args = if k.spec_args().len() == 0 {
        Seq::empty()
    } else {
        " "@ + k.spec_args()
    };
    "/"@ + k.spec_name() + args + " - "@ + k.spec_description() + "\n"@
}

/// The help lines of the given commands, in order.
pub open spec fn help_lines(ks: Seq<Keyword>) -> Seq<char>
    decreases ks.len(),
{
    if ks.len() == 0 {
        Seq::empty()
    } else {
        help_lines(ks.drop_last()) + help_line(ks.last())
    }
}

/// The reply to `/help`: one line for each command of the table.
pub open spec fn help_reply() -> Seq<char> {
    help_lines(keyword_table())
}

/// The welcome reply to `/start`.
pub open spec fn start_reply() -> Seq<char> {
    "输入 `/help` 查看所有命令。\n\n本 bot 开发者为 [Coulson](tg://user?id=1481722371)"@
}

/// The reply to `/info`: what the bot does, its data source, its author.
pub open spec fn info_reply() -> Seq<char> {
    "本 bot 能够实时计算特定数量的币种价格。\n\n价格 api 来自 [CoinmarketCap](https://coinmarketcap.com/)\n\n开发者为 [Coulson](tg://user?id=1481722371)"@
}

/// The reply to malformed `/calc` arguments, with an example.
pub open spec fn usage_reply() -> Seq<char> {
    "参数错误，请按照`/calc [数量] [币名]`输入。\n\n示例：`/calc 10 BTC`"@
}

/// The reply to a text that is no command.
pub open spec fn not_found_reply() -> Seq<char> {
    "Command not found!"@
}

/// The amount that a price lookup by `/p` asks for.
pub open spec fn one_unit() -> Seq<char> {
    "1"@
}

/// The step for a message whose text is `text` (none for a message without
/// text), sent to the bot named `bot`.
pub open spec fn action_of(text: Option<Seq<char>>, bot: Seq<char>) -> ActionModel {
    match text {
        None => ActionModel::Ignore,
        Some(t) => match command_of(t, bot) {
            None => ActionModel::Send(not_found_reply(), false),
            Some(CommandModel::Help) => ActionModel::Send(help_reply(), false),
            Some(CommandModel::Start) => ActionModel::Send(start_reply(), true),
            Some(CommandModel::Info) => ActionModel::Send(info_reply(), true),
            Some(CommandModel::P(name)) => ActionModel::Lookup(one_unit(), name, false),
            Some(CommandModel::Calc(param)) => match calc_args_of(param) {
                Some((amount, symbol)) => ActionModel::Lookup(amount, symbol, true),
                None => ActionModel::Send(usage_reply(), true),
            },
        },
    }
}

/// Builds the help text from the table of commands.
pub fn help_text() -> (r: String)
    ensures
        r@ == help_reply(),
{
    let table = keywords();
    let mut out = String::new();
    let mut i: usize = 0;
    while i < table.len()
        invariant
            table@ == keyword_table(),
            i <= table@.len(),
            out@ == help_lines(table@.subrange(0, i as int)),
        decreases table@.len() - i,
    {
        let k = table[i];
        out.append("/");
        out.append(k.name());
        let args = k.args();
        if args.unicode_len() > 0 {
            out.append(" ");
            out.append(args);
        }
        out.append(" - ");
        out.append(k.description());
        out.append("\n");
        assert(table@.subrange(0, i + 1).drop_last() =~= table@.subrange(0, i as int));
        i = i + 1;
    }
    assert(table@.subrange(0, table@.len() as int) =~= table@);
    out
}

/// A step that sends `text` as it is.
fn send(text: &str, markdown: bool) -> (r: Action)
    ensures
        r@ == ActionModel::Send(text@, markdown),
{
    Action::Send(Reply { text: String::from_str(text), markdown })
}

/// Decides what to do with one inbound message: nothing for a message
/// without text, "Command not found!" for a text that is no command, a fixed
/// reply for `/start`, `/help` and `/info`, the usage reply for malformed
/// `/calc` arguments, and otherwise a lookup.
pub fn respond(text: Option<&str>, bot: &str) -> (r: Action)
    ensures
        r@ == action_of(
            match text {
                Some(t) => Some(t@),
                None => None,
            },
            bot@,
        ),
        text is None ==> r@ == ActionModel::Ignore,
        text is Some && command_of(text->0@, bot@) is None ==> r@ == ActionModel::Send(
            not_found_reply(),
            false,
        ),
        match text {
            Some(t) => match command_of(t@, bot@) {
                Some(CommandModel::Calc(p)) => words(p).len() != 2 || !is_decimal(words(p)[0])
                    ==> r@ == ActionModel::Send(usage_reply(), true),
                _ => true,
            },
            None => true,
        },
{
    match text {
        None => Action::Ignore,
        Some(t) => match parse_command(t, bot) {
            None => send("Command not found!", false),
            Some(Command::Help) => {
                let h = help_text();
                Action::Send(Reply { text: h, markdown: false })
            },
            Some(Command::Start) => send(
                "输入 `/help` 查看所有命令。\n\n本 bot 开发者为 [Coulson](tg://user?id=1481722371)",
                true,
            ),
            Some(Command::Info) => send(
                "本 bot 能够实时计算特定数量的币种价格。\n\n价格 api 来自 [CoinmarketCap](https://coinmarketcap.com/)\n\n开发者为 [Coulson](tg://user?id=1481722371)",
                true,
            ),
            Some(Command::P { name }) => Action::Lookup(
                LookupRequest { amount: String::from_str("1"), symbol: name, show_amount: false },
            ),
            Some(Command::Calc { param }) => match parse_calc_args(param.as_str()) {
                Some(a) => Action::Lookup(
                    LookupRequest { amount: a.amount, symbol: a.symbol, show_amount: true },
                ),
                None => send("参数错误，请按照`/calc [数量] [币名]`输入。\n\n示例：`/calc 10 BTC`", true),
            },
        },
    }
}

/// The reply once a lookup has come back: the rendered outcome, headed by
/// `amount_text` where the request asked for it, in the rich markup dialect.
pub fn reply_for_lookup(req: &LookupRequest, amount_text: &str, result: &PriceLookupResult) -> (r:
    Reply)
    ensures
        r.markdown,
        r.text@ == rendered(
            result@,
            if req.show_amount {
                Some(amount_text@)
            } else {
                None
            },
        ),
{
    let text = if req.show_amount {
        render(result, Some(amount_text))
    } else {
        render(result, None)
    };
    Reply { text, markdown: true }
}

} // verus!
