//! The command grammar: `/<keyword>[@<bot name>] <arguments>`, with the
//! keywords of a fixed table matched without regard to ASCII case.
use vstd::prelude::*;
use vstd::string::*;
use crate::calc::{find_from, find_either, same_ignoring_case, tail_matches};

verus! {

/// The commands that the bot knows, in the order its help lists them.
#[derive(Debug, Clone, Copy, PartialEq, Eq, Structural)]
pub enum Keyword {
    Start,
    Help,
    Price,
    Calc,
    Info,
}

impl Keyword {
    /// The word typed after the slash.
    pub open spec fn spec_name(self) -> Seq<char> {
        match self {
            Keyword::Start => "start"@,
            Keyword::Help => "help"@,
            Keyword::Price => "p"@,
            Keyword::Calc => "calc"@,
            Keyword::Info => "info"@,
        }
    }

    /// How the help shows the arguments; empty for a command without any.
    pub open spec fn spec_args(self) -> Seq<char> {
        match self {
            Keyword::Start => ""@,
            Keyword::Help => ""@,
            Keyword::Price => "[币名]"@,
            Keyword::Calc => "[数量] [币名]"@,
            Keyword::Info => ""@,
        }
    }

    /// What the help says the command does.
    pub open spec fn spec_description(self) -> Seq<char> {
        match self {
            Keyword::Start => "启动机器人"@,
            Keyword::Help => "查看所有命令"@,
            Keyword::Price => "获取币价"@,
            Keyword::Calc => "计算总价"@,
            Keyword::Info => "机器人信息"@,
        }
    }

    /// The word typed after the slash.
    pub fn name(self) -> (r: &'static str)
        ensures
            r@ == self.spec_name(),
    {
        match self {
            Keyword::Start => "start",
            Keyword::Help => "help",
            Keyword::Price => "p",
            Keyword::Calc => "calc",
            Keyword::Info => "info",
        }
    }

    /// How the help shows the arguments.
    pub fn args(self) -> (r: &'static str)
        ensures
            r@ == self.spec_args(),
    {
        match self {
            Keyword::Start => "",
            Keyword::Help => "",
            Keyword::Price => "[币名]",
            Keyword::Calc => "[数量] [币名]",
            Keyword::Info => "",
        }
    }

    /// What the help says the command does.
    pub fn description(self) -> (r: &'static str)
        ensures
            r@ == self.spec_description(),
    {
        match self {
            Keyword::Start => "启动机器人",
            Keyword::Help => "查看所有命令",
            Keyword::Price => "获取币价",
            Keyword::Calc => "计算总价",
            Keyword::Info => "机器人信息",
        }
    }
}

/// The table of commands.
pub open spec fn keyword_table() -> Seq<Keyword> {
    seq![Keyword::Start, Keyword::Help, Keyword::Price, Keyword::Calc, Keyword::Info]
}

/// The table of commands, in order.
pub fn keywords() -> (r: Vec<Keyword>)
    ensures
        r@ == keyword_table(),
{
    let r = vec![Keyword::Start, Keyword::Help, Keyword::Price, Keyword::Calc, Keyword::Info];
    assert(r@ =~= keyword_table());
    r
}

/// The keyword that a word names, ignoring ASCII case.
pub open spec fn keyword_named(w: Seq<char>) -> Option<Keyword> {
    if same_ignoring_case(w, Keyword::Start.spec_name()) {
        Some(Keyword::Start)
    } else if same_ignoring_case(w, Keyword::Help.spec_name()) {
        Some(Keyword::Help)
    } else if same_ignoring_case(w, Keyword::Price.spec_name()) {
        Some(Keyword::Price)
    } else if same_ignoring_case(w, Keyword::Calc.spec_name()) {
        Some(Keyword::Calc)
    } else if same_ignoring_case(w, Keyword::Info.spec_name()) {
        Some(Keyword::Info)
    } else {
        None
    }
}

/// A parsed command.
#[derive(Debug, Clone, PartialEq, Eq)]
pub enum Command {
    Start,
    Help,
    /// A price lookup for the symbol `name`.
    P { name: String },
    /// A total for the raw parameter string `param`.
    Calc { param: String },
    Info,
}

/// A command as plain values.
pub enum CommandModel {
    Start,
    Help,
    P(Seq<char>),
    Calc(Seq<char>),
    Info,
}

impl View for Command {
    type V = CommandModel;

    open spec fn view(&self) -> CommandModel {
        match self {
            Command::Start => CommandModel::Start,
            Command::Help => CommandModel::Help,
            Command::P { name } => CommandModel::P(name@),
            Command::Calc { param } => CommandModel::Calc(param@),
            Command::Info => CommandModel::Info,
        }
    }
}

/// The text up to the first space: the command word.
pub open spec fn head(t: Seq<char>) -> Seq<char> {
    t.subrange(0, find_from(t, 0, ' ', ' '))
}

/// The text after the first space: the arguments, empty where there is no
/// space.
pub open spec fn arguments(t: Seq<char>) -> Seq<char> {
    let sp = find_from(t, 0, ' ', ' ');
    if sp < t.len() {
        t.subrange(sp + 1, t.len() as int)
    } else {
        Seq::empty()
    }
}

/// The command word up to its first `@`.
pub open spec fn command_part(h: Seq<char>) -> Seq<char> {
    h.subrange(0, find_from(h, 0, '@', '@'))
}

/// The bot name that a command word is addressed to: what stands between
/// its first `@` and the next one (or the end); none without an `@`.
pub open spec fn addressee(h: Seq<char>) -> Option<Seq<char>> {
    let at = find_from(h, 0, '@', '@');
    if at < h.len() {
        Some(h.subrange(at + 1, find_from(h, at + 1, '@', '@')))
    } else {
        None
    }
}

/// The command that a message text gives to the bot named `bot`, or none
/// where the text is no command: it must start with `/` and a keyword of the
/// table, and may name this bot (ignoring ASCII case) after an `@`. A price
/// lookup takes all the arguments as its symbol; `/calc` takes them as its
/// parameter string; the other commands ignore them.
pub open spec fn command_of(t: Seq<char>, bot: Seq<char>) -> Option<CommandModel> {
    let h = head(t);
    let c = command_part(h);
    let args = arguments(t);
    let addressed = match addressee(h) {
        Some(n) => same_ignoring_case(n, bot),
        None => true,
    };
    if !addressed || c.len() == 0 || c[0] != '/' {
        None
    } else {
        match keyword_named(c.subrange(1, c.len() as int)) {
            Some(Keyword::Start) => Some(CommandModel::Start),
            Some(Keyword::Help) => Some(CommandModel::Help),
            Some(Keyword::Price) => Some(CommandModel::P(args)),
            Some(Keyword::Calc) => Some(CommandModel::Calc(args)),
            Some(Keyword::Info) => Some(CommandModel::Info),
            None => None,
        }
    }
}

/// Whether two texts are equal ignoring ASCII case.
pub fn equal_ignoring_case(a: &str, b: &str) -> (r: bool)
    ensures
        r == same_ignoring_case(a@, b@),
{
    assert(a@.subrange(0, a@.len() as int) == a@);
    tail_matches(a, 0, b)
}

/// The keyword that a word names, ignoring ASCII case.
pub fn find_keyword(w: &str) -> (r: Option<Keyword>)
    ensures
        r == keyword_named(w@),
{
    let table = keywords();
    let mut i: usize = 0;
    while i < table.len()
        invariant
            table@ == keyword_table(),
            i <= table@.len(),
            forall|j: int| 0 <= j < i ==> !same_ignoring_case(w@, #[trigger] table@[j].spec_name()),
        decreases table@.len() - i,
    {
        if equal_ignoring_case(w, table[i].name()) {
            return Some(table[i]);
        }
        i = i + 1;
    }
    None
}

/// Parses a message text as a command addressed to the bot named `bot`.
pub fn parse_command(text: &str, bot: &str) -> (r: Option<Command>)
    ensures
        match r {
            Some(c) => command_of(text@, bot@) == Some(c@),
            None => command_of(text@, bot@) is None,
        },
{
    let n = text.unicode_len();
    let sp = find_either(text, 0, ' ', ' ');
    let h = text.substring_char(0, sp);
    let hn = h.unicode_len();
    let at = find_either(h, 0, '@', '@');
    if at < hn {
        let end = find_either(h, at + 1, '@', '@');
        let name = h.substring_char(at + 1, end);
        if !equal_ignoring_case(name, bot) {
            return None;
        }
    }
    let c = h.substring_char(0, at);
    if c.unicode_len() == 0 || c.get_char(0) != '/' {
        return None;
    }
    let kw = find_keyword(c.substring_char(1, c.unicode_len()));
    match kw {
        Some(Keyword::Start) => Some(Command::Start),
        Some(Keyword::Help) => Some(Command::Help),
        Some(Keyword::Price) => {
            let args = if sp < n {
                String::from_str(text.substring_char(sp + 1, n))
            } else {
                String::new()
            };
            Some(Command::P { name: args })
        },
        Some(Keyword::Calc) => {
            let args = if sp < n {
                String::from_str(text.substring_char(sp + 1, n))
            } else {
                String::new()
            };
            Some(Command::Calc { param: args })
        },
        Some(Keyword::Info) => Some(Command::Info),
        None => None,
    }
}

} // verus!
