//! Reply text for lookup outcomes, in the chat platform's strict markup
//! dialect.
use vstd::prelude::*;
use vstd::string::*;
use crate::price::{LookupModel, PriceLookupResult, PriceQuote, QuoteModel};
use crate::text::{escape_periods, escape_dots};

verus! {

/// One line of a quote: name and symbol as code spans, then the price.
pub open spec fn quote_line(q: QuoteModel) -> Seq<char> {
    "\n`"@ + q.name + "`（`"@ + q.symbol + "`）的价格为: "@ + q.price + " USD\n"@
}

/// The lines of all quotes, in order.
pub open spec fn quote_block(qs: Seq<QuoteModel>) -> Seq<char>
    decreases qs.len(),
{
    if qs.len() == 0 {
        Seq::empty()
    } else {
        quote_block(qs.drop_last()) + quote_line(qs.last())
    }
}

/// The head put before the quotes when an amount was asked for.
pub open spec fn amount_head(amount: Seq<char>) -> Seq<char> {
    "`"@ + amount + "` 个\n"@
}

/// The reply for an outcome: the quote lines with every period escaped,
/// under the amount's head where there is one; an error's message as it is.
pub open spec fn rendered(r: LookupModel, amount: Option<Seq<char>>) -> Seq<char> {
    match r {
        LookupModel::Success(qs) => match amount {
            Some(a) => amount_head(a) + escape_periods(quote_block(qs)),
            None => escape_periods(quote_block(qs)),
        },
        LookupModel::UserError(m) => m,
        LookupModel::ServiceError(m) => m,
    }
}

/// Appends the line of one quote.
fn append_quote_line(out: &mut String, q: &PriceQuote)
    ensures
        final(out)@ == old(out)@ + quote_line(q@),
{
    out.append("\n`");
    out.append(q.name.as_str());
    out.append("`（`");
    out.append(q.symbol.as_str());
    out.append("`）的价格为: ");
    out.append(q.price.as_str());
    out.append(" USD\n");
}

/// Renders a lookup outcome; `amount` is the amount's text where the user
/// asked for a total.
pub fn render(result: &PriceLookupResult, amount: Option<&str>) -> (r: String)
    ensures
        r@ == rendered(result@, match amount {
            Some(a) => Some(a@),
            None => None,
        }),
{
    match result {
        PriceLookupResult::Success(quotes) => {
            let ghost qs = quotes@.map_values(|x: PriceQuote| x@);
            let mut block = String::new();
            let mut i: usize = 0;
            while i < quotes.len()
                invariant
                    i <= quotes@.len(),
                    qs == quotes@.map_values(|x: PriceQuote| x@),
                    block@ == quote_block(qs.subrange(0, i as int)),
                decreases quotes@.len() - i,
            {
                append_quote_line(&mut block, &quotes[i]);
                assert(qs.subrange(0, i + 1).drop_last() =~= qs.subrange(0, i as int));
                i = i + 1;
            }
            assert(qs.subrange(0, quotes@.len() as int) =~= qs);
            let body = escape_dots(block.as_str());
            match amount {
                Some(a) => {
                    let mut r = String::from_str("`");
                    r.append(a);
                    r.append("` 个\n");
                    r.append(body.as_str());
                    r
                },
                None => body,
            }
        },
        PriceLookupResult::UserError(m) => m.clone(),
        PriceLookupResult::ServiceError(m) => m.clone(),
    }
}

/// Rendering is a function of the outcome and the amount alone: the same
/// outcome rendered twice gives the same text.
pub proof fn render_is_pure(r1: LookupModel, r2: LookupModel, a1: Option<Seq<char>>, a2: Option<Seq<char>>)
    requires
        r1 == r2,
        a1 == a2,
    ensures
        rendered(r1, a1) == rendered(r2, a2),
{
}

} // verus!
