//! The texts in which pools, quotes and failures are handed to a client.

use vstd::prelude::*;
use vstd::string::StringExecFns;
use crate::text::decimal_digits;
use crate::text::format_u128;

verus! {

/// The items of a list, one after the other with `separator` between them.
pub open spec fn joined(items: Seq<Seq<char>>, separator: Seq<char>) -> Seq<char>
    decreases items.len(),
{
    if items.len() == 0 {
        Seq::empty()
    } else if items.len() == 1 {
        items[0]
    } else {
        joined(items.drop_last(), separator) + separator + items.last()
    }
}

/// A JSON array of items that are JSON already.
pub open spec fn array_text(items: Seq<Seq<char>>) -> Seq<char> {
    "["@ + joined(items, ","@) + "]"@
}

/// The JSON object that reports a failure.
pub open spec fn error_text(message: Seq<char>) -> Seq<char> {
    "{\"error\": \""@ + message + "\"}"@
}

/// The lines that report one quote on a terminal.
pub open spec fn quote_text(
    chain: Seq<char>,
    address: Seq<char>,
    token_in: Seq<char>,
    amount_in: u128,
    token_out: Seq<char>,
    amount_out: u128,
) -> Seq<char> {
    "Chain: "@ + chain + "\nPool Address: "@ + address + "\nPrice for "@ + token_in + " "@
        + decimal_digits(amount_in as nat) + " -> "@ + token_out + " "@ + decimal_digits(
        amount_out as nat,
    ) + "\n\n"@
}

/// Writes a JSON array of items that are JSON already.
pub fn json_array(items: &Vec<String>) -> (text: String)
    ensures
        text@ == array_text(items.deep_view()),
{
    let ghost texts = items.deep_view();
    let mut text = String::from_str("[");
    let mut i: usize = 0;
    while i < items.len()
        invariant
            i <= items.len(),
            texts == items.deep_view(),
            text@ == "["@ + joined(texts.take(i as int), ","@),
        decreases items.len() - i,
    {
        if i > 0 {
            text.append(",");
        }
        text.append(items[i].as_str());
        proof {
            assert(texts.take(i + 1).drop_last() =~= texts.take(i as int));
        }
        i += 1;
    }
    text.append("]");
    assert(texts.take(items.len() as int) =~= texts);
    text
}

/// Writes the JSON object that reports a failure.
pub fn error_body(message: &str) -> (text: String)
    ensures
        text@ == error_text(message@),
{
    let mut text = String::from_str("{\"error\": \"");
    text.append(message);
    text.append("\"}");
    text
}

/// Writes the lines that report one quote on a terminal.
pub fn quote_report(
    chain: &str,
    address: &str,
    token_in: &str,
    amount_in: u128,
    token_out: &str,
    amount_out: u128,
) -> (text: String)
    ensures
        text@ == quote_text(chain@, address@, token_in@, amount_in, token_out@, amount_out),
{
    let mut text = String::from_str("Chain: ");
    text.append(chain);
    text.append("\nPool Address: ");
    text.append(address);
    text.append("\nPrice for ");
    text.append(token_in);
    text.append(" ");
    text.append(format_u128(amount_in).as_str());
    text.append(" -> ");
    text.append(token_out);
    text.append(" ");
    text.append(format_u128(amount_out).as_str());
    text.append("\n\n");
    text
}

} // verus!
