//! The messaging formatter: the plain-text body sent to the messaging
//! channel for one delivered fact.

use vstd::prelude::*;
use vstd::string::StringExecFns;

use crate::category::{spec_emoji, spec_name, Category};

verus! {

/// The plain-text message delivered for one fact: glyph, category
/// display name, the fixed words "Random Fact", a blank line, then the
/// fact text unmodified.
pub open spec fn spec_telegram_message(fact: Seq<char>, c: Category) -> Seq<char> {
    spec_emoji(c) + " "@ + spec_name(c) + " Random Fact\n\n"@ + fact
}

/// Builds the message body for one delivered fact.
pub fn format_telegram_message(fact: &str, category: Category) -> (r: String)
    ensures
        r@ == spec_telegram_message(fact@, category),
{
    let mut message = String::from_str(category.emoji());
    message.append(" ");
    message.append(category.display_name());
    message.append(" Random Fact\n\n");
    message.append(fact);
    message
}

} // verus!
