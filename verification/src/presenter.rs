//! The terminal presenter: a fact, its category and its 1-based place
//! in a batch become a boxed multi-line block. The fact text goes in
//! unmodified; the index line appears only from the second fact of a
//! batch on.

use vstd::prelude::*;
use vstd::string::StringExecFns;

use crate::category::{spec_emoji, spec_name, Category};

verus! {

/// The one-character text of a decimal digit.
pub open spec fn spec_digit(d: int) -> Seq<char> {
    if d == 0 {
        "0"@
    } else if d == 1 {
        "1"@
    } else if d == 2 {
        "2"@
    } else if d == 3 {
        "3"@
    } else if d == 4 {
        "4"@
    } else if d == 5 {
        "5"@
    } else if d == 6 {
        "6"@
    } else if d == 7 {
        "7"@
    } else if d == 8 {
        "8"@
    } else {
        "9"@
    }
}

/// The decimal text of `n`, most significant digit first, no sign and
/// no leading zero (a single zero digit for zero itself).
pub open spec fn spec_decimal(n: nat) -> Seq<char>
    decreases n,
{
    if n < 10 {
        spec_digit(n as int)
    } else {
        spec_decimal(n / 10) + spec_digit((n % 10) as int)
    }
}

/// The one-character text of decimal digit `d`.
pub fn digit_str(d: usize) -> (r: &'static str)
    requires
        d < 10,
    ensures
        r@ == spec_digit(d as int),
{
    match d {
        0 => "0",
        1 => "1",
        2 => "2",
        3 => "3",
        4 => "4",
        5 => "5",
        6 => "6",
        7 => "7",
        8 => "8",
        _ => "9",
    }
}

/// The decimal text of `n`.
pub fn u32_to_decimal(n: u32) -> (r: String)
    ensures
        r@ == spec_decimal(n as nat),
    decreases n,
{
    if n < 10 {
        String::from_str(digit_str(n as usize))
    } else {
        let mut s = u32_to_decimal(n / 10);
        s.append(digit_str((n % 10) as usize));
        s
    }
}

/// The header line of a block: box corner, category glyph, category
/// display name, and the word "Fact".
pub open spec fn spec_header_line(c: Category) -> Seq<char> {
    "┌─ "@ + spec_emoji(c) + " "@ + spec_name(c) + " Fact"@
}

/// The index line of a block, shown from the second fact of a batch on.
pub open spec fn spec_index_line(index: u32) -> Seq<char> {
    "│ #"@ + spec_decimal(index as nat)
}

/// The body line of a block: a box edge and the fact text, unmodified.
pub open spec fn spec_body_line(fact: Seq<char>) -> Seq<char> {
    "│ "@ + fact
}

/// The lines of the boxed block for `fact` at the 1-based `index` of a
/// batch. The index line stands exactly when `index` exceeds one.
pub open spec fn spec_fact_block(fact: Seq<char>, c: Category, index: u32) -> Seq<Seq<char>> {
    if index > 1 {
        seq![
            spec_header_line(c),
            spec_index_line(index),
            "├─"@,
            spec_body_line(fact),
            "└─"@,
        ]
    } else {
        seq![spec_header_line(c), "├─"@, spec_body_line(fact), "└─"@]
    }
}

/// Builds the boxed block for one fact: header, optional index line,
/// separator, body, footer.
pub fn format_fact_block(fact: &str, category: Category, index: u32) -> (r: Vec<String>)
    ensures
        r.deep_view() == spec_fact_block(fact@, category, index),
{
    let mut lines: Vec<String> = Vec::new();

    let mut header = String::from_str("┌─ ");
    header.append(category.emoji());
    header.append(" ");
    header.append(category.display_name());
    header.append(" Fact");
    lines.push(header);

    if index > 1 {
        let mut index_line = String::from_str("│ #");
        let digits = u32_to_decimal(index);
        index_line.append(digits.as_str());
        lines.push(index_line);
    }

    lines.push(String::from_str("├─"));

    let mut body = String::from_str("│ ");
    body.append(fact);
    lines.push(body);

    lines.push(String::from_str("└─"));

    proof {
        assert(lines.deep_view() =~= spec_fact_block(fact@, category, index));
    }
    lines
}

/// A block for sequence index one omits the index line: it is exactly
/// header, separator, body and footer. A block for any greater index
/// carries one extra line, in second place, showing exactly that index;
/// the other four lines are unchanged.
pub proof fn lemma_index_line_presence(fact: Seq<char>, c: Category, index: u32)
    ensures
        index <= 1 ==> spec_fact_block(fact, c, index) == seq![
            spec_header_line(c),
            "├─"@,
            spec_body_line(fact),
            "└─"@,
        ],
        index > 1 ==> spec_fact_block(fact, c, index) == seq![
            spec_header_line(c),
            spec_index_line(index),
            "├─"@,
            spec_body_line(fact),
            "└─"@,
        ],
{
}

} // verus!
