//! The interactive batch: a locally served category yields `count`
//! facts, each boxed by the presenter under its 1-based index.

use vstd::prelude::*;

use crate::category::Category;
use crate::presenter::{format_fact_block, spec_fact_block};
use crate::selector::local_fact;
use crate::tables::spec_from_table;

verus! {

/// `block` is the boxed presentation, at the given 1-based index, of
/// some entry of the local table serving category `c`.
pub open spec fn spec_block_of_table(block: Vec<String>, c: Category, index: u32) -> bool {
    exists|f: Seq<char>|
        spec_from_table(c, f) && block.deep_view() == #[trigger] spec_fact_block(f, c, index)
}

/// The batch of a locally served category: `count` boxed facts, the
/// fact of each drawn from the category's own table, indexed 1 upward.
/// A local batch cannot fail, so no prefix of it is ever cut short.
pub fn local_batch(category: Category, count: u32) -> (r: Vec<Vec<String>>)
    requires
        category != Category::All,
    ensures
        r@.len() == count as nat,
        forall|k: int|
            0 <= k < count as int ==> spec_block_of_table(#[trigger] r@[k], category, (k + 1) as u32),
{
    let mut blocks: Vec<Vec<String>> = Vec::new();
    let mut i: u32 = 0;
    while i < count
        invariant
            i <= count,
            category != Category::All,
            blocks@.len() == i as nat,
            forall|k: int|
                0 <= k < i as int ==> spec_block_of_table(
                    #[trigger] blocks@[k],
                    category,
                    (k + 1) as u32,
                ),
        decreases count - i,
    {
        let fact = local_fact(category);
        let block = format_fact_block(fact.as_str(), category, i + 1);
        proof {
            assert(spec_from_table(category, fact@) && block.deep_view() == spec_fact_block(
                fact@,
                category,
                (i + 1) as u32,
            ));
            assert(spec_block_of_table(block, category, (i + 1) as u32));
        }
        blocks.push(block);
        i += 1;
    }
    blocks
}

} // verus!
