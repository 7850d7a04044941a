//! The category of facts a caller asks for, with its terminal glyph and
//! display name.

use vstd::prelude::*;

verus! {

/// The topic filter chosen once per invocation. `All` consults the hosted
/// sources with a local fallback; every other category is served from a
/// fixed local table and never touches the network.
#[derive(Clone, Copy, PartialEq, Eq, Structural, Debug)]
pub enum Category {
    All,
    Coding,
    Ai,
    Scaling,
    Tech,
    Programming,
}

/// The glyph that decorates a fact block of the given category.
pub open spec fn spec_emoji(c: Category) -> Seq<char> {
    match c {
        Category::All => "🌟"@,
        Category::Coding => "💻"@,
        Category::Programming => "💻"@,
        Category::Ai => "🤖"@,
        Category::Scaling => "📈"@,
        Category::Tech => "⚡"@,
    }
}

/// The name under which a category is shown; `All` is shown as "Random".
pub open spec fn spec_name(c: Category) -> Seq<char> {
    match c {
        Category::All => "Random"@,
        Category::Coding => "Coding"@,
        Category::Programming => "Programming"@,
        Category::Ai => "AI"@,
        Category::Scaling => "Scaling"@,
        Category::Tech => "Tech"@,
    }
}

impl Category {
    /// The glyph that decorates a fact block of this category.
    pub fn emoji(&self) -> (r: &'static str)
        ensures
            r@ == spec_emoji(*self),
    {
        match self {
            Category::All => "🌟",
            Category::Coding => "💻",
            Category::Programming => "💻",
            Category::Ai => "🤖",
            Category::Scaling => "📈",
            Category::Tech => "⚡",
        }
    }

    /// The display name of this category.
    pub fn display_name(&self) -> (r: &'static str)
        ensures
            r@ == spec_name(*self),
    {
        match self {
            Category::All => "Random",
            Category::Coding => "Coding",
            Category::Programming => "Programming",
            Category::Ai => "AI",
            Category::Scaling => "Scaling",
            Category::Tech => "Tech",
        }
    }
}

} // verus!
