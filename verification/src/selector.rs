//! The fallback-selection policy: which source serves which category,
//! in which order the hosted sources are tried for `All`, and how their
//! outcomes resolve to one fact.

use vstd::prelude::*;
use vstd::string::StringExecFns;

use crate::category::Category;
use crate::rng::random_index;
use crate::tables::{
    ai_fact, is_ai_fact, is_programming_fact, is_scaling_fact, is_tech_fact, programming_fact,
    scaling_fact, spec_from_table, tech_fact, TABLE_LEN,
};

verus! {

/// Seconds before an outstanding request to a hosted source is given up.
pub const REQUEST_TIMEOUT_SECS: u64 = 10;

/// One of the three hosted HTTP sources, in the order the `All`
/// category tries them.
#[derive(Clone, Copy, PartialEq, Eq, Structural, Debug)]
pub enum HostedSource {
    UselessFacts,
    ChuckNorris,
    CatFacts,
}

/// The endpoint queried for a hosted source.
pub open spec fn spec_source_url(s: HostedSource) -> Seq<char> {
    match s {
        HostedSource::UselessFacts => "https://uselessfacts.jsph.pl/random.json?language=en"@,
        HostedSource::ChuckNorris => "https://api.chucknorris.io/jokes/random"@,
        HostedSource::CatFacts => "https://cat-fact.herokuapp.com/facts/random"@,
    }
}

/// The one text field read out of a hosted source's JSON body.
pub open spec fn spec_source_field(s: HostedSource) -> Seq<char> {
    match s {
        HostedSource::UselessFacts => "text"@,
        HostedSource::ChuckNorris => "value"@,
        HostedSource::CatFacts => "text"@,
    }
}

impl HostedSource {
    /// The endpoint this source is queried at.
    pub fn url(&self) -> (r: &'static str)
        ensures
            r@ == spec_source_url(*self),
    {
        match self {
            HostedSource::UselessFacts => "https://uselessfacts.jsph.pl/random.json?language=en",
            HostedSource::ChuckNorris => "https://api.chucknorris.io/jokes/random",
            HostedSource::CatFacts => "https://cat-fact.herokuapp.com/facts/random",
        }
    }

    /// The name of the one text field expected in the JSON response.
    pub fn json_field(&self) -> (r: &'static str)
        ensures
            r@ == spec_source_field(*self),
    {
        match self {
            HostedSource::UselessFacts => "text",
            HostedSource::ChuckNorris => "value",
            HostedSource::CatFacts => "text",
        }
    }
}

/// The fixed order in which the `All` category consults the hosted
/// sources before falling back to the local tech table.
pub open spec fn spec_hosted_chain() -> Seq<HostedSource> {
    seq![HostedSource::UselessFacts, HostedSource::ChuckNorris, HostedSource::CatFacts]
}

/// The fixed chain of hosted sources for the `All` category.
pub fn hosted_chain() -> (r: Vec<HostedSource>)
    ensures
        r@ == spec_hosted_chain(),
{
    let mut v: Vec<HostedSource> = Vec::new();
    v.push(HostedSource::UselessFacts);
    v.push(HostedSource::ChuckNorris);
    v.push(HostedSource::CatFacts);
    proof {
        assert(v@ =~= spec_hosted_chain());
    }
    v
}

/// A uniformly drawn entry of the tech table.
pub fn random_tech_fact() -> (r: String)
    ensures
        is_tech_fact(r@),
{
    let i = random_index(TABLE_LEN);
    let s = tech_fact(i);
    String::from_str(s)
}

/// A uniformly drawn entry of the programming table.
pub fn random_programming_fact() -> (r: String)
    ensures
        is_programming_fact(r@),
{
    let i = random_index(TABLE_LEN);
    let s = programming_fact(i);
    String::from_str(s)
}

/// A uniformly drawn entry of the AI table.
pub fn random_ai_fact() -> (r: String)
    ensures
        is_ai_fact(r@),
{
    let i = random_index(TABLE_LEN);
    let s = ai_fact(i);
    String::from_str(s)
}

/// A uniformly drawn entry of the scaling table.
pub fn random_scaling_fact() -> (r: String)
    ensures
        is_scaling_fact(r@),
{
    let i = random_index(TABLE_LEN);
    let s = scaling_fact(i);
    String::from_str(s)
}

/// A fact for a category that is served locally. Every category other
/// than `All` draws from exactly its own fixed ten-entry table; no
/// network is involved.
pub fn local_fact(category: Category) -> (r: String)
    requires
        category != Category::All,
    ensures
        spec_from_table(category, r@),
{
    match category {
        Category::All => String::new(),
        Category::Coding => random_programming_fact(),
        Category::Programming => random_programming_fact(),
        Category::Tech => random_tech_fact(),
        Category::Ai => random_ai_fact(),
        Category::Scaling => random_scaling_fact(),
    }
}

/// The fact for a category, where one is decided locally. `All` is the
/// one category that consults the hosted sources, so it alone returns
/// `None` here; every other category returns a member of its own table
/// and never performs network I/O.
pub fn local_fact_for(category: Category) -> (r: Option<String>)
    ensures
        category == Category::All <==> r is None,
        r matches Some(f) ==> spec_from_table(category, f@),
{
    match category {
        Category::All => None,
        _ => Some(local_fact(category)),
    }
}

/// Resolves the `All` category from the outcomes of the three hosted
/// sources, tried in chain order: the first success wins; if all three
/// failed, a tech-table entry takes their place. `None` stands both for
/// a failed attempt and for one never made because an earlier source
/// already succeeded — either way a later outcome cannot override an
/// earlier success.
pub fn resolve_all(
    first: Option<String>,
    second: Option<String>,
    third: Option<String>,
) -> (r: String)
    ensures
        first matches Some(f) ==> r == f,
        first is None ==> (second matches Some(f) ==> r == f),
        first is None && second is None ==> (third matches Some(f) ==> r == f),
        first is None && second is None && third is None ==> is_tech_fact(r@),
{
    match first {
        Some(f) => f,
        None => match second {
            Some(f) => f,
            None => match third {
                Some(f) => f,
                None => random_tech_fact(),
            },
        },
    }
}

} // verus!
