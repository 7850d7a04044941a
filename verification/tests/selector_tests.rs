use fact_cli::category::Category;
use fact_cli::selector::{
    hosted_chain, local_fact, local_fact_for, resolve_all, HostedSource, REQUEST_TIMEOUT_SECS,
};
use fact_cli::tables::{ai_fact, programming_fact, scaling_fact, tech_fact, TABLE_LEN};

fn in_table(fact: &str, entry: fn(usize) -> &'static str) -> bool {
    (0..TABLE_LEN).any(|i| entry(i) == fact)
}

#[test]
fn ai_category_serves_ai_table() {
    for _ in 0..50 {
        let fact = local_fact_for(Category::Ai).expect("ai is served locally");
        assert!(in_table(&fact, ai_fact));
    }
}

#[test]
fn tech_category_serves_tech_table() {
    for _ in 0..50 {
        let fact = local_fact_for(Category::Tech).expect("tech is served locally");
        assert!(in_table(&fact, tech_fact));
    }
}

#[test]
fn coding_and_programming_serve_programming_table() {
    for _ in 0..50 {
        let coding = local_fact_for(Category::Coding).expect("coding is served locally");
        let programming =
            local_fact_for(Category::Programming).expect("programming is served locally");
        assert!(in_table(&coding, programming_fact));
        assert!(in_table(&programming, programming_fact));
    }
}

#[test]
fn scaling_category_serves_scaling_table() {
    for _ in 0..50 {
        let fact = local_fact_for(Category::Scaling).expect("scaling is served locally");
        assert!(in_table(&fact, scaling_fact));
    }
}

#[test]
fn all_category_is_not_served_locally() {
    assert!(local_fact_for(Category::All).is_none());
}

#[test]
fn local_draw_varies() {
    // A draw that ignored the randomness (for instance one that handed
    // its bound back) would return the same entry every time.
    let mut seen = std::collections::BTreeSet::new();
    for _ in 0..200 {
        seen.insert(local_fact(Category::Tech));
    }
    assert!(seen.len() >= 2);
}

#[test]
fn resolve_all_first_success_wins() {
    let r = resolve_all(
        Some("first".to_string()),
        Some("second".to_string()),
        Some("third".to_string()),
    );
    assert_eq!(r, "first");

    let r = resolve_all(None, Some("second".to_string()), Some("third".to_string()));
    assert_eq!(r, "second");

    let r = resolve_all(None, None, Some("third".to_string()));
    assert_eq!(r, "third");
}

#[test]
fn resolve_all_falls_back_to_tech_table() {
    for _ in 0..50 {
        let r = resolve_all(None, None, None);
        assert!(in_table(&r, tech_fact));
    }
}

#[test]
fn hosted_chain_order_and_endpoints() {
    let chain = hosted_chain();
    assert_eq!(
        chain,
        vec![
            HostedSource::UselessFacts,
            HostedSource::ChuckNorris,
            HostedSource::CatFacts,
        ]
    );
    assert_eq!(
        chain[0].url(),
        "https://uselessfacts.jsph.pl/random.json?language=en"
    );
    assert_eq!(chain[1].url(), "https://api.chucknorris.io/jokes/random");
    assert_eq!(chain[2].url(), "https://cat-fact.herokuapp.com/facts/random");
    assert_eq!(chain[0].json_field(), "text");
    assert_eq!(chain[1].json_field(), "value");
    assert_eq!(chain[2].json_field(), "text");
    assert_eq!(REQUEST_TIMEOUT_SECS, 10);
}
