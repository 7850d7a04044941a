use fact_cli::batch::local_batch;
use fact_cli::category::Category;
use fact_cli::tables::{ai_fact, TABLE_LEN};

#[test]
fn three_ai_facts_print_three_boxed_blocks() {
    // Batch of three for the AI category: three boxed blocks, each body
    // drawn from the ten-entry AI table, indices 1, 2, 3, no network.
    let blocks = local_batch(Category::Ai, 3);
    assert_eq!(blocks.len(), 3);

    for (k, block) in blocks.iter().enumerate() {
        assert_eq!(block[0], "┌─ 🤖 AI Fact");
        if k == 0 {
            assert_eq!(block.len(), 4);
            assert_eq!(block[1], "├─");
        } else {
            assert_eq!(block.len(), 5);
            assert_eq!(block[1], format!("│ #{}", k + 1));
            assert_eq!(block[2], "├─");
        }
        let body = &block[block.len() - 2];
        let fact = body.strip_prefix("│ ").expect("body line starts with the box edge");
        assert!((0..TABLE_LEN).any(|i| ai_fact(i) == fact));
        assert_eq!(block[block.len() - 1], "└─");
    }
}

#[test]
fn empty_batch_has_no_blocks() {
    let blocks = local_batch(Category::Tech, 0);
    assert!(blocks.is_empty());
}

#[test]
fn batch_indices_count_from_one() {
    let blocks = local_batch(Category::Scaling, 12);
    assert_eq!(blocks.len(), 12);
    assert_eq!(blocks[0].len(), 4);
    for k in 1..12 {
        assert_eq!(blocks[k][1], format!("│ #{}", k + 1));
    }
}
