use fact_cli::category::Category;
use fact_cli::message::format_telegram_message;
use fact_cli::schedule::{step, LoopAction, LoopEvent, LoopState, WAIT_SECONDS};
use fact_cli::selector::resolve_all;
use fact_cli::tables::{tech_fact, TABLE_LEN};

#[test]
fn start_moves_to_fetching() {
    let (state, action) = step(LoopState::Idle, Category::All, LoopEvent::Start);
    assert!(matches!(state, LoopState::Fetching));
    assert!(matches!(action, LoopAction::DoFetch));
}

#[test]
fn fetched_fact_starts_one_send() {
    let (state, action) = step(
        LoopState::Fetching,
        Category::Ai,
        LoopEvent::Fetched { fact: "a fact".to_string() },
    );
    let expected = format_telegram_message("a fact", Category::Ai);
    match state {
        LoopState::Sending { message } => assert_eq!(message, expected),
        _ => panic!("a fetched fact must move the loop to sending"),
    }
    match action {
        LoopAction::DoSend { message } => assert_eq!(message, expected),
        _ => panic!("a fetched fact must ask for one send"),
    }
}

#[test]
fn fetch_failure_skips_the_send() {
    let (state, action) = step(LoopState::Fetching, Category::All, LoopEvent::FetchFailed);
    assert!(matches!(state, LoopState::Waiting));
    assert!(matches!(action, LoopAction::DoWait { seconds: 21600 }));
}

#[test]
fn send_failure_waits_the_same_fixed_period() {
    let sending = || LoopState::Sending { message: "m".to_string() };
    let (failed_state, failed_action) = step(sending(), Category::All, LoopEvent::SendFailed);
    let (sent_state, sent_action) = step(sending(), Category::All, LoopEvent::Sent);
    assert!(matches!(failed_state, LoopState::Waiting));
    assert!(matches!(sent_state, LoopState::Waiting));
    assert!(matches!(failed_action, LoopAction::DoWait { seconds: 21600 }));
    assert!(matches!(sent_action, LoopAction::DoWait { seconds: 21600 }));
}

#[test]
fn elapsed_wait_begins_the_next_cycle() {
    let (state, action) = step(LoopState::Waiting, Category::All, LoopEvent::WaitElapsed);
    assert!(matches!(state, LoopState::Fetching));
    assert!(matches!(action, LoopAction::DoFetch));
}

#[test]
fn wait_is_six_hours() {
    assert_eq!(WAIT_SECONDS, 21600);
    assert_eq!(WAIT_SECONDS, 6 * 3600);
}

#[test]
fn foreign_event_changes_nothing() {
    let (state, action) = step(LoopState::Waiting, Category::All, LoopEvent::SendFailed);
    assert!(matches!(state, LoopState::Waiting));
    assert!(matches!(action, LoopAction::Stay));
    let (state, action) = step(LoopState::Idle, Category::All, LoopEvent::Sent);
    assert!(matches!(state, LoopState::Idle));
    assert!(matches!(action, LoopAction::Stay));
}

#[test]
fn all_sources_failing_sends_one_tech_fact() {
    // Delivery cycle for the All category with every hosted source
    // failing: the fallback fact is drawn from the tech table, and
    // exactly one send is asked for, carrying that fact.
    let fact = resolve_all(None, None, None);
    assert!((0..TABLE_LEN).any(|i| tech_fact(i) == fact));

    let mut sends: Vec<String> = Vec::new();
    let (state, action) = step(LoopState::Idle, Category::All, LoopEvent::Start);
    assert!(matches!(action, LoopAction::DoFetch));
    let (state, action) = step(state, Category::All, LoopEvent::Fetched { fact: fact.clone() });
    if let LoopAction::DoSend { message } = action {
        sends.push(message);
    }
    let (state, action) = step(state, Category::All, LoopEvent::Sent);
    assert!(matches!(state, LoopState::Waiting));
    assert!(matches!(action, LoopAction::DoWait { seconds: 21600 }));

    assert_eq!(sends.len(), 1);
    assert!(sends[0].contains(&fact));
    assert_eq!(sends[0], format_telegram_message(&fact, Category::All));
}
