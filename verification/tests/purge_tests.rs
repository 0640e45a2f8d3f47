use dojima_bot::{purge_history, MessageRef, PageAction, PurgeCursor};

const TARGET: u64 = 5000;
const OTHER: u64 = 6000;

/// A history of `len` messages, newest first, where `is_target` picks
/// the positions authored by the target.
fn history_where(len: u64, is_target: impl Fn(u64) -> bool) -> Vec<MessageRef> {
    let mut h = Vec::new();
    for pos in 0..len {
        h.push(MessageRef {
            id: 1_000_000 - pos,
            author_id: if is_target(pos) { TARGET } else { OTHER },
        });
    }
    h
}

#[test]
fn purge_caps_at_the_requested_amount() {
    // 250 messages, the 40 newest authored by the target, budget 30:
    // exactly 30 deletions, within at most 3 fetch pages.
    let history = history_where(250, |pos| pos < 40);
    let (deleted, pages) = purge_history(&history, TARGET, 30, 2_000_000);
    assert_eq!(deleted, 30);
    assert!(pages <= 3);
}

#[test]
fn purge_of_absent_author_stops_after_one_page() {
    let history = history_where(250, |_| false);
    let (deleted, pages) = purge_history(&history, TARGET, 50, 2_000_000);
    assert_eq!(deleted, 0);
    assert_eq!(pages, 1);
}

#[test]
fn purge_spans_pages_while_matches_keep_coming() {
    // One match per fetched page: positions 10, 150 and 240 fall into
    // the three successive pages (100, 99 and 51 messages long).
    let history = history_where(250, |pos| pos == 10 || pos == 150 || pos == 240);
    let (deleted, pages) = purge_history(&history, TARGET, 100, 2_000_000);
    assert_eq!(deleted, 3);
    assert_eq!(pages, 3);
}

#[test]
fn purge_stops_at_first_page_without_matches() {
    // Budget 20: the first page holds 20 messages. The only match sits
    // at position 30, past the lookahead, so nothing is deleted.
    let history = history_where(250, |pos| pos == 30);
    let (deleted, pages) = purge_history(&history, TARGET, 20, 2_000_000);
    assert_eq!(deleted, 0);
    assert_eq!(pages, 1);
}

#[test]
fn purge_with_zero_budget_fetches_nothing() {
    let history = history_where(10, |_| true);
    let (deleted, pages) = purge_history(&history, TARGET, 0, 2_000_000);
    assert_eq!(deleted, 0);
    assert_eq!(pages, 0);
}

#[test]
fn purge_of_empty_history_deletes_nothing() {
    let history: Vec<MessageRef> = Vec::new();
    let (deleted, pages) = purge_history(&history, TARGET, 10, 2_000_000);
    assert_eq!(deleted, 0);
    assert_eq!(pages, 0);
}

#[test]
fn apply_page_filters_decrements_and_advances_cursor() {
    let mut cursor = PurgeCursor::new(1000, 10);
    assert_eq!(cursor.fetch_limit(), 10);
    let page = vec![
        MessageRef { id: 900, author_id: TARGET },
        MessageRef { id: 890, author_id: OTHER },
        MessageRef { id: 880, author_id: TARGET },
        MessageRef { id: 870, author_id: OTHER },
    ];
    match cursor.apply_page(&page, TARGET) {
        PageAction::DeleteBatch(ids) => assert_eq!(ids, vec![900, 880]),
        PageAction::Stop => panic!("expected a deletion batch"),
    }
    assert_eq!(cursor.total_deleted, 2);
    assert_eq!(cursor.remaining_target, 8);
    // The cursor moves past the whole fetched page, matched or not.
    assert_eq!(cursor.before_message_id, 870);
}

#[test]
fn apply_page_without_matches_stops_and_keeps_cursor() {
    let mut cursor = PurgeCursor::new(1000, 10);
    let page = vec![MessageRef { id: 900, author_id: OTHER }];
    match cursor.apply_page(&page, TARGET) {
        PageAction::Stop => {}
        PageAction::DeleteBatch(_) => panic!("expected the loop to stop"),
    }
    assert_eq!(cursor.total_deleted, 0);
    assert_eq!(cursor.remaining_target, 10);
    assert_eq!(cursor.before_message_id, 1000);
}

#[test]
fn fetch_limit_is_capped_by_the_platform_ceiling() {
    let cursor = PurgeCursor::new(1000, 200);
    assert_eq!(cursor.fetch_limit(), 100);
}
