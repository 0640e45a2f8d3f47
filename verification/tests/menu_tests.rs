use dojima_bot::{MenuSession, MenuStep};

#[test]
fn five_nexts_on_five_pages_return_to_page_zero() {
    let mut session = MenuSession::new(String::from("111"), 5);
    let next = session.next_button_id.clone();
    assert_eq!(session.current_page, 0);
    for expected in [1, 2, 3, 4, 0] {
        assert_eq!(session.handle_press(&next), MenuStep::Moved);
        assert_eq!(session.current_page, expected);
    }
}

#[test]
fn prev_from_page_zero_wraps_to_last_page() {
    let mut session = MenuSession::new(String::from("111"), 5);
    let prev = session.prev_button_id.clone();
    assert_eq!(session.handle_press(&prev), MenuStep::Moved);
    assert_eq!(session.current_page, 4);
}

#[test]
fn two_pages_cycle_like_the_help_menu() {
    let mut session = MenuSession::new(String::from("7"), 2);
    let next = session.next_button_id.clone();
    assert_eq!(session.handle_press(&next), MenuStep::Moved);
    assert_eq!(session.current_page, 1);
    assert_eq!(session.handle_press(&next), MenuStep::Moved);
    assert_eq!(session.current_page, 0);
}

#[test]
fn foreign_session_tokens_are_ignored() {
    let mut a = MenuSession::new(String::from("111"), 3);
    let b = MenuSession::new(String::from("222"), 4);
    assert_eq!(a.handle_press(&b.next_button_id), MenuStep::Ignored);
    assert_eq!(a.handle_press(&b.prev_button_id), MenuStep::Ignored);
    assert_eq!(a.current_page, 0);
}

#[test]
fn unrelated_token_is_ignored() {
    let mut session = MenuSession::new(String::from("111"), 3);
    assert_eq!(session.handle_press(&String::from("confirm")), MenuStep::Ignored);
    assert_eq!(session.current_page, 0);
}

#[test]
fn expired_session_ignores_its_own_tokens() {
    let mut session = MenuSession::new(String::from("111"), 3);
    let next = session.next_button_id.clone();
    session.expire();
    assert_eq!(session.handle_press(&next), MenuStep::Ignored);
    assert_eq!(session.current_page, 0);
    assert!(!session.live);
}

#[test]
fn interaction_sessions_never_cross_even_with_prefix_ids() {
    // Session id "1" is a text prefix of session id "12": equality of
    // whole tokens still keeps the sessions apart.
    let mut a = MenuSession::new_from_interaction(1, 3);
    let b = MenuSession::new_from_interaction(12, 3);
    assert_eq!(a.session_id, "1");
    assert_eq!(b.session_id, "12");
    assert_eq!(a.handle_press(&b.next_button_id), MenuStep::Ignored);
    assert_eq!(a.handle_press(&b.prev_button_id), MenuStep::Ignored);
    assert_eq!(a.current_page, 0);
    let a_next = a.next_button_id.clone();
    assert_eq!(a.handle_press(&a_next), MenuStep::Moved);
    assert_eq!(a.current_page, 1);
}

#[test]
fn button_ids_embed_the_session_id() {
    let session = MenuSession::new(String::from("90215"), 2);
    assert_eq!(session.next_button_id, "90215next");
    assert_eq!(session.prev_button_id, "90215prev");
}
