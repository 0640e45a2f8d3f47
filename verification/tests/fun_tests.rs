use dojima_bot::{
    file_stem_matches, find_meme_entry, message_gets_reply, pick_index, pick_one, plan_echo,
    roll_between, EchoAction,
};

#[test]
fn roll_rejects_misordered_bounds() {
    assert_eq!(roll_between(6, 1), None);
    assert_eq!(roll_between(3, 3), None);
}

#[test]
fn roll_stays_inclusive_between_bounds() {
    for _ in 0..200 {
        let v = roll_between(1, 6).expect("ordered bounds roll");
        assert!((1..=6).contains(&v));
    }
    for _ in 0..200 {
        let v = roll_between(-5, -1).expect("negative bounds roll");
        assert!((-5..=-1).contains(&v));
    }
}

#[test]
fn roll_spans_the_full_int_range() {
    let v = roll_between(i32::MIN, i32::MAX).expect("full range roll");
    let _ = v;
}

#[test]
fn pick_index_stays_in_bounds() {
    for _ in 0..100 {
        assert!(pick_index(3) < 3);
    }
    assert_eq!(pick_index(1), 0);
}

#[test]
fn pick_one_returns_a_listed_message() {
    let quotes = vec![
        String::from("Hello."),
        String::from("Are you sure?"),
        String::from("That's rad"),
    ];
    for _ in 0..50 {
        let chosen = pick_one(&quotes);
        assert!(quotes.contains(chosen));
    }
}

#[test]
fn keyword_reply_fires_on_matches_only() {
    assert!(message_gets_reply("I just reinstalled Microsoft Office", false));
    assert!(message_gets_reply("windows keeps updating", false));
    assert!(message_gets_reply("my old XP box", false));
    assert!(!message_gets_reply("a lovely day outside", false));
    // Word boundaries: "Win" embedded in another word does not count.
    assert!(!message_gets_reply("Winter is coming", false));
}

#[test]
fn keyword_reply_never_fires_on_bots() {
    assert!(!message_gets_reply("Microsoft", true));
}

#[test]
fn echo_decision_tree_matches_the_relay_command() {
    // A reply target with text wins, and drops any attachment.
    assert_eq!(plan_echo(true, true, true, true), EchoAction::ReplyToMessage);
    assert_eq!(plan_echo(true, true, false, false), EchoAction::ReplyToMessage);
    // A reply target without text falls through to the user.
    assert_eq!(
        plan_echo(false, true, true, true),
        EchoAction::DirectMessage { with_text: false, with_attachment: true }
    );
    assert_eq!(
        plan_echo(true, false, true, false),
        EchoAction::DirectMessage { with_text: true, with_attachment: false }
    );
    assert_eq!(
        plan_echo(true, false, false, true),
        EchoAction::SendToChannel { with_text: true, with_attachment: true }
    );
    assert_eq!(
        plan_echo(false, false, false, true),
        EchoAction::SendToChannel { with_text: false, with_attachment: true }
    );
    assert_eq!(
        plan_echo(true, false, false, false),
        EchoAction::SendToChannel { with_text: true, with_attachment: false }
    );
    assert_eq!(plan_echo(false, false, false, false), EchoAction::DoNothing);
    assert_eq!(plan_echo(false, true, false, false), EchoAction::DoNothing);
}

#[test]
fn stems_match_before_the_last_dot() {
    assert!(file_stem_matches("funny.mp4", "funny"));
    assert!(file_stem_matches("a.b.c", "a.b"));
    assert!(!file_stem_matches("funny", "funny"));
    assert!(!file_stem_matches("funny.mp4", "fun"));
    assert!(!file_stem_matches(".mp4", "x"));
}

#[test]
fn meme_search_finds_the_first_stem_match() {
    let entries = vec![
        String::from("dance.webm"),
        String::from("cat.mp4"),
        String::from("cat.webm"),
    ];
    assert_eq!(find_meme_entry(&entries, "cat"), Some(1));
    assert_eq!(find_meme_entry(&entries, "dance"), Some(0));
    assert_eq!(find_meme_entry(&entries, "dog"), None);
}
