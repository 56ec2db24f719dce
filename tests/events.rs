use shopbot::action::Action;
use shopbot::channel::{channel_name, channel_of_name, Channel};
use shopbot::plan::{bootstrap_actions, message_actions, transition_actions};
use shopbot::reaction::{transition_of, trigger_of, Transition, Trigger};

fn react(channel: &str, emoji: Option<&str>, text: &str) -> Vec<Action> {
    let t = transition_of(channel_of_name(channel), trigger_of(emoji));
    transition_actions(t, text)
}

fn posts(actions: &[Action]) -> Vec<(Channel, String)> {
    let mut r = Vec::new();
    for a in actions {
        if let Action::Post(c, t) = a {
            r.push((*c, t.clone()));
        }
    }
    r
}

#[test]
fn channel_names_round_trip() {
    assert_eq!(channel_name(Channel::Shop), "🛒-shop");
    assert_eq!(channel_name(Channel::Stock), "📦-stock");
    assert_eq!(channel_of_name("🛒-shop"), Some(Channel::Shop));
    assert_eq!(channel_of_name("📦-stock"), Some(Channel::Stock));
    assert_eq!(channel_of_name("general"), None);
    assert_eq!(channel_of_name("🛒-sho"), None);
    assert_eq!(channel_of_name("🛒-shopping"), None);
    assert_eq!(channel_of_name(""), None);
}

#[test]
fn emoji_classification() {
    assert_eq!(trigger_of(Some("✅")), Trigger::MarkSold);
    assert_eq!(trigger_of(Some("\u{267b}\u{fe0f}")), Trigger::Restock);
    // without the variation selector it is another emoji
    assert_eq!(trigger_of(Some("\u{267b}")), Trigger::Unrecognized);
    assert_eq!(trigger_of(Some("👍")), Trigger::Unrecognized);
    assert_eq!(trigger_of(Some("✅✅")), Trigger::Unrecognized);
    assert_eq!(trigger_of(Some("")), Trigger::Unrecognized);
    assert_eq!(trigger_of(None), Trigger::Unrecognized);
}

#[test]
fn transitions_by_channel_and_trigger() {
    assert_eq!(transition_of(Some(Channel::Shop), Trigger::MarkSold), Transition::Bought);
    assert_eq!(transition_of(Some(Channel::Stock), Trigger::MarkSold), Transition::Consumed);
    assert_eq!(transition_of(Some(Channel::Stock), Trigger::Restock), Transition::Restocked);
    assert_eq!(transition_of(Some(Channel::Shop), Trigger::Restock), Transition::Ignored);
    assert_eq!(transition_of(None, Trigger::MarkSold), Transition::Ignored);
    assert_eq!(transition_of(Some(Channel::Stock), Trigger::Unrecognized), Transition::Ignored);
}

#[test]
fn shop_message_from_user_is_reposted_and_deleted() {
    let r = message_actions(42, 42, false, "bike, 50 coins");
    assert_eq!(
        r,
        vec![
            Action::Post(Channel::Shop, "bike, 50 coins".to_string()),
            Action::DeleteSource
        ]
    );
    // the bot's own copy, when it arrives, is left alone
    assert!(message_actions(42, 42, true, "bike, 50 coins").is_empty());
}

#[test]
fn messages_elsewhere_are_left_alone() {
    assert!(message_actions(42, 7, false, "hello").is_empty());
    assert!(message_actions(42, 7, true, "hello").is_empty());
}

#[test]
fn check_mark_in_shop_copies_to_stock() {
    let r = react("🛒-shop", Some("✅"), "lamp");
    assert_eq!(
        r,
        vec![
            Action::EditSource("~~lamp~~".to_string()),
            Action::Post(Channel::Stock, "lamp".to_string())
        ]
    );
    assert_eq!(posts(&r), vec![(Channel::Stock, "lamp".to_string())]);
}

#[test]
fn check_mark_in_stock_strikes_through() {
    let r = react("📦-stock", Some("✅"), "lamp");
    assert_eq!(r, vec![Action::EditSource("~~lamp~~".to_string())]);
    assert!(posts(&r).is_empty());
}

#[test]
fn recycle_in_stock_returns_to_shop() {
    let r = react("📦-stock", Some("\u{267b}\u{fe0f}"), "lamp");
    assert_eq!(
        r,
        vec![
            Action::EditSource("~~lamp~~".to_string()),
            Action::Post(Channel::Shop, "lamp".to_string())
        ]
    );
}

#[test]
fn other_reactions_do_nothing() {
    assert!(react("🛒-shop", Some("👍"), "lamp").is_empty());
    assert!(react("📦-stock", Some("👍"), "lamp").is_empty());
    assert!(react("📦-stock", None, "lamp").is_empty());
    assert!(react("🛒-shop", Some("\u{267b}\u{fe0f}"), "lamp").is_empty());
    assert!(react("general", Some("✅"), "lamp").is_empty());
    assert!(transition_actions(Transition::Ignored, "lamp").is_empty());
}

#[test]
fn redelivered_reaction_posts_twice() {
    // no deduplication: the second delivery reads the struck-through text
    let first = react("🛒-shop", Some("✅"), "lamp");
    let edited = match &first[0] {
        Action::EditSource(t) => t.clone(),
        other => panic!("unexpected {:?}", other),
    };
    let second = react("🛒-shop", Some("✅"), &edited);
    let mut all = posts(&first);
    all.extend(posts(&second));
    assert_eq!(
        all,
        vec![
            (Channel::Stock, "lamp".to_string()),
            (Channel::Stock, "~~lamp~~".to_string())
        ]
    );
    assert_eq!(second[0], Action::EditSource("~~~~lamp~~~~".to_string()));
}

#[test]
fn redelivered_restock_posts_twice_in_shop() {
    let first = react("📦-stock", Some("\u{267b}\u{fe0f}"), "lamp");
    let second = react("📦-stock", Some("\u{267b}\u{fe0f}"), "~~lamp~~");
    let mut all = posts(&first);
    all.extend(posts(&second));
    assert_eq!(
        all,
        vec![
            (Channel::Shop, "lamp".to_string()),
            (Channel::Shop, "~~lamp~~".to_string())
        ]
    );
}

#[test]
fn bootstrap_creates_missing_channels() {
    assert!(bootstrap_actions(true, true).is_empty());
    assert_eq!(bootstrap_actions(false, true), vec![Action::CreateChannel(Channel::Shop)]);
    assert_eq!(bootstrap_actions(true, false), vec![Action::CreateChannel(Channel::Stock)]);
    assert_eq!(
        bootstrap_actions(false, false),
        vec![
            Action::CreateChannel(Channel::Shop),
            Action::CreateChannel(Channel::Stock)
        ]
    );
}
