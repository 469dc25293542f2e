use twitch_discord_bot::router::MessageRouter;

#[test]
fn dispatch_reaches_registered_handler() {
    let mut r = MessageRouter::new();
    r.register("channel-points-channel-v1".to_string(), 1);
    r.register("following".to_string(), 2);
    assert_eq!(r.dispatch("channel-points-channel-v1.123"), Some(1));
    assert_eq!(r.dispatch("following.123"), Some(2));
}

#[test]
fn unmatched_prefix_dispatches_nowhere() {
    let mut r = MessageRouter::new();
    r.register("following".to_string(), 2);
    assert_eq!(r.dispatch("whispers.123"), None);
    assert_eq!(r.dispatch(""), None);
}

#[test]
fn later_registration_overwrites_silently() {
    let mut r = MessageRouter::new();
    r.register("following".to_string(), 2);
    r.register("following".to_string(), 7);
    assert_eq!(r.dispatch("following.123"), Some(7));
    assert_eq!(r.lookup("following"), Some(7));
}

#[test]
fn prefix_is_text_before_first_dot() {
    let mut r = MessageRouter::new();
    r.register("a".to_string(), 1);
    r.register("a.b".to_string(), 2);
    // "a.b.c" has prefix "a", never "a.b".
    assert_eq!(r.dispatch("a.b.c"), Some(1));
    // A topic without a dot is its own prefix.
    assert_eq!(r.dispatch("a"), Some(1));
}
