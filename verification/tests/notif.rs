#[test]
fn notif() {
    let n = twitch_discord_bot::notif(
        "Testing",
        "More testing!",
        Some("/home/mathias/Pictures/hackerman.jpg"),
    );
    assert_eq!(n.summary, "Testing");
    assert_eq!(n.body, "More testing!");
    assert_eq!(n.image.as_deref(), Some("/home/mathias/Pictures/hackerman.jpg"));

    // should work with no image
    let n = twitch_discord_bot::notif("Testing", "More testing!", None);
    assert_eq!(n.summary, "Testing");
    assert_eq!(n.body, "More testing!");
    assert!(n.image.is_none());
}
