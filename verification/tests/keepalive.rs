use twitch_discord_bot::keepalive::KeepAliveMonitor;
use twitch_discord_bot::keepalive::KeepAliveVerdict;

#[test]
fn no_probe_before_interval() {
    let mut m = KeepAliveMonitor::new(1000, 500, 0);
    assert_eq!(m.tick(0), KeepAliveVerdict::Healthy);
    assert_eq!(m.tick(999), KeepAliveVerdict::Healthy);
    assert_eq!(m.expected_ack_ms, None);
    assert_eq!(m.tick(1000), KeepAliveVerdict::Probe);
    assert_eq!(m.expected_ack_ms, Some(1000));
}

#[test]
fn one_probe_outstanding_at_a_time() {
    let mut m = KeepAliveMonitor::new(1000, 5000, 0);
    assert_eq!(m.tick(1000), KeepAliveVerdict::Probe);
    // The interval has elapsed again, but a probe is already outstanding:
    // no second probe goes out.
    assert_eq!(m.tick(2500), KeepAliveVerdict::Healthy);
    assert_eq!(m.last_probe_ms, 1000);
    m.on_ack_received();
    assert_eq!(m.expected_ack_ms, None);
    assert_eq!(m.tick(2500), KeepAliveVerdict::Probe);
    assert_eq!(m.last_probe_ms, 2500);
}

#[test]
fn timeout_exactly_when_ack_overdue() {
    let mut m = KeepAliveMonitor::new(1000, 500, 0);
    assert_eq!(m.tick(1000), KeepAliveVerdict::Probe);
    assert_eq!(m.tick(1499), KeepAliveVerdict::Healthy);
    assert_eq!(m.tick(1500), KeepAliveVerdict::TimedOut);
    // An acknowledgment clears the probe, even a late one.
    m.on_ack_received();
    assert_eq!(m.tick(1600), KeepAliveVerdict::Healthy);
}

#[test]
fn unsolicited_ack_is_tolerated() {
    let mut m = KeepAliveMonitor::new(1000, 500, 0);
    m.on_ack_received();
    assert_eq!(m.expected_ack_ms, None);
    assert_eq!(m.tick(500), KeepAliveVerdict::Healthy);
}
