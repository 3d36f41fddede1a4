use twitch_message::{parse, PingTracker};

#[test]
fn a_ping_asks_for_one_pong() {
    let mut tracker = PingTracker::new(5 * 60 * 1000);
    assert_eq!(tracker.threshold(), 300_000);
    assert_eq!(tracker.should_pong(), None);

    let post = parse(":a!b@c PRIVMSG #d :hi\r\n").unwrap().message;
    tracker.update(&post, 10);
    assert_eq!(tracker.should_pong(), None);

    let ping = parse("PING :tmi.twitch.tv\r\n").unwrap().message;
    tracker.update(&ping, 20);
    let pong = tracker.should_pong().unwrap();
    assert_eq!(pong.to_string(), "PONG :tmi.twitch.tv\r\n");
    assert_eq!(tracker.should_pong(), None);
}

#[test]
fn a_ping_without_a_token_is_none() {
    let mut tracker = PingTracker::new(1000);
    let bare = parse("PING\r\n").unwrap().message;
    tracker.update(&bare, 20);
    assert_eq!(tracker.should_pong(), None);
}

#[test]
fn silence_is_measured_from_the_ping() {
    let mut tracker = PingTracker::new(1000);
    assert!(!tracker.probably_timed_out(u64::MAX));
    let ping = parse("PING :1\r\n").unwrap().message;
    tracker.update(&ping, 500);
    assert!(!tracker.probably_timed_out(500));
    assert!(!tracker.probably_timed_out(1499));
    assert!(tracker.probably_timed_out(1500));
    assert!(tracker.probably_timed_out(9000));
    // a clock that went backwards
    assert!(!tracker.probably_timed_out(100));
    tracker.update(&ping, 2000);
    assert!(!tracker.probably_timed_out(2500));
    tracker.should_pong();
    assert!(!tracker.probably_timed_out(9000));

    let mut eager = PingTracker::new(0);
    eager.update(&ping, 500);
    assert!(eager.probably_timed_out(100));
}
