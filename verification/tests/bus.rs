use spotify_ws::bus::ChangeBus;
use spotify_ws::json::JsonText;
use spotify_ws::song::Song;

fn song(text: &str, fetched: u128) -> Song {
    Song::new(Some(JsonText::parse(text.as_bytes()).unwrap()), fetched)
}

#[test]
fn new_bus_holds_the_absent_snapshot_at_version_zero() {
    let bus = ChangeBus::new();
    assert_eq!(bus.version(), 0);
    assert!(*bus.snapshot() == Song::absent());
    assert!(bus.wait_for_change(0).is_none());
}

#[test]
fn publish_replaces_the_value_and_counts() {
    let mut bus = ChangeBus::new();
    bus.publish(song("{\"n\":1}", 10));
    assert_eq!(bus.version(), 1);
    assert!(*bus.snapshot() == song("{\"n\":1}", 10));
    bus.publish(song("{\"n\":2}", 20));
    assert_eq!(bus.version(), 2);
    assert!(*bus.snapshot() == song("{\"n\":2}", 20));
}

#[test]
fn wait_for_change_hands_out_only_what_is_newer() {
    let mut bus = ChangeBus::new();
    bus.publish(song("1", 1));
    let (version, value) = bus.wait_for_change(0).unwrap();
    assert_eq!(version, 1);
    assert!(*value == song("1", 1));
    assert!(bus.wait_for_change(version).is_none());
    assert!(bus.wait_for_change(u64::MAX).is_none());
}

#[test]
fn a_slow_consumer_sees_the_latest_value_only() {
    let mut bus = ChangeBus::new();
    bus.publish(song("1", 1));
    bus.publish(song("2", 2));
    bus.publish(song("3", 3));
    let (version, value) = bus.wait_for_change(0).unwrap();
    assert_eq!(version, 3);
    assert!(*value == song("3", 3));
    let (again, _) = bus.wait_for_change(2).unwrap();
    assert_eq!(again, 3);
    assert!(bus.wait_for_change(3).is_none());
}

#[test]
fn versions_handed_out_to_one_consumer_only_grow() {
    let mut bus = ChangeBus::new();
    let mut seen = 0u64;
    let mut delivered = Vec::new();
    for round in 1..=5u128 {
        bus.publish(song("true", round));
        if round % 2 == 1 {
            while let Some((version, _)) = bus.wait_for_change(seen) {
                assert!(version > seen);
                seen = version;
                delivered.push(version);
            }
        }
    }
    assert_eq!(delivered, vec![1, 3, 5]);
}

#[test]
fn a_copy_of_the_bus_is_a_fixed_picture_of_it() {
    let mut bus = ChangeBus::new();
    bus.publish(song("1", 1));
    let picture = bus.clone();
    bus.publish(song("2", 2));
    assert_eq!(picture.version(), 1);
    assert!(*picture.snapshot() == song("1", 1));
    assert_eq!(bus.version(), 2);
}

#[test]
fn try_publish_publishes_while_versions_last() {
    let mut bus = ChangeBus::new();
    assert!(bus.try_publish(song("1", 1)));
    assert_eq!(bus.version(), 1);
    assert!(*bus.snapshot() == song("1", 1));
    assert!(bus.try_publish(song("2", 2)));
    assert_eq!(bus.version(), 2);
    assert!(*bus.snapshot() == song("2", 2));
}
