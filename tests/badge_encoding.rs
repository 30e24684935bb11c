use sel4_bridge::badge::{notification_badge, MAX_SESSION_ID};

#[test]
fn badge_layout() {
    assert_eq!(notification_badge(1, 2), Some(0x1_0002));
    assert_eq!(notification_badge(0, 0), Some(0));
    assert_eq!(notification_badge(MAX_SESSION_ID, 0xffff), Some(u64::MAX));
}

#[test]
fn session_id_too_large_for_badge() {
    assert_eq!(notification_badge(MAX_SESSION_ID + 1, 0), None);
}

#[test]
fn distinct_pairs_get_distinct_badges() {
    let pairs: Vec<(u64, u16)> = vec![(1, 0), (0, 1), (1, 1), (2, 0), (0, 0xffff), (1, 0xffff), (MAX_SESSION_ID, 0)];
    for (i, a) in pairs.iter().enumerate() {
        for (j, b) in pairs.iter().enumerate() {
            if i != j {
                assert_ne!(notification_badge(a.0, a.1), notification_badge(b.0, b.1));
            }
        }
    }
}
