use rustytunes::notifier::{MessageNotify, Notifier, NotifierError};

fn mk_notify(message_id: u64, notify_at: i64) -> MessageNotify {
    MessageNotify {
        guild_id: 1,
        channel_id: 2,
        user_id: 3,
        message_id,
        created_at: 0,
        notify_at,
        note: None,
    }
}

fn due_ids(n: &Notifier, now: i64) -> Vec<u64> {
    n.check_messages(now).iter().map(|m| m.message_id).collect()
}

#[test]
fn schedule_parses_and_appends() {
    let mut n = Notifier::new(Vec::new());
    let record = n
        .add_message(10, 20, 30, 40, 1_000, "1h", Some("tea".to_string()))
        .unwrap();
    assert_eq!(record.guild_id, 10);
    assert_eq!(record.channel_id, 20);
    assert_eq!(record.user_id, 30);
    assert_eq!(record.message_id, 40);
    assert_eq!(record.created_at, 1_000);
    assert_eq!(record.notify_at, 1_000 + 3_600);
    assert_eq!(record.note.as_deref(), Some("tea"));
    assert_eq!(n.messages().len(), 1);
    assert_eq!(n.messages()[0].message_id, 40);
}

#[test]
fn schedule_with_bad_time_changes_nothing() {
    let mut n = Notifier::new(Vec::new());
    let r = n.add_message(10, 20, 30, 40, 1_000, "whenever", None);
    assert!(matches!(r, Err(NotifierError::InvalidTimeFormat)));
    assert!(n.messages().is_empty());
}

#[test]
fn sweep_returns_only_ripe_notifications() {
    let n = Notifier::new(vec![
        mk_notify(1, 100),
        mk_notify(2, 200),
        mk_notify(3, 300),
    ]);
    assert_eq!(due_ids(&n, 50), Vec::<u64>::new());
    assert_eq!(due_ids(&n, 200), vec![1, 2]);
    assert_eq!(due_ids(&n, 1_000), vec![1, 2, 3]);
}

#[test]
fn sweep_never_delivers_before_due_time() {
    let n = Notifier::new(vec![mk_notify(1, 100), mk_notify(2, 200)]);
    for now in [0, 99, 100, 150, 250] {
        for m in n.check_messages(now) {
            assert!(m.notify_at <= now);
        }
    }
}

#[test]
fn delivered_notifications_never_come_back() {
    let mut n = Notifier::new(vec![
        mk_notify(1, 100),
        mk_notify(2, 200),
        mk_notify(3, 150),
    ]);
    assert_eq!(due_ids(&n, 500), vec![1, 2, 3]);
    n.mark_delivered(2);
    assert_eq!(due_ids(&n, 500), vec![1, 3]);
    assert_eq!(due_ids(&n, 1_000_000), vec![1, 3]);
    n.mark_delivered(1);
    n.mark_delivered(3);
    assert!(due_ids(&n, 1_000_000).is_empty());
}

#[test]
fn undelivered_notifications_are_retried() {
    let n = Notifier::new(vec![mk_notify(7, 10)]);
    // a failed delivery is not marked, so the next sweep offers it again
    assert_eq!(due_ids(&n, 50), vec![7]);
    assert_eq!(due_ids(&n, 60), vec![7]);
}
