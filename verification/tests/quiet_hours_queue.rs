use bili_sync::config::{Config, Credential, Trigger};
use bili_sync::notify::{normalize_message_for_cache, notifier_cache_key, LastMessages, Notifier};
use bili_sync::queue::{
    dispatch_outcome, effective_interval, notify, worker_step, NotificationMessage,
    NotificationQueue, WorkerStep,
};
use bili_sync::time::{format_timestamp, in_quiet_hours, quiet_delay_seconds, LocalTime};

fn at(hour: u8, minute: u8, second: u8) -> LocalTime {
    LocalTime { year: 2026, month: 3, day: 14, hour, minute, second }
}

fn quiet_config(start: u8, end: u8) -> Config {
    let mut config = Config::default();
    config.upper_path = String::from("/srv/bili");
    config.credential = Credential {
        sessdata: String::from("s"),
        bili_jct: String::from("j"),
        buvid3: String::from("b"),
        dedeuserid: String::from("d"),
        ac_time_value: String::from("a"),
    };
    config.interval = Trigger::Interval(300);
    config.enable_notification_quiet_hours = true;
    config.quiet_hours_start = start;
    config.quiet_hours_end = end;
    config.notifiers = Some(vec![Notifier::Telegram {
        bot_token: String::from("SECRET-REDACTED"),
        chat_id: String::from("7"),
    }]);
    config
}

#[test]
fn wraparound_window_contains_23_but_not_9() {
    assert!(in_quiet_hours(22, 9, 23));
    assert!(in_quiet_hours(22, 9, 22));
    assert!(in_quiet_hours(22, 9, 0));
    assert!(in_quiet_hours(22, 9, 8));
    assert!(!in_quiet_hours(22, 9, 9));
    assert!(!in_quiet_hours(22, 9, 21));
}

#[test]
fn same_day_window_is_half_open() {
    assert!(in_quiet_hours(22, 23, 22));
    assert!(!in_quiet_hours(22, 23, 23));
    assert!(!in_quiet_hours(22, 23, 21));
}

#[test]
fn notification_interval_clamps_into_one_to_sixty() {
    assert_eq!(effective_interval(0), 1);
    assert_eq!(effective_interval(1), 1);
    assert_eq!(effective_interval(5), 5);
    assert_eq!(effective_interval(60), 60);
    assert_eq!(effective_interval(120), 60);
}

#[test]
fn delay_reaches_the_next_window_end() {
    // 23:30 inside 22-09: tomorrow 09:00 is 9.5 hours away.
    assert_eq!(quiet_delay_seconds(22, 9, 23, 30, 0), 34200);
    // 08:59:59 is one second before the window opens.
    assert_eq!(quiet_delay_seconds(22, 9, 8, 59, 59), 1);
    // 22:00 same-day window 22-23: one hour.
    assert_eq!(quiet_delay_seconds(22, 23, 22, 0, 0), 3600);
}

#[test]
fn quieted_message_is_delayed_then_sent_once() {
    let config = quiet_config(22, 9);
    let mut queue = NotificationQueue::new();
    let enqueue_time = at(23, 30, 0);
    notify(&config, &mut queue, String::from("cycle done"), enqueue_time);
    assert_eq!(queue.len(), 1);

    // The worker pops at 23:30 and must not send: re-enqueue after the delay.
    let msg = queue.pop().unwrap();
    match worker_step(&config, &enqueue_time) {
        WorkerStep::Quieted { delay_seconds } => {
            assert_eq!(delay_seconds, 34200);
            queue.enqueue(msg);
        }
        WorkerStep::Dispatch => panic!("23:30 lies inside the quiet window"),
    }

    // At 09:00 the same message is popped again and dispatched; the dedup
    // cache is consulted only now, at send time.
    let reopened = at(9, 0, 0);
    let msg = queue.pop().unwrap();
    assert!(matches!(worker_step(&config, &reopened), WorkerStep::Dispatch));
    let mut cache = LastMessages::new();
    let notifier = &msg.notifiers[0];
    let key = notifier_cache_key(notifier);
    let norm = normalize_message_for_cache(notifier, msg.message.as_str());
    assert!(cache.deliver(key, norm));
    assert_eq!(queue.len(), 0);
}

#[test]
fn disabled_window_always_dispatches() {
    let mut config = quiet_config(22, 9);
    config.enable_notification_quiet_hours = false;
    assert!(matches!(worker_step(&config, &at(23, 30, 0)), WorkerStep::Dispatch));
}

#[test]
fn queue_is_fifo() {
    let mut queue = NotificationQueue::new();
    let n = vec![Notifier::Telegram {
        bot_token: String::from("SECRET-REDACTED"),
        chat_id: String::from("1"),
    }];
    queue.enqueue(NotificationMessage {
        notifiers: n.clone(),
        message: String::from("first"),
        created_at: at(1, 0, 0),
    });
    queue.enqueue(NotificationMessage {
        notifiers: n,
        message: String::from("second"),
        created_at: at(2, 0, 0),
    });
    assert_eq!(queue.pop().unwrap().message, "first");
    assert_eq!(queue.pop().unwrap().message, "second");
    assert!(queue.pop().is_none());
}

#[test]
fn notify_skips_without_configured_channels() {
    let mut config = quiet_config(22, 9);
    config.notifiers = None;
    let mut queue = NotificationQueue::new();
    notify(&config, &mut queue, String::from("ignored"), at(12, 0, 0));
    assert_eq!(queue.len(), 0);
    config.notifiers = Some(Vec::new());
    notify(&config, &mut queue, String::from("ignored"), at(12, 0, 0));
    assert_eq!(queue.len(), 0);
}

#[test]
fn dispatch_fails_only_when_every_channel_failed() {
    assert!(dispatch_outcome(2, 0).is_ok());
    assert!(dispatch_outcome(1, 1).is_ok());
    assert_eq!(dispatch_outcome(0, 2).unwrap_err(), "所有通知器发送失败");
    assert!(dispatch_outcome(0, 0).is_ok());
}

#[test]
fn timestamps_render_zero_padded() {
    let t = LocalTime { year: 987, month: 4, day: 5, hour: 6, minute: 7, second: 8 };
    assert_eq!(format_timestamp(&t), "0987-04-05 06:07:08");
}

#[test]
fn clock_fields_are_in_documented_ranges() {
    let t = bili_sync::time::now_local();
    assert!((1..=12).contains(&t.month));
    assert!((1..=31).contains(&t.day));
    assert!(t.hour < 24);
    assert!(t.minute < 60);
    assert!(t.second < 60);
    assert!((0..10000).contains(&t.year));
}
