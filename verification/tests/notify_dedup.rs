use bili_sync::notify::{
    force_ignore_cache, notifier_cache_key, normalize_message_for_cache, webhook_template_content,
    webhook_template_key, LastMessages, Notifier,
};
use bili_sync::queue::telegram_text;
use bili_sync::time::LocalTime;

fn telegram() -> Notifier {
    Notifier::Telegram {
        bot_token: String::from("SECRET-REDACTED"),
        chat_id: String::from("42"),
    }
}

fn webhook(url: &str) -> Notifier {
    Notifier::Webhook {
        url: String::from(url),
        template: None,
        ignore_cache: None,
    }
}

#[test]
fn cache_keys_name_the_channel() {
    assert_eq!(notifier_cache_key(&telegram()), "telegram:SECRET-REDACTED:42");
    assert_eq!(
        notifier_cache_key(&webhook("https://example.test/hook")),
        "webhook:https://example.test/hook"
    );
}

#[test]
fn normalization_trims_whitespace_only() {
    let n = telegram();
    assert_eq!(normalize_message_for_cache(&n, "  body \n"), "body");
    assert_eq!(normalize_message_for_cache(&n, "body"), "body");
    assert_eq!(normalize_message_for_cache(&n, " \t\n "), "");
    assert_eq!(normalize_message_for_cache(&n, "a  b"), "a  b");
}

#[test]
fn webhook_template_key_prefixes_the_url() {
    assert_eq!(webhook_template_key("https://x"), "payload_https://x");
}

#[test]
fn webhook_template_falls_back_on_blank_templates() {
    let fallback =
        "{\"text\": \"{{{message}}}\", \"created_at\": \"{{created_at}}\", \"sent_at\": \"{{sent_at}}\"}";
    assert_eq!(webhook_template_content(&None), fallback);
    assert_eq!(webhook_template_content(&Some(String::from("  \n"))), fallback);
    assert_eq!(
        webhook_template_content(&Some(String::from("{\"t\":\"{{message}}\"}"))),
        "{\"t\":\"{{message}}\"}"
    );
}

#[test]
fn identical_trimmed_bodies_send_once() {
    let mut cache = LastMessages::new();
    let key = notifier_cache_key(&telegram());
    let first = normalize_message_for_cache(&telegram(), "new video!\n");
    let second = normalize_message_for_cache(&telegram(), "  new video!");
    assert!(cache.deliver(key.clone(), first));
    assert!(!cache.deliver(key, second));
}

#[test]
fn different_bodies_and_channels_send_independently() {
    let mut cache = LastMessages::new();
    let key_a = notifier_cache_key(&telegram());
    let key_b = notifier_cache_key(&webhook("https://example.test/hook"));
    assert!(cache.deliver(key_a.clone(), String::from("one")));
    assert!(cache.deliver(key_b, String::from("one")));
    assert!(cache.deliver(key_a.clone(), String::from("two")));
    assert!(cache.deliver(key_a, String::from("one")));
}

#[test]
fn lookup_reflects_the_last_stored_body() {
    let mut cache = LastMessages::new();
    assert!(cache.lookup(&String::from("k")).is_none());
    cache.store(String::from("k"), String::from("v1"));
    assert_eq!(cache.lookup(&String::from("k")).unwrap(), "v1");
    cache.store(String::from("k"), String::from("v2"));
    assert_eq!(cache.lookup(&String::from("k")).unwrap(), "v2");
}

#[test]
fn telegram_text_appends_both_timestamps() {
    let created = LocalTime { year: 2026, month: 1, day: 2, hour: 3, minute: 4, second: 5 };
    let sent = LocalTime { year: 2026, month: 1, day: 2, hour: 9, minute: 0, second: 0 };
    let text = telegram_text("hello", Some(&created), Some(&sent));
    assert_eq!(
        text,
        "hello\n\n⌛️ 生成时间: 2026-01-02 03:04:05\n⌛️ 推送时间: 2026-01-02 09:00:00"
    );
    assert_eq!(telegram_text("hello", Some(&created), None), "hello");
    assert_eq!(telegram_text("hello", None, None), "hello");
}

#[test]
fn test_path_forces_direct_template_rendering() {
    let mut hook = webhook("https://example.test/hook");
    force_ignore_cache(&mut hook);
    match hook {
        Notifier::Webhook { ignore_cache, .. } => assert!(ignore_cache.is_some()),
        Notifier::Telegram { .. } => unreachable!(),
    }
    let mut chat = telegram();
    force_ignore_cache(&mut chat);
    assert!(matches!(chat, Notifier::Telegram { .. }));
}
