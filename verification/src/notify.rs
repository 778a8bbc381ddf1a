//! Notification channels and the per-channel content deduplication cache.
//!
//! A channel is either a Telegram chat or a plain webhook.  Before a
//! message is dispatched to a channel, its trimmed body is compared with
//! the last body stored under that channel's cache key; an equal body is
//! skipped, so repeating texts reach each channel once.

use vstd::prelude::*;
use crate::strutil::{trim_str, trimmed};

verus! {

/// One outbound notification channel.
pub enum Notifier {
    Telegram { bot_token: String, chat_id: String },
    Webhook {
        url: String,
        template: Option<String>,
        /// Forces rendering the carried template directly instead of the
        /// registered one; set by the test-notification path.
        ignore_cache: Option<()>,
    },
}

impl Clone for Notifier {
    /// Clones the channel, field for field.
    fn clone(&self) -> (r: Self)
        ensures
            r == *self,
    {
        match self {
            Notifier::Telegram { bot_token, chat_id } => Notifier::Telegram {
                bot_token: bot_token.clone(),
                chat_id: chat_id.clone(),
            },
            Notifier::Webhook { url, template, ignore_cache } => Notifier::Webhook {
                url: url.clone(),
                template: match template {
                    Some(t) => Some(t.clone()),
                    None => None,
                },
                ignore_cache: *ignore_cache,
            },
        }
    }
}

/// The deduplication key of a channel: `telegram:{token}:{chat}` or
/// `webhook:{url}`.
pub open spec fn spec_notifier_cache_key(n: &Notifier) -> Seq<char> {
    match n {
        Notifier::Telegram { bot_token, chat_id } => "telegram:"@ + bot_token@ + ":"@ + chat_id@,
        Notifier::Webhook { url, .. } => "webhook:"@ + url@,
    }
}

/// Computes the channel's deduplication key.
pub fn notifier_cache_key(notifier: &Notifier) -> (r: String)
    ensures
        r@ == spec_notifier_cache_key(notifier),
{
    match notifier {
        Notifier::Telegram { bot_token, chat_id } => {
            let mut r = String::from_str("telegram:");
            r.append(bot_token.as_str());
            r.append(":");
            r.append(chat_id.as_str());
            r
        },
        Notifier::Webhook { url, .. } => {
            let mut r = String::from_str("webhook:");
            r.append(url.as_str());
            r
        },
    }
}

/// Normalizes a message body for deduplication: only the trimmed raw
/// body counts, so texts differing merely in appended timestamps are
/// treated as the same message.
pub fn normalize_message_for_cache(_notifier: &Notifier, message: &str) -> (r: String)
    ensures
        r@ == trimmed(message@),
{
    trim_str(message)
}

/// The registry key under which a webhook's payload template is stored.
pub fn webhook_template_key(url: &str) -> (r: String)
    ensures
        r@ == "payload_"@ + url@,
{
    let mut r = String::from_str("payload_");
    r.append(url);
    r
}

/// The payload template a webhook renders: the fallback JSON body.
pub open spec fn default_webhook_template() -> Seq<char> {
    "{\"text\": \"{{{message}}}\", \"created_at\": \"{{created_at}}\", \"sent_at\": \"{{sent_at}}\"}"@
}

/// The template text a webhook channel renders: the user's template when
/// it has any non-whitespace content, else the default JSON payload.
pub open spec fn spec_webhook_template_content(template: &Option<String>) -> Seq<char> {
    match template {
        Some(t) => if trimmed(t@).len() > 0 {
            t@
        } else {
            default_webhook_template()
        },
        None => default_webhook_template(),
    }
}

/// Selects the payload template of a webhook channel.
pub fn webhook_template_content(template: &Option<String>) -> (r: String)
    ensures
        r@ == spec_webhook_template_content(template),
{
    match template {
        Some(t) => {
            let t_trim = trim_str(t.as_str());
            if t_trim.as_str().unicode_len() > 0 {
                t.clone()
            } else {
                String::from_str(
                    "{\"text\": \"{{{message}}}\", \"created_at\": \"{{created_at}}\", \"sent_at\": \"{{sent_at}}\"}",
                )
            }
        },
        None => String::from_str(
            "{\"text\": \"{{{message}}}\", \"created_at\": \"{{created_at}}\", \"sent_at\": \"{{sent_at}}\"}",
        ),
    }
}

/// Marks a webhook channel for direct template rendering, as the test
/// endpoint does before a trial send; a Telegram channel is untouched.
pub fn force_ignore_cache(notifier: &mut Notifier)
    ensures
        match *old(notifier) {
            Notifier::Webhook { url, template, ignore_cache: _ } => *final(notifier)
                == (Notifier::Webhook { url, template, ignore_cache: Some(()) }),
            Notifier::Telegram { .. } => *final(notifier) == *old(notifier),
        },
{
    match notifier {
        Notifier::Webhook { ignore_cache, .. } => {
            *ignore_cache = Some(());
        },
        Notifier::Telegram { .. } => {},
    }
}

/// Looks a key up in an association list, front to back.
pub open spec fn cache_lookup_from(
    entries: Seq<(Seq<char>, Seq<char>)>,
    key: Seq<char>,
    i: int,
) -> Option<Seq<char>>
    decreases entries.len() - i,
{
    if i < 0 || i >= entries.len() {
        None
    } else if entries[i].0 == key {
        Some(entries[i].1)
    } else {
        cache_lookup_from(entries, key, i + 1)
    }
}

/// The body last sent under `key`, if any.
pub open spec fn cache_lookup(entries: Seq<(Seq<char>, Seq<char>)>, key: Seq<char>) -> Option<
    Seq<char>,
> {
    cache_lookup_from(entries, key, 0)
}

/// Whether a delivery under `key` with normalized body `norm` dispatches:
/// it is skipped exactly when the cache already holds that body.
pub open spec fn dedup_sends(
    entries: Seq<(Seq<char>, Seq<char>)>,
    key: Seq<char>,
    norm: Seq<char>,
) -> bool {
    cache_lookup(entries, key) != Some(norm)
}

/// How one delivery leaves the cache: `key` now maps to `norm` and every
/// other key is untouched.
pub open spec fn dedup_post(
    pre: Seq<(Seq<char>, Seq<char>)>,
    post: Seq<(Seq<char>, Seq<char>)>,
    key: Seq<char>,
    norm: Seq<char>,
) -> bool {
    &&& cache_lookup(post, key) == Some(norm)
    &&& forall|k: Seq<char>| k != key ==> #[trigger] cache_lookup(post, k) == cache_lookup(pre, k)
}

/// The last-sent body per channel cache key.
pub struct LastMessages {
    entries: Vec<(String, String)>,
}

impl LastMessages {
    /// The stored (key, body) pairs.
    pub closed spec fn view(&self) -> Seq<(Seq<char>, Seq<char>)> {
        Seq::new(self.entries@.len(), |i: int| (self.entries@[i].0@, self.entries@[i].1@))
    }

    /// Builds the empty cache.
    pub fn new() -> (r: LastMessages)
        ensures
            r@ =~= Seq::<(Seq<char>, Seq<char>)>::empty(),
    {
        LastMessages { entries: Vec::new() }
    }

    /// Reads the body last stored under `key`.
    pub fn lookup(&self, key: &String) -> (r: Option<String>)
        ensures
            match r {
                Some(v) => cache_lookup(self@, key@) == Some(v@),
                None => cache_lookup(self@, key@) is None,
            },
    {
        let n = self.entries.len();
        let mut i: usize = 0;
        while i < n
            invariant
                i <= n,
                n == self.entries@.len(),
                cache_lookup(self@, key@) == cache_lookup_from(self@, key@, i as int),
            decreases n - i,
        {
            if self.entries[i].0 == *key {
                return Some(self.entries[i].1.clone());
            }
            i = i + 1;
        }
        None
    }

    /// Stores `value` under `key`, replacing any previous body.
    pub fn store(&mut self, key: String, value: String)
        ensures
            dedup_post(old(self)@, final(self)@, key@, value@),
    {
        let n = self.entries.len();
        let mut i: usize = 0;
        while i < n
            invariant
                i <= n,
                n == self.entries@.len(),
                self == old(self),
                forall|j: int| 0 <= j < i ==> self@[j].0 != key@,
            decreases n - i,
        {
            if self.entries[i].0 == key {
                self.entries[i].1 = value;
                proof {
                    lemma_lookup_update(old(self)@, self@, key@, value@, i as int);
                }
                return ;
            }
            i = i + 1;
        }
        self.entries.push((key, value));
        proof {
            lemma_lookup_push(old(self)@, self@, key@, value@);
        }
    }

    /// One dedup-gated delivery to the channel with cache key `key` and
    /// normalized body `norm`: reports whether the send happens and
    /// records the body either way.
    pub fn deliver(&mut self, key: String, norm: String) -> (sends: bool)
        ensures
            sends == dedup_sends(old(self)@, key@, norm@),
            dedup_post(old(self)@, final(self)@, key@, norm@),
    {
        let prior = self.lookup(&key);
        let sends = match &prior {
            Some(last) => !(*last == norm),
            None => true,
        };
        if sends {
            self.store(key, norm);
        } else {
            proof {
                lemma_lookup_same_is_post(self@, key@, norm@);
            }
        }
        sends
    }
}

proof fn lemma_lookup_from_skip(
    pre: Seq<(Seq<char>, Seq<char>)>,
    post: Seq<(Seq<char>, Seq<char>)>,
    k: Seq<char>,
    i: int,
)
    requires
        pre.len() == post.len(),
        0 <= i <= pre.len(),
        forall|j: int|
            0 <= j < pre.len() && ((#[trigger] pre[j]).0 == k || (#[trigger] post[j]).0 == k)
                ==> post[j] == pre[j],
    ensures
        cache_lookup_from(post, k, i) == cache_lookup_from(pre, k, i),
    decreases pre.len() - i,
{
    if 0 <= i < pre.len() {
        lemma_lookup_from_skip(pre, post, k, i + 1);
    }
}

proof fn lemma_lookup_update(
    pre: Seq<(Seq<char>, Seq<char>)>,
    post: Seq<(Seq<char>, Seq<char>)>,
    key: Seq<char>,
    value: Seq<char>,
    i: int,
)
    requires
        0 <= i < pre.len(),
        post =~= pre.update(i, (key, value)),
        pre[i].0 == key,
        forall|j: int| 0 <= j < i ==> (#[trigger] pre[j]).0 != key,
    ensures
        dedup_post(pre, post, key, value),
{
    lemma_lookup_from_prefix_miss(post, key, value, i);
    assert forall|k: Seq<char>| k != key implies #[trigger] cache_lookup(post, k) == cache_lookup(
        pre,
        k,
    ) by {
        lemma_lookup_from_skip(pre, post, k, 0);
    }
}

proof fn lemma_lookup_from_prefix_miss(
    post: Seq<(Seq<char>, Seq<char>)>,
    key: Seq<char>,
    value: Seq<char>,
    i: int,
)
    requires
        0 <= i < post.len(),
        post[i] == (key, value),
        forall|j: int| 0 <= j < i ==> (#[trigger] post[j]).0 != key,
    ensures
        cache_lookup(post, key) == Some(value),
{
    lemma_lookup_from_reaches(post, key, value, 0, i);
}

proof fn lemma_lookup_from_reaches(
    post: Seq<(Seq<char>, Seq<char>)>,
    key: Seq<char>,
    value: Seq<char>,
    at: int,
    i: int,
)
    requires
        0 <= at <= i < post.len(),
        post[i] == (key, value),
        forall|j: int| 0 <= j < i ==> (#[trigger] post[j]).0 != key,
    ensures
        cache_lookup_from(post, key, at) == Some(value),
    decreases i - at,
{
    if at < i {
        lemma_lookup_from_reaches(post, key, value, at + 1, i);
    }
}

proof fn lemma_lookup_push(
    pre: Seq<(Seq<char>, Seq<char>)>,
    post: Seq<(Seq<char>, Seq<char>)>,
    key: Seq<char>,
    value: Seq<char>,
)
    requires
        post =~= pre.push((key, value)),
        forall|j: int| 0 <= j < pre.len() ==> (#[trigger] pre[j]).0 != key,
    ensures
        dedup_post(pre, post, key, value),
{
    lemma_lookup_from_prefix_miss(post, key, value, pre.len() as int);
    assert forall|k: Seq<char>| k != key implies #[trigger] cache_lookup(post, k) == cache_lookup(
        pre,
        k,
    ) by {
        lemma_lookup_push_other(pre, post, key, k, 0);
    }
}

proof fn lemma_lookup_push_other(
    pre: Seq<(Seq<char>, Seq<char>)>,
    post: Seq<(Seq<char>, Seq<char>)>,
    key: Seq<char>,
    k: Seq<char>,
    i: int,
)
    requires
        post.len() == pre.len() + 1,
        forall|j: int| 0 <= j < pre.len() ==> #[trigger] post[j] == pre[j],
        post[pre.len() as int].0 == key,
        k != key,
        0 <= i <= pre.len(),
    ensures
        cache_lookup_from(post, k, i) == cache_lookup_from(pre, k, i),
    decreases pre.len() - i,
{
    if i < pre.len() {
        lemma_lookup_push_other(pre, post, key, k, i + 1);
    } else {
        assert(cache_lookup_from(pre, k, i) is None);
        assert(cache_lookup_from(post, k, i + 1) is None);
        assert(cache_lookup_from(post, k, i) is None);
    }
}

proof fn lemma_lookup_same_is_post(entries: Seq<(Seq<char>, Seq<char>)>, key: Seq<char>, norm: Seq<char>)
    requires
        cache_lookup(entries, key) == Some(norm),
    ensures
        dedup_post(entries, entries, key, norm),
{
}

/// Per-channel deduplication delivers a repeated body once: after any
/// delivery of a message whose trimmed body is `norm`, an immediately
/// following delivery of a message with the same trimmed body to the same
/// channel is skipped.  Two successive enqueues of an identical trimmed
/// body therefore dispatch at most one send, and exactly one when the
/// cache did not already hold that body.
pub proof fn lemma_dedup_sends_once(
    pre: Seq<(Seq<char>, Seq<char>)>,
    mid: Seq<(Seq<char>, Seq<char>)>,
    key: Seq<char>,
    norm: Seq<char>,
)
    requires
        dedup_post(pre, mid, key, norm),
    ensures
        !dedup_sends(mid, key, norm),
        dedup_sends(pre, key, norm) <==> cache_lookup(pre, key) != Some(norm),
{
}

} // verus!
