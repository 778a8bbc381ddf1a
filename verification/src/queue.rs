//! The notification queue model and its worker's decisions.
//!
//! Messages enter a single-consumer FIFO.  For each popped message the
//! worker either dispatches it to every carried channel or, inside the
//! quiet-hours window, schedules a delayed re-enqueue; it then pauses for
//! the configured inter-send interval, clamped to one through sixty
//! seconds.

use vstd::prelude::*;
use crate::config::Config;
use crate::notify::Notifier;
use crate::time::{
    LocalTime, spec_format_timestamp, spec_in_quiet_hours, spec_quiet_delay_seconds,
    format_timestamp, in_quiet_hours, quiet_delay_seconds,
};

verus! {

/// One queued notification.
pub struct NotificationMessage {
    /// The channels this message goes to.
    pub notifiers: Vec<Notifier>,
    /// The raw message body.
    pub message: String,
    /// When the message was created; dispatch texts carry it.
    pub created_at: LocalTime,
}

/// The pending notifications, oldest first.
pub struct NotificationQueue {
    items: Vec<NotificationMessage>,
}

impl NotificationQueue {
    /// The queued messages, front of the queue first.
    pub closed spec fn view(&self) -> Seq<NotificationMessage> {
        self.items@
    }

    /// Builds the empty queue.
    pub fn new() -> (r: NotificationQueue)
        ensures
            r@ == Seq::<NotificationMessage>::empty(),
    {
        NotificationQueue { items: Vec::new() }
    }

    /// Appends a message at the back of the queue.
    pub fn enqueue(&mut self, msg: NotificationMessage)
        ensures
            final(self)@ == old(self)@.push(msg),
    {
        self.items.push(msg);
    }

    /// Removes and returns the oldest message, if any.
    pub fn pop(&mut self) -> (r: Option<NotificationMessage>)
        ensures
            old(self)@.len() == 0 ==> r is None && final(self)@ == old(self)@,
            old(self)@.len() > 0 ==> r == Some(old(self)@[0]) && final(self)@ == old(
                self,
            )@.drop_first(),
    {
        if self.items.len() == 0 {
            None
        } else {
            let msg = self.items.remove(0);
            proof {
                assert(self.items@ =~= old(self)@.drop_first());
            }
            Some(msg)
        }
    }

    /// How many messages are pending.
    pub fn len(&self) -> (r: usize)
        ensures
            r == self@.len(),
    {
        self.items.len()
    }
}

impl Default for NotificationQueue {
    /// Builds the empty queue.
    fn default() -> (r: NotificationQueue)
        ensures
            r@ == Seq::<NotificationMessage>::empty(),
    {
        NotificationQueue::new()
    }
}

/// What the worker does with one popped message.
pub enum WorkerStep {
    /// The clock is inside the quiet window: re-enqueue the same message
    /// after this many seconds, without sending.
    Quieted { delay_seconds: u64 },
    /// Dispatch the message to every channel now.
    Dispatch,
}

/// Decides how the worker handles a popped message at local time `now`:
/// inside an enabled quiet window nothing is sent and the message is
/// re-enqueued when the window opens; otherwise it is dispatched at once.
pub fn worker_step(config: &Config, now: &LocalTime) -> (r: WorkerStep)
    requires
        now.well_formed(),
        config.quiet_hours_valid(),
    ensures
        config.enable_notification_quiet_hours && spec_in_quiet_hours(
            config.quiet_hours_start,
            config.quiet_hours_end,
            now.hour,
        ) ==> (r matches WorkerStep::Quieted { delay_seconds } && delay_seconds
            == spec_quiet_delay_seconds(
            config.quiet_hours_start,
            config.quiet_hours_end,
            now.hour,
            now.minute,
            now.second,
        )),
        !(config.enable_notification_quiet_hours && spec_in_quiet_hours(
            config.quiet_hours_start,
            config.quiet_hours_end,
            now.hour,
        )) ==> r is Dispatch,
{
    if config.enable_notification_quiet_hours && in_quiet_hours(
        config.quiet_hours_start,
        config.quiet_hours_end,
        now.hour,
    ) {
        let delay_seconds = quiet_delay_seconds(
            config.quiet_hours_start,
            config.quiet_hours_end,
            now.hour,
            now.minute,
            now.second,
        );
        WorkerStep::Quieted { delay_seconds }
    } else {
        WorkerStep::Dispatch
    }
}

/// The pause between two queue pops: the configured interval clamped to
/// at least one and at most sixty seconds.
pub open spec fn spec_effective_interval(notification_interval: u64) -> u64 {
    if notification_interval < 1 {
        1u64
    } else if notification_interval > 60 {
        60u64
    } else {
        notification_interval
    }
}

/// Clamps the configured inter-send interval into `[1, 60]` seconds.
pub fn effective_interval(notification_interval: u64) -> (r: u64)
    ensures
        r == spec_effective_interval(notification_interval),
        1 <= r <= 60,
{
    if notification_interval < 1 {
        1
    } else if notification_interval > 60 {
        60
    } else {
        notification_interval
    }
}

/// The text a Telegram channel sends: the body, and when both timestamps
/// are known, the creation and push times appended.
pub open spec fn spec_telegram_text(
    message: Seq<char>,
    created_at: Option<LocalTime>,
    sent_at: Option<LocalTime>,
) -> Seq<char> {
    if created_at is Some && sent_at is Some {
        message + "\n\n⌛️ 生成时间: "@ + spec_format_timestamp(created_at->0) + "\n⌛️ 推送时间: "@
            + spec_format_timestamp(sent_at->0)
    } else {
        message
    }
}

/// Builds the Telegram message text, appending the creation and push
/// times when both are known.
pub fn telegram_text(message: &str, created_at: Option<&LocalTime>, sent_at: Option<&LocalTime>) -> (r:
    String)
    requires
        created_at matches Some(t) ==> t.well_formed() && 0 <= t.year < 10000,
        sent_at matches Some(t) ==> t.well_formed() && 0 <= t.year < 10000,
    ensures
        r@ == spec_telegram_text(
            message@,
            match created_at {
                Some(t) => Some(*t),
                None => None,
            },
            match sent_at {
                Some(t) => Some(*t),
                None => None,
            },
        ),
{
    match (created_at, sent_at) {
        (Some(created), Some(sent)) => {
            let mut r = String::from_str(message);
            r.append("\n\n⌛️ 生成时间: ");
            r.append(format_timestamp(created).as_str());
            r.append("\n⌛️ 推送时间: ");
            r.append(format_timestamp(sent).as_str());
            r
        },
        _ => String::from_str(message),
    }
}

/// Summarizes one dispatch round over all channels: delivery fails as a
/// whole only when every channel failed; partial failure is tolerated so
/// one broken channel does not silence the others.
pub fn dispatch_outcome(success_count: usize, fail_count: usize) -> (r: Result<(), String>)
    ensures
        r is Ok <==> fail_count == 0 || success_count > 0,
        r matches Err(m) ==> m@ == "所有通知器发送失败"@,
{
    if fail_count > 0 && success_count == 0 {
        Err(String::from_str("所有通知器发送失败"))
    } else {
        Ok(())
    }
}

/// Enqueues `msg` for the configured channels: with channels configured
/// the message joins the queue carrying its creation time, and without
/// any the queue is left untouched.
pub fn notify(config: &Config, queue: &mut NotificationQueue, msg: String, now: LocalTime)
    ensures
        match config.notifiers {
            Some(ref ns) => if ns@.len() > 0 {
                final(queue)@.len() == old(queue)@.len() + 1 && final(queue)@ == old(queue)@.push(
                    final(queue)@.last(),
                ) && final(queue)@.last().notifiers@ == ns@ && final(queue)@.last().message == msg
                    && final(queue)@.last().created_at == now
            } else {
                final(queue)@ == old(queue)@
            },
            None => final(queue)@ == old(queue)@,
        },
{
    match &config.notifiers {
        Some(notifiers) => {
            if notifiers.len() > 0 {
                let cloned_notifiers = notifiers.clone();
                proof {
                    assert(cloned_notifiers@ =~= notifiers@);
                }
                queue.enqueue(
                    NotificationMessage {
                        notifiers: cloned_notifiers,
                        message: msg,
                        created_at: now,
                    },
                );
            }
        },
        None => {},
    }
}

/// Reports an error: the message is queued for the configured channels,
/// exactly as `notify` queues it (the log line itself stays outside the
/// core).
pub fn error_and_notify(config: &Config, queue: &mut NotificationQueue, msg: String, now: LocalTime)
    ensures
        match config.notifiers {
            Some(ref ns) => if ns@.len() > 0 {
                final(queue)@.len() == old(queue)@.len() + 1 && final(queue)@ == old(queue)@.push(
                    final(queue)@.last(),
                ) && final(queue)@.last().notifiers@ == ns@ && final(queue)@.last().message == msg
                    && final(queue)@.last().created_at == now
            } else {
                final(queue)@ == old(queue)@
            },
            None => final(queue)@ == old(queue)@,
        },
{
    notify(config, queue, msg, now);
}

} // verus!
