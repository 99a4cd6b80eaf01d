//! The timed-notification scheduler.
//!
//! A [`Notifier`] owns the in-memory mirror of the pending notifications;
//! the durable store is the source of truth across restarts, so the
//! embedding hydrates a notifier from it and persists every change.  A
//! notification moves from pending straight to delivered: the periodic
//! sweep asks [`Notifier::check_messages`] which rows are due, attempts
//! each delivery, and calls [`Notifier::mark_delivered`] only for the ones
//! that went out, so a failed delivery stays pending and is retried on the
//! next sweep.

use vstd::prelude::*;

use crate::timeparse::{parse_spec, parse_text};

verus! {

/// Why a notifier operation was refused.
#[derive(Debug)]
pub enum NotifierError {
    /// A storage or platform failure, described in plain text.
    InternalError(String),
    /// The time expression matched none of the accepted forms.
    InvalidTimeFormat,
}

impl NotifierError {
    /// A short human-readable description of the error.
    pub fn message(&self) -> (r: &'static str)
        ensures
            *self matches NotifierError::InternalError(_) ==> r@
                == "Whoops, an internal error occurred"@,
            *self is InvalidTimeFormat ==> r@ == "Invalid time format"@,
    {
        match self {
            NotifierError::InternalError(_) => "Whoops, an internal error occurred",
            NotifierError::InvalidTimeFormat => "Invalid time format",
        }
    }
}

/// One pending notification: who asked, where to answer, and when.
/// Immutable once created; removed when delivered.
#[derive(Debug)]
pub struct MessageNotify {
    pub guild_id: u64,
    pub channel_id: u64,
    pub user_id: u64,
    /// The id of the message that asked for the notification; also the key
    /// under which the durable store holds the row.
    pub message_id: u64,
    /// When the notification was created, in epoch seconds.
    pub created_at: i64,
    /// When the notification falls due, in epoch seconds.
    pub notify_at: i64,
    /// An optional free-text note to repeat back.
    pub note: Option<String>,
}

impl Clone for MessageNotify {
    fn clone(&self) -> (res: Self)
        ensures
            res == *self,
    {
        MessageNotify {
            guild_id: self.guild_id,
            channel_id: self.channel_id,
            user_id: self.user_id,
            message_id: self.message_id,
            created_at: self.created_at,
            notify_at: self.notify_at,
            note: match &self.note {
                Some(n) => Some(n.clone()),
                None => None,
            },
        }
    }
}

/// The pending notifications of `s` that have fallen due by `now`, in
/// their stored order.
pub open spec fn due(s: Seq<MessageNotify>, now: int) -> Seq<MessageNotify>
    decreases s.len(),
{
    if s.len() == 0 {
        Seq::empty()
    } else {
        due(s.drop_last(), now) + (if s.last().notify_at <= now {
            seq![s.last()]
        } else {
            Seq::empty()
        })
    }
}

/// The pending notifications of `s` that are not keyed by `message_id`, in
/// their stored order.
pub open spec fn without_message(s: Seq<MessageNotify>, message_id: u64) -> Seq<MessageNotify>
    decreases s.len(),
{
    if s.len() == 0 {
        Seq::empty()
    } else {
        without_message(s.drop_last(), message_id) + (if s.last().message_id == message_id {
            Seq::empty()
        } else {
            seq![s.last()]
        })
    }
}

/// The sweep never offers a notification before its due time: everything
/// in `due(s, now)` has `notify_at <= now`.
pub proof fn lemma_sweep_never_early(s: Seq<MessageNotify>, now: int)
    ensures
        forall|k: int| 0 <= k < due(s, now).len() ==> due(s, now)[k].notify_at <= now,
    decreases s.len(),
{
    if s.len() > 0 {
        lemma_sweep_never_early(s.drop_last(), now);
    }
}

/// Removal by key is complete: nothing keyed by `message_id` survives
/// [`without_message`].
pub proof fn lemma_removal_is_complete(s: Seq<MessageNotify>, message_id: u64)
    ensures
        forall|k: int|
            0 <= k < without_message(s, message_id).len() ==> without_message(s, message_id)[k].message_id
                != message_id,
    decreases s.len(),
{
    if s.len() > 0 {
        lemma_removal_is_complete(s.drop_last(), message_id);
    }
}

/// The sweep never delivers twice: once a delivered notification's key is
/// removed, no later sweep, at any time, offers a notification under that
/// key again.
pub proof fn lemma_sweep_never_twice(s: Seq<MessageNotify>, message_id: u64, later: int)
    ensures
        forall|k: int|
            0 <= k < due(without_message(s, message_id), later).len() ==> due(
                without_message(s, message_id),
                later,
            )[k].message_id != message_id,
{
    lemma_removal_is_complete(s, message_id);
    lemma_due_respects_key(without_message(s, message_id), message_id, later);
}

/// The sweep offers only pending notifications: a key absent from the
/// pending set is absent from what any sweep offers.
pub proof fn lemma_due_respects_key(s: Seq<MessageNotify>, message_id: u64, now: int)
    requires
        forall|j: int| 0 <= j < s.len() ==> s[j].message_id != message_id,
    ensures
        forall|k: int|
            0 <= k < due(s, now).len() ==> due(s, now)[k].message_id != message_id,
    decreases s.len(),
{
    if s.len() > 0 {
        lemma_due_respects_key(s.drop_last(), message_id, now);
    }
}

/// The in-memory mirror of the pending notifications.
pub struct Notifier {
    messages: Vec<MessageNotify>,
}

impl View for Notifier {
    type V = Seq<MessageNotify>;

    closed spec fn view(&self) -> Seq<MessageNotify> {
        self.messages@
    }
}

impl Notifier {
    /// A notifier hydrated from the durable store's pending rows.
    pub fn new(messages: Vec<MessageNotify>) -> (n: Notifier)
        ensures
            n@ == messages@,
    {
        Notifier { messages }
    }

    /// The pending notifications, in insertion order.
    pub fn messages(&self) -> (r: &Vec<MessageNotify>)
        ensures
            r@ == self@,
    {
        &self.messages
    }

    /// Schedule a notification: parse the time expression relative to
    /// `now`, and on success append the new record, which the caller must
    /// also persist.  A time expression that parses to nothing is refused
    /// and the state stays as it was.
    pub fn add_message(
        &mut self,
        guild_id: u64,
        channel_id: u64,
        user_id: u64,
        message_id: u64,
        now: i64,
        time_text: &str,
        note: Option<String>,
    ) -> (r: Result<MessageNotify, NotifierError>)
        ensures
            parse_spec(time_text@, now as int) matches Some(t) ==> r matches Ok(n) && n
                == (MessageNotify {
                guild_id,
                channel_id,
                user_id,
                message_id,
                created_at: now,
                notify_at: n.notify_at,
                note,
            }) && n.notify_at == t && final(self)@ == old(self)@.push(n),
            parse_spec(time_text@, now as int) is None ==> (r matches Err(e) && e
                is InvalidTimeFormat && final(self)@ == old(self)@),
    {
        let notify_at = match parse_text(time_text, now) {
            Ok(t) => t,
            Err(e) => {
                return Err(e);
            },
        };
        let record = MessageNotify {
            guild_id,
            channel_id,
            user_id,
            message_id,
            created_at: now,
            notify_at,
            note,
        };
        self.messages.push(record.clone());
        Ok(record)
    }

    /// One sweep's worth of work: every pending notification that has
    /// fallen due by `now`, in stored order.  Read-only; the caller
    /// attempts delivery and reports each success to
    /// [`Notifier::mark_delivered`].
    pub fn check_messages(&self, now: i64) -> (r: Vec<MessageNotify>)
        ensures
            r@ == due(self@, now as int),
    {
        let mut ripe: Vec<MessageNotify> = Vec::new();
        let mut k: usize = 0;
        while k < self.messages.len()
            invariant
                k <= self.messages.len(),
                ripe@ == due(self.messages@.subrange(0, k as int), now as int),
            decreases self.messages.len() - k,
        {
            proof {
                assert(self.messages@.subrange(0, k + 1).drop_last() =~= self.messages@.subrange(
                    0,
                    k as int,
                ));
            }
            if self.messages[k].notify_at <= now {
                ripe.push(self.messages[k].clone());
            }
            k = k + 1;
        }
        proof {
            assert(self.messages@.subrange(0, self.messages@.len() as int) =~= self.messages@);
        }
        ripe
    }

    /// A notification was delivered: drop every pending record under its
    /// key; the caller must also delete the durable row.
    pub fn mark_delivered(&mut self, message_id: u64)
        ensures
            final(self)@ == without_message(old(self)@, message_id),
    {
        let mut kept: Vec<MessageNotify> = Vec::new();
        let mut k: usize = 0;
        while k < self.messages.len()
            invariant
                k <= self.messages.len(),
                self.messages@ == old(self)@,
                kept@ == without_message(self.messages@.subrange(0, k as int), message_id),
            decreases self.messages.len() - k,
        {
            proof {
                assert(self.messages@.subrange(0, k + 1).drop_last() =~= self.messages@.subrange(
                    0,
                    k as int,
                ));
            }
            if self.messages[k].message_id != message_id {
                kept.push(self.messages[k].clone());
            }
            k = k + 1;
        }
        proof {
            assert(self.messages@.subrange(0, self.messages@.len() as int) =~= self.messages@);
        }
        self.messages = kept;
    }
}

} // verus!
