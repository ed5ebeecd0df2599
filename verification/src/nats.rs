//! Configuration and naming of the event store on NATS JetStream: the
//! stream, the subjects events go to, and the consumers that read them.
//! Talking to the server is the application's part.

use vstd::prelude::*;
use crate::ids::{fresh_uuid_v7, uuid_to_string, uuid_text};
use crate::events::{NetworkEvent, event_type_name, event_aggregate_uuid, event_subject};
use crate::text::{owned, push_str, push_char, chars_of};
use crate::params::string_of;

verus! {

/// Stream of network events.
pub const STREAM_NAME: &'static str = "network-events";

/// Subject prefix of network events.
pub const SUBJECT_PREFIX: &'static str = "network";

/// Configuration of the event store.
#[derive(Debug)]
pub struct NatsEventStoreConfig {
    /// NATS server URL
    pub nats_url: String,
    pub stream_name: String,
    /// Subject prefix; each stream uses its own
    pub subject_prefix: String,
    /// Maximum messages in the stream (0: no limit)
    pub max_messages: i64,
    /// Maximum age of messages in seconds (0: no limit)
    pub max_age_seconds: u64,
    /// Number of replicas
    pub replicas: usize,
}

impl Default for NatsEventStoreConfig {
    /// A local server, the `network-events` stream under `network`, no
    /// limits, one replica.
    fn default() -> (c: Self)
        ensures
            c.nats_url@ == "nats://localhost:4222"@,
            c.stream_name@ == STREAM_NAME@,
            c.subject_prefix@ == SUBJECT_PREFIX@,
            c.max_messages == 0,
            c.max_age_seconds == 0,
            c.replicas == 1,
    {
        NatsEventStoreConfig {
            nats_url: owned("nats://localhost:4222"),
            stream_name: owned(STREAM_NAME),
            subject_prefix: owned(SUBJECT_PREFIX),
            max_messages: 0,
            max_age_seconds: 0,
            replicas: 1,
        }
    }
}

impl NatsEventStoreConfig {
    /// A configuration of its own for a test: stream and prefix are both
    /// `test-` and the first 8 characters of a fresh UUID's text.
    pub fn for_testing(nats_url: &str) -> (c: Self)
        ensures
            c.nats_url@ == nats_url@,
            exists|v: u128| c.stream_name@ == "test-"@ + #[trigger] uuid_text(v).subrange(0, 8),
            c.subject_prefix@ == c.stream_name@,
            c.max_messages == 0,
            c.max_age_seconds == 0,
            c.replicas == 1,
    {
        let v = fresh_uuid_v7();
        let id = uuid_to_string(v);
        let cs = chars_of(id.as_str());
        let mut name = owned("test-");
        push_str(&mut name, string_of(&cs, 0, 8).as_str());
        let prefix = name.clone();
        NatsEventStoreConfig {
            nats_url: owned(nats_url),
            stream_name: name,
            subject_prefix: prefix,
            max_messages: 0,
            max_age_seconds: 0,
            replicas: 1,
        }
    }

    /// The subjects the stream holds: `<prefix>.*.*`.
    pub fn stream_subjects(&self) -> (s: String)
        ensures
            s@ == self.subject_prefix@ + ".*.*"@,
    {
        let mut s = self.subject_prefix.clone();
        push_str(&mut s, ".*.*");
        s
    }

    /// The subject a replay reads: every event under the prefix,
    /// `<prefix>.>`.
    pub fn replay_filter_subject(&self) -> (s: String)
        ensures
            s@ == self.subject_prefix@ + ".>"@,
    {
        let mut s = self.subject_prefix.clone();
        push_str(&mut s, ".>");
        s
    }

    /// The subject an event is published to: `<prefix>.<aggregate
    /// type>.<event type>`.
    pub fn event_subject(&self, event: &NetworkEvent) -> (s: String)
        ensures
            s@ == event_subject(*event, self.subject_prefix@),
    {
        event.nats_subject_with_prefix(self.subject_prefix.as_str())
    }
}

/// A subscription subject with `.` as `-`, `*` as `all` and `>` as `gt`.
pub open spec fn consumer_suffix(s: Seq<char>) -> Seq<char>
    decreases s.len(),
{
    if s.len() == 0 {
        Seq::empty()
    } else {
        consumer_suffix(s.drop_last()) + if s.last() == '.' {
            seq!['-']
        } else if s.last() == '*' {
            "all"@
        } else if s.last() == '>' {
            "gt"@
        } else {
            seq![s.last()]
        }
    }
}

/// The durable consumer of a subscription: `sub-` and the subject with
/// `.`, `*` and `>` spelled as `-`, `all` and `gt`.
pub fn subscription_consumer_name(subject: &str) -> (s: String)
    ensures
        s@ == "sub-"@ + consumer_suffix(subject@),
{
    let cs = chars_of(subject);
    let mut s = owned("sub-");
    let ghost start = s@;
    let mut k: usize = 0;
    while k < cs.len()
        invariant
            k <= cs@.len(),
            cs@ == subject@,
            s@ == start + consumer_suffix(cs@.take(k as int)),
        decreases cs@.len() - k,
    {
        let c = cs[k];
        assert(cs@.take(k + 1).drop_last() =~= cs@.take(k as int));
        if c == '.' {
            push_char(&mut s, '-');
        } else if c == '*' {
            push_str(&mut s, "all");
        } else if c == '>' {
            push_str(&mut s, "gt");
        } else {
            push_char(&mut s, c);
        }
        assert(s@ =~= start + consumer_suffix(cs@.take(k + 1)));
        k = k + 1;
    }
    assert(cs@.take(cs@.len() as int) =~= cs@);
    s
}

/// The name of a replay consumer of an aggregate: `replay-`, the
/// aggregate, `-` and a fresh UUID, so that each replay has its own.
pub fn replay_consumer_name(aggregate_id: &str) -> (s: String)
    ensures
        exists|v: u128| s@ == "replay-"@ + aggregate_id@ + "-"@ + #[trigger] uuid_text(v),
{
    let v = fresh_uuid_v7();
    let mut s = owned("replay-");
    push_str(&mut s, aggregate_id);
    push_str(&mut s, "-");
    push_str(&mut s, uuid_to_string(v).as_str());
    s
}

/// The message identifier for deduplication: aggregate, event type and
/// the publication time in nanoseconds, joined by `-`.
pub fn message_id(event: &NetworkEvent, timestamp_nanos: u64) -> (s: String)
    ensures
        s@ == uuid_text(event_aggregate_uuid(*event)) + "-"@ + event_type_name(*event) + "-"@ + crate::text::dec(timestamp_nanos as nat),
{
    let mut s = event.aggregate_id();
    push_str(&mut s, "-");
    push_str(&mut s, event.event_type());
    push_str(&mut s, "-");
    crate::text::push_dec(&mut s, timestamp_nanos);
    s
}

/// Whether a stored message belongs to an aggregate: its aggregate header
/// is there and names it.
pub fn belongs_to_aggregate(header: Option<&str>, aggregate_id: &str) -> (r: bool)
    ensures
        r == (header is Some && header.unwrap()@ == aggregate_id@),
{
    match header {
        Some(h) => crate::params::same_text(h, aggregate_id),
        None => false,
    }
}

} // verus!
