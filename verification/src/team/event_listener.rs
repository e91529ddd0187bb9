//! Delegation events as they arrive on the team's streams: the stream and group
//! names a listener reads, and how one stream message becomes an event. A message
//! arrives as its `type` text and the entries of its `data` object.

use vstd::prelude::*;
use crate::ids::{parse_uuid, parsed_uuid, uuid_string, uuid_text};
use crate::team::modes::{DelegationEvent, PartialQuality};
use crate::text::{join2, join3};

verus! {

/// A value in a stream message's data: a string, a number (as the bits of its
/// `f32` value), a boolean, an array (its string items, each item that is not a
/// string as `None`), or anything else.
pub enum EventValue {
    Text(String),
    Number(u32),
    Bool(bool),
    Array(Vec<Option<String>>),
    Other,
}

/// One entry of a message's data object.
pub struct EventEntry {
    pub key: String,
    pub value: EventValue,
}

/// A stream message: its `type` field if that is a string, and its `data` object's
/// entries if it has one.
pub struct StreamEventMessage {
    pub type_field: Option<String>,
    pub data: Option<Vec<EventEntry>>,
}

/// An entry's value as plain values.
pub enum EventValueView {
    Text(Seq<char>),
    Number(u32),
    Bool(bool),
    Array(Seq<Option<Seq<char>>>),
    Other,
}

pub open spec fn value_view(v: EventValue) -> EventValueView {
    match v {
        EventValue::Text(t) => EventValueView::Text(t@),
        EventValue::Number(b) => EventValueView::Number(b),
        EventValue::Bool(b) => EventValueView::Bool(b),
        EventValue::Array(items) => EventValueView::Array(items@.map_values(|o: Option<String>| match o {
            Some(s) => Some(s@),
            None => None,
        })),
        EventValue::Other => EventValueView::Other,
    }
}

pub open spec fn entries_view(es: Seq<EventEntry>) -> Seq<(Seq<char>, EventValueView)> {
    es.map_values(|e: EventEntry| (e.key@, value_view(e.value)))
}

/// The value of the first entry with key `k`.
pub open spec fn lookup(es: Seq<(Seq<char>, EventValueView)>, k: Seq<char>) -> Option<EventValueView>
    decreases es.len(),
{
    if es.len() == 0 {
        None
    } else if es[0].0 == k {
        Some(es[0].1)
    } else {
        lookup(es.drop_first(), k)
    }
}

pub open spec fn text_of(es: Seq<(Seq<char>, EventValueView)>, k: Seq<char>) -> Option<Seq<char>> {
    match lookup(es, k) {
        Some(EventValueView::Text(t)) => Some(t),
        _ => None,
    }
}

pub open spec fn id_of(es: Seq<(Seq<char>, EventValueView)>, k: Seq<char>) -> Option<u128> {
    match text_of(es, k) {
        Some(t) => parsed_uuid(t),
        None => None,
    }
}

pub open spec fn number_of(es: Seq<(Seq<char>, EventValueView)>, k: Seq<char>) -> Option<u32> {
    match lookup(es, k) {
        Some(EventValueView::Number(b)) => Some(b),
        _ => None,
    }
}

pub open spec fn bool_of(es: Seq<(Seq<char>, EventValueView)>, k: Seq<char>) -> Option<bool> {
    match lookup(es, k) {
        Some(EventValueView::Bool(b)) => Some(b),
        _ => None,
    }
}

/// The string items of an array, in order.
pub open spec fn strings_of(items: Seq<Option<Seq<char>>>) -> Seq<Seq<char>>
    decreases items.len(),
{
    if items.len() == 0 {
        seq![]
    } else {
        strings_of(items.drop_last()) + match items.last() {
            Some(s) => seq![s],
            None => seq![],
        }
    }
}

pub open spec fn list_of(es: Seq<(Seq<char>, EventValueView)>, k: Seq<char>) -> Option<Seq<Seq<char>>> {
    match lookup(es, k) {
        Some(EventValueView::Array(items)) => Some(strings_of(items)),
        _ => None,
    }
}

/// A delegation event read from a stream, with the ids it names.
pub enum ParsedEvent {
    Created { delegation_id: u128, task_id: u128, member_id: u128 },
    Accepted { delegation_id: u128, member_id: u128 },
    Completed { delegation_id: u128, member_id: u128, artifact_id: u128 },
    Failed { delegation_id: u128, member_id: u128, error: String },
    TimeoutPartial { delegation_id: u128, member_id: u128, partial_quality: PartialQuality },
}

/// A parsed event as plain values; a partial quality as its two score bit
/// patterns, whether it is usable, what needs repair and the remaining work.
pub enum ParsedEventView {
    Created { delegation_id: u128, task_id: u128, member_id: u128 },
    Accepted { delegation_id: u128, member_id: u128 },
    Completed { delegation_id: u128, member_id: u128, artifact_id: u128 },
    Failed { delegation_id: u128, member_id: u128, error: Seq<char> },
    TimeoutPartial {
        delegation_id: u128,
        member_id: u128,
        quality: (u32, u32, bool, Seq<Seq<char>>, Option<Seq<char>>),
    },
}

pub open spec fn quality_view(q: PartialQuality) -> (u32, u32, bool, Seq<Seq<char>>, Option<Seq<char>>) {
    (
        q.completeness_bits,
        q.correctness_confidence_bits,
        q.usable_as_is,
        q.requires_repair@.map_values(|s: String| s@),
        match q.estimated_remaining_work { Some(s) => Some(s@), None => None },
    )
}

pub open spec fn parsed_view(e: ParsedEvent) -> ParsedEventView {
    match e {
        ParsedEvent::Created { delegation_id, task_id, member_id } => ParsedEventView::Created { delegation_id, task_id, member_id },
        ParsedEvent::Accepted { delegation_id, member_id } => ParsedEventView::Accepted { delegation_id, member_id },
        ParsedEvent::Completed { delegation_id, member_id, artifact_id } => ParsedEventView::Completed { delegation_id, member_id, artifact_id },
        ParsedEvent::Failed { delegation_id, member_id, error } => ParsedEventView::Failed { delegation_id, member_id, error: error@ },
        ParsedEvent::TimeoutPartial { delegation_id, member_id, partial_quality } => ParsedEventView::TimeoutPartial {
            delegation_id,
            member_id,
            quality: quality_view(partial_quality),
        },
    }
}

/// The event a message holds, if it holds one: its type names it, and every field
/// that the type needs is present and of the right kind (ids parse as UUIDs; the
/// remaining-work entry must be present, its value may be any kind).
pub open spec fn spec_parse(type_field: Option<Seq<char>>, data: Option<Seq<(Seq<char>, EventValueView)>>, d: u128) -> Option<ParsedEventView> {
    match (type_field, data) {
        (Some(t), Some(es)) => if t == "created"@ {
            match (id_of(es, "task_id"@), id_of(es, "member_id"@)) {
                (Some(task_id), Some(member_id)) => Some(ParsedEventView::Created { delegation_id: d, task_id, member_id }),
                _ => None,
            }
        } else if t == "accepted"@ {
            match id_of(es, "member_id"@) {
                Some(member_id) => Some(ParsedEventView::Accepted { delegation_id: d, member_id }),
                None => None,
            }
        } else if t == "completed"@ {
            match (id_of(es, "member_id"@), id_of(es, "artifact_id"@)) {
                (Some(member_id), Some(artifact_id)) => Some(ParsedEventView::Completed { delegation_id: d, member_id, artifact_id }),
                _ => None,
            }
        } else if t == "failed"@ {
            match (id_of(es, "member_id"@), text_of(es, "error"@)) {
                (Some(member_id), Some(error)) => Some(ParsedEventView::Failed { delegation_id: d, member_id, error }),
                _ => None,
            }
        } else if t == "timeout_partial"@ {
            match (
                number_of(es, "completeness"@),
                number_of(es, "correctness_confidence"@),
                bool_of(es, "usable_as_is"@),
                list_of(es, "requires_repair"@),
                lookup(es, "estimated_remaining_work"@),
                id_of(es, "member_id"@),
            ) {
                (Some(c), Some(cc), Some(u), Some(rr), Some(erw), Some(member_id)) => Some(ParsedEventView::TimeoutPartial {
                    delegation_id: d,
                    member_id,
                    quality: (c, cc, u, rr, match erw { EventValueView::Text(w) => Some(w), _ => None }),
                }),
                _ => None,
            }
        } else {
            None
        },
        _ => None,
    }
}

fn find_entry<'a>(es: &'a [EventEntry], key: &str) -> (r: Option<&'a EventValue>)
    ensures
        r is None <==> lookup(entries_view(es@), key@) is None,
        r matches Some(v) ==> lookup(entries_view(es@), key@) == Some(value_view(*v)),
{
    let ghost ev = entries_view(es@);
    assert(ev.subrange(0, ev.len() as int) =~= ev);
    let mut i: usize = 0;
    while i < es.len()
        invariant
            i <= es@.len(),
            ev == entries_view(es@),
            lookup(ev, key@) == lookup(ev.subrange(i as int, ev.len() as int), key@),
        decreases es@.len() - i,
    {
        let ghost rest = ev.subrange(i as int, ev.len() as int);
        assert(rest.drop_first() =~= ev.subrange(i + 1, ev.len() as int));
        if crate::text::text_is(es[i].key.as_str(), key) {
            return Some(&es[i].value);
        }
        i = i + 1;
    }
    assert(ev.subrange(i as int, ev.len() as int) =~= Seq::<(Seq<char>, EventValueView)>::empty());
    None
}

fn id_entry(es: &[EventEntry], key: &str) -> (r: Option<u128>)
    ensures
        r == id_of(entries_view(es@), key@),
{
    match find_entry(es, key) {
        Some(EventValue::Text(t)) => parse_uuid(t.as_str()),
        _ => None,
    }
}

fn text_entry(es: &[EventEntry], key: &str) -> (r: Option<String>)
    ensures
        (match r { Some(s) => Some(s@), None => None }) == text_of(entries_view(es@), key@),
{
    match find_entry(es, key) {
        Some(EventValue::Text(t)) => Some(t.clone()),
        _ => None,
    }
}

fn strings_in(items: &Vec<Option<String>>) -> (r: Vec<String>)
    ensures
        r@.map_values(|s: String| s@) == strings_of(items@.map_values(|o: Option<String>| match o {
            Some(s) => Some(s@),
            None => None,
        })),
{
    let ghost iv = items@.map_values(|o: Option<String>| match o {
        Some(s) => Some(s@),
        None => None,
    });
    let mut r: Vec<String> = Vec::new();
    let mut i: usize = 0;
    while i < items.len()
        invariant
            i <= items@.len(),
            iv == items@.map_values(|o: Option<String>| match o {
                Some(s) => Some(s@),
                None => None,
            }),
            r@.map_values(|s: String| s@) == strings_of(iv.take(i as int)),
        decreases items@.len() - i,
    {
        assert(iv.take(i + 1).drop_last() =~= iv.take(i as int));
        match &items[i] {
            Some(s) => { r.push(s.clone()); },
            None => {},
        }
        assert(r@.map_values(|s: String| s@) =~= strings_of(iv.take(i + 1)));
        i = i + 1;
    }
    assert(iv.take(items@.len() as int) =~= iv);
    r
}

/// Reads the delegation event in a stream message about delegation `delegation_id`.
pub fn parse_delegation_event(msg: &StreamEventMessage, delegation_id: u128) -> (r: Option<ParsedEvent>)
    ensures
        (match r { Some(e) => Some(parsed_view(e)), None => None }) == spec_parse(
            match msg.type_field { Some(t) => Some(t@), None => None },
            match msg.data { Some(es) => Some(entries_view(es@)), None => None },
            delegation_id,
        ),
{
    let t = match &msg.type_field {
        Some(t) => t,
        None => { return None; },
    };
    let es = match &msg.data {
        Some(es) => es.as_slice(),
        None => { return None; },
    };
    if crate::text::text_is(t.as_str(), "created") {
        let task_id = match id_entry(es, "task_id") { Some(x) => x, None => { return None; } };
        let member_id = match id_entry(es, "member_id") { Some(x) => x, None => { return None; } };
        Some(ParsedEvent::Created { delegation_id, task_id, member_id })
    } else if crate::text::text_is(t.as_str(), "accepted") {
        let member_id = match id_entry(es, "member_id") { Some(x) => x, None => { return None; } };
        Some(ParsedEvent::Accepted { delegation_id, member_id })
    } else if crate::text::text_is(t.as_str(), "completed") {
        let member_id = match id_entry(es, "member_id") { Some(x) => x, None => { return None; } };
        let artifact_id = match id_entry(es, "artifact_id") { Some(x) => x, None => { return None; } };
        Some(ParsedEvent::Completed { delegation_id, member_id, artifact_id })
    } else if crate::text::text_is(t.as_str(), "failed") {
        let member_id = match id_entry(es, "member_id") { Some(x) => x, None => { return None; } };
        let error = match text_entry(es, "error") { Some(x) => x, None => { return None; } };
        Some(ParsedEvent::Failed { delegation_id, member_id, error })
    } else if crate::text::text_is(t.as_str(), "timeout_partial") {
        let completeness_bits = match find_entry(es, "completeness") {
            Some(EventValue::Number(b)) => *b,
            _ => { return None; },
        };
        let correctness_confidence_bits = match find_entry(es, "correctness_confidence") {
            Some(EventValue::Number(b)) => *b,
            _ => { return None; },
        };
        let usable_as_is = match find_entry(es, "usable_as_is") {
            Some(EventValue::Bool(b)) => *b,
            _ => { return None; },
        };
        let requires_repair = match find_entry(es, "requires_repair") {
            Some(EventValue::Array(items)) => strings_in(items),
            _ => { return None; },
        };
        let estimated_remaining_work = match find_entry(es, "estimated_remaining_work") {
            Some(EventValue::Text(w)) => Some(w.clone()),
            Some(_) => None,
            None => { return None; },
        };
        let member_id = match id_entry(es, "member_id") { Some(x) => x, None => { return None; } };
        Some(ParsedEvent::TimeoutPartial {
            delegation_id,
            member_id,
            partial_quality: PartialQuality {
                completeness_bits,
                correctness_confidence_bits,
                usable_as_is,
                requires_repair,
                estimated_remaining_work,
            },
        })
    } else {
        None
    }
}

/// What waiting for a delegation needs of a parsed event.
pub fn into_wait_event(e: ParsedEvent) -> (w: DelegationEvent)
    ensures
        match e {
            ParsedEvent::Created { .. } => w matches DelegationEvent::Created,
            ParsedEvent::Accepted { .. } => w matches DelegationEvent::Accepted,
            ParsedEvent::Completed { .. } => w matches DelegationEvent::Completed,
            ParsedEvent::Failed { error, .. } => w matches DelegationEvent::Failed { error: e2 } && e2 == error,
            ParsedEvent::TimeoutPartial { partial_quality, .. } => w matches DelegationEvent::TimeoutPartial { partial_quality: q }
                && q == partial_quality,
        },
{
    match e {
        ParsedEvent::Created { .. } => DelegationEvent::Created,
        ParsedEvent::Accepted { .. } => DelegationEvent::Accepted,
        ParsedEvent::Completed { .. } => DelegationEvent::Completed,
        ParsedEvent::Failed { error, .. } => DelegationEvent::Failed { error },
        ParsedEvent::TimeoutPartial { partial_quality, .. } => DelegationEvent::TimeoutPartial { partial_quality },
    }
}

/// The stream that a delegation's status changes arrive on, and its consumer group.
pub fn delegation_subscription(delegation_id: u128) -> (r: (String, String))
    ensures
        r.0@ == "delegation:"@ + uuid_string(delegation_id) + ":status"@,
        r.1@ == "delegation-group"@,
{
    let id = uuid_text(delegation_id);
    (join3("delegation:", id.as_str(), ":status"), String::from_str("delegation-group"))
}

/// The stream that a team's shared task events arrive on, and its consumer group.
pub fn team_subscription(team_id: u128) -> (r: (String, String))
    ensures
        r.0@ == "team:"@ + uuid_string(team_id) + ":tasks:shared"@,
        r.1@ == "team-"@ + uuid_string(team_id),
{
    let id = uuid_text(team_id);
    (join3("team:", id.as_str(), ":tasks:shared"), join2("team-", id.as_str()))
}

/// The stream that a member's tasks arrive on, and its consumer group.
pub fn member_subscription(member_id: u128) -> (r: (String, String))
    ensures
        r.0@ == "member:"@ + uuid_string(member_id) + ":tasks"@,
        r.1@ == "member-"@ + uuid_string(member_id),
{
    let id = uuid_text(member_id);
    (join3("member:", id.as_str(), ":tasks"), join2("member-", id.as_str()))
}

/// Listens for delegation events on Redis streams through a stream bus, as the
/// consumer `consumer-<uuid>`.
pub struct RedisStreamEventListener<B> {
    stream_bus: B,
    consumer_id: String,
}

impl<B> RedisStreamEventListener<B> {
    pub closed spec fn bus(&self) -> B {
        self.stream_bus
    }

    pub closed spec fn consumer(&self) -> Seq<char> {
        self.consumer_id@
    }

    /// A listener over a connected stream bus, named after the consumer's UUID.
    pub fn new(stream_bus: B, consumer: u128) -> (l: Self)
        ensures
            l.bus() == stream_bus,
            l.consumer() == "consumer-"@ + uuid_string(consumer),
    {
        let id = uuid_text(consumer);
        RedisStreamEventListener { stream_bus, consumer_id: join2("consumer-", id.as_str()) }
    }

    pub fn consumer_id(&self) -> (s: &String)
        ensures
            s@ == self.consumer(),
    {
        &self.consumer_id
    }

    pub fn stream_bus(&self) -> (b: &B)
        ensures
            *b == self.bus(),
    {
        &self.stream_bus
    }
}

} // verus!
