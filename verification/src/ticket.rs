//! Tickets: the single data model of the stack.
use vstd::prelude::*;
use crate::json::{
    JsonValue, JsonV, JsonMap, json_clone, json_eq, json_norm, entries_view, entries_insert, obj_get, obj_insert,
    json_wf, keys_sorted, lemma_entries_view, lemma_obj_insert_sorted, lemma_obj_insert_get, jv_get,
    jv_as_str, jv_get_str,
};
use crate::text::{str_eq, owned};
use crate::clock::{UtcTimestamp, utc_now, new_uuid};

verus! {

/// The kind of a ticket.
#[derive(Clone, Copy, Debug, PartialEq, Eq, Structural)]
pub enum TicketType {
    Task,
    Habit,
    Event,
    Commute,
    Countdown,
}

/// The lifecycle state of a ticket.
#[derive(Clone, Copy, Debug, PartialEq, Eq, Structural)]
pub enum TicketStatus {
    Idle,
    InFocus,
    Completed,
    Expired,
}

/// When to leave for a commute.
#[derive(Clone, Copy, Debug, PartialEq, Eq, Structural)]
pub enum CommuteDepartureTime {
    /// Leave early enough to arrive `buffer_minutes` before the deadline.
    RelativeToArrival { buffer_minutes: i64 },
}

/// A place a ticket refers to.
#[derive(Debug)]
pub enum TicketLocation {
    /// A reference to one of the user's saved locations.
    SavedLocation { location_id: String, label: Option<String> },
    /// A point, each coordinate by its decimal rendering.
    Coordinates { latitude: String, longitude: String, label: Option<String> },
    AddressText { address: String, label: Option<String> },
    PlaceId { place_id: String, label: Option<String> },
    CurrentPosition { label: Option<String> },
}

/// The content of a `TicketLocation`.
pub enum LocationV {
    SavedLocation { location_id: Seq<char>, label: Option<Seq<char>> },
    Coordinates { latitude: Seq<char>, longitude: Seq<char>, label: Option<Seq<char>> },
    AddressText { address: Seq<char>, label: Option<Seq<char>> },
    PlaceId { place_id: Seq<char>, label: Option<Seq<char>> },
    CurrentPosition { label: Option<Seq<char>> },
}

/// The content of an optional text.
pub open spec fn opt_text(o: Option<String>) -> Option<Seq<char>> {
    match o {
        Some(s) => Some(s@),
        None => None,
    }
}

/// The content of an optional JSON value.
pub open spec fn opt_json(o: Option<JsonValue>) -> Option<JsonV> {
    match o {
        Some(v) => Some(v@),
        None => None,
    }
}

/// The content of an optional location.
pub open spec fn opt_location(o: Option<TicketLocation>) -> Option<LocationV> {
    match o {
        Some(l) => Some(l@),
        None => None,
    }
}

impl View for TicketLocation {
    type V = LocationV;

    open spec fn view(&self) -> LocationV {
        match *self {
            TicketLocation::SavedLocation { location_id, label } => LocationV::SavedLocation {
                location_id: location_id@,
                label: opt_text(label),
            },
            TicketLocation::Coordinates { latitude, longitude, label } => LocationV::Coordinates {
                latitude: latitude@,
                longitude: longitude@,
                label: opt_text(label),
            },
            TicketLocation::AddressText { address, label } => LocationV::AddressText {
                address: address@,
                label: opt_text(label),
            },
            TicketLocation::PlaceId { place_id, label } => LocationV::PlaceId {
                place_id: place_id@,
                label: opt_text(label),
            },
            TicketLocation::CurrentPosition { label } => LocationV::CurrentPosition {
                label: opt_text(label),
            },
        }
    }
}

/// A copy of an optional text.
pub fn clone_opt_text(o: &Option<String>) -> (r: Option<String>)
    ensures
        opt_text(r) == opt_text(*o),
{
    match o {
        Some(s) => Some(s.clone()),
        None => None,
    }
}

/// Equality of optional texts by content.
pub fn opt_text_eq(a: &Option<String>, b: &Option<String>) -> (r: bool)
    ensures
        r == (opt_text(*a) == opt_text(*b)),
{
    match (a, b) {
        (Some(x), Some(y)) => str_eq(x.as_str(), y.as_str()),
        (None, None) => true,
        _ => false,
    }
}

/// A copy of an optional JSON value.
pub fn clone_opt_json(o: &Option<JsonValue>) -> (r: Option<JsonValue>)
    ensures
        opt_json(r) == opt_json(*o),
{
    match o {
        Some(v) => Some(json_clone(v)),
        None => None,
    }
}

/// An optional JSON value as serde_json's `==` sees it (see `json_norm`).
pub open spec fn opt_json_norm(o: Option<JsonV>) -> Option<JsonV> {
    match o {
        Some(v) => Some(json_norm(v)),
        None => None,
    }
}

/// A payload as its `==` sees it: the JSON it holds compared as serde_json
/// compares values (see `json_norm`), everything else as it is.
pub open spec fn payload_norm(p: PayloadV) -> PayloadV {
    match p {
        PayloadV::Commute {
            title,
            label,
            origin,
            origin_location,
            destination,
            destination_location,
            departure_time,
            scheduled_time_iso,
            rrule,
            deadline,
            days,
            related_event_id,
            live,
            minutes_remaining,
            directions,
            completed,
        } => PayloadV::Commute {
            title,
            label,
            origin,
            origin_location,
            destination,
            destination_location,
            departure_time,
            scheduled_time_iso,
            rrule,
            deadline,
            days,
            related_event_id,
            live,
            minutes_remaining,
            directions: opt_json_norm(directions),
            completed,
        },
        PayloadV::Generic(j) => PayloadV::Generic(json_norm(j)),
        _ => p,
    }
}

/// Equality of optional JSON values as serde_json's `==` decides it.
pub fn opt_json_eq(a: &Option<JsonValue>, b: &Option<JsonValue>) -> (r: bool)
    ensures
        r == (opt_json_norm(opt_json(*a)) == opt_json_norm(opt_json(*b))),
{
    match (a, b) {
        (Some(x), Some(y)) => json_eq(x, y),
        (None, None) => true,
        _ => false,
    }
}

impl TicketLocation {
    /// A copy with the same content.
    pub fn copy(&self) -> (r: TicketLocation)
        ensures
            r@ == self@,
    {
        match self {
            TicketLocation::SavedLocation { location_id, label } => TicketLocation::SavedLocation {
                location_id: location_id.clone(),
                label: clone_opt_text(label),
            },
            TicketLocation::Coordinates { latitude, longitude, label } => TicketLocation::Coordinates {
                latitude: latitude.clone(),
                longitude: longitude.clone(),
                label: clone_opt_text(label),
            },
            TicketLocation::AddressText { address, label } => TicketLocation::AddressText {
                address: address.clone(),
                label: clone_opt_text(label),
            },
            TicketLocation::PlaceId { place_id, label } => TicketLocation::PlaceId {
                place_id: place_id.clone(),
                label: clone_opt_text(label),
            },
            TicketLocation::CurrentPosition { label } => TicketLocation::CurrentPosition {
                label: clone_opt_text(label),
            },
        }
    }

    /// Equality by content.
    pub fn same_as(&self, other: &TicketLocation) -> (r: bool)
        ensures
            r == (self@ == other@),
    {
        match (self, other) {
            (
                TicketLocation::SavedLocation { location_id: a, label: la },
                TicketLocation::SavedLocation { location_id: b, label: lb },
            ) => str_eq(a.as_str(), b.as_str()) && opt_text_eq(la, lb),
            (
                TicketLocation::Coordinates { latitude: a, longitude: a2, label: la },
                TicketLocation::Coordinates { latitude: b, longitude: b2, label: lb },
            ) => str_eq(a.as_str(), b.as_str()) && str_eq(a2.as_str(), b2.as_str()) && opt_text_eq(
                la,
                lb,
            ),
            (
                TicketLocation::AddressText { address: a, label: la },
                TicketLocation::AddressText { address: b, label: lb },
            ) => str_eq(a.as_str(), b.as_str()) && opt_text_eq(la, lb),
            (
                TicketLocation::PlaceId { place_id: a, label: la },
                TicketLocation::PlaceId { place_id: b, label: lb },
            ) => str_eq(a.as_str(), b.as_str()) && opt_text_eq(la, lb),
            (
                TicketLocation::CurrentPosition { label: la },
                TicketLocation::CurrentPosition { label: lb },
            ) => opt_text_eq(la, lb),
            _ => false,
        }
    }
}

/// A copy of an optional location.
pub fn clone_opt_location(o: &Option<TicketLocation>) -> (r: Option<TicketLocation>)
    ensures
        opt_location(r) == opt_location(*o),
{
    match o {
        Some(l) => Some(l.copy()),
        None => None,
    }
}

/// Equality of optional locations by content.
pub fn opt_location_eq(a: &Option<TicketLocation>, b: &Option<TicketLocation>) -> (r: bool)
    ensures
        r == (opt_location(*a) == opt_location(*b)),
{
    match (a, b) {
        (Some(x), Some(y)) => x.same_as(y),
        (None, None) => true,
        _ => false,
    }
}

/// The type-specific content of a ticket.
#[derive(Debug)]
pub enum TicketPayload {
    Commute {
        title: String,
        label: Option<String>,
        origin: String,
        origin_location: Option<TicketLocation>,
        destination: String,
        destination_location: Option<TicketLocation>,
        departure_time: Option<CommuteDepartureTime>,
        scheduled_time_iso: Option<String>,
        rrule: Option<String>,
        deadline: Option<String>,
        days: Option<String>,
        related_event_id: Option<String>,
        live: Option<bool>,
        minutes_remaining: Option<i64>,
        directions: Option<JsonValue>,
        completed: Option<bool>,
    },
    Countdown { title: String, duration_minutes: i64, expires_at: Option<String> },
    Event {
        title: String,
        scheduled_time_iso: Option<String>,
        rrule: Option<String>,
        duration_minutes: Option<i64>,
        location: Option<TicketLocation>,
        completed: Option<bool>,
    },
    Habit {
        title: String,
        scheduled_time_iso: Option<String>,
        rrule: Option<String>,
        completed: Option<bool>,
    },
    Task {
        title: String,
        scheduled_time_iso: Option<String>,
        rrule: Option<String>,
        duration_minutes: Option<i64>,
        completed: Option<bool>,
    },
    /// Any other payload, kept as it came.
    Generic(JsonValue),
}

/// The content of a `TicketPayload`.
pub enum PayloadV {
    Commute {
        title: Seq<char>,
        label: Option<Seq<char>>,
        origin: Seq<char>,
        origin_location: Option<LocationV>,
        destination: Seq<char>,
        destination_location: Option<LocationV>,
        departure_time: Option<CommuteDepartureTime>,
        scheduled_time_iso: Option<Seq<char>>,
        rrule: Option<Seq<char>>,
        deadline: Option<Seq<char>>,
        days: Option<Seq<char>>,
        related_event_id: Option<Seq<char>>,
        live: Option<bool>,
        minutes_remaining: Option<i64>,
        directions: Option<JsonV>,
        completed: Option<bool>,
    },
    Countdown { title: Seq<char>, duration_minutes: i64, expires_at: Option<Seq<char>> },
    Event {
        title: Seq<char>,
        scheduled_time_iso: Option<Seq<char>>,
        rrule: Option<Seq<char>>,
        duration_minutes: Option<i64>,
        location: Option<LocationV>,
        completed: Option<bool>,
    },
    Habit {
        title: Seq<char>,
        scheduled_time_iso: Option<Seq<char>>,
        rrule: Option<Seq<char>>,
        completed: Option<bool>,
    },
    Task {
        title: Seq<char>,
        scheduled_time_iso: Option<Seq<char>>,
        rrule: Option<Seq<char>>,
        duration_minutes: Option<i64>,
        completed: Option<bool>,
    },
    Generic(JsonV),
}

impl View for TicketPayload {
    type V = PayloadV;

    open spec fn view(&self) -> PayloadV {
        match *self {
            TicketPayload::Commute {
                title,
                label,
                origin,
                origin_location,
                destination,
                destination_location,
                departure_time,
                scheduled_time_iso,
                rrule,
                deadline,
                days,
                related_event_id,
                live,
                minutes_remaining,
                directions,
                completed,
            } => PayloadV::Commute {
                title: title@,
                label: opt_text(label),
                origin: origin@,
                origin_location: opt_location(origin_location),
                destination: destination@,
                destination_location: opt_location(destination_location),
                departure_time,
                scheduled_time_iso: opt_text(scheduled_time_iso),
                rrule: opt_text(rrule),
                deadline: opt_text(deadline),
                days: opt_text(days),
                related_event_id: opt_text(related_event_id),
                live,
                minutes_remaining,
                directions: opt_json(directions),
                completed,
            },
            TicketPayload::Countdown { title, duration_minutes, expires_at } => PayloadV::Countdown {
                title: title@,
                duration_minutes,
                expires_at: opt_text(expires_at),
            },
            TicketPayload::Event {
                title,
                scheduled_time_iso,
                rrule,
                duration_minutes,
                location,
                completed,
            } => PayloadV::Event {
                title: title@,
                scheduled_time_iso: opt_text(scheduled_time_iso),
                rrule: opt_text(rrule),
                duration_minutes,
                location: opt_location(location),
                completed,
            },
            TicketPayload::Habit { title, scheduled_time_iso, rrule, completed } => PayloadV::Habit {
                title: title@,
                scheduled_time_iso: opt_text(scheduled_time_iso),
                rrule: opt_text(rrule),
                completed,
            },
            TicketPayload::Task { title, scheduled_time_iso, rrule, duration_minutes, completed } =>
                PayloadV::Task {
                title: title@,
                scheduled_time_iso: opt_text(scheduled_time_iso),
                rrule: opt_text(rrule),
                duration_minutes,
                completed,
            },
            TicketPayload::Generic(v) => PayloadV::Generic(v@),
        }
    }
}

/// The title a payload shows: its own title, or for a generic payload the text
/// under `"title"`, else `"Untitled"`.
pub open spec fn title_of(p: PayloadV) -> Seq<char> {
    match p {
        PayloadV::Commute { title, .. } => title,
        PayloadV::Countdown { title, .. } => title,
        PayloadV::Event { title, .. } => title,
        PayloadV::Habit { title, .. } => title,
        PayloadV::Task { title, .. } => title,
        PayloadV::Generic(v) => match jv_get_str(v, "title"@) {
            Some(t) => t,
            None => "Untitled"@,
        },
    }
}

/// A payload with its title replaced; a generic payload that is an object
/// gets the text stored under `"title"`, any other generic payload is unchanged.
pub open spec fn with_title(p: PayloadV, t: Seq<char>) -> PayloadV {
    match p {
        PayloadV::Commute {
            title: _,
            label,
            origin,
            origin_location,
            destination,
            destination_location,
            departure_time,
            scheduled_time_iso,
            rrule,
            deadline,
            days,
            related_event_id,
            live,
            minutes_remaining,
            directions,
            completed,
        } => PayloadV::Commute {
            title: t,
            label,
            origin,
            origin_location,
            destination,
            destination_location,
            departure_time,
            scheduled_time_iso,
            rrule,
            deadline,
            days,
            related_event_id,
            live,
            minutes_remaining,
            directions,
            completed,
        },
        PayloadV::Countdown { title: _, duration_minutes, expires_at } => PayloadV::Countdown {
            title: t,
            duration_minutes,
            expires_at,
        },
        PayloadV::Event { title: _, scheduled_time_iso, rrule, duration_minutes, location, completed } =>
            PayloadV::Event { title: t, scheduled_time_iso, rrule, duration_minutes, location, completed },
        PayloadV::Habit { title: _, scheduled_time_iso, rrule, completed } => PayloadV::Habit {
            title: t,
            scheduled_time_iso,
            rrule,
            completed,
        },
        PayloadV::Task { title: _, scheduled_time_iso, rrule, duration_minutes, completed } =>
            PayloadV::Task { title: t, scheduled_time_iso, rrule, duration_minutes, completed },
        PayloadV::Generic(v) => match v {
            JsonV::Object(es) => PayloadV::Generic(
                JsonV::Object(obj_insert(es, "title"@, JsonV::Str(t))),
            ),
            _ => PayloadV::Generic(v),
        },
    }
}

impl TicketPayload {
    /// The title shown for this payload.
    pub fn get_title(&self) -> (r: &str)
        ensures
            r@ == title_of(self@),
    {
        match self {
            TicketPayload::Commute { title, .. } => title.as_str(),
            TicketPayload::Countdown { title, .. } => title.as_str(),
            TicketPayload::Event { title, .. } => title.as_str(),
            TicketPayload::Habit { title, .. } => title.as_str(),
            TicketPayload::Task { title, .. } => title.as_str(),
            TicketPayload::Generic(v) => match v.get("title") {
                Some(t) => match t.as_str() {
                    Some(s) => s,
                    None => "Untitled",
                },
                None => "Untitled",
            },
        }
    }

    /// Replaces the title.
    pub fn set_title(&mut self, new_title: String)
        ensures
            final(self)@ == with_title(old(self)@, new_title@),
    {
        let ghost t = new_title@;
        match self {
            TicketPayload::Commute { title, .. } => {
                *title = new_title;
            },
            TicketPayload::Countdown { title, .. } => {
                *title = new_title;
            },
            TicketPayload::Event { title, .. } => {
                *title = new_title;
            },
            TicketPayload::Habit { title, .. } => {
                *title = new_title;
            },
            TicketPayload::Task { title, .. } => {
                *title = new_title;
            },
            TicketPayload::Generic(v) => {
                match v {
                    JsonValue::Object(es) => {
                        entries_insert(es, owned("title"), JsonValue::Str(new_title));
                    },
                    _ => {},
                }
            },
        }
    }
}

impl TicketPayload {
    /// A copy with the same content.
    pub fn copy(&self) -> (r: TicketPayload)
        ensures
            r@ == self@,
    {
        match self {
            TicketPayload::Commute {
                title,
                label,
                origin,
                origin_location,
                destination,
                destination_location,
                departure_time,
                scheduled_time_iso,
                rrule,
                deadline,
                days,
                related_event_id,
                live,
                minutes_remaining,
                directions,
                completed,
            } => TicketPayload::Commute {
                title: title.clone(),
                label: clone_opt_text(label),
                origin: origin.clone(),
                origin_location: clone_opt_location(origin_location),
                destination: destination.clone(),
                destination_location: clone_opt_location(destination_location),
                departure_time: *departure_time,
                scheduled_time_iso: clone_opt_text(scheduled_time_iso),
                rrule: clone_opt_text(rrule),
                deadline: clone_opt_text(deadline),
                days: clone_opt_text(days),
                related_event_id: clone_opt_text(related_event_id),
                live: *live,
                minutes_remaining: *minutes_remaining,
                directions: clone_opt_json(directions),
                completed: *completed,
            },
            TicketPayload::Countdown { title, duration_minutes, expires_at } => TicketPayload::Countdown {
                title: title.clone(),
                duration_minutes: *duration_minutes,
                expires_at: clone_opt_text(expires_at),
            },
            TicketPayload::Event {
                title,
                scheduled_time_iso,
                rrule,
                duration_minutes,
                location,
                completed,
            } => TicketPayload::Event {
                title: title.clone(),
                scheduled_time_iso: clone_opt_text(scheduled_time_iso),
                rrule: clone_opt_text(rrule),
                duration_minutes: *duration_minutes,
                location: clone_opt_location(location),
                completed: *completed,
            },
            TicketPayload::Habit { title, scheduled_time_iso, rrule, completed } => TicketPayload::Habit {
                title: title.clone(),
                scheduled_time_iso: clone_opt_text(scheduled_time_iso),
                rrule: clone_opt_text(rrule),
                completed: *completed,
            },
            TicketPayload::Task { title, scheduled_time_iso, rrule, duration_minutes, completed } =>
                TicketPayload::Task {
                title: title.clone(),
                scheduled_time_iso: clone_opt_text(scheduled_time_iso),
                rrule: clone_opt_text(rrule),
                duration_minutes: *duration_minutes,
                completed: *completed,
            },
            TicketPayload::Generic(v) => TicketPayload::Generic(json_clone(v)),
        }
    }

    /// Equality by content (the payload's `==`), JSON compared as serde_json
    /// compares it.
    pub fn same_as(&self, other: &TicketPayload) -> (r: bool)
        ensures
            r == (payload_norm(self@) == payload_norm(other@)),
    {
        match (self, other) {
            (
                TicketPayload::Commute {
                    title: a1,
                    label: a2,
                    origin: a3,
                    origin_location: a4,
                    destination: a5,
                    destination_location: a6,
                    departure_time: a7,
                    scheduled_time_iso: a8,
                    rrule: a9,
                    deadline: a10,
                    days: a11,
                    related_event_id: a12,
                    live: a13,
                    minutes_remaining: a14,
                    directions: a15,
                    completed: a16,
                },
                TicketPayload::Commute {
                    title: b1,
                    label: b2,
                    origin: b3,
                    origin_location: b4,
                    destination: b5,
                    destination_location: b6,
                    departure_time: b7,
                    scheduled_time_iso: b8,
                    rrule: b9,
                    deadline: b10,
                    days: b11,
                    related_event_id: b12,
                    live: b13,
                    minutes_remaining: b14,
                    directions: b15,
                    completed: b16,
                },
            ) => {
                str_eq(a1.as_str(), b1.as_str()) && opt_text_eq(a2, b2) && str_eq(a3.as_str(), b3.as_str())
                    && opt_location_eq(a4, b4) && str_eq(a5.as_str(), b5.as_str()) && opt_location_eq(
                    a6,
                    b6,
                ) && *a7 == *b7 && opt_text_eq(a8, b8) && opt_text_eq(a9, b9) && opt_text_eq(a10, b10)
                    && opt_text_eq(a11, b11) && opt_text_eq(a12, b12) && *a13 == *b13 && *a14 == *b14
                    && opt_json_eq(a15, b15) && *a16 == *b16
            },
            (
                TicketPayload::Countdown { title: a1, duration_minutes: a2, expires_at: a3 },
                TicketPayload::Countdown { title: b1, duration_minutes: b2, expires_at: b3 },
            ) => str_eq(a1.as_str(), b1.as_str()) && *a2 == *b2 && opt_text_eq(a3, b3),
            (
                TicketPayload::Event {
                    title: a1,
                    scheduled_time_iso: a2,
                    rrule: a3,
                    duration_minutes: a4,
                    location: a5,
                    completed: a6,
                },
                TicketPayload::Event {
                    title: b1,
                    scheduled_time_iso: b2,
                    rrule: b3,
                    duration_minutes: b4,
                    location: b5,
                    completed: b6,
                },
            ) => str_eq(a1.as_str(), b1.as_str()) && opt_text_eq(a2, b2) && opt_text_eq(a3, b3) && *a4
                == *b4 && opt_location_eq(a5, b5) && *a6 == *b6,
            (
                TicketPayload::Habit { title: a1, scheduled_time_iso: a2, rrule: a3, completed: a4 },
                TicketPayload::Habit { title: b1, scheduled_time_iso: b2, rrule: b3, completed: b4 },
            ) => str_eq(a1.as_str(), b1.as_str()) && opt_text_eq(a2, b2) && opt_text_eq(a3, b3) && *a4
                == *b4,
            (
                TicketPayload::Task {
                    title: a1,
                    scheduled_time_iso: a2,
                    rrule: a3,
                    duration_minutes: a4,
                    completed: a5,
                },
                TicketPayload::Task {
                    title: b1,
                    scheduled_time_iso: b2,
                    rrule: b3,
                    duration_minutes: b4,
                    completed: b5,
                },
            ) => str_eq(a1.as_str(), b1.as_str()) && opt_text_eq(a2, b2) && opt_text_eq(a3, b3) && *a4
                == *b4 && *a5 == *b5,
            (TicketPayload::Generic(a), TicketPayload::Generic(b)) => json_eq(a, b),
            _ => false,
        }
    }
}

/// A ticket in the user's stack.
#[derive(Debug)]
pub struct Ticket {
    pub id: String,
    pub title: String,
    pub ticket_type: TicketType,
    pub status: TicketStatus,
    pub payload: TicketPayload,
    pub notes: Option<String>,
    pub created_at: UtcTimestamp,
    pub updated_at: UtcTimestamp,
}

/// The content of a ticket (its timestamps aside).
pub struct TicketV {
    pub id: Seq<char>,
    pub title: Seq<char>,
    pub ticket_type: TicketType,
    pub status: TicketStatus,
    pub payload: PayloadV,
    pub notes: Option<Seq<char>>,
}

impl View for Ticket {
    type V = TicketV;

    open spec fn view(&self) -> TicketV {
        TicketV {
            id: self.id@,
            title: self.title@,
            ticket_type: self.ticket_type,
            status: self.status,
            payload: self.payload@,
            notes: opt_text(self.notes),
        }
    }
}

impl Ticket {
    /// A new idle ticket with a fresh id, created and updated now.
    pub fn new(title: String, type_: TicketType, payload: TicketPayload, notes: Option<String>) -> (r: Ticket)
        ensures
            r.id@.len() == 36,
            r.title@ == title@,
            r.ticket_type == type_,
            r.status == TicketStatus::Idle,
            r.payload@ == payload@,
            opt_text(r.notes) == opt_text(notes),
            r.created_at == r.updated_at,
    {
        let now = utc_now();
        Ticket {
            id: new_uuid(),
            title,
            ticket_type: type_,
            status: TicketStatus::Idle,
            payload,
            notes,
            created_at: now,
            updated_at: now,
        }
    }

    /// A copy with the same content and timestamps.
    pub fn copy(&self) -> (r: Ticket)
        ensures
            r@ == self@,
            r.created_at == self.created_at,
            r.updated_at == self.updated_at,
    {
        Ticket {
            id: self.id.clone(),
            title: self.title.clone(),
            ticket_type: self.ticket_type,
            status: self.status,
            payload: self.payload.copy(),
            notes: clone_opt_text(&self.notes),
            created_at: self.created_at,
            updated_at: self.updated_at,
        }
    }
}

} // verus!
