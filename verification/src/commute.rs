//! Commutes that follow events: the commute inferred from a scheduled event,
//! the defaults given to older commutes, and the weekdays a rule repeats on.
use vstd::prelude::*;
use crate::find::{first_match, is_first, lemma_first_match_at, lemma_first_match_none};
use crate::text::{
    texts, split_on, split_char, lines_spec, lines_of, join_by, join_strings, strip_all_prefix,
    trim_start_matches, has_prefix, starts_with, chars_of, string_from_chars, str_eq, owned,
    trim_spec, is_blank, concat2,
};
use crate::ticket::{
    TicketPayload, PayloadV, TicketLocation, LocationV, CommuteDepartureTime, Ticket, TicketV,
    opt_text, clone_opt_text,
};
use crate::locations::{display_text, location_display_text};

verus! {

/// `ps[k]` starts with `pre`.
pub open spec fn prefixed(ps: Seq<Seq<char>>, pre: Seq<char>) -> spec_fn(int) -> bool {
    |k: int| has_prefix(ps[k], pre)
}

/// The first of `ps` that starts with `pre`.
pub open spec fn first_prefixed(ps: Seq<Seq<char>>, pre: Seq<char>) -> Option<Seq<char>> {
    match first_match(ps.len() as int, prefixed(ps, pre)) {
        Some(k) => Some(ps[k]),
        None => None,
    }
}

/// Position of the first text of `v` that starts with `pre`.
fn find_prefixed(v: &Vec<String>, pre: &str) -> (r: Option<usize>)
    ensures
        match r {
            Some(k) => k < v@.len() && first_prefixed(texts(v@), pre@) == Some(v@[k as int]@),
            None => first_prefixed(texts(v@), pre@) is None,
        },
{
    let ghost ps = texts(v@);
    let ghost p = prefixed(ps, pre@);
    let mut k: usize = 0;
    while k < v.len()
        invariant
            ps == texts(v@),
            p == prefixed(ps, pre@),
            k <= v@.len(),
            forall|j: int| 0 <= j < k ==> !#[trigger] p(j),
        decreases v@.len() - k,
    {
        if starts_with(v[k].as_str(), pre) {
            proof {
                assert(ps[k as int] == v@[k as int]@);
                assert(is_first(ps.len() as int, p, k as int));
                lemma_first_match_at(ps.len() as int, p, k as int);
            }
            return Some(k);
        }
        assert(ps[k as int] == v@[k as int]@);
        k = k + 1;
    }
    proof {
        lemma_first_match_none(ps.len() as int, p);
    }
    None
}

/// The weekday an iCalendar day code names.
pub open spec fn day_name(t: Seq<char>) -> Option<Seq<char>> {
    if t == "MO"@ {
        Some("monday"@)
    } else if t == "TU"@ {
        Some("tuesday"@)
    } else if t == "WE"@ {
        Some("wednesday"@)
    } else if t == "TH"@ {
        Some("thursday"@)
    } else if t == "FR"@ {
        Some("friday"@)
    } else if t == "SA"@ {
        Some("saturday"@)
    } else if t == "SU"@ {
        Some("sunday"@)
    } else {
        None
    }
}

/// The seven weekdays' names.
pub open spec fn is_weekday_name(n: Seq<char>) -> bool {
    ||| n == "monday"@
    ||| n == "tuesday"@
    ||| n == "wednesday"@
    ||| n == "thursday"@
    ||| n == "friday"@
    ||| n == "saturday"@
    ||| n == "sunday"@
}

/// A day code names its own weekday: the name is one of the seven
/// weekdays' and begins with the code's two letters in lower case.
pub proof fn lemma_day_name_of_code(c: Seq<char>)
    ensures
        day_name(c) matches Some(n) ==> is_weekday_name(n) && c.len() == 2 && n.len() >= 2 && (n[0] as int) == (
        c[0] as int) + 32 && (n[1] as int) == (c[1] as int) + 32,
{
    reveal_strlit("MO");
    reveal_strlit("TU");
    reveal_strlit("WE");
    reveal_strlit("TH");
    reveal_strlit("FR");
    reveal_strlit("SA");
    reveal_strlit("SU");
    reveal_strlit("monday");
    reveal_strlit("tuesday");
    reveal_strlit("wednesday");
    reveal_strlit("thursday");
    reveal_strlit("friday");
    reveal_strlit("saturday");
    reveal_strlit("sunday");
}

/// Different day codes name different weekdays.
pub proof fn lemma_day_name_injective(c: Seq<char>, d: Seq<char>)
    ensures
        (day_name(c) matches Some(n) && day_name(d) == Some(n)) ==> c == d,
{
    lemma_day_name_of_code(c);
    lemma_day_name_of_code(d);
    if day_name(c) is Some && day_name(d) == day_name(c) {
        let n = day_name(c)->0;
        assert((c[0] as int) == (d[0] as int));
        assert((c[1] as int) == (d[1] as int));
        assert(c[0] == d[0]);
        assert(c[1] == d[1]);
        assert(c =~= d);
    }
}

/// The weekdays of the day codes in `ts`, in order, unknown codes skipped.
pub open spec fn day_names(ts: Seq<Seq<char>>) -> Seq<Seq<char>>
    decreases ts.len(),
{
    if ts.len() == 0 {
        Seq::empty()
    } else {
        let prev = day_names(ts.drop_last());
        match day_name(ts.last()) {
            Some(n) => prev.push(n),
            None => prev,
        }
    }
}

/// The weekdays a recurrence repeats on: from the first `RRULE:` line, its
/// first `BYDAY=` part, the known day codes as weekday names joined by commas.
pub open spec fn rrule_days(rrule: Seq<char>) -> Option<Seq<char>> {
    match first_prefixed(lines_spec(rrule), "RRULE:"@) {
        None => None,
        Some(line) => match first_prefixed(
            split_on(strip_all_prefix(line, "RRULE:"@), ';'),
            "BYDAY="@,
        ) {
            None => None,
            Some(seg) => {
                let names = day_names(split_on(seg.skip(6), ','));
                if names.len() == 0 {
                    None
                } else {
                    Some(join_by(names, ","@))
                }
            },
        },
    }
}

/// The weekday an iCalendar day code names.
fn weekday_of_code(t: &str) -> (r: Option<String>)
    ensures
        match r {
            Some(n) => day_name(t@) == Some(n@),
            None => day_name(t@) is None,
        },
{
    if str_eq(t, "MO") {
        Some(owned("monday"))
    } else if str_eq(t, "TU") {
        Some(owned("tuesday"))
    } else if str_eq(t, "WE") {
        Some(owned("wednesday"))
    } else if str_eq(t, "TH") {
        Some(owned("thursday"))
    } else if str_eq(t, "FR") {
        Some(owned("friday"))
    } else if str_eq(t, "SA") {
        Some(owned("saturday"))
    } else if str_eq(t, "SU") {
        Some(owned("sunday"))
    } else {
        None
    }
}

/// The weekdays an iCalendar recurrence repeats on, such as
/// `"monday,wednesday"` for `BYDAY=MO,WE`; `None` when it names none.
pub fn extract_rrule_days(rrule: &str) -> (r: Option<String>)
    ensures
        match r {
            Some(d) => rrule_days(rrule@) == Some(d@),
            None => rrule_days(rrule@) is None,
        },
{
    let lines = lines_of(rrule);
    let k = match find_prefixed(&lines, "RRULE:") {
        Some(k) => k,
        None => {
            return None;
        },
    };
    let body = trim_start_matches(lines[k].as_str(), "RRULE:");
    let segments = split_char(body.as_str(), ';');
    let j = match find_prefixed(&segments, "BYDAY=") {
        Some(j) => j,
        None => {
            return None;
        },
    };
    let seg = chars_of(segments[j].as_str());
    proof {
        assert(has_prefix(seg@, "BYDAY="@));
        reveal_strlit("BYDAY=");
    }
    let rest = string_from_chars(&seg.as_slice()[6..seg.len()]);
    assert(rest@ =~= seg@.skip(6));
    let tokens = split_char(rest.as_str(), ',');
    let ghost ts = texts(tokens@);
    let mut names: Vec<String> = Vec::new();
    let mut i: usize = 0;
    while i < tokens.len()
        invariant
            ts == texts(tokens@),
            i <= tokens@.len(),
            texts(names@) == day_names(ts.take(i as int)),
        decreases tokens@.len() - i,
    {
        proof {
            assert(ts.take(i + 1).drop_last() =~= ts.take(i as int));
            assert(ts.take(i + 1).last() == tokens@[i as int]@);
        }
        match weekday_of_code(tokens[i].as_str()) {
            Some(n) => {
                names.push(n);
                assert(texts(names@) =~= day_names(ts.take(i + 1)));
            },
            None => {
                assert(texts(names@) =~= day_names(ts.take(i + 1)));
            },
        }
        i = i + 1;
    }
    assert(ts.take(tokens@.len() as int) =~= ts);
    if names.len() == 0 {
        None
    } else {
        Some(join_strings(&names, ","))
    }
}

/// How long before an event's start a commute aims to arrive, in minutes.
pub const DEFAULT_COMMUTE_BUFFER_MINUTES: i64 = 10;

/// Whether chrono's RFC 3339 parser accepts a text: it reads an instant
/// from it.
pub open spec fn rfc3339_parses(s: Seq<char>) -> bool {
    crate::decode::rfc3339_instant(s) is Some
}

/// Parses an RFC 3339 instant (`chrono::DateTime::parse_from_rfc3339`), moves
/// it to the machine's time zone (`with_timezone(&Local)`) and renders its
/// hour and minute (`format("%H:%M")`). The contract says when a time comes
/// back (exactly when the text parses) and that it is two zero-padded
/// two-digit numbers around a colon; which hour it shows depends on the
/// machine's time zone and is left unsaid.
#[verifier::external_body]
pub(crate) fn deadline_from_scheduled_time(scheduled_time_iso: &str) -> (r: Option<String>)
    ensures
        r is Some <==> rfc3339_parses(scheduled_time_iso@),
        r matches Some(t) ==> t@.len() == 5 && t@[2] == ':',
{
    match chrono::DateTime::parse_from_rfc3339(scheduled_time_iso) {
        Ok(v) => Some(v.with_timezone(&chrono::Local).format("%H:%M").to_string()),
        Err(_) => None,
    }
}

/// The commute that takes the user to a scheduled event, given the deadline
/// shown for it: from the current position to the event's place, leaving
/// early enough to arrive ten minutes before. None when the event is not
/// scheduled, has no place, is "here", or its place shows as blank.
pub open spec fn inferred_commute(event_id: Seq<char>, p: PayloadV, deadline: Option<Seq<char>>) -> Option<
    PayloadV,
> {
    match p {
        PayloadV::Event { title, scheduled_time_iso, rrule, location, .. } => if scheduled_time_iso is None
            && rrule is None {
            None
        } else {
            match location {
                None => None,
                Some(dest) => if dest is CurrentPosition {
                    None
                } else if trim_spec(display_text(dest)).len() == 0 {
                    None
                } else {
                    Some(
                        PayloadV::Commute {
                            title: "Commute to "@ + title,
                            label: Some("event_commute"@),
                            origin: "Current position"@,
                            origin_location: Some(
                                LocationV::CurrentPosition { label: Some("Current position"@) },
                            ),
                            destination: display_text(dest),
                            destination_location: Some(dest),
                            departure_time: Some(
                                CommuteDepartureTime::RelativeToArrival {
                                    buffer_minutes: DEFAULT_COMMUTE_BUFFER_MINUTES,
                                },
                            ),
                            scheduled_time_iso,
                            rrule,
                            deadline,
                            days: match rrule {
                                Some(r) => rrule_days(r),
                                None => None,
                            },
                            related_event_id: Some(event_id),
                            live: None,
                            minutes_remaining: None,
                            directions: None,
                            completed: Some(false),
                        },
                    )
                },
            }
        },
        _ => None,
    }
}

/// The content of an optional payload.
pub open spec fn opt_payload(o: Option<TicketPayload>) -> Option<PayloadV> {
    match o {
        Some(p) => Some(p@),
        None => None,
    }
}

/// The commute for an event, with the deadline already worked out.
pub fn commute_for_event(event_id: &str, payload: &TicketPayload, deadline: Option<String>) -> (r: Option<
    TicketPayload,
>)
    ensures
        opt_payload(r) == inferred_commute(event_id@, payload@, opt_text(deadline)),
{
    match payload {
        TicketPayload::Event { title, scheduled_time_iso, rrule, location, .. } => {
            if scheduled_time_iso.is_none() && rrule.is_none() {
                return None;
            }
            let destination_location = match location {
                Some(l) => l.copy(),
                None => {
                    return None;
                },
            };
            if let TicketLocation::CurrentPosition { .. } = destination_location {
                return None;
            }
            let destination = location_display_text(&destination_location);
            if is_blank(destination.as_str()) {
                return None;
            }
            let days = match rrule {
                Some(r) => extract_rrule_days(r.as_str()),
                None => None,
            };
            Some(
                TicketPayload::Commute {
                    title: concat2("Commute to ", title.as_str()),
                    label: Some(owned("event_commute")),
                    origin: owned("Current position"),
                    origin_location: Some(
                        TicketLocation::CurrentPosition { label: Some(owned("Current position")) },
                    ),
                    destination,
                    destination_location: Some(destination_location),
                    departure_time: Some(
                        CommuteDepartureTime::RelativeToArrival {
                            buffer_minutes: DEFAULT_COMMUTE_BUFFER_MINUTES,
                        },
                    ),
                    scheduled_time_iso: clone_opt_text(scheduled_time_iso),
                    rrule: clone_opt_text(rrule),
                    deadline,
                    days,
                    related_event_id: Some(owned(event_id)),
                    live: None,
                    minutes_remaining: None,
                    directions: None,
                    completed: Some(false),
                },
            )
        },
        _ => None,
    }
}

/// When an event is scheduled.
pub open spec fn event_schedule(p: PayloadV) -> Option<Seq<char>> {
    match p {
        PayloadV::Event { scheduled_time_iso, .. } => scheduled_time_iso,
        _ => None,
    }
}

/// A deadline as `deadline_from_scheduled_time` may give it for `schedule`.
pub open spec fn deadline_fits(schedule: Option<Seq<char>>, d: Option<Seq<char>>) -> bool {
    match schedule {
        None => d is None,
        Some(s) => (d is Some <==> rfc3339_parses(s)) && (d matches Some(t) ==> t.len() == 5 && t[2]
            == ':'),
    }
}

/// The commute that takes the user to an event, with its deadline the
/// event's start in local time.
pub fn infer_commute_payload_from_event(event_id: &str, payload: &TicketPayload) -> (r: Option<
    TicketPayload,
>)
    ensures
        exists|d: Option<Seq<char>>|
            deadline_fits(event_schedule(payload@), d) && opt_payload(r) == inferred_commute(
                event_id@,
                payload@,
                d,
            ),
{
    let deadline = match payload {
        TicketPayload::Event { scheduled_time_iso: Some(s), .. } => deadline_from_scheduled_time(
            s.as_str(),
        ),
        _ => None,
    };
    let r = commute_for_event(event_id, payload, deadline);
    assert(deadline_fits(event_schedule(payload@), opt_text(deadline)));
    r
}

/// An older commute with a schedule but no departure rule gets the default
/// one; every other payload stays as it is.
pub open spec fn legacy_normalized(p: PayloadV) -> PayloadV {
    match p {
        PayloadV::Commute {
            title,
            label,
            origin,
            origin_location,
            destination,
            destination_location,
            departure_time,
            scheduled_time_iso,
            rrule,
            deadline,
            days,
            related_event_id,
            live,
            minutes_remaining,
            directions,
            completed,
        } => if departure_time is None && (scheduled_time_iso is Some || rrule is Some) {
            PayloadV::Commute {
                title,
                label,
                origin,
                origin_location,
                destination,
                destination_location,
                departure_time: Some(
                    CommuteDepartureTime::RelativeToArrival {
                        buffer_minutes: DEFAULT_COMMUTE_BUFFER_MINUTES,
                    },
                ),
                scheduled_time_iso,
                rrule,
                deadline,
                days,
                related_event_id,
                live,
                minutes_remaining,
                directions,
                completed,
            }
        } else {
            p
        },
        _ => p,
    }
}

/// Gives a scheduled commute without a departure rule the default one.
pub fn normalize_legacy_commute_payload(payload: &mut TicketPayload)
    ensures
        final(payload)@ == legacy_normalized(old(payload)@),
{
    match payload {
        TicketPayload::Commute { departure_time, scheduled_time_iso, rrule, .. } => {
            if departure_time.is_none() && (scheduled_time_iso.is_some() || rrule.is_some()) {
                *departure_time = Some(
                    CommuteDepartureTime::RelativeToArrival {
                        buffer_minutes: DEFAULT_COMMUTE_BUFFER_MINUTES,
                    },
                );
            }
        },
        _ => {},
    }
}

/// Normalizing twice changes nothing more than normalizing once.
pub proof fn lemma_legacy_normalized_idempotent(p: PayloadV)
    ensures
        legacy_normalized(legacy_normalized(p)) == legacy_normalized(p),
{
}

/// A ticket with its payload normalized.
pub open spec fn normalized_ticket(t: TicketV) -> TicketV {
    TicketV { payload: legacy_normalized(t.payload), ..t }
}

/// Normalizes the payload of every ticket, keeping their order.
pub fn normalize_projected_tasks(tasks: Vec<Ticket>) -> (r: Vec<Ticket>)
    ensures
        r@.len() == tasks@.len(),
        forall|i: int| 0 <= i < tasks@.len() ==> #[trigger] r@[i]@ == normalized_ticket(tasks@[i]@),
        forall|i: int|
            0 <= i < tasks@.len() ==> #[trigger] r@[i].created_at == tasks@[i].created_at
                && r@[i].updated_at == tasks@[i].updated_at,
{
    let ghost orig = tasks@;
    let mut rest = tasks;
    let mut out: Vec<Ticket> = Vec::new();
    let n = rest.len();
    while rest.len() > 0
        invariant
            out@.len() + rest@.len() == n,
            n == orig.len(),
            rest@ == orig.skip(out@.len() as int),
            forall|i: int| 0 <= i < out@.len() ==> #[trigger] out@[i]@ == normalized_ticket(orig[i]@),
            forall|i: int|
                0 <= i < out@.len() ==> #[trigger] out@[i].created_at == orig[i].created_at
                    && out@[i].updated_at == orig[i].updated_at,
        decreases rest.len(),
    {
        let mut t = rest.remove(0);
        proof {
            assert(t == orig[out@.len() as int]);
            assert(rest@ =~= orig.skip(out@.len() as int + 1));
        }
        normalize_legacy_commute_payload(&mut t.payload);
        out.push(t);
    }
    out
}

/// The commute that follows the event `event_id`, if a ticket holds one.
pub open spec fn follows_event(ts: Seq<Ticket>, event_id: Seq<char>) -> spec_fn(int) -> bool {
    |i: int| ts[i].payload@ matches PayloadV::Commute { related_event_id: Some(e), .. } && e == event_id
}

/// The id of the first commute that follows the event `event_id`.
pub open spec fn related_commute_id(ts: Seq<Ticket>, event_id: Seq<char>) -> Option<Seq<char>> {
    match first_match(ts.len() as int, follows_event(ts, event_id)) {
        Some(i) => Some(ts[i].id@),
        None => None,
    }
}

/// The id of the first commute ticket that follows the event `event_id`.
pub fn find_related_commute_id(tasks: &[Ticket], event_id: &str) -> (r: Option<String>)
    ensures
        opt_text(r) == related_commute_id(tasks@, event_id@),
{
    let ghost ts = tasks@;
    let ghost p = follows_event(ts, event_id@);
    let mut i: usize = 0;
    while i < tasks.len()
        invariant
            ts == tasks@,
            p == follows_event(ts, event_id@),
            i <= ts.len(),
            forall|j: int| 0 <= j < i ==> !#[trigger] p(j),
        decreases ts.len() - i,
    {
        let found = match &tasks[i].payload {
            TicketPayload::Commute { related_event_id: Some(e), .. } => str_eq(e.as_str(), event_id),
            _ => false,
        };
        if found {
            proof {
                assert(is_first(ts.len() as int, p, i as int));
                lemma_first_match_at(ts.len() as int, p, i as int);
            }
            return Some(tasks[i].id.clone());
        }
        i = i + 1;
    }
    proof {
        lemma_first_match_none(ts.len() as int, p);
    }
    None
}

} // verus!
