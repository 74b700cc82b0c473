//! Places in tickets: how they are shown, looked up among the user's saved
//! places, and checked before a commute or an event refers to them.
use vstd::prelude::*;
use crate::find::{first_match, is_first, lemma_first_match_at, lemma_first_match_none};
use crate::settings::{SavedLocation, UserSettings};
use crate::text::{
    trim, trim_spec, to_lowercase, unicode_lowercase, str_eq, concat2, concat3, concat4, concat5, owned,
    is_blank,
};
use crate::ticket::{TicketLocation, LocationV, CommuteDepartureTime, opt_text, clone_opt_text};
use crate::json::{JsonValue, JsonV, jv_get, jv_get_str};
use crate::decode::{location_of, departure_of, decode_location, decode_departure_time};

verus! {

/// The text a location is shown by: its label where it has one, else what
/// identifies it.
pub open spec fn display_text(l: LocationV) -> Seq<char> {
    match l {
        LocationV::SavedLocation { location_id, label } => match label {
            Some(t) => t,
            None => location_id,
        },
        LocationV::Coordinates { latitude, longitude, label } => match label {
            Some(t) => t,
            None => latitude + ", "@ + longitude,
        },
        LocationV::AddressText { address, .. } => address,
        LocationV::PlaceId { place_id, label } => match label {
            Some(t) => t,
            None => place_id,
        },
        LocationV::CurrentPosition { label } => match label {
            Some(t) => t,
            None => "Current position"@,
        },
    }
}

/// The key two place names are compared by: trimmed, then lower-cased.
pub open spec fn location_key(t: Seq<char>) -> Seq<char> {
    unicode_lowercase(trim_spec(t))
}

/// A trimmed address, or the reason it cannot be one.
pub open spec fn address_text_spec(text: Seq<char>, label: Seq<char>) -> Result<LocationV, Seq<char>> {
    if trim_spec(text).len() == 0 {
        Err(label + " must not be empty"@)
    } else {
        Ok(LocationV::AddressText { address: trim_spec(text), label: None })
    }
}

/// The content of a location result.
pub open spec fn location_result(r: Result<TicketLocation, String>) -> Result<LocationV, Seq<char>> {
    match r {
        Ok(l) => Ok(l@),
        Err(e) => Err(e@),
    }
}

/// Turns free text into an address location; blank text is refused.
pub fn normalize_address_text_location(text: &str, label: &str) -> (r: Result<TicketLocation, String>)
    ensures
        location_result(r) == address_text_spec(text@, label@),
{
    let trimmed = trim(text);
    if trimmed.as_str().unicode_len() == 0 {
        return Err(concat2(label, " must not be empty"));
    }
    Ok(TicketLocation::AddressText { address: trimmed, label: None })
}

/// The text a location is shown by.
pub fn location_display_text(location: &TicketLocation) -> (r: String)
    ensures
        r@ == display_text(location@),
{
    match location {
        TicketLocation::SavedLocation { location_id, label } => match label {
            Some(t) => t.clone(),
            None => location_id.clone(),
        },
        TicketLocation::Coordinates { latitude, longitude, label } => match label {
            Some(t) => t.clone(),
            None => concat3(latitude.as_str(), ", ", longitude.as_str()),
        },
        TicketLocation::AddressText { address, .. } => address.clone(),
        TicketLocation::PlaceId { place_id, label } => match label {
            Some(t) => t.clone(),
            None => place_id.clone(),
        },
        TicketLocation::CurrentPosition { label } => match label {
            Some(t) => t.clone(),
            None => owned("Current position"),
        },
    }
}

/// The comparison key of a place name: trimmed and lower-cased.
pub fn normalize_location_key(text: &str) -> (r: String)
    ensures
        r@ == location_key(text@),
{
    let t = trim(text);
    to_lowercase(t.as_str())
}

/// Position `i` of `ls` carries the id `id`.
pub open spec fn id_matches(ls: Seq<SavedLocation>, id: Seq<char>) -> spec_fn(int) -> bool {
    |i: int| ls[i].id@ == id
}

/// Position `i` of `ls` carries a label with the key `key`.
pub open spec fn key_matches(ls: Seq<SavedLocation>, key: Seq<char>) -> spec_fn(int) -> bool {
    |i: int| location_key(ls[i].label@) == key
}

/// The first saved place carrying the id `id`.
pub open spec fn saved_by_id(ls: Seq<SavedLocation>, id: Seq<char>) -> Option<SavedLocation> {
    match first_match(ls.len() as int, id_matches(ls, id)) {
        Some(i) => Some(ls[i]),
        None => None,
    }
}

/// The first saved place whose label has the same key as `label`.
pub open spec fn saved_by_label(ls: Seq<SavedLocation>, label: Seq<char>) -> Option<SavedLocation> {
    match first_match(ls.len() as int, key_matches(ls, location_key(label))) {
        Some(i) => Some(ls[i]),
        None => None,
    }
}

/// The first saved place carrying the id `location_id`.
pub fn find_saved_location_by_id<'a>(settings: &'a UserSettings, location_id: &str) -> (r: Option<
    &'a SavedLocation,
>)
    ensures
        match r {
            Some(l) => saved_by_id(settings.saved_locations@, location_id@) == Some(*l),
            None => saved_by_id(settings.saved_locations@, location_id@) is None,
        },
{
    let ghost ls = settings.saved_locations@;
    let ghost p = id_matches(ls, location_id@);
    let mut i: usize = 0;
    while i < settings.saved_locations.len()
        invariant
            ls == settings.saved_locations@,
            p == id_matches(ls, location_id@),
            i <= ls.len(),
            forall|j: int| 0 <= j < i ==> !#[trigger] p(j),
        decreases ls.len() - i,
    {
        if str_eq(settings.saved_locations[i].id.as_str(), location_id) {
            proof {
                assert(is_first(ls.len() as int, p, i as int));
                lemma_first_match_at(ls.len() as int, p, i as int);
            }
            return Some(&settings.saved_locations[i]);
        }
        i = i + 1;
    }
    proof {
        lemma_first_match_none(ls.len() as int, p);
    }
    None
}

/// The first saved place whose label matches `label` once both are trimmed
/// and lower-cased.
pub fn find_saved_location_by_label<'a>(settings: &'a UserSettings, label: &str) -> (r: Option<
    &'a SavedLocation,
>)
    ensures
        match r {
            Some(l) => saved_by_label(settings.saved_locations@, label@) == Some(*l),
            None => saved_by_label(settings.saved_locations@, label@) is None,
        },
{
    let ghost ls = settings.saved_locations@;
    let normalized = normalize_location_key(label);
    let ghost p = key_matches(ls, location_key(label@));
    let mut i: usize = 0;
    while i < settings.saved_locations.len()
        invariant
            ls == settings.saved_locations@,
            p == key_matches(ls, location_key(label@)),
            normalized@ == location_key(label@),
            i <= ls.len(),
            forall|j: int| 0 <= j < i ==> !#[trigger] p(j),
        decreases ls.len() - i,
    {
        let key = normalize_location_key(settings.saved_locations[i].label.as_str());
        if str_eq(key.as_str(), normalized.as_str()) {
            proof {
                assert(is_first(ls.len() as int, p, i as int));
                lemma_first_match_at(ls.len() as int, p, i as int);
            }
            return Some(&settings.saved_locations[i]);
        }
        i = i + 1;
    }
    proof {
        lemma_first_match_none(ls.len() as int, p);
    }
    None
}

/// Words that name a place without saying which one.
pub open spec fn is_ambiguous_key(k: Seq<char>) -> bool {
    ||| k == "home"@
    ||| k == "my home"@
    ||| k == "house"@
    ||| k == "my house"@
    ||| k == "my place"@
    ||| k == "place"@
    ||| k == "work"@
    ||| k == "office"@
    ||| k == "my office"@
    ||| k == "gym"@
    ||| k == "school"@
    ||| k == "there"@
    ||| k == "here"@
}

/// Whether `text` names a place without saying which one ("home", "work",
/// "there", ...), compared trimmed and lower-cased.
pub fn is_ambiguous_location_text(text: &str) -> (r: bool)
    ensures
        r == is_ambiguous_key(location_key(text@)),
{
    let k = normalize_location_key(text);
    let k = k.as_str();
    str_eq(k, "home") || str_eq(k, "my home") || str_eq(k, "house") || str_eq(k, "my house")
        || str_eq(k, "my place") || str_eq(k, "place") || str_eq(k, "work") || str_eq(k, "office")
        || str_eq(k, "my office") || str_eq(k, "gym") || str_eq(k, "school") || str_eq(k, "there")
        || str_eq(k, "here")
}

/// The content of a resolved place: the text it is shown by, and the
/// location to store.
pub open spec fn resolved_view(r: Result<(String, TicketLocation), String>) -> Result<
    (Seq<char>, LocationV),
    Seq<char>,
> {
    match r {
        Ok((t, l)) => Ok((t@, l@)),
        Err(e) => Err(e@),
    }
}

/// What a reference to the saved place `id` resolves to: the concrete place's
/// text, and the reference labelled by `label` or else by the saved label.
pub open spec fn resolve_saved_spec(
    ls: Seq<SavedLocation>,
    id: Seq<char>,
    label: Option<Seq<char>>,
    field: Seq<char>,
) -> Result<(Seq<char>, LocationV), Seq<char>> {
    match saved_by_id(ls, id) {
        None => Err("unknown "@ + field + " location_id '"@ + id + "'"@),
        Some(s) => if s.location@ is SavedLocation {
            Err("saved location '"@ + s.label@ + "' must resolve to a concrete location"@)
        } else {
            Ok(
                (
                    display_text(s.location@),
                    LocationV::SavedLocation {
                        location_id: id,
                        label: Some(
                            match label {
                                Some(l) => l,
                                None => s.label@,
                            },
                        ),
                    },
                ),
            )
        },
    }
}

/// Resolves a reference to a saved place; the place must exist and must not
/// itself be a reference.
pub fn resolve_saved_location_reference(
    settings: &UserSettings,
    location_id: &str,
    label: Option<String>,
    field_label: &str,
) -> (r: Result<(String, TicketLocation), String>)
    ensures
        resolved_view(r) == resolve_saved_spec(
            settings.saved_locations@,
            location_id@,
            opt_text(label),
            field_label@,
        ),
{
    let saved_location = match find_saved_location_by_id(settings, location_id) {
        Some(s) => s,
        None => {
            return Err(concat5("unknown ", field_label, " location_id '", location_id, "'"));
        },
    };
    let resolved = match &saved_location.location {
        TicketLocation::SavedLocation { .. } => {
            return Err(
                concat3(
                    "saved location '",
                    saved_location.label.as_str(),
                    "' must resolve to a concrete location",
                ),
            );
        },
        concrete => location_display_text(concrete),
    };
    let label = match label {
        Some(l) => Some(l),
        None => Some(saved_location.label.clone()),
    };
    Ok((resolved, TicketLocation::SavedLocation { location_id: owned(location_id), label }))
}

/// What a place given in a request resolves to: a reference is looked up, any
/// other place must show as non-blank text.
pub open spec fn resolve_object_spec(l: LocationV, ls: Seq<SavedLocation>, field: Seq<char>) -> Result<
    (Seq<char>, LocationV),
    Seq<char>,
> {
    match l {
        LocationV::SavedLocation { location_id, label } => resolve_saved_spec(
            ls,
            location_id,
            label,
            field,
        ),
        _ => if trim_spec(display_text(l)).len() == 0 {
            Err(field + " structured location must render to a non-empty value"@)
        } else {
            Ok((display_text(l), l))
        },
    }
}

/// Resolves a place given in a request to the text it is shown by and the
/// location to store.
pub fn resolve_location_object(location: TicketLocation, settings: &UserSettings, field_label: &str) -> (r:
    Result<(String, TicketLocation), String>)
    ensures
        resolved_view(r) == resolve_object_spec(location@, settings.saved_locations@, field_label@),
{
    match location {
        TicketLocation::SavedLocation { location_id, label } => {
            resolve_saved_location_reference(settings, location_id.as_str(), label, field_label)
        },
        other => {
            let rendered = location_display_text(&other);
            if is_blank(rendered.as_str()) {
                return Err(concat2(field_label, " structured location must render to a non-empty value"));
            }
            Ok((rendered, other))
        },
    }
}

/// How a saved place is rendered for the model: a reference by its id, any
/// other place by its text.
pub open spec fn saved_rendering(l: LocationV) -> Seq<char> {
    match l {
        LocationV::SavedLocation { location_id, .. } => location_id,
        _ => display_text(l),
    }
}

/// One line of the saved-places list: `- id | label | place`.
pub open spec fn saved_line(s: SavedLocation) -> Seq<char> {
    "- "@ + s.id@ + " | "@ + s.label@ + " | "@ + saved_rendering(s.location@)
}

/// Lines joined by line breaks.
pub open spec fn join_lines(lines: Seq<Seq<char>>) -> Seq<char>
    decreases lines.len(),
{
    if lines.len() == 0 {
        Seq::empty()
    } else if lines.len() == 1 {
        lines[0]
    } else {
        join_lines(lines.drop_last()) + "\n"@ + lines.last()
    }
}

/// The saved-places list: one line per place, or `- None`.
pub open spec fn saved_locations_prompt(ls: Seq<SavedLocation>) -> Seq<char> {
    if ls.len() == 0 {
        "- None"@
    } else {
        join_lines(ls.map_values(|s: SavedLocation| saved_line(s)))
    }
}

/// Renders the saved places for a prompt, one `- id | label | place` line each.
pub fn format_saved_locations_for_prompt(saved_locations: &[SavedLocation]) -> (r: String)
    ensures
        r@ == saved_locations_prompt(saved_locations@),
{
    if saved_locations.len() == 0 {
        return owned("- None");
    }
    let ghost lines = saved_locations@.map_values(|s: SavedLocation| saved_line(s));
    let mut out = String::new();
    let mut i: usize = 0;
    while i < saved_locations.len()
        invariant
            i <= saved_locations@.len(),
            lines == saved_locations@.map_values(|s: SavedLocation| saved_line(s)),
            out@ == join_lines(lines.take(i as int)),
        decreases saved_locations@.len() - i,
    {
        let s = &saved_locations[i];
        let rendered = match &s.location {
            TicketLocation::SavedLocation { location_id, .. } => location_id.clone(),
            concrete => location_display_text(concrete),
        };
        let line = concat3(concat4("- ", s.id.as_str(), " | ", s.label.as_str()).as_str(), " | ", rendered.as_str());
        proof {
            assert(lines.take(i + 1).drop_last() =~= lines.take(i as int));
            assert(lines.take(i + 1).last() == line@);
        }
        if i > 0 {
            out.append("\n");
        }
        out.append(line.as_str());
        proof {
            if i == 0 {
                assert(out@ =~= join_lines(lines.take(1)));
            } else {
                assert(out@ =~= join_lines(lines.take(i + 1)));
            }
        }
        i = i + 1;
    }
    assert(lines.take(saved_locations@.len() as int) =~= lines);
    out
}

/// What a request's optional place under `key` reads as: absent or null is
/// no place, anything that is not a place is refused.
pub open spec fn location_arg_spec(args: JsonV, key: Seq<char>, label: Seq<char>) -> Result<
    Option<LocationV>,
    Seq<char>,
> {
    match jv_get(args, key) {
        None => Ok(None),
        Some(JsonV::Null) => Ok(None),
        Some(v) => match location_of(v) {
            Some(l) => Ok(Some(l)),
            None => Err("invalid "@ + label + " value"@),
        },
    }
}

/// The content of an optional-place result.
pub open spec fn opt_location_result(r: Result<Option<TicketLocation>, String>) -> Result<
    Option<LocationV>,
    Seq<char>,
> {
    match r {
        Ok(Some(l)) => Ok(Some(l@)),
        Ok(None) => Ok(None),
        Err(e) => Err(e@),
    }
}

/// Reads the optional place under `key` of a request's arguments.
pub fn parse_location_arg(args: &JsonValue, key: &str, label: &str) -> (r: Result<
    Option<TicketLocation>,
    String,
>)
    ensures
        opt_location_result(r) == location_arg_spec(args@, key@, label@),
{
    match args.get(key) {
        None => Ok(None),
        Some(v) => {
            if v.is_null() {
                return Ok(None);
            }
            match decode_location(v) {
                Some(l) => Ok(Some(l)),
                None => Err(concat3("invalid ", label, " value")),
            }
        },
    }
}

/// What a request's optional departure time under `key` reads as.
pub open spec fn departure_arg_spec(args: JsonV, key: Seq<char>, label: Seq<char>) -> Result<
    Option<CommuteDepartureTime>,
    Seq<char>,
> {
    match jv_get(args, key) {
        None => Ok(None),
        Some(JsonV::Null) => Ok(None),
        Some(v) => match departure_of(v) {
            Some(d) => Ok(Some(d)),
            None => Err("invalid "@ + label + " value"@),
        },
    }
}

/// The content of an optional-departure result.
pub open spec fn opt_departure_result(r: Result<Option<CommuteDepartureTime>, String>) -> Result<
    Option<CommuteDepartureTime>,
    Seq<char>,
> {
    match r {
        Ok(d) => Ok(d),
        Err(e) => Err(e@),
    }
}

/// Reads the optional departure time under `key` of a request's arguments.
pub fn parse_departure_time_arg(args: &JsonValue, key: &str, label: &str) -> (r: Result<
    Option<CommuteDepartureTime>,
    String,
>)
    ensures
        opt_departure_result(r) == departure_arg_spec(args@, key@, label@),
{
    match args.get(key) {
        None => Ok(None),
        Some(v) => {
            if v.is_null() {
                return Ok(None);
            }
            match decode_departure_time(v) {
                Some(d) => Ok(Some(d)),
                None => Err(concat3("invalid ", label, " value")),
            }
        },
    }
}

/// The place of an event request: its `"location"`, resolved.
pub open spec fn event_location_spec(args: JsonV, ls: Seq<SavedLocation>) -> Result<
    Option<LocationV>,
    Seq<char>,
> {
    match location_arg_spec(args, "location"@, "event location"@) {
        Err(e) => Err(e),
        Ok(None) => Ok(None),
        Ok(Some(l)) => match resolve_object_spec(l, ls, "event location"@) {
            Err(e) => Err(e),
            Ok((_, n)) => Ok(Some(n)),
        },
    }
}

/// Reads and resolves the optional `"location"` of an event request.
pub fn resolve_event_location(args: &JsonValue, settings: &UserSettings) -> (r: Result<
    Option<TicketLocation>,
    String,
>)
    ensures
        opt_location_result(r) == event_location_spec(args@, settings.saved_locations@),
{
    match parse_location_arg(args, "location", "event location") {
        Err(e) => Err(e),
        Ok(None) => Ok(None),
        Ok(Some(location)) => match resolve_location_object(location, settings, "event location") {
            Err(e) => Err(e),
            Ok((_, l)) => Ok(Some(l)),
        },
    }
}

/// The trimmed text under `key`, where it is a text.
pub open spec fn text_arg(args: JsonV, key: Seq<char>) -> Option<Seq<char>> {
    match jv_get_str(args, key) {
        Some(t) => Some(trim_spec(t)),
        None => None,
    }
}

/// One end of a commute, given as text under `text_key`, as a place under
/// `object_key`, or both (which must agree).
pub open spec fn commute_location_spec(
    args: JsonV,
    ls: Seq<SavedLocation>,
    object_key: Seq<char>,
    text_key: Seq<char>,
    label: Seq<char>,
) -> Result<(Seq<char>, LocationV), Seq<char>> {
    match location_arg_spec(args, object_key, label) {
        Err(e) => Err(e),
        Ok(object_value) => match (text_arg(args, text_key), object_value) {
            (Some(text), Some(location)) => if text.len() == 0 {
                Err(label + " text must not be empty"@)
            } else {
                match resolve_object_spec(location, ls, label) {
                    Err(e) => Err(e),
                    Ok((rendered, normalized)) => {
                        let text_matches_saved_label = normalized matches LocationV::SavedLocation {
                            label: Some(saved_label),
                            ..
                        } && saved_label == text;
                        if rendered != text && !text_matches_saved_label {
                            Err(
                                label + " text '"@ + text + "' does not match structured location '"@
                                    + rendered + "'"@,
                            )
                        } else {
                            Ok((rendered, normalized))
                        }
                    },
                }
            },
            (Some(text), None) => if saved_by_label(ls, text) is Some {
                Err(label + " '"@ + text + "' matches a saved location; use location_id instead of raw text"@)
            } else if is_ambiguous_key(location_key(text)) {
                Err(
                    label + " '"@ + text
                        + "' is ambiguous; ask the user which saved place or concrete address they mean"@,
                )
            } else {
                match address_text_spec(text, label) {
                    Err(e) => Err(e),
                    Ok(l) => Ok((text, l)),
                }
            },
            (None, Some(location)) => resolve_object_spec(location, ls, label),
            (None, None) => Err("missing "@ + label),
        },
    }
}

/// Reads one end of a commute from a request: the text under `text_key`, the
/// place under `object_key`, or both, which must then agree.
pub fn resolve_commute_location(
    args: &JsonValue,
    object_key: &str,
    text_key: &str,
    label: &str,
    settings: &UserSettings,
) -> (r: Result<(String, TicketLocation), String>)
    ensures
        resolved_view(r) == commute_location_spec(
            args@,
            settings.saved_locations@,
            object_key@,
            text_key@,
            label@,
        ),
{
    let text_value = match args.get_string(text_key) {
        Some(t) => Some(trim(t.as_str())),
        None => None,
    };
    let object_value = match parse_location_arg(args, object_key, label) {
        Err(e) => {
            return Err(e);
        },
        Ok(v) => v,
    };
    match (text_value, object_value) {
        (Some(text), Some(location)) => {
            if text.as_str().unicode_len() == 0 {
                return Err(concat2(label, " text must not be empty"));
            }
            let (rendered, normalized) = match resolve_location_object(location, settings, label) {
                Err(e) => {
                    return Err(e);
                },
                Ok(p) => p,
            };
            let text_matches_saved_label = match &normalized {
                TicketLocation::SavedLocation { label: Some(saved_label), .. } => str_eq(
                    saved_label.as_str(),
                    text.as_str(),
                ),
                _ => false,
            };
            if !str_eq(rendered.as_str(), text.as_str()) && !text_matches_saved_label {
                return Err(
                    concat2(
                        concat5(
                            label,
                            " text '",
                            text.as_str(),
                            "' does not match structured location '",
                            rendered.as_str(),
                        ).as_str(),
                        "'",
                    ),
                );
            }
            Ok((rendered, normalized))
        },
        (Some(text), None) => {
            if find_saved_location_by_label(settings, text.as_str()).is_some() {
                return Err(
                    concat4(
                        label,
                        " '",
                        text.as_str(),
                        "' matches a saved location; use location_id instead of raw text",
                    ),
                );
            }
            if is_ambiguous_location_text(text.as_str()) {
                return Err(
                    concat4(
                        label,
                        " '",
                        text.as_str(),
                        "' is ambiguous; ask the user which saved place or concrete address they mean",
                    ),
                );
            }
            let location = match normalize_address_text_location(text.as_str(), label) {
                Err(e) => {
                    return Err(e);
                },
                Ok(l) => l,
            };
            Ok((text, location))
        },
        (None, Some(location)) => resolve_location_object(location, settings, label),
        (None, None) => Err(concat2("missing ", label)),
    }
}

} // verus!
