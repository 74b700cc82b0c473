//! Schedules written by the model: a `DTSTART` instant, optionally with an
//! iCalendar recurrence rule.
use vstd::prelude::*;
use crate::chat::{next_occ, next_occurrence};
use crate::clock::UtcTimestamp;
use crate::commute::{first_prefixed, prefixed};
use crate::find::{first_match, is_first, lemma_first_match_at, lemma_first_match_none};
use crate::text::{
    chars_of, string_from_chars, char_is_whitespace, is_whitespace, contains, contains_spec, lines_spec,
    lines_of, texts, trim, trim_spec, starts_with, has_prefix, concat3, concat5, owned,
};

verus! {

/// A parsed recurrence set (`rrule::RRuleSet`).
#[verifier::external_type_specification]
#[verifier::external_body]
pub struct ExRRuleSet(rrule::RRuleSet);

/// What `chrono::NaiveDateTime::parse_from_str` makes of a value read with
/// a format: the instant it names, taken as UTC, or the text of the error.
pub uninterp spec fn naive_parse(value: Seq<char>, format: Seq<char>) -> Result<UtcTimestamp, Seq<char>>;

/// Reads a value with a format (`chrono::NaiveDateTime::parse_from_str`,
/// then `and_utc`); the error comes back as its text. The contract names
/// the result: it depends on the value and the format alone.
#[verifier::external_body]
fn parse_naive_utc(value: &str, format: &str) -> (r: Result<UtcTimestamp, String>)
    ensures
        match r {
            Ok(t) => naive_parse(value@, format@) == Ok::<UtcTimestamp, Seq<char>>(t),
            Err(e) => naive_parse(value@, format@) == Err::<UtcTimestamp, Seq<char>>(e@),
        },
{
    match chrono::NaiveDateTime::parse_from_str(value, format) {
        Ok(n) => {
            let d = n.and_utc();
            Ok(UtcTimestamp { seconds: d.timestamp(), nanos: d.timestamp_subsec_nanos() })
        },
        Err(e) => Err(format!("{}", e)),
    }
}

/// What a `DTSTART` value names: read with `%Y%m%dT%H%M%SZ`, else with
/// `%Y%m%dT%H%MZ`; where both fail, the second attempt's error.
pub open spec fn dtstart_parse(value: Seq<char>) -> Result<UtcTimestamp, Seq<char>> {
    match naive_parse(value, "%Y%m%dT%H%M%SZ"@) {
        Ok(t) => Ok(t),
        Err(_) => naive_parse(value, "%Y%m%dT%H%MZ"@),
    }
}

/// Reads a `DTSTART` value as a UTC instant, with seconds or without.
pub fn parse_dtstart_value(value: &str) -> (r: Result<UtcTimestamp, String>)
    ensures
        match r {
            Ok(t) => dtstart_parse(value@) == Ok::<UtcTimestamp, Seq<char>>(t),
            Err(e) => dtstart_parse(value@) == Err::<UtcTimestamp, Seq<char>>(e@),
        },
{
    match parse_naive_utc(value, "%Y%m%dT%H%M%SZ") {
        Ok(t) => Ok(t),
        Err(_) => parse_naive_utc(value, "%Y%m%dT%H%MZ"),
    }
}

/// Where a comma- or semicolon-separated field of an iCalendar text may
/// end: at the end of the text, or before a separator or a line break.
pub open spec fn field_end(s: Seq<char>, j: int) -> bool {
    j == s.len() || s[j] == ',' || s[j] == ';' || s[j] == '\n' || s[j] == '\r'
}

/// rrule reads a weekday (`BYDAY`) as its field's last two bytes and cuts
/// the text there (`NWeekday::from_str`). The cut falls inside a character,
/// and rrule panics, where the field ends with a character of three or more
/// UTF-8 bytes (U+0800 and up), or with an ASCII character right after one
/// of two or more bytes (U+0080 and up). This says that the field ending at
/// or after `i` ends so.
pub open spec fn cut_inside(s: Seq<char>, i: int) -> bool {
    ||| (s[i] as u32) >= 0x800 && field_end(s, i + 1)
    ||| (s[i] as u32) >= 0x80 && i + 1 < s.len() && (s[i + 1] as u32) < 0x80 && field_end(s, i + 2)
}

/// Some field of `s` ends where rrule would cut a character in two.
pub open spec fn weekday_cut_unsafe(s: Seq<char>) -> bool {
    exists|i: int| 0 <= i < s.len() && #[trigger] cut_inside(s, i)
}

/// Whether some field of `s` ends where rrule would cut a character in two.
pub fn has_unsafe_weekday_cut(s: &str) -> (r: bool)
    ensures
        r == weekday_cut_unsafe(s@),
{
    let cs = chars_of(s);
    let n = cs.len();
    let mut i: usize = 0;
    while i < n
        invariant
            cs@ == s@,
            n == cs.len(),
            i <= n,
            forall|k: int| 0 <= k < i ==> !#[trigger] cut_inside(s@, k),
        decreases n - i,
    {
        let c = cs[i] as u32;
        let end1 = i + 1 == n || cs[i + 1] == ',' || cs[i + 1] == ';' || cs[i + 1] == '\n' || cs[i + 1] == '\r';
        let mut cut = c >= 0x800 && end1;
        if !cut && c >= 0x80 && i + 1 < n && (cs[i + 1] as u32) < 0x80 {
            let end2 = i + 2 == n || cs[i + 2] == ',' || cs[i + 2] == ';' || cs[i + 2] == '\n' || cs[i + 2]
                == '\r';
            cut = end2;
        }
        if cut {
            assert(cut_inside(s@, i as int));
            return true;
        }
        assert(!cut_inside(s@, i as int));
        i = i + 1;
    }
    false
}

/// Parses an iCalendar recurrence set (`RRuleSet::from_str`); the error
/// comes back as its text. What the set holds may depend on the machine's
/// time zone (a start without one is local time), so nothing is promised of
/// it. rrule panics on a weekday field that its byte cut splits (see
/// `cut_inside`); such texts are left out.
#[verifier::external_body]
fn parse_rrule_set(s: &str) -> (r: Result<rrule::RRuleSet, String>)
    requires
        !weekday_cut_unsafe(s@),
{
    match <rrule::RRuleSet as std::str::FromStr>::from_str(s) {
        Ok(set) => Ok(set),
        Err(e) => Err(format!("{}", e)),
    }
}

/// The set's start in UTC (`get_dt_start` then `with_timezone(&Utc)`).
#[verifier::external_body]
fn rrule_set_start(set: &rrule::RRuleSet) -> (r: UtcTimestamp) {
    let d = set.get_dt_start().with_timezone(&chrono::Utc);
    UtcTimestamp { seconds: d.timestamp(), nanos: d.timestamp_subsec_nanos() }
}

/// How many recurrence rules the set holds (`get_rrule().len()`).
#[verifier::external_body]
fn rrule_set_rule_count(set: &rrule::RRuleSet) -> (r: usize) {
    set.get_rrule().len()
}

/// The set written back as iCalendar text (`to_string`).
#[verifier::external_body]
fn rrule_set_text(set: &rrule::RRuleSet) -> (r: String) {
    set.to_string()
}

/// The start of a `DTSTART` value ends at the first white space or line feed.
pub open spec fn value_end(s: Seq<char>, from: int) -> spec_fn(int) -> bool {
    |k: int| char_is_whitespace(s[from + k]) || s[from + k] == '\n'
}

/// `s` with a `Z` added to its first `DTSTART:` value when that value does
/// not already end with one, so that it reads as UTC.
pub open spec fn with_utc_marker(s: Seq<char>) -> Seq<char> {
    match next_occ(s, "DTSTART:"@, 0) {
        None => s,
        Some(i) => {
            let cs = i + 8;
            match first_match(s.len() - cs, value_end(s, cs)) {
                Some(k) => {
                    let e = cs + k;
                    if e > cs && s[e - 1] == 'Z' {
                        s
                    } else {
                        s.take(e) + seq!['Z'] + s.skip(e)
                    }
                },
                None => if s.len() > 0 && s.last() == 'Z' {
                    s
                } else {
                    s.push('Z')
                },
            }
        },
    }
}

/// Every `from` in `s` replaced by `to`, left to right (`str::replace`).
pub open spec fn replace_all(s: Seq<char>, from: Seq<char>, to: Seq<char>) -> Seq<char>
    decreases s.len(),
{
    if from.len() == 0 {
        s
    } else {
        match next_occ(s, from, 0) {
            Some(i) => if 0 <= i && i + from.len() <= s.len() {
                s.take(i) + to + replace_all(s.skip(i + from.len()), from, to)
            } else {
                s
            },
            None => s,
        }
    }
}

/// Adds the `Z` to the first `DTSTART:` value where it is missing.
#[verifier::loop_isolation(false)]
fn add_utc_marker(input: &str) -> (r: String)
    ensures
        r@ == with_utc_marker(input@),
{
    let s = chars_of(input);
    let slen = s.len();
    let marker = chars_of("DTSTART:");
    proof {
        reveal_strlit("DTSTART:");
    }
    let i = match next_occurrence(&s, &marker, 0) {
        Some(i) => i,
        None => {
            return input.to_owned();
        },
    };
    let cs = i + 8;
    let ghost pr = value_end(s@, cs as int);
    let n = s.len() - cs;
    let mut k: usize = 0;
    while k < n
        invariant
            s@ == input@,
            cs + n == s@.len(),
            pr == value_end(s@, cs as int),
            k <= n,
            forall|j: int| 0 <= j < k ==> !#[trigger] pr(j),
        decreases n - k,
    {
        let c = s[cs + k];
        if is_whitespace(c) || c == '\n' {
            proof {
                assert(is_first(n as int, pr, k as int));
                lemma_first_match_at(n as int, pr, k as int);
            }
            let e = cs + k;
            if e > cs && s[e - 1] == 'Z' {
                return input.to_owned();
            }
            let mut out: Vec<char> = Vec::new();
            let mut j: usize = 0;
            while j < e
                invariant
                    j <= e,
                    e <= s@.len(),
                    out@ == s@.take(j as int),
                decreases e - j,
            {
                out.push(s[j]);
                j = j + 1;
                assert(out@ =~= s@.take(j as int));
            }
            out.push('Z');
            let mut m: usize = e;
            while m < s.len()
                invariant
                    e <= m <= s@.len(),
                    out@ == s@.take(e as int) + seq!['Z'] + s@.subrange(e as int, m as int),
                decreases s@.len() - m,
            {
                out.push(s[m]);
                m = m + 1;
                assert(out@ =~= s@.take(e as int) + seq!['Z'] + s@.subrange(e as int, m as int));
            }
            assert(s@.subrange(e as int, s@.len() as int) =~= s@.skip(e as int));
            return string_from_chars(out.as_slice());
        }
        k = k + 1;
    }
    proof {
        lemma_first_match_none(n as int, pr);
    }
    if s.len() > 0 && s[s.len() - 1] == 'Z' {
        input.to_owned()
    } else {
        let mut out = input.to_owned();
        out.append("Z");
        proof {
            reveal_strlit("Z");
            assert(out@ =~= input@.push('Z'));
        }
        out
    }
}

/// `str::replace` with text patterns.
fn replace_text(s: &str, from: &str, to: &str) -> (r: String)
    ensures
        r@ == replace_all(s@, from@, to@),
{
    let sc = chars_of(s);
    let fc = chars_of(from);
    if fc.len() == 0 {
        return s.to_owned();
    }
    let mut out = String::new();
    let mut pos: usize = 0;
    assert(sc@.skip(0) =~= sc@);
    loop
        invariant
            sc@ == s@,
            fc@ == from@,
            fc@.len() > 0,
            pos <= sc@.len(),
            out@ + replace_all(sc@.skip(pos as int), from@, to@) == replace_all(s@, from@, to@),
        decreases sc@.len() - pos,
    {
        let rest = string_from_chars(&sc.as_slice()[pos..sc.len()]);
        let rc = chars_of(rest.as_str());
        assert(rc@ =~= sc@.skip(pos as int));
        match next_occurrence(&rc, &fc, 0) {
            None => {
                out.append(rest.as_str());
                return out;
            },
            Some(i) => {
                let piece = string_from_chars(&rc.as_slice()[0..i]);
                assert(piece@ =~= rc@.take(i as int));
                out.append(piece.as_str());
                out.append(to);
                proof {
                    assert(rc@.skip(i + fc@.len()) =~= sc@.skip(pos + i + fc@.len()));
                }
                pos = pos + i + fc.len();
            },
        }
    }
}

/// The outcome of reading a schedule: its start and, for a repeating one,
/// its rule set as text; or why it was refused.
pub open spec fn schedule_error(e: Seq<char>, input: Seq<char>) -> Seq<char> {
    "Agent generated invalid RFC 5545 string: "@ + e + " (Input: "@ + input + ")"@
}

/// The schedule a `DTSTART`-only text names: the value of its first
/// `DTSTART:` line, trimmed, read by chrono.
pub open spec fn dtstart_only(normalized: Seq<char>, input: Seq<char>) -> Result<
    (UtcTimestamp, Option<Seq<char>>),
    Seq<char>,
> {
    match first_prefixed(lines_spec(normalized), "DTSTART:"@) {
        None => Err(
            "Agent generated invalid RFC 5545 string: missing DTSTART (Input: "@ + input + ")"@,
        ),
        Some(line) => match dtstart_parse(trim_spec(line.skip(8))) {
            Ok(t) => Ok((t, None)),
            Err(e) => Err(schedule_error("invalid DTSTART value: "@ + e, input)),
        },
    }
}

/// The content of a schedule result.
pub open spec fn schedule_view(r: Result<(UtcTimestamp, Option<String>), String>) -> Result<
    (UtcTimestamp, Option<Seq<char>>),
    Seq<char>,
> {
    match r {
        Ok((t, s)) => Ok((t, opt_text_view(s))),
        Err(e) => Err(e@),
    }
}

/// The content of an optional text.
pub open spec fn opt_text_view(o: Option<String>) -> Option<Seq<char>> {
    match o {
        Some(s) => Some(s@),
        None => None,
    }
}

/// What a parsed rule set gives: its start and, when it holds at least one
/// rule, its text; a parse error is reported with the input.
pub open spec fn rule_set_outcome(
    parsed: Result<(UtcTimestamp, usize, Seq<char>), Seq<char>>,
    input: Seq<char>,
) -> Result<(UtcTimestamp, Option<Seq<char>>), Seq<char>> {
    match parsed {
        Ok((start, count, text)) => Ok((start, if count == 0 { None } else { Some(text) })),
        Err(e) => Err(schedule_error(e, input)),
    }
}

/// The content of a parsed rule set: its start, rule count and text.
pub open spec fn parsed_view(p: Result<(UtcTimestamp, usize, String), String>) -> Result<
    (UtcTimestamp, usize, Seq<char>),
    Seq<char>,
> {
    match p {
        Ok((s, c, t)) => Ok((s, c, t@)),
        Err(e) => Err(e@),
    }
}

/// The schedule for a parsed rule set (its start, rule count and text), or
/// the parse error reported with the input.
pub fn schedule_from_rule_set(parsed: Result<(UtcTimestamp, usize, String), String>, input: &str) -> (r: Result<
    (UtcTimestamp, Option<String>),
    String,
>)
    ensures
        schedule_view(r) == rule_set_outcome(parsed_view(parsed), input@),
{
    match parsed {
        Ok((start, count, text)) => Ok((start, if count == 0 { None } else { Some(text) })),
        Err(e) => Err(concat5("Agent generated invalid RFC 5545 string: ", e.as_str(), " (Input: ", input, ")")),
    }
}

/// What reading the schedule `text` may give: for a text without rules,
/// exactly its `DTSTART` instant (or why not); for one with rules, what the
/// rule-set parser made of it.
pub open spec fn schedule_fits(text: Seq<char>, r: Result<(UtcTimestamp, Option<Seq<char>>), Seq<char>>) -> bool {
    let input = with_utc_marker(text);
    let normalized = replace_all(input, " RRULE:"@, "\nRRULE:"@);
    if !contains_spec(normalized, "RRULE:"@) {
        r == dtstart_only(normalized, input)
    } else if weekday_cut_unsafe(normalized) {
        r == Err::<(UtcTimestamp, Option<Seq<char>>), Seq<char>>(
            "Agent generated invalid RFC 5545 string: a weekday ends inside a multi-byte character (Input: "@ + input
                + ")"@,
        )
    } else {
        exists|parsed: Result<(UtcTimestamp, usize, Seq<char>), Seq<char>>| r == rule_set_outcome(parsed, input)
    }
}

/// Reads a schedule the model wrote: a `DTSTART:` instant (a missing `Z`
/// is added so it reads as UTC), optionally followed by `RRULE:` rules
/// (a space before `RRULE:` counts as a line break). A text without rules
/// gives its start alone.
#[verifier::loop_isolation(false)]
pub fn parse_agent_rrule(rrule_input: &str) -> (r: Result<(UtcTimestamp, Option<String>), String>)
    ensures
        schedule_fits(rrule_input@, schedule_view(r)),
{
    let input = add_utc_marker(rrule_input);
    let normalized = replace_text(input.as_str(), " RRULE:", "\nRRULE:");
    if !contains(normalized.as_str(), "RRULE:") {
        let lines = lines_of(normalized.as_str());
        let mut k: usize = 0;
        let ghost ls = texts(lines@);
        let ghost pr = prefixed(ls, "DTSTART:"@);
        while k < lines.len()
            invariant
                ls == texts(lines@),
                pr == prefixed(ls, "DTSTART:"@),
                k <= lines@.len(),
                forall|j: int| 0 <= j < k ==> !#[trigger] pr(j),
            decreases lines@.len() - k,
        {
            assert(ls[k as int] == lines@[k as int]@);
            if starts_with(lines[k].as_str(), "DTSTART:") {
                proof {
                    assert(is_first(ls.len() as int, pr, k as int));
                    lemma_first_match_at(ls.len() as int, pr, k as int);
                    reveal_strlit("DTSTART:");
                }
                let lc = chars_of(lines[k].as_str());
                let rest = string_from_chars(&lc.as_slice()[8..lc.len()]);
                assert(rest@ =~= lines@[k as int]@.skip(8));
                let value = trim(rest.as_str());
                return match parse_dtstart_value(value.as_str()) {
                    Ok(t) => Ok((t, None)),
                    Err(e) => {
                        let detail = concat3("invalid DTSTART value: ", "", e.as_str());
                        assert(detail@ =~= "invalid DTSTART value: "@ + e@) by {
                            reveal_strlit("");
                        }
                        Err(concat5("Agent generated invalid RFC 5545 string: ", detail.as_str(), " (Input: ", input.as_str(), ")"))
                    },
                };
            }
            k = k + 1;
        }
        proof {
            lemma_first_match_none(ls.len() as int, pr);
        }
        return Err(concat3("Agent generated invalid RFC 5545 string: missing DTSTART (Input: ", input.as_str(), ")"));
    }
    if has_unsafe_weekday_cut(normalized.as_str()) {
        return Err(concat3("Agent generated invalid RFC 5545 string: a weekday ends inside a multi-byte character (Input: ", input.as_str(), ")"));
    }
    let parsed = match parse_rrule_set(normalized.as_str()) {
        Ok(set) => Ok((rrule_set_start(&set), rrule_set_rule_count(&set), rrule_set_text(&set))),
        Err(e) => Err(e),
    };
    let ghost pv = parsed_view(parsed);
    let r = schedule_from_rule_set(parsed, input.as_str());
    assert(schedule_view(r) == rule_set_outcome(pv, input@));
    r
}

} // verus!
