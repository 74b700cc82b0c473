//! The lite server's account rules: which sign-up and sign-in requests are
//! accepted, and how passwords are checked.
use vstd::prelude::*;
use crate::text::{trim, trim_spec, chars_of, owned};
use crate::json::{JsonValue, JsonV, entries_view, lemma_entries_view, jv_from_i64};
use crate::encode::{object_of, object_from_pairs};

verus! {

/// The HTTP outcomes the account rules produce.
#[derive(Clone, Copy, Debug, PartialEq, Eq, Structural)]
pub enum StatusCode {
    BadRequest,
    Unauthorized,
    InternalServerError,
}

impl StatusCode {
    /// The numeric HTTP status.
    pub fn code(&self) -> (r: u16)
        ensures
            r == match *self {
                StatusCode::BadRequest => 400u16,
                StatusCode::Unauthorized => 401u16,
                StatusCode::InternalServerError => 500u16,
            },
    {
        match self {
            StatusCode::BadRequest => 400,
            StatusCode::Unauthorized => 401,
            StatusCode::InternalServerError => 500,
        }
    }
}

/// A new password must be at least this many bytes long once trimmed.
pub const MIN_PASSWORD_LENGTH: usize = 12;

/// A new password must reach at least this strength score (0 to 4).
pub const MIN_PASSWORD_SCORE: u8 = 3;

/// The bytes one character takes in UTF-8.
pub open spec fn utf8_width(c: char) -> nat {
    if (c as u32) < 0x80 {
        1
    } else if (c as u32) < 0x800 {
        2
    } else if (c as u32) < 0x10000 {
        3
    } else {
        4
    }
}

/// The bytes a text takes in UTF-8 (`str::len`).
pub open spec fn utf8_len(s: Seq<char>) -> nat
    decreases s.len(),
{
    if s.len() == 0 {
        0
    } else {
        utf8_len(s.drop_last()) + utf8_width(s.last())
    }
}

/// The UTF-8 length of a text, counted up to `cap` (a text at least `cap`
/// bytes long gives `cap`).
pub fn utf8_len_capped(s: &str, cap: usize) -> (r: usize)
    ensures
        r == if utf8_len(s@) < cap {
            utf8_len(s@)
        } else {
            cap as nat
        },
{
    if cap == 0 {
        return 0;
    }
    let cs = chars_of(s);
    let mut total: usize = 0;
    let mut i: usize = 0;
    while i < cs.len()
        invariant
            cs@ == s@,
            i <= cs@.len(),
            total == utf8_len(s@.take(i as int)),
            total < cap,
        decreases cs@.len() - i,
    {
        proof {
            assert(s@.take(i + 1).drop_last() =~= s@.take(i as int));
            assert(s@.take(i + 1).last() == cs@[i as int]);
        }
        let c = cs[i] as u32;
        let w: usize = if c < 0x80 {
            1
        } else if c < 0x800 {
            2
        } else if c < 0x10000 {
            3
        } else {
            4
        };
        if w >= cap - total {
            proof {
                lemma_utf8_len_prefix_mono(s@, i + 1);
            }
            return cap;
        }
        total = total + w;
        i = i + 1;
    }
    assert(s@.take(cs@.len() as int) =~= s@);
    total
}

/// A longer prefix takes at least as many bytes.
pub proof fn lemma_utf8_len_prefix_mono(s: Seq<char>, k: int)
    requires
        0 <= k <= s.len(),
    ensures
        utf8_len(s.take(k)) <= utf8_len(s),
    decreases s.len() - k,
{
    if k < s.len() {
        lemma_utf8_len_prefix_mono(s, k + 1);
        assert(s.take(k + 1).drop_last() =~= s.take(k));
    } else {
        assert(s.take(k) =~= s);
    }
}

/// A field with its surrounding white space removed, unless nothing else
/// is left.
pub fn required_trimmed(value: &str) -> (r: Option<String>)
    ensures
        match r {
            Some(t) => trim_spec(value@).len() > 0 && t@ == trim_spec(value@),
            None => trim_spec(value@).len() == 0,
        },
{
    let t = trim(value);
    if t.as_str().unicode_len() == 0 {
        None
    } else {
        Some(t)
    }
}

/// A sign-in password must not be blank.
pub fn ensure_password_present(password: &str) -> (r: Result<(), StatusCode>)
    ensures
        r == if trim_spec(password@).len() == 0 {
            Err::<(), StatusCode>(StatusCode::BadRequest)
        } else {
            Ok::<(), StatusCode>(())
        },
{
    let t = trim(password);
    if t.as_str().unicode_len() == 0 {
        Err(StatusCode::BadRequest)
    } else {
        Ok(())
    }
}

/// The strength zxcvbn gives a password, knowing the user's own details
/// (0 to 4).
pub uninterp spec fn zxcvbn_score(password: Seq<char>, user_inputs: Seq<Seq<char>>) -> u8;

/// The texts of a list of string slices.
pub open spec fn slice_texts(v: Seq<&str>) -> Seq<Seq<char>> {
    v.map_values(|s: &str| s@)
}

/// Rates a password with `zxcvbn::zxcvbn` and returns its score as a
/// number (`u8::from(Score)`), at most 4. The contract names the score: it
/// depends on the password and the user's details alone.
#[verifier::external_body]
fn password_strength(password: &str, user_inputs: &[&str]) -> (r: u8)
    ensures
        r == zxcvbn_score(password@, slice_texts(user_inputs@)),
        r <= 4,
{
    u8::from(zxcvbn::zxcvbn(password, user_inputs).score())
}

/// A new password is accepted when, trimmed, it is at least twelve bytes
/// long and scores at least 3 against the user's own details.
pub fn validate_new_password(password: &str, user_inputs: &[&str]) -> (r: Result<(), StatusCode>)
    ensures
        r == if utf8_len(trim_spec(password@)) < MIN_PASSWORD_LENGTH {
            Err::<(), StatusCode>(StatusCode::BadRequest)
        } else if zxcvbn_score(trim_spec(password@), slice_texts(user_inputs@)) < MIN_PASSWORD_SCORE {
            Err::<(), StatusCode>(StatusCode::BadRequest)
        } else {
            Ok::<(), StatusCode>(())
        },
{
    let trimmed = trim(password);
    if utf8_len_capped(trimmed.as_str(), MIN_PASSWORD_LENGTH) < MIN_PASSWORD_LENGTH {
        return Err(StatusCode::BadRequest);
    }
    if password_strength(trimmed.as_str(), user_inputs) < MIN_PASSWORD_SCORE {
        return Err(StatusCode::BadRequest);
    }
    Ok(())
}

/// Whether bcrypt accepts `password` for the stored `hash`.
pub uninterp spec fn bcrypt_matches(password: Seq<char>, hash: Seq<char>) -> bool;

/// Hashes a password with `bcrypt::hash` at `bcrypt::DEFAULT_COST`; `None`
/// where bcrypt fails. The salt is random, so the hash itself is left open;
/// what is promised is that bcrypt accepts the password for it.
#[verifier::external_body]
pub(crate) fn hash_password(password: &str) -> (r: Option<String>)
    ensures
        r matches Some(h) ==> bcrypt_matches(password@, h@),
{
    match bcrypt::hash(password, bcrypt::DEFAULT_COST) {
        Ok(h) => Some(h),
        Err(_) => None,
    }
}

/// Checks a password against a stored hash with `bcrypt::verify`, an error
/// counting as a mismatch. The contract names the answer.
#[verifier::external_body]
pub(crate) fn password_matches(password: &str, hash: &str) -> (r: bool)
    ensures
        r == bcrypt_matches(password@, hash@),
{
    match bcrypt::verify(password, hash) {
        Ok(b) => b,
        Err(_) => false,
    }
}

/// What a sign-up request leaves to store: the trimmed first name, last
/// name and email.
pub open spec fn registration_spec(
    first_name: Seq<char>,
    last_name: Option<Seq<char>>,
    email: Seq<char>,
    password: Seq<char>,
) -> Result<(Seq<char>, Seq<char>, Seq<char>), StatusCode> {
    let first = trim_spec(first_name);
    let mail = trim_spec(email);
    let last = trim_spec(
        match last_name {
            Some(l) => l,
            None => Seq::empty(),
        },
    );
    if first.len() == 0 || mail.len() == 0 {
        Err(StatusCode::BadRequest)
    } else if utf8_len(trim_spec(password)) < MIN_PASSWORD_LENGTH {
        Err(StatusCode::BadRequest)
    } else if zxcvbn_score(trim_spec(password), seq![first, last, mail]) < MIN_PASSWORD_SCORE {
        Err(StatusCode::BadRequest)
    } else {
        Ok((first, last, mail))
    }
}

/// Checks a sign-up request: first name and email must not be blank, and
/// the password must be strong against the user's own details.
pub fn validate_registration(
    first_name: &str,
    last_name: Option<String>,
    email: &str,
    password: &str,
) -> (r: Result<(String, String, String), StatusCode>)
    ensures
        match r {
            Ok((f, l, m)) => registration_spec(first_name@, crate::ticket::opt_text(last_name), email@, password@)
                == Ok::<(Seq<char>, Seq<char>, Seq<char>), StatusCode>((f@, l@, m@)),
            Err(e) => registration_spec(first_name@, crate::ticket::opt_text(last_name), email@, password@)
                == Err::<(Seq<char>, Seq<char>, Seq<char>), StatusCode>(e),
        },
{
    let first = match required_trimmed(first_name) {
        Some(f) => f,
        None => {
            return Err(StatusCode::BadRequest);
        },
    };
    let mail = match required_trimmed(email) {
        Some(m) => m,
        None => {
            return Err(StatusCode::BadRequest);
        },
    };
    let last = match &last_name {
        Some(l) => trim(l.as_str()),
        None => {
            proof {
                reveal_strlit("");
            }
            let t = trim("");
            t
        },
    };
    proof {
        if last_name is None {
            assert(""@ =~= Seq::<char>::empty());
        }
    }
    let inputs: Vec<&str> = vec![first.as_str(), last.as_str(), mail.as_str()];
    assert(slice_texts(inputs@) =~= seq![first@, last@, mail@]);
    match validate_new_password(password, inputs.as_slice()) {
        Err(e) => Err(e),
        Ok(()) => Ok((first, last, mail)),
    }
}

/// Hashes the password of a new account for storage; a failure of the
/// hashing answers 500. Whatever hash comes back, bcrypt accepts the
/// password for it.
pub fn hash_new_password(password: &str) -> (r: Result<String, StatusCode>)
    ensures
        r matches Ok(h) ==> bcrypt_matches(password@, h@),
        r matches Err(e) ==> e == StatusCode::InternalServerError,
{
    match hash_password(password) {
        Some(h) => Ok(h),
        None => Err(StatusCode::InternalServerError),
    }
}

/// A sign-in is accepted when the password matches the stored hash.
pub fn check_login_password(password: &str, stored_hash: &str) -> (r: Result<(), StatusCode>)
    ensures
        r == if bcrypt_matches(password@, stored_hash@) {
            Ok::<(), StatusCode>(())
        } else {
            Err::<(), StatusCode>(StatusCode::Unauthorized)
        },
{
    if password_matches(password, stored_hash) {
        Ok(())
    } else {
        Err(StatusCode::Unauthorized)
    }
}

/// The user a ticket request is for when it names none.
pub const DEFAULT_USER_ID: i64 = 1;

/// The user a ticket request is for: the one it names, else the default.
pub fn requested_user_id(userid: Option<i64>) -> (r: i64)
    ensures
        r == match userid {
            Some(u) => u,
            None => DEFAULT_USER_ID,
        },
{
    match userid {
        Some(u) => u,
        None => DEFAULT_USER_ID,
    }
}

/// The answer to a stored ticket: its id, its user and `"created"`.
pub open spec fn created_reply_json(id: Seq<char>, userid: i64) -> JsonV {
    object_of(
        seq![("id"@, JsonV::Str(id)), ("userid"@, jv_from_i64(userid)), ("status"@, JsonV::Str("created"@))],
    )
}

/// Builds the answer to a stored ticket.
pub fn created_ticket_reply(id: &str, userid: i64) -> (r: JsonValue)
    ensures
        r@ == created_reply_json(id@, userid),
{
    let mut pairs: Vec<(String, JsonValue)> = Vec::new();
    pairs.push((owned("id"), JsonValue::text(id)));
    pairs.push((owned("userid"), JsonValue::from_i64(userid)));
    pairs.push((owned("status"), JsonValue::text("created")));
    proof {
        lemma_entries_view(pairs@);
        assert(entries_view(pairs@) =~= seq![
            ("id"@, JsonV::Str(id@)),
            ("userid"@, jv_from_i64(userid)),
            ("status"@, JsonV::Str("created"@)),
        ]);
    }
    object_from_pairs(pairs)
}

} // verus!
