//! A JSON document model.
//!
//! Objects keep their keys in strictly increasing order, as a sorted map does,
//! so two well-formed documents with the same content have the same view.
//! Numbers keep serde_json's three forms: non-negative integers, negative
//! integers, and floats (held by their IEEE-754 bit pattern).
use vstd::prelude::*;
use crate::text::{str_eq, text_less, text_lt, lemma_text_lt_irreflexive, lemma_text_lt_total, lemma_text_lt_transitive};

verus! {

/// An object's entries, keys strictly increasing.
pub type JsonMap = Vec<(String, JsonValue)>;

/// A JSON value.
#[derive(Debug)]
pub enum JsonValue {
    Null,
    Bool(bool),
    /// A non-negative integer.
    PosInt(u64),
    /// A negative integer.
    NegInt(i64),
    /// A float, by its shortest decimal rendering (serde_json's `Number` text).
    Float(String),
    Str(String),
    Array(Vec<JsonValue>),
    /// Key/value entries, keys strictly increasing.
    Object(Vec<(String, JsonValue)>),
}

/// The mathematical content of a JSON value.
pub enum JsonV {
    Null,
    Bool(bool),
    PosInt(u64),
    NegInt(i64),
    Float(Seq<char>),
    Str(Seq<char>),
    Array(Seq<JsonV>),
    Object(Seq<(Seq<char>, JsonV)>),
}

/// A float rendering read as a number: negative zero reads as zero.
pub open spec fn float_norm(t: Seq<char>) -> Seq<char> {
    if t == seq!['-', '0', '.', '0'] {
        seq!['0', '.', '0']
    } else {
        t
    }
}

/// A value as `==` on serde_json values sees it: floats compare as numbers,
/// so negative zero and zero are the same value.
pub open spec fn json_norm(v: JsonV) -> JsonV
    decreases v,
{
    match v {
        JsonV::Float(t) => JsonV::Float(float_norm(t)),
        JsonV::Array(xs) => JsonV::Array(items_norm(xs)),
        JsonV::Object(es) => JsonV::Object(entries_norm(es)),
        _ => v,
    }
}

/// `json_norm` on each item.
pub open spec fn items_norm(xs: Seq<JsonV>) -> Seq<JsonV>
    decreases xs,
{
    if xs.len() == 0 {
        Seq::empty()
    } else {
        items_norm(xs.subrange(0, xs.len() - 1)).push(json_norm(xs[xs.len() - 1]))
    }
}

/// `json_norm` on each entry's value.
pub open spec fn entries_norm(es: Seq<(Seq<char>, JsonV)>) -> Seq<(Seq<char>, JsonV)>
    decreases es,
{
    if es.len() == 0 {
        Seq::empty()
    } else {
        entries_norm(es.subrange(0, es.len() - 1)).push((es[es.len() - 1].0, json_norm(es[es.len() - 1].1)))
    }
}

/// `items_norm` keeps the length and normalises each item.
pub proof fn lemma_items_norm(xs: Seq<JsonV>)
    ensures
        items_norm(xs).len() == xs.len(),
        forall|i: int| 0 <= i < xs.len() ==> #[trigger] items_norm(xs)[i] == json_norm(xs[i]),
    decreases xs.len(),
{
    if xs.len() > 0 {
        let t = xs.subrange(0, xs.len() - 1);
        lemma_items_norm(t);
        assert forall|i: int| 0 <= i < xs.len() implies #[trigger] items_norm(xs)[i] == json_norm(xs[i]) by {
            if i < xs.len() - 1 {
                assert(t[i] == xs[i]);
            }
        }
    }
}

/// `entries_norm` keeps the length and the keys and normalises each value.
pub proof fn lemma_entries_norm(es: Seq<(Seq<char>, JsonV)>)
    ensures
        entries_norm(es).len() == es.len(),
        forall|i: int|
            0 <= i < es.len() ==> #[trigger] entries_norm(es)[i] == (es[i].0, json_norm(es[i].1)),
    decreases es.len(),
{
    if es.len() > 0 {
        let t = es.subrange(0, es.len() - 1);
        lemma_entries_norm(t);
        assert forall|i: int| 0 <= i < es.len() implies #[trigger] entries_norm(es)[i] == (
            es[i].0,
            json_norm(es[i].1),
        ) by {
            if i < es.len() - 1 {
                assert(t[i] == es[i]);
            }
        }
    }
}

pub open spec fn json_view(v: JsonValue) -> JsonV
    decreases v,
{
    match v {
        JsonValue::Null => JsonV::Null,
        JsonValue::Bool(b) => JsonV::Bool(b),
        JsonValue::PosInt(n) => JsonV::PosInt(n),
        JsonValue::NegInt(n) => if n >= 0 {
            JsonV::PosInt(n as u64)
        } else {
            JsonV::NegInt(n)
        },
        JsonValue::Float(t) => JsonV::Float(t@),
        JsonValue::Str(s) => JsonV::Str(s@),
        JsonValue::Array(items) => JsonV::Array(items_view(items@)),
        JsonValue::Object(es) => JsonV::Object(entries_view(es@)),
    }
}

pub open spec fn items_view(s: Seq<JsonValue>) -> Seq<JsonV>
    decreases s,
{
    if s.len() == 0 {
        Seq::empty()
    } else {
        items_view(s.subrange(0, s.len() - 1)).push(json_view(s[s.len() - 1]))
    }
}

pub open spec fn entries_view(s: Seq<(String, JsonValue)>) -> Seq<(Seq<char>, JsonV)>
    decreases s,
{
    if s.len() == 0 {
        Seq::empty()
    } else {
        entries_view(s.subrange(0, s.len() - 1)).push(
            (s[s.len() - 1].0@, json_view(s[s.len() - 1].1)),
        )
    }
}

impl View for JsonValue {
    type V = JsonV;

    open spec fn view(&self) -> JsonV {
        json_view(*self)
    }
}

pub proof fn lemma_items_view(s: Seq<JsonValue>)
    ensures
        items_view(s).len() == s.len(),
        forall|i: int| 0 <= i < s.len() ==> #[trigger] items_view(s)[i] == s[i]@,
    decreases s.len(),
{
    if s.len() > 0 {
        let t = s.subrange(0, s.len() - 1);
        lemma_items_view(t);
        assert forall|i: int| 0 <= i < s.len() implies #[trigger] items_view(s)[i] == s[i]@ by {
            if i < s.len() - 1 {
                assert(t[i] == s[i]);
            }
        }
    }
}

pub proof fn lemma_entries_view(s: Seq<(String, JsonValue)>)
    ensures
        entries_view(s).len() == s.len(),
        forall|i: int|
            0 <= i < s.len() ==> #[trigger] entries_view(s)[i] == (s[i].0@, s[i].1@),
    decreases s.len(),
{
    if s.len() > 0 {
        let t = s.subrange(0, s.len() - 1);
        lemma_entries_view(t);
        assert forall|i: int| 0 <= i < s.len() implies #[trigger] entries_view(s)[i] == (
        s[i].0@, s[i].1@) by {
            if i < s.len() - 1 {
                assert(t[i] == s[i]);
            }
        }
    }
}

/// Keys strictly increasing.
pub open spec fn keys_sorted(es: Seq<(Seq<char>, JsonV)>) -> bool {
    forall|i: int, j: int| 0 <= i < j < es.len() ==> text_lt(#[trigger] es[i].0, #[trigger] es[j].0)
}

/// Well-formed: every object, at every depth, has strictly increasing keys.
pub open spec fn json_wf(v: JsonV) -> bool
    decreases v,
{
    match v {
        JsonV::Array(xs) => forall|i: int| 0 <= i < xs.len() ==> json_wf(#[trigger] xs[i]),
        JsonV::Object(es) => keys_sorted(es) && forall|i: int|
            0 <= i < es.len() ==> json_wf(#[trigger] es[i].1),
        _ => true,
    }
}

/// Number of entries whose key sorts before `k`, counted from the front while
/// keys stay below `k`: the position where `k` is, or would be inserted.
pub open spec fn lower_bound(es: Seq<(Seq<char>, JsonV)>, k: Seq<char>) -> nat
    decreases es.len(),
{
    if es.len() > 0 && text_lt(es[0].0, k) {
        1 + lower_bound(es.drop_first(), k)
    } else {
        0
    }
}

/// The value stored under `k` in an object's entries.
pub open spec fn obj_get(es: Seq<(Seq<char>, JsonV)>, k: Seq<char>) -> Option<JsonV> {
    let p = lower_bound(es, k) as int;
    if p < es.len() && es[p].0 == k {
        Some(es[p].1)
    } else {
        None
    }
}

/// The entries after storing `v` under `k`, replacing any value already there.
pub open spec fn obj_insert(es: Seq<(Seq<char>, JsonV)>, k: Seq<char>, v: JsonV) -> Seq<
    (Seq<char>, JsonV),
> {
    let p = lower_bound(es, k) as int;
    if p < es.len() && es[p].0 == k {
        es.update(p, (k, v))
    } else {
        es.insert(p, (k, v))
    }
}

/// Keys in an object's entries.
pub open spec fn obj_has(es: Seq<(Seq<char>, JsonV)>, k: Seq<char>) -> bool {
    exists|i: int| 0 <= i < es.len() && #[trigger] es[i].0 == k
}

pub proof fn lemma_lower_bound_at(es: Seq<(Seq<char>, JsonV)>, k: Seq<char>, p: int)
    requires
        0 <= p <= es.len(),
        forall|i: int| 0 <= i < p ==> text_lt(#[trigger] es[i].0, k),
        p < es.len() ==> !text_lt(es[p].0, k),
    ensures
        lower_bound(es, k) == p,
    decreases es.len(),
{
    if p > 0 {
        assert(text_lt(es[0].0, k));
        let t = es.drop_first();
        assert forall|i: int| 0 <= i < p - 1 implies text_lt(#[trigger] t[i].0, k) by {
            assert(t[i] == es[i + 1]);
        }
        if p - 1 < t.len() {
            assert(t[p - 1] == es[p]);
        }
        lemma_lower_bound_at(t, k, p - 1);
    }
}

pub proof fn lemma_lower_bound_props(es: Seq<(Seq<char>, JsonV)>, k: Seq<char>)
    ensures
        lower_bound(es, k) <= es.len(),
        forall|i: int| 0 <= i < lower_bound(es, k) ==> text_lt(#[trigger] es[i].0, k),
        lower_bound(es, k) < es.len() ==> !text_lt(es[lower_bound(es, k) as int].0, k),
    decreases es.len(),
{
    if es.len() > 0 && text_lt(es[0].0, k) {
        let t = es.drop_first();
        lemma_lower_bound_props(t, k);
        assert forall|i: int| 0 <= i < lower_bound(es, k) implies text_lt(#[trigger] es[i].0, k) by {
            if i > 0 {
                assert(es[i] == t[i - 1]);
            }
        }
    }
}

/// In sorted entries, `obj_get` finds exactly the entry holding the key.
pub proof fn lemma_obj_get_sorted(es: Seq<(Seq<char>, JsonV)>, k: Seq<char>)
    requires
        keys_sorted(es),
    ensures
        obj_get(es, k) is Some <==> obj_has(es, k),
        forall|i: int| 0 <= i < es.len() && #[trigger] es[i].0 == k ==> obj_get(es, k) == Some(es[i].1),
{
    lemma_lower_bound_props(es, k);
    let p = lower_bound(es, k) as int;
    assert forall|i: int| 0 <= i < es.len() && #[trigger] es[i].0 == k implies obj_get(es, k) == Some(
        es[i].1,
    ) by {
        lemma_text_lt_irreflexive(k);
        if i < p {
            assert(text_lt(es[i].0, k));
        } else if i > p {
            assert(text_lt(es[p].0, es[i].0));
            lemma_text_lt_total(es[p].0, k);
            if es[p].0 != k {
                lemma_text_lt_transitive(k, es[p].0, es[i].0);
            }
        }
    }
    if obj_get(es, k) is Some {
        assert(es[p].0 == k);
    }
}

/// Inserting into sorted entries keeps them sorted.
pub proof fn lemma_obj_insert_sorted(es: Seq<(Seq<char>, JsonV)>, k: Seq<char>, v: JsonV)
    requires
        keys_sorted(es),
    ensures
        keys_sorted(obj_insert(es, k, v)),
        obj_insert(es, k, v).len() == es.len() + (if obj_has(es, k) { 0int } else { 1int }),
{
    lemma_lower_bound_props(es, k);
    lemma_obj_get_sorted(es, k);
    let p = lower_bound(es, k) as int;
    let r = obj_insert(es, k, v);
    if p < es.len() && es[p].0 == k {
        assert forall|i: int, j: int| 0 <= i < j < r.len() implies text_lt(
            #[trigger] r[i].0,
            #[trigger] r[j].0,
        ) by {
            assert(r[i].0 == es[i].0);
            assert(r[j].0 == es[j].0);
        }
    } else {
        if p < es.len() {
            lemma_text_lt_total(es[p].0, k);
        }
        assert forall|i: int, j: int| 0 <= i < j < r.len() implies text_lt(
            #[trigger] r[i].0,
            #[trigger] r[j].0,
        ) by {
            if j < p {
                assert(r[i] == es[i] && r[j] == es[j]);
            } else if j == p {
                assert(r[i] == es[i]);
            } else if i < p {
                assert(r[i] == es[i] && r[j] == es[j - 1]);
                if j - 1 > p {
                    assert(text_lt(es[p].0, es[j - 1].0));
                    lemma_text_lt_transitive(k, es[p].0, es[j - 1].0);
                }
                lemma_text_lt_transitive(es[i].0, k, es[j - 1].0);
            } else if i == p {
                assert(r[j] == es[j - 1]);
                if j - 1 > p {
                    assert(text_lt(es[p].0, es[j - 1].0));
                    lemma_text_lt_transitive(k, es[p].0, es[j - 1].0);
                }
            } else {
                assert(r[i] == es[i - 1] && r[j] == es[j - 1]);
            }
        }
        if obj_has(es, k) {
            let i = choose|i: int| 0 <= i < es.len() && #[trigger] es[i].0 == k;
            assert(obj_get(es, k) == Some(es[i].1));
        }
    }
}

/// Reading a key back after storing it gives the stored value; other keys are
/// unaffected.
pub proof fn lemma_obj_insert_get(es: Seq<(Seq<char>, JsonV)>, k: Seq<char>, v: JsonV, k2: Seq<char>)
    requires
        keys_sorted(es),
    ensures
        obj_get(obj_insert(es, k, v), k) == Some(v),
        k2 != k ==> obj_get(obj_insert(es, k, v), k2) == obj_get(es, k2),
{
    lemma_obj_insert_sorted(es, k, v);
    lemma_lower_bound_props(es, k);
    let p = lower_bound(es, k) as int;
    let r = obj_insert(es, k, v);
    assert(r[p] == (k, v));
    assert(r[p].0 == k);
    lemma_obj_get_sorted(r, k);
    lemma_obj_get_sorted(r, k2);
    lemma_obj_get_sorted(es, k2);
    if k2 != k {
        if obj_has(es, k2) {
            let i = choose|i: int| 0 <= i < es.len() && #[trigger] es[i].0 == k2;
            if p < es.len() && es[p].0 == k {
                assert(r[i] == es[i]);
            } else if i < p {
                assert(r[i] == es[i]);
            } else {
                assert(r[i + 1] == es[i]);
            }
        }
        if obj_has(r, k2) {
            let i = choose|i: int| 0 <= i < r.len() && #[trigger] r[i].0 == k2;
            if p < es.len() && es[p].0 == k {
                assert(es[i] == r[i]);
            } else if i < p {
                assert(es[i] == r[i]);
            } else {
                assert(i != p);
                assert(es[i - 1] == r[i]);
            }
        }
    }
}

/// In sorted entries, what `obj_get` finds in the entries after the first
/// is what it finds in the whole, except for the first key.
proof fn lemma_obj_get_tail(a: Seq<(Seq<char>, JsonV)>, k: Seq<char>)
    requires
        keys_sorted(a),
        a.len() > 0,
    ensures
        keys_sorted(a.drop_first()),
        obj_get(a.drop_first(), k) == if k == a[0].0 {
            None
        } else {
            obj_get(a, k)
        },
{
    let t = a.drop_first();
    assert(keys_sorted(t)) by {
        assert forall|i: int, j: int| 0 <= i < j < t.len() implies text_lt(#[trigger] t[i].0, #[trigger] t[j].0) by {
            assert(t[i] == a[i + 1] && t[j] == a[j + 1]);
        }
    }
    lemma_obj_get_sorted(a, k);
    lemma_obj_get_sorted(t, k);
    if obj_has(t, k) {
        let i = choose|i: int| 0 <= i < t.len() && #[trigger] t[i].0 == k;
        assert(a[i + 1] == t[i]);
        if k == a[0].0 {
            assert(text_lt(a[0].0, a[i + 1].0));
            lemma_text_lt_irreflexive(k);
        }
    } else if k != a[0].0 && obj_has(a, k) {
        let i = choose|i: int| 0 <= i < a.len() && #[trigger] a[i].0 == k;
        assert(t[i - 1] == a[i]);
    }
}

/// Two sorted entry lists that give the same value for every key are the
/// same list.
pub proof fn lemma_sorted_entries_ext(a: Seq<(Seq<char>, JsonV)>, b: Seq<(Seq<char>, JsonV)>)
    requires
        keys_sorted(a),
        keys_sorted(b),
        forall|k: Seq<char>| #[trigger] obj_get(a, k) == obj_get(b, k),
    ensures
        a == b,
    decreases a.len(),
{
    if a.len() == 0 || b.len() == 0 {
        if a.len() > 0 {
            lemma_obj_get_sorted(a, a[0].0);
            lemma_obj_get_sorted(b, a[0].0);
            assert(obj_get(a, a[0].0) == obj_get(b, a[0].0));
        }
        if b.len() > 0 {
            lemma_obj_get_sorted(a, b[0].0);
            lemma_obj_get_sorted(b, b[0].0);
            assert(obj_get(a, b[0].0) == obj_get(b, b[0].0));
        }
        assert(a =~= b);
    } else {
        let ka = a[0].0;
        let kb = b[0].0;
        lemma_obj_get_sorted(a, ka);
        lemma_obj_get_sorted(b, ka);
        lemma_obj_get_sorted(a, kb);
        lemma_obj_get_sorted(b, kb);
        assert(obj_get(a, ka) == obj_get(b, ka));
        assert(obj_get(a, kb) == obj_get(b, kb));
        if ka != kb {
            let j = choose|j: int| 0 <= j < b.len() && #[trigger] b[j].0 == ka;
            let i = choose|i: int| 0 <= i < a.len() && #[trigger] a[i].0 == kb;
            lemma_text_lt_total(ka, kb);
            lemma_text_lt_irreflexive(ka);
            if text_lt(ka, kb) {
                assert(j > 0);
                assert(text_lt(b[0].0, b[j].0));
                lemma_text_lt_transitive(ka, kb, ka);
            } else {
                assert(i > 0);
                assert(text_lt(a[0].0, a[i].0));
                lemma_text_lt_transitive(kb, ka, kb);
                lemma_text_lt_irreflexive(kb);
            }
        }
        assert(a[0] == b[0]);
        assert forall|k: Seq<char>| #[trigger] obj_get(a.drop_first(), k) == obj_get(b.drop_first(), k) by {
            lemma_obj_get_tail(a, k);
            lemma_obj_get_tail(b, k);
            assert(obj_get(a, k) == obj_get(b, k));
        }
        lemma_obj_get_tail(a, ka);
        lemma_obj_get_tail(b, ka);
        lemma_sorted_entries_ext(a.drop_first(), b.drop_first());
        assert(a =~= seq![a[0]] + a.drop_first());
        assert(b =~= seq![b[0]] + b.drop_first());
    }
}

/// Whether a key/value entry vector has strictly increasing keys.
pub open spec fn entries_wf(es: Seq<(String, JsonValue)>) -> bool {
    keys_sorted(entries_view(es))
}

/// The position of `key` in sorted entries, or where it would go.
pub fn entries_lower_bound(es: &Vec<(String, JsonValue)>, key: &str) -> (r: usize)
    ensures
        r == lower_bound(entries_view(es@), key@),
{
    proof {
        lemma_entries_view(es@);
    }
    let mut i: usize = 0;
    while i < es.len() && text_less(es[i].0.as_str(), key)
        invariant
            i <= es.len(),
            entries_view(es@).len() == es@.len(),
            forall|j: int| 0 <= j < es@.len() ==> #[trigger] entries_view(es@)[j] == (es@[j].0@, es@[j].1@),
            forall|j: int| 0 <= j < i ==> text_lt(#[trigger] entries_view(es@)[j].0, key@),
        decreases es.len() - i,
    {
        i = i + 1;
    }
    proof {
        lemma_lower_bound_at(entries_view(es@), key@, i as int);
    }
    i
}

/// The value stored under `key` in an object's entries.
pub fn entries_get<'a>(es: &'a Vec<(String, JsonValue)>, key: &str) -> (r: Option<&'a JsonValue>)
    ensures
        match r {
            Some(v) => obj_get(entries_view(es@), key@) == Some(v@),
            None => obj_get(entries_view(es@), key@) is None,
        },
{
    proof {
        lemma_entries_view(es@);
    }
    let p = entries_lower_bound(es, key);
    if p < es.len() && str_eq(es[p].0.as_str(), key) {
        Some(&es[p].1)
    } else {
        None
    }
}

/// Stores `value` under `key`, keeping keys sorted.
pub fn entries_insert(es: &mut Vec<(String, JsonValue)>, key: String, value: JsonValue)
    ensures
        entries_view(final(es)@) == obj_insert(entries_view(old(es)@), key@, value@),
{
    proof {
        lemma_entries_view(es@);
        lemma_lower_bound_props(entries_view(es@), key@);
    }
    let p = entries_lower_bound(es, key.as_str());
    let ghost k = key@;
    let ghost v = value@;
    let ghost old_es = es@;
    if p < es.len() && str_eq(es[p].0.as_str(), key.as_str()) {
        es.set(p, (key, value));
        proof {
            lemma_entries_view(es@);
            assert(entries_view(es@) =~= entries_view(old_es).update(p as int, (k, v)));
        }
    } else {
        es.insert(p, (key, value));
        proof {
            lemma_entries_view(es@);
            assert(entries_view(es@) =~= entries_view(old_es).insert(p as int, (k, v)));
        }
    }
}

/// A copy of a JSON value with the same content.
#[verifier::loop_isolation(false)]
pub fn json_clone(v: &JsonValue) -> (r: JsonValue)
    ensures
        r@ == v@,
    decreases v,
{
    match v {
        JsonValue::Null => JsonValue::Null,
        JsonValue::Bool(b) => JsonValue::Bool(*b),
        JsonValue::PosInt(n) => JsonValue::PosInt(*n),
        JsonValue::NegInt(n) => JsonValue::NegInt(*n),
        JsonValue::Float(t) => JsonValue::Float(t.clone()),
        JsonValue::Str(s) => JsonValue::Str(s.clone()),
        JsonValue::Array(items) => {
            let mut out: Vec<JsonValue> = Vec::new();
            let mut i: usize = 0;
            proof {
                lemma_items_view(items@);
            }
            while i < items.len()
                invariant
                    i <= items.len(),
                    out@.len() == i,
                    forall|j: int| 0 <= j < i ==> #[trigger] out@[j]@ == items@[j]@,
                decreases items.len() - i,
            {
                let c = json_clone(&items[i]);
                out.push(c);
                i = i + 1;
            }
            proof {
                lemma_items_view(out@);
                assert(items_view(out@) =~= items_view(items@));
            }
            JsonValue::Array(out)
        },
        JsonValue::Object(es) => {
            let mut out: Vec<(String, JsonValue)> = Vec::new();
            let mut i: usize = 0;
            proof {
                lemma_entries_view(es@);
            }
            while i < es.len()
                invariant
                    i <= es.len(),
                    out@.len() == i,
                    forall|j: int|
                        0 <= j < i ==> (#[trigger] out@[j]).0@ == es@[j].0@ && out@[j].1@
                            == es@[j].1@,
                decreases es.len() - i,
            {
                let c = json_clone(&es[i].1);
                out.push((es[i].0.clone(), c));
                i = i + 1;
            }
            proof {
                lemma_entries_view(out@);
                assert(entries_view(out@) =~= entries_view(es@));
            }
            JsonValue::Object(out)
        },
    }
}

/// Equality of JSON values as `serde_json::Value`'s `==` decides it: by
/// content, floats compared as numbers.
#[verifier::loop_isolation(false)]
pub fn json_eq(a: &JsonValue, b: &JsonValue) -> (r: bool)
    ensures
        r == (json_norm(a@) == json_norm(b@)),
    decreases a,
{
    match (a, b) {
        (JsonValue::Null, JsonValue::Null) => true,
        (JsonValue::Bool(x), JsonValue::Bool(y)) => *x == *y,
        (JsonValue::Str(x), JsonValue::Str(y)) => str_eq(x.as_str(), y.as_str()),
        (JsonValue::Array(xs), JsonValue::Array(ys)) => {
            proof {
                lemma_items_view(xs@);
                lemma_items_view(ys@);
                lemma_items_norm(items_view(xs@));
                lemma_items_norm(items_view(ys@));
            }
            if xs.len() != ys.len() {
                return false;
            }
            let mut i: usize = 0;
            while i < xs.len()
                invariant
                    i <= xs.len(),
                    xs.len() == ys.len(),
                    forall|j: int| 0 <= j < i ==> #[trigger] json_norm(xs@[j]@) == json_norm(ys@[j]@),
                decreases xs.len() - i,
            {
                if !json_eq(&xs[i], &ys[i]) {
                    proof {
                        assert(items_norm(items_view(xs@))[i as int] != items_norm(items_view(ys@))[i as int]);
                    }
                    return false;
                }
                i = i + 1;
            }
            proof {
                assert(items_norm(items_view(xs@)) =~= items_norm(items_view(ys@)));
            }
            true
        },
        (JsonValue::Object(xs), JsonValue::Object(ys)) => {
            proof {
                lemma_entries_view(xs@);
                lemma_entries_view(ys@);
                lemma_entries_norm(entries_view(xs@));
                lemma_entries_norm(entries_view(ys@));
            }
            if xs.len() != ys.len() {
                return false;
            }
            let mut i: usize = 0;
            while i < xs.len()
                invariant
                    i <= xs.len(),
                    xs.len() == ys.len(),
                    forall|j: int|
                        0 <= j < i ==> (#[trigger] xs@[j]).0@ == ys@[j].0@ && json_norm(xs@[j].1@)
                            == json_norm(ys@[j].1@),
                decreases xs.len() - i,
            {
                if !str_eq(xs[i].0.as_str(), ys[i].0.as_str()) || !json_eq(&xs[i].1, &ys[i].1) {
                    proof {
                        assert(entries_norm(entries_view(xs@))[i as int] != entries_norm(entries_view(ys@))[i as int]);
                    }
                    return false;
                }
                i = i + 1;
            }
            proof {
                assert(entries_norm(entries_view(xs@)) =~= entries_norm(entries_view(ys@)));
            }
            true
        },
        _ => number_eq(a, b),
    }
}

/// Whether two float renderings denote the same number.
fn float_text_eq(x: &str, y: &str) -> (r: bool)
    ensures
        r == (float_norm(x@) == float_norm(y@)),
{
    let nz = "-0.0";
    let z = "0.0";
    proof {
        reveal_strlit("-0.0");
        reveal_strlit("0.0");
    }
    let x2 = if str_eq(x, nz) { z } else { x };
    let y2 = if str_eq(y, nz) { z } else { y };
    proof {
        assert(nz@ =~= seq!['-', '0', '.', '0']);
        assert(z@ =~= seq!['0', '.', '0']);
    }
    str_eq(x2, y2)
}

/// Equality of two values of which at least one is a number or the kinds differ.
fn number_eq(a: &JsonValue, b: &JsonValue) -> (r: bool)
    requires
        !(a is Null && b is Null),
        !(a is Bool && b is Bool),
        !(a is Str && b is Str),
        !(a is Array && b is Array),
        !(a is Object && b is Object),
    ensures
        r == (json_norm(a@) == json_norm(b@)),
{
    match a {
        JsonValue::PosInt(x) => match b {
            JsonValue::PosInt(y) => *x == *y,
            JsonValue::NegInt(y) => *y >= 0 && *x == *y as u64,
            _ => false,
        },
        JsonValue::NegInt(x) => match b {
            JsonValue::PosInt(y) => *x >= 0 && *x as u64 == *y,
            JsonValue::NegInt(y) => *x == *y,
            _ => false,
        },
        JsonValue::Float(x) => match b {
            JsonValue::Float(y) => float_text_eq(x.as_str(), y.as_str()),
            _ => false,
        },
        _ => false,
    }
}

impl JsonValue {
    /// A JSON text value.
    pub fn text(s: &str) -> (r: JsonValue)
        ensures
            r@ == JsonV::Str(s@),
    {
        JsonValue::Str(s.to_owned())
    }

    /// A JSON integer in serde_json's form for `i64`.
    pub fn from_i64(n: i64) -> (r: JsonValue)
        ensures
            r@ == jv_from_i64(n),
    {
        if n >= 0 {
            JsonValue::PosInt(n as u64)
        } else {
            JsonValue::NegInt(n)
        }
    }

    /// An empty JSON object (`json!({})`).
    pub fn empty_object() -> (r: JsonValue)
        ensures
            r@ == JsonV::Object(Seq::empty()),
            json_wf(r@),
    {
        let es: Vec<(String, JsonValue)> = Vec::new();
        proof {
            assert(entries_view(es@) =~= Seq::empty());
        }
        JsonValue::Object(es)
    }

    /// `Value::get(key)`: the field of an object, `None` otherwise.
    pub fn get(&self, key: &str) -> (r: Option<&JsonValue>)
        ensures
            match r {
                Some(v) => jv_get(self@, key@) == Some(v@),
                None => jv_get(self@, key@) is None,
            },
    {
        match self {
            JsonValue::Object(es) => entries_get(es, key),
            _ => None,
        }
    }

    /// `Value::as_str`.
    pub fn as_str(&self) -> (r: Option<&str>)
        ensures
            match r {
                Some(s) => jv_as_str(self@) == Some(s@),
                None => jv_as_str(self@) is None,
            },
    {
        match self {
            JsonValue::Str(s) => Some(s.as_str()),
            _ => None,
        }
    }

    /// `Value::as_i64`.
    pub fn as_i64(&self) -> (r: Option<i64>)
        ensures
            r == jv_as_i64(self@),
    {
        match self {
            JsonValue::PosInt(n) => if *n <= 0x7fff_ffff_ffff_ffffu64 {
                Some(*n as i64)
            } else {
                None
            },
            JsonValue::NegInt(n) => Some(*n),
            _ => None,
        }
    }

    /// `Value::as_bool`.
    pub fn as_bool(&self) -> (r: Option<bool>)
        ensures
            r == jv_as_bool(self@),
    {
        match self {
            JsonValue::Bool(b) => Some(*b),
            _ => None,
        }
    }

    /// `Value::is_null`.
    pub fn is_null(&self) -> (r: bool)
        ensures
            r == (self@ is Null),
    {
        match self {
            JsonValue::Null => true,
            _ => false,
        }
    }

    /// `Value::as_object`: the entries of an object.
    pub fn as_object(&self) -> (r: Option<&Vec<(String, JsonValue)>>)
        ensures
            match r {
                Some(es) => self@ == JsonV::Object(entries_view(es@)),
                None => !(self@ is Object),
            },
    {
        match self {
            JsonValue::Object(es) => Some(es),
            _ => None,
        }
    }

    /// `Value::as_array`: the items of an array.
    pub fn as_array(&self) -> (r: Option<&Vec<JsonValue>>)
        ensures
            match r {
                Some(xs) => self@ == JsonV::Array(items_view(xs@)),
                None => !(self@ is Array),
            },
    {
        match self {
            JsonValue::Array(xs) => Some(xs),
            _ => None,
        }
    }
}

/// serde_json's form of an `i64`.
pub open spec fn jv_from_i64(n: i64) -> JsonV {
    if n >= 0 {
        JsonV::PosInt(n as u64)
    } else {
        JsonV::NegInt(n)
    }
}

pub open spec fn jv_get(v: JsonV, k: Seq<char>) -> Option<JsonV> {
    match v {
        JsonV::Object(es) => obj_get(es, k),
        _ => None,
    }
}

pub open spec fn jv_as_str(v: JsonV) -> Option<Seq<char>> {
    match v {
        JsonV::Str(s) => Some(s),
        _ => None,
    }
}

pub open spec fn jv_as_i64(v: JsonV) -> Option<i64> {
    match v {
        JsonV::PosInt(n) => if n <= 0x7fff_ffff_ffff_ffffu64 {
            Some(n as i64)
        } else {
            None
        },
        JsonV::NegInt(n) => Some(n),
        _ => None,
    }
}

pub open spec fn jv_as_bool(v: JsonV) -> Option<bool> {
    match v {
        JsonV::Bool(b) => Some(b),
        _ => None,
    }
}

/// The text under `k` of an object, if it is a text (`get(k).and_then(as_str)`).
pub open spec fn jv_get_str(v: JsonV, k: Seq<char>) -> Option<Seq<char>> {
    match jv_get(v, k) {
        Some(x) => jv_as_str(x),
        None => None,
    }
}

/// The integer under `k` (`get(k).and_then(as_i64)`).
pub open spec fn jv_get_i64(v: JsonV, k: Seq<char>) -> Option<i64> {
    match jv_get(v, k) {
        Some(x) => jv_as_i64(x),
        None => None,
    }
}

/// The boolean under `k` (`get(k).and_then(as_bool)`).
pub open spec fn jv_get_bool(v: JsonV, k: Seq<char>) -> Option<bool> {
    match jv_get(v, k) {
        Some(x) => jv_as_bool(x),
        None => None,
    }
}

impl JsonValue {
    /// `get(key).and_then(as_str)` as an owned text.
    pub fn get_string(&self, key: &str) -> (r: Option<String>)
        ensures
            match r {
                Some(s) => jv_get_str(self@, key@) == Some(s@),
                None => jv_get_str(self@, key@) is None,
            },
    {
        match self.get(key) {
            Some(v) => match v.as_str() {
                Some(s) => Some(s.to_owned()),
                None => None,
            },
            None => None,
        }
    }

    /// `get(key).and_then(as_i64)`.
    pub fn get_i64(&self, key: &str) -> (r: Option<i64>)
        ensures
            r == jv_get_i64(self@, key@),
    {
        match self.get(key) {
            Some(v) => v.as_i64(),
            None => None,
        }
    }

    /// `get(key).and_then(as_bool)`.
    pub fn get_bool(&self, key: &str) -> (r: Option<bool>)
        ensures
            r == jv_get_bool(self@, key@),
    {
        match self.get(key) {
            Some(v) => v.as_bool(),
            None => None,
        }
    }
}

} // verus!
