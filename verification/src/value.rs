//! The untyped settings payload: a JSON-shaped value made of null, booleans,
//! numbers, text, arrays and key/value objects.
//!
//! A number is carried as its decimal rendering; the engine never computes
//! with numbers, it only merges, validates and displays them, so the text
//! form preserves the caller's payload exactly.
//!
//! An object is a sequence of key/value pairs. Its mathematical view is a
//! `Map` in which a later pair wins over an earlier one with the same key;
//! the executable lookup and insert operations below match that reading, so
//! no uniqueness invariant is ever needed.

use vstd::prelude::*;

verus! {

/// Mathematical view of a settings value.
#[verifier::ext_equal]
pub enum ValueView {
    Null,
    Bool(bool),
    Num(Seq<char>),
    Text(Seq<char>),
    Arr(Seq<ValueView>),
    Obj(Map<Seq<char>, ValueView>),
}

/// An untyped, JSON-shaped settings value.
#[derive(Debug, PartialEq, Eq)]
pub enum SettingsValue {
    Null,
    Bool(bool),
    Num(String),
    Text(String),
    Arr(Vec<SettingsValue>),
    Obj(Vec<(String, SettingsValue)>),
}

/// View of one value; an object collapses to a map where the last pair with
/// a given key wins.
pub open spec fn value_view(v: SettingsValue) -> ValueView
    decreases v,
{
    match v {
        SettingsValue::Null => ValueView::Null,
        SettingsValue::Bool(b) => ValueView::Bool(b),
        SettingsValue::Num(s) => ValueView::Num(s@),
        SettingsValue::Text(s) => ValueView::Text(s@),
        SettingsValue::Arr(items) => ValueView::Arr(arr_view(items@)),
        SettingsValue::Obj(pairs) => ValueView::Obj(obj_view(pairs@)),
    }
}

/// Element-wise view of an array's items.
pub open spec fn arr_view(items: Seq<SettingsValue>) -> Seq<ValueView>
    decreases items,
{
    if items.len() == 0 {
        Seq::empty()
    } else {
        arr_view(items.drop_last()).push(value_view(items.last()))
    }
}

/// Map reading of a pair sequence: pairs are folded in order, so a later
/// pair overwrites an earlier one with the same key.
pub open spec fn obj_view(pairs: Seq<(String, SettingsValue)>) -> Map<Seq<char>, ValueView>
    decreases pairs,
{
    if pairs.len() == 0 {
        Map::empty()
    } else {
        obj_view(pairs.drop_last()).insert(pairs.last().0@, value_view(pairs.last().1))
    }
}

impl View for SettingsValue {
    type V = ValueView;

    open spec fn view(&self) -> ValueView {
        value_view(*self)
    }
}

impl SettingsValue {
    /// True of an object value; the merge and validation operations branch
    /// on this shape test.
    pub fn is_object(&self) -> (r: bool)
        ensures
            r == self@ is Obj,
    {
        match self {
            SettingsValue::Obj(_) => true,
            _ => false,
        }
    }

    /// True of the null value; validation treats a required field bound to
    /// null as missing.
    pub fn is_null(&self) -> (r: bool)
        ensures
            r == self@ is Null,
    {
        match self {
            SettingsValue::Null => true,
            _ => false,
        }
    }

    /// An exact copy.
    pub fn deep_clone(&self) -> (r: Self)
        ensures
            r@ == self@,
        decreases *self,
    {
        match self {
            SettingsValue::Null => SettingsValue::Null,
            SettingsValue::Bool(b) => SettingsValue::Bool(*b),
            SettingsValue::Num(s) => SettingsValue::Num(s.clone()),
            SettingsValue::Text(s) => SettingsValue::Text(s.clone()),
            SettingsValue::Arr(items) => SettingsValue::Arr(clone_items(items)),
            SettingsValue::Obj(pairs) => SettingsValue::Obj(clone_pairs(pairs)),
        }
    }
}

/// Element-wise copy of an array's items.
fn clone_items(items: &Vec<SettingsValue>) -> (r: Vec<SettingsValue>)
    ensures
        arr_view(r@) == arr_view(items@),
    decreases *items,
{
    let mut out: Vec<SettingsValue> = Vec::new();
    let mut i: usize = 0;
    while i < items.len()
        invariant
            i <= items@.len(),
            out@.len() == i,
            forall|j: int| 0 <= j < i ==> value_view(#[trigger] out@[j]) == value_view(items@[j]),
        decreases items@.len() - i,
    {
        proof {
            assert(decreases_to!(*items => items@[i as int]));
        }
        out.push(items[i].deep_clone());
        i += 1;
    }
    proof {
        lemma_arr_view_congruent(out@, items@);
    }
    out
}

/// Pair-wise copy of an object's pairs.
pub(crate) fn clone_pairs(pairs: &Vec<(String, SettingsValue)>) -> (r: Vec<(String, SettingsValue)>)
    ensures
        obj_view(r@) == obj_view(pairs@),
    decreases *pairs,
{
    let mut out: Vec<(String, SettingsValue)> = Vec::new();
    let mut i: usize = 0;
    while i < pairs.len()
        invariant
            i <= pairs@.len(),
            out@.len() == i,
            forall|j: int| 0 <= j < i ==> (#[trigger] out@[j]).0@ == pairs@[j].0@ && value_view(
                out@[j].1,
            ) == value_view(pairs@[j].1),
        decreases pairs@.len() - i,
    {
        let key = pairs[i].0.clone();
        proof {
            assert(decreases_to!(*pairs => pairs@[i as int].1));
        }
        let val = pairs[i].1.deep_clone();
        out.push((key, val));
        i += 1;
    }
    proof {
        lemma_obj_view_congruent(out@, pairs@);
    }
    out
}

/// Item sequences with equal element views have the same array view.
pub proof fn lemma_arr_view_congruent(a: Seq<SettingsValue>, b: Seq<SettingsValue>)
    requires
        a.len() == b.len(),
        forall|j: int| 0 <= j < a.len() ==> value_view(#[trigger] a[j]) == value_view(b[j]),
    ensures
        arr_view(a) == arr_view(b),
    decreases a,
{
    if a.len() > 0 {
        lemma_arr_view_congruent(a.drop_last(), b.drop_last());
    }
}

/// Pair sequences with equal keys and element views have the same map view.
pub proof fn lemma_obj_view_congruent(
    a: Seq<(String, SettingsValue)>,
    b: Seq<(String, SettingsValue)>,
)
    requires
        a.len() == b.len(),
        forall|j: int| 0 <= j < a.len() ==> (#[trigger] a[j]).0@ == b[j].0@ && value_view(a[j].1)
            == value_view(b[j].1),
    ensures
        obj_view(a) == obj_view(b),
    decreases a,
{
    if a.len() > 0 {
        lemma_obj_view_congruent(a.drop_last(), b.drop_last());
        assert(obj_view(a) =~= obj_view(b));
    } else {
        assert(obj_view(a) =~= obj_view(b));
    }
}

/// The value the last pair with a given key carries, if any: the pair
/// sequence's own reading of a lookup, before it collapses to the map view.
pub open spec fn obj_lookup(pairs: Seq<(String, SettingsValue)>, k: Seq<char>) -> Option<
    SettingsValue,
>
    decreases pairs,
{
    if pairs.len() == 0 {
        None
    } else if pairs.last().0@ == k {
        Some(pairs.last().1)
    } else {
        obj_lookup(pairs.drop_last(), k)
    }
}

/// Looks a key up in a pair sequence; the last pair with the key wins, in
/// agreement with the map view.
pub fn obj_get<'a>(pairs: &'a Vec<(String, SettingsValue)>, key: &str) -> (r: Option<
    &'a SettingsValue,
>)
    ensures
        match r {
            Some(v) => obj_lookup(pairs@, key@) == Some(*v) && obj_view(pairs@).contains_key(key@)
                && v@ == obj_view(pairs@)[key@],
            None => obj_lookup(pairs@, key@) is None && !obj_view(pairs@).contains_key(key@),
        },
{
    let mut i: usize = pairs.len();
    while i > 0
        invariant
            i <= pairs@.len(),
            forall|j: int| i <= j < pairs@.len() ==> #[trigger] pairs@[j].0@ != key@,
        decreases i,
    {
        i -= 1;
        if crate::text::str_eq(pairs[i].0.as_str(), key) {
            proof {
                lemma_obj_view_last_match(pairs@, key@, i as int);
                lemma_obj_lookup_last_match(pairs@, key@, i as int);
            }
            return Some(&pairs[i].1);
        }
    }
    proof {
        lemma_obj_view_no_match(pairs@, key@);
        lemma_obj_lookup_no_match(pairs@, key@);
    }
    None
}

/// The boolean a settings object carries under a key, or the fallback when
/// the value is absent or of another shape.
pub open spec fn spec_get_bool(v: SettingsValue, k: Seq<char>, default: bool) -> bool {
    match v {
        SettingsValue::Obj(pairs) => match obj_lookup(pairs@, k) {
            Some(SettingsValue::Bool(b)) => b,
            _ => default,
        },
        _ => default,
    }
}

/// Reads a boolean setting, falling back to the field's default whenever
/// the value is absent or not a boolean; decoding never fails.
pub fn get_bool(v: &SettingsValue, key: &str, default: bool) -> (r: bool)
    ensures
        r == spec_get_bool(*v, key@, default),
{
    match v {
        SettingsValue::Obj(pairs) => match obj_get(pairs, key) {
            Some(val) => match val {
                SettingsValue::Bool(b) => *b,
                _ => default,
            },
            None => default,
        },
        _ => default,
    }
}

/// The text a settings object carries under a key, or the fallback.
pub open spec fn spec_get_text(v: SettingsValue, k: Seq<char>, default: Seq<char>) -> Seq<char> {
    match v {
        SettingsValue::Obj(pairs) => match obj_lookup(pairs@, k) {
            Some(SettingsValue::Text(s)) => s@,
            _ => default,
        },
        _ => default,
    }
}

/// Reads a text setting, falling back to the given default whenever the
/// value is absent or not text; decoding never fails.
pub fn get_text(v: &SettingsValue, key: &str, default: &str) -> (r: String)
    ensures
        r@ == spec_get_text(*v, key@, default@),
{
    match v {
        SettingsValue::Obj(pairs) => match obj_get(pairs, key) {
            Some(val) => match val {
                SettingsValue::Text(s) => s.clone(),
                _ => default.to_owned(),
            },
            None => default.to_owned(),
        },
        _ => default.to_owned(),
    }
}

/// The rendering of the number a settings object carries under a key, or
/// the fallback.
pub open spec fn spec_get_num_text(v: SettingsValue, k: Seq<char>, default: Seq<char>) -> Seq<
    char,
> {
    match v {
        SettingsValue::Obj(pairs) => match obj_lookup(pairs@, k) {
            Some(SettingsValue::Num(s)) => s@,
            _ => default,
        },
        _ => default,
    }
}

/// Reads a numeric setting as its decimal rendering, falling back to the
/// given default whenever the value is absent or not a number.
pub fn get_num_text(v: &SettingsValue, key: &str, default: &str) -> (r: String)
    ensures
        r@ == spec_get_num_text(*v, key@, default@),
{
    match v {
        SettingsValue::Obj(pairs) => match obj_get(pairs, key) {
            Some(val) => match val {
                SettingsValue::Num(s) => s.clone(),
                _ => default.to_owned(),
            },
            None => default.to_owned(),
        },
        _ => default.to_owned(),
    }
}

/// If `s[i]` is the last pair carrying key `k`, the lookup returns its
/// value.
proof fn lemma_obj_lookup_last_match(s: Seq<(String, SettingsValue)>, k: Seq<char>, i: int)
    requires
        0 <= i < s.len(),
        s[i].0@ == k,
        forall|j: int| i < j < s.len() ==> #[trigger] s[j].0@ != k,
    ensures
        obj_lookup(s, k) == Some(s[i].1),
    decreases s,
{
    if i < s.len() - 1 {
        lemma_obj_lookup_last_match(s.drop_last(), k, i);
    }
}

/// A key carried by no pair has no lookup result.
proof fn lemma_obj_lookup_no_match(s: Seq<(String, SettingsValue)>, k: Seq<char>)
    requires
        forall|j: int| 0 <= j < s.len() ==> #[trigger] s[j].0@ != k,
    ensures
        obj_lookup(s, k) is None,
    decreases s,
{
    if s.len() > 0 {
        lemma_obj_lookup_no_match(s.drop_last(), k);
    }
}

/// Replaces the last pair carrying `key`, or appends a new pair; either way
/// the map view gains exactly the binding `key -> val`.
pub fn obj_insert(pairs: &mut Vec<(String, SettingsValue)>, key: String, val: SettingsValue)
    ensures
        obj_view(final(pairs)@) == obj_view(old(pairs)@).insert(key@, value_view(val)),
{
    let mut i: usize = pairs.len();
    while i > 0
        invariant
            i <= pairs@.len(),
            *pairs == *old(pairs),
            forall|j: int| i <= j < pairs@.len() ==> #[trigger] pairs@[j].0@ != key@,
        decreases i,
    {
        i -= 1;
        if crate::text::str_eq(pairs[i].0.as_str(), key.as_str()) {
            proof {
                let p = (key, val);
                lemma_obj_view_update(pairs@, i as int, p);
            }
            pairs[i] = (key, val);
            return ;
        }
    }
    proof {
        lemma_obj_view_no_match(pairs@, key@);
    }
    let ghost s0 = pairs@;
    pairs.push((key, val));
    proof {
        assert(pairs@.drop_last() =~= s0);
        assert(obj_view(pairs@) =~= obj_view(s0).insert(pairs@.last().0@, value_view(
            pairs@.last().1,
        )));
    }
}

/// If `s[i]` is the last pair carrying key `k`, the map view binds `k` to
/// that pair's value.
proof fn lemma_obj_view_last_match(s: Seq<(String, SettingsValue)>, k: Seq<char>, i: int)
    requires
        0 <= i < s.len(),
        s[i].0@ == k,
        forall|j: int| i < j < s.len() ==> #[trigger] s[j].0@ != k,
    ensures
        obj_view(s).contains_key(k),
        obj_view(s)[k] == value_view(s[i].1),
    decreases s,
{
    if i < s.len() - 1 {
        lemma_obj_view_last_match(s.drop_last(), k, i);
    }
}

/// A key carried by no pair is absent from the map view.
proof fn lemma_obj_view_no_match(s: Seq<(String, SettingsValue)>, k: Seq<char>)
    requires
        forall|j: int| 0 <= j < s.len() ==> #[trigger] s[j].0@ != k,
    ensures
        !obj_view(s).contains_key(k),
    decreases s,
{
    if s.len() > 0 {
        lemma_obj_view_no_match(s.drop_last(), k);
    }
}

/// Overwriting the last pair carrying a key updates exactly that binding of
/// the map view.
proof fn lemma_obj_view_update(s: Seq<(String, SettingsValue)>, i: int, p: (String, SettingsValue))
    requires
        0 <= i < s.len(),
        s[i].0@ == p.0@,
        forall|j: int| i < j < s.len() ==> #[trigger] s[j].0@ != p.0@,
    ensures
        obj_view(s.update(i, p)) == obj_view(s).insert(p.0@, value_view(p.1)),
    decreases s,
{
    if i == s.len() - 1 {
        assert(s.update(i, p).drop_last() =~= s.drop_last());
        assert(obj_view(s.update(i, p)) =~= obj_view(s).insert(p.0@, value_view(p.1)));
    } else {
        lemma_obj_view_update(s.drop_last(), i, p);
        assert(s.update(i, p).drop_last() =~= s.drop_last().update(i, p));
        assert(s.update(i, p).last() == s.last());
        assert(obj_view(s.update(i, p)) =~= obj_view(s).insert(p.0@, value_view(p.1)));
    }
}

} // verus!
