//! SQL predicate fragments and in-memory grouping of fetched rows.
use vstd::prelude::*;
use std::collections::HashMap;
use std::hash::Hash;
use vstd::std_specs::hash::obeys_key_model;

verus! {

broadcast use vstd::std_specs::hash::group_hash_axioms;

/// Regular expression that matches a sort key opening with any kana; used to
/// tell which names fall outside every gojūon column.
pub const KANA_PATTERN: &'static str = "^[あいうえおか-もやゆよら-ろわをんアイウエオカ-モヤユヨラ-ロワヲンヴ]";

/// `work_status_id` values of works that are still being prepared (not published).
pub const WIP_WORK_STATUS_IDS: &'static str = "3,4,5,6,7,8,9,10,11";

/// The SQL predicate selecting unpublished works of alias `w`, for the date
/// placeholder `date_param`: a preparation status, or published status with a
/// start date after the reference date.  The whole predicate is parenthesised.
pub open spec fn wip_predicate_text(date_param: Seq<char>) -> Seq<char> {
    "(w.work_status_id IN ("@ + "3,4,5,6,7,8,9,10,11"@
        + ") OR (w.work_status_id = 1 AND w.started_on > "@ + date_param + "))"@
}

/// The SQL predicate selecting published works of alias `w` for the date
/// placeholder `date_param`.
pub open spec fn published_predicate_text(date_param: Seq<char>) -> Seq<char> {
    "w.work_status_id = 1 AND w.started_on <= "@ + date_param
}

/// Builds the predicate for unpublished works (see [`wip_predicate_text`]).
pub fn wip_work_predicate(date_param: &str) -> (r: String)
    ensures
        r@ == wip_predicate_text(date_param@),
{
    let mut s = String::from_str("(w.work_status_id IN (");
    s.append(WIP_WORK_STATUS_IDS);
    s.append(") OR (w.work_status_id = 1 AND w.started_on > ");
    s.append(date_param);
    s.append("))");
    s
}

/// Builds the predicate for published works (see [`published_predicate_text`]).
pub fn published_work_predicate(date_param: &str) -> (r: String)
    ensures
        r@ == published_predicate_text(date_param@),
{
    let mut s = String::from_str("w.work_status_id = 1 AND w.started_on <= ");
    s.append(date_param);
    s
}

/// Items grouped by their keys: each key that occurs maps to the items
/// carrying it, in their original order.
pub open spec fn grouped<E, K>(items: Seq<E>, keys: Seq<K>) -> Map<K, Seq<E>>
    decreases items.len(),
{
    if items.len() == 0 || keys.len() == 0 {
        Map::empty()
    } else {
        let m = grouped(items.drop_last(), keys.drop_last());
        let k = keys.last();
        let prev = if m.contains_key(k) { m[k] } else { Seq::empty() };
        m.insert(k, prev.push(items.last()))
    }
}

/// The sequences held by a map of vectors.
pub open spec fn vec_map_view<K, E>(m: Map<K, Vec<E>>) -> Map<K, Seq<E>> {
    m.map_values(|v: Vec<E>| v@)
}

/// References to each element of `items`.
pub open spec fn refs<'a, T>(items: Seq<T>) -> Seq<&'a T> {
    Seq::new(items.len(), |i: int| &items[i])
}

/// Groups `items` by `key_fn`: every key that some item yields maps to the
/// items that yield it, in their original order.
pub fn group_by<'a, T, K: Eq + Hash, F: Fn(&T) -> K>(items: &'a [T], key_fn: F) -> (result: HashMap<K, Vec<&'a T>>)
    requires
        forall|i: int| 0 <= i < items@.len() ==> call_requires(key_fn, (&items@[i],)),
    ensures
        exists|keys: Seq<K>|
            {
                &&& keys.len() == items@.len()
                &&& forall|i: int| 0 <= i < items@.len() ==> call_ensures(key_fn, (&items@[i],), #[trigger] keys[i])
                &&& obeys_key_model::<K>() ==> vec_map_view(result@) == grouped(refs(items@), keys)
            },
{
    let mut map: HashMap<K, Vec<&'a T>> = HashMap::new();
    let ghost mut keys: Seq<K> = Seq::empty();
    let mut i: usize = 0;
    while i < items.len()
        invariant
            i <= items.len(),
            keys.len() == i,
            forall|j: int| 0 <= j < items@.len() ==> call_requires(key_fn, (&items@[j],)),
            forall|j: int| 0 <= j < i ==> call_ensures(key_fn, (&items@[j],), #[trigger] keys[j]),
            obeys_key_model::<K>() ==> vec_map_view(map@) == grouped(refs(items@).take(i as int), keys),
        decreases items.len() - i,
    {
        let item = &items[i];
        let k = key_fn(item);
        let ghost gk = k;
        let ghost old_map = map@;
        match map.remove(&k) {
            Some(mut v) => {
                v.push(item);
                map.insert(k, v);
            },
            None => {
                let mut v: Vec<&'a T> = Vec::new();
                v.push(item);
                map.insert(k, v);
            },
        }
        proof {
            let r = refs(items@);
            assert(r.take(i + 1).drop_last() =~= r.take(i as int));
            assert(keys.push(gk).drop_last() =~= keys);
            if obeys_key_model::<K>() {
                assert(vec_map_view(map@) =~= grouped(r.take(i + 1), keys.push(gk)));
            }
            keys = keys.push(gk);
        }
        i = i + 1;
    }
    proof {
        assert(refs(items@).take(items@.len() as int) =~= refs(items@));
    }
    map
}

/// Rows grouped by an integer key (the work or the person they belong to).
pub trait GroupKey: Sized {
    /// The key of the row.
    spec fn group_key(&self) -> i64;

    fn key_of(&self) -> (k: i64)
        ensures
            k == self.group_key(),
    ;
}

/// The rows that `s` refers to.
pub open spec fn derefs<R>(s: Seq<&R>) -> Seq<R> {
    s.map_values(|r: &R| *r)
}

/// The rows with key `key` among `rows`, in their original order.
pub open spec fn rows_with_key<R: GroupKey>(rows: Seq<R>, work_id: i64) -> Seq<R>
    decreases rows.len(),
{
    if rows.len() == 0 {
        Seq::empty()
    } else {
        let prev = rows_with_key(rows.drop_last(), work_id);
        if rows.last().group_key() == work_id { prev.push(rows.last()) } else { prev }
    }
}

/// The keys of `rows`.
pub open spec fn keys_of<R: GroupKey>(rows: Seq<R>) -> Seq<i64> {
    Seq::new(rows.len(), |i: int| rows[i].group_key())
}

/// Grouping rows by key gives, for each key, exactly the rows with that key.
pub proof fn lemma_grouped_rows<R: GroupKey>(rows: Seq<R>, work_id: i64)
    ensures
        grouped(refs(rows), keys_of(rows)).contains_key(work_id)
            ==> derefs(grouped(refs(rows), keys_of(rows))[work_id]) == rows_with_key(rows, work_id),
        !grouped(refs(rows), keys_of(rows)).contains_key(work_id)
            ==> rows_with_key(rows, work_id) == Seq::<R>::empty(),
    decreases rows.len(),
{
    if rows.len() > 0 {
        let prev = rows.drop_last();
        lemma_grouped_rows(prev, work_id);
        assert(refs(rows).drop_last() =~= refs(prev));
        assert(keys_of(rows).drop_last() =~= keys_of(prev));
        let g = grouped(refs(prev), keys_of(prev));
        if g.contains_key(work_id) {
            assert(derefs(g[work_id].push(refs(rows).last())) =~= derefs(g[work_id]).push(rows.last()));
        } else {
            assert(derefs(Seq::<&R>::empty().push(refs(rows).last())) =~= Seq::<R>::empty().push(rows.last()));
        }
    }
}

/// The rows of `work_id` in a map of rows grouped by key (none when absent).
pub open spec fn group_rows<R>(m: Map<i64, Vec<&R>>, work_id: i64) -> Seq<R> {
    if m.contains_key(work_id) { derefs(m[work_id]@) } else { Seq::empty() }
}

/// Groups rows by their key.
pub fn group_by_key<'a, R: GroupKey>(rows: &'a [R]) -> (m: HashMap<i64, Vec<&'a R>>)
    ensures
        forall|k: i64| #[trigger] group_rows(m@, k) == rows_with_key(rows@, k),
{
    let f = |r: &R| -> (k: i64)
        ensures
            k == r.group_key(),
        { r.key_of() };
    let m = group_by(rows, f);
    proof {
        let keys = choose|keys: Seq<i64>|
            {
                &&& keys.len() == rows@.len()
                &&& forall|i: int| 0 <= i < rows@.len() ==> call_ensures(f, (&rows@[i],), #[trigger] keys[i])
                &&& obeys_key_model::<i64>() ==> vec_map_view(m@) == grouped(refs(rows@), keys)
            };
        assert(keys =~= keys_of(rows@));
        assert forall|k: i64| #[trigger] group_rows(m@, k) == rows_with_key(rows@, k) by {
            lemma_grouped_rows(rows@, k);
        }
    }
    m
}

} // verus!
