//! The gojūon columns that the person indexes are split into.
use vstd::prelude::*;
use crate::text::owned;

verus! {

/// The index columns in their fixed order: the column key and the kana that
/// open a name in that column.  The "zz" column gathers every other name and
/// has no kana of its own.
pub open spec fn column_table() -> Seq<(Seq<char>, Seq<char>)> {
    seq![
        ("a"@, "あいうえお"@),
        ("ka"@, "かきくけこ"@),
        ("sa"@, "さしすせそ"@),
        ("ta"@, "たちつてと"@),
        ("na"@, "なにぬねの"@),
        ("ha"@, "はひふへほ"@),
        ("ma"@, "まみむめも"@),
        ("ya"@, "やゆよ"@),
        ("ra"@, "らりるれろ"@),
        ("wa"@, "わをん"@),
        ("zz"@, ""@),
    ]
}

/// Character views of a list of string pairs.
pub open spec fn pair_views(v: Seq<(String, String)>) -> Seq<(Seq<char>, Seq<char>)> {
    v.map_values(|p: (String, String)| (p.0@, p.1@))
}

fn entry(key: &str, chars: &str) -> (r: (String, String))
    ensures
        r.0@ == key@,
        r.1@ == chars@,
{
    (owned(key), owned(chars))
}

/// The index columns, as [`column_table`] lists them.
pub fn column_chars() -> (r: Vec<(String, String)>)
    ensures
        pair_views(r@) == column_table(),
{
    let mut v: Vec<(String, String)> = Vec::new();
    v.push(entry("a", "あいうえお"));
    v.push(entry("ka", "かきくけこ"));
    v.push(entry("sa", "さしすせそ"));
    v.push(entry("ta", "たちつてと"));
    v.push(entry("na", "なにぬねの"));
    v.push(entry("ha", "はひふへほ"));
    v.push(entry("ma", "まみむめも"));
    v.push(entry("ya", "やゆよ"));
    v.push(entry("ra", "らりるれろ"));
    v.push(entry("wa", "わをん"));
    v.push(entry("zz", ""));
    assert(pair_views(v@) =~= column_table());
    v
}

} // verus!
