//! Paging and kana-column helpers shared by the exporters.
use vstd::prelude::*;
use crate::kana::{column_chars, column_table, pair_views};
use crate::models::Duplicate;
use crate::text::{owned, push_char, str_equal, views};

verus! {

/// Number of items on one exported page.
pub const PAGE_SIZE: usize = 50;

/// Number of pages that `n` items fill: at least one page, even for no items.
pub open spec fn total_pages(n: nat) -> nat {
    if n == 0 { 1 } else { ((n + 49) / 50) as nat }
}

/// Number of pages needed for `total_items` items at [`PAGE_SIZE`] per page
/// (one page when there are no items).
pub fn calculate_total_pages(total_items: usize) -> (pages: usize)
    ensures
        pages == total_pages(total_items as nat),
        pages >= 1,
        pages * PAGE_SIZE >= total_items,
        pages == 1 || (pages - 1) * PAGE_SIZE < total_items,
{
    if total_items == 0 {
        1
    } else {
        (total_items - 1) / PAGE_SIZE + 1
    }
}

/// Item range `[start, end)` of page `page` (1-based) among `n` items.
pub open spec fn page_range(n: nat, page: nat) -> (nat, nat) {
    let start = ((page - 1) * 50) as nat;
    let end = if page * 50 <= n { (page * 50) as nat } else { n };
    (start, end)
}

/// Item ranges of every page for `n` items: page `p` (1-based) covers
/// `[(p - 1) * PAGE_SIZE, min(p * PAGE_SIZE, n))`.
pub fn page_ranges(n: usize) -> (r: Vec<(usize, usize)>)
    ensures
        r@.len() == total_pages(n as nat),
        forall|i: int|
            0 <= i < r@.len() ==> (#[trigger] r@[i]).0 as nat == page_range(n as nat, (i + 1) as nat).0
                && r@[i].1 as nat == page_range(n as nat, (i + 1) as nat).1,
{
    let total = calculate_total_pages(n);
    let mut r: Vec<(usize, usize)> = Vec::new();
    let mut p: usize = 1;
    while p <= total
        invariant
            1 <= p <= total + 1,
            total == total_pages(n as nat),
            total * PAGE_SIZE >= n,
            total == 1 || (total - 1) * PAGE_SIZE < n,
            r@.len() == p - 1,
            forall|i: int|
                0 <= i < r@.len() ==> (#[trigger] r@[i]).0 as nat == page_range(n as nat, (i + 1) as nat).0
                    && r@[i].1 as nat == page_range(n as nat, (i + 1) as nat).1,
        decreases total + 1 - p,
    {
        assert((p - 1) * PAGE_SIZE <= (total - 1) * PAGE_SIZE) by (nonlinear_arith)
            requires p <= total, p >= 1;
        let start = (p - 1) * PAGE_SIZE;
        let end = if p <= n / PAGE_SIZE {
            assert(p * PAGE_SIZE <= n) by (nonlinear_arith)
                requires p <= n / 50;
            p * PAGE_SIZE
        } else {
            assert(!(p * 50 <= n)) by (nonlinear_arith)
                requires p > n / 50;
            n
        };
        r.push((start, end));
        p = p + 1;
    }
    r
}

/// The pages cover the items in order, without gaps or overlaps: the first
/// page starts at item 0, each page starts where the previous one ended,
/// the last page ends at the last item, and every page holds at most
/// [`PAGE_SIZE`] items and at least one when there are items at all.
pub proof fn lemma_pages_partition(n: nat)
    ensures
        page_range(n, 1).0 == 0,
        page_range(n, total_pages(n)).1 == n,
        forall|p: nat| 1 <= p < total_pages(n) ==> #[trigger] page_range(n, p).1 == page_range(n, p + 1).0,
        forall|p: nat|
            1 <= p <= total_pages(n) ==> #[trigger] page_range(n, p).0 <= page_range(n, p).1
                && page_range(n, p).1 - page_range(n, p).0 <= 50
                && (n > 0 ==> page_range(n, p).0 < page_range(n, p).1),
{
    assert forall|p: nat| 1 <= p < total_pages(n) implies #[trigger] page_range(n, p).1 == page_range(n, p + 1).0 by {
        assert(p * 50 <= n);
    }
}

/// The display character of an index column: the first kana of that
/// column in `table`, or nothing for a column without kana or not listed.
pub open spec fn column_first_char(table: Seq<(Seq<char>, Seq<char>)>, column: Seq<char>) -> Seq<char>
    decreases table.len(),
{
    if table.len() == 0 {
        seq![]
    } else if table[0].0 == column {
        if table[0].1.len() > 0 { seq![table[0].1[0]] } else { seq![] }
    } else {
        column_first_char(table.drop_first(), column)
    }
}

/// Heading character of an index column: its first kana ("あ" for "a"),
/// and the empty string for the "zz" column or an unknown column.
pub fn column_display(column: &str) -> (r: String)
    ensures
        r@ == column_first_char(column_table(), column@),
{
    let table = column_chars();
    let ghost t = pair_views(table@);
    assert(t.skip(0) =~= t);
    let mut i: usize = 0;
    while i < table.len()
        invariant
            i <= table.len(),
            t == pair_views(table@),
            t == column_table(),
            column_first_char(t, column@) == column_first_char(t.skip(i as int), column@),
        decreases table.len() - i,
    {
        assert(t.skip(i as int).drop_first() =~= t.skip(i + 1));
        if str_equal(table[i].0.as_str(), column) {
            let chars = table[i].1.as_str();
            let mut r = String::new();
            if chars.unicode_len() > 0 {
                push_char(&mut r, chars.get_char(0));
            }
            assert(r@ =~= column_first_char(t.skip(i as int), column@));
            return r;
        }
        i = i + 1;
    }
    assert(t.skip(i as int).len() == 0);
    String::new()
}

/// The kana of a column one per entry; a column without kana yields the single
/// entry "その他" so that consolidated pages can still show it.
pub open spec fn kana_entries(kana_chars: Seq<char>) -> Seq<Seq<char>> {
    if kana_chars.len() == 0 {
        seq!["その他"@]
    } else {
        Seq::new(kana_chars.len(), |i: int| seq![kana_chars[i]])
    }
}

/// Splits the kana of a column into one string per character
/// (["その他"] for an empty column).
pub fn column_kana_chars(kana_chars: &str) -> (r: Vec<String>)
    ensures
        views(r@) == kana_entries(kana_chars@),
{
    let n = kana_chars.unicode_len();
    let mut r: Vec<String> = Vec::new();
    if n == 0 {
        r.push(owned("その他"));
        assert(views(r@) =~= kana_entries(kana_chars@));
        return r;
    }
    let mut i: usize = 0;
    while i < n
        invariant
            i <= n,
            n == kana_chars@.len(),
            views(r@) =~= Seq::new(i as nat, |j: int| seq![kana_chars@[j]]),
        decreases n - i,
    {
        let mut s = String::new();
        push_char(&mut s, kana_chars.get_char(i));
        let ghost before = r@;
        r.push(s);
        assert(views(r@) =~= views(before).push(s@));
        i = i + 1;
    }
    r
}

/// The items of page `page` (1-based) among `items`.
pub open spec fn page_items<T>(items: Seq<T>, page: nat) -> Seq<T> {
    let r = page_range(items.len(), page);
    items.subrange(r.0 as int, r.1 as int)
}

/// Splits `items` into pages of [`PAGE_SIZE`]: page `p` holds
/// [`page_items`]`(items, p)`; there is always at least one page.
pub fn paginate<T: Duplicate>(items: &Vec<T>) -> (pages: Vec<Vec<T>>)
    ensures
        pages@.len() == total_pages(items@.len()),
        forall|i: int| 0 <= i < pages@.len() ==> (#[trigger] pages@[i])@ == page_items(items@, (i + 1) as nat),
{
    let ranges = page_ranges(items.len());
    let mut pages: Vec<Vec<T>> = Vec::new();
    let mut p: usize = 0;
    while p < ranges.len()
        invariant
            p <= ranges.len(),
            ranges@.len() == total_pages(items@.len()),
            forall|i: int|
                0 <= i < ranges@.len() ==> (#[trigger] ranges@[i]).0 as nat == page_range(items@.len(), (i + 1) as nat).0
                    && ranges@[i].1 as nat == page_range(items@.len(), (i + 1) as nat).1,
            pages@.len() == p,
            forall|i: int| 0 <= i < p ==> (#[trigger] pages@[i])@ == page_items(items@, (i + 1) as nat),
        decreases ranges.len() - p,
    {
        let (start, end) = ranges[p];
        proof {
            lemma_pages_partition(items@.len());
            assert(page_range(items@.len(), (p + 1) as nat).0 <= page_range(items@.len(), (p + 1) as nat).1);
            assert(page_range(items@.len(), (p + 1) as nat).1 <= items@.len());
        }
        let mut page: Vec<T> = Vec::new();
        let mut k: usize = start;
        while k < end
            invariant
                start <= k <= end,
                end <= items@.len(),
                page@ == items@.subrange(start as int, k as int),
            decreases end - k,
        {
            page.push(items[k].duplicate());
            assert(page@ =~= items@.subrange(start as int, k + 1));
            k = k + 1;
        }
        pages.push(page);
        p = p + 1;
    }
    pages
}

/// Every item is on exactly one page: item `k` is at position `k % 50` of
/// page `k / 50 + 1`, and no page holds more than [`PAGE_SIZE`] items.
pub proof fn lemma_item_page<T>(items: Seq<T>, k: int)
    requires
        0 <= k < items.len(),
    ensures
        1 <= k / 50 + 1 <= total_pages(items.len()),
        page_items(items, (k / 50 + 1) as nat).len() <= 50,
        page_items(items, (k / 50 + 1) as nat)[k % 50] == items[k],
{
    let p = (k / 50 + 1) as nat;
    let n = items.len();
    assert(k == (k / 50) * 50 + k % 50);
    assert(p <= total_pages(n)) by {
        assert((n + 49) / 50 >= k / 50 + 1) by {
            assert(n + 49 >= (k / 50) * 50 + 50);
        }
    }
    let r = page_range(n, p);
    assert(r.0 == (k / 50) * 50);
    assert(r.0 <= k < r.1);
}

} // verus!
