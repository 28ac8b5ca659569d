//! Ordering of the tasks shown in a list: the four sort orders, and a
//! stable sort by them.
use vstd::prelude::*;
use crate::model::Timestamp;
use crate::text::{lemma_text_lt_total, lemma_text_lt_trans, text_less, text_lt};

verus! {

/// Order in which a list's tasks are shown.
#[derive(Clone, Copy, Debug, PartialEq, Eq, Structural)]
pub enum SortType {
    NameAsc,
    NameDesc,
    DateAsc,
    DateDesc,
}

/// What a task is sorted by: its lower-cased title and its creation date.
#[derive(Clone, Debug)]
pub struct SortItem {
    pub name: Vec<char>,
    pub date: Timestamp,
}

/// The sort keys of a task, as mathematical values.
pub struct SortItemView {
    pub name: Seq<char>,
    pub date: Timestamp,
}

impl View for SortItem {
    type V = SortItemView;

    open spec fn view(&self) -> SortItemView {
        SortItemView { name: self.name@, date: self.date }
    }
}

/// Views of a sequence of sort items.
pub open spec fn item_views(s: Seq<SortItem>) -> Seq<SortItemView> {
    s.map_values(|x: SortItem| x@)
}

/// `a` must be shown strictly before `b` under the sort order.
pub open spec fn precedes(st: SortType, a: SortItemView, b: SortItemView) -> bool {
    match st {
        SortType::NameAsc => text_lt(a.name, b.name),
        SortType::NameDesc => text_lt(b.name, a.name),
        SortType::DateAsc => a.date.before(b.date),
        SortType::DateDesc => b.date.before(a.date),
    }
}

/// Of the items at positions `i` and `j` of `s`, the one at `i` is shown
/// first: it precedes the other, or neither precedes and `i` came first
/// (a stable sort).
pub open spec fn goes_first(st: SortType, s: Seq<SortItemView>, i: int, j: int) -> bool {
    precedes(st, s[i], s[j]) || (!precedes(st, s[j], s[i]) && i < j)
}

/// `p` lists each position below `n` exactly once.
pub open spec fn is_permutation(p: Seq<usize>, n: int) -> bool {
    &&& p.len() == n
    &&& forall|i: int| 0 <= i < n ==> #[trigger] p[i] < n
    &&& forall|i: int, j: int| 0 <= i < j < n ==> #[trigger] p[i] != #[trigger] p[j]
}

/// `p` arranges the positions of `s` as a stable sort under `st` does.
pub open spec fn stably_sorted(st: SortType, s: Seq<SortItemView>, p: Seq<usize>) -> bool {
    &&& is_permutation(p, s.len() as int)
    &&& forall|i: int, j: int| 0 <= i < j < p.len() ==> goes_first(st, s, #[trigger] p[i] as int, #[trigger] p[j] as int)
}

/// The order never has an item precede itself, nor two items precede each
/// other; and what precedes an item precedes everything that item does not
/// precede.
pub proof fn lemma_precedes(st: SortType, x: SortItemView, y: SortItemView, z: SortItemView)
    ensures
        !(precedes(st, x, y) && precedes(st, y, x)),
        precedes(st, x, y) && !precedes(st, z, y) ==> precedes(st, x, z),
{
    match st {
        SortType::NameAsc => {
            lemma_text_lt_total(x.name, y.name);
            lemma_text_lt_total(z.name, y.name);
            if text_lt(x.name, y.name) && text_lt(y.name, z.name) {
                lemma_text_lt_trans(x.name, y.name, z.name);
            }
        },
        SortType::NameDesc => {
            lemma_text_lt_total(x.name, y.name);
            lemma_text_lt_total(z.name, y.name);
            if text_lt(y.name, x.name) && text_lt(z.name, y.name) {
                lemma_text_lt_trans(z.name, y.name, x.name);
            }
        },
        _ => {},
    }
}

/// Whether `a` must be shown strictly before `b` under `st`.
pub fn shown_before(st: SortType, a: &SortItem, b: &SortItem) -> (r: bool)
    ensures
        r == precedes(st, a@, b@),
{
    match st {
        SortType::NameAsc => text_less(&a.name, &b.name),
        SortType::NameDesc => text_less(&b.name, &a.name),
        SortType::DateAsc => a.date.is_before(&b.date),
        SortType::DateDesc => b.date.is_before(&a.date),
    }
}

/// The positions of `items` in the order a stable sort by `st` shows them:
/// an item that precedes another comes first, and items that neither
/// precedes keep their relative order.
pub fn sort_order(st: SortType, items: &Vec<SortItem>) -> (r: Vec<usize>)
    ensures
        stably_sorted(st, item_views(items@), r@),
{
    let ghost s = item_views(items@);
    let n = items.len();
    let mut out: Vec<usize> = Vec::new();
    let mut i: usize = 0;
    while i < n
        invariant
            n == items.len(),
            s == item_views(items@),
            i <= n,
            is_permutation(out@, i as int),
            forall|a: int, b: int|
                0 <= a < b < out@.len() ==> goes_first(st, s, #[trigger] out@[a] as int, #[trigger] out@[b] as int),
        decreases n - i,
    {
        let mut q: usize = 0;
        while q < out.len() && !shown_before(st, &items[i], &items[out[q]])
            invariant
                n == items.len(),
                s == item_views(items@),
                i < n,
                q <= out.len(),
                is_permutation(out@, i as int),
                forall|a: int| 0 <= a < q ==> !precedes(st, s[i as int], s[#[trigger] out@[a] as int]),
            decreases out.len() - q,
        {
            q = q + 1;
        }
        let ghost old_out = out@;
        proof {
            if q < old_out.len() {
                assert(precedes(st, s[i as int], s[old_out[q as int] as int]));
            }
        }
        out.insert(q, i);
        proof {
            assert(out@ =~= old_out.subrange(0, q as int).push(i).add(old_out.subrange(q as int, old_out.len() as int)));
            assert forall|a: int| 0 <= a < out@.len() implies #[trigger] out@[a] < i + 1 by {
                if a < q {
                    assert(out@[a] == old_out[a]);
                } else if a > q {
                    assert(out@[a] == old_out[a - 1]);
                }
            }
            assert forall|a: int, b: int| 0 <= a < b < out@.len() implies #[trigger] out@[a] != #[trigger] out@[b] by {
                if a < q && b < q {
                } else if a < q && b == q {
                    assert(old_out[a] < i);
                } else if a < q && b > q {
                    assert(out@[b] == old_out[b - 1]);
                } else if a == q {
                    assert(out@[b] == old_out[b - 1]);
                    assert(old_out[b - 1] < i);
                } else {
                    assert(out@[a] == old_out[a - 1]);
                    assert(out@[b] == old_out[b - 1]);
                }
            }
            assert forall|a: int, b: int| 0 <= a < b < out@.len() implies goes_first(
                st,
                s,
                #[trigger] out@[a] as int,
                #[trigger] out@[b] as int,
            ) by {
                if a < q && b < q {
                    assert(out@[a] == old_out[a] && out@[b] == old_out[b]);
                } else if a < q && b == q {
                    assert(out@[a] == old_out[a]);
                    assert(!precedes(st, s[i as int], s[old_out[a] as int]));
                    assert(old_out[a] < i);
                } else if a < q && b > q {
                    assert(out@[a] == old_out[a] && out@[b] == old_out[b - 1]);
                } else if a == q {
                    let y = old_out[q as int] as int;
                    let z = old_out[b - 1] as int;
                    assert(out@[b] == old_out[b - 1]);
                    assert(precedes(st, s[i as int], s[y]));
                    if b - 1 > q {
                        assert(goes_first(st, s, y, z));
                        lemma_precedes(st, s[y], s[z], s[i as int]);
                        assert(!precedes(st, s[z], s[y]));
                    }
                    lemma_precedes(st, s[i as int], s[y], s[z]);
                } else {
                    assert(out@[a] == old_out[a - 1] && out@[b] == old_out[b - 1]);
                }
            }
        }
        i = i + 1;
    }
    out
}

} // verus!
