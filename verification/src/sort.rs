//! Sorting of the image paths: five orders and a reverse flag. Component
//! counts are computed and verified here; file sizes, modification times and
//! the natural-order string comparison come from outside calls, and the
//! sorting itself is verified against what those calls are trusted to
//! return.

use crate::deepseq::{lemma_deep_reverse, lemma_vec_deep, reverse_vec};
use crate::pathstr::{calculate_depth, sort_stem_of, spec_depth, spec_sort_stem};
use crate::text::{lower_str, spec_lower_seq, str_eq};
use vstd::prelude::*;

verus! {

/// Outcome of a comparison.
#[derive(Clone, Copy, Debug, PartialEq, Eq, Structural)]
pub enum Rank {
    Less,
    Equal,
    Greater,
}

/// What the case-insensitive natural-order comparison returns on a pair of
/// strings; a function of the two strings alone.
pub uninterp spec fn natural_cmp(a: Seq<char>, b: Seq<char>) -> Rank;

/// Relies on natord::compare_ignore_case: a case-insensitive natural-order
/// comparison (digit runs compare numerically) whose result depends on the
/// two strings alone. Its comparison loop treats the two sides symmetrically,
/// so swapping the arguments reverses the outcome; the second and third
/// clauses state that mirror image.
#[verifier::external_body]
fn natural_compare(a: &str, b: &str) -> (r: Rank)
    ensures
        r == natural_cmp(a@, b@),
        (r == Rank::Greater) <==> (natural_cmp(b@, a@) == Rank::Less),
        (r == Rank::Equal) <==> (natural_cmp(b@, a@) == Rank::Equal),
{
    match natord::compare_ignore_case(a, b) {
        std::cmp::Ordering::Less => Rank::Less,
        std::cmp::Ordering::Equal => Rank::Equal,
        std::cmp::Ordering::Greater => Rank::Greater,
    }
}

/// Relies on fs_extra::dir::get_size: the size in bytes of the file or
/// directory tree at the path, as the filesystem reports it; an error
/// message when it cannot be read. Nothing is assumed of the outcome.
#[verifier::external_body]
fn file_size(path: &str) -> (r: Result<u64, String>) {
    fs_extra::dir::get_size(path).map_err(|e| e.to_string())
}

/// Relies on the platform file metadata (Path::metadata and
/// Metadata::modified): the modification time, converted to nanoseconds
/// since the epoch and saturated at zero for pre-epoch times; an error
/// message when the metadata cannot be read. Nothing is assumed of the
/// outcome.
#[verifier::external_body]
fn modified_nanos(path: &str) -> (r: Result<u128, String>) {
    let time = match std::path::Path::new(path).metadata().and_then(|m| m.modified()) {
        Ok(t) => t,
        Err(e) => return Err(e.to_string()),
    };
    match time.duration_since(std::time::SystemTime::UNIX_EPOCH) {
        Ok(d) => Ok(d.as_nanos()),
        Err(_) => Ok(0),
    }
}

/// Relies on SystemTime::now: the current time, converted to nanoseconds
/// since the epoch and saturated at zero for a clock before the epoch.
/// Nothing is assumed of the outcome.
#[verifier::external_body]
fn now_nanos() -> (r: u128) {
    match std::time::SystemTime::now().duration_since(std::time::SystemTime::UNIX_EPOCH) {
        Ok(d) => d.as_nanos(),
        Err(_) => 0,
    }
}

/// The key the date order ranks by: the file's modification time, falling
/// back to the current time when the metadata cannot be read, so unreadable
/// files sort as newest. The fallback is this library's own choice, made
/// here in verified code.
pub fn modification_key(path: &str) -> u128 {
    match modified_nanos(path) {
        Ok(n) => n,
        Err(_) => now_nanos(),
    }
}

/// The five orders the sorter knows.
#[derive(Clone, Copy, Debug, PartialEq, Eq, Structural)]
pub enum SortOrder {
    /// By file stem, case-insensitive natural order, a leading dot stripped.
    Alphabetical,
    /// Shallower paths first: ascending component count.
    BreadthFirst,
    /// Most recently modified first.
    Date,
    /// Deeper paths first: descending component count.
    DepthFirst,
    /// Largest first.
    Size,
}

/// Which order a sort-command argument names, compared with ASCII case
/// ignored.
pub open spec fn spec_sort_order_of(s: Seq<char>) -> Option<SortOrder> {
    let low = spec_lower_seq(s);
    if low == "alphabetical"@ {
        Some(SortOrder::Alphabetical)
    } else if low == "breadthfirst"@ {
        Some(SortOrder::BreadthFirst)
    } else if low == "date"@ {
        Some(SortOrder::Date)
    } else if low == "depthfirst"@ {
        Some(SortOrder::DepthFirst)
    } else if low == "size"@ {
        Some(SortOrder::Size)
    } else {
        None
    }
}

impl SortOrder {
    /// Parse a sort-command argument into an order, ASCII case ignored.
    pub fn from_str(s: &str) -> (r: Option<SortOrder>)
        ensures
            r == spec_sort_order_of(s@),
    {
        let low = lower_str(s);
        if str_eq(low.as_str(), "alphabetical") {
            Some(SortOrder::Alphabetical)
        } else if str_eq(low.as_str(), "breadthfirst") {
            Some(SortOrder::BreadthFirst)
        } else if str_eq(low.as_str(), "date") {
            Some(SortOrder::Date)
        } else if str_eq(low.as_str(), "depthfirst") {
            Some(SortOrder::DepthFirst)
        } else if str_eq(low.as_str(), "size") {
            Some(SortOrder::Size)
        } else {
            None
        }
    }
}

/// What it means for a path sequence to be ordered. The size and date
/// orders rank paths by what the filesystem reports at the time of the
/// sort, which no contract over the paths alone can pin down; for them only
/// the permutation claim of [`Sorter::sort`] speaks.
pub open spec fn ordered_by(order: SortOrder, s: Seq<Seq<char>>) -> bool {
    match order {
        SortOrder::Alphabetical => forall|q: int|
            0 <= q < s.len() - 1 ==> natural_cmp(
                spec_sort_stem(#[trigger] s[q]),
                spec_sort_stem(s[q + 1]),
            ) != Rank::Greater,
        SortOrder::BreadthFirst => forall|i: int, j: int|
            0 <= i < j < s.len() ==> spec_depth(#[trigger] s[i]) <= spec_depth(#[trigger] s[j]),
        SortOrder::DepthFirst => forall|i: int, j: int|
            0 <= i < j < s.len() ==> spec_depth(#[trigger] s[i]) >= spec_depth(#[trigger] s[j]),
        SortOrder::Date => true,
        SortOrder::Size => true,
    }
}

/// A path together with the precomputed key its order compares.
struct SortEntry {
    key: u128,
    stem: String,
    path: String,
}

/// The paths a sequence of entries carries.
spec fn pview(s: Seq<SortEntry>) -> Seq<Seq<char>> {
    Seq::new(s.len(), |i: int| s[i].path@)
}

/// The key of an entry agrees with its path.
spec fn good_entry(order: SortOrder, e: SortEntry) -> bool {
    match order {
        SortOrder::DepthFirst | SortOrder::BreadthFirst => e.key == spec_depth(e.path@),
        SortOrder::Alphabetical => e.stem@ == spec_sort_stem(e.path@),
        _ => true,
    }
}

/// The order between two entries, on their precomputed keys.
spec fn entry_le(order: SortOrder, a: SortEntry, b: SortEntry) -> bool {
    match order {
        SortOrder::Alphabetical => natural_cmp(a.stem@, b.stem@) != Rank::Greater,
        SortOrder::BreadthFirst => a.key <= b.key,
        SortOrder::DepthFirst | SortOrder::Date | SortOrder::Size => a.key >= b.key,
    }
}

/// Adjacent entries of the first `m` are in order.
spec fn adjacent_sorted_to(order: SortOrder, s: Seq<SortEntry>, m: int) -> bool {
    forall|q: int| 0 <= q < m - 1 ==> entry_le(order, #[trigger] s[q], s[q + 1])
}

/// Compare two entries; when the pair is out of order, the swapped pair is
/// in order.
fn entry_in_order(order: SortOrder, a: &SortEntry, b: &SortEntry) -> (r: bool)
    ensures
        r == entry_le(order, *a, *b),
        !r ==> entry_le(order, *b, *a),
{
    match order {
        SortOrder::Alphabetical => {
            let rank = natural_compare(a.stem.as_str(), b.stem.as_str());
            !(rank == Rank::Greater)
        },
        SortOrder::BreadthFirst => a.key <= b.key,
        SortOrder::DepthFirst => a.key >= b.key,
        SortOrder::Date => a.key >= b.key,
        SortOrder::Size => a.key >= b.key,
    }
}

proof fn lemma_to_multiset_insert(s: Seq<SortEntry>, p: int, x: SortEntry)
    requires
        0 <= p <= s.len(),
    ensures
        s.insert(p, x).to_multiset() == s.to_multiset().insert(x),
{
    broadcast use vstd::seq_lib::group_to_multiset_ensures;

    let t = s.insert(p, x);
    s.insert_ensures(p, x);
    assert(t.remove(p) =~= s);
    assert(t[p] == x);
    assert(s.to_multiset() == t.to_multiset().remove(x));
    assert(t.contains(x));
    assert(t.to_multiset().count(x) > 0);
    assert(t.to_multiset() =~= s.to_multiset().insert(x));
}

/// Two sequences of entries with the same multiset carry the same multiset
/// of paths.
proof fn lemma_path_multiset(s1: Seq<SortEntry>, s2: Seq<SortEntry>)
    requires
        s1.to_multiset() == s2.to_multiset(),
    ensures
        pview(s1).to_multiset() == pview(s2).to_multiset(),
    decreases s1.len(),
{
    broadcast use vstd::seq_lib::group_to_multiset_ensures;
    broadcast use vstd::multiset::group_multiset_axioms;

    if s1.len() == 0 {
        assert(s1.to_multiset().len() == 0);
        assert(s2.to_multiset().len() == s2.len());
        assert(pview(s1) =~= pview(s2));
    } else {
        let x = s1[0];
        assert(s1.contains(x));
        assert(s1.to_multiset().count(x) > 0);
        assert(s2.contains(x));
        let j = choose|j: int| 0 <= j < s2.len() && s2[j] == x;
        assert(s1.remove(0).to_multiset() == s1.to_multiset().remove(x));
        assert(s2.remove(j).to_multiset() == s2.to_multiset().remove(x));
        lemma_path_multiset(s1.remove(0), s2.remove(j));
        let m1 = pview(s1);
        let m2 = pview(s2);
        s1.remove_ensures(0);
        s2.remove_ensures(j);
        assert(pview(s1.remove(0)) =~= m1.remove(0));
        assert(pview(s2.remove(j)) =~= m2.remove(j));
        assert(m1.remove(0).to_multiset() == m1.to_multiset().remove(x.path@));
        assert(m2.remove(j).to_multiset() == m2.to_multiset().remove(x.path@));
        assert(m1.contains(x.path@)) by {
            assert(m1[0] == x.path@);
        }
        assert(m2.contains(x.path@)) by {
            assert(m2[j] == x.path@);
        }
        assert(m1.to_multiset().count(x.path@) > 0);
        assert(m2.to_multiset().count(x.path@) > 0);
        let px = x.path@;
        assert forall|y: Seq<char>| m1.to_multiset().count(y) == m2.to_multiset().count(
            y,
        ) by {
            assert(m1.to_multiset().remove(px).count(y) == m2.to_multiset().remove(px).count(y));
        }
        assert(m1.to_multiset() =~= m2.to_multiset());
    }
}

/// Stable insertion sort on entries: the result is a permutation whose
/// adjacent elements are in order.
fn insertion_sort(order: SortOrder, v: &mut Vec<SortEntry>)
    ensures
        final(v)@.to_multiset() == old(v)@.to_multiset(),
        final(v)@.len() == old(v)@.len(),
        adjacent_sorted_to(order, final(v)@, final(v)@.len() as int),
{
    broadcast use vstd::seq_lib::group_to_multiset_ensures;

    let ghost orig: Seq<SortEntry> = v@;
    if v.len() <= 1 {
        return ;
    }
    let mut n: usize = 1;
    while n < v.len()
        invariant
            1 <= n <= v@.len(),
            v@.len() == orig.len(),
            v@.to_multiset() == orig.to_multiset(),
            adjacent_sorted_to(order, v@, n as int),
        decreases v@.len() - n,
    {
        let ghost w: Seq<SortEntry> = v@;
        // Scan left from n for the insertion point.
        let mut p: usize = n;
        while p > 0
            invariant
                p <= n < v@.len(),
                v@ == w,
                forall|q: int| p <= q < n ==> entry_le(order, v@[n as int], #[trigger] v@[q]),
            ensures
                p <= n,
                v@ == w,
                forall|q: int| p <= q < n ==> entry_le(order, v@[n as int], #[trigger] v@[q]),
                p > 0 ==> entry_le(order, v@[p - 1], v@[n as int]),
            decreases p,
        {
            if entry_in_order(order, &v[p - 1], &v[n]) {
                break ;
            }
            p = p - 1;
        }
        let x = v.remove(n);
        v.insert(p, x);
        proof {
            broadcast use vstd::seq_lib::group_to_multiset_ensures;
            broadcast use vstd::multiset::group_multiset_axioms;

            w.remove_ensures(n as int);
            w.remove(n as int).insert_ensures(p as int, x);
            assert(w.remove(n as int).to_multiset() == w.to_multiset().remove(x));
            lemma_to_multiset_insert(w.remove(n as int), p as int, x);
            assert(w.contains(x)) by {
                assert(w[n as int] == x);
            }
            assert(w.to_multiset().count(x) > 0);
            assert(v@.to_multiset() =~= w.to_multiset());
            // Index layout of the new sequence.
            assert(forall|k: int| 0 <= k < p ==> v@[k] == w[k]);
            assert(v@[p as int] == x);
            assert(forall|k: int| p < k <= n ==> v@[k] == w[k - 1]);
            assert(forall|k: int| n < k < w.len() ==> v@[k] == w[k]);
            assert forall|q: int| 0 <= q < n implies entry_le(order, #[trigger] v@[q], v@[q + 1]) by {
                if q < p - 1 {
                    assert(entry_le(order, w[q], w[q + 1]));
                } else if q == p - 1 {
                    assert(entry_le(order, w[p - 1], x));
                } else if q == p {
                    assert(p < n);
                    assert(v@[q + 1] == w[p as int]);
                    assert(entry_le(order, x, w[p as int]));
                } else {
                    assert(v@[q] == w[q - 1] && v@[q + 1] == w[q]);
                    assert(entry_le(order, w[q - 1], w[q]));
                }
            }
            assert(adjacent_sorted_to(order, v@, n + 1));
        }
        n = n + 1;
    }
}

proof fn lemma_depth_step(s: Seq<Seq<char>>, asc: bool, i: int, j: int)
    requires
        asc ==> forall|q: int|
            0 <= q < s.len() - 1 ==> spec_depth(#[trigger] s[q]) <= spec_depth(s[q + 1]),
        !asc ==> forall|q: int|
            0 <= q < s.len() - 1 ==> spec_depth(#[trigger] s[q]) >= spec_depth(s[q + 1]),
        0 <= i <= j < s.len(),
    ensures
        asc ==> spec_depth(s[i]) <= spec_depth(s[j]),
        !asc ==> spec_depth(s[i]) >= spec_depth(s[j]),
    decreases j - i,
{
    if i < j {
        lemma_depth_step(s, asc, i + 1, j);
    }
}

/// Every entry of a permutation of a sequence of good entries is good: its
/// key still agrees with its path.
proof fn lemma_good_transfer(order: SortOrder, pre: Seq<SortEntry>, post: Seq<SortEntry>)
    requires
        post.to_multiset() == pre.to_multiset(),
        forall|k: int| 0 <= k < pre.len() ==> good_entry(order, #[trigger] pre[k]),
    ensures
        forall|k: int| 0 <= k < post.len() ==> good_entry(order, #[trigger] post[k]),
{
    broadcast use vstd::seq_lib::group_to_multiset_ensures;

    assert forall|k: int| 0 <= k < post.len() implies good_entry(order, #[trigger] post[k]) by {
        let e = post[k];
        assert(post.contains(e));
        assert(post.to_multiset().count(e) > 0);
        assert(pre.contains(e));
        let j = choose|j: int| 0 <= j < pre.len() && pre[j] == e;
        assert(good_entry(order, pre[j]));
    }
}

/// Orderedness of the carried paths follows from the entry order together
/// with the key-path agreement of every entry.
proof fn lemma_ordered_from_entries(order: SortOrder, es: Seq<SortEntry>, dv: Seq<Seq<char>>)
    requires
        dv.len() == es.len(),
        forall|k: int| 0 <= k < es.len() ==> dv[k] == (#[trigger] es[k]).path@,
        forall|k: int| 0 <= k < es.len() ==> good_entry(order, #[trigger] es[k]),
        adjacent_sorted_to(order, es, es.len() as int),
    ensures
        ordered_by(order, dv),
{
    match order {
        SortOrder::Alphabetical => {
            assert forall|q: int| 0 <= q < dv.len() - 1 implies natural_cmp(
                spec_sort_stem(#[trigger] dv[q]),
                spec_sort_stem(dv[q + 1]),
            ) != Rank::Greater by {
                assert(entry_le(order, es[q], es[q + 1]));
            }
        },
        SortOrder::DepthFirst => {
            assert forall|q: int| 0 <= q < dv.len() - 1 implies spec_depth(#[trigger] dv[q])
                >= spec_depth(dv[q + 1]) by {
                assert(entry_le(order, es[q], es[q + 1]));
            }
            assert forall|a: int, b: int| 0 <= a < b < dv.len() implies spec_depth(
                #[trigger] dv[a],
            ) >= spec_depth(#[trigger] dv[b]) by {
                lemma_depth_step(dv, false, a, b);
            }
        },
        SortOrder::BreadthFirst => {
            assert forall|q: int| 0 <= q < dv.len() - 1 implies spec_depth(#[trigger] dv[q])
                <= spec_depth(dv[q + 1]) by {
                assert(entry_le(order, es[q], es[q + 1]));
            }
            assert forall|a: int, b: int| 0 <= a < b < dv.len() implies spec_depth(
                #[trigger] dv[a],
            ) <= spec_depth(#[trigger] dv[b]) by {
                lemma_depth_step(dv, true, a, b);
            }
        },
        _ => {},
    }
}

impl Sorter {
    pub closed spec fn spec_order(self) -> SortOrder {
        self.sort_order
    }

    pub closed spec fn spec_reverse(self) -> bool {
        self.reverse
    }

    /// Create a sorter with an order and a reverse flag.
    pub fn new(sort_order: SortOrder, reverse: bool) -> (r: Self)
        ensures
            r.spec_order() == sort_order,
            r.spec_reverse() == reverse,
    {
        Self { sort_order, reverse }
    }

    /// Change the order; this does not itself re-sort anything.
    pub fn set_order(&mut self, sort_order: SortOrder)
        ensures
            final(self).spec_order() == sort_order,
            final(self).spec_reverse() == old(self).spec_reverse(),
    {
        self.sort_order = sort_order;
    }

    /// Change the reverse flag; this does not itself re-sort anything.
    pub fn set_reverse(&mut self, reverse: bool)
        ensures
            final(self).spec_order() == old(self).spec_order(),
            final(self).spec_reverse() == reverse,
    {
        self.reverse = reverse;
    }

    /// Sort the paths by the configured order, then reverse them if the
    /// flag asks for it. The result is a permutation of the input, ordered
    /// as [`ordered_by`] states.
    #[verifier::rlimit(50)]
    pub fn sort(&self, paths: &mut Vec<String>)
        ensures
            final(paths).deep_view().to_multiset() == old(paths).deep_view().to_multiset(),
            final(paths)@.len() == old(paths)@.len(),
            !self.spec_reverse() ==> ordered_by(self.spec_order(), final(paths).deep_view()),
            self.spec_reverse() ==> ordered_by(
                self.spec_order(),
                final(paths).deep_view().reverse(),
            ),
    {
        let order = self.sort_order;
        let mut entries: Vec<SortEntry> = Vec::new();
        let mut i: usize = 0;
        while i < paths.len()
            invariant
                i <= paths@.len(),
                entries@.len() == i,
                order == self.spec_order(),
                forall|k: int|
                    0 <= k < i ==> (#[trigger] entries@[k]).path == paths@[k] && good_entry(
                        order,
                        entries@[k],
                    ),
            decreases paths@.len() - i,
        {
            let p = &paths[i];
            let key: u128 = match order {
                SortOrder::DepthFirst | SortOrder::BreadthFirst => calculate_depth(
                    p.as_str(),
                ) as u128,
                SortOrder::Size => match file_size(p.as_str()) {
                    Ok(sz) => sz as u128,
                    Err(_) => 0,
                },
                SortOrder::Date => modification_key(p.as_str()),
                SortOrder::Alphabetical => 0,
            };
            let stem: String = match order {
                SortOrder::Alphabetical => sort_stem_of(p.as_str()),
                _ => String::new(),
            };
            entries.push(SortEntry { key, stem, path: p.clone() });
            i = i + 1;
        }
        let ghost pre: Seq<SortEntry> = entries@;
        proof {
            lemma_vec_deep(*old(paths));
            assert(pview(pre) =~= old(paths).deep_view());
        }
        insertion_sort(order, &mut entries);
        proof {
            lemma_path_multiset(pre, entries@);
            lemma_good_transfer(order, pre, entries@);
        }
        let mut out: Vec<String> = Vec::new();
        let mut i: usize = 0;
        while i < entries.len()
            invariant
                i <= entries@.len(),
                out@.len() == i,
                forall|k: int| 0 <= k < i ==> out@[k] == (#[trigger] entries@[k]).path,
            decreases entries@.len() - i,
        {
            out.push(entries[i].path.clone());
            i = i + 1;
        }
        proof {
            lemma_vec_deep(out);
            assert(out.deep_view() =~= pview(entries@));
        }
        let ghost sorted_dv: Seq<Seq<char>> = out.deep_view();
        proof {
            lemma_ordered_from_entries(order, entries@, sorted_dv);
        }
        *paths = out;
        if self.reverse {
            let ghost before: Seq<String> = paths@;
            reverse_vec(paths);
            proof {
                lemma_vec_deep(*paths);
                lemma_deep_reverse(before);
                sorted_dv.lemma_reverse_to_multiset();
                assert(paths.deep_view().reverse() =~= sorted_dv);
            }
        }
    }
}

/// Sorts paths by a chosen order, with an optional reversal.
pub struct Sorter {
    sort_order: SortOrder,
    reverse: bool,
}

} // verus!
