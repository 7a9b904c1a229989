use vstd::prelude::*;

use crate::lists::Navigate;
use crate::select_list::SelectList;

verus! {

/// No path occurs twice, comparing character content.
pub open spec fn distinct_paths(s: Seq<String>) -> bool {
    forall|i: int, j: int| 0 <= i < j < s.len() ==> s[i]@ != s[j]@
}

/// The paths that survive recording `path`: everything not spelled like it.
pub open spec fn drops_path(path: String) -> spec_fn(String) -> bool {
    |q: String| q@ != path@
}

/// Whether some entry of `s` is spelled `p`.
pub open spec fn contains_path(s: Seq<String>, p: Seq<char>) -> bool {
    exists|j: int| 0 <= j < s.len() && s[j]@ == p
}

/// The record rule of the ledger: drop the old occurrence of `path` if any,
/// evict the least recently used entry (the tail) when still at capacity,
/// and put `path` at the front.
pub open spec fn mru_record(s: Seq<String>, cap: int, path: String) -> Seq<String> {
    let kept = s.filter(drops_path(path));
    let roomy = if kept.len() == cap {
        kept.drop_last()
    } else {
        kept
    };
    seq![path] + roomy
}

/// One step of sanitising a persisted path list: a path is kept only while
/// there is room and no earlier kept path is spelled the same.
pub open spec fn sanitized(s: Seq<String>, cap: int) -> Seq<String>
    decreases s.len(),
{
    if s.len() == 0 {
        Seq::<String>::empty()
    } else {
        let prev = sanitized(s.drop_last(), cap);
        if prev.len() < cap && !contains_path(prev, s.last()@) {
            prev.push(s.last())
        } else {
            prev
        }
    }
}

/// Filtering with `drops_path` keeps a sequence with no occurrence intact.
proof fn lemma_filter_no_match(s: Seq<String>, path: String)
    requires
        !contains_path(s, path@),
    ensures
        s.filter(drops_path(path)) == s,
    decreases s.len(),
{
    reveal(Seq::filter);
    if s.len() > 0 {
        assert(!contains_path(s.drop_last(), path@)) by {
            assert forall|j: int| 0 <= j < s.len() - 1 implies s.drop_last()[j]@ != path@ by {
                assert(s.drop_last()[j] == s[j]);
                assert(!(0 <= j < s.len() && s[j]@ == path@));
            }
        }
        lemma_filter_no_match(s.drop_last(), path);
        assert(s[s.len() - 1]@ != path@);
        assert(s.drop_last().push(s.last()) =~= s);
    }
}

/// Filtering with `drops_path` removes exactly the unique occurrence.
proof fn lemma_filter_removes_unique(s: Seq<String>, path: String, i: int)
    requires
        0 <= i < s.len(),
        s[i]@ == path@,
        forall|j: int| 0 <= j < s.len() && j != i ==> s[j]@ != path@,
    ensures
        s.filter(drops_path(path)) == s.remove(i),
    decreases s.len(),
{
    reveal(Seq::filter);
    if i == s.len() - 1 {
        assert(!contains_path(s.drop_last(), path@)) by {
            assert forall|j: int| 0 <= j < s.len() - 1 implies s.drop_last()[j]@ != path@ by {
                assert(s.drop_last()[j] == s[j]);
            }
        }
        lemma_filter_no_match(s.drop_last(), path);
        assert(s.drop_last() =~= s.remove(i));
    } else {
        assert forall|j: int| 0 <= j < s.len() - 1 && j != i implies s.drop_last()[j]@
            != path@ by {
            assert(s.drop_last()[j] == s[j]);
        }
        assert(s.drop_last()[i] == s[i]);
        lemma_filter_removes_unique(s.drop_last(), path, i);
        assert(s.last()@ != path@);
        assert(s.drop_last().remove(i).push(s.last()) =~= s.remove(i));
    }
}

/// What recording does to a valid ledger order: the recorded path stands at
/// the front; a path already present is promoted, never duplicated — the
/// length does not grow; a new path joins in front of everything while
/// there is room, and evicts the least recently used entry (the tail) once
/// the ledger is full. Distinctness and the capacity bound survive.
pub proof fn lemma_mru_record_props(s: Seq<String>, cap: int, path: String)
    requires
        distinct_paths(s),
        s.len() <= cap,
        cap >= 1,
    ensures
        ({
            let r = mru_record(s, cap, path);
            &&& 1 <= r.len() <= cap
            &&& r[0] == path
            &&& distinct_paths(r)
            &&& (contains_path(s, path@) ==> r.len() == s.len())
            &&& (!contains_path(s, path@) && s.len() < cap ==> r == seq![path] + s)
            &&& (!contains_path(s, path@) && s.len() == cap ==> r == seq![path] + s.drop_last())
        }),
{
    let kept = s.filter(drops_path(path));
    if contains_path(s, path@) {
        let i = choose|i: int| 0 <= i < s.len() && s[i]@ == path@;
        assert forall|j: int| 0 <= j < s.len() && j != i implies s[j]@ != path@ by {
            assert(s[i]@ == path@);
        }
        lemma_filter_removes_unique(s, path, i);
        assert forall|a: int, b: int| 0 <= a < b < kept.len() implies kept[a]@ != kept[b]@ by {
            let sa = if a < i {
                a
            } else {
                a + 1
            };
            let sb = if b < i {
                b
            } else {
                b + 1
            };
            assert(kept[a] == s[sa] && kept[b] == s[sb]);
        }
        assert forall|k: int| 0 <= k < kept.len() implies kept[k]@ != path@ by {
            let sk = if k < i {
                k
            } else {
                k + 1
            };
            assert(kept[k] == s[sk]);
        }
    } else {
        lemma_filter_no_match(s, path);
    }
    let roomy = if kept.len() == cap {
        kept.drop_last()
    } else {
        kept
    };
    let r = seq![path] + roomy;
    assert forall|a: int, b: int| 0 <= a < b < r.len() implies r[a]@ != r[b]@ by {
        assert(r[b] == roomy[b - 1] && roomy[b - 1] == kept[b - 1]);
        if a > 0 {
            assert(r[a] == roomy[a - 1] && roomy[a - 1] == kept[a - 1]);
        }
    }
}

/// Scans for an entry spelled like `p`.
fn contains_str(v: &Vec<String>, p: &String) -> (r: bool)
    ensures
        r == contains_path(v@, p@),
{
    let mut j: usize = 0;
    while j < v.len()
        invariant
            j <= v@.len(),
            forall|k: int| 0 <= k < j ==> v@[k]@ != p@,
        decreases v@.len() - j,
    {
        if v[j] == *p {
            return true;
        }
        j += 1;
    }
    false
}

/// The recency ledger: a capacity-limited, deduplicated list of file paths
/// in most-recently-used order — the entry at index 0 is the most recently
/// recorded one — with a selection for browsing it.
pub struct RecentFiles {
    pub order: SelectList<String>,
    pub capacity: usize,
}

impl RecentFiles {
    /// Validity: a positive capacity bounding the length, no duplicate
    /// spelling, and a valid selection.
    pub open spec fn wf(&self) -> bool {
        &&& self.order.wf()
        &&& self.capacity >= 1
        &&& self.order@.items.len() <= self.capacity
        &&& distinct_paths(self.order@.items)
    }

    /// An empty ledger with the given capacity, or the default capacity of 5.
    pub fn new(capacity: Option<usize>) -> (r: RecentFiles)
        requires
            capacity matches Some(c) ==> c >= 1,
        ensures
            r.wf(),
            r.order@.items == Seq::<String>::empty(),
            r.order@.cursor is None,
            r.capacity == (match capacity {
                Some(c) => c as int,
                None => 5int,
            }),
    {
        RecentFiles {
            order: SelectList::new(),
            capacity: match capacity {
                Some(i) => i,
                None => 5,
            },
        }
    }

    /// Rebuilds a ledger from a persisted path list, which is not trusted to
    /// respect the invariants: later duplicates and entries past the
    /// capacity are dropped. The first entry is selected when there is one,
    /// so the most recent path can be taken without navigating first.
    pub fn from_paths(paths: Vec<String>, capacity: Option<usize>) -> (r: RecentFiles)
        requires
            capacity matches Some(c) ==> c >= 1,
        ensures
            r.wf(),
            r.capacity == (match capacity {
                Some(c) => c as int,
                None => 5int,
            }),
            r.order@.items == sanitized(paths@, r.capacity as int),
            r.order@.cursor == (if r.order@.items.len() == 0 {
                Option::<int>::None
            } else {
                Option::<int>::Some(0int)
            }),
    {
        let cap: usize = match capacity {
            Some(c) => c,
            None => 5,
        };
        let mut out: Vec<String> = Vec::new();
        let mut i: usize = 0;
        while i < paths.len()
            invariant
                i <= paths@.len(),
                out@ == sanitized(paths@.take(i as int), cap as int),
                out@.len() <= cap,
                distinct_paths(out@),
            decreases paths@.len() - i,
        {
            let p = paths[i].clone();
            proof {
                assert(paths@.take(i + 1).drop_last() =~= paths@.take(i as int));
                assert(paths@.take(i + 1).last() == paths@[i as int]);
            }
            if out.len() < cap && !contains_str(&out, &p) {
                out.push(p);
            }
            i += 1;
        }
        proof {
            assert(paths@.take(paths@.len() as int) =~= paths@);
        }
        let cursor: Option<usize> = if out.len() == 0 {
            None
        } else {
            Some(0)
        };
        RecentFiles { order: SelectList { items: out, cursor }, capacity: cap }
    }

    /// Records a use of `path`: an already-present path is promoted to the
    /// front rather than duplicated; a new path evicts the least recently
    /// used entry when the ledger is full. The front entry is selected.
    pub fn add_recent(&mut self, path: String)
        requires
            old(self).wf(),
        ensures
            final(self).wf(),
            final(self).capacity == old(self).capacity,
            final(self).order@.items == mru_record(
                old(self).order@.items,
                old(self).capacity as int,
                path,
            ),
            final(self).order@.cursor == Some(0int),
    {
        let ghost s0 = self.order@.items;
        let n = self.order.len();
        let mut idx: usize = 0;
        let mut found: Option<usize> = None;
        while idx < n
            invariant
                self.order@.items == s0,
                n == s0.len(),
                idx <= n,
                match found {
                    Some(k) => {
                        &&& 0 <= k < idx
                        &&& s0[k as int]@ == path@
                        &&& forall|j: int| 0 <= j < k ==> s0[j]@ != path@
                    },
                    None => forall|j: int| 0 <= j < idx ==> s0[j]@ != path@,
                },
            decreases n - idx,
        {
            if found.is_none() {
                if *self.order.get(idx) == path {
                    found = Some(idx);
                }
            }
            idx += 1;
        }
        let ghost kept = s0.filter(drops_path(path));
        match found {
            Some(i) => {
                let _removed = self.order.items.remove(i);
                proof {
                    assert forall|j: int| 0 <= j < s0.len() && j != i implies s0[j]@ != path@ by {
                        if j > i {
                            assert(s0[i as int]@ == path@);
                        }
                    }
                    lemma_filter_removes_unique(s0, path, i as int);
                }
            },
            None => {
                proof {
                    lemma_filter_no_match(s0, path);
                }
            },
        }
        assert(self.order.items@ == kept);
        let ghost roomy = if kept.len() == self.capacity as int {
            kept.drop_last()
        } else {
            kept
        };
        if self.order.items.len() == self.capacity {
            let _evicted = self.order.items.pop();
        }
        assert(self.order.items@ == roomy);
        self.order.items.insert(0, path);
        proof {
            assert(self.order.items@ =~= seq![path] + roomy);
        }
        self.order.cursor = Some(0);
        proof {
            lemma_mru_record_props(s0, old(self).capacity as int, path);
        }
    }

    /// Returns the path the selection rests on, recording the use as a side
    /// effect — taking a history entry promotes it to the front. `None`,
    /// with nothing changed, while nothing is selected.
    pub fn select(&mut self) -> (r: Option<String>)
        requires
            old(self).wf(),
        ensures
            final(self).wf(),
            final(self).capacity == old(self).capacity,
            old(self).order@.cursor is None ==> r is None && final(self).order@ == old(
                self,
            ).order@,
            old(self).order@.cursor matches Some(i) ==> {
                &&& r == Some(old(self).order@.items[i])
                &&& final(self).order@.items == mru_record(
                    old(self).order@.items,
                    old(self).capacity as int,
                    old(self).order@.items[i],
                )
                &&& final(self).order@.cursor == Some(0int)
            },
    {
        let picked: Option<String> = match self.order.selected() {
            Some(p) => Some(p.clone()),
            None => None,
        };
        match picked {
            Some(p) => {
                let copy = p.clone();
                self.add_recent(p);
                Some(copy)
            },
            None => None,
        }
    }
}

impl Navigate for RecentFiles {
    open spec fn nav_len(&self) -> int {
        self.order@.items.len() as int
    }

    open spec fn nav_cursor(&self) -> Option<int> {
        self.order@.cursor
    }

    open spec fn nav_wf(&self) -> bool {
        self.wf()
    }

    open spec fn same_but_cursor(&self, other: &Self) -> bool {
        &&& other.order@.items == self.order@.items
        &&& other.capacity == self.capacity
    }

    fn previous(&mut self) {
        self.order.move_previous();
    }

    fn next(&mut self) {
        self.order.move_next();
    }
}

} // verus!
