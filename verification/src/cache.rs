//! The watch list: the numbers of the pull requests that the user follows.
//!
//! The list is a set written in rising order. Whatever is added or removed,
//! and whatever the stored list looked like, it holds no number twice and
//! lists its numbers from the smallest to the largest.

use vstd::prelude::*;

verus! {

/// Every element is larger than the one before it.
pub open spec fn strictly_increasing(s: Seq<u64>) -> bool {
    forall|i: int, j: int| 0 <= i < j < s.len() ==> s[i] < s[j]
}

/// A list in rising order holds no number twice.
pub proof fn lemma_increasing_no_duplicates(s: Seq<u64>)
    requires
        strictly_increasing(s),
    ensures
        s.no_duplicates(),
{
    assert forall|i: int, j: int| 0 <= i < s.len() && 0 <= j < s.len() && i != j implies s[i]
        != s[j] by {
        if i < j {
            assert(s[i] < s[j]);
        } else {
            assert(s[j] < s[i]);
        }
    }
}

/// A set of numbers has one list in rising order only.
pub proof fn lemma_increasing_unique(a: Seq<u64>, b: Seq<u64>)
    requires
        strictly_increasing(a),
        strictly_increasing(b),
        a.to_set() == b.to_set(),
    ensures
        a == b,
    decreases a.len(),
{
    if a.len() == 0 {
        if b.len() > 0 {
            assert(b.contains(b[0]));
            assert(b.to_set().contains(b[0]));
            assert(a.to_set().contains(b[0]));
        }
        assert(a =~= b);
    } else {
        if b.len() == 0 {
            assert(a.contains(a[0]));
            assert(a.to_set().contains(a[0]));
            assert(b.to_set().contains(a[0]));
        }
        // The largest number of a set is the last element of both lists.
        let top_a = a.last();
        let top_b = b.last();
        assert(a.contains(top_a));
        assert(b.contains(top_b));
        assert(b.to_set().contains(top_a));
        assert(a.to_set().contains(top_b));
        let at_b = choose|k: int| 0 <= k < b.len() && b[k] == top_a;
        let at_a = choose|k: int| 0 <= k < a.len() && a[k] == top_b;
        assert(top_a <= top_b) by {
            if at_b < b.len() - 1 {
                assert(b[at_b] < b[b.len() - 1]);
            }
        }
        assert(top_b <= top_a) by {
            if at_a < a.len() - 1 {
                assert(a[at_a] < a[a.len() - 1]);
            }
        }
        let rest_a = a.drop_last();
        let rest_b = b.drop_last();
        assert(rest_a.to_set() =~= rest_b.to_set()) by {
            assert forall|x: u64| rest_a.to_set().contains(x) implies rest_b.to_set().contains(
                x,
            ) by {
                let k = choose|k: int| 0 <= k < rest_a.len() && rest_a[k] == x;
                assert(a[k] == x);
                assert(a[k] < a[a.len() - 1]);
                assert(a.contains(x));
                assert(b.to_set().contains(x));
                let m = choose|m: int| 0 <= m < b.len() && b[m] == x;
                assert(m < b.len() - 1);
                assert(rest_b[m] == x);
            }
            assert forall|x: u64| rest_b.to_set().contains(x) implies rest_a.to_set().contains(
                x,
            ) by {
                let k = choose|k: int| 0 <= k < rest_b.len() && rest_b[k] == x;
                assert(b[k] == x);
                assert(b[k] < b[b.len() - 1]);
                assert(b.contains(x));
                assert(a.to_set().contains(x));
                let m = choose|m: int| 0 <= m < a.len() && a[m] == x;
                assert(m < a.len() - 1);
                assert(rest_a[m] == x);
            }
        }
        lemma_increasing_unique(rest_a, rest_b);
        assert(a =~= rest_a.push(top_a));
        assert(b =~= rest_b.push(top_b));
    }
}

/// Adding the same numbers a second time changes nothing: if `once` is the
/// list `before` with `ids` added, and `twice` is `once` with `ids` added,
/// then `twice` is `once`.
pub proof fn lemma_add_is_idempotent(
    before: Seq<u64>,
    ids: Seq<u64>,
    once: Seq<u64>,
    twice: Seq<u64>,
)
    requires
        strictly_increasing(once),
        once.to_set() == before.to_set().union(ids.to_set()),
        strictly_increasing(twice),
        twice.to_set() == once.to_set().union(ids.to_set()),
    ensures
        twice == once,
{
    assert(twice.to_set() =~= once.to_set());
    lemma_increasing_unique(twice, once);
}

/// The watch list.
#[derive(Debug)]
pub struct Cache {
    pull_requests: Vec<u64>,
}

impl View for Cache {
    type V = Seq<u64>;

    closed spec fn view(&self) -> Seq<u64> {
        self.pull_requests@
    }
}

/// Where to put `id` in a list in rising order: the number of elements below it.
fn position_of(list: &Vec<u64>, id: u64) -> (at: usize)
    requires
        strictly_increasing(list@),
    ensures
        at <= list.len(),
        forall|i: int| 0 <= i < at ==> list[i] < id,
        forall|i: int| at <= i < list.len() ==> id <= list[i],
{
    let mut at: usize = 0;
    while at < list.len() && list[at] < id
        invariant
            at <= list.len(),
            strictly_increasing(list@),
            forall|i: int| 0 <= i < at ==> list[i] < id,
        decreases list.len() - at,
    {
        at += 1;
    }
    proof {
        assert forall|i: int| at <= i < list.len() implies id <= list[i] by {
            if at < i {
                assert(list[at as int] < list[i]);
            }
        }
    }
    at
}

/// Whether `id` is an element of `list`.
fn holds(list: &Vec<u64>, id: u64) -> (found: bool)
    ensures
        found == list@.contains(id),
{
    let mut i: usize = 0;
    while i < list.len()
        invariant
            i <= list.len(),
            forall|k: int| 0 <= k < i ==> list[k] != id,
        decreases list.len() - i,
    {
        if list[i] == id {
            return true;
        }
        i += 1;
    }
    false
}

/// Puts `id` into a list in rising order, unless the list holds it.
fn insert_sorted(list: &mut Vec<u64>, id: u64)
    requires
        strictly_increasing(old(list)@),
    ensures
        strictly_increasing(final(list)@),
        final(list)@.to_set() == old(list)@.to_set().insert(id),
{
    let at = position_of(list, id);
    if at < list.len() && list[at] == id {
        proof {
            assert(list@.contains(id));
            assert(list@.to_set() =~= list@.to_set().insert(id));
        }
        return ;
    }
    let ghost before = list@;
    list.insert(at, id);
    proof {
        assert forall|i: int, j: int| 0 <= i < j < list.len() implies list[i] < list[j] by {
            if j < at {
                assert(before[i] < before[j]);
            } else if j == at {
            } else if i < at {
                assert(before[i] < id);
                assert(id <= before[j - 1]);
            } else if i == at {
                assert(id <= before[j - 1]);
                assert(id != before[j - 1]) by {
                    if j - 1 > at {
                        assert(before[at as int] < before[j - 1]);
                    }
                }
            } else {
                assert(before[i - 1] < before[j - 1]);
            }
        }
        assert(list@.to_set() =~= before.to_set().insert(id)) by {
            assert forall|x: u64| list@.to_set().contains(x) implies before.to_set().insert(
                id,
            ).contains(x) by {
                let k = choose|k: int| 0 <= k < list.len() && list[k] == x;
                if k < at {
                    assert(before[k] == x);
                    assert(before.contains(x));
                } else if k > at {
                    assert(before[k - 1] == x);
                    assert(before.contains(x));
                }
            }
            assert forall|x: u64| before.to_set().insert(id).contains(x) implies list@.to_set().contains(
                x,
            ) by {
                if x == id {
                    assert(list[at as int] == x);
                    assert(list@.contains(x));
                } else {
                    let k = choose|k: int| 0 <= k < before.len() && before[k] == x;
                    if k < at {
                        assert(list[k] == x);
                    } else {
                        assert(list[k + 1] == x);
                    }
                    assert(list@.contains(x));
                }
            }
        }
    }
}

impl Cache {
    #[verifier::type_invariant]
    spec fn in_rising_order(self) -> bool {
        strictly_increasing(self.pull_requests@)
    }

    /// The empty watch list.
    pub fn new() -> (cache: Cache)
        ensures
            cache@ == Seq::<u64>::empty(),
    {
        Cache { pull_requests: Vec::new() }
    }

    /// The watch list of the numbers in `ids`, which may come in any order
    /// and more than once.
    pub fn from_ids(ids: &Vec<u64>) -> (cache: Cache)
        ensures
            strictly_increasing(cache@),
            cache@.to_set() == ids@.to_set(),
    {
        let mut cache = Cache::new();
        cache.add(ids);
        proof {
            assert(cache@.to_set() =~= ids@.to_set());
        }
        cache
    }

    /// The numbers of the list, from the smallest to the largest.
    pub fn list(&self) -> (ids: Vec<u64>)
        ensures
            ids@ == self@,
            strictly_increasing(ids@),
    {
        proof {
            use_type_invariant(self);
        }
        self.pull_requests.clone()
    }

    /// How many pull requests are followed.
    pub fn len(&self) -> (count: usize)
        ensures
            count == self@.len(),
    {
        self.pull_requests.len()
    }

    /// Whether no pull request is followed.
    pub fn is_empty(&self) -> (empty: bool)
        ensures
            empty == (self@.len() == 0),
    {
        self.pull_requests.len() == 0
    }

    /// Whether the pull request `id` is followed.
    pub fn contains(&self, id: u64) -> (found: bool)
        ensures
            found == self@.contains(id),
    {
        holds(&self.pull_requests, id)
    }

    /// Follows the pull requests in `ids` too. The list is then the union of
    /// what it held and `ids`, in rising order.
    pub fn add(&mut self, ids: &Vec<u64>)
        ensures
            strictly_increasing(final(self)@),
            final(self)@.to_set() == old(self)@.to_set().union(ids@.to_set()),
    {
        proof {
            use_type_invariant(&*self);
        }
        let mut list: Vec<u64> = Vec::new();
        std::mem::swap(&mut list, &mut self.pull_requests);
        let ghost before = list@;
        let mut i: usize = 0;
        while i < ids.len()
            invariant
                i <= ids.len(),
                strictly_increasing(list@),
                list@.to_set() == before.to_set().union(ids@.take(i as int).to_set()),
            decreases ids.len() - i,
        {
            let ghost held = list@.to_set();
            insert_sorted(&mut list, ids[i]);
            proof {
                let sooner = ids@.take(i as int);
                let later = ids@.take(i + 1);
                assert(later =~= sooner.push(ids[i as int]));
                assert(later.to_set() =~= sooner.to_set().insert(ids[i as int])) by {
                    assert forall|x: u64| later.to_set().contains(x) implies sooner.to_set().insert(
                        ids[i as int],
                    ).contains(x) by {
                        let k = choose|k: int| 0 <= k < later.len() && later[k] == x;
                        if k < i {
                            assert(sooner[k] == x);
                            assert(sooner.contains(x));
                        }
                    }
                    assert forall|x: u64|
                        sooner.to_set().insert(ids[i as int]).contains(
                            x,
                        ) implies later.to_set().contains(x) by {
                        if x == ids[i as int] {
                            assert(later[i as int] == x);
                            assert(later.contains(x));
                        } else {
                            let k = choose|k: int| 0 <= k < sooner.len() && sooner[k] == x;
                            assert(later[k] == x);
                            assert(later.contains(x));
                        }
                    }
                }
                assert(list@.to_set() =~= before.to_set().union(later.to_set()));
            }
            i += 1;
        }
        proof {
            assert(ids@.take(i as int) =~= ids@);
        }
        self.pull_requests = list;
    }

    /// Stops following the pull requests in `ids`. The list is then what it
    /// held without the numbers of `ids`, in the order it had.
    pub fn remove(&mut self, ids: &Vec<u64>)
        ensures
            strictly_increasing(final(self)@),
            final(self)@ == old(self)@.filter(|id: u64| !ids@.contains(id)),
            final(self)@.to_set() == old(self)@.to_set().difference(ids@.to_set()),
    {
        proof {
            use_type_invariant(&*self);
        }
        let mut list: Vec<u64> = Vec::new();
        std::mem::swap(&mut list, &mut self.pull_requests);
        let ghost before = list@;
        let ghost stays = |id: u64| !ids@.contains(id);
        let mut kept: Vec<u64> = Vec::new();
        let mut i: usize = 0;
        while i < list.len()
            invariant
                i <= list.len(),
                list@ == before,
                stays == |id: u64| !ids@.contains(id),
                strictly_increasing(before),
                kept@ == before.take(i as int).filter(stays),
                strictly_increasing(kept@),
                forall|k: int| 0 <= k < kept.len() ==> before.take(i as int).contains(#[trigger] kept[k]),
            decreases list.len() - i,
        {
            let id = list[i];
            let ghost sooner = before.take(i as int);
            let ghost later = before.take(i + 1);
            proof {
                assert(later =~= sooner.push(id));
                assert(later.drop_last() =~= sooner);
                reveal(Seq::filter);
                assert(later.filter(stays) == if stays(id) {
                    sooner.filter(stays).push(id)
                } else {
                    sooner.filter(stays)
                });
            }
            if !holds(ids, id) {
                proof {
                    assert forall|a: int, b: int| 0 <= a < b < kept.len() + 1 implies kept@.push(
                        id,
                    )[a] < kept@.push(id)[b] by {
                        if b == kept.len() {
                            let k = choose|k: int| 0 <= k < sooner.len() && sooner[k] == kept[a];
                            assert(before[k] < before[i as int]);
                        }
                    }
                }
                kept.push(id);
            }
            proof {
                assert forall|k: int| 0 <= k < kept.len() implies later.contains(
                    #[trigger] kept[k],
                ) by {
                    if kept[k] == id && k == kept.len() - 1 && stays(id) {
                        assert(later[i as int] == id);
                    } else {
                        let m = choose|m: int| 0 <= m < sooner.len() && sooner[m] == kept[k];
                        assert(later[m] == kept[k]);
                    }
                }
            }
            i += 1;
        }
        proof {
            assert(before.take(i as int) =~= before);
            assert(kept@.to_set() =~= before.to_set().difference(ids@.to_set())) by {
                assert forall|x: u64| kept@.to_set().contains(x) <==> before.to_set().difference(
                    ids@.to_set(),
                ).contains(x) by {
                    before.filter_lemma(stays);
                    if kept@.contains(x) {
                        let k = choose|k: int| 0 <= k < kept@.len() && kept@[k] == x;
                        assert(before.filter(stays)[k] == x);
                        assert(stays(x) && before.contains(x));
                    }
                    if before.contains(x) && !ids@.contains(x) {
                        let k = choose|k: int| 0 <= k < before.len() && before[k] == x;
                        assert(stays(before[k]));
                        assert(before.filter(stays).contains(before[k]));
                    }
                }
            }
        }
        self.pull_requests = kept;
    }

    /// Stops following every pull request.
    pub fn clear(&mut self)
        ensures
            final(self)@ == Seq::<u64>::empty(),
    {
        self.pull_requests = Vec::new();
    }
}

} // verus!
