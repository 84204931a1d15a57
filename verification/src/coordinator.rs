use vstd::prelude::*;

use crate::strutil::str_eq;

verus! {

/// True when some entry of `v` views to `n`.
pub open spec fn names_contain(v: Seq<String>, n: Seq<char>) -> bool {
    exists|i: int| 0 <= i < v.len() && v[i]@ == n
}

/// The set of class names held by `v`.
pub open spec fn names_set(v: Seq<String>) -> Set<Seq<char>> {
    Set::new(|n: Seq<char>| names_contain(v, n))
}

/// Pushing one entry adds exactly its name to the names held by a sequence.
pub proof fn lemma_names_contain_push(v: Seq<String>, x: String, n: Seq<char>)
    ensures
        names_contain(v.push(x), n) == (names_contain(v, n) || x@ == n),
{
    if names_contain(v.push(x), n) {
        let k = choose|k: int| 0 <= k < v.push(x).len() && v.push(x)[k]@ == n;
        if k < v.len() {
            assert(v[k]@ == n);
        }
    }
    if names_contain(v, n) {
        let k = choose|k: int| 0 <= k < v.len() && v[k]@ == n;
        assert(v.push(x)[k]@ == n);
    }
    if x@ == n {
        assert(v.push(x)[v.len() as int]@ == n);
    }
}

/// Extending a prefix by one entry adds exactly that entry's name.
pub proof fn lemma_names_contain_prefix_step(v: Seq<String>, i: int, n: Seq<char>)
    requires
        0 <= i < v.len(),
    ensures
        names_contain(v.subrange(0, i + 1), n) == (names_contain(v.subrange(0, i), n)
            || v[i]@ == n),
{
    assert(v.subrange(0, i + 1) =~= v.subrange(0, i).push(v[i]));
    lemma_names_contain_push(v.subrange(0, i), v[i], n);
}

/// Whether `v` holds an entry equal to `name`.
pub fn vec_contains_name(v: &Vec<String>, name: &str) -> (r: bool)
    ensures
        r == names_contain(v@, name@),
{
    let n = v.len();
    let mut i: usize = 0;
    while i < n
        invariant
            n == v@.len(),
            0 <= i <= n,
            forall|j: int| 0 <= j < i ==> v@[j]@ != name@,
        decreases n - i,
    {
        if str_eq(v[i].as_str(), name) {
            return true;
        }
        i += 1;
    }
    false
}

/// Process-wide dependency state shared between the load-hook side and the
/// orchestrator: the pending set of class names awaiting injection and the
/// set of class names the runtime has already reported as loaded. The two
/// sets live in one structure so that checking and marking a name happen
/// under the same exclusive borrow.
pub struct DependencyCoordinator {
    pub pending: Vec<String>,
    pub observed: Vec<String>,
}

impl DependencyCoordinator {
    /// Names awaiting injection.
    pub open spec fn pending_set(&self) -> Set<Seq<char>> {
        names_set(self.pending@)
    }

    pub open spec fn pending_contains(&self, n: Seq<char>) -> bool {
        names_contain(self.pending@, n)
    }

    /// Names the runtime has reported through the load hook at least once.
    pub open spec fn observed_set(&self) -> Set<Seq<char>> {
        names_set(self.observed@)
    }

    pub open spec fn observed_contains(&self, n: Seq<char>) -> bool {
        names_contain(self.observed@, n)
    }

    pub fn new() -> (r: Self)
        ensures
            forall|n: Seq<char>| !r.pending_contains(n),
            forall|n: Seq<char>| !r.observed_contains(n),
    {
        DependencyCoordinator { pending: Vec::new(), observed: Vec::new() }
    }

    /// Folds a batch of reported dependency names into the pending set,
    /// skipping every name the runtime has already been observed to load.
    /// Called on the load-hook side; the observed set is left untouched.
    pub fn report_dependencies(&mut self, names: &Vec<String>)
        ensures
            final(self).observed@ == old(self).observed@,
            forall|n: Seq<char>|
                final(self).pending_contains(n) == (old(self).pending_contains(n) || (
                names_contain(names@, n) && !old(self).observed_contains(n))),
            final(self).pending_set() == old(self).pending_set().union(
                names_set(names@).difference(old(self).observed_set()),
            ),
    {
        let n = names.len();
        let mut i: usize = 0;
        while i < n
            invariant
                n == names@.len(),
                0 <= i <= n,
                self.observed@ == old(self).observed@,
                forall|m: Seq<char>|
                    self.pending_contains(m) == (old(self).pending_contains(m) || (
                    names_contain(names@.subrange(0, i as int), m)
                        && !old(self).observed_contains(m))),
            decreases n - i,
        {
            let name = &names[i];
            let ghost pending_before = self.pending@;
            if !vec_contains_name(&self.observed, name.as_str()) && !vec_contains_name(
                &self.pending,
                name.as_str(),
            ) {
                self.pending.push(name.clone());
            }
            proof {
                assert forall|m: Seq<char>|
                    names_contain(self.pending@, m) == (names_contain(pending_before, m)
                        || (names@[i as int]@ == m && !old(self).observed_contains(m)
                        && !names_contain(pending_before, m))) by {
                    if self.pending@ != pending_before {
                        lemma_names_contain_push(pending_before, names@[i as int], m);
                    }
                }
                assert forall|m: Seq<char>| #![all_triggers]
                    names_contain(names@.subrange(0, i + 1), m) == (names_contain(
                        names@.subrange(0, i as int),
                        m,
                    ) || names@[i as int]@ == m) by {
                    lemma_names_contain_prefix_step(names@, i as int, m);
                }
            }
            i += 1;
        }
        proof {
            assert(names@.subrange(0, n as int) =~= names@);
            assert forall|m: Seq<char>|
                self.pending_set().contains(m) == old(self).pending_set().union(
                    names_set(names@).difference(old(self).observed_set()),
                ).contains(m) by {
                assert(self.pending_contains(m) == (old(self).pending_contains(m) || (
                names_contain(names@, m) && !old(self).observed_contains(m))));
            }
            assert(self.pending_set() =~= old(self).pending_set().union(
                names_set(names@).difference(old(self).observed_set()),
            ));
        }
    }

    /// Atomically empties the pending set and hands back its prior contents.
    /// Called once per orchestrator loop iteration.
    pub fn drain_pending(&mut self) -> (r: Vec<String>)
        ensures
            final(self).observed@ == old(self).observed@,
            forall|n: Seq<char>| !final(self).pending_contains(n),
            r@ == old(self).pending@,
            final(self).pending_set() == Set::<Seq<char>>::empty(),
            names_set(r@) == old(self).pending_set(),
    {
        let mut taken: Vec<String> = Vec::new();
        core::mem::swap(&mut taken, &mut self.pending);
        proof {
            assert(self.pending_set() =~= Set::<Seq<char>>::empty());
            assert(names_set(taken@) =~= old(self).pending_set());
        }
        taken
    }

    /// Records that the runtime has reported `name` as loaded. The pending
    /// set is left untouched.
    pub fn mark_observed(&mut self, name: &String)
        ensures
            final(self).pending@ == old(self).pending@,
            forall|n: Seq<char>|
                final(self).observed_contains(n) == (old(self).observed_contains(n) || n
                    == name@),
            final(self).observed_set() == old(self).observed_set().insert(name@),
    {
        if !vec_contains_name(&self.observed, name.as_str()) {
            let ghost before = self.observed@;
            self.observed.push(name.clone());
            proof {
                assert forall|n: Seq<char>|
                    names_contain(self.observed@, n) == (names_contain(before, n) || n
                        == name@) by {
                    lemma_names_contain_push(before, *name, n);
                }
            }
        }
        proof {
            assert(self.observed_set() =~= old(self).observed_set().insert(name@));
        }
    }

    /// Whether `name` is currently pending.
    pub fn is_pending(&self, name: &str) -> (r: bool)
        ensures
            r == self.pending_contains(name@),
    {
        vec_contains_name(&self.pending, name)
    }

    /// Whether the runtime has reported `name` as loaded.
    pub fn is_observed(&self, name: &str) -> (r: bool)
        ensures
            r == self.observed_contains(name@),
    {
        vec_contains_name(&self.observed, name)
    }

    /// Number of names currently pending.
    pub fn pending_len(&self) -> (r: usize)
        ensures
            r == self.pending@.len(),
    {
        self.pending.len()
    }
}

/// Pending/observed disjointness: once a name stands in the observed set, no
/// dependency report ever adds it to the pending set; after any report it is
/// pending only if it already was before.
pub proof fn lemma_observed_never_added(
    pre: DependencyCoordinator,
    post: DependencyCoordinator,
    reported: Seq<String>,
    name: Seq<char>,
)
    requires
        pre.observed_contains(name),
        post.observed@ == pre.observed@,
        forall|n: Seq<char>|
            post.pending_contains(n) == (pre.pending_contains(n) || (names_contain(reported, n)
                && !pre.observed_contains(n))),
    ensures
        post.pending_contains(name) == pre.pending_contains(name),
{
}

} // verus!
