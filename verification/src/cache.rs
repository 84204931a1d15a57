use vstd::prelude::*;

use crate::error::Error;
use crate::strutil::str_eq;

verus! {

/// An opaque reference to a class object inside the managed runtime.
///
/// The agent never looks inside a handle; it only stores one per class name
/// and hands it back for retransformation requests. The raw runtime pointer
/// lives on the unverified side of the boundary, which tags each handle it
/// hands in with a distinct identifier.
#[derive(Clone, Copy, Debug, PartialEq, Eq, Structural)]
pub struct ClassHandle {
    pub id: u64,
}

/// Association from a fully qualified class name to the handle stored for it.
/// The most recent insertion for a name wins, as in a map.
pub open spec fn assoc_get(s: Seq<(String, ClassHandle)>, name: Seq<char>) -> Option<ClassHandle>
    decreases s.len(),
{
    if s.len() == 0 {
        None
    } else if s[0].0@ == name {
        Some(s[0].1)
    } else {
        assoc_get(s.drop_first(), name)
    }
}

/// If none of the first `i` entries carries `name`, the lookup is decided by
/// the remaining entries alone.
proof fn lemma_assoc_get_skip(s: Seq<(String, ClassHandle)>, name: Seq<char>, i: int)
    requires
        0 <= i <= s.len(),
        forall|j: int| 0 <= j < i ==> s[j].0@ != name,
    ensures
        assoc_get(s, name) == assoc_get(s.skip(i), name),
    decreases i,
{
    if i == 0 {
        assert(s.skip(0) =~= s);
    } else {
        assert(forall|j: int|
            0 <= j < i - 1 ==> s.drop_first()[j] == s[j + 1] && s[j + 1].0@ != name);
        lemma_assoc_get_skip(s.drop_first(), name, i - 1);
        assert(s.drop_first().skip(i - 1) =~= s.skip(i));
    }
}

/// A mapping from fully qualified class name to an opaque runtime class
/// handle, populated once per class and read repeatedly. Later insertions for
/// the same name overwrite, though the agent never intentionally re-inserts.
/// Reads are side-effect free and safe beside one another; writes are
/// serialized by the bridge's exclusive borrow, not by the cache itself.
pub struct ClassCache {
    pub entries: Vec<(String, ClassHandle)>,
}

impl ClassCache {
    /// The handle stored under `name`, if any.
    pub open spec fn spec_get(&self, name: Seq<char>) -> Option<ClassHandle> {
        assoc_get(self.entries@, name)
    }

    /// True when some handle is stored under `name`.
    pub open spec fn contains(&self, name: Seq<char>) -> bool {
        self.spec_get(name) is Some
    }

    pub fn new() -> (r: Self)
        ensures
            forall|n: Seq<char>| r.spec_get(n) is None,
    {
        ClassCache { entries: Vec::new() }
    }

    /// Stores `class` under `class_name`; afterwards every lookup for that
    /// name yields `class` and all other names are unaffected.
    pub fn insert(&mut self, class_name: String, class: ClassHandle) -> (r: Result<(), Error>)
        ensures
            r is Ok,
            forall|n: Seq<char>|
                final(self).spec_get(n) == if n == class_name@ {
                    Some(class)
                } else {
                    old(self).spec_get(n)
                },
    {
        let ghost before = self.entries@;
        self.entries.insert(0, (class_name, class));
        proof {
            assert(self.entries@.drop_first() =~= before);
        }
        Ok(())
    }

    /// Read-only lookup: returns the stored handle when present, nothing
    /// otherwise, and has no side effect.
    pub fn get(&self, class_name: &str) -> (r: Option<&ClassHandle>)
        ensures
            match r {
                Some(h) => self.spec_get(class_name@) == Some(*h),
                None => self.spec_get(class_name@) is None,
            },
    {
        let n = self.entries.len();
        let mut i: usize = 0;
        while i < n
            invariant
                n == self.entries.len(),
                0 <= i <= n,
                forall|j: int| 0 <= j < i ==> self.entries@[j].0@ != class_name@,
            decreases n - i,
        {
            if str_eq(self.entries[i].0.as_str(), class_name) {
                proof {
                    lemma_assoc_get_skip(self.entries@, class_name@, i as int);
                    assert(self.entries@.skip(i as int)[0] == self.entries@[i as int]);
                }
                return Some(&self.entries[i].1);
            }
            i += 1;
        }
        proof {
            lemma_assoc_get_skip(self.entries@, class_name@, n as int);
        }
        None
    }
}

/// Cache monotonicity: a name that resolves to a handle keeps resolving to a
/// handle after any further insertion; nothing is ever removed within a
/// session.
pub proof fn lemma_cache_monotonic(
    pre: ClassCache,
    post: ClassCache,
    inserted_name: Seq<char>,
    inserted_handle: ClassHandle,
    name: Seq<char>,
)
    requires
        forall|n: Seq<char>|
            post.spec_get(n) == if n == inserted_name {
                Some(inserted_handle)
            } else {
                pre.spec_get(n)
            },
        pre.contains(name),
    ensures
        post.contains(name),
{
}

} // verus!
