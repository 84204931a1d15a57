use vstd::prelude::*;
use vstd::string::*;

use crate::cache::{ClassCache, ClassHandle};
use crate::coordinator::{lemma_names_contain_push, names_contain, vec_contains_name};
use crate::error::Error;
use crate::strutil::{concat_strs, replace_chars, spec_replace};

verus! {

/// The directory under which observed class bytes are persisted, derived
/// from the agent's base directory.
pub open spec fn spec_save_location(base: Seq<char>) -> Seq<char> {
    base + "\\dumped\\"@
}

/// Save location of dumped classes, derived from the agent's base directory.
pub fn get_save_location(base: &str) -> (r: String)
    ensures
        r@ == spec_save_location(base@),
{
    concat_strs(base, "\\dumped\\")
}

/// The on-disk path for the bytes of a class: the save location followed by
/// the class name with every package-separator dot replaced by a path
/// separator, with a `.class` suffix.
pub open spec fn spec_save_path(base: Seq<char>, name: Seq<char>) -> Seq<char> {
    spec_save_location(base) + spec_replace(name, '.', '\\') + ".class"@
}

/// A handle to the managed runtime attachment. The agent never reads
/// anything out of it; the unverified side tags the attachment it owns with
/// a distinct identifier.
#[derive(Clone, Copy, Debug, PartialEq, Eq, Structural)]
pub struct RuntimeAttachment {
    pub id: u64,
}

/// What the caller of a class-loaded notification must do next.
pub enum NotifyAction {
    /// The class was notified before: return an empty dependency list and do
    /// nothing else.
    AlreadyNotified,
    /// First notification for this class: persist its bytes at `save_path`,
    /// then invoke the dispatcher method on the class whose handle is
    /// `dispatcher`, and fold the returned names into the pending set.
    Dispatch { dispatcher: ClassHandle, save_path: String },
}

/// Owns the runtime attachment and the class cache, and deduplicates
/// redundant class-loaded notifications with a record of the names already
/// handled.
pub struct JavaBridge {
    pub jvm: RuntimeAttachment,
    pub cache: ClassCache,
    pub saved_classes: Vec<String>,
    pub save_location: String,
}

impl JavaBridge {
    /// True when `n` was already handled by a notification.
    pub open spec fn saved_contains(&self, n: Seq<char>) -> bool {
        names_contain(self.saved_classes@, n)
    }

    /// The handle cached under `n`, if any.
    pub open spec fn cache_get(&self, n: Seq<char>) -> Option<ClassHandle> {
        self.cache.spec_get(n)
    }

    pub fn new(jvm: RuntimeAttachment, save_location: String) -> (r: Self)
        ensures
            r.jvm == jvm,
            r.save_location == save_location,
            forall|n: Seq<char>| r.cache_get(n) is None,
            forall|n: Seq<char>| !r.saved_contains(n),
    {
        JavaBridge { jvm, cache: ClassCache::new(), saved_classes: Vec::new(), save_location }
    }

    /// Registers a handle for a freshly defined class; delegates to the
    /// class cache. Called once per successfully defined class.
    pub fn insert_cache(&mut self, class_name: String, class: ClassHandle) -> (r: Result<
        (),
        Error,
    >)
        ensures
            r is Ok,
            forall|n: Seq<char>|
                final(self).cache_get(n) == if n == class_name@ {
                    Some(class)
                } else {
                    old(self).cache_get(n)
                },
            final(self).jvm == old(self).jvm,
            final(self).saved_classes@ == old(self).saved_classes@,
            final(self).save_location == old(self).save_location,
    {
        self.cache.insert(class_name, class)
    }

    /// The on-disk path for the bytes of `class_name`.
    pub fn save_path_for(&self, class_name: &str) -> (r: String)
        ensures
            r@ == spec_save_path(self.save_location@, class_name@),
    {
        let mut out = get_save_location(self.save_location.as_str());
        proof {
            reveal_strlit("\\");
        }
        let replaced = replace_chars(class_name, '.', "\\");
        out.append(replaced.as_str());
        out.append(".class");
        out
    }

    /// Decides how a class-loaded notification is handled.
    ///
    /// The first notification for a name records it as handled and asks the
    /// caller to persist the bytes and dispatch to the runtime-side
    /// dispatcher class, which must already stand in the cache; if it does
    /// not, the notification fails and the name stays recorded. Any
    /// repeated notification short-circuits to `AlreadyNotified`, which the
    /// caller answers with an empty dependency list.
    pub fn on_classfile_load_hook(&mut self, class_name: &String, dispatcher_class_name: &str)
        -> (r: Result<NotifyAction, Error>)
        ensures
            final(self).jvm == old(self).jvm,
            final(self).cache == old(self).cache,
            final(self).save_location == old(self).save_location,
            forall|n: Seq<char>|
                final(self).saved_contains(n) == (old(self).saved_contains(n) || n
                    == class_name@),
            old(self).saved_contains(class_name@) ==> (r matches Ok(a)
                && a matches NotifyAction::AlreadyNotified && final(self).saved_classes@ == old(
                self,
            ).saved_classes@),
            !old(self).saved_contains(class_name@) ==> match old(self).cache_get(
                dispatcher_class_name@,
            ) {
                None => r matches Err(e) && e matches Error::ValueNotOfExpectedType(m) && m@
                    == "retransformer class not found"@,
                Some(h) => r matches Ok(a) && a matches NotifyAction::Dispatch {
                    dispatcher,
                    save_path,
                } && dispatcher == h && save_path@ == spec_save_path(
                    old(self).save_location@,
                    class_name@,
                ),
            },
    {
        if vec_contains_name(&self.saved_classes, class_name.as_str()) {
            return Ok(NotifyAction::AlreadyNotified);
        }
        let ghost before = self.saved_classes@;
        self.saved_classes.push(class_name.clone());
        proof {
            assert forall|n: Seq<char>|
                names_contain(self.saved_classes@, n) == (names_contain(before, n) || n
                    == class_name@) by {
                lemma_names_contain_push(before, *class_name, n);
            }
        }
        let save_path = self.save_path_for(class_name.as_str());
        match self.cache.get(dispatcher_class_name) {
            None => Err(Error::ValueNotOfExpectedType("retransformer class not found")),
            Some(h) => Ok(NotifyAction::Dispatch { dispatcher: *h, save_path }),
        }
    }
}

/// Idempotence of the class-loaded notification: whatever the outcome of a
/// first notification for `name` — dispatch, or failure because the
/// dispatcher class is missing — the bridge afterwards records `name` as
/// handled, and the contract of `on_classfile_load_hook` then forces every
/// later notification for `name` to return `AlreadyNotified`, that is, an
/// empty dependency list.
pub proof fn lemma_notify_idempotent(pre: JavaBridge, mid: JavaBridge, name: Seq<char>)
    requires
        forall|n: Seq<char>| mid.saved_contains(n) == (pre.saved_contains(n) || n == name),
    ensures
        mid.saved_contains(name),
{
}

} // verus!
