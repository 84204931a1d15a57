use vstd::prelude::*;

use crate::bridge::{JavaBridge, NotifyAction, RuntimeAttachment};
use crate::cache::ClassHandle;
use crate::coordinator::DependencyCoordinator;
use crate::error::Error;
use crate::marshal::copy_bytes;
use crate::strutil::{entry_to_class_name, spec_entry_class_name};

verus! {

/// The bytes of one provided class, immutable once read from its source;
/// consumed exactly once by the orchestrator's initial load pass.
pub struct ClassBlob {
    pub name: String,
    pub bytes: Vec<u8>,
}

/// The name and byte views of a sequence of blobs.
pub open spec fn blob_views(s: Seq<ClassBlob>) -> Seq<(Seq<char>, Seq<u8>)> {
    Seq::new(s.len(), |i: int| (s[i].name@, s[i].bytes@))
}

/// A fresh blob holding the same name and the same bytes.
pub fn clone_blob(b: &ClassBlob) -> (r: ClassBlob)
    ensures
        r.name@ == b.name@,
        r.bytes@ == b.bytes@,
{
    ClassBlob { name: b.name.clone(), bytes: copy_bytes(&b.bytes) }
}

/// The class provider: supplies the initial class bytes, the names to
/// retransform under the single-shot protocol variant, and the runtime-side
/// dispatcher class and method the bridge dispatches to.
pub trait ClientTrait: Sized {
    /// The dispatcher class name, as the contracts speak of it.
    spec fn spec_retransformer_class_name(&self) -> Seq<char>;

    /// The dispatcher method name, as the contracts speak of it.
    spec fn spec_retransform_method_name(&self) -> Seq<char>;

    fn new() -> Self;

    /// The classes to define into the target's class loader on the initial
    /// pass.
    fn client_classes(&self) -> Result<Vec<ClassBlob>, Error>;

    /// The class names to retransform under the single-shot protocol
    /// variant.
    fn class_names_to_retransform(&self) -> Result<Vec<String>, Error>;

    /// The classes handed to the single-shot retransform variant.
    fn retransform_classes(&self) -> Result<Vec<ClassBlob>, Error>;

    /// The full name of the runtime-side dispatcher class.
    fn retransformer_class_name(&self) -> (r: &str)
        ensures
            r@ == self.spec_retransformer_class_name(),
    ;

    /// The name of the dispatcher's static method.
    fn retransform_method_name(&self) -> (r: &str)
        ensures
            r@ == self.spec_retransform_method_name(),
    ;
}

/// The stage the orchestrator is working through. Each variant names the
/// step underway; a successful step moves to the next variant, a fatal
/// failure during setup moves to `Failed`.
#[derive(Clone, Copy, Debug, PartialEq, Eq, Structural)]
pub enum Phase {
    /// Locating the single running runtime instance and attaching to it.
    Attaching,
    /// Requesting the redefinition and retransformation capabilities.
    CapabilitiesSet,
    /// Installing the class-file load hook.
    HookRegistered,
    /// Defining the provided classes into the target's class loader.
    InitialLoadInFlight,
    /// Sleeping a quantum, then checking the pending set.
    Polling,
    /// Resolving and retransforming the names drained from the pending set.
    Draining,
    /// The pending set was empty at the start of an iteration; teardown.
    Done,
    /// A fatal setup error aborted the session.
    Failed,
}

/// The blobs whose definition outcome was a transient failure, in order:
/// what remains for the next pass.
pub open spec fn spec_undefined(
    entries: Seq<(Seq<char>, Seq<u8>)>,
    outcomes: Seq<Option<ClassHandle>>,
) -> Seq<(Seq<char>, Seq<u8>)>
    decreases entries.len(),
{
    if entries.len() == 0 || entries.len() != outcomes.len() {
        Seq::empty()
    } else {
        let rest = spec_undefined(entries.drop_last(), outcomes.drop_last());
        if outcomes.last() is None {
            rest.push(entries.last())
        } else {
            rest
        }
    }
}

/// The orchestrator: drives one session from attachment through the initial
/// bulk definition and the polling/draining loop to teardown. The outside
/// runtime work — attaching, defining a class, resolving a loaded class,
/// requesting a retransformation — happens beyond the boundary; its
/// outcomes are handed in as plain values and every decision taken on them
/// is made here.
pub struct BAgentInjector<C: ClientTrait> {
    pub client: C,
    pub bridge: JavaBridge,
    pub coordinator: DependencyCoordinator,
    pub phase: Phase,
}

impl<C: ClientTrait> BAgentInjector<C> {
    /// A fresh session around the given provider, ready to attach.
    pub fn new(client: C) -> (r: Self)
        ensures
            r.phase == Phase::Attaching,
            r.client == client,
            forall|n: Seq<char>| !r.coordinator.pending_contains(n),
            forall|n: Seq<char>| !r.coordinator.observed_contains(n),
            forall|n: Seq<char>| r.bridge.cache_get(n) is None,
            forall|n: Seq<char>| !r.bridge.saved_contains(n),
    {
        BAgentInjector {
            client,
            bridge: JavaBridge::new(RuntimeAttachment { id: 0 }, String::new()),
            coordinator: DependencyCoordinator::new(),
            phase: Phase::Attaching,
        }
    }

    /// Records the outcome of locating and attaching to the runtime. An
    /// absent attachment is the fatal `NoRuntimeFound` condition; success
    /// hands the bridge its attachment and the save location and moves on
    /// to requesting capabilities.
    pub fn on_attached(&mut self, attachment: Option<RuntimeAttachment>, save_location: String)
        -> (r: Result<(), Error>)
        requires
            old(self).phase == Phase::Attaching,
        ensures
            final(self).client == old(self).client,
            final(self).coordinator == old(self).coordinator,
            final(self).bridge.cache == old(self).bridge.cache,
            final(self).bridge.saved_classes@ == old(self).bridge.saved_classes@,
            match attachment {
                Some(a) => final(self).phase == Phase::CapabilitiesSet && final(self).bridge.jvm
                    == a && final(self).bridge.save_location == save_location && r is Ok,
                None => final(self).phase == Phase::Failed && final(self).bridge == old(self).bridge && (r matches Err(e) && e matches Error::ValueNotOfExpectedType(m) && m@
                    == "active jvm"@),
            },
    {
        match attachment {
            Some(a) => {
                self.bridge.jvm = a;
                self.bridge.save_location = save_location;
                self.phase = Phase::CapabilitiesSet;
                Ok(())
            },
            None => {
                self.phase = Phase::Failed;
                Err(Error::ValueNotOfExpectedType("active jvm"))
            },
        }
    }

    /// Records whether the instrumentation interface granted the mandatory
    /// redefinition/retransformation capabilities. A refusal is fatal:
    /// there is no degraded mode.
    pub fn on_capabilities(&mut self, granted: bool) -> (r: Result<(), Error>)
        requires
            old(self).phase == Phase::CapabilitiesSet,
        ensures
            final(self).client == old(self).client,
            final(self).coordinator == old(self).coordinator,
            final(self).bridge == old(self).bridge,
            granted ==> final(self).phase == Phase::HookRegistered && r is Ok,
            !granted ==> final(self).phase == Phase::Failed && (r matches Err(e)
                && e matches Error::InstrumentationFailure),
    {
        if granted {
            self.phase = Phase::HookRegistered;
            Ok(())
        } else {
            self.phase = Phase::Failed;
            Err(Error::InstrumentationFailure)
        }
    }

    /// Records whether the class-file load hook was installed and its event
    /// notification enabled. From a successful installation on, the hook
    /// may run concurrently with every later stage.
    pub fn on_hook_installed(&mut self, installed: bool) -> (r: Result<(), Error>)
        requires
            old(self).phase == Phase::HookRegistered,
        ensures
            final(self).client == old(self).client,
            final(self).coordinator == old(self).coordinator,
            final(self).bridge == old(self).bridge,
            installed ==> final(self).phase == Phase::InitialLoadInFlight && r is Ok,
            !installed ==> final(self).phase == Phase::Failed && (r matches Err(e)
                && e matches Error::ValueNotOfExpectedType(m) && m@ == "set event callbacks"@),
    {
        if installed {
            self.phase = Phase::InitialLoadInFlight;
            Ok(())
        } else {
            self.phase = Phase::Failed;
            Err(Error::ValueNotOfExpectedType("set event callbacks"))
        }
    }

    /// Folds the outcomes of one definition pass over the remaining blobs
    /// into the session: every defined class is registered in the cache
    /// under its dotted name, and the blobs that failed transiently are
    /// returned for the next pass together with whether the pass made any
    /// progress. A pass with no progress means the caller abandons the
    /// batch as unresolvable, a reported but non-fatal condition.
    pub fn define_pass(&mut self, remaining: &Vec<ClassBlob>, outcomes: &Vec<
        Option<ClassHandle>,
    >) -> (r: (Vec<ClassBlob>, bool))
        requires
            old(self).phase == Phase::InitialLoadInFlight,
            outcomes@.len() == remaining@.len(),
            forall|i: int, j: int|
                0 <= i < j < remaining@.len() ==> spec_entry_class_name(remaining@[i].name@)
                    != spec_entry_class_name(remaining@[j].name@),
        ensures
            final(self).client == old(self).client,
            final(self).coordinator == old(self).coordinator,
            final(self).phase == old(self).phase,
            final(self).bridge.jvm == old(self).bridge.jvm,
            final(self).bridge.save_location == old(self).bridge.save_location,
            final(self).bridge.saved_classes@ == old(self).bridge.saved_classes@,
            blob_views(r.0@) == spec_undefined(blob_views(remaining@), outcomes@),
            r.1 == exists|i: int| 0 <= i < outcomes@.len() && outcomes@[i] is Some,
            forall|i: int|
                0 <= i < outcomes@.len() && outcomes@[i] is Some ==> final(self).bridge.cache_get(spec_entry_class_name(remaining@[i].name@)) == outcomes@[i],
            forall|n: Seq<char>|
                !(exists|i: int|
                    0 <= i < outcomes@.len() && outcomes@[i] is Some && spec_entry_class_name(
                        remaining@[i].name@,
                    ) == n) ==> final(self).bridge.cache_get(n) == old(self).bridge.cache_get(n),
    {
        let n = remaining.len();
        let mut undefined: Vec<ClassBlob> = Vec::new();
        let mut progress = false;
        let mut i: usize = 0;
        while i < n
            invariant
                n == remaining@.len(),
                outcomes@.len() == n,
                0 <= i <= n,
                forall|a: int, b: int|
                    0 <= a < b < remaining@.len() ==> spec_entry_class_name(remaining@[a].name@)
                        != spec_entry_class_name(remaining@[b].name@),
                self.client == old(self).client,
                self.coordinator == old(self).coordinator,
                self.phase == old(self).phase,
                self.bridge.jvm == old(self).bridge.jvm,
                self.bridge.save_location == old(self).bridge.save_location,
                self.bridge.saved_classes@ == old(self).bridge.saved_classes@,
                blob_views(undefined@) =~= spec_undefined(
                    blob_views(remaining@).subrange(0, i as int),
                    outcomes@.subrange(0, i as int),
                ),
                progress == exists|j: int| 0 <= j < i && outcomes@[j] is Some,
                forall|j: int|
                    0 <= j < i && outcomes@[j] is Some ==> self.bridge.cache_get(
                        spec_entry_class_name(remaining@[j].name@),
                    ) == outcomes@[j],
                forall|m: Seq<char>|
                    !(exists|j: int|
                        0 <= j < i && outcomes@[j] is Some && spec_entry_class_name(
                            remaining@[j].name@,
                        ) == m) ==> self.bridge.cache_get(m) == old(self).bridge.cache_get(m),
            decreases n - i,
        {
            let ghost entries_pre = blob_views(remaining@).subrange(0, i as int);
            let ghost outs_pre = outcomes@.subrange(0, i as int);
            let ghost entries_next = blob_views(remaining@).subrange(0, i + 1);
            let ghost outs_next = outcomes@.subrange(0, i + 1);
            proof {
                assert(entries_next.drop_last() =~= entries_pre);
                assert(outs_next.drop_last() =~= outs_pre);
                assert(entries_next.last() == blob_views(remaining@)[i as int]);
                assert(outs_next.last() == outcomes@[i as int]);
            }
            match outcomes[i] {
                Some(handle) => {
                    let class_name = entry_to_class_name(remaining[i].name.as_str());
                    let _ = self.bridge.insert_cache(class_name, handle);
                    progress = true;
                },
                None => {
                    undefined.push(clone_blob(&remaining[i]));
                },
            }
            proof {
                assert(blob_views(undefined@) =~= spec_undefined(entries_next, outs_next));
            }
            i += 1;
        }
        proof {
            assert(blob_views(remaining@).subrange(0, n as int) =~= blob_views(remaining@));
            assert(outcomes@.subrange(0, n as int) =~= outcomes@);
        }
        (undefined, progress)
    }

    /// Leaves the initial bulk definition, whether it completed or was
    /// abandoned without progress, and enters the polling loop.
    pub fn finish_initial_load(&mut self)
        requires
            old(self).phase == Phase::InitialLoadInFlight,
        ensures
            final(self).client == old(self).client,
            final(self).coordinator == old(self).coordinator,
            final(self).bridge == old(self).bridge,
            final(self).phase == Phase::Polling,
    {
        self.phase = Phase::Polling;
    }

    /// One poll: atomically drains the pending set. When nothing was
    /// pending at the start of the iteration the session is done;
    /// otherwise the drained names are to be resolved and retransformed
    /// while the session is draining.
    pub fn poll(&mut self) -> (r: Vec<String>)
        requires
            old(self).phase == Phase::Polling,
        ensures
            final(self).client == old(self).client,
            final(self).bridge == old(self).bridge,
            final(self).coordinator.observed@ == old(self).coordinator.observed@,
            forall|n: Seq<char>| !final(self).coordinator.pending_contains(n),
            r@ == old(self).coordinator.pending@,
            crate::coordinator::names_set(r@) == old(self).coordinator.pending_set(),
            old(self).coordinator.pending@.len() == 0 ==> final(self).phase == Phase::Done,
            old(self).coordinator.pending@.len() > 0 ==> final(self).phase == Phase::Draining,
    {
        let taken = self.coordinator.drain_pending();
        if taken.len() == 0 {
            self.phase = Phase::Done;
        } else {
            self.phase = Phase::Draining;
        }
        taken
    }

    /// Ends a drain pass; the orchestrator goes back to polling.
    pub fn finish_drain(&mut self)
        requires
            old(self).phase == Phase::Draining,
        ensures
            final(self).client == old(self).client,
            final(self).coordinator == old(self).coordinator,
            final(self).bridge == old(self).bridge,
            final(self).phase == Phase::Polling,
    {
        self.phase = Phase::Polling;
    }

    /// The verified part of the load-hook callback: records the loaded
    /// class as observed and lets the bridge decide between the
    /// idempotence short-circuit, a dispatch order, and the missing-
    /// dispatcher failure. Runs on the runtime's own thread at any stage,
    /// so no phase is required.
    pub fn class_file_load_hook(&mut self, class_name: &String) -> (r: Result<NotifyAction, Error>)
        ensures
            final(self).client == old(self).client,
            final(self).phase == old(self).phase,
            final(self).coordinator.pending@ == old(self).coordinator.pending@,
            forall|n: Seq<char>|
                final(self).coordinator.observed_contains(n) == (old(self).coordinator.observed_contains(n) || n == class_name@),
            final(self).coordinator.observed_set() == old(self).coordinator.observed_set().insert(
                class_name@,
            ),
            final(self).bridge.jvm == old(self).bridge.jvm,
            final(self).bridge.cache == old(self).bridge.cache,
            final(self).bridge.save_location == old(self).bridge.save_location,
            forall|n: Seq<char>|
                final(self).bridge.saved_contains(n) == (old(self).bridge.saved_contains(n) || n
                    == class_name@),
            old(self).bridge.saved_contains(class_name@) ==> (r matches Ok(a)
                && a matches NotifyAction::AlreadyNotified),
            !old(self).bridge.saved_contains(class_name@) ==> match old(self).bridge.cache_get(
                old(self).client.spec_retransformer_class_name(),
            ) {
                None => r matches Err(e) && e matches Error::ValueNotOfExpectedType(m) && m@
                    == "retransformer class not found"@,
                Some(h) => r matches Ok(a) && a matches NotifyAction::Dispatch {
                    dispatcher,
                    save_path,
                } && dispatcher == h && save_path@ == crate::bridge::spec_save_path(
                    old(self).bridge.save_location@,
                    class_name@,
                ),
            },
    {
        self.coordinator.mark_observed(class_name);
        let dispatcher_name = self.client.retransformer_class_name();
        self.bridge.on_classfile_load_hook(class_name, dispatcher_name)
    }

    /// Folds the dependency names a dispatch returned into the pending
    /// set, skipping every name already observed as loaded.
    pub fn fold_dependencies(&mut self, names: &Vec<String>)
        ensures
            final(self).client == old(self).client,
            final(self).phase == old(self).phase,
            final(self).bridge == old(self).bridge,
            final(self).coordinator.observed@ == old(self).coordinator.observed@,
            forall|n: Seq<char>|
                final(self).coordinator.pending_contains(n) == (old(self).coordinator.pending_contains(n) || (crate::coordinator::names_contain(names@, n)
                    && !old(self).coordinator.observed_contains(n))),
            final(self).coordinator.pending_set() == old(self).coordinator.pending_set().union(
                crate::coordinator::names_set(names@).difference(
                    old(self).coordinator.observed_set(),
                ),
            ),
    {
        self.coordinator.report_dependencies(names);
    }
}

/// The first available handle among the resolution attempts for one class:
/// the default lookup is preferred, then the scan over the live execution
/// contexts' class loaders in order, then a final direct attempt.
pub open spec fn spec_first_resolved(
    primary: Option<ClassHandle>,
    scanned: Seq<Option<ClassHandle>>,
    fallback: Option<ClassHandle>,
) -> Option<ClassHandle>
    decreases scanned.len(),
{
    if primary is Some {
        primary
    } else if scanned.len() > 0 {
        if scanned.first() is Some {
            scanned.first()
        } else {
            spec_first_resolved(primary, scanned.drop_first(), fallback)
        }
    } else {
        fallback
    }
}

/// Picks the resolved class handle out of the lookup attempts, in their
/// preference order; when every attempt came back empty the class is not
/// resolvable and the lookup fails.
pub fn resolve_from_candidates(
    primary: Option<ClassHandle>,
    scanned: &Vec<Option<ClassHandle>>,
    fallback: Option<ClassHandle>,
) -> (r: Result<ClassHandle, Error>)
    ensures
        match spec_first_resolved(primary, scanned@, fallback) {
            Some(h) => r matches Ok(rh) && rh == h,
            None => r matches Err(e) && e matches Error::ValueNotOfExpectedType(m) && m@
                == "find_class"@,
        },
{
    if let Some(h) = primary {
        return Ok(h);
    }
    let n = scanned.len();
    let mut i: usize = 0;
    proof {
        assert(scanned@.skip(0) =~= scanned@);
    }
    while i < n
        invariant
            n == scanned@.len(),
            0 <= i <= n,
            primary is None,
            forall|j: int| 0 <= j < i ==> scanned@[j] is None,
            spec_first_resolved(primary, scanned@, fallback) == spec_first_resolved(
                primary,
                scanned@.skip(i as int),
                fallback,
            ),
        decreases n - i,
    {
        proof {
            assert(scanned@.skip(i as int).first() == scanned@[i as int]);
            assert(scanned@.skip(i as int).drop_first() =~= scanned@.skip(i + 1));
        }
        if let Some(h) = scanned[i] {
            return Ok(h);
        }
        i += 1;
    }
    proof {
        assert(scanned@.skip(n as int).len() == 0);
    }
    match fallback {
        Some(h) => Ok(h),
        None => Err(Error::ValueNotOfExpectedType("find_class")),
    }
}

/// The dependency names that loading the pending classes reports: every
/// name that some pending class depends on.
pub open spec fn reported_names(
    p: Set<Seq<char>>,
    deps: Map<Seq<char>, Set<Seq<char>>>,
) -> Set<Seq<char>> {
    Set::new(
        |m: Seq<char>|
            exists|n: Seq<char>| p.contains(n) && deps.contains_key(n) && deps[n].contains(m),
    )
}

/// One iteration of the polling loop over the coordinator's `pending_set`
/// and `observed_set` views, as the contracts of `poll`,
/// `class_file_load_hook` and `fold_dependencies` describe them: every drained name is resolved, loads, and is marked
/// observed; the dependency names those loads report, less everything
/// already observed, form the pending set of the next iteration.
pub open spec fn poll_round(
    p: Set<Seq<char>>,
    o: Set<Seq<char>>,
    deps: Map<Seq<char>, Set<Seq<char>>>,
) -> (Set<Seq<char>>, Set<Seq<char>>) {
    (reported_names(p, deps).difference(o.union(p)), o.union(p))
}

/// `k` iterations of the polling loop.
pub open spec fn poll_rounds(
    p: Set<Seq<char>>,
    o: Set<Seq<char>>,
    deps: Map<Seq<char>, Set<Seq<char>>>,
    k: nat,
) -> (Set<Seq<char>>, Set<Seq<char>>)
    decreases k,
{
    if k == 0 {
        (p, o)
    } else {
        poll_rounds(poll_round(p, o, deps).0, poll_round(p, o, deps).1, deps, (k - 1) as nat)
    }
}

/// Convergence of the polling loop: over a dependency graph that is acyclic
/// — witnessed by a rank that strictly decreases along every dependency
/// edge — a pending set whose names all have rank at most `r` drains to
/// empty within `r + 1` polling rounds. The number of iterations is thus
/// bounded in proportion to the depth of the graph, however the pending
/// set grows while the loop runs.
pub proof fn lemma_polling_converges(
    p: Set<Seq<char>>,
    o: Set<Seq<char>>,
    deps: Map<Seq<char>, Set<Seq<char>>>,
    rank: Map<Seq<char>, nat>,
    r: nat,
)
    requires
        forall|n: Seq<char>, m: Seq<char>|
            deps.contains_key(n) && deps[n].contains(m) && rank.contains_key(n)
                ==> rank.contains_key(m) && rank[m] < rank[n],
        forall|n: Seq<char>| p.contains(n) ==> rank.contains_key(n) && rank[n] <= r,
    ensures
        poll_rounds(p, o, deps, (r + 1) as nat).0 =~= Set::<Seq<char>>::empty(),
    decreases r,
{
    let p1 = poll_round(p, o, deps).0;
    let o1 = poll_round(p, o, deps).1;
    assert forall|m: Seq<char>| p1.contains(m) implies rank.contains_key(m) && rank[m]
        < r by {
        let n = choose|n: Seq<char>| p.contains(n) && deps.contains_key(n) && deps[n].contains(m);
        assert(rank.contains_key(n) && rank[n] <= r);
        assert(rank.contains_key(m) && rank[m] < rank[n]);
    }
    if r == 0 {
        assert(p1 =~= Set::<Seq<char>>::empty());
        assert(poll_rounds(p, o, deps, 1) == poll_rounds(p1, o1, deps, 0));
    } else {
        lemma_polling_converges(p1, o1, deps, rank, (r - 1) as nat);
        assert(poll_rounds(p, o, deps, (r + 1) as nat) == poll_rounds(p1, o1, deps, r));
    }
}

} // verus!
