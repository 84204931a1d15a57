use b_agent::bridge::{JavaBridge, NotifyAction, RuntimeAttachment};
use b_agent::cache::{ClassCache, ClassHandle};
use b_agent::client::Client;
use b_agent::coordinator::DependencyCoordinator;
use b_agent::error::Error;
use b_agent::injector::{BAgentInjector, ClassBlob, ClientTrait, Phase, resolve_from_candidates};
use b_agent::marshal::OwnedBuffer;

const DISPATCHER: &str = "io.github.brqnko.retransformer.Retransformer";

#[test]
fn cache_insert_then_get() {
    let mut cache = ClassCache::new();
    assert!(cache.get("com.example.Foo").is_none());
    cache.insert("com.example.Foo".to_string(), ClassHandle { id: 11 }).unwrap();
    assert_eq!(cache.get("com.example.Foo").unwrap().id, 11);
    assert!(cache.get("com.example.Bar").is_none());
}

#[test]
fn cache_stays_present_across_inserts() {
    // Cache monotonicity: once present, a name stays present for the session.
    let mut cache = ClassCache::new();
    cache.insert("a.A".to_string(), ClassHandle { id: 1 }).unwrap();
    cache.insert("b.B".to_string(), ClassHandle { id: 2 }).unwrap();
    cache.insert("c.C".to_string(), ClassHandle { id: 3 }).unwrap();
    assert_eq!(cache.get("a.A").unwrap().id, 1);
    assert_eq!(cache.get("b.B").unwrap().id, 2);
    assert_eq!(cache.get("c.C").unwrap().id, 3);
}

#[test]
fn cache_overwrite_takes_latest() {
    let mut cache = ClassCache::new();
    cache.insert("a.A".to_string(), ClassHandle { id: 1 }).unwrap();
    cache.insert("a.A".to_string(), ClassHandle { id: 9 }).unwrap();
    assert_eq!(cache.get("a.A").unwrap().id, 9);
}

#[test]
fn coordinator_report_and_drain() {
    let mut coord = DependencyCoordinator::new();
    coord.report_dependencies(&vec!["A".to_string(), "B".to_string(), "A".to_string()]);
    assert!(coord.is_pending("A"));
    assert!(coord.is_pending("B"));
    assert_eq!(coord.pending_len(), 2);
    let drained = coord.drain_pending();
    assert_eq!(drained.len(), 2);
    assert_eq!(coord.pending_len(), 0);
    assert!(!coord.is_pending("A"));
}

#[test]
fn observed_name_never_becomes_pending() {
    // Pending/observed disjointness: a name marked observed is skipped by
    // every later dependency report.
    let mut coord = DependencyCoordinator::new();
    coord.mark_observed(&"A".to_string());
    assert!(coord.is_observed("A"));
    coord.report_dependencies(&vec!["A".to_string(), "B".to_string()]);
    assert!(!coord.is_pending("A"));
    assert!(coord.is_pending("B"));
    coord.report_dependencies(&vec!["A".to_string()]);
    assert!(!coord.is_pending("A"));
}

#[test]
fn notify_is_idempotent() {
    // Idempotence: the second notification for the same name short-circuits.
    let mut bridge = JavaBridge::new(RuntimeAttachment { id: 1 }, "C:\\agent".to_string());
    bridge.insert_cache(DISPATCHER.to_string(), ClassHandle { id: 5 }).unwrap();
    let first = bridge.on_classfile_load_hook(&"com.example.Foo".to_string(), DISPATCHER);
    match first.unwrap() {
        NotifyAction::Dispatch { dispatcher, save_path } => {
            assert_eq!(dispatcher.id, 5);
            assert_eq!(save_path, "C:\\agent\\dumped\\com\\example\\Foo.class");
        }
        NotifyAction::AlreadyNotified => panic!("first notification must dispatch"),
    }
    let second = bridge.on_classfile_load_hook(&"com.example.Foo".to_string(), DISPATCHER);
    assert!(matches!(second, Ok(NotifyAction::AlreadyNotified)));
}

#[test]
fn notify_without_dispatcher_fails_and_session_continues() {
    // The dispatcher class is absent from the cache when the notification
    // fires: the notification fails, and the session goes on unaffected.
    let mut bridge = JavaBridge::new(RuntimeAttachment { id: 1 }, "C:\\agent".to_string());
    let r = bridge.on_classfile_load_hook(&"com.example.Foo".to_string(), DISPATCHER);
    assert!(matches!(r, Err(Error::ValueNotOfExpectedType(_))));
    // The name stays recorded, so a repeat is still the short-circuit.
    let again = bridge.on_classfile_load_hook(&"com.example.Foo".to_string(), DISPATCHER);
    assert!(matches!(again, Ok(NotifyAction::AlreadyNotified)));
    // Other classes are still served once the dispatcher arrives.
    bridge.insert_cache(DISPATCHER.to_string(), ClassHandle { id: 5 }).unwrap();
    let other = bridge.on_classfile_load_hook(&"com.example.Bar".to_string(), DISPATCHER);
    assert!(matches!(other, Ok(NotifyAction::Dispatch { .. })));
}

#[test]
fn marshal_round_trip_empty() {
    let crossed = OwnedBuffer::copy_in(&[]);
    assert_eq!(crossed.len(), 0);
    assert_eq!(crossed.copy_out(), Vec::<u8>::new());
}

#[test]
fn marshal_round_trip_large() {
    // Round-trip marshaling for a buffer past 64 KiB.
    let original: Vec<u8> = (0..70000u32).map(|i| (i % 251) as u8).collect();
    let crossed = OwnedBuffer::copy_in(original.as_slice());
    let returned = crossed.copy_out();
    assert_eq!(returned, original);
}

#[test]
fn setup_failures_are_fatal() {
    let mut session = BAgentInjector::new(<Client as ClientTrait>::new());
    let r = session.on_attached(None, "C:\\agent".to_string());
    assert!(matches!(r, Err(Error::ValueNotOfExpectedType(_))));
    assert_eq!(session.phase, Phase::Failed);

    let mut session = BAgentInjector::new(<Client as ClientTrait>::new());
    session.on_attached(Some(RuntimeAttachment { id: 3 }), "C:\\agent".to_string()).unwrap();
    assert_eq!(session.phase, Phase::CapabilitiesSet);
    let r = session.on_capabilities(false);
    assert!(matches!(r, Err(Error::InstrumentationFailure)));
    assert_eq!(session.phase, Phase::Failed);

    let mut session = BAgentInjector::new(<Client as ClientTrait>::new());
    session.on_attached(Some(RuntimeAttachment { id: 3 }), "C:\\agent".to_string()).unwrap();
    session.on_capabilities(true).unwrap();
    assert_eq!(session.phase, Phase::HookRegistered);
    let r = session.on_hook_installed(false);
    assert!(matches!(r, Err(Error::ValueNotOfExpectedType(_))));
    assert_eq!(session.phase, Phase::Failed);
}

#[test]
fn define_pass_registers_and_keeps_failures() {
    let mut session = BAgentInjector::new(<Client as ClientTrait>::new());
    session.on_attached(Some(RuntimeAttachment { id: 3 }), "C:\\agent".to_string()).unwrap();
    session.on_capabilities(true).unwrap();
    session.on_hook_installed(true).unwrap();
    assert_eq!(session.phase, Phase::InitialLoadInFlight);

    let blobs = vec![
        ClassBlob { name: "com/example/A.class".to_string(), bytes: vec![1, 2] },
        ClassBlob { name: "com/example/B.class".to_string(), bytes: vec![3] },
    ];
    let outcomes = vec![Some(ClassHandle { id: 21 }), None];
    let (remaining, progress) = session.define_pass(&blobs, &outcomes);
    assert!(progress);
    assert_eq!(remaining.len(), 1);
    assert_eq!(remaining[0].name, "com/example/B.class");
    assert_eq!(session.bridge.cache.get("com.example.A").unwrap().id, 21);
    assert!(session.bridge.cache.get("com.example.B").is_none());

    // A pass over the rest with no definition makes no progress: the batch
    // is abandoned as unresolvable, which is non-fatal.
    let outcomes = vec![None];
    let (remaining, progress) = session.define_pass(&remaining, &outcomes);
    assert!(!progress);
    assert_eq!(remaining.len(), 1);
}

#[test]
fn dependency_scenario_drains_to_done() {
    // The provider supplies one class with no initial dependencies; its
    // load reports one dependency, which the next drain resolves and
    // retransforms; the session ends with both names observed and nothing
    // pending.
    let mut session = BAgentInjector::new(<Client as ClientTrait>::new());
    session.on_attached(Some(RuntimeAttachment { id: 3 }), "C:\\agent".to_string()).unwrap();
    session.on_capabilities(true).unwrap();
    session.on_hook_installed(true).unwrap();

    let blobs = vec![ClassBlob { name: "A.class".to_string(), bytes: vec![0xCA] }];
    let outcomes = vec![Some(ClassHandle { id: 31 })];
    let (remaining, progress) = session.define_pass(&blobs, &outcomes);
    assert!(progress);
    assert!(remaining.is_empty());
    session.bridge.insert_cache(DISPATCHER.to_string(), ClassHandle { id: 40 }).unwrap();

    // The runtime loads A; the hook fires and the dispatch reports B.
    let action = session.class_file_load_hook(&"A".to_string());
    assert!(matches!(action, Ok(NotifyAction::Dispatch { .. })));
    session.fold_dependencies(&vec!["B".to_string()]);
    assert!(session.coordinator.is_pending("B"));

    session.finish_initial_load();
    assert_eq!(session.phase, Phase::Polling);

    let drained = session.poll();
    assert_eq!(session.phase, Phase::Draining);
    assert_eq!(drained, vec!["B".to_string()]);

    // B resolves on the scan of live loaders and is retransformed; its
    // load fires the hook, which reports no further dependencies.
    let resolved = b_agent::injector::resolve_from_candidates(
        None,
        &vec![None, Some(ClassHandle { id: 32 })],
        None,
    );
    assert_eq!(resolved.unwrap().id, 32);
    let action = session.class_file_load_hook(&"B".to_string());
    assert!(matches!(action, Ok(NotifyAction::Dispatch { .. })));
    session.fold_dependencies(&Vec::new());
    session.finish_drain();

    // Nothing is pending at the start of the next iteration: done.
    let drained = session.poll();
    assert!(drained.is_empty());
    assert_eq!(session.phase, Phase::Done);
    assert!(session.coordinator.is_observed("A"));
    assert!(session.coordinator.is_observed("B"));
    assert_eq!(session.coordinator.pending_len(), 0);
}

#[test]
fn resolve_prefers_primary_then_scan_then_fallback() {
    let r = resolve_from_candidates(
        Some(ClassHandle { id: 1 }),
        &vec![Some(ClassHandle { id: 2 })],
        Some(ClassHandle { id: 3 }),
    );
    assert_eq!(r.unwrap().id, 1);
    let r = resolve_from_candidates(
        None,
        &vec![None, Some(ClassHandle { id: 2 }), Some(ClassHandle { id: 9 })],
        Some(ClassHandle { id: 3 }),
    );
    assert_eq!(r.unwrap().id, 2);
    let r = resolve_from_candidates(None, &vec![None, None], Some(ClassHandle { id: 3 }));
    assert_eq!(r.unwrap().id, 3);
    let r = resolve_from_candidates(None, &Vec::new(), None);
    assert!(matches!(r, Err(Error::ValueNotOfExpectedType(_))));
}

#[test]
fn process_attach_builds_fresh_session() {
    let session = b_agent::process_attach().unwrap();
    assert_eq!(session.phase, Phase::Attaching);
    assert_eq!(session.coordinator.pending_len(), 0);
}
