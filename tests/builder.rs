use std::path::PathBuf;
use std::time::Duration;

use iroh::builder::{AuthorStorage, Builder, BuiltinAlpns, ProtocolKind};
use iroh::config::{DocsStorage, GcPolicy, StorageConfig, DEFAULT_BIND_PORT};

fn builtin() -> BuiltinAlpns {
    BuiltinAlpns {
        blobs: b"/iroh-bytes/4".to_vec(),
        gossip: b"/iroh-gossip/0".to_vec(),
        docs: b"/iroh-sync/1".to_vec(),
    }
}

fn mem_builder() -> Builder<&'static str, u32> {
    Builder::with_db_and_store("mem store", DocsStorage::Memory, StorageConfig::Mem)
}

#[test]
fn plan_registers_builtins_before_user_protocols() {
    let plan = mem_builder()
        .accept(b"example-proto/0".to_vec(), 7)
        .accept(b"other/1".to_vec(), 8)
        .spawn_plan(builtin());
    let alpns: Vec<Vec<u8>> = plan.registrations.iter().map(|r| r.alpn.clone()).collect();
    assert_eq!(
        alpns,
        vec![
            b"/iroh-bytes/4".to_vec(),
            b"/iroh-gossip/0".to_vec(),
            b"/iroh-sync/1".to_vec(),
            b"example-proto/0".to_vec(),
            b"other/1".to_vec(),
        ]
    );
    assert!(matches!(plan.registrations[0].kind, ProtocolKind::Blobs));
    assert!(matches!(plan.registrations[1].kind, ProtocolKind::Gossip));
    assert!(matches!(
        plan.registrations[2].kind,
        ProtocolKind::Docs { store: DocsStorage::Memory, author: AuthorStorage::Mem }
    ));
    assert!(matches!(plan.registrations[3].kind, ProtocolKind::Custom(7)));
    assert!(matches!(plan.registrations[4].kind, ProtocolKind::Custom(8)));
}

#[test]
fn plan_without_docs_skips_docs_registration() {
    let plan = mem_builder().disable_docs().accept(b"p".to_vec(), 1).spawn_plan(builtin());
    assert_eq!(plan.registrations.len(), 3);
    assert!(matches!(plan.registrations[2].kind, ProtocolKind::Custom(1)));
    // the docs identifier is still among the advertised ones
    assert_eq!(plan.alpns.len(), 4);
}

#[test]
fn plan_advertises_union_in_insertion_order() {
    let plan = mem_builder()
        .accept(b"/iroh-gossip/0".to_vec(), 1)
        .accept(b"mine/0".to_vec(), 2)
        .accept(b"mine/0".to_vec(), 3)
        .spawn_plan(builtin());
    assert_eq!(
        plan.alpns,
        vec![
            b"/iroh-bytes/4".to_vec(),
            b"/iroh-gossip/0".to_vec(),
            b"/iroh-sync/1".to_vec(),
            b"mine/0".to_vec(),
        ]
    );
}

#[test]
fn new_builder_defaults() {
    let plan = mem_builder().spawn_plan(builtin());
    assert!(!plan.keylog);
    assert!(!plan.insecure_skip_relay_cert_verify);
    assert_eq!(plan.gc_interval, None);
    assert_eq!(plan.registrations.len(), 3);
}

#[test]
fn plan_default_bind_port() {
    let plan = mem_builder().spawn_plan(builtin());
    assert_eq!(plan.bind_port, 11204);
    assert_eq!(DEFAULT_BIND_PORT, 11204);
    let plan = mem_builder().bind_port(4242).spawn_plan(builtin());
    assert_eq!(plan.bind_port, 4242);
    let plan = mem_builder().bind_random_port().spawn_plan(builtin());
    assert_eq!(plan.bind_port, 0);
}

#[test]
fn plan_gc_interval_follows_policy() {
    let plan = mem_builder().spawn_plan(builtin());
    assert_eq!(plan.gc_interval, None);
    let plan = mem_builder()
        .gc_policy(GcPolicy::Interval(Duration::from_millis(50)))
        .spawn_plan(builtin());
    assert_eq!(plan.gc_interval, Some(Duration::from_millis(50)));
}

#[test]
fn plan_carries_flags_and_store() {
    let plan = mem_builder().keylog(true).insecure_skip_relay_cert_verify(true).spawn_plan(builtin());
    assert!(plan.keylog);
    assert!(plan.insecure_skip_relay_cert_verify);
    assert_eq!(plan.blobs_store, "mem store");
    assert!(matches!(plan.storage, StorageConfig::Mem));
}

#[test]
fn persist_switches_to_disk_and_drops_protocols() {
    let b: Builder<&str, u32> = mem_builder()
        .bind_port(5)
        .accept(b"p".to_vec(), 1)
        .persist(PathBuf::from("/data/node"), "fs store", PathBuf::from("/data/node/docs.redb"));
    let plan = b.spawn_plan(builtin());
    assert_eq!(plan.registrations.len(), 3);
    assert_eq!(plan.bind_port, 5);
    assert_eq!(plan.blobs_store, "fs store");
    assert!(matches!(&plan.storage, StorageConfig::Persistent(p) if p == &PathBuf::from("/data/node")));
    match &plan.registrations[2].kind {
        ProtocolKind::Docs { store: DocsStorage::Persistent(p), author } => {
            assert_eq!(p, &PathBuf::from("/data/node/docs.redb"));
            assert_eq!(*author, AuthorStorage::Persistent);
        }
        _ => panic!("docs registration expected"),
    }
}

#[test]
fn without_protocols_keeps_settings() {
    let plan = mem_builder()
        .keylog(true)
        .accept(b"p".to_vec(), 1)
        .without_protocols()
        .spawn_plan(builtin());
    assert_eq!(plan.registrations.len(), 3);
    assert!(plan.keylog);
}
