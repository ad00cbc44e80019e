use rootsync::content_id::ContentId;
use rootsync::manifest::Manifest;
use rootsync::push::{push, EthRemote, LocalState, PushConfig, PushError};
use rootsync::registry::{CasOutcome, MemoryRootRegistry, Signer};
use rootsync::store::MemoryContentStore;

fn cid_of(content: &[u8]) -> ContentId {
    let mut scratch = MemoryContentStore::new();
    scratch.upload(&content.to_vec())
}

fn root0() -> ContentId {
    cid_of(b"genesis")
}

fn full_config() -> PushConfig {
    PushConfig {
        ipfs_remote: Some(rootsync::ipfs::IpfsRemote::default()),
        eth_remote: Some(EthRemote { url: "http://127.0.0.1:8545".to_owned() }),
        signer: Some(Signer { key: b"test-signing-key".to_vec() }),
    }
}

fn one_file_state(content: &[u8]) -> (LocalState, Vec<Vec<u8>>) {
    let mut manifest = Manifest::new();
    manifest.add_entry(b"a.txt".to_vec(), cid_of(content));
    let local = LocalState { root: root0(), manifest };
    (local, vec![content.to_vec()])
}

#[test]
fn push_with_block_already_present_uploads_only_manifest() {
    // Local root R0; the manifest records a.txt -> cid("hello"); the remote
    // store already holds that block.
    let (mut local, files) = one_file_state(b"hello");
    let mut store = MemoryContentStore::new();
    store.seed_block(cid_of(b"hello"));
    let mut registry = MemoryRootRegistry::new(root0());

    let before = store.upload_count();
    let new_root = push(&full_config(), &mut local, &files, &mut store, &mut registry)
        .expect("push should succeed");

    // Nothing but the manifest object was uploaded.
    assert_eq!(store.upload_count(), before + 1);
    // The registry advanced R0 -> R1 and local state agrees.
    assert!(registry.current_root().same_as(&new_root));
    assert!(local.root.same_as(&new_root));
    assert!(!new_root.same_as(&root0()));
    // The published manifest chains back to R0.
    match &local.manifest.previous_root {
        Some(prev) => assert!(prev.same_as(&root0())),
        None => panic!("previous root must be recorded"),
    }
}

#[test]
fn push_uploads_missing_block_then_manifest() {
    let (mut local, files) = one_file_state(b"hello");
    let mut store = MemoryContentStore::new();
    let mut registry = MemoryRootRegistry::new(root0());

    let new_root = push(&full_config(), &mut local, &files, &mut store, &mut registry)
        .expect("push should succeed");

    // The object and the manifest were uploaded.
    assert_eq!(store.upload_count(), 2);
    assert!(store.contains_block(&cid_of(b"hello")));
    assert!(registry.current_root().same_as(&new_root));
}

#[test]
fn second_push_uploads_nothing_but_the_manifest() {
    let (mut local, files) = one_file_state(b"hello");
    let mut store = MemoryContentStore::new();
    let mut registry = MemoryRootRegistry::new(root0());
    let config = full_config();

    push(&config, &mut local, &files, &mut store, &mut registry).expect("first push");
    let before = store.upload_count();
    push(&config, &mut local, &files, &mut store, &mut registry).expect("second push");
    assert_eq!(store.upload_count(), before + 1);
}

#[test]
fn mismatched_cid_fails_verification_and_registry_is_untouched() {
    // The local record claims a.txt has the identifier of other content, so
    // the store's computed identifier for the upload must differ.
    let mut manifest = Manifest::new();
    manifest.add_entry(b"a.txt".to_vec(), cid_of(b"goodbye"));
    let mut local = LocalState { root: root0(), manifest };
    let files = vec![b"hello".to_vec()];
    let mut store = MemoryContentStore::new();
    let mut registry = MemoryRootRegistry::new(root0());

    let r = push(&full_config(), &mut local, &files, &mut store, &mut registry);
    match r {
        Err(PushError::CidMismatch(returned, expected)) => {
            assert!(returned.same_as(&cid_of(b"hello")));
            assert!(expected.same_as(&cid_of(b"goodbye")));
        },
        _ => panic!("push must fail with a verification error"),
    }
    // Registry root remains R0; local state is untouched.
    assert!(registry.current_root().same_as(&root0()));
    assert!(local.root.same_as(&root0()));
    assert!(local.manifest.previous_root.is_none());
}

#[test]
fn concurrent_pusher_with_stale_root_observes_conflict() {
    let (mut local_a, files_a) = one_file_state(b"hello");
    let (mut local_b, files_b) = one_file_state(b"hello");
    let mut store = MemoryContentStore::new();
    let mut registry = MemoryRootRegistry::new(root0());
    let config = full_config();

    push(&config, &mut local_a, &files_a, &mut store, &mut registry).expect("first wins");
    let r = push(&config, &mut local_b, &files_b, &mut store, &mut registry);
    assert!(matches!(r, Err(PushError::Conflict)));
    // The loser's local state remains at R0.
    assert!(local_b.root.same_as(&root0()));
    assert!(local_b.manifest.previous_root.is_none());
}

#[test]
fn registry_fault_leaves_local_state_unchanged() {
    let (mut local, files) = one_file_state(b"hello");
    let mut store = MemoryContentStore::new();
    let mut registry = MemoryRootRegistry::new(root0());
    registry.inject_fault("ledger unavailable".to_owned());

    let r = push(&full_config(), &mut local, &files, &mut store, &mut registry);
    match r {
        Err(PushError::EthBackend(message)) => assert_eq!(message, "ledger unavailable"),
        _ => panic!("a registry fault must surface as a backend failure"),
    }
    assert!(registry.current_root().same_as(&root0()));
    assert!(local.root.same_as(&root0()));
    assert!(local.manifest.previous_root.is_none());
}

#[test]
fn missing_ipfs_remote_is_fatal_before_any_call() {
    let (mut local, files) = one_file_state(b"hello");
    let mut store = MemoryContentStore::new();
    let mut registry = MemoryRootRegistry::new(root0());
    let mut config = full_config();
    config.ipfs_remote = None;

    let r = push(&config, &mut local, &files, &mut store, &mut registry);
    assert!(matches!(r, Err(PushError::MissingIpfsRemote)));
    assert_eq!(store.upload_count(), 0);
    assert!(registry.current_root().same_as(&root0()));
}

#[test]
fn missing_eth_remote_is_fatal_before_any_call() {
    let (mut local, files) = one_file_state(b"hello");
    let mut store = MemoryContentStore::new();
    let mut registry = MemoryRootRegistry::new(root0());
    let mut config = full_config();
    config.eth_remote = None;

    let r = push(&config, &mut local, &files, &mut store, &mut registry);
    assert!(matches!(r, Err(PushError::MissingEthRemote)));
    assert_eq!(store.upload_count(), 0);
}

#[test]
fn missing_signer_is_a_configuration_error() {
    let (mut local, files) = one_file_state(b"hello");
    let mut store = MemoryContentStore::new();
    let mut registry = MemoryRootRegistry::new(root0());
    let mut config = full_config();
    config.signer = None;

    let r = push(&config, &mut local, &files, &mut store, &mut registry);
    assert!(matches!(r, Err(PushError::Config)));
    assert_eq!(store.upload_count(), 0);
}

#[test]
fn compare_and_swap_commits_conflicts_and_faults() {
    let signer = Signer { key: b"test-signing-key".to_vec() };
    let r0 = root0();
    let r1 = cid_of(b"next");
    let mut registry = MemoryRootRegistry::new(r0.clone());

    assert!(matches!(registry.compare_and_swap(&r0, &r1, &signer), CasOutcome::Committed));
    assert!(registry.current_root().same_as(&r1));
    // A stale expectation conflicts and changes nothing.
    assert!(matches!(
        registry.compare_and_swap(&r0, &cid_of(b"other"), &signer),
        CasOutcome::Conflicted
    ));
    assert!(registry.current_root().same_as(&r1));
    // An injected fault fails exactly one transaction, with its description.
    registry.inject_fault("gas exhausted".to_owned());
    match registry.compare_and_swap(&r1, &cid_of(b"other"), &signer) {
        CasOutcome::Faulted(message) => assert_eq!(message, "gas exhausted"),
        _ => panic!("the injected fault must fail the transaction"),
    }
    assert!(registry.current_root().same_as(&r1));
    assert!(matches!(
        registry.compare_and_swap(&r1, &cid_of(b"other"), &signer),
        CasOutcome::Committed
    ));
}

#[test]
fn store_probe_reports_only_seeded_and_uploaded_blocks() {
    let mut store = MemoryContentStore::new();
    assert!(!store.contains_block(&cid_of(b"hello")));
    store.seed_block(cid_of(b"hello"));
    assert!(store.contains_block(&cid_of(b"hello")));
    assert_eq!(store.upload_count(), 0);
    let c = store.upload(&b"world".to_vec());
    assert!(store.contains_block(&c));
    assert_eq!(store.upload_count(), 1);
}
