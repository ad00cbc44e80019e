//! Protocol-level guarantees of [`crate::push::push`], proved once and for
//! all over its functional specification [`crate::push::spec_push`].

use vstd::prelude::*;

use crate::manifest::{encode_bytes, encode_len, encode_manifest, encode_previous_root, EntryV,
    ManifestV};
use crate::push::{config_complete, spec_push, sync_upto, PushConfig, PushErrorV, LocalStateV,
    lemma_sync_error_sticky};
use crate::registry::RegistryV;
use crate::store::{store_cid_of, StoreV};

verus! {

/// A local record that agrees with the working directory: every entry's
/// recorded identifier is the one the store computes for that entry's file.
pub open spec fn manifest_matches_files(entries: Seq<EntryV>, files: Seq<Seq<u8>>) -> bool {
    &&& files.len() == entries.len()
    &&& forall|j: int| 0 <= j < entries.len() ==> entries[j].cid == store_cid_of(files[j])
}

/// An element already in a sequence is still there after a push.
proof fn lemma_push_preserves_contains(s: Seq<Seq<u8>>, x: Seq<u8>, y: Seq<u8>)
    requires
        s.contains(y),
    ensures
        s.push(x).contains(y),
{
    let j = choose|j: int| 0 <= j < s.len() && s[j] == y;
    assert(s.push(x)[j] == y);
}

/// A consistent local record never fails verification: synchronization runs
/// to the end without a mismatch.
proof fn lemma_sync_consistent_ok(
    entries: Seq<EntryV>,
    files: Seq<Seq<u8>>,
    store: StoreV,
    n: int,
)
    requires
        0 <= n <= entries.len(),
        manifest_matches_files(entries, files),
    ensures
        sync_upto(entries, files, store, n).1 is None,
    decreases n,
{
    if n > 0 {
        lemma_sync_consistent_ok(entries, files, store, n - 1);
        assert(entries[n - 1].cid == store_cid_of(files[n - 1]));
    }
}

/// After a clean synchronization of the first `n` entries, the store holds
/// every one of their recorded identifiers.
proof fn lemma_sync_all_present(
    entries: Seq<EntryV>,
    files: Seq<Seq<u8>>,
    store: StoreV,
    n: int,
)
    requires
        0 <= n <= entries.len(),
        sync_upto(entries, files, store, n).1 is None,
    ensures
        forall|j: int|
            0 <= j < n ==> sync_upto(entries, files, store, n).0.blocks.contains(entries[j].cid),
    decreases n,
{
    if n > 0 {
        let prev = sync_upto(entries, files, store, n - 1);
        if prev.1 is Some {
            lemma_sync_error_sticky(entries, files, store, n - 1, n);
        }
        lemma_sync_all_present(entries, files, store, n - 1);
        let cur = sync_upto(entries, files, store, n);
        let rc = store_cid_of(files[n - 1]);
        assert forall|j: int| 0 <= j < n implies cur.0.blocks.contains(entries[j].cid) by {
            if j < n - 1 {
                if !prev.0.blocks.contains(entries[n - 1].cid) {
                    lemma_push_preserves_contains(prev.0.blocks, rc, entries[j].cid);
                }
            } else {
                if prev.0.blocks.contains(entries[n - 1].cid) {
                } else {
                    assert(cur.0.blocks[prev.0.blocks.len() as int] == rc);
                }
            }
        };
    }
}

/// Synchronizing entries the store already holds changes nothing and
/// uploads nothing.
proof fn lemma_sync_noop(entries: Seq<EntryV>, files: Seq<Seq<u8>>, store: StoreV, n: int)
    requires
        0 <= n <= entries.len(),
        forall|j: int| 0 <= j < n ==> store.blocks.contains(entries[j].cid),
    ensures
        sync_upto(entries, files, store, n).0 == store,
        sync_upto(entries, files, store, n).1 is None,
    decreases n,
{
    if n > 0 {
        lemma_sync_noop(entries, files, store, n - 1);
    }
}

/// The identifier of a published manifest is strictly longer than the root
/// it chains to, so the two can never be the same identifier.
proof fn lemma_manifest_cid_longer(m: ManifestV, r: Seq<u8>)
    requires
        m.previous_root == Some(r),
    ensures
        store_cid_of(encode_manifest(m)).len() > r.len(),
{
    assert(encode_len(r.len()).len() == 8);
    assert(encode_bytes(r).len() == 8 + r.len());
    assert(encode_previous_root(m.previous_root).len() == 9 + r.len());
    assert(encode_manifest(m).len() >= 9 + r.len());
}

/// A push whose local record matches its files, made from the root the
/// registry currently holds, succeeds.
pub proof fn lemma_push_succeeds(
    config: PushConfig,
    local: LocalStateV,
    files: Seq<Seq<u8>>,
    store: StoreV,
    registry: RegistryV,
)
    requires
        config_complete(config),
        manifest_matches_files(local.manifest.entries, files),
        registry.root == local.root,
        registry.fail_next is None,
    ensures
        spec_push(config, local, files, store, registry).result is Ok,
{
    lemma_sync_consistent_ok(
        local.manifest.entries,
        files,
        store,
        local.manifest.entries.len() as int,
    );
}

/// Pushing twice in a row with no remote-side changes performs zero object
/// uploads the second time: the only upload the second push makes is the
/// one manifest object it publishes (idempotent existence probing).
pub proof fn lemma_push_idempotent(
    config: PushConfig,
    local: LocalStateV,
    files: Seq<Seq<u8>>,
    store: StoreV,
    registry: RegistryV,
)
    requires
        config_complete(config),
        manifest_matches_files(local.manifest.entries, files),
        registry.root == local.root,
        registry.fail_next is None,
    ensures
        ({
            let first = spec_push(config, local, files, store, registry);
            let second = spec_push(config, first.local, files, first.store, first.registry);
            let republished = ManifestV {
                entries: local.manifest.entries,
                previous_root: Some(first.local.root),
            };
            &&& first.result is Ok
            &&& second.result is Ok
            &&& second.store.uploads =~= first.store.uploads.push(
                store_cid_of(encode_manifest(republished)),
            )
        }),
{
    let entries = local.manifest.entries;
    let n = entries.len() as int;
    lemma_push_succeeds(config, local, files, store, registry);
    lemma_sync_consistent_ok(entries, files, store, n);
    let sync = sync_upto(entries, files, store, n);
    lemma_sync_all_present(entries, files, store, n);
    let first = spec_push(config, local, files, store, registry);
    let published = ManifestV { entries, previous_root: Some(local.root) };
    let new_root = store_cid_of(encode_manifest(published));
    assert forall|j: int| 0 <= j < n implies first.store.blocks.contains(entries[j].cid) by {
        lemma_push_preserves_contains(sync.0.blocks, new_root, entries[j].cid);
    };
    lemma_sync_noop(entries, files, first.store, n);
}

/// An object the store does not hold, whose content the store identifies
/// differently than the local record does, fails the push with a
/// verification error — and the registry is never called, the local state
/// never written.
pub proof fn lemma_verification_failure_stops_push(
    config: PushConfig,
    local: LocalStateV,
    files: Seq<Seq<u8>>,
    store: StoreV,
    registry: RegistryV,
    i: int,
)
    requires
        config_complete(config),
        0 <= i < local.manifest.entries.len(),
        sync_upto(local.manifest.entries, files, store, i).1 is None,
        !sync_upto(local.manifest.entries, files, store, i).0.blocks.contains(
            local.manifest.entries[i].cid,
        ),
        store_cid_of(files[i]) != local.manifest.entries[i].cid,
    ensures
        ({
            let o = spec_push(config, local, files, store, registry);
            &&& o.result == Err::<Seq<u8>, PushErrorV>(
                PushErrorV::CidMismatch(store_cid_of(files[i]), local.manifest.entries[i].cid),
            )
            &&& o.registry == registry
            &&& o.local == local
        }),
{
    let entries = local.manifest.entries;
    lemma_sync_error_sticky(entries, files, store, i + 1, entries.len() as int);
}

/// Two pushers starting from the same root: the first one's compare-and-swap
/// succeeds, the second observes a conflict and its local state remains at
/// the old root — never a lost update.
pub proof fn lemma_concurrent_pushers_conflict(
    config: PushConfig,
    local_a: LocalStateV,
    files_a: Seq<Seq<u8>>,
    local_b: LocalStateV,
    files_b: Seq<Seq<u8>>,
    store: StoreV,
    registry: RegistryV,
)
    requires
        config_complete(config),
        manifest_matches_files(local_a.manifest.entries, files_a),
        manifest_matches_files(local_b.manifest.entries, files_b),
        registry.root == local_a.root,
        registry.root == local_b.root,
        registry.fail_next is None,
    ensures
        ({
            let a = spec_push(config, local_a, files_a, store, registry);
            let b = spec_push(config, local_b, files_b, a.store, a.registry);
            &&& a.result is Ok
            &&& b.result == Err::<Seq<u8>, PushErrorV>(PushErrorV::Conflict)
            &&& b.local == local_b
            &&& b.registry == a.registry
        }),
{
    lemma_push_succeeds(config, local_a, files_a, store, registry);
    let a = spec_push(config, local_a, files_a, store, registry);
    let published_a = ManifestV {
        entries: local_a.manifest.entries,
        previous_root: Some(local_a.root),
    };
    lemma_manifest_cid_longer(published_a, local_a.root);
    assert(a.registry.root != local_b.root);
    lemma_sync_consistent_ok(
        local_b.manifest.entries,
        files_b,
        a.store,
        local_b.manifest.entries.len() as int,
    );
}

/// After any successful push: the local root, the registry root and the
/// identifier of the published manifest are one and the same value, and the
/// published manifest chains to the pre-push root.
pub proof fn lemma_success_publishes_root(
    config: PushConfig,
    local: LocalStateV,
    files: Seq<Seq<u8>>,
    store: StoreV,
    registry: RegistryV,
)
    requires
        spec_push(config, local, files, store, registry).result is Ok,
    ensures
        ({
            let o = spec_push(config, local, files, store, registry);
            let published = ManifestV {
                entries: local.manifest.entries,
                previous_root: Some(local.root),
            };
            &&& o.local.root == o.registry.root
            &&& o.local.root == store_cid_of(encode_manifest(published))
            &&& o.local.manifest == published
            &&& o.local.manifest.previous_root == Some(local.root)
        }),
{
}

/// No local durable write without a registry commit: every failed push
/// leaves the local state exactly as it was.
pub proof fn lemma_failed_push_keeps_local(
    config: PushConfig,
    local: LocalStateV,
    files: Seq<Seq<u8>>,
    store: StoreV,
    registry: RegistryV,
)
    requires
        spec_push(config, local, files, store, registry).result is Err,
    ensures
        spec_push(config, local, files, store, registry).local == local,
{
}

/// A registry backend fault during the compare-and-swap: the push reports a
/// backend fault carrying the fault's own description, and both the local
/// durable state and the registry's root are exactly what they were before
/// the push.
pub proof fn lemma_registry_fault_preserves_local(
    config: PushConfig,
    local: LocalStateV,
    files: Seq<Seq<u8>>,
    store: StoreV,
    registry: RegistryV,
)
    requires
        config_complete(config),
        sync_upto(
            local.manifest.entries,
            files,
            store,
            local.manifest.entries.len() as int,
        ).1 is None,
        registry.fail_next is Some,
    ensures
        ({
            let o = spec_push(config, local, files, store, registry);
            &&& o.result == Err::<Seq<u8>, PushErrorV>(
                PushErrorV::EthBackend(registry.fail_next.unwrap()),
            )
            &&& o.local == local
            &&& o.registry.root == registry.root
        }),
{
}

} // verus!
