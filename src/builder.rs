//! The node builder: configuration collected before a node starts, and the
//! plan that starting it follows.
use std::path::PathBuf;
use std::time::Duration;

use vstd::prelude::*;

use crate::alpn::{alpn_views, dedup_alpns, union_in_order};
use crate::config::{DocsStorage, GcPolicy, StorageConfig, DEFAULT_BIND_PORT};

verus! {

/// Configuration of a node before it is spawned.
///
/// `D` is the blob store and `F` the factory that builds a user protocol.
pub struct Builder<D, F> {
    storage: StorageConfig,
    bind_port: Option<u16>,
    blobs_store: D,
    keylog: bool,
    gc_policy: GcPolicy,
    docs_store: Option<DocsStorage>,
    protocol_alpns: Vec<Vec<u8>>,
    protocol_factories: Vec<F>,
    insecure_skip_relay_cert_verify: bool,
}

/// The identifiers of the protocols that every node registers itself.
pub struct BuiltinAlpns {
    /// Blob exchange.
    pub blobs: Vec<u8>,
    /// Gossip.
    pub gossip: Vec<u8>,
    /// Document synchronisation.
    pub docs: Vec<u8>,
}

/// Where the default author of documents is kept.
#[derive(Debug, Clone, Copy, PartialEq, Eq)]
pub enum AuthorStorage {
    /// In memory.
    Mem,
    /// In a file under the storage root.
    Persistent,
}

/// What a registration builds.
pub enum ProtocolKind<F> {
    /// The blob-exchange protocol over the node's store.
    Blobs,
    /// The gossip protocol.
    Gossip,
    /// The document protocol, with its store and the place of its default
    /// author. It looks up the gossip protocol registered before it.
    Docs { store: DocsStorage, author: AuthorStorage },
    /// A user protocol, built by its factory.
    Custom(F),
}

/// One protocol registration: an identifier and what to build for it.
pub struct Registration<F> {
    pub alpn: Vec<u8>,
    pub kind: ProtocolKind<F>,
}

/// The identifiers of a sequence of registrations.
pub open spec fn registration_alpns<F>(r: Seq<Registration<F>>) -> Seq<Seq<u8>> {
    r.map_values(|x: Registration<F>| x.alpn@)
}

/// What spawning a node does, in the order it does it.
pub struct SpawnPlan<D, F> {
    /// Protocol registrations, applied in this order; a later one under an
    /// identifier replaces an earlier one.
    pub registrations: Vec<Registration<F>>,
    /// Identifiers the endpoint advertises.
    pub alpns: Vec<Vec<u8>>,
    /// UDP port the endpoint binds.
    pub bind_port: u16,
    /// Whether TLS keys are logged.
    pub keylog: bool,
    /// Where node data lives.
    pub storage: StorageConfig,
    /// Interval of the garbage-collection loop, if it runs.
    pub gc_interval: Option<Duration>,
    /// The blob store.
    pub blobs_store: D,
    /// Whether relay certificates go unchecked.
    pub insecure_skip_relay_cert_verify: bool,
}

/// The identifiers that the endpoint advertises: the built-in ones, then the
/// user's, each once, in order of first appearance.
pub open spec fn advertised_alpns(builtin: BuiltinAlpns, user: Seq<Seq<u8>>) -> Seq<Seq<u8>> {
    union_in_order(seq![builtin.blobs@, builtin.gossip@, builtin.docs@] + user)
}

/// The identifiers of the registrations of a spawn: blob exchange, gossip,
/// documents when enabled, then the user's.
pub open spec fn planned_alpns(
    builtin: BuiltinAlpns,
    docs: bool,
    user: Seq<Seq<u8>>,
) -> Seq<Seq<u8>> {
    if docs {
        seq![builtin.blobs@, builtin.gossip@, builtin.docs@] + user
    } else {
        seq![builtin.blobs@, builtin.gossip@] + user
    }
}

/// The interval that a policy runs collection at, if any.
pub open spec fn gc_interval_of(p: GcPolicy) -> Option<Duration> {
    match p {
        GcPolicy::Disabled => None,
        GcPolicy::Interval(d) => Some(d),
    }
}

impl<D, F> Builder<D, F> {
    pub closed spec fn spec_storage(&self) -> StorageConfig {
        self.storage
    }

    pub closed spec fn spec_bind_port(&self) -> Option<u16> {
        self.bind_port
    }

    pub closed spec fn spec_blobs_store(&self) -> D {
        self.blobs_store
    }

    pub closed spec fn spec_keylog(&self) -> bool {
        self.keylog
    }

    pub closed spec fn spec_gc_policy(&self) -> GcPolicy {
        self.gc_policy
    }

    pub closed spec fn spec_docs_store(&self) -> Option<DocsStorage> {
        self.docs_store
    }

    /// Identifiers of the user protocols, in order of registration.
    pub closed spec fn spec_protocol_alpns(&self) -> Seq<Seq<u8>> {
        alpn_views(self.protocol_alpns@)
    }

    /// Factories of the user protocols, position for position.
    pub closed spec fn spec_protocol_factories(&self) -> Seq<F> {
        self.protocol_factories@
    }

    pub closed spec fn spec_skip_verify(&self) -> bool {
        self.insecure_skip_relay_cert_verify
    }

    /// Each user identifier has its factory.
    pub closed spec fn wf(&self) -> bool {
        self.protocol_alpns@.len() == self.protocol_factories@.len()
    }

    /// All settings but the one a setter changes are those of `other`.
    pub open spec fn same_except_gc_policy(&self, other: &Self) -> bool {
        &&& self.wf()
        &&& self.spec_storage() == other.spec_storage()
        &&& self.spec_bind_port() == other.spec_bind_port()
        &&& self.spec_blobs_store() == other.spec_blobs_store()
        &&& self.spec_keylog() == other.spec_keylog()
        &&& self.spec_docs_store() == other.spec_docs_store()
        &&& self.spec_protocol_alpns() == other.spec_protocol_alpns()
        &&& self.spec_protocol_factories() == other.spec_protocol_factories()
        &&& self.spec_skip_verify() == other.spec_skip_verify()
    }

    /// Same settings, protocol registrations apart.
    pub open spec fn same_settings(&self, other: &Self) -> bool {
        &&& self.spec_storage() == other.spec_storage()
        &&& self.spec_bind_port() == other.spec_bind_port()
        &&& self.spec_blobs_store() == other.spec_blobs_store()
        &&& self.spec_keylog() == other.spec_keylog()
        &&& self.spec_gc_policy() == other.spec_gc_policy()
        &&& self.spec_docs_store() == other.spec_docs_store()
        &&& self.spec_skip_verify() == other.spec_skip_verify()
    }

    /// Same settings and the same registrations.
    pub open spec fn same_protocols(&self, other: &Self) -> bool {
        &&& self.spec_protocol_alpns() == other.spec_protocol_alpns()
        &&& self.spec_protocol_factories() == other.spec_protocol_factories()
    }

    /// A builder over the given stores: no fixed port, no key logging,
    /// collection disabled, no user protocols.
    pub fn with_db_and_store(blobs_store: D, docs_store: DocsStorage, storage: StorageConfig) -> (r:
        Self)
        ensures
            r.wf(),
            r.spec_storage() == storage,
            r.spec_bind_port() is None,
            r.spec_blobs_store() == blobs_store,
            !r.spec_keylog(),
            r.spec_gc_policy() == GcPolicy::Disabled,
            r.spec_docs_store() == Some(docs_store),
            r.spec_protocol_alpns().len() == 0,
            r.spec_protocol_factories().len() == 0,
            !r.spec_skip_verify(),
    {
        let r = Builder {
            storage,
            bind_port: None,
            blobs_store,
            keylog: false,
            gc_policy: GcPolicy::Disabled,
            docs_store: Some(docs_store),
            protocol_alpns: Vec::new(),
            protocol_factories: Vec::new(),
            insecure_skip_relay_cert_verify: false,
        };
        assert(alpn_views(r.protocol_alpns@) =~= Seq::<Seq<u8>>::empty());
        r
    }

    /// Sets the garbage collection policy.
    pub fn gc_policy(self, gc_policy: GcPolicy) -> (r: Self)
        requires
            self.wf(),
        ensures
            r.same_except_gc_policy(&self),
            r.spec_gc_policy() == gc_policy,
    {
        Builder { gc_policy, ..self }
    }

    /// Disables documents support on this node completely.
    pub fn disable_docs(self) -> (r: Self)
        requires
            self.wf(),
        ensures
            r.wf(),
            r.spec_docs_store() is None,
            r.same_protocols(&self),
            r.spec_storage() == self.spec_storage(),
            r.spec_bind_port() == self.spec_bind_port(),
            r.spec_blobs_store() == self.spec_blobs_store(),
            r.spec_keylog() == self.spec_keylog(),
            r.spec_gc_policy() == self.spec_gc_policy(),
            r.spec_skip_verify() == self.spec_skip_verify(),
    {
        Builder { docs_store: None, ..self }
    }

    /// Binds the peer endpoint to `port` in place of the default.
    pub fn bind_port(self, port: u16) -> (r: Self)
        requires
            self.wf(),
        ensures
            r.wf(),
            r.spec_bind_port() == Some(port),
            r.same_protocols(&self),
            r.spec_storage() == self.spec_storage(),
            r.spec_blobs_store() == self.spec_blobs_store(),
            r.spec_keylog() == self.spec_keylog(),
            r.spec_gc_policy() == self.spec_gc_policy(),
            r.spec_docs_store() == self.spec_docs_store(),
            r.spec_skip_verify() == self.spec_skip_verify(),
    {
        Builder { bind_port: Some(port), ..self }
    }

    /// Binds the peer endpoint to a port that the system picks.
    pub fn bind_random_port(self) -> (r: Self)
        requires
            self.wf(),
        ensures
            r.wf(),
            r.spec_bind_port() == Some(0u16),
            r.same_protocols(&self),
            r.spec_storage() == self.spec_storage(),
            r.spec_blobs_store() == self.spec_blobs_store(),
            r.spec_keylog() == self.spec_keylog(),
            r.spec_gc_policy() == self.spec_gc_policy(),
            r.spec_docs_store() == self.spec_docs_store(),
            r.spec_skip_verify() == self.spec_skip_verify(),
    {
        self.bind_port(0)
    }

    /// Whether to log the TLS pre-master key.
    pub fn keylog(self, keylog: bool) -> (r: Self)
        requires
            self.wf(),
        ensures
            r.wf(),
            r.spec_keylog() == keylog,
            r.same_protocols(&self),
            r.spec_storage() == self.spec_storage(),
            r.spec_bind_port() == self.spec_bind_port(),
            r.spec_blobs_store() == self.spec_blobs_store(),
            r.spec_gc_policy() == self.spec_gc_policy(),
            r.spec_docs_store() == self.spec_docs_store(),
            r.spec_skip_verify() == self.spec_skip_verify(),
    {
        Builder { keylog, ..self }
    }

    /// Skips verification of the relay servers' certificates. Meant for tests.
    pub fn insecure_skip_relay_cert_verify(self, skip_verify: bool) -> (r: Self)
        requires
            self.wf(),
        ensures
            r.wf(),
            r.spec_skip_verify() == skip_verify,
            r.same_protocols(&self),
            r.spec_storage() == self.spec_storage(),
            r.spec_bind_port() == self.spec_bind_port(),
            r.spec_blobs_store() == self.spec_blobs_store(),
            r.spec_keylog() == self.spec_keylog(),
            r.spec_gc_policy() == self.spec_gc_policy(),
            r.spec_docs_store() == self.spec_docs_store(),
    {
        Builder { insecure_skip_relay_cert_verify: skip_verify, ..self }
    }

    /// Registers a user protocol under `alpn`, built by `factory` once the
    /// node exists. User protocols are registered after the built-in ones,
    /// so one under a built-in identifier replaces it.
    pub fn accept(self, alpn: Vec<u8>, factory: F) -> (r: Self)
        requires
            self.wf(),
            self.spec_protocol_alpns().len() < usize::MAX,
        ensures
            r.wf(),
            r.same_settings(&self),
            r.spec_protocol_alpns() == self.spec_protocol_alpns().push(alpn@),
            r.spec_protocol_factories() == self.spec_protocol_factories().push(factory),
    {
        let mut b = self;
        let ghost a = alpn@;
        let ghost before = b.protocol_alpns@;
        b.protocol_alpns.push(alpn);
        b.protocol_factories.push(factory);
        assert(alpn_views(b.protocol_alpns@) =~= alpn_views(before).push(a));
        b
    }

    /// The same configuration without user protocols.
    pub fn without_protocols(self) -> (r: Self)
        requires
            self.wf(),
        ensures
            r.wf(),
            r.same_settings(&self),
            r.spec_protocol_alpns().len() == 0,
            r.spec_protocol_factories().len() == 0,
    {
        let r = Builder { protocol_alpns: Vec::new(), protocol_factories: Vec::new(), ..self };
        assert(alpn_views(r.protocol_alpns@) =~= Seq::<Seq<u8>>::empty());
        r
    }

    /// Moves the node's data to `root`: blobs go to `blobs_store`, documents
    /// to the database at `docs_db`. Protocols registered so far are dropped,
    /// their factories having been made for the previous store.
    pub fn persist<D2, F2>(self, root: PathBuf, blobs_store: D2, docs_db: PathBuf) -> (r: Builder<
        D2,
        F2,
    >)
        requires
            self.wf(),
        ensures
            r.wf(),
            r.spec_storage() == StorageConfig::Persistent(root),
            r.spec_blobs_store() == blobs_store,
            r.spec_docs_store() == Some(DocsStorage::Persistent(docs_db)),
            r.spec_bind_port() == self.spec_bind_port(),
            r.spec_keylog() == self.spec_keylog(),
            r.spec_gc_policy() == self.spec_gc_policy(),
            r.spec_protocol_alpns().len() == 0,
            r.spec_protocol_factories().len() == 0,
            !r.spec_skip_verify(),
    {
        let r = Builder {
            storage: StorageConfig::Persistent(root),
            bind_port: self.bind_port,
            blobs_store,
            keylog: self.keylog,
            gc_policy: self.gc_policy,
            docs_store: Some(DocsStorage::Persistent(docs_db)),
            protocol_alpns: Vec::new(),
            protocol_factories: Vec::new(),
            insecure_skip_relay_cert_verify: false,
        };
        assert(alpn_views(r.protocol_alpns@) =~= Seq::<Seq<u8>>::empty());
        r
    }

    /// The plan that spawning a node with this configuration follows.
    ///
    /// Registrations come in this order: blob exchange, gossip, documents
    /// when enabled, then the user's protocols in the order they were given.
    /// The endpoint advertises the built-in identifiers and the user's, each
    /// once, in order of first appearance. Without a configured port the
    /// endpoint binds the default one.
    pub fn spawn_plan(self, builtin: BuiltinAlpns) -> (r: SpawnPlan<D, F>)
        requires
            self.wf(),
        ensures
            registration_alpns(r.registrations@) == planned_alpns(
                builtin,
                self.spec_docs_store() is Some,
                self.spec_protocol_alpns(),
            ),
            r.registrations@[0].kind is Blobs,
            r.registrations@[1].kind is Gossip,
            self.spec_docs_store() matches Some(store) ==> r.registrations@[2].kind == (
            ProtocolKind::<F>::Docs {
                store,
                author: if self.spec_storage() is Persistent {
                    AuthorStorage::Persistent
                } else {
                    AuthorStorage::Mem
                },
            }),
            forall|j: int|
                #![trigger self.spec_protocol_factories()[j]]
                0 <= j < self.spec_protocol_factories().len() ==> r.registrations@[j + (if self.spec_docs_store() is Some { 3int } else { 2int })].kind
                    == ProtocolKind::Custom(self.spec_protocol_factories()[j]),
            alpn_views(r.alpns@) == advertised_alpns(builtin, self.spec_protocol_alpns()),
            r.bind_port == match self.spec_bind_port() {
                Some(p) => p,
                None => DEFAULT_BIND_PORT,
            },
            r.keylog == self.spec_keylog(),
            r.storage == self.spec_storage(),
            r.gc_interval == gc_interval_of(self.spec_gc_policy()),
            r.blobs_store == self.spec_blobs_store(),
            r.insecure_skip_relay_cert_verify == self.spec_skip_verify(),
    {
        let ghost user = self.spec_protocol_alpns();
        let ghost factories = self.spec_protocol_factories();
        let ghost docs_on = self.docs_store is Some;
        let Builder {
            storage,
            bind_port,
            blobs_store,
            keylog,
            gc_policy,
            docs_store,
            protocol_alpns,
            protocol_factories,
            insecure_skip_relay_cert_verify,
        } = self;
        let mut all: Vec<Vec<u8>> = Vec::new();
        all.push(builtin.blobs.clone());
        all.push(builtin.gossip.clone());
        all.push(builtin.docs.clone());
        let ghost builtin_views = seq![builtin.blobs@, builtin.gossip@, builtin.docs@];
        assert(alpn_views(all@) =~= builtin_views);
        let mut registrations: Vec<Registration<F>> = Vec::new();
        let persistent = match &storage {
            StorageConfig::Persistent(_) => true,
            StorageConfig::Mem => false,
        };
        registrations.push(Registration { alpn: builtin.blobs, kind: ProtocolKind::Blobs });
        registrations.push(Registration { alpn: builtin.gossip, kind: ProtocolKind::Gossip });
        match docs_store {
            Some(store) => {
                let author = if persistent {
                    AuthorStorage::Persistent
                } else {
                    AuthorStorage::Mem
                };
                registrations.push(
                    Registration { alpn: builtin.docs, kind: ProtocolKind::Docs { store, author } },
                );
            },
            None => {},
        }
        let ghost base = registrations@;
        let ghost k = base.len() as int;
        assert(registration_alpns(base) =~= planned_alpns(builtin, docs_on, Seq::empty()));
        let mut alpns = protocol_alpns;
        let mut factories_left = protocol_factories;
        let mut i: usize = 0;
        let n = alpns.len();
        while i < n
            invariant
                n == user.len(),
                n == factories.len(),
                0 <= i <= n,
                k == (if docs_on { 3int } else { 2int }),
                alpn_views(alpns@) == user.subrange(i as int, n as int),
                alpns@.len() == n - i,
                factories_left@ == factories.subrange(i as int, n as int),
                registrations@.len() == k + i,
                registrations@.subrange(0, k) == base,
                registration_alpns(registrations@) == planned_alpns(builtin, docs_on, user.take(i as int)),
                alpn_views(all@) == builtin_views + user.take(i as int),
                forall|j: int|
                    #![trigger factories[j]]
                    0 <= j < i ==> registrations@[j + k].kind == ProtocolKind::Custom(factories[j]),
            decreases n - i,
        {
            let ghost before_alpns = alpns@;
            let ghost before_regs = registrations@;
            let ghost before_all = all@;
            let alpn = alpns.remove(0);
            let factory = factories_left.remove(0);
            assert(alpn@ == user[i as int]) by {
                assert(alpn_views(before_alpns)[0] == before_alpns[0]@);
                assert(alpn_views(before_alpns)[0] == user.subrange(i as int, n as int)[0]);
            }
            assert(factory == factories[i as int]) by {
                assert(factories.subrange(i as int, n as int)[0] == factories[i as int]);
            }
            assert(alpn_views(alpns@) =~= user.subrange(i + 1, n as int)) by {
                assert(alpn_views(alpns@) =~= alpn_views(before_alpns).subrange(1, before_alpns.len() as int));
            }
            assert(factories_left@ =~= factories.subrange(i + 1, n as int));
            all.push(alpn.clone());
            registrations.push(Registration { alpn, kind: ProtocolKind::Custom(factory) });
            assert(user.take(i + 1) =~= user.take(i as int).push(user[i as int]));
            assert(alpn_views(all@) =~= alpn_views(before_all).push(user[i as int]));
            assert(alpn_views(all@) =~= builtin_views + user.take(i + 1));
            assert(registration_alpns(registrations@) =~= registration_alpns(before_regs).push(user[i as int]));
            assert(registration_alpns(registrations@) =~= planned_alpns(builtin, docs_on, user.take(i + 1)));
            assert(registrations@.subrange(0, k) =~= base) by {
                assert(registrations@.subrange(0, k) =~= before_regs.subrange(0, k));
            }
            i = i + 1;
        }
        assert(user.take(n as int) =~= user);
        assert(registrations@[0] == base[0]);
        assert(registrations@[1] == base[1]);
        assert(docs_on ==> registrations@[2] == base[2]);
        let advertised = dedup_alpns(&all);
        let gc_interval = match gc_policy {
            GcPolicy::Disabled => None,
            GcPolicy::Interval(d) => Some(d),
        };
        let bind_port = match bind_port {
            Some(p) => p,
            None => DEFAULT_BIND_PORT,
        };
        SpawnPlan {
            registrations,
            alpns: advertised,
            bind_port,
            keylog,
            storage,
            gc_interval,
            blobs_store,
            insecure_skip_relay_cert_verify,
        }
    }
}

} // verus!
