//! The protocol registry: ALPN identifiers mapped to protocol handlers.
//!
//! Keys are unique. A registration under a key that is already present
//! replaces the handler in place, so the order of first registration is the
//! order of iteration.
use vstd::prelude::*;

use crate::alpn::bytes_eq;

verus! {

/// Maps ALPN identifiers to handlers of type `H`, in order of registration.
#[derive(Clone)]
pub struct ProtocolMap<H> {
    alpns: Vec<Vec<u8>>,
    handlers: Vec<H>,
}

/// No two positions of `keys` hold the same identifier.
pub open spec fn keys_unique(keys: Seq<Seq<u8>>) -> bool {
    forall|i: int, j: int|
        0 <= i < keys.len() && 0 <= j < keys.len() && i != j ==> keys[i] != keys[j]
}

/// The identifier `alpn` stands at no position of `keys`.
pub open spec fn absent(keys: Seq<Seq<u8>>, alpn: Seq<u8>) -> bool {
    forall|i: int| 0 <= i < keys.len() ==> keys[i] != alpn
}

impl<H> ProtocolMap<H> {
    /// The registered identifiers, in order of registration.
    pub closed spec fn keys(&self) -> Seq<Seq<u8>> {
        self.alpns@.map_values(|a: Vec<u8>| a@)
    }

    /// The registered handlers, position for position with `keys`.
    pub closed spec fn values(&self) -> Seq<H> {
        self.handlers@
    }

    /// Keys are unique and each key has its handler.
    pub closed spec fn wf(&self) -> bool {
        &&& self.alpns@.len() == self.handlers@.len()
        &&& keys_unique(self.keys())
    }

    /// A well-formed registry holds each identifier at most once.
    pub proof fn lemma_keys_unique(&self)
        requires
            self.wf(),
        ensures
            keys_unique(self.keys()),
            self.keys().len() == self.values().len(),
    {
    }

    /// An empty registry.
    pub fn new() -> (r: Self)
        ensures
            r.wf(),
            r.keys() == Seq::<Seq<u8>>::empty(),
            r.values() == Seq::<H>::empty(),
    {
        let r = ProtocolMap { alpns: Vec::new(), handlers: Vec::new() };
        assert(r.keys() =~= Seq::<Seq<u8>>::empty());
        r
    }

    /// Number of registered protocols.
    pub fn len(&self) -> (r: usize)
        requires
            self.wf(),
        ensures
            r == self.keys().len(),
            r == self.values().len(),
    {
        self.alpns.len()
    }

    /// The position of `alpn` in the registry, if it is registered.
    pub fn position(&self, alpn: &[u8]) -> (r: Option<usize>)
        requires
            self.wf(),
        ensures
            match r {
                Some(i) => i < self.keys().len() && self.keys()[i as int] == alpn@,
                None => absent(self.keys(), alpn@),
            },
    {
        let mut i: usize = 0;
        while i < self.alpns.len()
            invariant
                self.wf(),
                0 <= i <= self.alpns@.len(),
                forall|j: int| 0 <= j < i ==> self.keys()[j] != alpn@,
            decreases self.alpns@.len() - i,
        {
            if bytes_eq(self.alpns[i].as_slice(), alpn) {
                return Some(i);
            }
            i = i + 1;
        }
        None
    }

    /// Registers `handler` under `alpn`. A handler already registered under
    /// the same identifier is replaced in place; otherwise the registration
    /// is appended.
    pub fn insert(&mut self, alpn: Vec<u8>, handler: H)
        requires
            old(self).wf(),
            old(self).keys().len() < usize::MAX,
        ensures
            final(self).wf(),
            forall|i: int|
                0 <= i < old(self).keys().len() && old(self).keys()[i] == alpn@ ==> {
                    &&& final(self).keys() == old(self).keys()
                    &&& final(self).values() == old(self).values().update(i, handler)
                },
            absent(old(self).keys(), alpn@) ==> {
                &&& final(self).keys() == old(self).keys().push(alpn@)
                &&& final(self).values() == old(self).values().push(handler)
            },
    {
        match self.position(alpn.as_slice()) {
            Some(i) => {
                self.handlers.set(i, handler);
            },
            None => {
                let ghost a = alpn@;
                self.alpns.push(alpn);
                self.handlers.push(handler);
                assert(self.keys() =~= old(self).keys().push(a));
            },
        }
    }

    /// The handler registered under `alpn`, if any.
    pub fn get(&self, alpn: &[u8]) -> (r: Option<&H>)
        requires
            self.wf(),
        ensures
            match r {
                Some(h) => exists|i: int|
                    0 <= i < self.keys().len() && self.keys()[i] == alpn@ && *h
                        == self.values()[i],
                None => absent(self.keys(), alpn@),
            },
    {
        match self.position(alpn) {
            Some(i) => Some(&self.handlers[i]),
            None => None,
        }
    }

    /// The handler at position `index` in order of registration, if the
    /// registry holds that many.
    pub fn get_index(&self, index: usize) -> (r: Option<&H>)
        requires
            self.wf(),
        ensures
            index < self.values().len() ==> r == Some(&self.values()[index as int]),
            index >= self.values().len() ==> r is None,
    {
        if index < self.handlers.len() {
            Some(&self.handlers[index])
        } else {
            None
        }
    }

    /// The identifier at position `index` in order of registration.
    pub fn alpn_at(&self, index: usize) -> (r: &[u8])
        requires
            self.wf(),
            index < self.keys().len(),
        ensures
            r@ == self.keys()[index as int],
    {
        self.alpns[index].as_slice()
    }
}

} // verus!
