//! ALPN identifiers: opaque byte strings compared bytewise.
use vstd::prelude::*;

verus! {

/// Bytewise equality of two byte strings.
pub fn bytes_eq(a: &[u8], b: &[u8]) -> (r: bool)
    ensures
        r == (a@ == b@),
{
    if a.len() != b.len() {
        return false;
    }
    let mut i: usize = 0;
    while i < a.len()
        invariant
            a@.len() == b@.len(),
            0 <= i <= a@.len(),
            forall|j: int| 0 <= j < i ==> a@[j] == b@[j],
        decreases a@.len() - i,
    {
        if a[i] != b[i] {
            return false;
        }
        i = i + 1;
    }
    assert(a@ =~= b@);
    true
}

/// The byte strings that a sequence of vectors holds.
pub open spec fn alpn_views(v: Seq<Vec<u8>>) -> Seq<Seq<u8>> {
    v.map_values(|a: Vec<u8>| a@)
}

/// The identifiers of `s` with repeats removed, each kept at its first
/// occurrence.
pub open spec fn union_in_order(s: Seq<Seq<u8>>) -> Seq<Seq<u8>>
    decreases s.len(),
{
    if s.len() == 0 {
        Seq::empty()
    } else {
        let d = union_in_order(s.drop_last());
        if d.contains(s.last()) {
            d
        } else {
            d.push(s.last())
        }
    }
}

/// Whether `a` is one of the identifiers in `v`.
pub fn contains_alpn(v: &Vec<Vec<u8>>, a: &[u8]) -> (r: bool)
    ensures
        r == alpn_views(v@).contains(a@),
{
    let mut i: usize = 0;
    while i < v.len()
        invariant
            0 <= i <= v@.len(),
            forall|j: int| 0 <= j < i ==> v@[j]@ != a@,
        decreases v@.len() - i,
    {
        if bytes_eq(v[i].as_slice(), a) {
            assert(alpn_views(v@)[i as int] == a@);
            return true;
        }
        i = i + 1;
    }
    assert(!alpn_views(v@).contains(a@)) by {
        assert forall|j: int| 0 <= j < alpn_views(v@).len() implies alpn_views(v@)[j] != a@ by {
            assert(v@[j]@ != a@);
        }
    }
    false
}

/// `all` with repeated identifiers removed, each kept at its first
/// occurrence.
pub fn dedup_alpns(all: &Vec<Vec<u8>>) -> (r: Vec<Vec<u8>>)
    ensures
        alpn_views(r@) == union_in_order(alpn_views(all@)),
{
    let mut out: Vec<Vec<u8>> = Vec::new();
    let mut i: usize = 0;
    assert(alpn_views(all@).take(0) =~= Seq::<Seq<u8>>::empty());
    assert(alpn_views(out@) =~= Seq::<Seq<u8>>::empty());
    while i < all.len()
        invariant
            0 <= i <= all@.len(),
            alpn_views(out@) == union_in_order(alpn_views(all@).take(i as int)),
        decreases all@.len() - i,
    {
        let ghost prev = alpn_views(all@).take(i as int);
        let ghost next = alpn_views(all@).take(i + 1);
        assert(next.drop_last() =~= prev);
        assert(next.last() == all@[i as int]@);
        if !contains_alpn(&out, all[i].as_slice()) {
            let a = all[i].clone();
            let ghost before = out@;
            out.push(a);
            assert(alpn_views(out@) =~= alpn_views(before).push(all@[i as int]@));
        }
        i = i + 1;
    }
    assert(alpn_views(all@).take(all@.len() as int) =~= alpn_views(all@));
    out
}

} // verus!
