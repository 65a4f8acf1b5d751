//! The data lifecycle policy, stated once over abstract mappings.
//!
//! Each mutating entry point is a step over an identity-keyed mapping:
//! registration inserts at most once per identity, the measurement store
//! is write-once, and both store mutations are gated by consent. The laws
//! of the lifecycle are proved here, over the steps themselves; the
//! contract's methods tie their state changes to these steps exactly.

use vstd::prelude::*;
use crate::consent::Consent;

verus! {

/// Inserts a value under a key only where the key is still absent; an
/// occupied key leaves the mapping untouched. This is the registration
/// step, and also the write-once store step once consent is granted.
pub open spec fn insert_if_absent<V>(m: Map<Seq<char>, V>, k: Seq<char>, v: V) -> Map<
    Seq<char>,
    V,
> {
    if m.dom().contains(k) {
        m
    } else {
        m.insert(k, v)
    }
}

/// One upsert of the measurement store: consent gates the mutation, and a
/// granted write is write-once — an existing measurement is never
/// silently overwritten.
pub open spec fn upsert_step<V>(m: Map<Seq<char>, V>, k: Seq<char>, v: V, c: Consent) -> Map<
    Seq<char>,
    V,
> {
    if c == Consent::Granted {
        insert_if_absent(m, k, v)
    } else {
        m
    }
}

/// One deletion from the measurement store: consent gates the mutation,
/// and removing an absent key is a silent success.
pub open spec fn delete_step<V>(m: Map<Seq<char>, V>, k: Seq<char>, c: Consent) -> Map<
    Seq<char>,
    V,
> {
    if c == Consent::Granted {
        m.remove(k)
    } else {
        m
    }
}

/// Registration is idempotent-rejecting: a second insertion under the same
/// key changes nothing — the mapping, its size, and the first insertion's
/// value all survive the second call.
pub proof fn lemma_register_idempotent<V>(m: Map<Seq<char>, V>, k: Seq<char>, v1: V, v2: V)
    ensures
        insert_if_absent(insert_if_absent(m, k, v1), k, v2) == insert_if_absent(m, k, v1),
        insert_if_absent(insert_if_absent(m, k, v1), k, v2)[k] == insert_if_absent(m, k, v1)[k],
{
    let m1 = insert_if_absent(m, k, v1);
    assert(m1.dom().contains(k));
}

/// Under granted consent the store is write-once: of two consecutive
/// upserts for the same identity, the second leaves the store exactly as
/// the first left it, and the first write's value is what the key holds.
pub proof fn lemma_upsert_write_once<V>(m: Map<Seq<char>, V>, k: Seq<char>, v1: V, v2: V)
    ensures
        upsert_step(upsert_step(m, k, v1, Consent::Granted), k, v2, Consent::Granted)
            == upsert_step(m, k, v1, Consent::Granted),
        upsert_step(m, k, v1, Consent::Granted)[k] == (if m.dom().contains(k) {
            m[k]
        } else {
            v1
        }),
{
    let m1 = upsert_step(m, k, v1, Consent::Granted);
    assert(m1.dom().contains(k));
}

/// Denied or unspecified consent never mutates the store, for upsert and
/// delete alike.
pub proof fn lemma_consent_gates_mutation<V>(m: Map<Seq<char>, V>, k: Seq<char>, v: V, c: Consent)
    requires
        c != Consent::Granted,
    ensures
        upsert_step(m, k, v, c) == m,
        delete_step(m, k, c) == m,
{
}

/// Deleting an absent identity succeeds without error and leaves the
/// store unchanged, whatever the consent.
pub proof fn lemma_delete_absent<V>(m: Map<Seq<char>, V>, k: Seq<char>, c: Consent)
    requires
        !m.dom().contains(k),
    ensures
        delete_step(m, k, c) == m,
{
    assert(m.remove(k) =~= m);
}

} // verus!
