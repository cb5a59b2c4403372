use vstd::prelude::*;

use crate::record::InfoView;
use crate::store::{name_lookup, set_name_map, set_status_map, status_lookup, stored_info};

verus! {

/// A key that was never written has no record: the full lookup and both
/// field lookups all come back absent.
pub proof fn lemma_absent_key_reads_absent(m: Map<Seq<char>, InfoView>, k: Seq<char>)
    requires
        !m.dom().contains(k),
    ensures
        stored_info(m, k) is None,
        status_lookup(m, k) is None,
        name_lookup(m, k) is None,
{
}

/// A write touches exactly its own key: after either update the store holds
/// a record for `k`, and for no key it did not hold one for before.
pub proof fn lemma_write_domain(m: Map<Seq<char>, InfoView>, k: Seq<char>, v: Seq<char>)
    ensures
        set_status_map(m, k, v).dom() == m.dom().insert(k),
        set_name_map(m, k, v).dom() == m.dom().insert(k),
{
    assert(set_status_map(m, k, v).dom() =~= m.dom().insert(k));
    assert(set_name_map(m, k, v).dom() =~= m.dom().insert(k));
}

/// Two status updates in a row: the later message wins, and the name under
/// that key stays what it was before either call.
pub proof fn lemma_set_status_twice(
    m: Map<Seq<char>, InfoView>,
    k: Seq<char>,
    v1: Seq<char>,
    v2: Seq<char>,
)
    requires
        m.dom().contains(k),
    ensures
        status_lookup(set_status_map(set_status_map(m, k, v1), k, v2), k) == Some(v2),
        name_lookup(set_status_map(set_status_map(m, k, v1), k, v2), k) == name_lookup(m, k),
{
}

/// A name update on a key with no record gives that key the written name and
/// the empty status: present with empty text, not absent.
pub proof fn lemma_set_name_on_fresh_key(m: Map<Seq<char>, InfoView>, k: Seq<char>, v: Seq<char>)
    requires
        !m.dom().contains(k),
    ensures
        name_lookup(set_name_map(m, k, v), k) == Some(v),
        status_lookup(set_name_map(m, k, v), k) == Some(Seq::<char>::empty()),
{
}

/// A status update repeated with the same message changes nothing the second
/// time: the whole store is the same map.
pub proof fn lemma_set_status_idempotent(m: Map<Seq<char>, InfoView>, k: Seq<char>, v: Seq<char>)
    ensures
        set_status_map(set_status_map(m, k, v), k, v) == set_status_map(m, k, v),
{
    assert(set_status_map(set_status_map(m, k, v), k, v) =~= set_status_map(m, k, v));
}

/// A name update repeated with the same name changes nothing the second time.
pub proof fn lemma_set_name_idempotent(m: Map<Seq<char>, InfoView>, k: Seq<char>, v: Seq<char>)
    ensures
        set_name_map(set_name_map(m, k, v), k, v) == set_name_map(m, k, v),
{
    assert(set_name_map(set_name_map(m, k, v), k, v) =~= set_name_map(m, k, v));
}

/// Writes to one key never change what any other key reads back: neither the
/// full record nor either field lookup under `k2` moves.
pub proof fn lemma_distinct_keys_independent(
    m: Map<Seq<char>, InfoView>,
    k1: Seq<char>,
    k2: Seq<char>,
    v: Seq<char>,
)
    requires
        k1 != k2,
    ensures
        stored_info(set_status_map(m, k1, v), k2) == stored_info(m, k2),
        status_lookup(set_status_map(m, k1, v), k2) == status_lookup(m, k2),
        name_lookup(set_status_map(m, k1, v), k2) == name_lookup(m, k2),
        stored_info(set_name_map(m, k1, v), k2) == stored_info(m, k2),
        status_lookup(set_name_map(m, k1, v), k2) == status_lookup(m, k2),
        name_lookup(set_name_map(m, k1, v), k2) == name_lookup(m, k2),
{
}

} // verus!
