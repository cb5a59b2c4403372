use vstd::prelude::*;

use crate::record::{Info, InfoView, with_name, with_status};

verus! {

/// One stored binding: an account identifier and the record kept for it.
struct Entry {
    key: String,
    value: Info,
}

/// The record store: a mapping from account-identifier strings to records,
/// supporting point lookups and insert-or-overwrite, nothing else.
///
/// Its mathematical value (the view) is a `Map` from the key's characters to
/// the record's `InfoView`; every contract below speaks of that map.
pub struct UserInfo {
    records: Vec<Entry>,
}

/// The map described by a sequence of bindings, later bindings winning.
spec fn map_of(entries: Seq<Entry>) -> Map<Seq<char>, InfoView>
    decreases entries.len(),
{
    if entries.len() == 0 {
        Map::empty()
    } else {
        map_of(entries.drop_last()).insert(entries.last().key@, entries.last().value@)
    }
}

/// The full record kept for a key, or `None` where no write ever happened.
pub open spec fn stored_info(m: Map<Seq<char>, InfoView>, k: Seq<char>) -> Option<InfoView> {
    if m.dom().contains(k) {
        Some(m[k])
    } else {
        None
    }
}

/// The stored record projected onto its status field.
pub open spec fn status_lookup(m: Map<Seq<char>, InfoView>, k: Seq<char>) -> Option<Seq<char>> {
    match stored_info(m, k) {
        Some(i) => Some(i.status),
        None => None,
    }
}

/// The stored record projected onto its name field.
pub open spec fn name_lookup(m: Map<Seq<char>, InfoView>, k: Seq<char>) -> Option<Seq<char>> {
    match stored_info(m, k) {
        Some(i) => Some(i.name),
        None => None,
    }
}

/// The store after a status update for key `k`: the one record under `k` is
/// replaced following `with_status`; every other key is untouched.
pub open spec fn set_status_map(
    m: Map<Seq<char>, InfoView>,
    k: Seq<char>,
    message: Seq<char>,
) -> Map<Seq<char>, InfoView> {
    m.insert(k, with_status(stored_info(m, k), message))
}

/// The store after a name update for key `k`, following `with_name`.
pub open spec fn set_name_map(
    m: Map<Seq<char>, InfoView>,
    k: Seq<char>,
    name: Seq<char>,
) -> Map<Seq<char>, InfoView> {
    m.insert(k, with_name(stored_info(m, k), name))
}

/// A key is in the map exactly when some binding carries it.
proof fn lemma_map_of_contains(entries: Seq<Entry>, k: Seq<char>)
    ensures
        map_of(entries).dom().contains(k) <==> exists|i: int|
            0 <= i < entries.len() && #[trigger] entries[i].key@ == k,
    decreases entries.len(),
{
    if entries.len() > 0 {
        lemma_map_of_contains(entries.drop_last(), k);
        if entries.last().key@ == k {
            assert(entries[entries.len() - 1].key@ == k);
        } else if map_of(entries).dom().contains(k) {
            let i = choose|i: int|
                0 <= i < entries.drop_last().len() && #[trigger] entries.drop_last()[i].key@ == k;
            assert(entries[i].key@ == k);
        } else {
            assert forall|i: int| 0 <= i < entries.len() implies #[trigger] entries[i].key@ != k by {
                if i < entries.len() - 1 {
                    assert(entries.drop_last()[i].key@ != k);
                }
            }
        }
    }
}

/// With no key bound twice, the map sends each binding's key to its record.
proof fn lemma_map_of_index(entries: Seq<Entry>, i: int)
    requires
        0 <= i < entries.len(),
        forall|p: int, q: int|
            0 <= p < q < entries.len() ==> entries[p].key@ != entries[q].key@,
    ensures
        map_of(entries).dom().contains(entries[i].key@),
        map_of(entries)[entries[i].key@] == entries[i].value@,
    decreases entries.len(),
{
    if i < entries.len() - 1 {
        assert(entries.drop_last()[i] == entries[i]);
        lemma_map_of_index(entries.drop_last(), i);
        assert(entries[i].key@ != entries[entries.len() - 1].key@);
    }
}

/// Appending a binding inserts it into the map.
proof fn lemma_map_of_push(entries: Seq<Entry>, e: Entry)
    ensures
        map_of(entries.push(e)) == map_of(entries).insert(e.key@, e.value@),
{
    assert(entries.push(e).drop_last() =~= entries);
    assert(entries.push(e).last() == e);
}

/// Overwriting the one binding that carries a key inserts the new record
/// under that key and leaves the rest of the map as it was.
proof fn lemma_map_of_update(entries: Seq<Entry>, i: int, e: Entry)
    requires
        0 <= i < entries.len(),
        e.key@ == entries[i].key@,
        forall|p: int, q: int|
            0 <= p < q < entries.len() ==> entries[p].key@ != entries[q].key@,
    ensures
        map_of(entries.update(i, e)) == map_of(entries).insert(e.key@, e.value@),
    decreases entries.len(),
{
    let updated = entries.update(i, e);
    if i == entries.len() - 1 {
        assert(updated.drop_last() =~= entries.drop_last());
        assert(updated.last() == e);
        assert(map_of(entries.drop_last()).insert(e.key@, e.value@) =~= map_of(
            entries,
        ).insert(e.key@, e.value@));
    } else {
        assert(updated.drop_last() =~= entries.drop_last().update(i, e));
        assert(entries.drop_last()[i] == entries[i]);
        lemma_map_of_update(entries.drop_last(), i, e);
        assert(updated.last() == entries.last());
        assert(e.key@ != entries.last().key@);
        assert(map_of(entries.drop_last()).insert(e.key@, e.value@).insert(
            entries.last().key@,
            entries.last().value@,
        ) =~= map_of(entries).insert(e.key@, e.value@));
    }
}

/// Position of the binding that carries `account_id`, if one exists.
fn find_entry(entries: &Vec<Entry>, account_id: &String) -> (r: Option<usize>)
    ensures
        match r {
            Some(i) => i < entries@.len() && entries@[i as int].key@ == account_id@,
            None => forall|i: int|
                0 <= i < entries@.len() ==> #[trigger] entries@[i].key@ != account_id@,
        },
{
    let n = entries.len();
    let mut idx: usize = 0;
    while idx < n
        invariant
            n == entries@.len(),
            idx <= n,
            forall|i: int| 0 <= i < idx ==> #[trigger] entries@[i].key@ != account_id@,
        decreases n - idx,
    {
        if entries[idx].key == *account_id {
            return Some(idx);
        }
        idx += 1;
    }
    None
}

impl UserInfo {
    /// No two bindings carry the same key, so `map_of` reads off exactly.
    #[verifier::type_invariant]
    spec fn wf(self) -> bool {
        forall|p: int, q: int|
            0 <= p < q < self.records@.len() ==> self.records@[p].key@ != self.records@[q].key@
    }

    /// The full record stored for `account_id`, or `None` where no write for
    /// that key ever happened.
    pub fn get_info(&self, account_id: String) -> (r: Option<Info>)
        ensures
            r.deep_view() == stored_info(self@, account_id@),
    {
        proof {
            use_type_invariant(&*self);
            lemma_map_of_contains(self.records@, account_id@);
        }
        match find_entry(&self.records, &account_id) {
            None => None,
            Some(i) => {
                proof {
                    lemma_map_of_index(self.records@, i as int);
                }
                let e = &self.records[i];
                Some(Info { name: e.value.name.clone(), status: e.value.status.clone() })
            },
        }
    }

    /// The status stored for `account_id`, or `None` where no record exists.
    /// An account that set only its name reads back `Some` of the empty string.
    pub fn get_status(&self, account_id: String) -> (r: Option<String>)
        ensures
            r.deep_view() == status_lookup(self@, account_id@),
    {
        match self.get_info(account_id) {
            None => None,
            Some(i) => Option::Some(i.status),
        }
    }

    /// The name stored for `account_id`, or `None` where no record exists.
    pub fn get_name(&self, account_id: String) -> (r: Option<String>)
        ensures
            r.deep_view() == name_lookup(self@, account_id@),
    {
        match self.get_info(account_id) {
            None => None,
            Some(i) => Option::Some(i.name),
        }
    }

    /// Insert-or-overwrite of the record stored under `account_id`.
    fn put(&mut self, account_id: String, value: Info)
        ensures
            final(self)@ == old(self)@.insert(account_id@, value@),
    {
        proof {
            use_type_invariant(&*self);
        }
        let ghost old_entries = self.records@;
        let mut recs: Vec<Entry> = Vec::new();
        core::mem::swap(&mut recs, &mut self.records);
        match find_entry(&recs, &account_id) {
            Some(i) => {
                let e = Entry { key: account_id, value: value };
                let ghost ge = e;
                recs[i] = e;
                proof {
                    lemma_map_of_update(old_entries, i as int, ge);
                    assert forall|p: int, q: int| 0 <= p < q < recs@.len() implies recs@[p].key@
                        != recs@[q].key@ by {
                        assert(old_entries[p].key@ != old_entries[q].key@);
                    }
                }
            },
            None => {
                let e = Entry { key: account_id, value: value };
                let ghost ge = e;
                recs.push(e);
                proof {
                    lemma_map_of_push(old_entries, ge);
                    assert forall|p: int, q: int| 0 <= p < q < recs@.len() implies recs@[p].key@
                        != recs@[q].key@ by {
                        if q < old_entries.len() {
                            assert(old_entries[p].key@ != old_entries[q].key@);
                        } else {
                            assert(old_entries[p].key@ != account_id@);
                        }
                    }
                }
            },
        }
        self.records = recs;
    }

    /// Store `message` as the status of `account_id`, creating the record
    /// with an empty name where none existed and keeping the name otherwise.
    pub fn set_status(&mut self, account_id: String, message: String)
        ensures
            final(self)@ == set_status_map(old(self)@, account_id@, message@),
    {
        let prev = self.get_info(account_id.clone());
        let info = crate::record::updated_with_status(prev, message);
        self.put(account_id, info);
    }

    /// Store `name` as the name of `account_id`, creating the record with an
    /// empty status where none existed and keeping the status otherwise.
    pub fn set_name(&mut self, account_id: String, name: String)
        ensures
            final(self)@ == set_name_map(old(self)@, account_id@, name@),
    {
        let prev = self.get_info(account_id.clone());
        let info = crate::record::updated_with_name(prev, name);
        self.put(account_id, info);
    }
}

impl View for UserInfo {
    type V = Map<Seq<char>, InfoView>;

    closed spec fn view(&self) -> Map<Seq<char>, InfoView> {
        map_of(self.records@)
    }
}

impl Default for UserInfo {
    /// A fresh store holds no record at all.
    fn default() -> (r: Self)
        ensures
            r@ == Map::<Seq<char>, InfoView>::empty(),
    {
        UserInfo { records: Vec::new() }
    }
}

} // verus!
