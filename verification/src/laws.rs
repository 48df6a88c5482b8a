//! Laws of the mutation protocol, proved over the table models: what each
//! operation leaves in the indexes, and that no operation ever leaves an
//! index entry pointing at a record the primary table does not hold.

use vstd::prelude::*;

use crate::engine::{create_effect, delete_effect, update_status_effect, Tables};
use crate::keys::{category_key, lemma_status_key_injective, status_key};
use crate::record::{RecordModel, Timestamp};
use crate::status::Status;

verus! {

/// Every index entry is canonical: it points at a record the primary table
/// holds, and its key is the one derived from that record's current field
/// values. This is the no-orphans invariant together with key agreement.
pub open spec fn entries_canonical(t: Tables) -> bool {
    (forall|k: Seq<char>|
        #[trigger] t.category.contains_key(k) ==> t.primary.contains_key(t.category[k]) && k
            == category_key(t.primary[t.category[k]].county, t.category[k])) && (forall|
        k: Seq<char>,
    |
        #[trigger] t.status.contains_key(k) ==> t.primary.contains_key(t.status[k]) && k
            == status_key(t.primary[t.status[k]].county_status, t.status[k])) && (forall|
        k: Timestamp,
    |
        #[trigger] t.opened.contains_key(k) ==> t.primary.contains_key(t.opened[k]) && k
            == t.primary[t.opened[k]].opened) && (forall|k: Timestamp|
        #[trigger] t.updated.contains_key(k) ==> t.primary.contains_key(t.updated[k]) && k
            == t.primary[t.updated[k]].last_updated)
}

/// Law: after creating record `r` under `id`, the primary table holds `r`
/// under `id` and each secondary index holds exactly the entry derived from
/// `r`'s current field values, mapped to `id`.
pub proof fn lemma_index_completeness_after_create(t: Tables, r: RecordModel, id: Seq<char>)
    ensures
        create_effect(t, r, id).primary.contains_key(id),
        create_effect(t, r, id).primary[id] == r,
        create_effect(t, r, id).category.contains_key(category_key(r.county, id)),
        create_effect(t, r, id).category[category_key(r.county, id)] == id,
        create_effect(t, r, id).status.contains_key(status_key(r.county_status, id)),
        create_effect(t, r, id).status[status_key(r.county_status, id)] == id,
        create_effect(t, r, id).opened.contains_key(r.opened),
        create_effect(t, r, id).opened[r.opened] == id,
        create_effect(t, r, id).updated.contains_key(r.last_updated),
        create_effect(t, r, id).updated[r.last_updated] == id,
{
}

/// Law: after updating the record at `id` from status `s1` to a different
/// status `s2`, the status index holds no entry under the key derived from
/// `s1`, holds exactly one entry `s2`-key -> `id`, and the primary record
/// carries `s2`. (With `s1 == s2` the retired entry is refiled at the same
/// key, so the first clause cannot hold.)
pub proof fn lemma_update_status_consistency(t: Tables, id: Seq<char>, s1: Status, s2: Status)
    requires
        t.primary.contains_key(id),
        t.primary[id].county_status == s1,
        s1 != s2,
    ensures
        !update_status_effect(t, id, s2).status.contains_key(status_key(s1, id)),
        update_status_effect(t, id, s2).status.contains_key(status_key(s2, id)),
        update_status_effect(t, id, s2).status[status_key(s2, id)] == id,
        update_status_effect(t, id, s2).primary.contains_key(id),
        update_status_effect(t, id, s2).primary[id].county_status == s2,
{
    if status_key(s1, id) == status_key(s2, id) {
        lemma_status_key_injective(s1, s2, id, id);
    }
}

/// Law: after deleting the record at `id` from a state whose index entries
/// are canonical, no table holds any entry referencing `id`.
pub proof fn lemma_no_orphans_after_delete(t: Tables, id: Seq<char>)
    requires
        entries_canonical(t),
        t.primary.contains_key(id),
    ensures
        !delete_effect(t, id).primary.contains_key(id),
        forall|k: Seq<char>|
            #[trigger] delete_effect(t, id).category.contains_key(k) ==> delete_effect(
                t,
                id,
            ).category[k] != id,
        forall|k: Seq<char>|
            #[trigger] delete_effect(t, id).status.contains_key(k) ==> delete_effect(
                t,
                id,
            ).status[k] != id,
        forall|k: Timestamp|
            #[trigger] delete_effect(t, id).opened.contains_key(k) ==> delete_effect(
                t,
                id,
            ).opened[k] != id,
        forall|k: Timestamp|
            #[trigger] delete_effect(t, id).updated.contains_key(k) ==> delete_effect(
                t,
                id,
            ).updated[k] != id,
{
    let r = t.primary[id];
    let p = delete_effect(t, id);
    assert forall|k: Seq<char>| #[trigger] p.category.contains_key(k) implies p.category[k]
        != id by {
        assert(t.category.contains_key(k));
        assert(t.category[k] == p.category[k]);
        if p.category[k] == id {
            assert(k == category_key(r.county, id));
        }
    }
    assert forall|k: Seq<char>| #[trigger] p.status.contains_key(k) implies p.status[k] != id by {
        assert(t.status.contains_key(k));
        if p.status[k] == id {
            assert(k == status_key(r.county_status, id));
        }
    }
    assert forall|k: Timestamp| #[trigger] p.opened.contains_key(k) implies p.opened[k] != id by {
        assert(t.opened.contains_key(k));
        if p.opened[k] == id {
            assert(k == r.opened);
        }
    }
    assert forall|k: Timestamp| #[trigger] p.updated.contains_key(k) implies p.updated[k] != id by {
        assert(t.updated.contains_key(k));
        if p.updated[k] == id {
            assert(k == r.last_updated);
        }
    }
}

/// Law: creating a record under a fresh id keeps every index entry
/// canonical — in particular it cannot introduce an orphan.
pub proof fn lemma_create_preserves_canonical(t: Tables, r: RecordModel, id: Seq<char>)
    requires
        entries_canonical(t),
        !t.primary.contains_key(id),
    ensures
        entries_canonical(create_effect(t, r, id)),
{
    let p = create_effect(t, r, id);
    assert forall|k: Seq<char>| #[trigger] p.category.contains_key(k) implies p.primary.contains_key(
        p.category[k],
    ) && k == category_key(p.primary[p.category[k]].county, p.category[k]) by {
        if k == category_key(r.county, id) {
            assert(p.category[k] == id);
            assert(p.primary[id] == r);
        } else {
            assert(t.category.contains_key(k));
            let v = t.category[k];
            assert(t.primary.contains_key(v));
            assert(v != id);
        }
    }
    assert forall|k: Seq<char>| #[trigger] p.status.contains_key(k) implies p.primary.contains_key(
        p.status[k],
    ) && k == status_key(p.primary[p.status[k]].county_status, p.status[k]) by {
        if k == status_key(r.county_status, id) {
            assert(p.status[k] == id);
        } else {
            assert(t.status.contains_key(k));
            let v = t.status[k];
            assert(t.primary.contains_key(v));
            assert(v != id);
        }
    }
    assert forall|k: Timestamp| #[trigger] p.opened.contains_key(k) implies p.primary.contains_key(
        p.opened[k],
    ) && k == p.primary[p.opened[k]].opened by {
        if k == r.opened {
            assert(p.opened[k] == id);
        } else {
            assert(t.opened.contains_key(k));
            let v = t.opened[k];
            assert(t.primary.contains_key(v));
            assert(v != id);
        }
    }
    assert forall|k: Timestamp| #[trigger] p.updated.contains_key(k) implies p.primary.contains_key(
        p.updated[k],
    ) && k == p.primary[p.updated[k]].last_updated by {
        if k == r.last_updated {
            assert(p.updated[k] == id);
        } else {
            assert(t.updated.contains_key(k));
            let v = t.updated[k];
            assert(t.primary.contains_key(v));
            assert(v != id);
        }
    }
}

/// Law: updating a present record's county status keeps every index entry
/// canonical.
pub proof fn lemma_update_preserves_canonical(t: Tables, id: Seq<char>, s2: Status)
    requires
        entries_canonical(t),
        t.primary.contains_key(id),
    ensures
        entries_canonical(update_status_effect(t, id, s2)),
{
    let old_r = t.primary[id];
    let s1 = old_r.county_status;
    let p = update_status_effect(t, id, s2);
    assert forall|k: Seq<char>| #[trigger] p.category.contains_key(k) implies p.primary.contains_key(
        p.category[k],
    ) && k == category_key(p.primary[p.category[k]].county, p.category[k]) by {
        assert(t.category.contains_key(k));
        let v = t.category[k];
        if v == id {
            assert(k == category_key(old_r.county, id));
            assert(p.primary[id].county == old_r.county);
        }
    }
    assert forall|k: Seq<char>| #[trigger] p.status.contains_key(k) implies p.primary.contains_key(
        p.status[k],
    ) && k == status_key(p.primary[p.status[k]].county_status, p.status[k]) by {
        if k == status_key(s2, id) {
            assert(p.status[k] == id);
            assert(p.primary[id].county_status == s2);
        } else {
            assert(k != status_key(s1, id) ==> t.status.contains_key(k) && t.status[k]
                == p.status[k]);
            assert(t.status.contains_key(k));
            let v = t.status[k];
            if v == id {
                assert(k == status_key(s1, id));
                assert(!p.status.contains_key(k));
            }
        }
    }
    assert forall|k: Timestamp| #[trigger] p.opened.contains_key(k) implies p.primary.contains_key(
        p.opened[k],
    ) && k == p.primary[p.opened[k]].opened by {
        assert(t.opened.contains_key(k));
        let v = t.opened[k];
        if v == id {
            assert(k == old_r.opened);
            assert(p.primary[id].opened == old_r.opened);
        }
    }
    assert forall|k: Timestamp| #[trigger] p.updated.contains_key(k) implies p.primary.contains_key(
        p.updated[k],
    ) && k == p.primary[p.updated[k]].last_updated by {
        assert(t.updated.contains_key(k));
        let v = t.updated[k];
        if v == id {
            assert(k == old_r.last_updated);
            assert(p.primary[id].last_updated == old_r.last_updated);
        }
    }
}

/// Law: deleting a present record keeps every index entry canonical.
pub proof fn lemma_delete_preserves_canonical(t: Tables, id: Seq<char>)
    requires
        entries_canonical(t),
        t.primary.contains_key(id),
    ensures
        entries_canonical(delete_effect(t, id)),
{
    let r = t.primary[id];
    let p = delete_effect(t, id);
    lemma_no_orphans_after_delete(t, id);
    assert forall|k: Seq<char>| #[trigger] p.category.contains_key(k) implies p.primary.contains_key(
        p.category[k],
    ) && k == category_key(p.primary[p.category[k]].county, p.category[k]) by {
        assert(t.category.contains_key(k));
        let v = t.category[k];
        assert(v != id);
    }
    assert forall|k: Seq<char>| #[trigger] p.status.contains_key(k) implies p.primary.contains_key(
        p.status[k],
    ) && k == status_key(p.primary[p.status[k]].county_status, p.status[k]) by {
        assert(t.status.contains_key(k));
        let v = t.status[k];
        assert(v != id);
    }
    assert forall|k: Timestamp| #[trigger] p.opened.contains_key(k) implies p.primary.contains_key(
        p.opened[k],
    ) && k == p.primary[p.opened[k]].opened by {
        assert(t.opened.contains_key(k));
        let v = t.opened[k];
        assert(v != id);
    }
    assert forall|k: Timestamp| #[trigger] p.updated.contains_key(k) implies p.primary.contains_key(
        p.updated[k],
    ) && k == p.primary[p.updated[k]].last_updated by {
        assert(t.updated.contains_key(k));
        let v = t.updated[k];
        assert(v != id);
    }
}

} // verus!
