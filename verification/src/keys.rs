//! The key codec: deterministic construction of the composite keys under
//! which the secondary indexes file a record.

use vstd::prelude::*;

use crate::status::{status_name, Status};

verus! {

/// The separator that joins a field value to the record id in a composite
/// key. A `county` value that itself contains it makes prefix scans by
/// county unreliable, though the id suffix still keeps whole keys apart for
/// distinct counties.
pub open spec fn key_separator() -> char {
    '-'
}

/// The category-index key of a record: its county, the separator, its id.
pub open spec fn category_key(county: Seq<char>, id: Seq<char>) -> Seq<char> {
    county + seq![key_separator()] + id
}

/// The status-index key of a record: the canonical name of its county
/// status, the separator, its id.
pub open spec fn status_key(v: Status, id: Seq<char>) -> Seq<char> {
    status_name(v) + seq![key_separator()] + id
}

/// Build the category-index key for a county and a record id.
pub fn encode_category_key(county: &str, id: &str) -> (k: String)
    ensures
        k@ == category_key(county@, id@),
{
    proof {
        reveal_strlit("-");
        assert("-"@ =~= seq![key_separator()]);
    }
    let mut k = county.to_owned();
    k.append("-");
    k.append(id);
    proof {
        assert(k@ =~= category_key(county@, id@));
    }
    k
}

/// Build the status-index key for a status and a record id.
pub fn encode_status_key(v: Status, id: &str) -> (k: String)
    ensures
        k@ == status_key(v, id@),
{
    proof {
        reveal_strlit("-");
        assert("-"@ =~= seq![key_separator()]);
    }
    let mut k = v.to_str().to_owned();
    k.append("-");
    k.append(id);
    proof {
        assert(k@ =~= status_key(v, id@));
    }
    k
}

/// Law: distinct statuses derive distinct status-index keys for the same id,
/// and the same status derives distinct keys for distinct ids.
pub proof fn lemma_status_key_injective(a: Status, b: Status, id_a: Seq<char>, id_b: Seq<char>)
    requires
        status_key(a, id_a) == status_key(b, id_b),
    ensures
        a == b,
        id_a == id_b,
{
    let ka = status_key(a, id_a);
    let kb = status_key(b, id_b);
    assert(status_name(a)[0] == ka[0]);
    assert(status_name(b)[0] == kb[0]);
    if status_name(a).len() == status_name(b).len() {
        assert(a == b);
        let n = status_name(a).len() as int;
        assert(ka.len() == n + 1 + id_a.len());
        assert(kb.len() == n + 1 + id_b.len());
        assert(id_a.len() == id_b.len());
        assert(id_a =~= id_b) by {
            assert forall|i: int| 0 <= i < id_a.len() implies id_a[i] == id_b[i] by {
                assert((status_name(a) + seq![key_separator()]).len() == n + 1);
                assert((status_name(b) + seq![key_separator()]).len() == n + 1);
                assert(ka[n + 1 + i] == id_a[i]);
                assert(kb[n + 1 + i] == id_b[i]);
            }
        }
    } else {
        // Names of unequal length: the separator of the shorter key sits
        // inside the longer name, but no status name contains the separator.
        let na = status_name(a).len() as int;
        let nb = status_name(b).len() as int;
        if na < nb {
            assert(ka[na] == key_separator());
            assert(kb[na] == status_name(b)[na]);
            assert(status_name(b)[na] != key_separator());
        } else {
            assert(kb[nb] == key_separator());
            assert(ka[nb] == status_name(a)[nb]);
            assert(status_name(a)[nb] != key_separator());
        }
    }
}

} // verus!
