//! The mutation and lookup engines: create, update-status and delete, each
//! applied to the primary table and every dependent index as one atomic
//! unit, plus read-only retrieval by id and by index key.

use vstd::prelude::*;

use crate::keys::{category_key, encode_category_key, encode_status_key, status_key};
use crate::record::{from_parts, to_parts, DBSchema, RecordModel, Timestamp};
use crate::status::{parse_status, Status};
use crate::store::{
    category_of, get_category, get_opened, get_primary, get_status, get_updated, new_record_id,
    opened_of, primary_of, status_of, txn_create, txn_delete, txn_update_status, updated_of,
    DBHandles,
};

verus! {

/// How an operation can fail: the requested id is absent, the supplied
/// status text parses to no variant, or the storage engine itself failed.
#[derive(Debug, Clone, Copy, PartialEq, Eq, Structural)]
pub enum DbError {
    NotFound,
    ParseError,
    StorageError,
}

/// The state of the whole index set: the five table models together.
#[verifier::ext_equal]
pub struct Tables {
    pub primary: Map<Seq<char>, RecordModel>,
    pub category: Map<Seq<char>, Seq<char>>,
    pub status: Map<Seq<char>, Seq<char>>,
    pub opened: Map<Timestamp, Seq<char>>,
    pub updated: Map<Timestamp, Seq<char>>,
}

/// The state an opened index set is in.
pub open spec fn tables_of(h: DBHandles) -> Tables {
    Tables {
        primary: primary_of(h),
        category: category_of(h),
        status: status_of(h),
        opened: opened_of(h),
        updated: updated_of(h),
    }
}

/// What creating record `r` under id `id` does to the tables: the record is
/// filed in the primary table and one derived entry is filed in each index.
pub open spec fn create_effect(t: Tables, r: RecordModel, id: Seq<char>) -> Tables {
    Tables {
        primary: t.primary.insert(id, r),
        category: t.category.insert(category_key(r.county, id), id),
        status: t.status.insert(status_key(r.county_status, id), id),
        opened: t.opened.insert(r.opened, id),
        updated: t.updated.insert(r.last_updated, id),
    }
}

/// What updating the county status of the record at `id` to `s2` does to the
/// tables: the primary record is rewritten with the new status, the
/// status-index entry derived from the old status is retired, and the one
/// derived from the new status is filed; nothing else moves.
pub open spec fn update_status_effect(t: Tables, id: Seq<char>, s2: Status) -> Tables {
    let old_r = t.primary[id];
    let new_r = RecordModel { county_status: s2, ..old_r };
    Tables {
        primary: t.primary.insert(id, new_r),
        category: t.category,
        status: t.status.remove(status_key(old_r.county_status, id)).insert(
            status_key(s2, id),
            id,
        ),
        opened: t.opened,
        updated: t.updated,
    }
}

/// What deleting the record at `id` does to the tables: the primary entry
/// and the four index entries derived from the record's current field values
/// all go.
pub open spec fn delete_effect(t: Tables, id: Seq<char>) -> Tables {
    let r = t.primary[id];
    Tables {
        primary: t.primary.remove(id),
        category: t.category.remove(category_key(r.county, id)),
        status: t.status.remove(status_key(r.county_status, id)),
        opened: t.opened.remove(r.opened),
        updated: t.updated.remove(r.last_updated),
    }
}

/// Create a record: assign it a fresh random id and, under one transaction,
/// write the primary entry and all four index entries. On failure nothing
/// has changed; on success the assigned id is returned.
pub fn create_record(h: &mut DBHandles, data: &DBSchema) -> (r: Result<String, DbError>)
    ensures
        r matches Ok(id) ==> id@.len() == 36 && tables_of(*final(h)) == create_effect(
            tables_of(*old(h)),
            data@,
            id@,
        ),
        r is Err ==> r == Err::<String, DbError>(DbError::StorageError) && tables_of(*final(h))
            == tables_of(*old(h)),
{
    let id = new_record_id();
    let parts = to_parts(data);
    let cat_key = encode_category_key(data.county.as_str(), id.as_str());
    let stat_key = encode_status_key(data.county_status, id.as_str());
    let res = txn_create(
        h,
        id.as_str(),
        &parts,
        cat_key.as_str(),
        stat_key.as_str(),
        &data.opened,
        &data.last_updated,
    );
    match res {
        Ok(()) => {
            proof {
                assert(tables_of(*final(h)) =~= create_effect(tables_of(*old(h)), data@, id@));
            }
            Ok(id)
        },
        Err(_) => {
            proof {
                assert(tables_of(*final(h)) =~= tables_of(*old(h)));
            }
            Err(DbError::StorageError)
        },
    }
}

/// Fetch the record stored under `id`, or report that none is.
pub fn read_record_by_uuid(h: &DBHandles, id: &str) -> (r: Result<DBSchema, DbError>)
    ensures
        r matches Ok(rec) ==> primary_of(*h).contains_key(id@) && rec@ == primary_of(*h)[id@],
        r == Err::<DBSchema, DbError>(DbError::NotFound) ==> !primary_of(*h).contains_key(id@),
        r is Err ==> r == Err::<DBSchema, DbError>(DbError::NotFound) || r == Err::<
            DBSchema,
            DbError,
        >(DbError::StorageError),
{
    match get_primary(h, id) {
        Ok(Some(parts)) => Ok(from_parts(parts)),
        Ok(None) => Err(DbError::NotFound),
        Err(_) => Err(DbError::StorageError),
    }
}

/// Update the county status of the record at `id` to the status the supplied
/// text parses to. Text that parses to no status is rejected before anything
/// is read or written; an absent id changes nothing; on success the primary
/// record and the status index have moved together, and nothing else.
pub fn update_county_status(h: &mut DBHandles, id: &str, new_status: &str) -> (r: Result<
    (),
    DbError,
>)
    ensures
        r == Err::<(), DbError>(DbError::ParseError) <==> parse_status(new_status@) is None,
        r == Err::<(), DbError>(DbError::NotFound) ==> !primary_of(*old(h)).contains_key(id@),
        r is Err ==> tables_of(*final(h)) == tables_of(*old(h)),
        r is Ok ==> primary_of(*old(h)).contains_key(id@) && (parse_status(new_status@) matches Some(
            s2,
        ) && tables_of(*final(h)) == update_status_effect(tables_of(*old(h)), id@, s2)),
{
    let s2 = match Status::from_str(new_status) {
        Ok(v) => v,
        Err(()) => {
            return Err(DbError::ParseError);
        },
    };
    let parts = match get_primary(h, id) {
        Ok(Some(parts)) => parts,
        Ok(None) => {
            return Err(DbError::NotFound);
        },
        Err(_) => {
            return Err(DbError::StorageError);
        },
    };
    let mut rec = from_parts(parts);
    let old_status = rec.county_status;
    rec.county_status = s2;
    let new_parts = to_parts(&rec);
    let old_key = encode_status_key(old_status, id);
    let new_key = encode_status_key(s2, id);
    let res = txn_update_status(h, id, &new_parts, old_key.as_str(), new_key.as_str());
    match res {
        Ok(()) => {
            proof {
                assert(tables_of(*final(h)) =~= update_status_effect(
                    tables_of(*old(h)),
                    id@,
                    s2,
                ));
            }
            Ok(())
        },
        Err(_) => {
            proof {
                assert(tables_of(*final(h)) =~= tables_of(*old(h)));
            }
            Err(DbError::StorageError)
        },
    }
}

/// Delete the record at `id` together with its four index entries, under one
/// transaction. An absent id is a benign no-op, reported as `Ok(false)`; a
/// deleted record is reported as `Ok(true)`; on failure nothing has changed.
pub fn delete_record(h: &mut DBHandles, id: &str) -> (r: Result<bool, DbError>)
    ensures
        r == Ok::<bool, DbError>(false) ==> !primary_of(*old(h)).contains_key(id@) && tables_of(
            *final(h),
        ) == tables_of(*old(h)),
        r == Ok::<bool, DbError>(true) ==> primary_of(*old(h)).contains_key(id@) && tables_of(
            *final(h),
        ) == delete_effect(tables_of(*old(h)), id@),
        r is Err ==> r == Err::<bool, DbError>(DbError::StorageError) && tables_of(*final(h))
            == tables_of(*old(h)),
{
    let parts = match get_primary(h, id) {
        Ok(Some(parts)) => parts,
        Ok(None) => {
            proof {
                assert(tables_of(*final(h)) =~= tables_of(*old(h)));
            }
            return Ok(false);
        },
        Err(_) => {
            proof {
                assert(tables_of(*final(h)) =~= tables_of(*old(h)));
            }
            return Err(DbError::StorageError);
        },
    };
    let rec = from_parts(parts);
    let cat_key = encode_category_key(rec.county.as_str(), id);
    let stat_key = encode_status_key(rec.county_status, id);
    let res = txn_delete(h, id, cat_key.as_str(), stat_key.as_str(), &rec.opened, &rec.last_updated);
    match res {
        Ok(()) => {
            proof {
                assert(tables_of(*final(h)) =~= delete_effect(tables_of(*old(h)), id@));
            }
            Ok(true)
        },
        Err(_) => {
            proof {
                assert(tables_of(*final(h)) =~= tables_of(*old(h)));
            }
            Err(DbError::StorageError)
        },
    }
}

/// Look up the record id the category index files under `key`.
pub fn lookup_category(h: &DBHandles, key: &str) -> (r: Result<Option<String>, DbError>)
    ensures
        match r {
            Ok(Some(v)) => category_of(*h).contains_key(key@) && v@ == category_of(*h)[key@],
            Ok(None) => !category_of(*h).contains_key(key@),
            Err(e) => e == DbError::StorageError,
        },
{
    match get_category(h, key) {
        Ok(v) => Ok(v),
        Err(_) => Err(DbError::StorageError),
    }
}

/// Look up the record id the status index files under `key`.
pub fn lookup_status(h: &DBHandles, key: &str) -> (r: Result<Option<String>, DbError>)
    ensures
        match r {
            Ok(Some(v)) => status_of(*h).contains_key(key@) && v@ == status_of(*h)[key@],
            Ok(None) => !status_of(*h).contains_key(key@),
            Err(e) => e == DbError::StorageError,
        },
{
    match get_status(h, key) {
        Ok(v) => Ok(v),
        Err(_) => Err(DbError::StorageError),
    }
}

/// Look up the record id the opened-time index files under `t`.
pub fn lookup_opened(h: &DBHandles, t: &Timestamp) -> (r: Result<Option<String>, DbError>)
    ensures
        match r {
            Ok(Some(v)) => opened_of(*h).contains_key(*t) && v@ == opened_of(*h)[*t],
            Ok(None) => !opened_of(*h).contains_key(*t),
            Err(e) => e == DbError::StorageError,
        },
{
    match get_opened(h, t) {
        Ok(v) => Ok(v),
        Err(_) => Err(DbError::StorageError),
    }
}

/// Look up the record id the last-updated index files under `t`.
pub fn lookup_updated(h: &DBHandles, t: &Timestamp) -> (r: Result<Option<String>, DbError>)
    ensures
        match r {
            Ok(Some(v)) => updated_of(*h).contains_key(*t) && v@ == updated_of(*h)[*t],
            Ok(None) => !updated_of(*h).contains_key(*t),
            Err(e) => e == DbError::StorageError,
        },
{
    match get_updated(h, t) {
        Ok(v) => Ok(v),
        Err(_) => Err(DbError::StorageError),
    }
}

} // verus!
