//! The index set and its storage engine: five named tables in one LMDB
//! environment, reached only through single-transaction operations. Every
//! call into the engine stands behind a trusted item whose contract states,
//! over the five table models, exactly what the engine does.

use vstd::prelude::*;

use crate::record::{parts_model, RecordModel, StoredParts, Timestamp};

verus! {

#[verifier::external_type_specification]
#[verifier::external_body]
pub struct ExEnv(heed::Env);

#[verifier::external_type_specification]
#[verifier::external_body]
pub struct ExHeedError(heed::Error);

/// The opened index set: the primary table plus the four secondary indexes,
/// all within one storage environment. Holding it exclusively is what makes
/// the five table models below functions of its value.
#[verifier::external_body]
pub struct DBHandles {
    env: heed::Env,
    main_db: heed::Database<heed::types::Str, heed::types::SerdeBincode<StoredParts>>,
    county_index: heed::Database<heed::types::Str, heed::types::Str>,
    opened_index: heed::Database<heed::types::SerdeBincode<(i64, u32)>, heed::types::Str>,
    last_updated: heed::Database<heed::types::SerdeBincode<(i64, u32)>, heed::types::Str>,
    county_status: heed::Database<heed::types::Str, heed::types::Str>,
}

/// What the primary table holds: record models by record id.
pub uninterp spec fn primary_of(h: DBHandles) -> Map<Seq<char>, RecordModel>;

/// What the category index holds: record ids by composite county+id key.
pub uninterp spec fn category_of(h: DBHandles) -> Map<Seq<char>, Seq<char>>;

/// What the status index holds: record ids by composite status+id key.
pub uninterp spec fn status_of(h: DBHandles) -> Map<Seq<char>, Seq<char>>;

/// What the opened-time index holds: record ids by opened timestamp.
pub uninterp spec fn opened_of(h: DBHandles) -> Map<Timestamp, Seq<char>>;

/// What the last-updated index holds: record ids by last-updated timestamp.
pub uninterp spec fn updated_of(h: DBHandles) -> Map<Timestamp, Seq<char>>;

/// Relies on heed::Env::create_database_with_txn (LMDB mdb_dbi_open with
/// MDB_CREATE): opens each of the five named tables, creating any that is
/// missing, all under one write transaction committed once; a no-op per
/// table that already exists, so safe on an already-initialized environment.
#[verifier::external_body]
pub fn setup_db(env: heed::Env) -> (r: Result<DBHandles, heed::Error>) {
    let mut wtxn = env.write_txn()?;
    let main_db = env.create_database_with_txn(Some("main"), &mut wtxn)?;
    let county_index = env.create_database_with_txn(Some("by-category"), &mut wtxn)?;
    let opened_index = env.create_database_with_txn(Some("by-opened"), &mut wtxn)?;
    let last_updated = env.create_database_with_txn(Some("by-last-updated"), &mut wtxn)?;
    let county_status = env.create_database_with_txn(Some("by-status"), &mut wtxn)?;
    wtxn.commit()?;
    Ok(DBHandles { env, main_db, county_index, opened_index, last_updated, county_status })
}

/// Relies on heed::Database::get through a fresh read transaction: returns
/// what the primary table holds under `id`, or nothing.
#[verifier::external_body]
pub(crate) fn get_primary(h: &DBHandles, id: &str) -> (r: Result<
    Option<StoredParts>,
    heed::Error,
>)
    ensures
        match r {
            Ok(Some(p)) => primary_of(*h).contains_key(id@) && parts_model(p) == primary_of(
                *h,
            )[id@],
            Ok(None) => !primary_of(*h).contains_key(id@),
            Err(_) => true,
        },
{
    let rtxn = h.env.read_txn()?;
    h.main_db.get(&rtxn, id)
}

/// Relies on heed::Database::get through a fresh read transaction: returns
/// what the category index holds under `key`, or nothing.
#[verifier::external_body]
pub(crate) fn get_category(h: &DBHandles, key: &str) -> (r: Result<Option<String>, heed::Error>)
    ensures
        match r {
            Ok(Some(v)) => category_of(*h).contains_key(key@) && v@ == category_of(*h)[key@],
            Ok(None) => !category_of(*h).contains_key(key@),
            Err(_) => true,
        },
{
    let rtxn = h.env.read_txn()?;
    Ok(h.county_index.get(&rtxn, key)?.map(|v| v.to_string()))
}

/// Relies on heed::Database::get through a fresh read transaction: returns
/// what the status index holds under `key`, or nothing.
#[verifier::external_body]
pub(crate) fn get_status(h: &DBHandles, key: &str) -> (r: Result<Option<String>, heed::Error>)
    ensures
        match r {
            Ok(Some(v)) => status_of(*h).contains_key(key@) && v@ == status_of(*h)[key@],
            Ok(None) => !status_of(*h).contains_key(key@),
            Err(_) => true,
        },
{
    let rtxn = h.env.read_txn()?;
    Ok(h.county_status.get(&rtxn, key)?.map(|v| v.to_string()))
}

/// Relies on heed::Database::get through a fresh read transaction: returns
/// what the opened-time index holds under `t`, or nothing.
#[verifier::external_body]
pub(crate) fn get_opened(h: &DBHandles, t: &Timestamp) -> (r: Result<Option<String>, heed::Error>)
    ensures
        match r {
            Ok(Some(v)) => opened_of(*h).contains_key(*t) && v@ == opened_of(*h)[*t],
            Ok(None) => !opened_of(*h).contains_key(*t),
            Err(_) => true,
        },
{
    let rtxn = h.env.read_txn()?;
    Ok(h.opened_index.get(&rtxn, &(t.secs, t.nanos))?.map(|v| v.to_string()))
}

/// Relies on heed::Database::get through a fresh read transaction: returns
/// what the last-updated index holds under `t`, or nothing.
#[verifier::external_body]
pub(crate) fn get_updated(h: &DBHandles, t: &Timestamp) -> (r: Result<Option<String>, heed::Error>)
    ensures
        match r {
            Ok(Some(v)) => updated_of(*h).contains_key(*t) && v@ == updated_of(*h)[*t],
            Ok(None) => !updated_of(*h).contains_key(*t),
            Err(_) => true,
        },
{
    let rtxn = h.env.read_txn()?;
    Ok(h.last_updated.get(&rtxn, &(t.secs, t.nanos))?.map(|v| v.to_string()))
}

/// Relies on heed::Database::put and heed::RwTxn::commit: writes the record
/// and its four index entries under one write transaction. LMDB makes the
/// commit atomic; on any failure the transaction is dropped and every
/// buffered write is discarded, so on an error nothing has changed.
#[verifier::external_body]
pub(crate) fn txn_create(
    h: &mut DBHandles,
    id: &str,
    parts: &StoredParts,
    cat_key: &str,
    stat_key: &str,
    opened: &Timestamp,
    updated: &Timestamp,
) -> (r: Result<(), heed::Error>)
    ensures
        r is Ok ==> primary_of(*final(h)) == primary_of(*old(h)).insert(id@, parts_model(*parts))
            && category_of(*final(h)) == category_of(*old(h)).insert(cat_key@, id@) && status_of(
            *final(h),
        ) == status_of(*old(h)).insert(stat_key@, id@) && opened_of(*final(h)) == opened_of(
            *old(h),
        ).insert(*opened, id@) && updated_of(*final(h)) == updated_of(*old(h)).insert(
            *updated,
            id@,
        ),
        r is Err ==> primary_of(*final(h)) == primary_of(*old(h)) && category_of(*final(h))
            == category_of(*old(h)) && status_of(*final(h)) == status_of(*old(h)) && opened_of(
            *final(h),
        ) == opened_of(*old(h)) && updated_of(*final(h)) == updated_of(*old(h)),
{
    let mut wtxn = h.env.write_txn()?;
    h.main_db.put(&mut wtxn, id, parts)?;
    h.county_index.put(&mut wtxn, cat_key, id)?;
    h.opened_index.put(&mut wtxn, &(opened.secs, opened.nanos), id)?;
    h.last_updated.put(&mut wtxn, &(updated.secs, updated.nanos), id)?;
    h.county_status.put(&mut wtxn, stat_key, id)?;
    wtxn.commit()
}

/// Relies on heed::Database::put, heed::Database::delete and
/// heed::RwTxn::commit: rewrites the record, retires the stale status-index
/// entry and files the new one, under one write transaction. LMDB makes the
/// commit atomic; on any failure the transaction is dropped and every
/// buffered write is discarded, so on an error nothing has changed.
#[verifier::external_body]
pub(crate) fn txn_update_status(
    h: &mut DBHandles,
    id: &str,
    parts: &StoredParts,
    old_key: &str,
    new_key: &str,
) -> (r: Result<(), heed::Error>)
    ensures
        r is Ok ==> primary_of(*final(h)) == primary_of(*old(h)).insert(id@, parts_model(*parts))
            && status_of(*final(h)) == status_of(*old(h)).remove(old_key@).insert(new_key@, id@)
            && category_of(*final(h)) == category_of(*old(h)) && opened_of(*final(h)) == opened_of(
            *old(h),
        ) && updated_of(*final(h)) == updated_of(*old(h)),
        r is Err ==> primary_of(*final(h)) == primary_of(*old(h)) && category_of(*final(h))
            == category_of(*old(h)) && status_of(*final(h)) == status_of(*old(h)) && opened_of(
            *final(h),
        ) == opened_of(*old(h)) && updated_of(*final(h)) == updated_of(*old(h)),
{
    let mut wtxn = h.env.write_txn()?;
    h.main_db.put(&mut wtxn, id, parts)?;
    h.county_status.delete(&mut wtxn, old_key)?;
    h.county_status.put(&mut wtxn, new_key, id)?;
    wtxn.commit()
}

/// Relies on heed::Database::delete and heed::RwTxn::commit: removes the
/// record and its four index entries under one write transaction; deleting
/// an absent key is not an engine failure. LMDB makes the commit atomic; on
/// any failure the transaction is dropped and every buffered write is
/// discarded, so on an error nothing has changed.
#[verifier::external_body]
pub(crate) fn txn_delete(
    h: &mut DBHandles,
    id: &str,
    cat_key: &str,
    stat_key: &str,
    opened: &Timestamp,
    updated: &Timestamp,
) -> (r: Result<(), heed::Error>)
    ensures
        r is Ok ==> primary_of(*final(h)) == primary_of(*old(h)).remove(id@) && category_of(
            *final(h),
        ) == category_of(*old(h)).remove(cat_key@) && status_of(*final(h)) == status_of(
            *old(h),
        ).remove(stat_key@) && opened_of(*final(h)) == opened_of(*old(h)).remove(*opened)
            && updated_of(*final(h)) == updated_of(*old(h)).remove(*updated),
        r is Err ==> primary_of(*final(h)) == primary_of(*old(h)) && category_of(*final(h))
            == category_of(*old(h)) && status_of(*final(h)) == status_of(*old(h)) && opened_of(
            *final(h),
        ) == opened_of(*old(h)) && updated_of(*final(h)) == updated_of(*old(h)),
{
    let mut wtxn = h.env.write_txn()?;
    h.county_index.delete(&mut wtxn, cat_key)?;
    h.county_status.delete(&mut wtxn, stat_key)?;
    h.opened_index.delete(&mut wtxn, &(opened.secs, opened.nanos))?;
    h.last_updated.delete(&mut wtxn, &(updated.secs, updated.nanos))?;
    h.main_db.delete(&mut wtxn, id)?;
    wtxn.commit()
}

/// Relies on uuid::Uuid::new_v4 and its hyphenated Display form: a freshly
/// drawn random version-4 UUID rendered as 36 characters. The draw is
/// random, so nothing relates two calls' results.
#[verifier::external_body]
pub(crate) fn new_record_id() -> (r: String)
    ensures
        r@.len() == 36,
{
    uuid::Uuid::new_v4().to_string()
}

} // verus!
