use permit_store::engine::{
    create_record, delete_record, lookup_category, lookup_opened, lookup_status, lookup_updated,
    read_record_by_uuid, update_county_status,
};
use permit_store::{setup_db, DBHandles, DBSchema, DbError, Status, Timestamp};

fn open_store(dir: &tempfile::TempDir) -> DBHandles {
    let env = heed::EnvOpenOptions::new()
        .map_size(10 * 1024 * 1024)
        .max_dbs(10)
        .open(dir.path())
        .expect("environment should open");
    setup_db(env).expect("tables should open")
}

// 2024-01-01T00:00:00 as seconds since the Unix epoch.
const OPENED_SECS: i64 = 1704067200;

fn travis_record() -> DBSchema {
    DBSchema {
        permit_link: "https://example.test/permit/1".to_string(),
        permit_number: "P-0001".to_string(),
        client: "Acme Builders".to_string(),
        opened: Timestamp {
            secs: OPENED_SECS,
            nanos: 0,
        },
        last_updated: Timestamp {
            secs: OPENED_SECS + 3600,
            nanos: 0,
        },
        status_updated: Timestamp {
            secs: OPENED_SECS + 3600,
            nanos: 0,
        },
        county: "Travis".to_string(),
        county_status: Status::Active,
        manual_status: Status::Pending,
        address: "1 Main St".to_string(),
    }
}

#[test]
fn setup_is_idempotent() {
    let dir = tempfile::tempdir().unwrap();
    let mut h = open_store(&dir);
    let data = travis_record();
    let id = create_record(&mut h, &data).unwrap();
    drop(h);
    // A second setup against the same environment must find the same tables.
    let h2 = open_store(&dir);
    assert_eq!(read_record_by_uuid(&h2, &id).unwrap(), data);
}

#[test]
fn create_assigns_a_36_char_id() {
    let dir = tempfile::tempdir().unwrap();
    let mut h = open_store(&dir);
    let id = create_record(&mut h, &travis_record()).unwrap();
    assert_eq!(id.chars().count(), 36);
}

#[test]
fn create_fills_every_index() {
    let dir = tempfile::tempdir().unwrap();
    let mut h = open_store(&dir);
    let data = travis_record();
    let id = create_record(&mut h, &data).unwrap();

    assert_eq!(read_record_by_uuid(&h, &id).unwrap(), data);
    let cat_key = format!("Travis-{}", id);
    assert_eq!(lookup_category(&h, &cat_key).unwrap(), Some(id.clone()));
    let stat_key = format!("Active-{}", id);
    assert_eq!(lookup_status(&h, &stat_key).unwrap(), Some(id.clone()));
    assert_eq!(lookup_opened(&h, &data.opened).unwrap(), Some(id.clone()));
    assert_eq!(
        lookup_updated(&h, &data.last_updated).unwrap(),
        Some(id.clone())
    );
}

#[test]
fn update_status_moves_the_status_entry() {
    let dir = tempfile::tempdir().unwrap();
    let mut h = open_store(&dir);
    let data = travis_record();
    let id = create_record(&mut h, &data).unwrap();

    update_county_status(&mut h, &id, "Closed").unwrap();

    let old_key = format!("Active-{}", id);
    let new_key = format!("Closed-{}", id);
    assert_eq!(lookup_status(&h, &old_key).unwrap(), None);
    assert_eq!(lookup_status(&h, &new_key).unwrap(), Some(id.clone()));
    let rec = read_record_by_uuid(&h, &id).unwrap();
    assert_eq!(rec.county_status, Status::Closed);
    // Nothing but the status and the primary record moved.
    assert_eq!(rec.county, data.county);
    assert_eq!(rec.opened, data.opened);
    let cat_key = format!("Travis-{}", id);
    assert_eq!(lookup_category(&h, &cat_key).unwrap(), Some(id.clone()));
}

#[test]
fn update_status_parses_case_insensitively() {
    let dir = tempfile::tempdir().unwrap();
    let mut h = open_store(&dir);
    let id = create_record(&mut h, &travis_record()).unwrap();
    update_county_status(&mut h, &id, "uNdErReViEw").unwrap();
    let rec = read_record_by_uuid(&h, &id).unwrap();
    assert_eq!(rec.county_status, Status::UnderReview);
    let new_key = format!("UnderReview-{}", id);
    assert_eq!(lookup_status(&h, &new_key).unwrap(), Some(id.clone()));
}

#[test]
fn update_status_rejects_bad_text() {
    let dir = tempfile::tempdir().unwrap();
    let mut h = open_store(&dir);
    let data = travis_record();
    let id = create_record(&mut h, &data).unwrap();
    assert_eq!(
        update_county_status(&mut h, &id, "bogus"),
        Err(DbError::ParseError)
    );
    // The record is untouched.
    let rec = read_record_by_uuid(&h, &id).unwrap();
    assert_eq!(rec.county_status, Status::Active);
}

#[test]
fn lifecycle_create_update_delete() {
    let dir = tempfile::tempdir().unwrap();
    let mut h = open_store(&dir);
    let data = travis_record();
    let id = create_record(&mut h, &data).unwrap();

    assert_eq!(read_record_by_uuid(&h, &id).unwrap(), data);

    update_county_status(&mut h, &id, "Closed").unwrap();
    let old_key = format!("Active-{}", id);
    let new_key = format!("Closed-{}", id);
    assert_eq!(lookup_status(&h, &old_key).unwrap(), None);
    assert_eq!(lookup_status(&h, &new_key).unwrap(), Some(id.clone()));

    assert_eq!(delete_record(&mut h, &id), Ok(true));
    assert_eq!(read_record_by_uuid(&h, &id), Err(DbError::NotFound));
    let cat_key = format!("Travis-{}", id);
    assert_eq!(lookup_category(&h, &cat_key).unwrap(), None);
    assert_eq!(lookup_status(&h, &new_key).unwrap(), None);
    assert_eq!(lookup_opened(&h, &data.opened).unwrap(), None);
    assert_eq!(lookup_updated(&h, &data.last_updated).unwrap(), None);
}

#[test]
fn missing_id_operations_change_nothing() {
    let dir = tempfile::tempdir().unwrap();
    let mut h = open_store(&dir);
    let data = travis_record();
    let id = create_record(&mut h, &data).unwrap();

    let unknown = "00000000-0000-0000-0000-000000000000";
    assert_eq!(
        update_county_status(&mut h, unknown, "Closed"),
        Err(DbError::NotFound)
    );
    assert_eq!(delete_record(&mut h, unknown), Ok(false));

    // The one stored record and all its index entries are untouched.
    assert_eq!(read_record_by_uuid(&h, &id).unwrap(), data);
    let cat_key = format!("Travis-{}", id);
    assert_eq!(lookup_category(&h, &cat_key).unwrap(), Some(id.clone()));
    let stat_key = format!("Active-{}", id);
    assert_eq!(lookup_status(&h, &stat_key).unwrap(), Some(id.clone()));
    assert_eq!(lookup_opened(&h, &data.opened).unwrap(), Some(id.clone()));
    assert_eq!(
        lookup_updated(&h, &data.last_updated).unwrap(),
        Some(id.clone())
    );
}

#[test]
fn two_records_keep_separate_entries() {
    let dir = tempfile::tempdir().unwrap();
    let mut h = open_store(&dir);
    let a = travis_record();
    let mut b = travis_record();
    b.county = "Hays".to_string();
    b.county_status = Status::Pending;
    b.opened = Timestamp {
        secs: OPENED_SECS + 86400,
        nanos: 0,
    };
    b.last_updated = Timestamp {
        secs: OPENED_SECS + 90000,
        nanos: 0,
    };
    let id_a = create_record(&mut h, &a).unwrap();
    let id_b = create_record(&mut h, &b).unwrap();
    assert_ne!(id_a, id_b);

    assert_eq!(delete_record(&mut h, &id_a), Ok(true));
    // Record b and its entries survive the deletion of a.
    assert_eq!(read_record_by_uuid(&h, &id_b).unwrap(), b);
    let cat_key_b = format!("Hays-{}", id_b);
    assert_eq!(lookup_category(&h, &cat_key_b).unwrap(), Some(id_b.clone()));
    let stat_key_b = format!("Pending-{}", id_b);
    assert_eq!(lookup_status(&h, &stat_key_b).unwrap(), Some(id_b.clone()));
    assert_eq!(lookup_opened(&h, &b.opened).unwrap(), Some(id_b.clone()));
}

#[test]
fn update_to_same_status_keeps_the_entry() {
    let dir = tempfile::tempdir().unwrap();
    let mut h = open_store(&dir);
    let id = create_record(&mut h, &travis_record()).unwrap();
    // The retired entry is refiled under the same key: the net effect is
    // that the entry is still there.
    update_county_status(&mut h, &id, "Active").unwrap();
    let key = format!("Active-{}", id);
    assert_eq!(lookup_status(&h, &key).unwrap(), Some(id.clone()));
    let rec = read_record_by_uuid(&h, &id).unwrap();
    assert_eq!(rec.county_status, Status::Active);
}

#[test]
fn equal_timestamps_share_one_index_entry() {
    // The timestamp indexes key by the bare timestamp, so a second record
    // opened at the identical instant overwrites the first one's entry, and
    // deleting the first then removes the survivor's entry too.
    let dir = tempfile::tempdir().unwrap();
    let mut h = open_store(&dir);
    let a = travis_record();
    let b = travis_record();
    let id_a = create_record(&mut h, &a).unwrap();
    let id_b = create_record(&mut h, &b).unwrap();
    assert_eq!(lookup_opened(&h, &a.opened).unwrap(), Some(id_b.clone()));

    assert_eq!(delete_record(&mut h, &id_a), Ok(true));
    assert_eq!(lookup_opened(&h, &b.opened).unwrap(), None);
    // The second record itself is still fully present in the primary table.
    assert_eq!(read_record_by_uuid(&h, &id_b).unwrap(), b);
}
