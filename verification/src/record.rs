//! The record value type: its fields, its mathematical model, and the plain
//! representation under which a record crosses into the storage engine.

use vstd::prelude::*;

use crate::status::Status;

verus! {

/// A point in time: seconds since an epoch plus a sub-second nanosecond
/// part. Two timestamps are the same instant exactly when both fields agree.
#[derive(Debug, Clone, Copy, PartialEq, Eq, Structural)]
pub struct Timestamp {
    pub secs: i64,
    pub nanos: u32,
}

/// A stored record. `county_status` is indexed; `manual_status` is stored
/// but not indexed. `opened` never changes after creation.
#[derive(Debug, Clone)]
pub struct DBSchema {
    pub permit_link: String,
    pub permit_number: String,
    pub client: String,
    pub opened: Timestamp,
    pub last_updated: Timestamp,
    pub status_updated: Timestamp,
    pub county: String,
    pub county_status: Status,
    pub manual_status: Status,
    pub address: String,
}

/// The mathematical model of a record: every text field as a sequence of
/// characters, timestamps and statuses as themselves.
pub struct RecordModel {
    pub permit_link: Seq<char>,
    pub permit_number: Seq<char>,
    pub client: Seq<char>,
    pub opened: Timestamp,
    pub last_updated: Timestamp,
    pub status_updated: Timestamp,
    pub county: Seq<char>,
    pub county_status: Status,
    pub manual_status: Status,
    pub address: Seq<char>,
}

impl View for DBSchema {
    type V = RecordModel;

    open spec fn view(&self) -> RecordModel {
        RecordModel {
            permit_link: self.permit_link@,
            permit_number: self.permit_number@,
            client: self.client@,
            opened: self.opened,
            last_updated: self.last_updated,
            status_updated: self.status_updated,
            county: self.county@,
            county_status: self.county_status,
            manual_status: self.manual_status,
            address: self.address@,
        }
    }
}

impl PartialEq for DBSchema {
    fn eq(&self, other: &DBSchema) -> (r: bool) {
        self.permit_link == other.permit_link && self.permit_number == other.permit_number
            && self.client == other.client && self.opened == other.opened && self.last_updated
            == other.last_updated && self.status_updated == other.status_updated && self.county
            == other.county && self.county_status == other.county_status && self.manual_status
            == other.manual_status && self.address == other.address
    }
}

impl vstd::std_specs::cmp::PartialEqSpecImpl for DBSchema {
    open spec fn obeys_eq_spec() -> bool {
        true
    }

    open spec fn eq_spec(&self, other: &DBSchema) -> bool {
        self@ == other@
    }
}

/// The plain shape in which a record is handed to the storage engine to be
/// serialized: the five text fields, the three timestamps, and the two
/// statuses as small code numbers.
pub type StoredParts = (
    (String, String, String, String, String),
    ((i64, u32), (i64, u32), (i64, u32)),
    (u8, u8),
);

/// The code number under which a status variant is stored.
pub open spec fn status_byte(v: Status) -> u8 {
    match v {
        Status::Active => 0u8,
        Status::Inactive => 1u8,
        Status::Pending => 2u8,
        Status::Closed => 3u8,
        Status::UnderReview => 4u8,
    }
}

/// The status variant a stored code number stands for; a code outside the
/// stored range is read as `Active`.
pub open spec fn byte_status(b: u8) -> Status {
    if b == 1u8 {
        Status::Inactive
    } else if b == 2u8 {
        Status::Pending
    } else if b == 3u8 {
        Status::Closed
    } else if b == 4u8 {
        Status::UnderReview
    } else {
        Status::Active
    }
}

/// The record model a stored plain shape stands for.
pub open spec fn parts_model(p: StoredParts) -> RecordModel {
    RecordModel {
        permit_link: p.0.0@,
        permit_number: p.0.1@,
        client: p.0.2@,
        county: p.0.3@,
        address: p.0.4@,
        opened: Timestamp { secs: p.1.0.0, nanos: p.1.0.1 },
        last_updated: Timestamp { secs: p.1.1.0, nanos: p.1.1.1 },
        status_updated: Timestamp { secs: p.1.2.0, nanos: p.1.2.1 },
        county_status: byte_status(p.2.0),
        manual_status: byte_status(p.2.1),
    }
}

/// The code number under which a status is stored.
pub fn status_code(v: Status) -> (b: u8)
    ensures
        b == status_byte(v),
{
    match v {
        Status::Active => 0u8,
        Status::Inactive => 1u8,
        Status::Pending => 2u8,
        Status::Closed => 3u8,
        Status::UnderReview => 4u8,
    }
}

/// The status a stored code number stands for.
pub fn status_of_code(b: u8) -> (v: Status)
    ensures
        v == byte_status(b),
{
    if b == 1u8 {
        Status::Inactive
    } else if b == 2u8 {
        Status::Pending
    } else if b == 3u8 {
        Status::Closed
    } else if b == 4u8 {
        Status::UnderReview
    } else {
        Status::Active
    }
}

/// Take a record apart into the plain shape the storage engine serializes.
pub fn to_parts(r: &DBSchema) -> (p: StoredParts)
    ensures
        parts_model(p) == r@,
{
    (
        (
            r.permit_link.clone(),
            r.permit_number.clone(),
            r.client.clone(),
            r.county.clone(),
            r.address.clone(),
        ),
        (
            (r.opened.secs, r.opened.nanos),
            (r.last_updated.secs, r.last_updated.nanos),
            (r.status_updated.secs, r.status_updated.nanos),
        ),
        (status_code(r.county_status), status_code(r.manual_status)),
    )
}

/// Rebuild a record from the plain shape read back from the storage engine.
pub fn from_parts(p: StoredParts) -> (r: DBSchema)
    ensures
        r@ == parts_model(p),
{
    let ((permit_link, permit_number, client, county, address), (op, lu, su), (cs, ms)) = p;
    DBSchema {
        permit_link,
        permit_number,
        client,
        county,
        address,
        opened: Timestamp { secs: op.0, nanos: op.1 },
        last_updated: Timestamp { secs: lu.0, nanos: lu.1 },
        status_updated: Timestamp { secs: su.0, nanos: su.1 },
        county_status: status_of_code(cs),
        manual_status: status_of_code(ms),
    }
}

} // verus!
