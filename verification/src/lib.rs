//! A denormalized record store: a primary table of permit records kept
//! consistent with four secondary indexes (by county, by county status, and
//! by two timestamp fields), mutated only through single-transaction
//! operations so that every index agrees with the primary table.

pub mod engine;
pub mod keys;
pub mod laws;
pub mod record;
pub mod status;
pub mod store;

pub use engine::DbError;
pub use record::DBSchema;
pub use record::Timestamp;
pub use status::Status;
pub use store::setup_db;
pub use store::DBHandles;
