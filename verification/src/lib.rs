//! A safe-handle layer for an embedded transactional key/value engine.
//!
//! The layer never touches the engine itself. Every operation on a handle
//! comes in two halves: a function whose name ends in `_call` describes the
//! engine call to make, as a plain [`Call`] value, and its namesake takes the
//! engine's [`Reply`] and says what the operation yields. Commit and abort
//! use the transaction up as they hand out their call, and leave a
//! [`Resolution`] to take the reply. Giving a handle back with `release`
//! yields the engine calls that are owed, in the order in which they must be
//! made. The caller's only duty is to perform the calls it is handed.
//!
//! # Examples
//! ```
//! use libdb::flags::DB_CREATE;
//! use libdb::{Call, DatabaseBuilder, Flags, Reply};
//!
//! let builder = DatabaseBuilder::new().flags(Flags::from_bits(DB_CREATE).unwrap());
//! assert_eq!(builder.create_call(), Call::DbCreate { env: 0 });
//! // The engine allocated the database and gave it the handle 7 ...
//! let created = Reply::created(0, 7);
//! let call = builder.open_call(&created);
//! assert!(matches!(call, Call::DbOpen { db: 7, flags: 1, .. }));
//! // ... and opened it.
//! let (db, owed) = builder.open(&created, &Reply::bare(0));
//! assert!(owed.is_empty());
//! let db = db.unwrap();
//!
//! let call = db.get_call(None, b"key", Flags::empty());
//! assert_eq!(call, Call::DbGet { db: 7, txn: 0, key: b"key".to_vec(), flags: 0 });
//! // The engine found the record.
//! let found = Reply::record(0, Vec::new(), b"value".to_vec());
//! assert_eq!(db.get(found).unwrap().unwrap().as_slice(), b"value");
//! ```
pub mod cursor;
pub mod db;
pub mod dbt;
pub mod engine;
pub mod env;
pub mod error;
pub mod flags;
mod share;
pub mod txn;

pub use cursor::Cursor;
pub use db::Database;
pub use db::DatabaseBuilder;
pub use db::Db;
pub use db::DbType;
pub use dbt::DBT;
pub use engine::Call;
pub use engine::Reply;
pub use env::Env;
pub use env::Environment;
pub use env::EnvironmentBuilder;
pub use error::Error;
pub use error::ErrorKind;
pub use flags::Flags;
pub use txn::CommitType;
pub use txn::Resolution;
pub use txn::Transaction;
