//! Image records kept in two independent stores: the binary content in an
//! object store and a metadata row (identifier, file name, owner) in a
//! relational table. The library decides, step by step, which store calls an
//! operation makes and what it answers; the caller performs the calls.

pub mod buckets;
pub mod ident;
pub mod record;
pub mod service;
pub mod sql;
pub mod stores;
pub mod laws;
