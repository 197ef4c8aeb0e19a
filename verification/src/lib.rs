//! A lazy, cache-backed sequential accessor over a remote, indexable
//! collection of immutable records.
//!
//! The collection lives behind a record source (the
//! [`backend_mecha_function::BackEndMechaFunction`] capability), which can
//! report how many records exist and hand out the raw data for one ordinal
//! position at a time. Remote fetches are expensive, so the accessor in
//! [`mecha_collection`] pulls records in fixed-size batches, keeps every
//! fetched record in an append-only local prefix, and produces records one by
//! one in ordinal order without ever fetching the same position twice.

pub mod backend_mecha_function;
pub mod mecha;
pub mod mecha_collection;
pub mod mock_backend_function;
