//! The session record and its binary form.
//!
//! A record is a value of `tower_sessions_core::session::Record`. Its data
//! payload is an open mapping that this library never looks into, so a
//! record is carried whole; the two things that the store reads from it have
//! names here.

use vstd::prelude::*;

verus! {

#[verifier::external_type_specification]
#[verifier::external_body]
pub struct ExRecord(tower_sessions_core::session::Record);

/// The number of the record's session identifier: its field `id`.
pub uninterp spec fn id_of(r: tower_sessions_core::session::Record) -> i128;

/// The record's expiry as whole seconds since the Unix epoch: what
/// `time::OffsetDateTime::unix_timestamp` returns for its field
/// `expiry_date`.
pub uninterp spec fn expiry_of(r: tower_sessions_core::session::Record) -> i64;

/// Whether a string of bytes is the binary form of some record: whether
/// `rmp_serde::from_slice` accepts it as a
/// `tower_sessions_core::session::Record`.
pub uninterp spec fn decodes(bytes: Seq<u8>) -> bool;

/// The record that a string of bytes is the binary form of: what
/// `rmp_serde::from_slice` returns for bytes that it accepts.
pub uninterp spec fn decoded(bytes: Seq<u8>) -> tower_sessions_core::session::Record;

/// Whether a record has a binary form: whether `rmp_serde::to_vec` accepts
/// it. The bytes are not fixed by the record, but whether there are any is.
pub uninterp spec fn encodes(r: tower_sessions_core::session::Record) -> bool;

/// Reads the field `id` of the record and the number inside it. Trusted:
/// the result is `id_of`.
#[verifier::external_body]
pub(crate) fn record_id(record: &tower_sessions_core::session::Record) -> (id: i128)
    ensures
        id == id_of(*record),
{
    record.id.0
}

/// Calls `time::OffsetDateTime::unix_timestamp` on the record's field
/// `expiry_date`. Trusted: the result is `expiry_of`.
#[verifier::external_body]
pub(crate) fn record_expiry(record: &tower_sessions_core::session::Record) -> (seconds: i64)
    ensures
        seconds == expiry_of(*record),
{
    time::OffsetDateTime::unix_timestamp(record.expiry_date)
}

/// Calls `rmp_serde::to_vec` on the record. Trusted: it succeeds exactly on
/// the records that `encodes` accepts. Nothing is claimed of the bytes: the
/// order in which the payload's entries are written is not fixed.
#[verifier::external_body]
pub(crate) fn encode_record(record: &tower_sessions_core::session::Record) -> (res: Result<
    Vec<u8>,
    rmp_serde::encode::Error,
>)
    ensures
        res is Ok <==> encodes(*record),
{
    rmp_serde::to_vec(record)
}

/// Calls `rmp_serde::from_slice` for a record. Trusted: it succeeds exactly
/// on the bytes that `decodes` accepts, and the record it then returns is
/// `decoded` of the bytes.
#[verifier::external_body]
pub(crate) fn decode_record(bytes: &[u8]) -> (res: Result<
    tower_sessions_core::session::Record,
    rmp_serde::decode::Error,
>)
    ensures
        res is Ok <==> decodes(bytes@),
        res is Ok ==> res->Ok_0 == decoded(bytes@),
{
    rmp_serde::from_slice(bytes)
}

} // verus!
