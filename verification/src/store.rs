//! The store and its three operations. Each operation is one command
//! for the backend and one reading of the backend's reply; sending the
//! command is the caller's part.

use vstd::prelude::*;
use vstd::utf8::encode_utf8;

use crate::codec::{
    decode_record, decoded, decodes, encode_record, encodes, expiry_of, id_of, record_expiry,
    record_id,
};
use crate::command::{
    cmd_args, del_args, del_command, get_args, get_command, lemma_signed_decimal_injective,
    set_args, set_command, signed_decimal,
};
use crate::error::RedisStoreError;
use crate::key::{backend_key, session_key};

verus! {

#[verifier::external_type_specification]
#[verifier::external_body]
pub struct ExConnectionManager(redis::aio::ConnectionManager);

/// `Clone` of `redis::aio::ConnectionManager`, which is derived over one
/// shared pointer. Trusted: the clone is a handle to the same managed
/// connection, equal to the one it was made from.
pub assume_specification[ <redis::aio::ConnectionManager as std::clone::Clone>::clone ](
    handle: &redis::aio::ConnectionManager,
) -> (other: redis::aio::ConnectionManager)
    ensures
        other == *handle,
;

/// A Redis session store: a handle to a managed connection.
pub struct RedisPoolStore {
    client: redis::aio::ConnectionManager,
}

impl Clone for RedisPoolStore {
    /// Another store on a handle to the same managed connection.
    fn clone(&self) -> (other: Self)
        ensures
            other.handle() == self.handle(),
    {
        RedisPoolStore { client: self.client.clone() }
    }
}

impl RedisPoolStore {
    /// The connection handle that the store was made with.
    pub closed spec fn handle(&self) -> redis::aio::ConnectionManager {
        self.client
    }

    /// Creates a store on the given connection handle.
    pub fn new(client: redis::aio::ConnectionManager) -> (store: Self)
        ensures
            store.handle() == client,
    {
        RedisPoolStore { client }
    }

    /// The store's connection handle.
    pub fn client(&self) -> (client: &redis::aio::ConnectionManager)
        ensures
            *client == self.handle(),
    {
        &self.client
    }
}

/// The arguments of the command that saves a record with identifier `id`,
/// binary form `value` and expiry `expiry`, in seconds since the epoch.
pub open spec fn save_args(id: i128, value: Seq<u8>, expiry: i64) -> Seq<Seq<u8>> {
    set_args(session_key(id), value, expiry)
}

/// The arguments of the command that loads the session `id`.
pub open spec fn load_args(id: i128) -> Seq<Seq<u8>> {
    get_args(session_key(id))
}

/// The arguments of the command that deletes the session `id`.
pub open spec fn delete_args(id: i128) -> Seq<Seq<u8>> {
    del_args(session_key(id))
}

/// Builds the save command from a record's identifier, its expiry and the
/// outcome of serialising it. A record that could not be serialised gives
/// the encode failure and no command.
pub fn save_command_from(id: i128, expiry: i64, encoded: Result<Vec<u8>, rmp_serde::encode::Error>) -> (res:
    Result<redis::Cmd, RedisStoreError>)
    ensures
        match encoded {
            Ok(bytes) => res is Ok && cmd_args(res->Ok_0) == save_args(id, bytes@, expiry),
            Err(e) => res == Err::<redis::Cmd, RedisStoreError>(RedisStoreError::Encode(e)),
        },
{
    match encoded {
        Ok(bytes) => {
            let key = backend_key(id);
            Ok(set_command(key.as_str(), bytes.as_slice(), expiry))
        },
        Err(e) => Err(RedisStoreError::Encode(e)),
    }
}

/// Builds the one command that saves `record`: a `SET` at the record's key
/// with the record's binary form and, after `EXAT`, the record's expiry as
/// it is. It succeeds exactly on the records that have a binary form; the
/// only failure is an encode failure.
pub fn save_command(record: &tower_sessions_core::session::Record) -> (res: Result<
    redis::Cmd,
    RedisStoreError,
>)
    ensures
        res is Ok <==> encodes(*record),
        match res {
            Ok(c) => exists|value: Seq<u8>|
                cmd_args(c) == #[trigger] save_args(id_of(*record), value, expiry_of(*record)),
            Err(e) => e is Encode,
        },
{
    let id = record_id(record);
    let expiry = record_expiry(record);
    let encoded = encode_record(record);
    let ghost value = if encoded is Ok {
        encoded->Ok_0@
    } else {
        Seq::<u8>::empty()
    };
    let res = save_command_from(id, expiry, encoded);
    proof {
        if res is Ok {
            assert(cmd_args(res->Ok_0) == save_args(id_of(*record), value, expiry_of(*record)));
        }
    }
    res
}

/// Builds the one command that loads the session `id`: a `GET` at its key.
pub fn load_command(id: i128) -> (c: redis::Cmd)
    ensures
        cmd_args(c) == load_args(id),
{
    let key = backend_key(id);
    get_command(key.as_str())
}

/// Builds the one command that deletes the session `id`: a `DEL` at its
/// key.
pub fn delete_command(id: i128) -> (c: redis::Cmd)
    ensures
        cmd_args(c) == delete_args(id),
{
    let key = backend_key(id);
    del_command(key.as_str())
}

/// Reads the backend's reply to a save or a delete. Any reply is success;
/// a failure of the backend is handed on as it is.
pub fn write_result(reply: Result<(), redis::RedisError>) -> (res: Result<(), RedisStoreError>)
    ensures
        match reply {
            Ok(_) => res is Ok,
            Err(e) => res == Err::<(), RedisStoreError>(RedisStoreError::Redis(e)),
        },
{
    match reply {
        Ok(_) => Ok(()),
        Err(e) => Err(RedisStoreError::Redis(e)),
    }
}

/// What a load returns once the stored bytes have been through the codec:
/// the record, or the decode failure. Never "no session".
pub fn loaded(decoded: Result<tower_sessions_core::session::Record, rmp_serde::decode::Error>) -> (res:
    Result<Option<tower_sessions_core::session::Record>, RedisStoreError>)
    ensures
        match decoded {
            Ok(record) => res == Ok::<Option<tower_sessions_core::session::Record>, RedisStoreError>(
                Some(record),
            ),
            Err(e) => res == Err::<Option<tower_sessions_core::session::Record>, RedisStoreError>(
                RedisStoreError::Decode(e),
            ),
        },
{
    match decoded {
        Ok(record) => Ok(Some(record)),
        Err(e) => Err(RedisStoreError::Decode(e)),
    }
}

/// Reads the backend's reply to a load. A failure of the backend is handed
/// on. No value at the key is `Ok(None)`, and only that is. Bytes at the
/// key give the record that they decode to, and a decode failure where they
/// decode to none. The result depends on the reply alone.
pub fn load_result(reply: Result<Option<Vec<u8>>, redis::RedisError>) -> (res: Result<
    Option<tower_sessions_core::session::Record>,
    RedisStoreError,
>)
    ensures
        match reply {
            Err(e) => res == Err::<Option<tower_sessions_core::session::Record>, RedisStoreError>(
                RedisStoreError::Redis(e),
            ),
            Ok(None) => res == Ok::<Option<tower_sessions_core::session::Record>, RedisStoreError>(None),
            Ok(Some(bytes)) => if decodes(bytes@) {
                res == Ok::<Option<tower_sessions_core::session::Record>, RedisStoreError>(
                    Some(decoded(bytes@)),
                )
            } else {
                res is Err && res->Err_0 is Decode
            },
        },
{
    match reply {
        Err(e) => Err(RedisStoreError::Redis(e)),
        Ok(None) => Ok(None),
        Ok(Some(bytes)) => loaded(decode_record(bytes.as_slice())),
    }
}

/// Saving, loading and deleting one session address one key, the session's
/// own, whatever is saved and whenever it expires; and a save carries the
/// value it was given, unchanged.
pub proof fn lemma_operations_share_key(id: i128, value: Seq<u8>, expiry: i64)
    ensures
        save_args(id, value, expiry)[1] == encode_utf8(session_key(id)),
        load_args(id)[1] == encode_utf8(session_key(id)),
        delete_args(id)[1] == encode_utf8(session_key(id)),
        save_args(id, value, expiry)[2] == value,
{
}

/// The expiration of a save is absolute: the command is a `SET` of five
/// arguments whose last two are `EXAT` and the expiry itself, as a decimal
/// numeral with its sign. It is computed from the expiry alone, so the
/// saves of two expiries carry the same argument only if the expiries are
/// the same instant.
pub proof fn lemma_expiration_is_absolute(id: i128, value: Seq<u8>, expiry: i64, other: i64)
    ensures
        save_args(id, value, expiry).len() == 5,
        save_args(id, value, expiry)[0] == encode_utf8("SET"@),
        save_args(id, value, expiry)[3] == encode_utf8("EXAT"@),
        save_args(id, value, expiry)[4] == signed_decimal(expiry as int),
        save_args(id, value, expiry)[4] == save_args(id, value, other)[4] <==> expiry == other,
{
    lemma_signed_decimal_injective(expiry as int, other as int);
}

} // verus!
