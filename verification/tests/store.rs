use std::collections::HashMap;

use redis_pool_store::command::{del_command, get_command, set_command};
use redis_pool_store::key::{backend_key, key_for};
use redis_pool_store::store::{
    delete_command, load_command, load_result, loaded, save_command,
    save_command_from, write_result,
};
use redis_pool_store::{RedisStoreError, StoreError};
use serde_json::Value;
use time::OffsetDateTime;
use tower_sessions_core::session::{Id, Record};

fn args(cmd: &redis::Cmd) -> Vec<Vec<u8>> {
    let mut out: Vec<Vec<u8>> = Vec::new();
    for arg in cmd.args_iter() {
        match arg {
            redis::Arg::Simple(bytes) => out.push(bytes.to_vec()),
            _ => panic!("a command of this library holds plain arguments only"),
        }
    }
    out
}

fn record(id: i128, expiry: i64) -> Record {
    let mut inner = serde_json::Map::new();
    inner.insert("roles".to_string(), Value::Array(vec![Value::from("admin"), Value::from(7)]));
    inner.insert("ratio".to_string(), Value::from(0.25));
    let mut data: HashMap<String, Value> = HashMap::new();
    data.insert("user".to_string(), Value::from("ferris"));
    data.insert("visits".to_string(), Value::from(42));
    data.insert("flag".to_string(), Value::Bool(true));
    data.insert("nothing".to_string(), Value::Null);
    data.insert("profile".to_string(), Value::Object(inner));
    Record { id: Id(id), data, expiry_date: OffsetDateTime::from_unix_timestamp(expiry).unwrap() }
}

fn backend_failure() -> redis::RedisError {
    redis::RedisError::from((redis::ErrorKind::Io, "connection lost"))
}

#[test]
fn key_is_prefix_then_canonical_id() {
    let id = Id(0x0123_4567_89ab_cdef_0123_4567_89ab_cdef);
    assert_eq!(backend_key(id.0), format!("tower_session:{}", id));
    assert!(backend_key(id.0).starts_with("tower_session:"));
    assert_eq!(backend_key(id.0).len(), "tower_session:".len() + 22);
}

#[test]
fn key_for_literal_text() {
    assert_eq!(key_for("abc"), "tower_session:abc");
    assert_eq!(key_for(""), "tower_session:");
}

#[test]
fn literal_session_is_saved_at_its_key_with_its_expiry() {
    let key = key_for("abc");
    let cmd = set_command(&key, b"payload", 1_700_000_000);
    let a = args(&cmd);
    assert_eq!(a[1], b"tower_session:abc".to_vec());
    assert_eq!(a[3], b"EXAT".to_vec());
    assert_eq!(a[4], b"1700000000".to_vec());
}

#[test]
fn key_of_zero_id() {
    assert_eq!(backend_key(0), "tower_session:AAAAAAAAAAAAAAAAAAAAAA");
}

#[test]
fn keys_of_distinct_ids_differ() {
    assert_ne!(backend_key(1), backend_key(2));
    assert_ne!(backend_key(-1), backend_key(1));
    assert_eq!(backend_key(7), backend_key(7));
}

#[test]
fn set_command_literal_arguments() {
    let cmd = set_command("tower_session:abc", &[1u8, 2, 3], 1_700_000_000);
    assert_eq!(
        args(&cmd),
        vec![
            b"SET".to_vec(),
            b"tower_session:abc".to_vec(),
            vec![1u8, 2, 3],
            b"EXAT".to_vec(),
            b"1700000000".to_vec(),
        ]
    );
}

#[test]
fn set_command_packs_as_one_command() {
    let cmd = set_command("k", b"v", 10);
    assert_eq!(
        cmd.get_packed_command(),
        b"*5\r\n$3\r\nSET\r\n$1\r\nk\r\n$1\r\nv\r\n$4\r\nEXAT\r\n$2\r\n10\r\n".to_vec()
    );
}

#[test]
fn set_command_keeps_an_empty_value() {
    let cmd = set_command("k", &[], 0);
    assert_eq!(
        args(&cmd),
        vec![b"SET".to_vec(), b"k".to_vec(), Vec::new(), b"EXAT".to_vec(), b"0".to_vec()]
    );
}

#[test]
fn expiration_is_written_in_decimal() {
    assert_eq!(args(&set_command("k", b"v", 9))[4], b"9".to_vec());
    assert_eq!(args(&set_command("k", b"v", 10))[4], b"10".to_vec());
    assert_eq!(args(&set_command("k", b"v", 109))[4], b"109".to_vec());
    assert_eq!(args(&set_command("k", b"v", 4_102_444_800))[4], b"4102444800".to_vec());
}

#[test]
fn get_command_literal_arguments() {
    let cmd = get_command("tower_session:abc");
    assert_eq!(args(&cmd), vec![b"GET".to_vec(), b"tower_session:abc".to_vec()]);
}

#[test]
fn del_command_literal_arguments() {
    let cmd = del_command("tower_session:abc");
    assert_eq!(args(&cmd), vec![b"DEL".to_vec(), b"tower_session:abc".to_vec()]);
}

#[test]
fn command_key_is_utf8_of_the_text() {
    let cmd = get_command("clé");
    assert_eq!(args(&cmd)[1], vec![b'c', b'l', 0xc3, 0xa9]);
}

#[test]
fn negative_expiration_is_sent_as_it_is() {
    assert_eq!(args(&set_command("k", b"v", -1))[4], b"-1".to_vec());
    assert_eq!(args(&set_command("k", b"v", -120))[4], b"-120".to_vec());
    assert_eq!(args(&set_command("k", b"v", i64::MIN))[4], b"-9223372036854775808".to_vec());
    assert_eq!(args(&set_command("k", b"v", i64::MAX))[4], b"9223372036854775807".to_vec());
}

#[test]
fn save_does_not_correct_an_expiry_before_the_epoch() {
    let r = record(8, -1);
    let a = args(&save_command(&r).unwrap());
    assert_eq!(a.len(), 5);
    assert_eq!(a[3], b"EXAT".to_vec());
    assert_eq!(a[4], b"-1".to_vec());
    let from = args(&save_command_from(8, -1, Ok(vec![1u8])).unwrap());
    assert_eq!(from[4], b"-1".to_vec());
}

#[test]
fn save_command_is_set_with_absolute_expiration() {
    let r = record(99, 1_700_000_000);
    let cmd = save_command(&r).unwrap();
    let a = args(&cmd);
    assert_eq!(a.len(), 5);
    assert_eq!(a[0], b"SET".to_vec());
    assert_eq!(a[1], format!("tower_session:{}", Id(99)).into_bytes());
    assert_eq!(a[3], b"EXAT".to_vec());
    assert_eq!(a[4], b"1700000000".to_vec());
}

#[test]
fn save_command_from_encoded_bytes() {
    let cmd = save_command_from(5, 1_700_000_000, Ok(vec![9u8, 8, 7])).unwrap();
    assert_eq!(
        args(&cmd),
        vec![
            b"SET".to_vec(),
            format!("tower_session:{}", Id(5)).into_bytes(),
            vec![9u8, 8, 7],
            b"EXAT".to_vec(),
            b"1700000000".to_vec(),
        ]
    );
}

#[test]
fn save_command_from_encode_failure() {
    let failure = rmp_serde::encode::Error::Syntax("no".to_string());
    let res = save_command_from(5, 1_700_000_000, Err(failure));
    match res {
        Err(RedisStoreError::Encode(rmp_serde::encode::Error::Syntax(text))) => assert_eq!(text, "no"),
        _ => panic!("an encode failure is handed on as it is"),
    }
}

#[test]
fn record_round_trips_through_the_codec() {
    let r = record(-123_456_789, 1_700_000_000);
    let cmd = save_command(&r).unwrap();
    let stored = args(&cmd)[2].clone();
    assert!(!stored.is_empty());
    let back = load_result(Ok(Some(stored))).unwrap();
    assert_eq!(back, Some(r));
}

#[test]
fn record_with_empty_data_round_trips() {
    let r = Record {
        id: Id(i128::MAX),
        data: HashMap::new(),
        expiry_date: OffsetDateTime::from_unix_timestamp(0).unwrap(),
    };
    let stored = args(&save_command(&r).unwrap())[2].clone();
    assert_eq!(load_result(Ok(Some(stored))).unwrap(), Some(r));
}

#[test]
fn save_then_load_address_the_same_key() {
    let r = record(77, 1_800_000_000);
    let saved = args(&save_command(&r).unwrap());
    let loaded = args(&load_command(77));
    let deleted = args(&delete_command(77));
    assert_eq!(saved[1], loaded[1]);
    assert_eq!(saved[1], deleted[1]);
}

#[test]
fn later_save_replaces_value_and_expiration() {
    let first = record(31, 1_700_000_000);
    let mut second = record(31, 1_900_000_000);
    second.data.insert("extra".to_string(), Value::from("later"));
    let a = args(&save_command(&first).unwrap());
    let b = args(&save_command(&second).unwrap());
    assert_eq!(a[1], b[1]);
    assert_eq!(a[4], b"1700000000".to_vec());
    assert_eq!(b[4], b"1900000000".to_vec());
    assert_eq!(load_result(Ok(Some(b[2].clone()))).unwrap(), Some(second));
}

#[test]
fn load_command_is_get_at_the_key() {
    let cmd = load_command(12);
    assert_eq!(args(&cmd), vec![b"GET".to_vec(), format!("tower_session:{}", Id(12)).into_bytes()]);
}

#[test]
fn delete_command_is_del_at_the_key() {
    let cmd = delete_command(12);
    assert_eq!(args(&cmd), vec![b"DEL".to_vec(), format!("tower_session:{}", Id(12)).into_bytes()]);
}

#[test]
fn delete_twice_sends_the_same_command_and_succeeds() {
    let first = delete_command(40);
    let second = delete_command(40);
    assert_eq!(args(&first), args(&second));
    assert!(write_result(Ok(())).is_ok());
    assert!(write_result(Ok(())).is_ok());
}

#[test]
fn load_depends_on_the_reply_alone() {
    let r = record(64, 1_700_000_000);
    let stored = args(&save_command(&r).unwrap())[2].clone();
    let once = load_result(Ok(Some(stored.clone()))).unwrap();
    let again = load_result(Ok(Some(stored))).unwrap();
    assert_eq!(once, again);
    assert_eq!(once, Some(r));
}

#[test]
fn load_does_not_judge_an_expiry_that_has_passed() {
    let r = record(65, 1);
    let stored = args(&save_command(&r).unwrap())[2].clone();
    assert_eq!(load_result(Ok(Some(stored))).unwrap(), Some(r));
}

#[test]
fn load_of_absent_key_is_none() {
    let res = load_result(Ok(None));
    assert!(matches!(res, Ok(None)));
}

#[test]
fn load_of_foreign_bytes_is_a_decode_failure() {
    let res = load_result(Ok(Some(b"not a record".to_vec())));
    assert!(matches!(res, Err(RedisStoreError::Decode(_))));
}

#[test]
fn load_of_empty_bytes_is_a_decode_failure() {
    let res = load_result(Ok(Some(Vec::new())));
    assert!(matches!(res, Err(RedisStoreError::Decode(_))));
}

#[test]
fn load_hands_on_a_backend_failure() {
    let res = load_result(Err(backend_failure()));
    match res {
        Err(RedisStoreError::Redis(e)) => assert_eq!(e.kind(), redis::ErrorKind::Io),
        _ => panic!("a backend failure is handed on as it is"),
    }
}

#[test]
fn loaded_wraps_a_record() {
    let r = record(3, 1_700_000_000);
    assert_eq!(loaded(Ok(r.clone())).unwrap(), Some(r));
}

#[test]
fn write_hands_on_a_backend_failure() {
    let res = write_result(Err(backend_failure()));
    match res {
        Err(RedisStoreError::Redis(e)) => assert_eq!(e.kind(), redis::ErrorKind::Io),
        _ => panic!("a backend failure is handed on as it is"),
    }
}

#[test]
fn backend_failure_maps_to_backend() {
    let text = backend_failure().to_string();
    let mapped = RedisStoreError::Redis(backend_failure()).into_store_error();
    assert_eq!(mapped, StoreError::Backend(text));
}

#[test]
fn decode_failure_maps_to_decode() {
    let failure = match load_result(Ok(Some(vec![0xc1u8]))) {
        Err(e) => e,
        Ok(_) => panic!("0xc1 is no record"),
    };
    let text = failure.description();
    assert!(!text.is_empty());
    assert_eq!(failure.into_store_error(), StoreError::Decode(text));
}

#[test]
fn encode_failure_maps_to_encode() {
    let failure = RedisStoreError::Encode(rmp_serde::encode::Error::Syntax("bad".to_string()));
    let text = rmp_serde::encode::Error::Syntax("bad".to_string()).to_string();
    assert_eq!(failure.into_store_error(), StoreError::Encode(text));
}

#[test]
fn classify_keeps_the_given_description() {
    let failure = RedisStoreError::Redis(backend_failure());
    assert_eq!(failure.classify("down".to_string()), StoreError::Backend("down".to_string()));
    let mapped = failure.classify("gone".to_string());
    assert_eq!(mapped.message(), "gone");
}
