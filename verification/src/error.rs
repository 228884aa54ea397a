//! The three ways an operation fails, and their place in the portable
//! classification that the session framework understands.

use vstd::prelude::*;

verus! {

#[verifier::external_type_specification]
#[verifier::external_body]
pub struct ExRedisError(redis::RedisError);

#[verifier::external_type_specification]
#[verifier::external_body]
pub struct ExDecodeError(rmp_serde::decode::Error);

#[verifier::external_type_specification]
#[verifier::external_body]
pub struct ExEncodeError(rmp_serde::encode::Error);

/// A failure of one store operation, with the error that caused it.
#[derive(Debug)]
pub enum RedisStoreError {
    /// The backend could not be reached or refused the command.
    Redis(redis::RedisError),
    /// The stored bytes are not a session record.
    Decode(rmp_serde::decode::Error),
    /// The record could not be serialised.
    Encode(rmp_serde::encode::Error),
}

/// The portable classification: one kind for each kind of failure, each
/// with a description for people.
#[derive(Debug, PartialEq, Eq)]
pub enum StoreError {
    Encode(String),
    Decode(String),
    Backend(String),
}

/// Calls `Display` of `redis::RedisError` (through `to_string`). Nothing is
/// claimed of the text.
#[verifier::external_body]
fn redis_error_text(e: &redis::RedisError) -> (text: String) {
    e.to_string()
}

/// Calls `Display` of `rmp_serde::decode::Error` (through `to_string`).
/// Nothing is claimed of the text.
#[verifier::external_body]
fn decode_error_text(e: &rmp_serde::decode::Error) -> (text: String) {
    e.to_string()
}

/// Calls `Display` of `rmp_serde::encode::Error` (through `to_string`).
/// Nothing is claimed of the text.
#[verifier::external_body]
fn encode_error_text(e: &rmp_serde::encode::Error) -> (text: String) {
    e.to_string()
}

impl RedisStoreError {
    /// The description of the underlying error, as that error words it.
    /// Each of the three errors may wrap an I/O error, whose words are the
    /// operating system's own and differ between machines, so nothing is
    /// promised of the text; `classify` is exact on whatever text it is
    /// given.
    pub fn description(&self) -> (text: String) {
        match self {
            RedisStoreError::Redis(inner) => redis_error_text(inner),
            RedisStoreError::Decode(inner) => decode_error_text(inner),
            RedisStoreError::Encode(inner) => encode_error_text(inner),
        }
    }

    /// Classifies the failure and attaches `text` as its description.
    /// A backend failure becomes `Backend`, a decode failure `Decode`, an
    /// encode failure `Encode`: no kind is merged with another.
    pub fn classify(&self, text: String) -> (out: StoreError)
        ensures
            out == (match *self {
                RedisStoreError::Redis(_) => StoreError::Backend(text),
                RedisStoreError::Decode(_) => StoreError::Decode(text),
                RedisStoreError::Encode(_) => StoreError::Encode(text),
            }),
    {
        match self {
            RedisStoreError::Redis(_) => StoreError::Backend(text),
            RedisStoreError::Decode(_) => StoreError::Decode(text),
            RedisStoreError::Encode(_) => StoreError::Encode(text),
        }
    }

    /// Maps the failure into the portable classification, described
    /// by the underlying error's own words. The kind is fixed by the
    /// variant, whatever the description holds.
    pub fn into_store_error(self) -> (out: StoreError)
        ensures
            self is Redis <==> out is Backend,
            self is Decode <==> out is Decode,
            self is Encode <==> out is Encode,
    {
        let text = self.description();
        self.classify(text)
    }
}

impl StoreError {
    /// The description carried by the error.
    pub fn message(&self) -> (text: &String)
        ensures
            *text == (match *self {
                StoreError::Encode(m) => m,
                StoreError::Decode(m) => m,
                StoreError::Backend(m) => m,
            }),
    {
        match self {
            StoreError::Encode(m) => m,
            StoreError::Decode(m) => m,
            StoreError::Backend(m) => m,
        }
    }
}

} // verus!
