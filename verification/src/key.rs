//! Key policy: every session lives at `tower_session:` followed by the
//! identifier's canonical text.

use vstd::prelude::*;
use vstd::string::StringExecFns;

verus! {

/// The canonical text of a session identifier: what `Display` of
/// `tower_sessions_core::session::Id` writes for the identifier with this
/// number. Nothing more is claimed of it than that it depends on the number
/// alone.
pub uninterp spec fn id_text(id: i128) -> Seq<char>;

/// The fixed prefix of every key, separator included.
pub open spec fn key_prefix() -> Seq<char> {
    "tower_session:"@
}

/// The key of the session whose identifier has the canonical text `text`.
pub open spec fn key_of_text(text: Seq<char>) -> Seq<char> {
    key_prefix() + text
}

/// The key under which the session with identifier `id` is stored.
pub open spec fn session_key(id: i128) -> Seq<char> {
    key_of_text(id_text(id))
}

/// Calls `Display` of `tower_sessions_core::session::Id` (through
/// `to_string`). Trusted: the text returned is the identifier's canonical
/// text, `id_text(id)`.
#[verifier::external_body]
fn render_id(id: i128) -> (text: String)
    ensures
        text@ == id_text(id),
{
    tower_sessions_core::session::Id(id).to_string()
}

/// Builds the backend key from an identifier's canonical text.
pub fn key_for(text: &str) -> (key: String)
    ensures
        key@ == key_of_text(text@),
{
    let mut key = String::from_str("tower_session:");
    key.append(text);
    key
}

/// Builds the backend key of a session.
pub fn backend_key(id: i128) -> (key: String)
    ensures
        key@ == session_key(id),
{
    let text = render_id(id);
    key_for(text.as_str())
}

/// Two texts give the same key exactly when they are the same text: the
/// prefix adds nothing and hides nothing. So two sessions share a key
/// exactly when their identifiers have the same canonical text.
pub proof fn lemma_key_fixes_text(a: Seq<char>, b: Seq<char>)
    ensures
        key_of_text(a) == key_of_text(b) <==> a == b,
{
    let p = key_prefix();
    if key_of_text(a) == key_of_text(b) {
        assert(a =~= key_of_text(a).subrange(p.len() as int, key_of_text(a).len() as int));
        assert(b =~= key_of_text(b).subrange(p.len() as int, key_of_text(b).len() as int));
    }
}

} // verus!
