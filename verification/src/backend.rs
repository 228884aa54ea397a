//! The backend as the store relies on it: a model of the three primitives
//! `SET .. EXAT`, `GET` and `DEL` over one key space, and what the store's
//! own commands do to it.

use vstd::prelude::*;
use vstd::utf8::{encode_utf8, encode_utf8_decode_utf8};

use crate::command::{decimal, lemma_decimal_digits, lemma_decimal_injective};
use crate::key::session_key;
use crate::store::{delete_args, load_args, save_args};

verus! {

/// What the backend holds at one key: a value, and the instant, in seconds
/// since the epoch, from which the value is no longer there to be read.
pub struct Entry {
    pub value: Seq<u8>,
    pub expire_at: nat,
}

/// The key space of the backend.
pub struct Backend {
    pub entries: Map<Seq<u8>, Entry>,
}

/// The number that a decimal numeral stands for.
pub open spec fn numeral_value(digits: Seq<u8>) -> nat {
    choose|n: nat| decimal(n) == digits
}

/// `SET <key> <value> EXAT <seconds>`, the seconds a decimal numeral
/// without a sign. A `SET` whose instant is negative is not this primitive.
pub open spec fn is_set(args: Seq<Seq<u8>>) -> bool {
    &&& args.len() == 5
    &&& args[0] == encode_utf8("SET"@)
    &&& args[3] == encode_utf8("EXAT"@)
    &&& exists|n: nat| decimal(n) == args[4]
}

/// `GET <key>`.
pub open spec fn is_get(args: Seq<Seq<u8>>) -> bool {
    args.len() == 2 && args[0] == encode_utf8("GET"@)
}

/// `DEL <key>`.
pub open spec fn is_del(args: Seq<Seq<u8>>) -> bool {
    args.len() == 2 && args[0] == encode_utf8("DEL"@)
}

impl Backend {
    /// Whether a value can be read at `key` at the instant `now`.
    pub open spec fn holds(self, key: Seq<u8>, now: nat) -> bool {
        self.entries.contains_key(key) && now < self.entries[key].expire_at
    }

    /// The key space after a command. A `SET` replaces what the key held,
    /// value and expiration both; a `DEL` leaves nothing at the key. Of any
    /// other command, a `SET` with a negative instant among them, the model
    /// knows nothing to store and lets the key space stand.
    pub open spec fn after(self, args: Seq<Seq<u8>>) -> Backend {
        if is_set(args) {
            Backend {
                entries: self.entries.insert(
                    args[1],
                    Entry { value: args[2], expire_at: numeral_value(args[4]) },
                ),
            }
        } else if is_del(args) {
            Backend { entries: self.entries.remove(args[1]) }
        } else {
            self
        }
    }

    /// The reply to a `GET` at the instant `now`: the value at the key, or
    /// nothing where the key was never set, was deleted or has expired.
    pub open spec fn reply_to_get(self, args: Seq<Seq<u8>>, now: nat) -> Option<Seq<u8>> {
        if is_get(args) && self.holds(args[1], now) {
            Some(self.entries[args[1]].value)
        } else {
            None
        }
    }
}

/// The store's three commands are the three primitives, and no command is
/// taken for another. A save is the primitive `SET` exactly when its expiry
/// is not negative, and then the instant it carries is the expiry.
pub proof fn lemma_commands_are_primitives(id: i128, value: Seq<u8>, expiry: i64)
    ensures
        is_set(save_args(id, value, expiry)) <==> expiry >= 0,
        expiry >= 0 ==> numeral_value(save_args(id, value, expiry)[4]) == expiry as nat,
        !is_get(save_args(id, value, expiry)) && !is_del(save_args(id, value, expiry)),
        is_get(load_args(id)) && !is_set(load_args(id)) && !is_del(load_args(id)),
        is_del(delete_args(id)) && !is_set(delete_args(id)) && !is_get(delete_args(id)),
{
    let last = save_args(id, value, expiry)[4];
    if expiry >= 0 {
        let n = expiry as nat;
        assert(decimal(n) == last);
        lemma_decimal_injective(numeral_value(decimal(n)), n);
    } else {
        assert(last[0] == 45u8);
        assert forall|n: nat| decimal(n) != last by {
            lemma_decimal_digits(n);
        }
    }
    reveal_strlit("GET");
    reveal_strlit("DEL");
    encode_utf8_decode_utf8("GET"@);
    encode_utf8_decode_utf8("DEL"@);
    assert("GET"@[0] != "DEL"@[0]);
}

/// After a save, a load of the same session before the expiry reads the
/// very bytes that were saved, whatever the key held before.
pub proof fn lemma_save_then_load(b: Backend, id: i128, value: Seq<u8>, expiry: i64, now: nat)
    requires
        now < expiry,
    ensures
        b.after(save_args(id, value, expiry)).reply_to_get(load_args(id), now) == Some(value),
{
    lemma_commands_are_primitives(id, value, expiry);
}

/// A load of a session that the backend does not hold, because it was
/// never saved or has expired, reads nothing; and a load changes nothing.
pub proof fn lemma_load_of_absent(b: Backend, id: i128, now: nat)
    requires
        !b.holds(encode_utf8(session_key(id)), now),
    ensures
        b.reply_to_get(load_args(id), now) is None,
        b.after(load_args(id)) == b,
{
    lemma_commands_are_primitives(id, Seq::empty(), 0);
}

/// A save expires at its own instant: from the expiry on, a load reads
/// nothing.
pub proof fn lemma_saved_record_expires(b: Backend, id: i128, value: Seq<u8>, expiry: i64, now: nat)
    requires
        0 <= expiry <= now,
    ensures
        b.after(save_args(id, value, expiry)).reply_to_get(load_args(id), now) is None,
{
    lemma_commands_are_primitives(id, value, expiry);
}

/// Deleting is idempotent: a second delete of the same session leaves the
/// key space as the first left it, whether or not the key was there, and a
/// load after either reads nothing.
pub proof fn lemma_delete_is_idempotent(b: Backend, id: i128, now: nat)
    ensures
        b.after(delete_args(id)).after(delete_args(id)) == b.after(delete_args(id)),
        b.after(delete_args(id)).reply_to_get(load_args(id), now) is None,
        !b.entries.contains_key(encode_utf8(session_key(id))) ==> b.after(delete_args(id)) == b,
{
    lemma_commands_are_primitives(id, Seq::empty(), 0);
    let once = b.after(delete_args(id));
    assert(once.after(delete_args(id)).entries =~= once.entries);
    if !b.entries.contains_key(encode_utf8(session_key(id))) {
        assert(once.entries =~= b.entries);
    }
}

/// A later save of the same session replaces the earlier one altogether,
/// value and expiration: the key space is as if the earlier save had never
/// been, and a load before the later expiry reads the later value.
pub proof fn lemma_later_save_wins(
    b: Backend,
    id: i128,
    first: Seq<u8>,
    first_expiry: i64,
    second: Seq<u8>,
    second_expiry: i64,
    now: nat,
)
    requires
        0 <= second_expiry,
    ensures
        b.after(save_args(id, first, first_expiry)).after(save_args(id, second, second_expiry))
            == b.after(save_args(id, second, second_expiry)),
        now < second_expiry ==> b.after(save_args(id, first, first_expiry)).after(
            save_args(id, second, second_expiry),
        ).reply_to_get(load_args(id), now) == Some(second),
        now >= second_expiry ==> b.after(save_args(id, first, first_expiry)).after(
            save_args(id, second, second_expiry),
        ).reply_to_get(load_args(id), now) is None,
{
    lemma_commands_are_primitives(id, first, first_expiry);
    lemma_commands_are_primitives(id, second, second_expiry);
    let one = b.after(save_args(id, first, first_expiry));
    assert(one.after(save_args(id, second, second_expiry)).entries =~= b.after(
        save_args(id, second, second_expiry),
    ).entries);
}

/// No operation on one session touches the key of a session whose key is
/// another.
pub proof fn lemma_other_keys_untouched(b: Backend, id: i128, value: Seq<u8>, expiry: i64, key: Seq<u8>)
    requires
        key != encode_utf8(session_key(id)),
    ensures
        b.after(save_args(id, value, expiry)).entries.contains_key(key) == b.entries.contains_key(key),
        b.after(save_args(id, value, expiry)).entries[key] == b.entries[key],
        b.after(delete_args(id)).entries.contains_key(key) == b.entries.contains_key(key),
        b.after(delete_args(id)).entries[key] == b.entries[key],
{
    lemma_commands_are_primitives(id, value, expiry);
}

} // verus!
