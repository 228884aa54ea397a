//! The three backend commands, built as `redis::Cmd` values.

use vstd::prelude::*;
use vstd::string::StringSliceAdditionalSpecFns;
use vstd::utf8::encode_utf8;

verus! {

#[verifier::external_type_specification]
#[verifier::external_body]
pub struct ExCmd(redis::Cmd);

/// The arguments that a command holds, in the order in which they are sent,
/// the command's name first. Each argument is a string of bytes.
pub uninterp spec fn cmd_args(c: redis::Cmd) -> Seq<Seq<u8>>;

/// The decimal digits of `n` in ASCII, most significant first, without
/// leading zeros.
pub open spec fn decimal(n: nat) -> Seq<u8>
    decreases n,
{
    if n < 10 {
        seq![(48 + n) as u8]
    } else {
        decimal(n / 10).push((48 + n % 10) as u8)
    }
}

/// A decimal numeral is never empty and holds ASCII digits only.
pub proof fn lemma_decimal_digits(n: nat)
    ensures
        decimal(n).len() >= 1,
        forall|i: int| 0 <= i < decimal(n).len() ==> 48 <= #[trigger] decimal(n)[i] <= 57,
    decreases n,
{
    if n >= 10 {
        lemma_decimal_digits(n / 10);
    }
}

/// Two numbers with the same decimal numeral are the same number: the
/// argument that a command carries fixes the instant it stands for.
pub proof fn lemma_decimal_injective(a: nat, b: nat)
    ensures
        decimal(a) == decimal(b) <==> a == b,
    decreases a,
{
    if decimal(a) == decimal(b) {
        lemma_decimal_digits(a / 10);
        lemma_decimal_digits(b / 10);
        if a < 10 && b < 10 {
            assert(decimal(a)[0] == decimal(b)[0]);
        } else if a >= 10 && b >= 10 {
            let x = decimal(a / 10);
            let y = decimal(b / 10);
            let da = (48 + a % 10) as u8;
            let db = (48 + b % 10) as u8;
            assert(x.push(da) == y.push(db));
            assert(x =~= x.push(da).drop_last());
            assert(y =~= y.push(db).drop_last());
            assert(da == x.push(da).last());
            assert(db == y.push(db).last());
            lemma_decimal_injective(a / 10, b / 10);
            assert(a % 10 == b % 10);
            assert(a == 10 * (a / 10) + a % 10);
            assert(b == 10 * (b / 10) + b % 10);
        } else {
            assert(decimal(a).len() != decimal(b).len());
        }
    }
}

/// The decimal numeral of a number with its sign: the digits alone where
/// it is not negative, a minus sign and the digits of its size where it is.
pub open spec fn signed_decimal(n: int) -> Seq<u8> {
    if n >= 0 {
        decimal(n as nat)
    } else {
        seq![45u8] + decimal((-n) as nat)
    }
}

/// Two numbers with the same signed numeral are the same number.
pub proof fn lemma_signed_decimal_injective(a: int, b: int)
    ensures
        signed_decimal(a) == signed_decimal(b) <==> a == b,
{
    if signed_decimal(a) == signed_decimal(b) {
        if a >= 0 && b >= 0 {
            lemma_decimal_injective(a as nat, b as nat);
        } else if a < 0 && b < 0 {
            let x = decimal((-a) as nat);
            let y = decimal((-b) as nat);
            assert(x =~= (seq![45u8] + x).subrange(1, 1 + x.len() as int));
            assert(y =~= (seq![45u8] + y).subrange(1, 1 + y.len() as int));
            lemma_decimal_injective((-a) as nat, (-b) as nat);
        } else if a >= 0 {
            lemma_decimal_digits(a as nat);
            assert(signed_decimal(b)[0] == 45u8);
        } else {
            lemma_decimal_digits(b as nat);
            assert(signed_decimal(a)[0] == 45u8);
        }
    }
}

/// The arguments of `SET <key> <value> EXAT <expire_at>`, the instant
/// written as it is, sign included.
pub open spec fn set_args(key: Seq<char>, value: Seq<u8>, expire_at: i64) -> Seq<Seq<u8>> {
    seq![
        encode_utf8("SET"@),
        encode_utf8(key),
        value,
        encode_utf8("EXAT"@),
        signed_decimal(expire_at as int),
    ]
}

/// The arguments of `GET <key>`.
pub open spec fn get_args(key: Seq<char>) -> Seq<Seq<u8>> {
    seq![encode_utf8("GET"@), encode_utf8(key)]
}

/// The arguments of `DEL <key>`.
pub open spec fn del_args(key: Seq<char>) -> Seq<Seq<u8>> {
    seq![encode_utf8("DEL"@), encode_utf8(key)]
}

/// Calls `redis::cmd`. Trusted: the new command holds one argument, the
/// bytes of `name`.
#[verifier::external_body]
fn named(name: &str) -> (c: redis::Cmd)
    ensures
        cmd_args(c) == seq![name.spec_bytes()],
{
    redis::cmd(name)
}

/// Calls `redis::Cmd::arg` with a string slice. Trusted: one argument is
/// appended, the bytes of `text`.
#[verifier::external_body]
fn push_text(c: &mut redis::Cmd, text: &str)
    ensures
        cmd_args(*final(c)) == cmd_args(*old(c)).push(text.spec_bytes()),
{
    c.arg(text);
}

/// Calls `redis::Cmd::arg` with a slice of bytes. Trusted: one argument is
/// appended, the bytes as they are.
#[verifier::external_body]
fn push_bytes(c: &mut redis::Cmd, bytes: &[u8])
    ensures
        cmd_args(*final(c)) == cmd_args(*old(c)).push(bytes@),
{
    c.arg(bytes);
}

/// Calls `redis::Cmd::arg` with an `i64`. Trusted: one argument is
/// appended, the number written in decimal, with a minus sign before the
/// digits where it is negative.
#[verifier::external_body]
fn push_number(c: &mut redis::Cmd, n: i64)
    ensures
        cmd_args(*final(c)) == cmd_args(*old(c)).push(signed_decimal(n as int)),
{
    c.arg(n);
}

/// Builds the command that stores `value` at `key` and lets the backend
/// drop it at the absolute instant `expire_at`, in seconds since the epoch.
/// The instant is sent as it is given, whatever its sign.
pub fn set_command(key: &str, value: &[u8], expire_at: i64) -> (c: redis::Cmd)
    ensures
        cmd_args(c) == set_args(key@, value@, expire_at),
{
    let mut c = named("SET");
    push_text(&mut c, key);
    push_bytes(&mut c, value);
    push_text(&mut c, "EXAT");
    push_number(&mut c, expire_at);
    proof {
        assert(cmd_args(c) =~= set_args(key@, value@, expire_at));
    }
    c
}

/// Builds the command that reads what is stored at `key`.
pub fn get_command(key: &str) -> (c: redis::Cmd)
    ensures
        cmd_args(c) == get_args(key@),
{
    let mut c = named("GET");
    push_text(&mut c, key);
    proof {
        assert(cmd_args(c) =~= get_args(key@));
    }
    c
}

/// Builds the command that removes `key`.
pub fn del_command(key: &str) -> (c: redis::Cmd)
    ensures
        cmd_args(c) == del_args(key@),
{
    let mut c = named("DEL");
    push_text(&mut c, key);
    proof {
        assert(cmd_args(c) =~= del_args(key@));
    }
    c
}

} // verus!
