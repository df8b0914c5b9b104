//! Tokens, digests and identifiers: SHA-256 in lower-case hex, random
//! URL-safe tokens, name-based and random UUIDs.
use vstd::prelude::*;
use vstd::utf8::encode_utf8;

use base64::Engine;
use rand::RngCore;
use sha2::Digest;

use crate::control_plane::parse_uuid_spec;

verus! {

/// The SHA-256 digest of `data`, as `sha2::Sha256::digest` computes it.
pub uninterp spec fn sha256_spec(data: Seq<u8>) -> Seq<u8>;

/// Base64 with the URL-safe alphabet and no padding, as
/// `base64::engine::general_purpose::URL_SAFE_NO_PAD.encode` writes it.
pub uninterp spec fn base64_url_nopad_spec(data: Seq<u8>) -> Seq<char>;

/// The version-5 UUID of `name` in `namespace`, as `uuid::Uuid::new_v5`
/// computes it, both UUIDs taken as their 128-bit values.
pub uninterp spec fn uuid_v5_spec(namespace: u128, name: Seq<u8>) -> u128;

/// The version number of a UUID given as its 128-bit value.
pub open spec fn uuid_version(id: u128) -> int {
    ((id >> 76u128) & 0xfu128) as int
}

/// Calls `sha2::Sha256::digest` on `data` and copies the digest into a
/// `Vec`. The digest is named; the contract adds its fixed length of 32
/// bytes, which the output type `GenericArray<u8, U32>` guarantees.
#[verifier::external_body]
fn sha256(data: &[u8]) -> (r: Vec<u8>)
    ensures
        r@ == sha256_spec(data@),
        r@.len() == 32,
{
    sha2::Sha256::digest(data).to_vec()
}

/// Calls `URL_SAFE_NO_PAD.encode` of the `base64` crate. The encoding is
/// named.
#[verifier::external_body]
fn base64_url_nopad(data: &[u8]) -> (r: String)
    ensures
        r@ == base64_url_nopad_spec(data@),
{
    base64::engine::general_purpose::URL_SAFE_NO_PAD.encode(data)
}

/// Calls `uuid::Uuid::new_v5` with the namespace given as its 128-bit
/// value, and returns the 128-bit value of the result, which is named.
#[verifier::external_body]
fn uuid_v5(namespace: u128, name: &[u8]) -> (r: u128)
    ensures
        r == uuid_v5_spec(namespace, name@),
{
    uuid::Uuid::new_v5(&uuid::Uuid::from_u128(namespace), name).as_u128()
}

/// Calls `uuid::Uuid::new_v4` and returns the 128-bit value of the random
/// UUID. Nothing but its version, which `new_v4` sets to 4, is stated.
#[verifier::external_body]
pub(crate) fn uuid_v4() -> (r: u128)
    ensures
        uuid_version(r) == 4,
{
    uuid::Uuid::new_v4().as_u128()
}

/// Fills 32 bytes from the operating system's generator (`rand::rngs::OsRng`,
/// `RngCore::fill_bytes`). Only the length is stated: the bytes are random.
#[verifier::external_body]
fn os_random_bytes() -> (r: Vec<u8>)
    ensures
        r@.len() == 32,
{
    let mut bytes = [0u8; 32];
    rand::rngs::OsRng.fill_bytes(&mut bytes);
    bytes.to_vec()
}

/// Fills 32 bytes from the thread-local generator (`rand::thread_rng`,
/// `RngCore::fill_bytes`). Only the length is stated: the bytes are random.
#[verifier::external_body]
fn thread_random_bytes() -> (r: Vec<u8>)
    ensures
        r@.len() == 32,
{
    let mut bytes = [0u8; 32];
    rand::thread_rng().fill_bytes(&mut bytes);
    bytes.to_vec()
}

/// The lower-case hex digit of `n` (below 16).
pub open spec fn hex_char(n: int) -> char {
    if n < 10 {
        (n + 48) as char
    } else {
        (n + 87) as char
    }
}

/// Each byte of `bytes` as two lower-case hex digits, in order.
pub open spec fn hex_lower(bytes: Seq<u8>) -> Seq<char>
    decreases bytes.len(),
{
    if bytes.len() == 0 {
        Seq::empty()
    } else {
        hex_lower(bytes.drop_last()) + seq![
            hex_char((bytes.last() / 16) as int),
            hex_char((bytes.last() % 16) as int),
        ]
    }
}

/// The SHA-256 digest of the UTF-8 bytes of `value`, in lower-case hex.
pub open spec fn sha256_hex_spec(value: Seq<char>) -> Seq<char> {
    hex_lower(sha256_spec(encode_utf8(value)))
}

fn hex_digit(n: u8) -> (c: char)
    requires
        n < 16,
    ensures
        c == hex_char(n as int),
{
    if n < 10 {
        (n + 48) as char
    } else {
        (n + 87) as char
    }
}

/// The SHA-256 digest of the UTF-8 bytes of `value`, as 64 lower-case hex
/// digits.
pub fn sha256_hex(value: &str) -> (r: String)
    ensures
        r@ == sha256_hex_spec(value@),
        r@.len() == 64,
{
    let digest = sha256(value.as_bytes());
    let mut out = String::new();
    let mut i: usize = 0;
    while i < digest.len()
        invariant
            i <= digest@.len(),
            out@ == hex_lower(digest@.subrange(0, i as int)),
            out@.len() == 2 * i,
        decreases digest.len() - i,
    {
        let b = digest[i];
        crate::text::push_char(&mut out, hex_digit(b / 16));
        crate::text::push_char(&mut out, hex_digit(b % 16));
        proof {
            let pre = digest@.subrange(0, i as int);
            let next = digest@.subrange(0, i + 1);
            assert(next.drop_last() =~= pre);
            assert(next.last() == b);
        }
        i = i + 1;
    }
    assert(digest@.subrange(0, digest@.len() as int) =~= digest@);
    out
}

/// A fresh token: 32 bytes from the operating system's generator in
/// URL-safe base64 without padding.
pub fn random_token() -> (r: String)
    ensures
        exists|bytes: Seq<u8>| bytes.len() == 32 && r@ == base64_url_nopad_spec(bytes),
{
    let bytes = os_random_bytes();
    base64_url_nopad(bytes.as_slice())
}

/// A fresh token: 32 bytes from the thread-local generator in URL-safe
/// base64 without padding.
pub fn random_thread_token() -> (r: String)
    ensures
        exists|bytes: Seq<u8>| bytes.len() == 32 && r@ == base64_url_nopad_spec(bytes),
{
    let bytes = thread_random_bytes();
    base64_url_nopad(bytes.as_slice())
}

/// The namespace of foster command ids.
pub const FOSTER_COMMAND_NAMESPACE: u128 = 0x1f827d4d416e479aa2448a671153c290;

/// The namespace of login command ids.
pub const LOGIN_COMMAND_NAMESPACE: u128 = 0x7a5d1e3bc4624f8d91a72e63b8450c11;

/// The key from which the id of a foster command is derived:
/// `foster:{job_id}:{attempt}`.
pub open spec fn foster_command_key(job_id: int, attempt: int) -> Seq<char> {
    seq!['f', 'o', 's', 't', 'e', 'r', ':'] + crate::time::int_decimal(job_id) + seq![':']
        + crate::time::int_decimal(attempt)
}

/// The command keys of two foster job attempts are equal only when the
/// job and the attempt are: each attempt's command gets a key of its own.
pub proof fn law_foster_command_keys_are_distinct(job_a: int, attempt_a: int, job_b: int, attempt_b: int)
    requires
        foster_command_key(job_a, attempt_a) == foster_command_key(job_b, attempt_b),
    ensures
        job_a == job_b,
        attempt_a == attempt_b,
{
    let da = crate::time::int_decimal(job_a);
    let db = crate::time::int_decimal(job_b);
    let ea = crate::time::int_decimal(attempt_a);
    let eb = crate::time::int_decimal(attempt_b);
    crate::number::lemma_int_decimal_value(job_a);
    crate::number::lemma_int_decimal_value(job_b);
    crate::number::lemma_int_decimal_value(attempt_a);
    crate::number::lemma_int_decimal_value(attempt_b);
    let prefix = seq!['f', 'o', 's', 't', 'e', 'r', ':'];
    let ka = foster_command_key(job_a, attempt_a);
    let kb = foster_command_key(job_b, attempt_b);
    let ra = da + seq![':'] + ea;
    let rb = db + seq![':'] + eb;
    assert(ka =~= prefix + ra);
    assert(kb =~= prefix + rb);
    assert(ra =~= ka.subrange(7, ka.len() as int));
    assert(rb =~= kb.subrange(7, kb.len() as int));
    assert(ra == rb);
    if da.len() < db.len() {
        assert(ra[da.len() as int] == ':');
        assert(rb[da.len() as int] == db[da.len() as int]);
        assert(crate::number::is_digit(db[da.len() as int]) || db[da.len() as int] == '-');
    }
    if db.len() < da.len() {
        assert(rb[db.len() as int] == ':');
        assert(ra[db.len() as int] == da[db.len() as int]);
        assert(crate::number::is_digit(da[db.len() as int]) || da[db.len() as int] == '-');
    }
    assert(da.len() == db.len());
    assert(da =~= ra.subrange(0, da.len() as int));
    assert(db =~= rb.subrange(0, db.len() as int));
    assert(ea =~= ra.subrange(da.len() as int + 1, ra.len() as int));
    assert(eb =~= rb.subrange(db.len() as int + 1, rb.len() as int));
    crate::number::law_decimal_is_injective(job_a, job_b);
    crate::number::law_decimal_is_injective(attempt_a, attempt_b);
}

/// The key from which the id of a login command is derived:
/// `login:{session_no}`.
pub open spec fn login_command_key(session_no: Seq<char>) -> Seq<char> {
    seq!['l', 'o', 'g', 'i', 'n', ':'] + session_no
}

/// The id of the command that runs attempt `attempt` of foster job
/// `job_id`: the same job and attempt always give the same id.
pub fn foster_command_id(job_id: i64, attempt: i32) -> (id: u128)
    ensures
        id == uuid_v5_spec(
            FOSTER_COMMAND_NAMESPACE,
            encode_utf8(foster_command_key(job_id as int, attempt as int)),
        ),
{
    let mut key = String::from_str("foster:");
    key.append(crate::time::decimal_i64(job_id).as_str());
    key.append(":");
    key.append(crate::time::decimal_i64(attempt as i64).as_str());
    proof {
        reveal_strlit("foster:");
        reveal_strlit(":");
        assert(key@ =~= foster_command_key(job_id as int, attempt as int));
    }
    uuid_v5(FOSTER_COMMAND_NAMESPACE, key.as_str().as_bytes())
}

/// The id of the command that starts login session `session_no`.
pub fn login_command_id(session_no: &str) -> (id: u128)
    ensures
        id == uuid_v5_spec(LOGIN_COMMAND_NAMESPACE, encode_utf8(login_command_key(session_no@))),
{
    let mut key = String::from_str("login:");
    key.append(session_no);
    proof {
        reveal_strlit("login:");
        assert(key@ =~= login_command_key(session_no@));
    }
    uuid_v5(LOGIN_COMMAND_NAMESPACE, key.as_str().as_bytes())
}

/// The hyphenated lower-case text of a UUID given as its 128-bit value,
/// as `uuid::Uuid`'s `Display` writes it.
pub uninterp spec fn uuid_text_spec(id: u128) -> Seq<char>;

/// Calls `Display` of `uuid::Uuid` (through `to_string`) on the UUID with
/// the 128-bit value `id`. The text is named; beside it the contract states
/// its documented length of 36 characters and that `Uuid::parse_str` reads
/// this hyphenated text back as the same UUID.
#[verifier::external_body]
pub(crate) fn uuid_text(id: u128) -> (r: String)
    ensures
        r@ == uuid_text_spec(id),
        r@.len() == 36,
        parse_uuid_spec(r@) == Some(id),
{
    uuid::Uuid::from_u128(id).to_string()
}

/// A fresh number for a record: `prefix`, a hyphen and a random UUID.
pub fn new_record_no(prefix: &str) -> (r: String)
    ensures
        exists|id: u128| uuid_version(id) == 4 && r@ == prefix@ + seq!['-'] + uuid_text_spec(id),
{
    let id = uuid_v4();
    let mut r = String::from_str(prefix);
    r.append("-");
    let text = uuid_text(id);
    r.append(text.as_str());
    proof {
        reveal_strlit("-");
        assert(r@ =~= prefix@ + seq!['-'] + uuid_text_spec(id));
    }
    r
}

} // verus!
