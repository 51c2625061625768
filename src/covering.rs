use crate::base58::{base58_bytes, base58_decode, base58_encode, base58_text};
use crate::error::SssError;
use crate::json::{
    json_object_normal_form, json_string_literal, normalize_json_object, quote_json_string,
};
use crate::keying::{
    verkey_to_wallet_key, wallet_key_of, SSS_MSG_NAME_IN_SHARD, SSS_SEED_NAME_IN_SHARD,
    SSS_VERKEY_NAME_IN_SHARD,
};
use vstd::prelude::*;
use vstd::string::*;
use vstd::utf8::encode_utf8;

verus! {

/// Length of an expanded ed25519 signing key.
pub const ED25519_SECRET_KEY_LEN: usize = 64;

/// Length of the seed at the front of an expanded ed25519 signing key.
pub const ED25519_SEED_LEN: usize = 32;

/// The view of an optional text.
pub open spec fn opt_view(s: Option<&str>) -> Option<Seq<char>> {
    match s {
        Some(t) => Some(t@),
        None => None,
    }
}

/// A threshold `m` of `n` shards is usable when `1 <= m <= n`.
pub open spec fn valid_threshold(m: int, n: int) -> bool {
    1 <= m <= n
}

/// The seed of an expanded ed25519 signing key: its first half.
pub open spec fn seed_of(sk: Seq<u8>) -> Option<Seq<u8>> {
    if sk.len() == ED25519_SECRET_KEY_LEN {
        Some(sk.subrange(0, ED25519_SEED_LEN as int))
    } else {
        None
    }
}

/// The base58 seed of the base58-encoded signing key `signkey`.
pub open spec fn seed_b58_of(signkey: Seq<char>) -> Option<Seq<char>> {
    match base58_bytes(signkey) {
        Some(sk) => match seed_of(sk) {
            Some(seed) => Some(base58_text(seed)),
            None => None,
        },
        None => None,
    }
}

/// The message object as it stands in the covering payload: the empty
/// object when absent, else the normal form of the caller's object.
pub open spec fn msg_object(msg: Option<Seq<char>>) -> Option<Seq<char>> {
    match msg {
        None => Some("{}"@),
        Some(s) => json_object_normal_form(s),
    }
}

/// `"name":`
pub open spec fn field_head(name: Seq<char>) -> Seq<char> {
    "\""@ + name + "\":"@
}

/// The covering payload `{"msg":<msg>,"seed":"<seed>","verkey":"<verkey>"}`,
/// its fields in the order in which serde_json prints an object.
pub open spec fn covering_text(msg: Seq<char>, verkey: Seq<char>, seed_b58: Seq<char>) -> Seq<
    char,
> {
    "{"@ + field_head(SSS_MSG_NAME_IN_SHARD@) + msg + ","@ + field_head(SSS_SEED_NAME_IN_SHARD@)
        + json_string_literal(seed_b58) + ","@ + field_head(SSS_VERKEY_NAME_IN_SHARD@)
        + json_string_literal(verkey) + "}"@
}

/// The covering payload built from a caller's message and a base58 seed.
pub open spec fn covering_of(msg: Option<Seq<char>>, verkey: Seq<char>, seed_b58: Seq<char>) -> Result<
    Seq<char>,
    SssError,
> {
    match msg_object(msg) {
        Some(m) => Ok(covering_text(m, verkey, seed_b58)),
        None => Err(SssError::MalformedInput),
    }
}

/// The covering payload built from a normalised message object and the
/// owner's stored signing key.
pub open spec fn covering_with_key(msg: Seq<char>, verkey: Seq<char>, signkey: Seq<char>) -> Result<
    Seq<char>,
    SssError,
> {
    match seed_b58_of(signkey) {
        Some(seed) => Ok(covering_text(msg, verkey, seed)),
        None => Err(SssError::DecodeError),
    }
}

/// The covering payload for a split, checks in order: the message, the
/// presence of the owner's key, the key's encoding.
pub open spec fn secret_covering(
    msg: Option<Seq<char>>,
    verkey: Seq<char>,
    signkey: Option<Seq<char>>,
) -> Result<Seq<char>, SssError> {
    match msg_object(msg) {
        None => Err(SssError::MalformedInput),
        Some(m) => match signkey {
            None => Err(SssError::KeyNotFound),
            Some(k) => covering_with_key(m, verkey, k),
        },
    }
}

/// Fails with `InvalidThreshold` unless `1 <= m <= n`.
pub fn check_threshold(m: usize, n: usize) -> (r: Result<(), SssError>)
    ensures
        r == (if valid_threshold(m as int, n as int) {
            Ok(())
        } else {
            Err(SssError::InvalidThreshold)
        }),
{
    if 1 <= m && m <= n {
        Ok(())
    } else {
        Err(SssError::InvalidThreshold)
    }
}

/// The seed of an expanded ed25519 signing key: its first 32 bytes. Fails
/// with `DecodeError` unless the key has 64 bytes.
pub fn ed25519_sk_to_seed(sk: &Vec<u8>) -> (r: Result<Vec<u8>, SssError>)
    ensures
        match r {
            Ok(seed) => seed_of(sk@) == Some(seed@),
            Err(e) => seed_of(sk@) is None && e == SssError::DecodeError,
        },
{
    if sk.len() != ED25519_SECRET_KEY_LEN {
        return Err(SssError::DecodeError);
    }
    let mut seed: Vec<u8> = Vec::with_capacity(ED25519_SEED_LEN);
    let mut i: usize = 0;
    while i < ED25519_SEED_LEN
        invariant
            i <= ED25519_SEED_LEN,
            sk@.len() == ED25519_SECRET_KEY_LEN,
            seed@ == sk@.subrange(0, i as int),
        decreases ED25519_SEED_LEN - i,
    {
        seed.push(sk[i]);
        i = i + 1;
        assert(seed@ =~= sk@.subrange(0, i as int));
    }
    Ok(seed)
}

/// The base58 seed of the owner's stored signing key, itself base58 text.
/// Fails with `DecodeError` unless the key decodes to 64 bytes.
pub fn seed_from_signkey(signkey: &str) -> (r: Result<String, SssError>)
    ensures
        match r {
            Ok(seed) => seed_b58_of(signkey@) == Some(seed@),
            Err(e) => seed_b58_of(signkey@) is None && e == SssError::DecodeError,
        },
{
    let sk = match base58_decode(signkey) {
        Some(sk) => sk,
        None => return Err(SssError::DecodeError),
    };
    let seed = ed25519_sk_to_seed(&sk)?;
    Ok(base58_encode(seed.as_slice()))
}

/// The message object of the covering payload: `{}` when `msg` is absent,
/// else serde_json's normal form of `msg`. Fails with `MalformedInput` unless
/// `msg` is the text of one JSON object.
pub fn msg_object_text(msg: Option<&str>) -> (r: Result<String, SssError>)
    ensures
        match r {
            Ok(t) => msg_object(opt_view(msg)) == Some(t@),
            Err(e) => msg_object(opt_view(msg)) is None && e == SssError::MalformedInput,
        },
{
    match msg {
        None => Ok(String::from_str("{}")),
        Some(s) => match normalize_json_object(s) {
            Some(t) => Ok(t),
            None => Err(SssError::MalformedInput),
        },
    }
}

fn push_field_head(out: &mut String, name: &str)
    ensures
        final(out)@ == old(out)@ + field_head(name@),
{
    out.append("\"");
    out.append(name);
    out.append("\":");
}

fn assemble_covering(msg: &str, verkey: &str, seed_b58: &str) -> (r: String)
    ensures
        r@ == covering_text(msg@, verkey@, seed_b58@),
{
    let seed_lit = quote_json_string(seed_b58);
    let verkey_lit = quote_json_string(verkey);
    let mut r = String::from_str("{");
    push_field_head(&mut r, SSS_MSG_NAME_IN_SHARD);
    r.append(msg);
    r.append(",");
    push_field_head(&mut r, SSS_SEED_NAME_IN_SHARD);
    r.append(seed_lit.as_str());
    r.append(",");
    push_field_head(&mut r, SSS_VERKEY_NAME_IN_SHARD);
    r.append(verkey_lit.as_str());
    r.append("}");
    r
}

/// The covering payload of `msg` (or of the empty object), `verkey` and the
/// base58 seed. Fails with `MalformedInput` unless `msg`, when present, is
/// the text of one JSON object.
pub fn build_covering(msg: Option<&str>, verkey: &str, seed_b58: &str) -> (r: Result<
    String,
    SssError,
>)
    ensures
        match r {
            Ok(c) => covering_of(opt_view(msg), verkey@, seed_b58@) == Ok::<Seq<char>, SssError>(c@),
            Err(e) => covering_of(opt_view(msg), verkey@, seed_b58@) == Err::<Seq<char>, SssError>(e),
        },
{
    let m = msg_object_text(msg)?;
    Ok(assemble_covering(m.as_str(), verkey, seed_b58))
}

/// Completes the normalised message object `msg` with the owner's verkey
/// and the seed of the owner's signing key. Fails with `DecodeError` unless
/// `signkey` is the base58 text of a 64-byte key.
pub fn update_msg_with_secret_key(msg: &str, verkey: &str, signkey: &str) -> (r: Result<
    String,
    SssError,
>)
    ensures
        match r {
            Ok(c) => covering_with_key(msg@, verkey@, signkey@) == Ok::<Seq<char>, SssError>(c@),
            Err(e) => covering_with_key(msg@, verkey@, signkey@) == Err::<Seq<char>, SssError>(e),
        },
{
    let seed = seed_from_signkey(signkey)?;
    Ok(assemble_covering(msg, verkey, seed.as_str()))
}

/// What a split hands to the split primitive and to storage: `secret` is to
/// be split into `total` shards of which `threshold` recombine, and the
/// collection is to be stored under `wallet_key`.
pub struct ShardRequest {
    pub threshold: usize,
    pub total: usize,
    pub secret: Vec<u8>,
    pub wallet_key: String,
}

/// The decisions of a split for the owner `verkey`, given the owner's stored
/// signing key (`None` where the key service has none). Fails with
/// `InvalidThreshold` unless `1 <= m <= n`, then as `secret_covering` says;
/// on success the secret is the UTF-8 encoding of the covering payload.
pub fn shard_msg_secret(
    m: usize,
    n: usize,
    msg: Option<&str>,
    verkey: &str,
    signkey: Option<&str>,
) -> (r: Result<ShardRequest, SssError>)
    ensures
        !valid_threshold(m as int, n as int) ==> r is Err && r->Err_0 == SssError::InvalidThreshold,
        valid_threshold(m as int, n as int) ==> match secret_covering(
            opt_view(msg),
            verkey@,
            opt_view(signkey),
        ) {
            Ok(c) => r is Ok && r->Ok_0.threshold == m && r->Ok_0.total == n && r->Ok_0.secret@
                == encode_utf8(c) && r->Ok_0.wallet_key@ == wallet_key_of(verkey@),
            Err(e) => r is Err && r->Err_0 == e,
        },
{
    check_threshold(m, n)?;
    let msg_obj = msg_object_text(msg)?;
    let signkey = match signkey {
        Some(k) => k,
        None => return Err(SssError::KeyNotFound),
    };
    let covering = update_msg_with_secret_key(msg_obj.as_str(), verkey, signkey)?;
    let secret = covering.as_str().as_bytes_vec();
    Ok(ShardRequest { threshold: m, total: n, secret, wallet_key: verkey_to_wallet_key(verkey) })
}

} // verus!
