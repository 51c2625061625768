use indy_sss::{
    build_covering, check_threshold, ed25519_sk_to_seed, msg_object_text, recovered_secret_text,
    secret_key_in_msg, seed_from_signkey, select_shard, shard_msg_secret,
    update_msg_with_secret_key, verkey_to_wallet_key, ShardEntry, SssError,
};
use rust_base58::ToBase58;

const ZERO_SEED_B58: &str = "11111111111111111111111111111111";

fn signkey_with_zero_seed() -> String {
    let mut sk = vec![0u8; 32];
    sk.extend(vec![7u8; 32]);
    sk.to_base58()
}

fn entry(index: usize, text: &str) -> ShardEntry {
    ShardEntry { index, text: text.to_string() }
}

#[test]
fn wallet_key_is_namespaced() {
    assert_eq!(verkey_to_wallet_key("Abc...Verkey"), "sss::Abc...Verkey");
    assert_eq!(verkey_to_wallet_key(""), "sss::");
}

#[test]
fn secret_name_is_namespaced() {
    assert_eq!(secret_key_in_msg("k1"), "seed::k1");
}

#[test]
fn threshold_bounds() {
    assert_eq!(check_threshold(0, 5), Err(SssError::InvalidThreshold));
    assert_eq!(check_threshold(6, 5), Err(SssError::InvalidThreshold));
    assert_eq!(check_threshold(0, 0), Err(SssError::InvalidThreshold));
    assert_eq!(check_threshold(1, 1), Ok(()));
    assert_eq!(check_threshold(5, 5), Ok(()));
    assert_eq!(check_threshold(2, 3), Ok(()));
}

#[test]
fn split_rejects_zero_and_oversized_threshold() {
    let sk = signkey_with_zero_seed();
    let a = shard_msg_secret(0, 5, None, "Abc...Verkey", Some(&sk));
    assert_eq!(a.err(), Some(SssError::InvalidThreshold));
    let b = shard_msg_secret(6, 5, None, "Abc...Verkey", Some(&sk));
    assert_eq!(b.err(), Some(SssError::InvalidThreshold));
    // threshold is checked before anything else
    let c = shard_msg_secret(6, 5, Some("[1]"), "Abc...Verkey", None);
    assert_eq!(c.err(), Some(SssError::InvalidThreshold));
}

#[test]
fn split_request_for_example_owner() {
    let sk = signkey_with_zero_seed();
    let req = shard_msg_secret(2, 3, None, "Abc...Verkey", Some(&sk)).ok().unwrap();
    assert_eq!(req.threshold, 2);
    assert_eq!(req.total, 3);
    assert_eq!(req.wallet_key, "sss::Abc...Verkey");
    let expected = format!(
        "{{\"msg\":{{}},\"seed\":\"{}\",\"verkey\":\"Abc...Verkey\"}}",
        ZERO_SEED_B58
    );
    assert_eq!(req.secret, expected.as_bytes().to_vec());
    assert_eq!(recovered_secret_text(req.secret.clone()).ok().unwrap(), expected);
}

#[test]
fn split_request_keeps_message() {
    let sk = signkey_with_zero_seed();
    let req = shard_msg_secret(1, 1, Some("{ \"b\": 2, \"a\": [1, 2] }"), "V", Some(&sk))
        .ok()
        .unwrap();
    let expected = format!(
        "{{\"msg\":{{\"a\":[1,2],\"b\":2}},\"seed\":\"{}\",\"verkey\":\"V\"}}",
        ZERO_SEED_B58
    );
    assert_eq!(String::from_utf8(req.secret).unwrap(), expected);
}

#[test]
fn split_errors_in_order() {
    let sk = signkey_with_zero_seed();
    let a = shard_msg_secret(2, 3, Some("[1, 2]"), "V", None);
    assert_eq!(a.err(), Some(SssError::MalformedInput));
    let b = shard_msg_secret(2, 3, Some("{}"), "V", None);
    assert_eq!(b.err(), Some(SssError::KeyNotFound));
    let c = shard_msg_secret(2, 3, None, "V", Some("0OIl"));
    assert_eq!(c.err(), Some(SssError::DecodeError));
    let short = vec![1u8; 32].to_base58();
    let d = shard_msg_secret(2, 3, None, "V", Some(&short));
    assert_eq!(d.err(), Some(SssError::DecodeError));
    assert!(shard_msg_secret(2, 3, Some("{}"), "V", Some(&sk)).is_ok());
}

#[test]
fn seed_is_first_half_of_key() {
    let sk: Vec<u8> = (1..=64).map(|b| b as u8).collect();
    let seed = ed25519_sk_to_seed(&sk).ok().unwrap();
    assert_eq!(seed, (1..=32).map(|b| b as u8).collect::<Vec<u8>>());
    assert_eq!(ed25519_sk_to_seed(&vec![0u8; 63]).err(), Some(SssError::DecodeError));
    assert_eq!(ed25519_sk_to_seed(&vec![0u8; 65]).err(), Some(SssError::DecodeError));
    assert_eq!(ed25519_sk_to_seed(&Vec::new()).err(), Some(SssError::DecodeError));
}

#[test]
fn seed_from_signkey_encodes_base58() {
    assert_eq!(seed_from_signkey(&signkey_with_zero_seed()).ok().unwrap(), ZERO_SEED_B58);
    let sk: Vec<u8> = (1..=64).map(|b| b as u8).collect();
    let seed: Vec<u8> = (1..=32).map(|b| b as u8).collect();
    assert_eq!(seed_from_signkey(&sk.to_base58()).ok().unwrap(), seed.to_base58());
    assert_eq!(seed_from_signkey("not base58!").err(), Some(SssError::DecodeError));
}

#[test]
fn message_object_text() {
    assert_eq!(msg_object_text(None).ok().unwrap(), "{}");
    assert_eq!(msg_object_text(Some(" { } ")).ok().unwrap(), "{}");
    assert_eq!(msg_object_text(Some("{\"z\": 1, \"a\": \"x\"}")).ok().unwrap(), "{\"a\":\"x\",\"z\":1}");
    assert_eq!(msg_object_text(Some("[]")).err(), Some(SssError::MalformedInput));
    assert_eq!(msg_object_text(Some("42")).err(), Some(SssError::MalformedInput));
    assert_eq!(msg_object_text(Some("\"s\"")).err(), Some(SssError::MalformedInput));
    assert_eq!(msg_object_text(Some("{")).err(), Some(SssError::MalformedInput));
    assert_eq!(msg_object_text(Some("")).err(), Some(SssError::MalformedInput));
}

#[test]
fn covering_without_message() {
    let c = build_covering(None, "Abc...Verkey", "3x7").ok().unwrap();
    assert_eq!(c, "{\"msg\":{},\"seed\":\"3x7\",\"verkey\":\"Abc...Verkey\"}");
}

#[test]
fn covering_keeps_fields_of_message_apart() {
    let c = build_covering(Some("{\"verkey\":\"forged\",\"seed\":\"x\"}"), "V", "S").ok().unwrap();
    assert_eq!(
        c,
        "{\"msg\":{\"seed\":\"x\",\"verkey\":\"forged\"},\"seed\":\"S\",\"verkey\":\"V\"}"
    );
}

#[test]
fn covering_escapes_strings() {
    let c = build_covering(None, "a\"b\\c", "S").ok().unwrap();
    assert_eq!(c, "{\"msg\":{},\"seed\":\"S\",\"verkey\":\"a\\\"b\\\\c\"}");
}

#[test]
fn covering_rejects_non_object_message() {
    assert_eq!(build_covering(Some("[1]"), "V", "S").err(), Some(SssError::MalformedInput));
    assert_eq!(build_covering(Some("nope"), "V", "S").err(), Some(SssError::MalformedInput));
}

#[test]
fn covering_from_signkey() {
    let c = update_msg_with_secret_key("{\"k\":1}", "V", &signkey_with_zero_seed()).ok().unwrap();
    assert_eq!(
        c,
        format!("{{\"msg\":{{\"k\":1}},\"seed\":\"{}\",\"verkey\":\"V\"}}", ZERO_SEED_B58)
    );
    assert_eq!(
        update_msg_with_secret_key("{}", "V", "O").err(),
        Some(SssError::DecodeError)
    );
}

#[test]
fn select_shard_by_embedded_index() {
    let shards = vec![entry(3, "three"), entry(1, "one"), entry(2, "two")];
    assert_eq!(select_shard(&shards, 1).ok().unwrap(), "one");
    assert_eq!(select_shard(&shards, 2).ok().unwrap(), "two");
    assert_eq!(select_shard(&shards, 3).ok().unwrap(), "three");
    assert_eq!(select_shard(&shards, 4).err(), Some(SssError::IndexOutOfRange));
    assert_eq!(select_shard(&shards, 0).err(), Some(SssError::IndexOutOfRange));
}

#[test]
fn select_shard_first_of_equal_indices() {
    let shards = vec![entry(2, "first"), entry(2, "second")];
    assert_eq!(select_shard(&shards, 2).ok().unwrap(), "first");
    assert_eq!(select_shard(&Vec::new(), 1).err(), Some(SssError::IndexOutOfRange));
}

#[test]
fn recovered_text_decodes_utf8() {
    assert_eq!(recovered_secret_text("{\"msg\":{}}".as_bytes().to_vec()).ok().unwrap(), "{\"msg\":{}}");
    assert_eq!(recovered_secret_text("é€".as_bytes().to_vec()).ok().unwrap(), "é€");
    assert_eq!(recovered_secret_text(Vec::new()).ok().unwrap(), "");
    assert_eq!(recovered_secret_text(vec![0xff, 0xfe]).err(), Some(SssError::EncodingError));
    assert_eq!(recovered_secret_text(vec![0xc3]).err(), Some(SssError::EncodingError));
}

#[test]
fn resplit_targets_same_key() {
    let sk = signkey_with_zero_seed();
    let first = shard_msg_secret(2, 3, None, "Owner", Some(&sk)).ok().unwrap();
    let second = shard_msg_secret(3, 5, Some("{\"v\":2}"), "Owner", Some(&sk)).ok().unwrap();
    assert_eq!(first.wallet_key, second.wallet_key);
    assert_eq!((second.threshold, second.total), (3, 5));
    assert_ne!(first.secret, second.secret);
    let other = shard_msg_secret(2, 3, None, "Owner2", Some(&sk)).ok().unwrap();
    assert_ne!(first.wallet_key, other.wallet_key);
}

#[test]
fn recovered_covering_names_owner_and_message() {
    let sk = signkey_with_zero_seed();
    let msg = "{\"note\": \"hello\", \"n\": [1, {\"x\": null}]}";
    let req = shard_msg_secret(2, 4, Some(msg), "Owner\"Key", Some(&sk)).ok().unwrap();
    let text = recovered_secret_text(req.secret).ok().unwrap();
    let covering: serde_json::Value = serde_json::from_str(&text).unwrap();
    let given: serde_json::Value = serde_json::from_str(msg).unwrap();
    assert_eq!(covering["verkey"], serde_json::Value::String("Owner\"Key".to_string()));
    assert_eq!(covering["seed"], serde_json::Value::String(ZERO_SEED_B58.to_string()));
    assert_eq!(covering["msg"], given);
    assert_eq!(covering.as_object().unwrap().len(), 3);
}
