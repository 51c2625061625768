//! Threshold sharing of a signing key's seed: the canonical covering payload
//! that is split into shards, the storage keys under which the shard
//! collection of an owner is kept, the selection of one shard by its index and
//! the decoding of a recovered secret.

mod base58;
mod json;

pub mod covering;
pub mod error;
pub mod keying;
pub mod recovery;
pub mod shards;

pub use covering::{
    build_covering, check_threshold, ed25519_sk_to_seed, msg_object_text, seed_from_signkey,
    shard_msg_secret, update_msg_with_secret_key, ShardRequest,
};
pub use recovery::recovered_secret_text;
pub use shards::{select_shard, ShardEntry};


pub use error::SssError;
pub use keying::{
    secret_key_in_msg, verkey_to_wallet_key, SSS_MSG_NAME_IN_SHARD, SSS_SEED_NAME_IN_SHARD,
    SSS_VERKEY_NAME_IN_SHARD, SSS_WALLET_KEY_PREFIX,
};


