use vstd::prelude::*;
use vstd::string::*;

verus! {

/// Namespace of every shard collection in the wallet.
pub const SSS_WALLET_KEY_PREFIX: &'static str = "sss";

/// Field of the covering payload that holds the caller's message.
pub const SSS_MSG_NAME_IN_SHARD: &'static str = "msg";

/// Field of the covering payload that holds the owner's verification key.
pub const SSS_VERKEY_NAME_IN_SHARD: &'static str = "verkey";

/// Field of the covering payload that holds the base58 seed.
pub const SSS_SEED_NAME_IN_SHARD: &'static str = "seed";

/// `"{prefix}::{name}"`.
pub open spec fn namespaced(prefix: Seq<char>, name: Seq<char>) -> Seq<char> {
    prefix + "::"@ + name
}

/// The storage key of the shard collection of `verkey`.
pub open spec fn wallet_key_of(verkey: Seq<char>) -> Seq<char> {
    namespaced(SSS_WALLET_KEY_PREFIX@, verkey)
}

fn namespace(prefix: &str, name: &str) -> (r: String)
    ensures
        r@ == namespaced(prefix@, name@),
{
    let mut r = String::from_str(prefix);
    r.append("::");
    r.append(name);
    r
}

/// The storage key `"sss::{verkey}"` of the shard collection of `verkey`.
pub fn verkey_to_wallet_key(verkey: &str) -> (r: String)
    ensures
        r@ == wallet_key_of(verkey@),
{
    namespace(SSS_WALLET_KEY_PREFIX, verkey)
}

/// The name `"seed::{secret_name}"` of a secret inside a message.
pub fn secret_key_in_msg(secret_name: &str) -> (r: String)
    ensures
        r@ == namespaced(SSS_SEED_NAME_IN_SHARD@, secret_name@),
{
    namespace(SSS_SEED_NAME_IN_SHARD, secret_name)
}

/// Distinct owners have distinct storage keys, so no owner's collection can
/// land on another's.
pub proof fn lemma_wallet_key_injective(a: Seq<char>, b: Seq<char>)
    ensures
        wallet_key_of(a) == wallet_key_of(b) <==> a == b,
{
    if wallet_key_of(a) == wallet_key_of(b) {
        let p = SSS_WALLET_KEY_PREFIX@ + "::"@;
        assert(wallet_key_of(a) == p + a);
        assert(wallet_key_of(b) == p + b);
        assert(a =~= (p + a).subrange(p.len() as int, (p + a).len() as int));
        assert(b =~= (p + b).subrange(p.len() as int, (p + b).len() as int));
    }
}

/// Storing a second collection for an owner replaces the first: reading the
/// owner's key afterwards yields the second value, whatever the store held
/// before, and no other owner's entry changes.
pub proof fn lemma_second_store_overwrites(
    store: Map<Seq<char>, Seq<char>>,
    owner: Seq<char>,
    first: Seq<char>,
    second: Seq<char>,
)
    ensures
        ({
            let after = store.insert(wallet_key_of(owner), first).insert(
                wallet_key_of(owner),
                second,
            );
            &&& after.contains_key(wallet_key_of(owner))
            &&& after[wallet_key_of(owner)] == second
            &&& forall|other: Seq<char>|
                other != owner ==> #[trigger] after.contains_key(wallet_key_of(other))
                    == store.contains_key(wallet_key_of(other)) && (store.contains_key(
                    wallet_key_of(other),
                ) ==> after[wallet_key_of(other)] == store[wallet_key_of(other)])
        }),
{
    assert forall|other: Seq<char>| other != owner implies wallet_key_of(other) != wallet_key_of(
        owner,
    ) by {
        lemma_wallet_key_injective(other, owner);
    }
}

} // verus!
