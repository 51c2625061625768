use crate::error::SssError;
use vstd::prelude::*;

verus! {

/// One shard of a stored collection: the 1-based index that the shard
/// carries and its serialized text.
pub struct ShardEntry {
    pub index: usize,
    pub text: String,
}

/// Some shard of `shards` carries the index `i`.
pub open spec fn has_index(shards: Seq<ShardEntry>, i: int) -> bool {
    exists|k: int| 0 <= k < shards.len() && #[trigger] shards[k].index == i
}

/// Position `k` holds the first shard of `shards` that carries the index `i`.
pub open spec fn selects(shards: Seq<ShardEntry>, i: int, k: int) -> bool {
    &&& 0 <= k < shards.len()
    &&& shards[k].index == i
    &&& forall|j: int| 0 <= j < k ==> #[trigger] shards[j].index != i
}

/// The collection of a split into `n` shards: `n` shards that carry the
/// indices `1..=n`, in any order.
pub open spec fn indexed_one_to_n(shards: Seq<ShardEntry>, n: int) -> bool {
    &&& shards.len() == n
    &&& forall|k: int| 0 <= k < shards.len() ==> 1 <= #[trigger] shards[k].index <= n
    &&& forall|i: int| 1 <= i <= n ==> has_index(shards, i)
}

/// The text of the shard that carries the index `shard_no` (the first such,
/// wherever it stands in the collection). Fails with `IndexOutOfRange` when
/// no shard carries that index; indices start at 1, so 0 always fails.
pub fn select_shard(shards: &Vec<ShardEntry>, shard_no: usize) -> (r: Result<String, SssError>)
    ensures
        match r {
            Ok(t) => exists|k: int|
                selects(shards@, shard_no as int, k) && t@ == (#[trigger] shards@[k]).text@,
            Err(e) => !has_index(shards@, shard_no as int) && e == SssError::IndexOutOfRange,
        },
{
    let mut k: usize = 0;
    while k < shards.len()
        invariant
            k <= shards@.len(),
            forall|j: int| 0 <= j < k ==> #[trigger] shards@[j].index != shard_no,
        decreases shards@.len() - k,
    {
        if shards[k].index == shard_no {
            let t = shards[k].text.clone();
            assert(selects(shards@, shard_no as int, k as int));
            return Ok(t);
        }
        k = k + 1;
    }
    Err(SssError::IndexOutOfRange)
}

/// In the collection of a split into `n` shards every index of `1..=n` is
/// carried by a shard, so selecting it succeeds with a shard of that index,
/// while `n + 1` (and 0) is carried by none and fails with `IndexOutOfRange`.
pub proof fn lemma_split_collection_indices(shards: Seq<ShardEntry>, n: int)
    requires
        indexed_one_to_n(shards, n),
    ensures
        forall|i: int| 1 <= i <= n ==> #[trigger] has_index(shards, i),
        !has_index(shards, n + 1),
        !has_index(shards, 0),
{
}

} // verus!
