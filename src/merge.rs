use crate::account::{AccountKey, AccountPair};
use crate::operations::{ActionView, OperationView};
use crate::reconcile::action_views;
use crate::source::Operation;
use crate::store::{operation_views, Store};
use vstd::prelude::*;

verus! {

/// The actions `acts`, each stamped with the edge from `src` to `dst`.
pub open spec fn stamped(src: AccountKey, dst: AccountKey, acts: Seq<ActionView>) -> Seq<
    OperationView,
> {
    acts.map_values(|a: ActionView| OperationView { pair: AccountPair { src: src, dst: dst }, action: a })
}

/// What fan-out queues for the first `n` destinations of `dsts`: every action
/// for the first destination, then every action for the second, and so on.
pub open spec fn fan_out(src: AccountKey, dsts: Seq<AccountKey>, acts: Seq<ActionView>, n: int) -> Seq<
    OperationView,
>
    decreases n,
{
    if n <= 0 {
        Seq::empty()
    } else {
        fan_out(src, dsts, acts, n - 1) + stamped(src, dsts[n - 1], acts)
    }
}

/// Whether some queued action in `ops` belongs to an edge out of `src`.
pub open spec fn has_ops_from(ops: Seq<OperationView>, src: AccountKey) -> bool {
    exists|i: int| 0 <= i < ops.len() && (#[trigger] ops[i]).pair.src@ == src@
}

/// Whether an action of the source account `src_key` is still queued.
pub fn has_users_operations(operations: &Vec<crate::operations::Operation>, src_key: &AccountKey) -> (r:
    bool)
    ensures
        r == has_ops_from(operation_views(operations@), *src_key),
{
    let ghost v = operation_views(operations@);
    let mut i: usize = 0;
    while i < operations.len()
        invariant
            i <= operations@.len(),
            v == operation_views(operations@),
            forall|j: int| 0 <= j < i ==> (#[trigger] v[j]).pair.src@ != src_key@,
        decreases operations@.len() - i,
    {
        assert(v[i as int] == operations@[i as int]@);
        if operations[i].account_pair().src == *src_key {
            return true;
        }
        i = i + 1;
    }
    false
}

/// Appends to the queue, for every destination in `dst_account_keys` in
/// order, every action of `operations` stamped with the edge from
/// `src_account_key` to that destination. The users are left as they are.
pub fn merge_operations(
    store: &mut Store,
    dst_account_keys: &Vec<AccountKey>,
    src_account_key: &AccountKey,
    operations: &Vec<Operation>,
)
    ensures
        final(store)@.users == old(store)@.users,
        old(store)@.wf() ==> final(store)@.wf(),
        final(store)@.operations == old(store)@.operations + fan_out(
            *src_account_key,
            dst_account_keys@,
            action_views(operations@),
            dst_account_keys@.len() as int,
        ),
{
    let ghost acts = action_views(operations@);
    let ghost before = old(store)@.operations;
    let mut i: usize = 0;
    while i < dst_account_keys.len()
        invariant
            i <= dst_account_keys@.len(),
            acts == action_views(operations@),
            store@.users == old(store)@.users,
            store@.operations =~= before + fan_out(
                *src_account_key,
                dst_account_keys@,
                acts,
                i as int,
            ),
        decreases dst_account_keys@.len() - i,
    {
        let ghost queued = store@.operations;
        let mut j: usize = 0;
        while j < operations.len()
            invariant
                i < dst_account_keys@.len(),
                j <= operations@.len(),
                acts == action_views(operations@),
                store@.users == old(store)@.users,
                store@.operations =~= queued + stamped(
                    *src_account_key,
                    dst_account_keys@[i as int],
                    acts.subrange(0, j as int),
                ),
            decreases operations@.len() - j,
        {
            let pair = AccountPair::new(src_account_key.clone(), dst_account_keys[i].clone());
            let op = operations[j].to_store(pair);
            assert(acts[j as int] == operations@[j as int]@);
            let ghost sv = OperationView {
                pair: AccountPair { src: *src_account_key, dst: dst_account_keys@[i as int] },
                action: acts[j as int],
            };
            let ghost prev = store@.operations;
            assert(op@ == sv);
            store.operations.push(op);
            assert(store@.operations =~= prev.push(sv));
            assert(stamped(*src_account_key, dst_account_keys@[i as int], acts.subrange(0, j as int + 1))
                =~= stamped(*src_account_key, dst_account_keys@[i as int], acts.subrange(0, j as int)).push(sv));
            j = j + 1;
        }
        assert(acts.subrange(0, operations@.len() as int) =~= acts);
        assert(queued + stamped(*src_account_key, dst_account_keys@[i as int], acts) =~= before
            + fan_out(*src_account_key, dst_account_keys@, acts, i as int + 1));
        i = i + 1;
    }
}

proof fn lemma_fan_out_single(src: AccountKey, dsts: Seq<AccountKey>, a: ActionView, n: int)
    requires
        0 <= n <= dsts.len(),
    ensures
        fan_out(src, dsts, seq![a], n).len() == n,
        forall|i: int|
            0 <= i < n ==> #[trigger] fan_out(src, dsts, seq![a], n)[i] == (OperationView {
                pair: AccountPair { src: src, dst: dsts[i] },
                action: a,
            }),
    decreases n,
{
    if n > 0 {
        lemma_fan_out_single(src, dsts, a, n - 1);
        assert(stamped(src, dsts[n - 1], seq![a])[0] == OperationView {
            pair: AccountPair { src: src, dst: dsts[n - 1] },
            action: a,
        });
    }
}

/// Fanning one action out to destinations whose keys are pairwise distinct
/// queues exactly one action per destination, in the destinations' order:
/// each carries the same change, each its own edge from `src`, and no two of
/// them share an edge.
pub proof fn lemma_fan_out_one_per_destination(src: AccountKey, dsts: Seq<AccountKey>, a: ActionView)
    requires
        forall|i: int, j: int|
            0 <= i < dsts.len() && 0 <= j < dsts.len() && i != j ==> #[trigger] dsts[i]@
                != #[trigger] dsts[j]@,
    ensures
        fan_out(src, dsts, seq![a], dsts.len() as int).len() == dsts.len(),
        forall|i: int|
            0 <= i < dsts.len() ==> (#[trigger] fan_out(src, dsts, seq![a], dsts.len() as int)[i]).action
                == a && fan_out(src, dsts, seq![a], dsts.len() as int)[i].pair.src == src
                && fan_out(src, dsts, seq![a], dsts.len() as int)[i].pair.dst == dsts[i],
        forall|i: int, j: int|
            0 <= i < dsts.len() && 0 <= j < dsts.len() && i != j ==> (#[trigger] fan_out(
                src,
                dsts,
                seq![a],
                dsts.len() as int,
            )[i]).pair.dst@ != (#[trigger] fan_out(src, dsts, seq![a], dsts.len() as int)[j]).pair.dst@,
{
    lemma_fan_out_single(src, dsts, a, dsts.len() as int);
}

} // verus!
