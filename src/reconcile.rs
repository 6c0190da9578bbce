use crate::operations::{ActionView, DeletePostOperationStatus, DeleteRepostOperationStatus};
use crate::source::{live_views, LiveStatus, Operation, StatusView};
use crate::store::{source_views, SourceStatus};
use vstd::prelude::*;

verus! {

/// Whether some status in `s` has the identifier `id`.
pub open spec fn has_identifier(s: Seq<StatusView>, id: Seq<char>) -> bool {
    exists|i: int| 0 <= i < s.len() && #[trigger] s[i].identifier() == id
}

/// No two statuses in `s` share an identifier.
pub open spec fn unique_identifiers(s: Seq<StatusView>) -> bool {
    forall|i: int, j: int|
        0 <= i < s.len() && 0 <= j < s.len() && i != j ==> #[trigger] s[i].identifier()
            != #[trigger] s[j].identifier()
}

/// The action that mirrors a newly seen status.
pub open spec fn create_action(s: StatusView) -> ActionView {
    match s {
        StatusView::Post(p) => ActionView::CreatePost(p),
        StatusView::Repost(r) => ActionView::CreateRepost(r),
    }
}

/// The action that withdraws a status that is no longer seen.
pub open spec fn delete_action(s: StatusView) -> ActionView {
    match s {
        StatusView::Post(p) => ActionView::DeletePost(
            DeletePostOperationStatus { src_identifier: p.identifier },
        ),
        StatusView::Repost(r) => ActionView::DeleteRepost(
            DeleteRepostOperationStatus { src_identifier: r.src_identifier },
        ),
    }
}

/// The creations for the first `n` live statuses: one for each whose
/// identifier the baseline lacks, in feed order.
pub open spec fn creations(live: Seq<StatusView>, base: Seq<StatusView>, n: int) -> Seq<ActionView>
    decreases n,
{
    if n <= 0 {
        Seq::empty()
    } else {
        let prev = creations(live, base, n - 1);
        if !has_identifier(base, live[n - 1].identifier()) {
            prev.push(create_action(live[n - 1]))
        } else {
            prev
        }
    }
}

/// The deletions for the first `n` baseline statuses: one for each whose
/// identifier the live feed lacks, in baseline order.
pub open spec fn deletions(live: Seq<StatusView>, base: Seq<StatusView>, n: int) -> Seq<ActionView>
    decreases n,
{
    if n <= 0 {
        Seq::empty()
    } else {
        let prev = deletions(live, base, n - 1);
        if !has_identifier(live, base[n - 1].identifier()) {
            prev.push(delete_action(base[n - 1]))
        } else {
            prev
        }
    }
}

/// What a fetch `live` gives against the recorded `base`: the creations in
/// live order, then the deletions in baseline order.
pub open spec fn reconciled_actions(live: Seq<StatusView>, base: Seq<StatusView>) -> Seq<ActionView> {
    creations(live, base, live.len() as int) + deletions(live, base, base.len() as int)
}

pub open spec fn action_views(ops: Seq<Operation>) -> Seq<ActionView> {
    ops.map_values(|o: Operation| o@)
}

fn baseline_has(base: &Vec<SourceStatus>, id: &String) -> (r: bool)
    ensures
        r == has_identifier(source_views(base@), id@),
{
    let mut i: usize = 0;
    while i < base.len()
        invariant
            i <= base@.len(),
            forall|j: int| 0 <= j < i ==> #[trigger] source_views(base@)[j].identifier() != id@,
        decreases base@.len() - i,
    {
        assert(source_views(base@)[i as int] == base@[i as int]@);
        if *base[i].identifier() == *id {
            return true;
        }
        i = i + 1;
    }
    false
}

fn live_has(live: &Vec<LiveStatus>, id: &String) -> (r: bool)
    ensures
        r == has_identifier(live_views(live@), id@),
{
    let mut i: usize = 0;
    while i < live.len()
        invariant
            i <= live@.len(),
            forall|j: int| 0 <= j < i ==> #[trigger] live_views(live@)[j].identifier() != id@,
        decreases live@.len() - i,
    {
        assert(live_views(live@)[i as int] == live@[i as int]@);
        if *live[i].identifier() == *id {
            return true;
        }
        i = i + 1;
    }
    false
}

/// The actions that bring destinations from the recorded `baseline` to the
/// fetched `live` feed: a creation for each live status that the baseline
/// lacks, then a deletion for each recorded status that the fetch lacks.
pub fn create_operations(live: &Vec<LiveStatus>, baseline: &Vec<SourceStatus>) -> (r: Vec<Operation>)
    ensures
        action_views(r@) == reconciled_actions(live_views(live@), source_views(baseline@)),
{
    let ghost lv = live_views(live@);
    let ghost bv = source_views(baseline@);
    let mut ops: Vec<Operation> = Vec::new();
    let mut i: usize = 0;
    while i < live.len()
        invariant
            i <= live@.len(),
            lv == live_views(live@),
            bv == source_views(baseline@),
            action_views(ops@) =~= creations(lv, bv, i as int),
        decreases live@.len() - i,
    {
        assert(lv[i as int] == live@[i as int]@);
        if !baseline_has(baseline, live[i].identifier()) {
            let op = match &live[i] {
                LiveStatus::Post(p) => Operation::CreatePost(p.to_create_status()),
                LiveStatus::Repost(r) => Operation::CreateRepost(r.clone()),
            };
            ops.push(op);
            assert(action_views(ops@) =~= creations(lv, bv, i as int).push(create_action(lv[i as int])));
        }
        i = i + 1;
    }
    let ghost created = creations(lv, bv, live@.len() as int);
    let mut j: usize = 0;
    while j < baseline.len()
        invariant
            j <= baseline@.len(),
            lv == live_views(live@),
            bv == source_views(baseline@),
            action_views(ops@) =~= created + deletions(lv, bv, j as int),
        decreases baseline@.len() - j,
    {
        assert(bv[j as int] == baseline@[j as int]@);
        if !live_has(live, baseline[j].identifier()) {
            let op = match &baseline[j] {
                SourceStatus::Post(p) => Operation::DeletePost(
                    DeletePostOperationStatus { src_identifier: p.identifier.clone() },
                ),
                SourceStatus::Repost(r) => Operation::DeleteRepost(
                    DeleteRepostOperationStatus { src_identifier: r.src_identifier.clone() },
                ),
            };
            ops.push(op);
            assert(action_views(ops@) =~= (created + deletions(lv, bv, j as int)).push(delete_action(bv[j as int])));
            assert((created + deletions(lv, bv, j as int)).push(delete_action(bv[j as int])) =~= created + deletions(lv, bv, j as int).push(delete_action(bv[j as int])));
        }
        j = j + 1;
    }
    ops
}

/// One poll's reconciliation: the new baseline, which is the fetch as it
/// came, and the actions of `create_operations`.
pub fn reconcile(live: &Vec<LiveStatus>, baseline: &Vec<SourceStatus>) -> (r: (
    Vec<SourceStatus>,
    Vec<Operation>,
))
    ensures
        source_views(r.0@) == live_views(live@),
        action_views(r.1@) == reconciled_actions(live_views(live@), source_views(baseline@)),
{
    let mut statuses: Vec<SourceStatus> = Vec::new();
    let mut i: usize = 0;
    while i < live.len()
        invariant
            i <= live@.len(),
            statuses@.len() == i,
            forall|j: int| 0 <= j < i ==> #[trigger] statuses@[j]@ == live@[j]@,
        decreases live@.len() - i,
    {
        statuses.push(SourceStatus::from_live(&live[i]));
        i = i + 1;
    }
    assert(source_views(statuses@) =~= live_views(live@));
    let ops = create_operations(live, baseline);
    (statuses, ops)
}

/// Whether `a` creates the item `id` on a destination.
pub open spec fn is_creation_of(a: ActionView, id: Seq<char>) -> bool {
    match a {
        ActionView::CreatePost(p) => p.identifier@ == id,
        ActionView::CreateRepost(r) => r.src_identifier@ == id,
        _ => false,
    }
}

/// Whether `a` deletes the item `id` from a destination.
pub open spec fn is_deletion_of(a: ActionView, id: Seq<char>) -> bool {
    match a {
        ActionView::DeletePost(d) => d.src_identifier@ == id,
        ActionView::DeleteRepost(d) => d.src_identifier@ == id,
        _ => false,
    }
}

/// How many actions of `s` create `id`.
pub open spec fn count_creations(s: Seq<ActionView>, id: Seq<char>) -> nat
    decreases s.len(),
{
    if s.len() == 0 {
        0
    } else {
        count_creations(s.drop_last(), id) + if is_creation_of(s.last(), id) {
            1nat
        } else {
            0nat
        }
    }
}

/// How many actions of `s` delete `id`.
pub open spec fn count_deletions(s: Seq<ActionView>, id: Seq<char>) -> nat
    decreases s.len(),
{
    if s.len() == 0 {
        0
    } else {
        count_deletions(s.drop_last(), id) + if is_deletion_of(s.last(), id) {
            1nat
        } else {
            0nat
        }
    }
}

proof fn lemma_counts_append(a: Seq<ActionView>, b: Seq<ActionView>, id: Seq<char>)
    ensures
        count_creations(a + b, id) == count_creations(a, id) + count_creations(b, id),
        count_deletions(a + b, id) == count_deletions(a, id) + count_deletions(b, id),
    decreases b.len(),
{
    if b.len() == 0 {
        assert(a + b =~= a);
    } else {
        lemma_counts_append(a, b.drop_last(), id);
        assert((a + b).drop_last() =~= a + b.drop_last());
    }
}

proof fn lemma_creations_count(
    live: Seq<StatusView>,
    base: Seq<StatusView>,
    n: int,
    id: Seq<char>,
)
    requires
        unique_identifiers(live),
        0 <= n <= live.len(),
    ensures
        count_deletions(creations(live, base, n), id) == 0,
        count_creations(creations(live, base, n), id) == if has_identifier(live.subrange(0, n), id)
            && !has_identifier(base, id) {
            1nat
        } else {
            0nat
        },
    decreases n,
{
    if n > 0 {
        lemma_creations_count(live, base, n - 1, id);
        let prev = creations(live, base, n - 1);
        let s = live[n - 1];
        assert(prev.push(create_action(s)).drop_last() =~= prev);
        if has_identifier(live.subrange(0, n), id) && !has_identifier(live.subrange(0, n - 1), id) {
            let k = choose|k: int| 0 <= k < n && #[trigger] live.subrange(0, n)[k].identifier() == id;
            if k < n - 1 {
                assert(live.subrange(0, n - 1)[k].identifier() == id);
            }
        }
        if s.identifier() == id {
            assert(live.subrange(0, n)[n - 1].identifier() == id);
            if has_identifier(live.subrange(0, n - 1), id) {
                let k = choose|k: int|
                    0 <= k < n - 1 && #[trigger] live.subrange(0, n - 1)[k].identifier() == id;
                assert(live[k].identifier() == id);
            }
        } else {
            if has_identifier(live.subrange(0, n - 1), id) {
                let k = choose|k: int|
                    0 <= k < n - 1 && #[trigger] live.subrange(0, n - 1)[k].identifier() == id;
                assert(live.subrange(0, n)[k].identifier() == id);
            }
        }
    } else {
        assert(live.subrange(0, 0).len() == 0);
    }
}

proof fn lemma_deletions_count(
    live: Seq<StatusView>,
    base: Seq<StatusView>,
    n: int,
    id: Seq<char>,
)
    requires
        unique_identifiers(base),
        0 <= n <= base.len(),
    ensures
        count_creations(deletions(live, base, n), id) == 0,
        count_deletions(deletions(live, base, n), id) == if has_identifier(base.subrange(0, n), id)
            && !has_identifier(live, id) {
            1nat
        } else {
            0nat
        },
    decreases n,
{
    if n > 0 {
        lemma_deletions_count(live, base, n - 1, id);
        let prev = deletions(live, base, n - 1);
        let s = base[n - 1];
        assert(prev.push(delete_action(s)).drop_last() =~= prev);
        if has_identifier(base.subrange(0, n), id) && !has_identifier(base.subrange(0, n - 1), id) {
            let k = choose|k: int| 0 <= k < n && #[trigger] base.subrange(0, n)[k].identifier() == id;
            if k < n - 1 {
                assert(base.subrange(0, n - 1)[k].identifier() == id);
            }
        }
        if s.identifier() == id {
            assert(base.subrange(0, n)[n - 1].identifier() == id);
            if has_identifier(base.subrange(0, n - 1), id) {
                let k = choose|k: int|
                    0 <= k < n - 1 && #[trigger] base.subrange(0, n - 1)[k].identifier() == id;
                assert(base[k].identifier() == id);
            }
        } else {
            if has_identifier(base.subrange(0, n - 1), id) {
                let k = choose|k: int|
                    0 <= k < n - 1 && #[trigger] base.subrange(0, n - 1)[k].identifier() == id;
                assert(base.subrange(0, n)[k].identifier() == id);
            }
        }
    } else {
        assert(base.subrange(0, 0).len() == 0);
    }
}

/// Reconciling a fetch against a baseline, each without repeated
/// identifiers, gives for every identifier exactly one creation when only the
/// fetch has it, exactly one deletion when only the baseline has it, and no
/// action for it otherwise.
pub proof fn lemma_reconcile_exact(live: Seq<StatusView>, base: Seq<StatusView>, id: Seq<char>)
    requires
        unique_identifiers(live),
        unique_identifiers(base),
    ensures
        count_creations(reconciled_actions(live, base), id) == if has_identifier(live, id)
            && !has_identifier(base, id) {
            1nat
        } else {
            0nat
        },
        count_deletions(reconciled_actions(live, base), id) == if has_identifier(base, id)
            && !has_identifier(live, id) {
            1nat
        } else {
            0nat
        },
{
    lemma_creations_count(live, base, live.len() as int, id);
    lemma_deletions_count(live, base, base.len() as int, id);
    lemma_counts_append(
        creations(live, base, live.len() as int),
        deletions(live, base, base.len() as int),
        id,
    );
    assert(live.subrange(0, live.len() as int) =~= live);
    assert(base.subrange(0, base.len() as int) =~= base);
}

} // verus!
