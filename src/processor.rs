use crate::account::{AccountKey, AccountPair};
use crate::operations::{ActionView, CreatePostOperationStatus, Operation, PostView};
use crate::store::{
    dst_views, lemma_dst_entry, lemma_with_dst_wf, user_views, Destination, DestinationStatus,
    DestinationView, MirroredStatus, Store, StoreView, UserView,
};
use vstd::prelude::*;

verus! {

/// How many queued actions one run applies at most; the rest waits for the
/// next run, which keeps the load on the persistence backend low.
pub const MAX_ACTIONS_PER_RUN: usize = 2;

/// The identifier of the first record at or after `i` in `st` that mirrors
/// `src`.
pub open spec fn first_in_statuses(st: Seq<DestinationStatus>, src: Seq<char>, i: int) -> Option<
    String,
>
    decreases st.len() - i,
{
    if i < 0 || i >= st.len() {
        None
    } else if st[i].item().src_identifier@ == src {
        Some(st[i].item().identifier)
    } else {
        first_in_statuses(st, src, i + 1)
    }
}

/// The same search over the destinations from `i` on, each searched newest
/// record first.
pub open spec fn first_in_dsts(ds: Seq<DestinationView>, src: Seq<char>, i: int) -> Option<String>
    decreases ds.len() - i,
{
    if i < 0 || i >= ds.len() {
        None
    } else {
        match first_in_statuses(ds[i].statuses, src, 0) {
            Some(x) => Some(x),
            None => first_in_dsts(ds, src, i + 1),
        }
    }
}

/// The same search over the users from `i` on.
pub open spec fn first_in_users(us: Seq<UserView>, src: Seq<char>, i: int) -> Option<String>
    decreases us.len() - i,
{
    if i < 0 || i >= us.len() {
        None
    } else {
        match first_in_dsts(us[i].dsts, src, 0) {
            Some(x) => Some(x),
            None => first_in_users(us, src, i + 1),
        }
    }
}

/// The destination identifier under which the source item `src` was
/// mirrored: the first record for it, searching users, then their
/// destinations, in order.
pub open spec fn dst_identifier_of(s: StoreView, src: Seq<char>) -> Option<String> {
    first_in_users(s.users, src, 0)
}

fn find_in_statuses(st: &Vec<DestinationStatus>, src: &String) -> (r: Option<String>)
    ensures
        r == first_in_statuses(st@, src@, 0),
{
    let mut i: usize = 0;
    while i < st.len()
        invariant
            i <= st@.len(),
            first_in_statuses(st@, src@, 0) == first_in_statuses(st@, src@, i as int),
        decreases st@.len() - i,
    {
        let m = st[i].mirrored();
        if m.src_identifier == *src {
            return Some(m.identifier.clone());
        }
        i = i + 1;
    }
    None
}

fn find_in_dsts(ds: &Vec<Destination>, src: &String) -> (r: Option<String>)
    ensures
        r == first_in_dsts(dst_views(ds@), src@, 0),
{
    let ghost dv = dst_views(ds@);
    let mut i: usize = 0;
    while i < ds.len()
        invariant
            i <= ds@.len(),
            dv == dst_views(ds@),
            first_in_dsts(dv, src@, 0) == first_in_dsts(dv, src@, i as int),
        decreases ds@.len() - i,
    {
        assert(dv[i as int] == ds@[i as int]@);
        let found = find_in_statuses(&ds[i].statuses, src);
        if found.is_some() {
            return found;
        }
        i = i + 1;
    }
    None
}

/// Where the source item `src_identifier` was mirrored, searching every
/// user's destinations (see `dst_identifier_of`).
pub fn to_dst_identifier(src_identifier: &String, store: &Store) -> (r: Option<String>)
    ensures
        r == dst_identifier_of(store@, src_identifier@),
{
    let ghost uv = user_views(store.users@);
    let mut i: usize = 0;
    while i < store.users.len()
        invariant
            i <= store.users@.len(),
            uv == user_views(store.users@),
            first_in_users(uv, src_identifier@, 0) == first_in_users(uv, src_identifier@, i as int),
        decreases store.users@.len() - i,
    {
        assert(uv[i as int] == store.users@[i as int]@);
        let found = find_in_dsts(&store.users[i].dsts, src_identifier);
        if found.is_some() {
            return found;
        }
        i = i + 1;
    }
    None
}

/// Whether `s` records the mirror of `src` as a post (`repost` false) or as
/// a repost (`repost` true).
pub open spec fn records(s: DestinationStatus, src: Seq<char>, repost: bool) -> bool {
    match s {
        DestinationStatus::Post(m) => !repost && m.src_identifier@ == src,
        DestinationStatus::Repost(m) => repost && m.src_identifier@ == src,
    }
}

/// The first position at or after `i` of such a record in `st`, or the length
/// where there is none.
pub open spec fn record_pos_from(st: Seq<DestinationStatus>, src: Seq<char>, repost: bool, i: int) -> int
    decreases st.len() - i,
{
    if i < 0 || i >= st.len() {
        st.len() as int
    } else if records(st[i], src, repost) {
        i
    } else {
        record_pos_from(st, src, repost, i + 1)
    }
}

pub open spec fn record_pos(st: Seq<DestinationStatus>, src: Seq<char>, repost: bool) -> int {
    record_pos_from(st, src, repost, 0)
}

/// The destination identifier to delete when the source item `src` is
/// withdrawn on the edge `pair`: that of the edge's own record of it, where
/// there is one.
pub open spec fn deletion_target(s: StoreView, pair: AccountPair, src: Seq<char>, repost: bool) -> Option<
    String,
> {
    let d = s.dst_entry(pair);
    let p = record_pos(d.statuses, src, repost);
    if p < d.statuses.len() {
        Some(d.statuses[p].item().identifier)
    } else {
        None
    }
}

/// Why the head of the queue cannot be applied now. It stays queued.
#[derive(Debug, Clone, Copy, PartialEq, Eq, Structural)]
pub enum ProcessError {
    /// A repost's target was never mirrored, so there is nothing to repost.
    MissingRepostTarget,
    /// A creation was reported done without the identifier it created.
    MissingIdentifier,
    /// A completion was reported while nothing was queued.
    NothingQueued,
}

/// The destination call that applies an action, with its lists as sequences.
pub enum CallView {
    Post { dst: AccountKey, status: PostView, reply_identifier: Option<String> },
    Repost { dst: AccountKey, target_identifier: String, created_at: String },
    DeletePost { dst: AccountKey, identifier: String },
    DeleteRepost { dst: AccountKey, identifier: String },
    Skip,
}

/// The destination call that applies the head of the queue. `Skip` is an
/// action that needs no call: an edit, which is not supported, or a deletion
/// of something that was never mirrored there.
#[derive(Debug)]
pub enum Call {
    Post { dst: AccountKey, status: CreatePostOperationStatus, reply_identifier: Option<String> },
    Repost { dst: AccountKey, target_identifier: String, created_at: String },
    DeletePost { dst: AccountKey, identifier: String },
    DeleteRepost { dst: AccountKey, identifier: String },
    Skip,
}

impl View for Call {
    type V = CallView;

    open spec fn view(&self) -> CallView {
        match self {
            Call::Post { dst, status, reply_identifier } => CallView::Post {
                dst: *dst,
                status: status@,
                reply_identifier: *reply_identifier,
            },
            Call::Repost { dst, target_identifier, created_at } => CallView::Repost {
                dst: *dst,
                target_identifier: *target_identifier,
                created_at: *created_at,
            },
            Call::DeletePost { dst, identifier } => CallView::DeletePost {
                dst: *dst,
                identifier: *identifier,
            },
            Call::DeleteRepost { dst, identifier } => CallView::DeleteRepost {
                dst: *dst,
                identifier: *identifier,
            },
            Call::Skip => CallView::Skip,
        }
    }
}

/// The call for the head of the queue of `s`. A post replies to the mirror of
/// its parent where one is recorded anywhere, and is unthreaded otherwise; a
/// repost needs the mirror of its target; a deletion needs the edge's own
/// record and is skipped without one.
pub open spec fn call_for(s: StoreView) -> Result<CallView, ProcessError>
    recommends
        s.operations.len() > 0,
{
    let op = s.operations[0];
    let dst = op.pair.dst;
    match op.action {
        ActionView::CreatePost(p) => Ok(
            CallView::Post {
                dst: dst,
                status: p,
                reply_identifier: match p.reply_src_identifier {
                    Some(r) => dst_identifier_of(s, r@),
                    None => None,
                },
            },
        ),
        ActionView::CreateRepost(r) => match dst_identifier_of(s, r.target_src_identifier@) {
            Some(t) => Ok(CallView::Repost { dst: dst, target_identifier: t, created_at: r.created_at }),
            None => Err(ProcessError::MissingRepostTarget),
        },
        ActionView::UpdatePost(_) => Ok(CallView::Skip),
        ActionView::DeletePost(d) => match deletion_target(s, op.pair, d.src_identifier@, false) {
            Some(id) => Ok(CallView::DeletePost { dst: dst, identifier: id }),
            None => Ok(CallView::Skip),
        },
        ActionView::DeleteRepost(d) => match deletion_target(s, op.pair, d.src_identifier@, true) {
            Some(id) => Ok(CallView::DeleteRepost { dst: dst, identifier: id }),
            None => Ok(CallView::Skip),
        },
    }
}

/// `s` without the head of its queue.
pub open spec fn dequeued(s: StoreView) -> StoreView {
    StoreView { users: s.users, operations: s.operations.drop_first() }
}

/// `s` with `rec` put first among the records of the edge `pair`.
pub open spec fn with_record(s: StoreView, pair: AccountPair, rec: DestinationStatus) -> StoreView {
    let d = s.dst_entry(pair);
    s.with_dst(
        pair,
        DestinationView { origin: d.origin, identifier: d.identifier, statuses: d.statuses.insert(0, rec) },
    )
}

/// `s` without the edge's record of `src`, where there is one.
pub open spec fn without_record(s: StoreView, pair: AccountPair, src: Seq<char>, repost: bool) -> StoreView {
    let d = s.dst_entry(pair);
    let p = record_pos(d.statuses, src, repost);
    if p < d.statuses.len() {
        s.with_dst(
            pair,
            DestinationView { origin: d.origin, identifier: d.identifier, statuses: d.statuses.remove(p) },
        )
    } else {
        s
    }
}

/// The store once the call for the head of the queue of `s` has succeeded,
/// `created` being the identifier that a creation returned: the head leaves
/// the queue and the edge's records follow. `None` where a creation came back
/// without an identifier.
pub open spec fn applied(s: StoreView, created: Option<String>) -> Option<StoreView>
    recommends
        s.operations.len() > 0,
{
    let op = s.operations[0];
    let rest = dequeued(s);
    match op.action {
        ActionView::CreatePost(p) => match created {
            Some(id) => Some(
                with_record(
                    rest,
                    op.pair,
                    DestinationStatus::Post(MirroredStatus { identifier: id, src_identifier: p.identifier }),
                ),
            ),
            None => None,
        },
        ActionView::CreateRepost(r) => match created {
            Some(id) => Some(
                with_record(
                    rest,
                    op.pair,
                    DestinationStatus::Repost(
                        MirroredStatus { identifier: id, src_identifier: r.src_identifier },
                    ),
                ),
            ),
            None => None,
        },
        ActionView::UpdatePost(_) => Some(rest),
        ActionView::DeletePost(d) => Some(without_record(rest, op.pair, d.src_identifier@, false)),
        ActionView::DeleteRepost(d) => Some(without_record(rest, op.pair, d.src_identifier@, true)),
    }
}

/// Applying the head of the queue keeps a store well formed.
pub proof fn lemma_applied_wf(s: StoreView, created: Option<String>)
    requires
        s.wf(),
        s.operations.len() > 0,
        applied(s, created) is Some,
    ensures
        applied(s, created)->Some_0.wf(),
{
    let op = s.operations[0];
    let rest = dequeued(s);
    let d = rest.dst_entry(op.pair);
    lemma_dst_entry(rest.user_entry(op.pair.src@), op.pair.dst@);
    match op.action {
        ActionView::CreatePost(p) => {
            let rec = DestinationStatus::Post(
                MirroredStatus { identifier: created->Some_0, src_identifier: p.identifier },
            );
            lemma_with_dst_wf(
                rest,
                op.pair,
                DestinationView { origin: d.origin, identifier: d.identifier, statuses: d.statuses.insert(0, rec) },
            );
        },
        ActionView::CreateRepost(r) => {
            let rec = DestinationStatus::Repost(
                MirroredStatus { identifier: created->Some_0, src_identifier: r.src_identifier },
            );
            lemma_with_dst_wf(
                rest,
                op.pair,
                DestinationView { origin: d.origin, identifier: d.identifier, statuses: d.statuses.insert(0, rec) },
            );
        },
        ActionView::UpdatePost(_) => {},
        ActionView::DeletePost(x) => {
            let p = record_pos(d.statuses, x.src_identifier@, false);
            if p < d.statuses.len() {
                lemma_with_dst_wf(
                    rest,
                    op.pair,
                    DestinationView { origin: d.origin, identifier: d.identifier, statuses: d.statuses.remove(p) },
                );
            }
        },
        ActionView::DeleteRepost(x) => {
            let p = record_pos(d.statuses, x.src_identifier@, true);
            if p < d.statuses.len() {
                lemma_with_dst_wf(
                    rest,
                    op.pair,
                    DestinationView { origin: d.origin, identifier: d.identifier, statuses: d.statuses.remove(p) },
                );
            }
        },
    }
}

fn record_position(st: &Vec<DestinationStatus>, src: &String, repost: bool) -> (r: usize)
    ensures
        r == record_pos(st@, src@, repost),
{
    let mut i: usize = 0;
    while i < st.len()
        invariant
            i <= st@.len(),
            record_pos(st@, src@, repost) == record_pos_from(st@, src@, repost, i as int),
        decreases st@.len() - i,
    {
        let hit = match &st[i] {
            DestinationStatus::Post(m) => !repost && m.src_identifier == *src,
            DestinationStatus::Repost(m) => repost && m.src_identifier == *src,
        };
        if hit {
            return i;
        }
        i = i + 1;
    }
    st.len()
}

fn find_deletion_target(store: &Store, pair: &AccountPair, src: &String, repost: bool) -> (r: Option<
    String,
>)
    ensures
        r == deletion_target(store@, *pair, src@, repost),
{
    let ui = store.user_index(&pair.src);
    if ui < store.users.len() {
        let user = &store.users[ui];
        assert(store@.users[ui as int] == user@);
        let di = user.dst_index(&pair.dst);
        if di < user.dsts.len() {
            let st = &user.dsts[di].statuses;
            assert(user@.dsts[di as int] == user.dsts@[di as int]@);
            let p = record_position(st, src, repost);
            if p < st.len() {
                return Some(st[p].mirrored().identifier.clone());
            }
        }
    }
    None
}

/// The call that applies the head of the queue, or why it cannot be made;
/// `None` when nothing is queued.
pub fn next_call(store: &Store) -> (r: Option<Result<Call, ProcessError>>)
    ensures
        r is None <==> store@.operations.len() == 0,
        match r {
            Some(Ok(c)) => call_for(store@) == Ok::<CallView, ProcessError>(c@),
            Some(Err(e)) => call_for(store@) == Err::<CallView, ProcessError>(e),
            None => true,
        },
{
    if store.operations.len() == 0 {
        return None;
    }
    Some(call_for_head(store))
}

fn call_for_head(store: &Store) -> (r: Result<Call, ProcessError>)
    requires
        store@.operations.len() > 0,
    ensures
        match r {
            Ok(c) => call_for(store@) == Ok::<CallView, ProcessError>(c@),
            Err(e) => call_for(store@) == Err::<CallView, ProcessError>(e),
        },
{
    assert(store@.operations[0] == store.operations@[0]@);
    match &store.operations[0] {
        Operation::CreatePost { account_pair, status } => {
            let reply_identifier = match &status.reply_src_identifier {
                Some(parent) => to_dst_identifier(parent, store),
                None => None,
            };
            Ok(Call::Post { dst: account_pair.to_dst_key(), status: status.clone(), reply_identifier })
        },
        Operation::CreateRepost { account_pair, status } => {
            match to_dst_identifier(&status.target_src_identifier, store) {
                Some(target_identifier) => Ok(
                    Call::Repost {
                        dst: account_pair.to_dst_key(),
                        target_identifier,
                        created_at: status.created_at.clone(),
                    },
                ),
                None => Err(ProcessError::MissingRepostTarget),
            }
        },
        Operation::UpdatePost { .. } => Ok(Call::Skip),
        Operation::DeletePost { account_pair, status } => {
            match find_deletion_target(store, account_pair, &status.src_identifier, false) {
                Some(identifier) => Ok(Call::DeletePost { dst: account_pair.to_dst_key(), identifier }),
                None => Ok(Call::Skip),
            }
        },
        Operation::DeleteRepost { account_pair, status } => {
            match find_deletion_target(store, account_pair, &status.src_identifier, true) {
                Some(identifier) => Ok(Call::DeleteRepost { dst: account_pair.to_dst_key(), identifier }),
                None => Ok(Call::Skip),
            }
        },
    }
}

fn remove_record(store: &mut Store, pair: &AccountPair, src: &String, repost: bool)
    ensures
        final(store)@ == without_record(old(store)@, *pair, src@, repost),
{
    let ui = store.user_index(&pair.src);
    if ui < store.users.len() {
        assert(store@.users[ui as int] == store.users@[ui as int]@);
        let di = store.users[ui].dst_index(&pair.dst);
        if di < store.users[ui].dsts.len() {
            assert(store@.users[ui as int].dsts[di as int] == store.users@[ui as int].dsts@[di as int]@);
            let p = record_position(&store.users[ui].dsts[di].statuses, src, repost);
            if p < store.users[ui].dsts[di].statuses.len() {
                let dst = store.get_or_create_dst_mut(pair);
                dst.statuses.remove(p);
            }
        }
    }
}

/// Records that the call for the head of the queue succeeded, `created`
/// being what a creation returned, and only then takes the head off the
/// queue. A creation without an identifier, or an empty queue, changes
/// nothing.
pub fn complete(store: &mut Store, created: Option<String>) -> (r: Result<(), ProcessError>)
    ensures
        old(store)@.operations.len() == 0 ==> r == Err::<(), ProcessError>(
            ProcessError::NothingQueued,
        ) && final(store)@ == old(store)@,
        old(store)@.operations.len() > 0 ==> match applied(old(store)@, created) {
            Some(t) => r is Ok && final(store)@ == t,
            None => r == Err::<(), ProcessError>(ProcessError::MissingIdentifier) && final(store)@
                == old(store)@,
        },
        old(store)@.wf() ==> final(store)@.wf(),
{
    let ghost given = created;
    if store.operations.len() == 0 {
        return Err(ProcessError::NothingQueued);
    }
    assert(store@.operations[0] == store.operations@[0]@);
    let needs_identifier = match &store.operations[0] {
        Operation::CreatePost { .. } => true,
        Operation::CreateRepost { .. } => true,
        _ => false,
    };
    if needs_identifier && created.is_none() {
        return Err(ProcessError::MissingIdentifier);
    }
    let ghost before = store@;
    let op = store.operations.remove(0);
    assert(store@ =~= dequeued(before));
    match op {
        Operation::CreatePost { account_pair, status } => {
            let identifier = created.unwrap();
            let dst = store.get_or_create_dst_mut(&account_pair);
            dst.statuses.insert(
                0,
                DestinationStatus::Post(MirroredStatus { identifier, src_identifier: status.src_identifier }),
            );
        },
        Operation::CreateRepost { account_pair, status } => {
            let identifier = created.unwrap();
            let dst = store.get_or_create_dst_mut(&account_pair);
            dst.statuses.insert(
                0,
                DestinationStatus::Repost(
                    MirroredStatus { identifier, src_identifier: status.src_identifier },
                ),
            );
        },
        Operation::UpdatePost { .. } => {},
        Operation::DeletePost { account_pair, status } => {
            remove_record(store, &account_pair, &status.src_identifier, false);
        },
        Operation::DeleteRepost { account_pair, status } => {
            remove_record(store, &account_pair, &status.src_identifier, true);
        },
    }
    proof {
        if before.wf() {
            lemma_applied_wf(before, given);
        }
    }
    Ok(())
}

/// Whether a run goes on to the next action: not after a cancellation, not
/// past the per-run cap, and not with an empty queue.
pub fn should_continue(store: &Store, applied_in_run: usize, cancelled: bool) -> (r: bool)
    ensures
        r == (!cancelled && applied_in_run < MAX_ACTIONS_PER_RUN && store@.operations.len() > 0),
{
    !cancelled && applied_in_run < MAX_ACTIONS_PER_RUN && store.operations.len() > 0
}

proof fn lemma_record_pos_none(st: Seq<DestinationStatus>, src: Seq<char>, repost: bool, i: int)
    requires
        0 <= i <= st.len(),
        forall|k: int| i <= k < st.len() ==> !records(#[trigger] st[k], src, repost),
    ensures
        record_pos_from(st, src, repost, i) == st.len(),
    decreases st.len() - i,
{
    if i < st.len() {
        lemma_record_pos_none(st, src, repost, i + 1);
    }
}

/// Replaying the deletion of a post that the edge holds no record of asks for
/// no destination call and succeeds, whatever the destination reported; it
/// only takes the deletion off the queue, and every destination keeps its
/// records as they were.
pub proof fn lemma_delete_replay_is_noop(s: StoreView, created: Option<String>)
    requires
        s.operations.len() > 0,
        s.operations[0].action is DeletePost,
        forall|k: int|
            0 <= k < s.dst_entry(s.operations[0].pair).statuses.len() ==> !records(
                #[trigger] s.dst_entry(s.operations[0].pair).statuses[k],
                s.operations[0].action->DeletePost_0.src_identifier@,
                false,
            ),
    ensures
        call_for(s) == Ok::<CallView, ProcessError>(CallView::Skip),
        applied(s, created) == Some(dequeued(s)),
        applied(s, created)->Some_0.users == s.users,
{
    let op = s.operations[0];
    let src = op.action->DeletePost_0.src_identifier@;
    let st = s.dst_entry(op.pair).statuses;
    lemma_record_pos_none(st, src, false, 0);
    assert(dequeued(s).dst_entry(op.pair) == s.dst_entry(op.pair));
}

/// The store after the calls for the head of the queue of `s` succeeded one
/// after another, the `k`-th creation returning `outcomes[k]`; `None` where
/// one of them could not be recorded or the queue ran out.
pub open spec fn run(s: StoreView, outcomes: Seq<Option<String>>) -> Option<StoreView>
    decreases outcomes.len(),
{
    if outcomes.len() == 0 {
        Some(s)
    } else {
        match run(s, outcomes.drop_last()) {
            Some(t) => if t.operations.len() > 0 {
                applied(t, outcomes.last())
            } else {
                None
            },
            None => None,
        }
    }
}

proof fn lemma_applied_dequeues(s: StoreView, created: Option<String>)
    requires
        s.operations.len() > 0,
        applied(s, created) is Some,
    ensures
        applied(s, created)->Some_0.operations == s.operations.drop_first(),
{
}

/// Crash safety of the queue. Each action leaves the queue only in the step
/// that records its confirmed effect: after `n` recorded steps the queue is
/// exactly the original one without its first `n` actions. A store persisted
/// after any step therefore never holds an action whose effect it already
/// records, and still holds, in order, every action whose call had not
/// completed; a step that cannot be recorded changes nothing (see `complete`).
pub proof fn lemma_recorded_steps_leave_the_rest_queued(s: StoreView, outcomes: Seq<Option<String>>)
    requires
        run(s, outcomes) is Some,
    ensures
        outcomes.len() <= s.operations.len(),
        run(s, outcomes)->Some_0.operations == s.operations.subrange(
            outcomes.len() as int,
            s.operations.len() as int,
        ),
    decreases outcomes.len(),
{
    if outcomes.len() == 0 {
        assert(s.operations.subrange(0, s.operations.len() as int) =~= s.operations);
    } else {
        let prev = outcomes.drop_last();
        lemma_recorded_steps_leave_the_rest_queued(s, prev);
        let t = run(s, prev)->Some_0;
        lemma_applied_dequeues(t, outcomes.last());
        assert(s.operations.subrange(prev.len() as int, s.operations.len() as int).drop_first()
            =~= s.operations.subrange(outcomes.len() as int, s.operations.len() as int));
    }
}

} // verus!
