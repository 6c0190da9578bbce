use crate::source::StatusView;
use crate::store::{Destination, DestinationStatus, DestinationView, Store, StoreView, User, UserView};
use vstd::prelude::*;

verus! {

/// The source identifier that a recorded status keeps alive for mirrored
/// posts: a post's own identifier, or the identifier of the item a repost
/// points at (replies may still thread onto it).
pub open spec fn post_ref(s: StatusView) -> Seq<char> {
    match s {
        StatusView::Post(p) => p.identifier@,
        StatusView::Repost(r) => r.target_src_identifier@,
    }
}

/// The identifier of a recorded repost, which keeps its mirrored repost alive.
pub open spec fn repost_ref(s: StatusView) -> Option<Seq<char>> {
    match s {
        StatusView::Post(_) => None,
        StatusView::Repost(r) => Some(r.src_identifier@),
    }
}

/// The post references of a source's statuses, in order.
pub open spec fn post_refs_of(st: Seq<StatusView>) -> Seq<Seq<char>> {
    st.map_values(|s: StatusView| post_ref(s))
}

/// The repost references of a source's statuses, in order.
pub open spec fn repost_refs_of(st: Seq<StatusView>) -> Seq<Seq<char>> {
    st.filter_map(|s: StatusView| repost_ref(s))
}

/// The post references of the first `n` users' sources, user by user.
pub open spec fn post_refs(users: Seq<UserView>, n: int) -> Seq<Seq<char>>
    decreases n,
{
    if n <= 0 {
        Seq::empty()
    } else {
        post_refs(users, n - 1) + post_refs_of(users[n - 1].src.statuses)
    }
}

/// The repost references of the first `n` users' sources, user by user.
pub open spec fn repost_refs(users: Seq<UserView>, n: int) -> Seq<Seq<char>>
    decreases n,
{
    if n <= 0 {
        Seq::empty()
    } else {
        repost_refs(users, n - 1) + repost_refs_of(users[n - 1].src.statuses)
    }
}

pub open spec fn string_views(s: Seq<String>) -> Seq<Seq<char>> {
    s.map_values(|x: String| x@)
}

/// Whether a destination record is still referenced: a mirrored post by a
/// post reference, a mirrored repost by a repost reference.
pub open spec fn is_referenced(
    posts: Seq<Seq<char>>,
    reposts: Seq<Seq<char>>,
    s: DestinationStatus,
) -> bool {
    match s {
        DestinationStatus::Post(m) => posts.contains(m.src_identifier@),
        DestinationStatus::Repost(m) => reposts.contains(m.src_identifier@),
    }
}

/// The records of `st` that are still referenced, in order.
pub open spec fn swept(
    st: Seq<DestinationStatus>,
    posts: Seq<Seq<char>>,
    reposts: Seq<Seq<char>>,
) -> Seq<DestinationStatus> {
    st.filter(|s: DestinationStatus| is_referenced(posts, reposts, s))
}

pub open spec fn swept_dst(
    d: DestinationView,
    posts: Seq<Seq<char>>,
    reposts: Seq<Seq<char>>,
) -> DestinationView {
    DestinationView {
        origin: d.origin,
        identifier: d.identifier,
        statuses: swept(d.statuses, posts, reposts),
    }
}

pub open spec fn swept_user(u: UserView, posts: Seq<Seq<char>>, reposts: Seq<Seq<char>>) -> UserView {
    UserView { src: u.src, dsts: u.dsts.map_values(|d: DestinationView| swept_dst(d, posts, reposts)) }
}

/// The store after a sweep: every destination keeps only the records that
/// the users' current source statuses reference.
pub open spec fn swept_store(s: StoreView) -> StoreView {
    let posts = post_refs(s.users, s.users.len() as int);
    let reposts = repost_refs(s.users, s.users.len() as int);
    StoreView {
        users: s.users.map_values(|u: UserView| swept_user(u, posts, reposts)),
        operations: s.operations,
    }
}

/// The identifiers that the users' source statuses reference for mirrored
/// posts: each post's own, and each repost's target.
pub fn necessary_post_src_identifiers(users: &Vec<User>) -> (r: Vec<String>)
    ensures
        string_views(r@) == post_refs(crate::store::user_views(users@), users@.len() as int),
{
    let ghost uv = crate::store::user_views(users@);
    let mut ids: Vec<String> = Vec::new();
    let mut i: usize = 0;
    while i < users.len()
        invariant
            i <= users@.len(),
            uv == crate::store::user_views(users@),
            string_views(ids@) =~= post_refs(uv, i as int),
        decreases users@.len() - i,
    {
        let statuses = &users[i].src.statuses;
        let ghost sv = uv[i as int].src.statuses;
        assert(sv == crate::store::source_views(statuses@));
        let mut j: usize = 0;
        while j < statuses.len()
            invariant
                i < users@.len(),
                j <= statuses@.len(),
                sv == crate::store::source_views(statuses@),
                string_views(ids@) =~= post_refs(uv, i as int) + post_refs_of(sv.subrange(0, j as int)),
            decreases statuses@.len() - j,
        {
            assert(sv[j as int] == statuses@[j as int]@);
            let id = match &statuses[j] {
                crate::store::SourceStatus::Post(p) => p.identifier.clone(),
                crate::store::SourceStatus::Repost(r) => r.target_src_identifier.clone(),
            };
            let ghost prev = string_views(ids@);
            ids.push(id);
            assert(string_views(ids@) =~= prev.push(post_ref(sv[j as int])));
            assert(post_refs_of(sv.subrange(0, j as int + 1)) =~= post_refs_of(sv.subrange(0, j as int)).push(
                post_ref(sv[j as int]),
            ));
            j = j + 1;
        }
        assert(sv.subrange(0, statuses@.len() as int) =~= sv);
        i = i + 1;
    }
    ids
}

/// The identifiers of the reposts among the users' source statuses.
pub fn necessary_repost_src_identifiers(users: &Vec<User>) -> (r: Vec<String>)
    ensures
        string_views(r@) == repost_refs(crate::store::user_views(users@), users@.len() as int),
{
    let ghost uv = crate::store::user_views(users@);
    let mut ids: Vec<String> = Vec::new();
    let mut i: usize = 0;
    while i < users.len()
        invariant
            i <= users@.len(),
            uv == crate::store::user_views(users@),
            string_views(ids@) =~= repost_refs(uv, i as int),
        decreases users@.len() - i,
    {
        let statuses = &users[i].src.statuses;
        let ghost sv = uv[i as int].src.statuses;
        assert(sv == crate::store::source_views(statuses@));
        let mut j: usize = 0;
        while j < statuses.len()
            invariant
                i < users@.len(),
                j <= statuses@.len(),
                sv == crate::store::source_views(statuses@),
                string_views(ids@) =~= repost_refs(uv, i as int) + repost_refs_of(sv.subrange(0, j as int)),
            decreases statuses@.len() - j,
        {
            assert(sv[j as int] == statuses@[j as int]@);
            assert(sv.subrange(0, j as int + 1).drop_last() =~= sv.subrange(0, j as int));
            match &statuses[j] {
                crate::store::SourceStatus::Post(_) => {},
                crate::store::SourceStatus::Repost(r) => {
                    let ghost prev = string_views(ids@);
                    ids.push(r.src_identifier.clone());
                    assert(string_views(ids@) =~= prev.push(r.src_identifier@));
                },
            }
            j = j + 1;
        }
        assert(sv.subrange(0, statuses@.len() as int) =~= sv);
        i = i + 1;
    }
    ids
}

proof fn lemma_swept_push(
    st: Seq<DestinationStatus>,
    x: DestinationStatus,
    posts: Seq<Seq<char>>,
    reposts: Seq<Seq<char>>,
)
    ensures
        swept(st.push(x), posts, reposts) == if is_referenced(posts, reposts, x) {
            swept(st, posts, reposts).push(x)
        } else {
            swept(st, posts, reposts)
        },
{
    reveal(Seq::filter);
    assert(st.push(x).drop_last() =~= st);
}

fn contains_id(ids: &Vec<String>, id: &String) -> (r: bool)
    ensures
        r == string_views(ids@).contains(id@),
{
    let mut i: usize = 0;
    while i < ids.len()
        invariant
            i <= ids@.len(),
            forall|j: int| 0 <= j < i ==> #[trigger] string_views(ids@)[j] != id@,
        decreases ids@.len() - i,
    {
        assert(string_views(ids@)[i as int] == ids@[i as int]@);
        if ids[i] == *id {
            return true;
        }
        i = i + 1;
    }
    false
}

fn is_referenced_exec(posts: &Vec<String>, reposts: &Vec<String>, s: &DestinationStatus) -> (r: bool)
    ensures
        r == is_referenced(string_views(posts@), string_views(reposts@), *s),
{
    match s {
        DestinationStatus::Post(m) => contains_id(posts, &m.src_identifier),
        DestinationStatus::Repost(m) => contains_id(reposts, &m.src_identifier),
    }
}

/// Drops the records of `dst` that are no longer referenced; says whether
/// any was dropped.
fn sweep_destination(dst: &mut Destination, posts: &Vec<String>, reposts: &Vec<String>) -> (changed:
    bool)
    ensures
        final(dst)@ == swept_dst(old(dst)@, string_views(posts@), string_views(reposts@)),
        changed == (final(dst)@ != old(dst)@),
{
    let ghost pv = string_views(posts@);
    let ghost rv = string_views(reposts@);
    let ghost st = old(dst)@.statuses;
    let mut kept: Vec<DestinationStatus> = Vec::new();
    let mut changed = false;
    let mut i: usize = 0;
    while i < dst.statuses.len()
        invariant
            *dst == *old(dst),
            st == dst.statuses@,
            pv == string_views(posts@),
            rv == string_views(reposts@),
            i <= st.len(),
            kept@ == swept(st.subrange(0, i as int), pv, rv),
            kept@.len() <= i,
            changed == (kept@.len() < i),
            !changed ==> kept@ == st.subrange(0, i as int),
        decreases st.len() - i,
    {
        proof {
            assert(st.subrange(0, i as int + 1) =~= st.subrange(0, i as int).push(st[i as int]));
            lemma_swept_push(st.subrange(0, i as int), st[i as int], pv, rv);
        }
        if is_referenced_exec(posts, reposts, &dst.statuses[i]) {
            kept.push(dst.statuses[i].clone());
        } else {
            changed = true;
        }
        i = i + 1;
    }
    proof {
        assert(st.subrange(0, st.len() as int) =~= st);
    }
    dst.statuses = kept;
    changed
}

/// Sweeps every destination of `user`; says whether any record was dropped.
fn sweep_user(user: &mut User, posts: &Vec<String>, reposts: &Vec<String>) -> (changed: bool)
    ensures
        final(user)@ =~= swept_user(old(user)@, string_views(posts@), string_views(reposts@)),
        changed == (final(user)@ != old(user)@),
{
    let ghost pv = string_views(posts@);
    let ghost rv = string_views(reposts@);
    let ghost before = old(user)@;
    let mut changed = false;
    let mut d: usize = 0;
    while d < user.dsts.len()
        invariant
            before == old(user)@,
            pv == string_views(posts@),
            rv == string_views(reposts@),
            user@.src == before.src,
            user@.dsts.len() == before.dsts.len(),
            d <= before.dsts.len(),
            forall|k: int| 0 <= k < d ==> #[trigger] user@.dsts[k] == swept_dst(before.dsts[k], pv, rv),
            forall|k: int| d <= k < before.dsts.len() ==> #[trigger] user@.dsts[k] == before.dsts[k],
            changed == exists|k: int| 0 <= k < d && #[trigger] swept_dst(before.dsts[k], pv, rv) != before.dsts[k],
        decreases before.dsts.len() - d,
    {
        let ghost prev = user.dsts@;
        assert(crate::store::dst_views(prev)[d as int] == prev[d as int]@);
        assert(prev[d as int]@ == before.dsts[d as int]);
        let c = sweep_destination(&mut user.dsts[d], posts, reposts);
        proof {
            assert(crate::store::dst_views(user.dsts@)[d as int] == user.dsts@[d as int]@);
            assert(user.dsts@ == prev.update(d as int, user.dsts@[d as int]));
            assert(user@.dsts[d as int] == swept_dst(before.dsts[d as int], pv, rv));
            assert(user@.dsts =~= crate::store::dst_views(prev).update(
                d as int,
                swept_dst(before.dsts[d as int], pv, rv),
            ));
            if c {
                assert(swept_dst(before.dsts[d as int], pv, rv) != before.dsts[d as int]);
            }
        }
        changed = changed || c;
        d = d + 1;
    }
    proof {
        if !changed {
            assert(user@.dsts =~= before.dsts);
            assert(user@ =~= before);
        } else {
            let k = choose|k: int| 0 <= k < d && #[trigger] swept_dst(before.dsts[k], pv, rv) != before.dsts[k];
            assert(user@.dsts[k] != before.dsts[k]);
        }
        assert(user@.dsts =~= swept_user(before, pv, rv).dsts);
    }
    changed
}

proof fn lemma_sweep_keeps_keys(s: StoreView, pv: Seq<Seq<char>>, rv: Seq<Seq<char>>)
    ensures
        s.wf() ==> (StoreView {
            users: s.users.map_values(|u: UserView| swept_user(u, pv, rv)),
            operations: s.operations,
        }).wf(),
{
    let t = s.users.map_values(|u: UserView| swept_user(u, pv, rv));
    if s.wf() {
        assert forall|i: int, j: int|
            0 <= i < t.len() && 0 <= j < t.len() && i != j implies (#[trigger] t[i]).src.key() != (
            #[trigger] t[j]).src.key() by {
            assert(t[i].src == s.users[i].src);
            assert(t[j].src == s.users[j].src);
            assert(s.users[i].src.key() != s.users[j].src.key());
        }
        assert forall|i: int| 0 <= i < t.len() implies crate::store::unique_dsts(#[trigger] t[i].dsts) by {
            let ds = t[i].dsts;
            let od = s.users[i].dsts;
            assert(crate::store::unique_dsts(od));
            assert forall|a: int, b: int|
                0 <= a < ds.len() && 0 <= b < ds.len() && a != b implies (#[trigger] ds[a]).key() != (
                #[trigger] ds[b]).key() by {
                assert(ds[a].key() == od[a].key());
                assert(ds[b].key() == od[b].key());
                assert(od[a].key() != od[b].key());
            }
        }
    }
}

/// Removes every destination record that the users' current source statuses
/// no longer reference (see `swept_store`), and says whether any was
/// removed, that is whether the store needs to be persisted.
pub fn retain_all_dst_statuses(store: &mut Store) -> (removed: bool)
    ensures
        final(store)@ =~= swept_store(old(store)@),
        removed == (final(store)@ != old(store)@),
        old(store)@.wf() ==> final(store)@.wf(),
{
    let posts = necessary_post_src_identifiers(&store.users);
    let reposts = necessary_repost_src_identifiers(&store.users);
    let ghost pv = string_views(posts@);
    let ghost rv = string_views(reposts@);
    let ghost before = old(store)@;
    let mut removed = false;
    let mut i: usize = 0;
    while i < store.users.len()
        invariant
            before == old(store)@,
            pv == post_refs(before.users, before.users.len() as int),
            rv == repost_refs(before.users, before.users.len() as int),
            pv == string_views(posts@),
            rv == string_views(reposts@),
            store@.operations == before.operations,
            store@.users.len() == before.users.len(),
            i <= before.users.len(),
            forall|k: int| 0 <= k < i ==> #[trigger] store@.users[k] == swept_user(before.users[k], pv, rv),
            forall|k: int| i <= k < before.users.len() ==> #[trigger] store@.users[k] == before.users[k],
            removed == exists|k: int| 0 <= k < i && #[trigger] swept_user(before.users[k], pv, rv) != before.users[k],
        decreases before.users.len() - i,
    {
        let ghost prev = store.users@;
        assert(crate::store::user_views(prev)[i as int] == prev[i as int]@);
        assert(prev[i as int]@ == before.users[i as int]);
        let c = sweep_user(&mut store.users[i], &posts, &reposts);
        proof {
            assert(crate::store::user_views(store.users@)[i as int] == store.users@[i as int]@);
            assert(store.users@ == prev.update(i as int, store.users@[i as int]));
            assert(store@.users[i as int] == swept_user(before.users[i as int], pv, rv));
            assert(store@.users =~= crate::store::user_views(prev).update(
                i as int,
                swept_user(before.users[i as int], pv, rv),
            ));
            if c {
                assert(swept_user(before.users[i as int], pv, rv) != before.users[i as int]);
            }
        }
        removed = removed || c;
        i = i + 1;
    }
    proof {
        lemma_sweep_keeps_keys(before, pv, rv);
        if !removed {
            assert(store@.users =~= before.users);
            assert(store@ =~= before);
        } else {
            let k = choose|k: int| 0 <= k < i && #[trigger] swept_user(before.users[k], pv, rv) != before.users[k];
            assert(store@.users[k] != before.users[k]);
        }
        assert(store@.users =~= swept_store(before).users);
    }
    removed
}

proof fn lemma_refs_depend_on_sources(a: Seq<UserView>, b: Seq<UserView>, n: int)
    requires
        a.len() == b.len(),
        0 <= n <= a.len(),
        forall|i: int| 0 <= i < a.len() ==> #[trigger] a[i].src == b[i].src,
    ensures
        post_refs(a, n) == post_refs(b, n),
        repost_refs(a, n) == repost_refs(b, n),
    decreases n,
{
    if n > 0 {
        lemma_refs_depend_on_sources(a, b, n - 1);
        assert(a[n - 1].src == b[n - 1].src);
    }
}

/// After a sweep, every record left on a destination is referenced by the
/// store's current source statuses: a mirrored post's source identifier is
/// among the post references (a post's own identifier or a repost's target),
/// a mirrored repost's among the identifiers of the reposts.
pub proof fn lemma_sweep_leaves_only_referenced(s: StoreView)
    ensures
        forall|u: int, d: int, k: int|
            0 <= u < swept_store(s).users.len() && 0 <= d < swept_store(s).users[u].dsts.len() && 0
                <= k < swept_store(s).users[u].dsts[d].statuses.len() ==> is_referenced(
                post_refs(swept_store(s).users, swept_store(s).users.len() as int),
                repost_refs(swept_store(s).users, swept_store(s).users.len() as int),
                #[trigger] swept_store(s).users[u].dsts[d].statuses[k],
            ),
{
    let t = swept_store(s);
    let pv = post_refs(s.users, s.users.len() as int);
    let rv = repost_refs(s.users, s.users.len() as int);
    assert forall|i: int| 0 <= i < t.users.len() implies #[trigger] t.users[i].src == s.users[i].src by {
        assert(t.users[i] == swept_user(s.users[i], pv, rv));
    }
    lemma_refs_depend_on_sources(t.users, s.users, s.users.len() as int);
    assert forall|u: int, d: int, k: int|
        0 <= u < t.users.len() && 0 <= d < t.users[u].dsts.len() && 0 <= k < t.users[u].dsts[
            d
        ].statuses.len() implies is_referenced(
        post_refs(t.users, t.users.len() as int),
        repost_refs(t.users, t.users.len() as int),
        #[trigger] t.users[u].dsts[d].statuses[k],
    ) by {
        let dv = s.users[u].dsts[d];
        assert(t.users[u] == swept_user(s.users[u], pv, rv));
        assert(t.users[u].dsts[d] == swept_dst(dv, pv, rv));
        dv.statuses.filter_lemma(|x: DestinationStatus| is_referenced(pv, rv, x));
    }
}

} // verus!
