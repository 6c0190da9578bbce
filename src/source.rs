use crate::account::{AccountKey, AccountPair};
use crate::merge::{fan_out, merge_operations};
use crate::reconcile::{action_views, reconcile, reconciled_actions};
use crate::store::{lemma_user_entry, lemma_with_user_wf, SourceView, Store, StoreView, UserView};
use crate::operations::{
    ActionView, CreatePostOperationStatus, CreateRepostOperationStatus, DeletePostOperationStatus,
    DeleteRepostOperationStatus, External, Facet, Medium, OperationView, PostView,
    UpdatePostOperationStatus,
};
use crate::operations;
use vstd::prelude::*;

verus! {

/// The link preview of a fetched post: known, known to be absent, or not yet
/// looked up.
#[derive(Debug)]
pub enum LiveExternal {
    Known(External),
    Absent,
    Unknown,
}

impl Clone for LiveExternal {
    fn clone(&self) -> (r: Self)
        ensures
            r == *self,
    {
        match self {
            LiveExternal::Known(e) => LiveExternal::Known(e.clone()),
            LiveExternal::Absent => LiveExternal::Absent,
            LiveExternal::Unknown => LiveExternal::Unknown,
        }
    }
}

/// A post as fetched from the source feed.
#[derive(Debug)]
pub struct LivePost {
    pub identifier: String,
    pub uri: String,
    pub content: String,
    pub facets: Vec<Facet>,
    pub reply_src_identifier: Option<String>,
    pub media: Vec<Medium>,
    pub external: LiveExternal,
    pub created_at: String,
}

impl View for LivePost {
    type V = PostView;

    open spec fn view(&self) -> PostView {
        PostView {
            identifier: self.identifier,
            uri: self.uri,
            content: self.content,
            facets: self.facets@,
            reply_src_identifier: self.reply_src_identifier,
            media: self.media@,
            external: self.external,
            created_at: self.created_at,
        }
    }
}

impl Clone for LivePost {
    fn clone(&self) -> (r: Self)
        ensures
            r@ == self@,
    {
        let facets = self.facets.clone();
        let media = self.media.clone();
        proof {
            assert(facets@ =~= self.facets@);
            assert(media@ =~= self.media@);
        }
        LivePost {
            identifier: self.identifier.clone(),
            uri: self.uri.clone(),
            content: self.content.clone(),
            facets,
            reply_src_identifier: self.reply_src_identifier.clone(),
            media,
            external: self.external.clone(),
            created_at: self.created_at.clone(),
        }
    }
}

impl LivePost {
    /// The action that mirrors this post: its content, annotations, reply
    /// parent, media, preview and creation time, unchanged.
    pub fn to_create_status(&self) -> (r: CreatePostOperationStatus)
        ensures
            r@ == self@,
    {
        let facets = self.facets.clone();
        let media = self.media.clone();
        proof {
            assert(facets@ =~= self.facets@);
            assert(media@ =~= self.media@);
        }
        CreatePostOperationStatus {
            src_identifier: self.identifier.clone(),
            src_uri: self.uri.clone(),
            content: self.content.clone(),
            facets,
            reply_src_identifier: self.reply_src_identifier.clone(),
            media,
            external: self.external.clone(),
            created_at: self.created_at.clone(),
        }
    }
}

/// A status of the source feed, with its lists as sequences; the recorded
/// snapshot has the same view as the fetch it was taken from.
pub enum StatusView {
    Post(PostView),
    Repost(CreateRepostOperationStatus),
}

impl StatusView {
    /// The status's own identifier in the source feed.
    pub open spec fn identifier(self) -> Seq<char> {
        match self {
            StatusView::Post(p) => p.identifier@,
            StatusView::Repost(r) => r.src_identifier@,
        }
    }
}

/// A status as fetched from the source feed.
#[derive(Debug)]
pub enum LiveStatus {
    Post(LivePost),
    Repost(CreateRepostOperationStatus),
}

impl View for LiveStatus {
    type V = StatusView;

    open spec fn view(&self) -> StatusView {
        match self {
            LiveStatus::Post(p) => StatusView::Post(p@),
            LiveStatus::Repost(r) => StatusView::Repost(*r),
        }
    }
}

impl Clone for LiveStatus {
    fn clone(&self) -> (r: Self)
        ensures
            r@ == self@,
    {
        match self {
            LiveStatus::Post(p) => LiveStatus::Post(p.clone()),
            LiveStatus::Repost(r) => LiveStatus::Repost(r.clone()),
        }
    }
}

impl LiveStatus {
    pub fn created_at(&self) -> (r: &String)
        ensures
            *r == match self@ {
                StatusView::Post(p) => p.created_at,
                StatusView::Repost(q) => q.created_at,
            },
    {
        match self {
            LiveStatus::Post(p) => &p.created_at,
            LiveStatus::Repost(r) => &r.created_at,
        }
    }

    pub fn identifier(&self) -> (r: &String)
        ensures
            r@ == self@.identifier(),
    {
        match self {
            LiveStatus::Post(p) => &p.identifier,
            LiveStatus::Repost(r) => &r.src_identifier,
        }
    }
}

/// The views of a sequence of fetched statuses.
pub open spec fn live_views(s: Seq<LiveStatus>) -> Seq<StatusView> {
    s.map_values(|x: LiveStatus| x@)
}

/// A source-level action, not yet stamped with an edge.
#[derive(Debug)]
pub enum Operation {
    CreatePost(CreatePostOperationStatus),
    CreateRepost(CreateRepostOperationStatus),
    UpdatePost(UpdatePostOperationStatus),
    DeletePost(DeletePostOperationStatus),
    DeleteRepost(DeleteRepostOperationStatus),
}

impl View for Operation {
    type V = ActionView;

    open spec fn view(&self) -> ActionView {
        match self {
            Operation::CreatePost(s) => ActionView::CreatePost(s@),
            Operation::CreateRepost(s) => ActionView::CreateRepost(*s),
            Operation::UpdatePost(s) => ActionView::UpdatePost(s@),
            Operation::DeletePost(s) => ActionView::DeletePost(*s),
            Operation::DeleteRepost(s) => ActionView::DeleteRepost(*s),
        }
    }
}

impl Operation {
    /// This action, stamped with `account_pair`.
    pub fn to_store(&self, account_pair: AccountPair) -> (r: operations::Operation)
        ensures
            r@ == (OperationView { pair: account_pair, action: self@ }),
    {
        match self {
            Operation::CreatePost(status) => operations::Operation::CreatePost {
                account_pair,
                status: status.clone(),
            },
            Operation::CreateRepost(status) => operations::Operation::CreateRepost {
                account_pair,
                status: status.clone(),
            },
            Operation::UpdatePost(status) => operations::Operation::UpdatePost {
                account_pair,
                status: status.clone(),
            },
            Operation::DeletePost(status) => operations::Operation::DeletePost {
                account_pair,
                status: status.clone(),
            },
            Operation::DeleteRepost(status) => operations::Operation::DeleteRepost {
                account_pair,
                status: status.clone(),
            },
        }
    }
}

/// `s` once a fetch of the source keyed `key` gave `live`: the user (created
/// where missing) records `live` as its snapshot, and the queue gains the
/// reconciled actions for every destination in `dsts`.
pub open spec fn after_fetch(s: StoreView, key: AccountKey, dsts: Seq<AccountKey>, live: Seq<StatusView>) -> StoreView {
    let u = s.user_entry(key@);
    let acts = reconciled_actions(live, u.src.statuses);
    let updated = UserView {
        src: SourceView {
            origin: u.src.origin,
            identifier: u.src.identifier,
            session: u.src.session,
            statuses: live,
        },
        dsts: u.dsts,
    };
    StoreView {
        users: s.with_user(key@, updated).users,
        operations: s.operations + fan_out(key, dsts, acts, dsts.len() as int),
    }
}

/// Takes in one fetch of the source keyed `src_account_key`: reconciles
/// `live` against the recorded snapshot, replaces the snapshot with `live`,
/// and queues the resulting actions for every destination in
/// `dst_account_keys`. Returns the source-level actions.
pub fn record_fetch(
    store: &mut Store,
    src_account_key: &AccountKey,
    dst_account_keys: &Vec<AccountKey>,
    live: &Vec<LiveStatus>,
) -> (r: Vec<Operation>)
    ensures
        final(store)@ == after_fetch(old(store)@, *src_account_key, dst_account_keys@, live_views(live@)),
        action_views(r@) == reconciled_actions(
            live_views(live@),
            old(store)@.user_entry(src_account_key@).src.statuses,
        ),
        old(store)@.wf() ==> final(store)@.wf(),
{
    proof {
        let s = old(store)@;
        let u = s.user_entry(src_account_key@);
        lemma_user_entry(s, src_account_key@);
        if s.wf() {
            lemma_with_user_wf(
                s,
                src_account_key@,
                UserView {
                    src: SourceView {
                        origin: u.src.origin,
                        identifier: u.src.identifier,
                        session: u.src.session,
                        statuses: live_views(live@),
                    },
                    dsts: u.dsts,
                },
            );
        }
    }
    let user = store.get_or_create_user_mut(src_account_key);
    let (statuses, ops) = reconcile(live, &user.src.statuses);
    user.src.statuses = statuses;
    merge_operations(store, dst_account_keys, src_account_key, &ops);
    ops
}

} // verus!
