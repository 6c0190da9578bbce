use crate::account::AccountPair;
use crate::source::LiveExternal;
use vstd::prelude::*;

verus! {

/// A link annotation over the byte range `byte_start..byte_end` of a post's
/// content.
#[derive(Debug)]
pub struct Facet {
    pub byte_start: u32,
    pub byte_end: u32,
    pub uri: String,
}

impl Clone for Facet {
    fn clone(&self) -> (r: Self)
        ensures
            r == *self,
    {
        Facet { byte_start: self.byte_start, byte_end: self.byte_end, uri: self.uri.clone() }
    }
}

/// An attached image: where to fetch it and its alternative text.
#[derive(Debug)]
pub struct Medium {
    pub url: String,
    pub alt: String,
}

impl Clone for Medium {
    fn clone(&self) -> (r: Self)
        ensures
            r == *self,
    {
        Medium { url: self.url.clone(), alt: self.alt.clone() }
    }
}

/// A link preview card.
#[derive(Debug)]
pub struct External {
    pub uri: String,
    pub title: String,
    pub description: String,
    pub thumb_url: Option<String>,
}

impl Clone for External {
    fn clone(&self) -> (r: Self)
        ensures
            r == *self,
    {
        External {
            uri: self.uri.clone(),
            title: self.title.clone(),
            description: self.description.clone(),
            thumb_url: self.thumb_url.clone(),
        }
    }
}

/// What a post is, with its lists as sequences. The fields are those of
/// `CreatePostOperationStatus`; a fetched post has the same view.
pub struct PostView {
    pub identifier: String,
    pub uri: String,
    pub content: String,
    pub facets: Seq<Facet>,
    pub reply_src_identifier: Option<String>,
    pub media: Seq<Medium>,
    pub external: LiveExternal,
    pub created_at: String,
}

/// What a new post carries to its destinations. `created_at` is the source's
/// creation time as RFC 3339 text, kept so that destinations can show posts in
/// the source's order.
#[derive(Debug)]
pub struct CreatePostOperationStatus {
    pub src_identifier: String,
    pub src_uri: String,
    pub content: String,
    pub facets: Vec<Facet>,
    pub reply_src_identifier: Option<String>,
    pub media: Vec<Medium>,
    pub external: LiveExternal,
    pub created_at: String,
}

impl View for CreatePostOperationStatus {
    type V = PostView;

    open spec fn view(&self) -> PostView {
        PostView {
            identifier: self.src_identifier,
            uri: self.src_uri,
            content: self.content,
            facets: self.facets@,
            reply_src_identifier: self.reply_src_identifier,
            media: self.media@,
            external: self.external,
            created_at: self.created_at,
        }
    }
}

impl Clone for CreatePostOperationStatus {
    fn clone(&self) -> (r: Self)
        ensures
            r@ == self@,
    {
        let facets = self.facets.clone();
        let media = self.media.clone();
        proof {
            assert(facets@ =~= self.facets@);
            assert(media@ =~= self.media@);
        }
        CreatePostOperationStatus {
            src_identifier: self.src_identifier.clone(),
            src_uri: self.src_uri.clone(),
            content: self.content.clone(),
            facets,
            reply_src_identifier: self.reply_src_identifier.clone(),
            media,
            external: self.external.clone(),
            created_at: self.created_at.clone(),
        }
    }
}

/// A repost seen in the source feed: its own identifier and the item it
/// reposts.
#[derive(Debug)]
pub struct CreateRepostOperationStatus {
    pub src_identifier: String,
    pub target_src_identifier: String,
    pub target_src_uri: String,
    pub created_at: String,
}

impl Clone for CreateRepostOperationStatus {
    fn clone(&self) -> (r: Self)
        ensures
            r == *self,
    {
        CreateRepostOperationStatus {
            src_identifier: self.src_identifier.clone(),
            target_src_identifier: self.target_src_identifier.clone(),
            target_src_uri: self.target_src_uri.clone(),
            created_at: self.created_at.clone(),
        }
    }
}

/// What an edit carries, with its annotations as a sequence.
pub struct UpdateView {
    pub src_identifier: String,
    pub content: String,
    pub facets: Seq<Facet>,
}

/// An edit of a post's content; recognized, never produced nor applied.
#[derive(Debug)]
pub struct UpdatePostOperationStatus {
    pub src_identifier: String,
    pub content: String,
    pub facets: Vec<Facet>,
}

impl View for UpdatePostOperationStatus {
    type V = UpdateView;

    open spec fn view(&self) -> UpdateView {
        UpdateView { src_identifier: self.src_identifier, content: self.content, facets: self.facets@ }
    }
}

impl Clone for UpdatePostOperationStatus {
    fn clone(&self) -> (r: Self)
        ensures
            r@ == self@,
    {
        let facets = self.facets.clone();
        proof {
            assert(facets@ =~= self.facets@);
        }
        UpdatePostOperationStatus {
            src_identifier: self.src_identifier.clone(),
            content: self.content.clone(),
            facets,
        }
    }
}

/// The removal of a post from the source feed.
#[derive(Debug)]
pub struct DeletePostOperationStatus {
    pub src_identifier: String,
}

impl Clone for DeletePostOperationStatus {
    fn clone(&self) -> (r: Self)
        ensures
            r == *self,
    {
        DeletePostOperationStatus { src_identifier: self.src_identifier.clone() }
    }
}

/// The removal of a repost from the source feed.
#[derive(Debug)]
pub struct DeleteRepostOperationStatus {
    pub src_identifier: String,
}

impl Clone for DeleteRepostOperationStatus {
    fn clone(&self) -> (r: Self)
        ensures
            r == *self,
    {
        DeleteRepostOperationStatus { src_identifier: self.src_identifier.clone() }
    }
}

/// A source-level change, before it is stamped with an edge.
pub enum ActionView {
    CreatePost(PostView),
    CreateRepost(CreateRepostOperationStatus),
    UpdatePost(UpdateView),
    DeletePost(DeletePostOperationStatus),
    DeleteRepost(DeleteRepostOperationStatus),
}

/// A queued action: the edge and the change.
pub struct OperationView {
    pub pair: AccountPair,
    pub action: ActionView,
}

/// A queued action: one source-level change, stamped with the edge it is to
/// be applied on.
#[derive(Debug)]
#[allow(inconsistent_fields)]
pub enum Operation {
    CreatePost { account_pair: AccountPair, status: CreatePostOperationStatus },
    CreateRepost { account_pair: AccountPair, status: CreateRepostOperationStatus },
    UpdatePost { account_pair: AccountPair, status: UpdatePostOperationStatus },
    DeletePost { account_pair: AccountPair, status: DeletePostOperationStatus },
    DeleteRepost { account_pair: AccountPair, status: DeleteRepostOperationStatus },
}

impl View for Operation {
    type V = OperationView;

    open spec fn view(&self) -> OperationView {
        match self {
            Operation::CreatePost { account_pair, status } => OperationView {
                pair: *account_pair,
                action: ActionView::CreatePost(status@),
            },
            Operation::CreateRepost { account_pair, status } => OperationView {
                pair: *account_pair,
                action: ActionView::CreateRepost(*status),
            },
            Operation::UpdatePost { account_pair, status } => OperationView {
                pair: *account_pair,
                action: ActionView::UpdatePost(status@),
            },
            Operation::DeletePost { account_pair, status } => OperationView {
                pair: *account_pair,
                action: ActionView::DeletePost(*status),
            },
            Operation::DeleteRepost { account_pair, status } => OperationView {
                pair: *account_pair,
                action: ActionView::DeleteRepost(*status),
            },
        }
    }
}

impl Clone for Operation {
    fn clone(&self) -> (r: Self)
        ensures
            r@ == self@,
    {
        match self {
            Operation::CreatePost { account_pair, status } => Operation::CreatePost {
                account_pair: account_pair.clone(),
                status: status.clone(),
            },
            Operation::CreateRepost { account_pair, status } => Operation::CreateRepost {
                account_pair: account_pair.clone(),
                status: status.clone(),
            },
            Operation::UpdatePost { account_pair, status } => Operation::UpdatePost {
                account_pair: account_pair.clone(),
                status: status.clone(),
            },
            Operation::DeletePost { account_pair, status } => Operation::DeletePost {
                account_pair: account_pair.clone(),
                status: status.clone(),
            },
            Operation::DeleteRepost { account_pair, status } => Operation::DeleteRepost {
                account_pair: account_pair.clone(),
                status: status.clone(),
            },
        }
    }
}

impl Operation {
    pub fn account_pair(&self) -> (r: &AccountPair)
        ensures
            *r == self@.pair,
    {
        match self {
            Operation::CreatePost { account_pair, .. } => account_pair,
            Operation::CreateRepost { account_pair, .. } => account_pair,
            Operation::UpdatePost { account_pair, .. } => account_pair,
            Operation::DeletePost { account_pair, .. } => account_pair,
            Operation::DeleteRepost { account_pair, .. } => account_pair,
        }
    }
}

} // verus!
