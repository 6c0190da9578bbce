use crate::account::{AccountKey, AccountPair, KeyView};
use crate::operations::{CreateRepostOperationStatus, Operation, OperationView};
use crate::source::{LivePost, LiveStatus, StatusView};
use vstd::prelude::*;

verus! {

/// A recorded snapshot of one item last seen in the source feed.
#[derive(Debug)]
pub enum SourceStatus {
    Post(LivePost),
    Repost(CreateRepostOperationStatus),
}

impl View for SourceStatus {
    type V = StatusView;

    open spec fn view(&self) -> StatusView {
        match self {
            SourceStatus::Post(p) => StatusView::Post(p@),
            SourceStatus::Repost(r) => StatusView::Repost(*r),
        }
    }
}

impl Clone for SourceStatus {
    fn clone(&self) -> (r: Self)
        ensures
            r@ == self@,
    {
        match self {
            SourceStatus::Post(p) => SourceStatus::Post(p.clone()),
            SourceStatus::Repost(r) => SourceStatus::Repost(r.clone()),
        }
    }
}

impl SourceStatus {
    /// The record of a fetched status, as it was fetched.
    pub fn from_live(live: &LiveStatus) -> (r: SourceStatus)
        ensures
            r@ == live@,
    {
        match live {
            LiveStatus::Post(p) => SourceStatus::Post(p.clone()),
            LiveStatus::Repost(r) => SourceStatus::Repost(r.clone()),
        }
    }

    pub fn identifier(&self) -> (r: &String)
        ensures
            r@ == self@.identifier(),
    {
        match self {
            SourceStatus::Post(p) => &p.identifier,
            SourceStatus::Repost(r) => &r.src_identifier,
        }
    }
}

/// The views of a sequence of recorded statuses.
pub open spec fn source_views(s: Seq<SourceStatus>) -> Seq<StatusView> {
    s.map_values(|x: SourceStatus| x@)
}

/// That source item `src_identifier` was mirrored as destination item
/// `identifier`.
#[derive(Debug)]
pub struct MirroredStatus {
    pub identifier: String,
    pub src_identifier: String,
}

impl Clone for MirroredStatus {
    fn clone(&self) -> (r: Self)
        ensures
            r == *self,
    {
        MirroredStatus {
            identifier: self.identifier.clone(),
            src_identifier: self.src_identifier.clone(),
        }
    }
}

/// A record on the destination side, for a mirrored post or repost.
#[derive(Debug)]
pub enum DestinationStatus {
    Post(MirroredStatus),
    Repost(MirroredStatus),
}

impl Clone for DestinationStatus {
    fn clone(&self) -> (r: Self)
        ensures
            r == *self,
    {
        match self {
            DestinationStatus::Post(m) => DestinationStatus::Post(m.clone()),
            DestinationStatus::Repost(m) => DestinationStatus::Repost(m.clone()),
        }
    }
}

impl DestinationStatus {
    pub open spec fn item(self) -> MirroredStatus {
        match self {
            DestinationStatus::Post(m) => m,
            DestinationStatus::Repost(m) => m,
        }
    }

    pub fn mirrored(&self) -> (r: &MirroredStatus)
        ensures
            *r == self.item(),
    {
        match self {
            DestinationStatus::Post(m) => m,
            DestinationStatus::Repost(m) => m,
        }
    }
}

#[verifier::ext_equal]
pub struct SourceView {
    pub origin: Seq<char>,
    pub identifier: Seq<char>,
    pub session: Option<String>,
    pub statuses: Seq<StatusView>,
}

impl SourceView {
    pub open spec fn key(self) -> KeyView {
        KeyView { origin: self.origin, identifier: self.identifier }
    }
}

/// The source account of a user: its key, its session token, and the
/// statuses of the most recent fetch, newest first.
#[derive(Debug)]
pub struct Source {
    pub origin: String,
    pub identifier: String,
    pub session: Option<String>,
    pub statuses: Vec<SourceStatus>,
}

impl View for Source {
    type V = SourceView;

    open spec fn view(&self) -> SourceView {
        SourceView {
            origin: self.origin@,
            identifier: self.identifier@,
            session: self.session,
            statuses: source_views(self.statuses@),
        }
    }
}

#[verifier::ext_equal]
pub struct DestinationView {
    pub origin: Seq<char>,
    pub identifier: Seq<char>,
    pub statuses: Seq<DestinationStatus>,
}

impl DestinationView {
    pub open spec fn key(self) -> KeyView {
        KeyView { origin: self.origin, identifier: self.identifier }
    }
}

/// One destination account of a user and what was mirrored to it, newest
/// first.
#[derive(Debug)]
pub struct Destination {
    pub origin: String,
    pub identifier: String,
    pub statuses: Vec<DestinationStatus>,
}

impl View for Destination {
    type V = DestinationView;

    open spec fn view(&self) -> DestinationView {
        DestinationView { origin: self.origin@, identifier: self.identifier@, statuses: self.statuses@ }
    }
}

#[verifier::ext_equal]
pub struct UserView {
    pub src: SourceView,
    pub dsts: Seq<DestinationView>,
}

/// The first position at or after `i` of a destination keyed `key`, or the
/// length where there is none.
pub open spec fn dst_pos_from(dsts: Seq<DestinationView>, key: KeyView, i: int) -> int
    decreases dsts.len() - i,
{
    if i < 0 || i >= dsts.len() {
        dsts.len() as int
    } else if dsts[i].key() == key {
        i
    } else {
        dst_pos_from(dsts, key, i + 1)
    }
}

pub open spec fn dst_pos(dsts: Seq<DestinationView>, key: KeyView) -> int {
    dst_pos_from(dsts, key, 0)
}

/// A destination that nothing was mirrored to yet.
pub open spec fn fresh_dst(key: KeyView) -> DestinationView {
    DestinationView { origin: key.origin, identifier: key.identifier, statuses: Seq::empty() }
}

impl UserView {
    /// The destination keyed `key`: the first such, or a fresh one.
    pub open spec fn dst_entry(self, key: KeyView) -> DestinationView {
        let p = dst_pos(self.dsts, key);
        if p < self.dsts.len() {
            self.dsts[p]
        } else {
            fresh_dst(key)
        }
    }

    /// This user with `d` in place of the destination keyed `key`, appended
    /// where there is none.
    pub open spec fn with_dst(self, key: KeyView, d: DestinationView) -> UserView {
        let p = dst_pos(self.dsts, key);
        UserView {
            src: self.src,
            dsts: if p < self.dsts.len() {
                self.dsts.update(p, d)
            } else {
                self.dsts.push(d)
            },
        }
    }
}

/// One configured source account and its destinations.
#[derive(Debug)]
pub struct User {
    pub src: Source,
    pub dsts: Vec<Destination>,
}

pub open spec fn dst_views(dsts: Seq<Destination>) -> Seq<DestinationView> {
    dsts.map_values(|d: Destination| d@)
}

impl View for User {
    type V = UserView;

    open spec fn view(&self) -> UserView {
        UserView { src: self.src@, dsts: dst_views(self.dsts@) }
    }
}

impl User {
    /// The position of the destination keyed `key`, or the number of
    /// destinations where there is none.
    pub fn dst_index(&self, key: &AccountKey) -> (r: usize)
        ensures
            r == dst_pos(self@.dsts, key@),
    {
        let n = self.dsts.len();
        let mut i: usize = 0;
        while i < n
            invariant
                n == self.dsts@.len(),
                i <= n,
                dst_pos(self@.dsts, key@) == dst_pos_from(self@.dsts, key@, i as int),
            decreases n - i,
        {
            if self.dsts[i].origin == key.origin && self.dsts[i].identifier == key.identifier {
                assert(self@.dsts[i as int].key() == key@);
                return i;
            }
            i = i + 1;
        }
        n
    }

    /// The destination keyed `key`, created empty at the end where there is
    /// none.
    pub fn get_or_create_dst_mut(&mut self, key: &AccountKey) -> (r: &mut Destination)
        ensures
            r@ == old(self)@.dst_entry(key@),
            final(self)@ =~= old(self)@.with_dst(key@, final(r)@),
    {
        let n = self.dsts.len();
        let mut i: usize = 0;
        while i < n
            invariant
                n == self.dsts@.len(),
                *self == *old(self),
                i <= n,
                dst_pos(self@.dsts, key@) == dst_pos_from(self@.dsts, key@, i as int),
            decreases n - i,
        {
            if self.dsts[i].origin == key.origin && self.dsts[i].identifier == key.identifier {
                assert(self@.dsts[i as int].key() == key@);
                let r = &mut self.dsts[i];
                return r;
            }
            i = i + 1;
        }
        self.dsts.push(
            Destination {
                origin: key.origin.clone(),
                identifier: key.identifier.clone(),
                statuses: Vec::new(),
            },
        );
        let last = self.dsts.len() - 1;
        &mut self.dsts[last]
    }
}

#[verifier::ext_equal]
pub struct StoreView {
    pub users: Seq<UserView>,
    pub operations: Seq<OperationView>,
}

/// The first position at or after `i` of a user whose source is keyed `key`,
/// or the length where there is none.
pub open spec fn user_pos_from(users: Seq<UserView>, key: KeyView, i: int) -> int
    decreases users.len() - i,
{
    if i < 0 || i >= users.len() {
        users.len() as int
    } else if users[i].src.key() == key {
        i
    } else {
        user_pos_from(users, key, i + 1)
    }
}

pub open spec fn user_pos(users: Seq<UserView>, key: KeyView) -> int {
    user_pos_from(users, key, 0)
}

/// A user seen for the first time: no session, no statuses, no
/// destinations.
pub open spec fn fresh_user(key: KeyView) -> UserView {
    UserView {
        src: SourceView {
            origin: key.origin,
            identifier: key.identifier,
            session: None,
            statuses: Seq::empty(),
        },
        dsts: Seq::empty(),
    }
}

/// No two destinations in `dsts` share a key.
pub open spec fn unique_dsts(dsts: Seq<DestinationView>) -> bool {
    forall|i: int, j: int|
        0 <= i < dsts.len() && 0 <= j < dsts.len() && i != j ==> (#[trigger] dsts[i]).key() != (
        #[trigger] dsts[j]).key()
}

/// No two users in `users` share a source key.
pub open spec fn unique_users(users: Seq<UserView>) -> bool {
    forall|i: int, j: int|
        0 <= i < users.len() && 0 <= j < users.len() && i != j ==> (#[trigger] users[i]).src.key()
            != (#[trigger] users[j]).src.key()
}

impl StoreView {
    /// At most one user per source key, and within each user at most one
    /// destination per key.
    pub open spec fn wf(self) -> bool {
        &&& unique_users(self.users)
        &&& forall|i: int| 0 <= i < self.users.len() ==> unique_dsts(#[trigger] self.users[i].dsts)
    }

    /// The user whose source is keyed `key`: the first such, or a fresh one.
    pub open spec fn user_entry(self, key: KeyView) -> UserView {
        let p = user_pos(self.users, key);
        if p < self.users.len() {
            self.users[p]
        } else {
            fresh_user(key)
        }
    }

    /// This store with `u` in place of the user keyed `key`, appended where
    /// there is none.
    pub open spec fn with_user(self, key: KeyView, u: UserView) -> StoreView {
        let p = user_pos(self.users, key);
        StoreView {
            users: if p < self.users.len() {
                self.users.update(p, u)
            } else {
                self.users.push(u)
            },
            operations: self.operations,
        }
    }

    /// The destination of the edge `pair`, fresh where there is none.
    pub open spec fn dst_entry(self, pair: AccountPair) -> DestinationView {
        self.user_entry(pair.src@).dst_entry(pair.dst@)
    }

    /// This store with `d` in place of the destination of the edge `pair`,
    /// its user and the destination created where they are missing.
    pub open spec fn with_dst(self, pair: AccountPair, d: DestinationView) -> StoreView {
        self.with_user(pair.src@, self.user_entry(pair.src@).with_dst(pair.dst@, d))
    }
}

proof fn lemma_user_pos(users: Seq<UserView>, key: KeyView, i: int)
    requires
        0 <= i <= users.len(),
    ensures
        i <= user_pos_from(users, key, i) <= users.len(),
        user_pos_from(users, key, i) < users.len() ==> users[user_pos_from(users, key, i)].src.key()
            == key,
        forall|j: int|
            i <= j < user_pos_from(users, key, i) ==> (#[trigger] users[j]).src.key() != key,
    decreases users.len() - i,
{
    if i < users.len() && users[i].src.key() != key {
        lemma_user_pos(users, key, i + 1);
    }
}

proof fn lemma_dst_pos(dsts: Seq<DestinationView>, key: KeyView, i: int)
    requires
        0 <= i <= dsts.len(),
    ensures
        i <= dst_pos_from(dsts, key, i) <= dsts.len(),
        dst_pos_from(dsts, key, i) < dsts.len() ==> dsts[dst_pos_from(dsts, key, i)].key() == key,
        forall|j: int| i <= j < dst_pos_from(dsts, key, i) ==> (#[trigger] dsts[j]).key() != key,
    decreases dsts.len() - i,
{
    if i < dsts.len() && dsts[i].key() != key {
        lemma_dst_pos(dsts, key, i + 1);
    }
}

/// The user found or made for `key` has that key, and in a well-formed store
/// its destinations have distinct keys.
pub proof fn lemma_user_entry(s: StoreView, key: KeyView)
    ensures
        s.user_entry(key).src.key() == key,
        s.wf() ==> unique_dsts(s.user_entry(key).dsts),
{
    lemma_user_pos(s.users, key, 0);
}

/// The destination found or made for `key` has that key.
pub proof fn lemma_dst_entry(u: UserView, key: KeyView)
    ensures
        u.dst_entry(key).key() == key,
{
    lemma_dst_pos(u.dsts, key, 0);
}

/// Putting a user keyed `key`, with distinct destination keys, in the place
/// of the user keyed `key` keeps a store well formed.
pub proof fn lemma_with_user_wf(s: StoreView, key: KeyView, u: UserView)
    requires
        s.wf(),
        u.src.key() == key,
        unique_dsts(u.dsts),
    ensures
        s.with_user(key, u).wf(),
{
    lemma_user_pos(s.users, key, 0);
    let t = s.with_user(key, u);
    assert forall|i: int| 0 <= i < t.users.len() implies unique_dsts(#[trigger] t.users[i].dsts) by {
        if i < s.users.len() && i != user_pos(s.users, key) {
            assert(t.users[i] == s.users[i]);
        }
    }
}

/// Putting a destination keyed `key` in the place of the destination keyed
/// `key` keeps the destination keys of a user distinct.
pub proof fn lemma_with_dst_unique(u: UserView, key: KeyView, d: DestinationView)
    requires
        unique_dsts(u.dsts),
        d.key() == key,
    ensures
        unique_dsts(u.with_dst(key, d).dsts),
        u.with_dst(key, d).src == u.src,
{
    lemma_dst_pos(u.dsts, key, 0);
}

/// Putting a destination keyed like the edge's destination in the place of
/// that destination keeps a store well formed.
pub proof fn lemma_with_dst_wf(s: StoreView, pair: AccountPair, d: DestinationView)
    requires
        s.wf(),
        d.key() == pair.dst@,
    ensures
        s.with_dst(pair, d).wf(),
{
    let u = s.user_entry(pair.src@);
    lemma_user_entry(s, pair.src@);
    lemma_with_dst_unique(u, pair.dst@, d);
    lemma_with_user_wf(s, pair.src@, u.with_dst(pair.dst@, d));
}

/// The persisted aggregate: every user and the queue of pending actions,
/// applied from the front.
#[derive(Debug)]
pub struct Store {
    pub users: Vec<User>,
    pub operations: Vec<Operation>,
}

pub open spec fn user_views(users: Seq<User>) -> Seq<UserView> {
    users.map_values(|u: User| u@)
}

pub open spec fn operation_views(ops: Seq<Operation>) -> Seq<OperationView> {
    ops.map_values(|o: Operation| o@)
}

impl View for Store {
    type V = StoreView;

    open spec fn view(&self) -> StoreView {
        StoreView { users: user_views(self.users@), operations: operation_views(self.operations@) }
    }
}

impl Store {
    /// An empty store: no users, nothing queued.
    pub fn new() -> (r: Store)
        ensures
            r@.users.len() == 0,
            r@.operations.len() == 0,
            r@.wf(),
    {
        Store { users: Vec::new(), operations: Vec::new() }
    }

    /// The position of the user whose source is keyed `account_key`, or the
    /// number of users where there is none.
    pub fn user_index(&self, account_key: &AccountKey) -> (r: usize)
        ensures
            r == user_pos(self@.users, account_key@),
    {
        let n = self.users.len();
        let mut i: usize = 0;
        while i < n
            invariant
                n == self.users@.len(),
                i <= n,
                user_pos(self@.users, account_key@) == user_pos_from(
                    self@.users,
                    account_key@,
                    i as int,
                ),
            decreases n - i,
        {
            if self.users[i].src.origin == account_key.origin && self.users[i].src.identifier
                == account_key.identifier {
                assert(self@.users[i as int].src.key() == account_key@);
                return i;
            }
            i = i + 1;
        }
        n
    }

    /// The user whose source is keyed `account_key`, created at the end
    /// where there is none.
    pub fn get_or_create_user_mut(&mut self, account_key: &AccountKey) -> (r: &mut User)
        ensures
            r@ == old(self)@.user_entry(account_key@),
            final(self)@ =~= old(self)@.with_user(account_key@, final(r)@),
    {
        let n = self.users.len();
        let mut i: usize = 0;
        while i < n
            invariant
                n == self.users@.len(),
                *self == *old(self),
                i <= n,
                user_pos(self@.users, account_key@) == user_pos_from(
                    self@.users,
                    account_key@,
                    i as int,
                ),
            decreases n - i,
        {
            if self.users[i].src.origin == account_key.origin && self.users[i].src.identifier
                == account_key.identifier {
                assert(self@.users[i as int].src.key() == account_key@);
                let r = &mut self.users[i];
                return r;
            }
            i = i + 1;
        }
        self.users.push(
            User {
                src: Source {
                    origin: account_key.origin.clone(),
                    identifier: account_key.identifier.clone(),
                    session: None,
                    statuses: Vec::new(),
                },
                dsts: Vec::new(),
            },
        );
        proof {
            assert(source_views(Seq::<SourceStatus>::empty()) =~= Seq::empty());
            assert(dst_views(Seq::<Destination>::empty()) =~= Seq::empty());
        }
        let last = self.users.len() - 1;
        &mut self.users[last]
    }

    /// The destination of the edge `account_pair`, its user and the
    /// destination created where they are missing.
    pub fn get_or_create_dst_mut(&mut self, account_pair: &AccountPair) -> (r: &mut Destination)
        ensures
            r@ == old(self)@.dst_entry(*account_pair),
            final(self)@ =~= old(self)@.with_dst(*account_pair, final(r)@),
    {
        self.get_or_create_user_mut(&account_pair.to_src_key()).get_or_create_dst_mut(
            &account_pair.to_dst_key(),
        )
    }
}

} // verus!
