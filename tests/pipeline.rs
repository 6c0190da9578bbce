use status_mirror::account::{AccountKey, AccountPair};
use status_mirror::config::{Account, User as ConfigUser};
use status_mirror::merge::{has_users_operations, merge_operations};
use status_mirror::operations::{CreateRepostOperationStatus, Operation as QueuedOperation};
use status_mirror::processor::{
    complete, next_call, should_continue, to_dst_identifier, Call, ProcessError,
};
use status_mirror::reconcile::{create_operations, reconcile};
use status_mirror::retention::{
    necessary_post_src_identifiers, necessary_repost_src_identifiers, retain_all_dst_statuses,
};
use status_mirror::session::is_almost_expired;
use status_mirror::source::{record_fetch, LiveExternal, LivePost, LiveStatus, Operation};
use status_mirror::store::{DestinationStatus, MirroredStatus, SourceStatus, Store};

fn key(origin: &str, identifier: &str) -> AccountKey {
    AccountKey::new(origin.to_string(), identifier.to_string())
}

fn post(id: &str) -> LivePost {
    LivePost {
        identifier: id.to_string(),
        uri: format!("https://src.example/notes/{}", id),
        content: format!("content of {}", id),
        facets: vec![],
        reply_src_identifier: None,
        media: vec![],
        external: LiveExternal::Absent,
        created_at: "2024-01-01T00:00:00+09:00".to_string(),
    }
}

fn live_post(id: &str) -> LiveStatus {
    LiveStatus::Post(post(id))
}

fn repost(id: &str, target: &str) -> CreateRepostOperationStatus {
    CreateRepostOperationStatus {
        src_identifier: id.to_string(),
        target_src_identifier: target.to_string(),
        target_src_uri: format!("https://src.example/notes/{}", target),
        created_at: "2024-01-02T00:00:00Z".to_string(),
    }
}

fn mirrored_post(identifier: &str, src: &str) -> DestinationStatus {
    DestinationStatus::Post(MirroredStatus {
        identifier: identifier.to_string(),
        src_identifier: src.to_string(),
    })
}

fn mirrored_repost(identifier: &str, src: &str) -> DestinationStatus {
    DestinationStatus::Repost(MirroredStatus {
        identifier: identifier.to_string(),
        src_identifier: src.to_string(),
    })
}

fn created_id(op: &Operation) -> Option<String> {
    match op {
        Operation::CreatePost(s) => Some(s.src_identifier.clone()),
        Operation::CreateRepost(s) => Some(s.src_identifier.clone()),
        _ => None,
    }
}

fn deleted_id(op: &Operation) -> Option<String> {
    match op {
        Operation::DeletePost(s) => Some(s.src_identifier.clone()),
        Operation::DeleteRepost(s) => Some(s.src_identifier.clone()),
        _ => None,
    }
}

fn head_call(store: &Store) -> Result<Call, ProcessError> {
    next_call(store).expect("an action is queued")
}

fn src_key() -> AccountKey {
    key("https://src.example", "alice")
}

fn pair_to(dst: &AccountKey) -> AccountPair {
    AccountPair::new(src_key(), dst.clone())
}

fn statuses_of(store: &Store, pair: &AccountPair) -> Vec<DestinationStatus> {
    let mut copy = snapshot(store);
    copy.get_or_create_dst_mut(pair).statuses.clone()
}

fn snapshot(store: &Store) -> Store {
    Store { users: store.users.iter().map(clone_user).collect(), operations: store.operations.clone() }
}

fn clone_user(u: &status_mirror::store::User) -> status_mirror::store::User {
    status_mirror::store::User {
        src: status_mirror::store::Source {
            origin: u.src.origin.clone(),
            identifier: u.src.identifier.clone(),
            session: u.src.session.clone(),
            statuses: u.src.statuses.clone(),
        },
        dsts: u
            .dsts
            .iter()
            .map(|d| status_mirror::store::Destination {
                origin: d.origin.clone(),
                identifier: d.identifier.clone(),
                statuses: d.statuses.clone(),
            })
            .collect(),
    }
}

#[test]
fn reconcile_example_creates_new_and_deletes_missing() {
    let baseline = vec![SourceStatus::Post(post("P1")), SourceStatus::Post(post("P2"))];
    let live = vec![live_post("P3"), live_post("P1")];
    let (statuses, ops) = reconcile(&live, &baseline);
    assert_eq!(ops.len(), 2);
    assert_eq!(created_id(&ops[0]).as_deref(), Some("P3"));
    assert_eq!(deleted_id(&ops[1]).as_deref(), Some("P2"));
    assert!(matches!(ops[1], Operation::DeletePost(_)));
    let ids: Vec<&String> = statuses.iter().map(|s| s.identifier()).collect();
    assert_eq!(ids, vec!["P3", "P1"]);
}

#[test]
fn reconcile_carries_the_post_unchanged() {
    let mut p = post("P9");
    p.reply_src_identifier = Some("P8".to_string());
    p.created_at = "2023-05-06T07:08:09+00:00".to_string();
    let ops = create_operations(&vec![LiveStatus::Post(p)], &vec![]);
    match &ops[0] {
        Operation::CreatePost(s) => {
            assert_eq!(s.src_identifier, "P9");
            assert_eq!(s.content, "content of P9");
            assert_eq!(s.reply_src_identifier.as_deref(), Some("P8"));
            assert_eq!(s.created_at, "2023-05-06T07:08:09+00:00");
        }
        other => panic!("unexpected {:?}", other),
    }
}

#[test]
fn reconcile_identical_snapshots_yield_nothing() {
    let baseline = vec![SourceStatus::Post(post("P1")), SourceStatus::Repost(repost("R1", "X"))];
    let live = vec![live_post("P1"), LiveStatus::Repost(repost("R1", "X"))];
    assert!(create_operations(&live, &baseline).is_empty());
}

#[test]
fn reconcile_each_identifier_once() {
    let baseline = vec![
        SourceStatus::Post(post("A")),
        SourceStatus::Repost(repost("B", "T")),
        SourceStatus::Post(post("C")),
    ];
    let live = vec![live_post("D"), live_post("C"), LiveStatus::Repost(repost("E", "T"))];
    let ops = create_operations(&live, &baseline);
    let created: Vec<String> = ops.iter().filter_map(created_id).collect();
    let deleted: Vec<String> = ops.iter().filter_map(deleted_id).collect();
    assert_eq!(created, vec!["D", "E"]);
    assert_eq!(deleted, vec!["A", "B"]);
    assert!(matches!(ops[1], Operation::CreateRepost(_)));
    assert!(matches!(ops[3], Operation::DeleteRepost(_)));
}

#[test]
fn reconcile_empty_inputs() {
    assert!(create_operations(&vec![], &vec![]).is_empty());
    let ops = create_operations(&vec![live_post("N")], &vec![]);
    assert_eq!(created_id(&ops[0]).as_deref(), Some("N"));
    let ops = create_operations(&vec![], &vec![SourceStatus::Post(post("O"))]);
    assert_eq!(deleted_id(&ops[0]).as_deref(), Some("O"));
}

#[test]
fn fan_out_example_two_destinations() {
    let d1 = key("https://d1.example", "bob");
    let d2 = key("https://d2.example", "carol");
    let mut store = Store::new();
    let ops = vec![Operation::CreatePost(post("P3").to_create_status())];
    merge_operations(&mut store, &vec![d1.clone(), d2.clone()], &src_key(), &ops);
    assert_eq!(store.operations.len(), 2);
    for (op, dst) in store.operations.iter().zip([&d1, &d2]) {
        assert!(*op.account_pair() == pair_to(dst));
        match op {
            QueuedOperation::CreatePost { status, .. } => assert_eq!(status.src_identifier, "P3"),
            other => panic!("unexpected {:?}", other),
        }
    }
    assert!(store.users.is_empty());
}

#[test]
fn fan_out_orders_by_destination_then_action() {
    let d1 = key("https://d1.example", "bob");
    let d2 = key("https://d2.example", "carol");
    let d3 = key("https://d3.example", "dave");
    let mut store = Store::new();
    let ops = create_operations(&vec![live_post("X"), live_post("Y")], &vec![]);
    merge_operations(&mut store, &vec![d1.clone(), d2.clone(), d3.clone()], &src_key(), &ops);
    assert_eq!(store.operations.len(), 6);
    let expected = [(&d1, "X"), (&d1, "Y"), (&d2, "X"), (&d2, "Y"), (&d3, "X"), (&d3, "Y")];
    for (op, (dst, id)) in store.operations.iter().zip(expected) {
        assert!(*op.account_pair() == pair_to(dst));
        match op {
            QueuedOperation::CreatePost { status, .. } => assert_eq!(status.src_identifier, id),
            other => panic!("unexpected {:?}", other),
        }
    }
}

#[test]
fn users_operations_are_detected_by_source() {
    let d1 = key("https://d1.example", "bob");
    let mut store = Store::new();
    assert!(!has_users_operations(&store.operations, &src_key()));
    let ops = create_operations(&vec![live_post("X")], &vec![]);
    merge_operations(&mut store, &vec![d1], &src_key(), &ops);
    assert!(has_users_operations(&store.operations, &src_key()));
    assert!(!has_users_operations(&store.operations, &key("https://src.example", "other")));
}

#[test]
fn record_fetch_replaces_snapshot_and_queues() {
    let d1 = key("https://d1.example", "bob");
    let mut store = Store::new();
    let ops = record_fetch(&mut store, &src_key(), &vec![d1.clone()], &vec![live_post("P1")]);
    assert_eq!(ops.len(), 1);
    assert_eq!(store.users.len(), 1);
    assert_eq!(store.users[0].src.statuses.len(), 1);
    assert_eq!(store.operations.len(), 1);
    let ops = record_fetch(&mut store, &src_key(), &vec![d1], &vec![live_post("P2")]);
    assert_eq!(ops.len(), 2);
    assert_eq!(store.users.len(), 1);
    assert_eq!(store.users[0].src.statuses[0].identifier(), "P2");
    assert_eq!(store.operations.len(), 3);
}

#[test]
fn get_or_create_user_creates_once() {
    let mut store = Store::new();
    store.get_or_create_user_mut(&src_key()).src.session = Some("token".to_string());
    let user = store.get_or_create_user_mut(&src_key());
    assert_eq!(user.src.session.as_deref(), Some("token"));
    assert_eq!(store.users.len(), 1);
    store.get_or_create_user_mut(&key("https://src.example", "bob"));
    assert_eq!(store.users.len(), 2);
    assert!(store.users[1].src.session.is_none());
}

#[test]
fn get_or_create_dst_creates_user_and_destination() {
    let d1 = key("https://d1.example", "bob");
    let mut store = Store::new();
    store.get_or_create_dst_mut(&pair_to(&d1)).statuses.push(mirrored_post("m1", "P1"));
    assert_eq!(store.users.len(), 1);
    assert_eq!(store.users[0].dsts.len(), 1);
    assert_eq!(store.get_or_create_dst_mut(&pair_to(&d1)).statuses.len(), 1);
    assert_eq!(store.users[0].dsts.len(), 1);
}

#[test]
fn to_account_key_of_each_platform() {
    let at = Account::AtProtocol {
        origin: "https://bsky.social".to_string(),
        identifier: "alice.bsky.social".to_string(),
        password: "SECRET-REDACTED".to_string(),
    };
    let k = at.to_account_key();
    assert_eq!((k.origin.as_str(), k.identifier.as_str()), ("https://bsky.social", "alice.bsky.social"));
    let ms = Account::Misskey { origin: "https://misskey.io".to_string(), access_token: "tok".to_string() };
    let k = ms.to_account_key();
    assert_eq!((k.origin.as_str(), k.identifier.as_str()), ("https://misskey.io", "tok"));
    let md = Account::Mastodon { origin: "https://mstdn.jp".to_string(), access_token: "tok2".to_string() };
    let k = md.to_account_key();
    assert_eq!((k.origin.as_str(), k.identifier.as_str()), ("https://mstdn.jp", "tok2"));
    let tw = Account::Twitter {
        api_key: "k".to_string(),
        api_key_secret: "ks".to_string(),
        access_token: "at".to_string(),
        access_token_secret: "ats".to_string(),
    };
    let k = tw.to_account_key();
    assert_eq!((k.origin.as_str(), k.identifier.as_str()), ("https://twitter.com", "at"));
    let user = ConfigUser { src: at, dsts: vec![ms, tw] };
    let keys = user.dst_account_keys();
    assert_eq!(keys.len(), 2);
    assert_eq!(keys[1].identifier, "at");
}

#[test]
fn delete_replay_without_record_is_noop() {
    let d1 = key("https://d1.example", "bob");
    let mut store = Store::new();
    store.get_or_create_dst_mut(&pair_to(&d1)).statuses.push(mirrored_post("m1", "P1"));
    let ops = create_operations(&vec![], &vec![SourceStatus::Post(post("P2"))]);
    merge_operations(&mut store, &vec![d1.clone()], &src_key(), &ops);
    assert!(matches!(head_call(&store), Ok(Call::Skip)));
    assert_eq!(complete(&mut store, None), Ok(()));
    assert!(store.operations.is_empty());
    let left = statuses_of(&store, &pair_to(&d1));
    assert_eq!(left.len(), 1);
    assert_eq!(left[0].mirrored().src_identifier, "P1");
}

#[test]
fn delete_with_record_calls_and_removes() {
    let d1 = key("https://d1.example", "bob");
    let mut store = Store::new();
    {
        let dst = store.get_or_create_dst_mut(&pair_to(&d1));
        dst.statuses.push(mirrored_post("m2", "P2"));
        dst.statuses.push(mirrored_post("m1", "P1"));
    }
    let ops = create_operations(&vec![], &vec![SourceStatus::Post(post("P2"))]);
    merge_operations(&mut store, &vec![d1.clone()], &src_key(), &ops);
    match head_call(&store) {
        Ok(Call::DeletePost { dst, identifier }) => {
            assert!(dst == d1);
            assert_eq!(identifier, "m2");
        }
        other => panic!("unexpected {:?}", other),
    }
    assert_eq!(complete(&mut store, None), Ok(()));
    let left = statuses_of(&store, &pair_to(&d1));
    assert_eq!(left.len(), 1);
    assert_eq!(left[0].mirrored().identifier, "m1");
}

#[test]
fn create_post_threads_reply_and_records_identifier() {
    let d1 = key("https://d1.example", "bob");
    let mut store = Store::new();
    store.get_or_create_dst_mut(&pair_to(&d1)).statuses.push(mirrored_post("m-parent", "PARENT"));
    let mut p = post("CHILD");
    p.reply_src_identifier = Some("PARENT".to_string());
    let ops = create_operations(&vec![LiveStatus::Post(p), live_post("LONE")], &vec![]);
    merge_operations(&mut store, &vec![d1.clone()], &src_key(), &ops);
    match head_call(&store) {
        Ok(Call::Post { dst, status, reply_identifier }) => {
            assert!(dst == d1);
            assert_eq!(status.src_identifier, "CHILD");
            assert_eq!(reply_identifier.as_deref(), Some("m-parent"));
        }
        other => panic!("unexpected {:?}", other),
    }
    assert_eq!(complete(&mut store, Some("m-child".to_string())), Ok(()));
    let recorded = statuses_of(&store, &pair_to(&d1));
    assert_eq!(recorded.len(), 2);
    assert_eq!(recorded[0].mirrored().identifier, "m-child");
    assert_eq!(recorded[0].mirrored().src_identifier, "CHILD");
    match head_call(&store) {
        Ok(Call::Post { reply_identifier, .. }) => assert!(reply_identifier.is_none()),
        other => panic!("unexpected {:?}", other),
    }
}

#[test]
fn create_without_identifier_is_refused() {
    let d1 = key("https://d1.example", "bob");
    let mut store = Store::new();
    let ops = create_operations(&vec![live_post("P1")], &vec![]);
    merge_operations(&mut store, &vec![d1], &src_key(), &ops);
    assert_eq!(complete(&mut store, None), Err(ProcessError::MissingIdentifier));
    assert_eq!(store.operations.len(), 1);
    assert!(store.users.is_empty());
}

#[test]
fn repost_needs_mirrored_target() {
    let d1 = key("https://d1.example", "bob");
    let mut store = Store::new();
    let ops = create_operations(&vec![LiveStatus::Repost(repost("R1", "T1"))], &vec![]);
    merge_operations(&mut store, &vec![d1.clone()], &src_key(), &ops);
    assert!(matches!(head_call(&store), Err(ProcessError::MissingRepostTarget)));
    store.get_or_create_dst_mut(&pair_to(&d1)).statuses.push(mirrored_post("m-t1", "T1"));
    match head_call(&store) {
        Ok(Call::Repost { target_identifier, created_at, .. }) => {
            assert_eq!(target_identifier, "m-t1");
            assert_eq!(created_at, "2024-01-02T00:00:00Z");
        }
        other => panic!("unexpected {:?}", other),
    }
    assert_eq!(complete(&mut store, Some("m-r1".to_string())), Ok(()));
    let recorded = statuses_of(&store, &pair_to(&d1));
    assert!(matches!(&recorded[0], DestinationStatus::Repost(m) if m.src_identifier == "R1" && m.identifier == "m-r1"));
}

#[test]
fn update_is_consumed_without_call() {
    let d1 = key("https://d1.example", "bob");
    let mut store = Store::new();
    let ops = vec![Operation::UpdatePost(status_mirror::operations::UpdatePostOperationStatus {
        src_identifier: "P1".to_string(),
        content: "edited".to_string(),
        facets: vec![],
    })];
    merge_operations(&mut store, &vec![d1], &src_key(), &ops);
    assert!(matches!(head_call(&store), Ok(Call::Skip)));
    assert_eq!(complete(&mut store, None), Ok(()));
    assert!(store.operations.is_empty());
    assert!(store.users.is_empty());
}

#[test]
fn crash_mid_batch_keeps_unconfirmed_actions() {
    let d1 = key("https://d1.example", "bob");
    let mut store = Store::new();
    let ops = create_operations(&vec![live_post("A"), live_post("B"), live_post("C")], &vec![]);
    merge_operations(&mut store, &vec![d1.clone()], &src_key(), &ops);
    assert_eq!(complete(&mut store, Some("m-a".to_string())), Ok(()));
    // the call for B fails: nothing is recorded, and the run stops here
    let committed = snapshot(&store);
    assert_eq!(committed.operations.len(), 2);
    match head_call(&committed) {
        Ok(Call::Post { status, .. }) => assert_eq!(status.src_identifier, "B"),
        other => panic!("unexpected {:?}", other),
    }
    let recorded = statuses_of(&committed, &pair_to(&d1));
    assert_eq!(recorded.len(), 1);
    assert_eq!(recorded[0].mirrored().src_identifier, "A");
}

#[test]
fn run_stops_at_cap_cancellation_or_empty_queue() {
    let d1 = key("https://d1.example", "bob");
    let mut store = Store::new();
    assert!(!should_continue(&store, 0, false));
    let ops = create_operations(&vec![live_post("A"), live_post("B"), live_post("C")], &vec![]);
    merge_operations(&mut store, &vec![d1], &src_key(), &ops);
    assert!(should_continue(&store, 0, false));
    assert!(should_continue(&store, 1, false));
    assert!(!should_continue(&store, 2, false));
    assert!(!should_continue(&store, 0, true));
}

#[test]
fn reverse_lookup_searches_all_users() {
    let d1 = key("https://d1.example", "bob");
    let other = AccountPair::new(key("https://src.example", "zed"), d1.clone());
    let mut store = Store::new();
    store.get_or_create_dst_mut(&pair_to(&d1)).statuses.push(mirrored_post("m1", "P1"));
    store.get_or_create_dst_mut(&other).statuses.push(mirrored_post("m9", "P9"));
    assert_eq!(to_dst_identifier(&"P9".to_string(), &store).as_deref(), Some("m9"));
    assert_eq!(to_dst_identifier(&"P1".to_string(), &store).as_deref(), Some("m1"));
    assert!(to_dst_identifier(&"P5".to_string(), &store).is_none());
}

#[test]
fn sweep_keeps_only_referenced_records() {
    let d1 = key("https://d1.example", "bob");
    let mut store = Store::new();
    store.get_or_create_user_mut(&src_key()).src.statuses =
        vec![SourceStatus::Post(post("P1")), SourceStatus::Repost(repost("R1", "T1"))];
    {
        let dst = store.get_or_create_dst_mut(&pair_to(&d1));
        dst.statuses = vec![
            mirrored_post("m1", "P1"),
            mirrored_post("m-old", "OLD"),
            mirrored_post("m-t1", "T1"),
            mirrored_repost("m-r1", "R1"),
            mirrored_repost("m-r0", "R0"),
            mirrored_repost("m-p1", "P1"),
        ];
    }
    assert!(retain_all_dst_statuses(&mut store));
    let left: Vec<String> =
        statuses_of(&store, &pair_to(&d1)).iter().map(|s| s.mirrored().identifier.clone()).collect();
    assert_eq!(left, vec!["m1", "m-t1", "m-r1"]);
    assert!(!retain_all_dst_statuses(&mut store));
}

#[test]
fn necessary_identifiers_of_posts_and_reposts() {
    let mut store = Store::new();
    store.get_or_create_user_mut(&src_key()).src.statuses =
        vec![SourceStatus::Post(post("P1")), SourceStatus::Repost(repost("R1", "T1"))];
    store.get_or_create_user_mut(&key("https://src.example", "zed")).src.statuses =
        vec![SourceStatus::Repost(repost("R2", "T2"))];
    assert_eq!(necessary_post_src_identifiers(&store.users), vec!["P1", "T1", "T2"]);
    assert_eq!(necessary_repost_src_identifiers(&store.users), vec!["R1", "R2"]);
}

#[test]
fn to_store_stamps_the_pair() {
    let d1 = key("https://d1.example", "bob");
    let op = Operation::DeletePost(status_mirror::operations::DeletePostOperationStatus {
        src_identifier: "P1".to_string(),
    });
    match op.to_store(pair_to(&d1)) {
        QueuedOperation::DeletePost { account_pair, status } => {
            assert!(account_pair == pair_to(&d1));
            assert_eq!(status.src_identifier, "P1");
        }
        other => panic!("unexpected {:?}", other),
    }
}

#[test]
fn empty_queue_has_no_call_and_nothing_to_complete() {
    let mut store = Store::new();
    assert!(next_call(&store).is_none());
    assert_eq!(complete(&mut store, Some("x".to_string())), Err(ProcessError::NothingQueued));
    assert!(store.users.is_empty());
}

#[test]
fn session_renewal_margin() {
    assert!(!is_almost_expired(1_000, 1_301));
    assert!(!is_almost_expired(1_000, 1_300));
    assert!(is_almost_expired(1_001, 1_300));
    assert!(is_almost_expired(i64::MIN, i64::MIN + 10));
    assert!(!is_almost_expired(0, i64::MAX));
}
