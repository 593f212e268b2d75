use microblogs::errors::ServiceError;
use microblogs::generate_uid;
use microblogs::store::Store;
use microblogs::users::UserDetails;

const NOW: u64 = 1_700_000_000;

fn add_user(store: &mut Store, name: &str) -> UserDetails {
    store
        .register_user_hashed(
            name.to_string(),
            format!("{}@example.org", name),
            format!("{} Real", name),
            String::new(),
            "stored-hash".to_string(),
            NOW,
        )
        .unwrap()
}

#[test]
fn create_top_level_post() {
    let mut store = Store::new();
    let alice = add_user(&mut store, "alice");
    let post = store
        .create_post(&alice, "first!".to_string(), None, NOW)
        .unwrap();
    assert_eq!(post.id, 1);
    assert_eq!(post.uuid.chars().count(), 8);
    assert_eq!(post.parent_id, None);
    assert_eq!(post.poster_id, alice.id);
    assert_eq!(post.body, "first!");
    assert_eq!(post.created_at, NOW);
    assert_eq!(post.reply_count, 0);
    assert_eq!(post.like_count, 0);
    assert!(!post.deleted);
    assert_eq!(store.posts.len(), 1);
}

#[test]
fn reply_increments_parent_reply_count() {
    let mut store = Store::new();
    let alice = add_user(&mut store, "alice");
    let parent = store
        .create_post(&alice, "root".to_string(), None, NOW)
        .unwrap();
    assert_eq!(store.posts[0].reply_count, 0);

    let reply = store
        .create_post(&alice, "reply".to_string(), Some(&parent.uuid), NOW + 1)
        .unwrap();
    assert_eq!(reply.parent_id, Some(parent.id));
    assert_eq!(store.posts[0].reply_count, 1);
    assert_eq!(store.posts.len(), 2);
}

#[test]
fn n_replies_leave_count_n() {
    let mut store = Store::new();
    let alice = add_user(&mut store, "alice");
    let bob = add_user(&mut store, "bob");
    let parent = store
        .create_post(&alice, "root".to_string(), None, NOW)
        .unwrap();
    for k in 0..5u64 {
        let who = if k % 2 == 0 { &alice } else { &bob };
        store
            .create_post(who, format!("reply {}", k), Some(&parent.uuid), NOW + k)
            .unwrap();
    }
    assert_eq!(store.posts[0].reply_count, 5);
}

#[test]
fn create_post_missing_parent_not_found() {
    let mut store = Store::new();
    let alice = add_user(&mut store, "alice");
    store
        .create_post(&alice, "root".to_string(), None, NOW)
        .unwrap();
    let ghost = "AAAAAAAA".to_string();
    let r = store.create_post(&alice, "orphan".to_string(), Some(&ghost), NOW);
    assert_eq!(r.unwrap_err(), ServiceError::NotFound);
    // no row inserted, no counter changed
    assert_eq!(store.posts.len(), 1);
    assert_eq!(store.posts[0].reply_count, 0);
}

#[test]
fn create_post_duplicate_uid_conflict() {
    let mut store = Store::new();
    let alice = add_user(&mut store, "alice");
    store
        .create_post_with_uid(&alice, "one".to_string(), None, "SAME-UID".to_string(), NOW)
        .unwrap();
    let r = store.create_post_with_uid(
        &alice,
        "two".to_string(),
        None,
        "SAME-UID".to_string(),
        NOW,
    );
    assert_eq!(r.unwrap_err(), ServiceError::Conflict);
    assert_eq!(store.posts.len(), 1);
}

#[test]
fn reply_to_deleted_parent_uuid_not_found() {
    let mut store = Store::new();
    let alice = add_user(&mut store, "alice");
    let parent = store
        .create_post(&alice, "root".to_string(), None, NOW)
        .unwrap();
    // soft-delete the parent row by hand; the store is still well-formed
    store.posts[0].deleted = true;
    let r = store.create_post(&alice, "reply".to_string(), Some(&parent.uuid), NOW);
    assert_eq!(r.unwrap_err(), ServiceError::NotFound);
}

#[test]
fn generate_uid_shape() {
    let uid = generate_uid();
    assert_eq!(uid.chars().count(), 8);
    let charset = "ABCDEFGHIJKLMNOPQRSTUVWXYZabcdefghijklmnopqrstuvwxyz0123456789-_";
    for c in uid.chars() {
        assert!(charset.contains(c));
    }
    // draws are random: two identifiers virtually never coincide
    let other = generate_uid();
    assert_eq!(other.chars().count(), 8);
}

#[test]
fn like_records_edge_and_bumps_counter() {
    let mut store = Store::new();
    let alice = add_user(&mut store, "alice");
    let bob = add_user(&mut store, "bob");
    let post = store
        .create_post(&alice, "root".to_string(), None, NOW)
        .unwrap();
    let like = store.like(&bob, &post.uuid, NOW + 5).unwrap();
    assert_eq!(like.id, 1);
    assert_eq!(like.user_id, bob.id);
    assert_eq!(like.post_id, post.id);
    assert_eq!(like.created_at, NOW + 5);
    assert!(!like.deleted);
    assert_eq!(store.posts[0].like_count, 1);
}

#[test]
fn second_like_conflicts_and_counter_stays() {
    let mut store = Store::new();
    let alice = add_user(&mut store, "alice");
    let bob = add_user(&mut store, "bob");
    let post = store
        .create_post(&alice, "root".to_string(), None, NOW)
        .unwrap();
    store.like(&bob, &post.uuid, NOW).unwrap();
    let r = store.like(&bob, &post.uuid, NOW + 1);
    assert_eq!(r.unwrap_err(), ServiceError::Conflict);
    // increased by exactly one over the two calls, not two
    assert_eq!(store.posts[0].like_count, 1);
    assert_eq!(store.likes.len(), 1);
}

#[test]
fn two_users_like_same_post() {
    let mut store = Store::new();
    let alice = add_user(&mut store, "alice");
    let bob = add_user(&mut store, "bob");
    let post = store
        .create_post(&alice, "root".to_string(), None, NOW)
        .unwrap();
    store.like(&alice, &post.uuid, NOW).unwrap();
    store.like(&bob, &post.uuid, NOW).unwrap();
    assert_eq!(store.posts[0].like_count, 2);
}

#[test]
fn like_missing_post_not_found() {
    let mut store = Store::new();
    let alice = add_user(&mut store, "alice");
    let r = store.like(&alice, &"missing1".to_string(), NOW);
    assert_eq!(r.unwrap_err(), ServiceError::NotFound);
    assert_eq!(store.likes.len(), 0);
}

#[test]
fn unlike_never_liked_not_found() {
    let mut store = Store::new();
    let alice = add_user(&mut store, "alice");
    let bob = add_user(&mut store, "bob");
    let post = store
        .create_post(&alice, "root".to_string(), None, NOW)
        .unwrap();
    store.like(&alice, &post.uuid, NOW).unwrap();
    // bob never liked it
    let r = store.unlike(&bob, &post.uuid);
    assert_eq!(r.unwrap_err(), ServiceError::NotFound);
    // the counter is unchanged
    assert_eq!(store.posts[0].like_count, 1);
}

#[test]
fn unlike_soft_deletes_and_decrements() {
    let mut store = Store::new();
    let alice = add_user(&mut store, "alice");
    let bob = add_user(&mut store, "bob");
    let post = store
        .create_post(&alice, "root".to_string(), None, NOW)
        .unwrap();
    store.like(&bob, &post.uuid, NOW + 1).unwrap();
    let returned = store.unlike(&bob, &post.uuid).unwrap();
    // the row as it stood before the revocation comes back
    assert_eq!(returned.user_id, bob.id);
    assert!(!returned.deleted);
    // the row itself stays, marked deleted, and the counter drops
    assert_eq!(store.likes.len(), 1);
    assert!(store.likes[0].deleted);
    assert_eq!(store.posts[0].like_count, 0);
}

#[test]
fn like_unlike_like_succeeds_with_history() {
    let mut store = Store::new();
    let alice = add_user(&mut store, "alice");
    let bob = add_user(&mut store, "bob");
    let post = store
        .create_post(&alice, "root".to_string(), None, NOW)
        .unwrap();
    store.like(&bob, &post.uuid, NOW).unwrap();
    store.unlike(&bob, &post.uuid).unwrap();
    let third = store.like(&bob, &post.uuid, NOW + 2).unwrap();
    // a second like row exists: history is preserved
    assert_eq!(store.likes.len(), 2);
    assert!(store.likes[0].deleted);
    assert!(!store.likes[1].deleted);
    assert_eq!(third.id, 2);
    // and the counter is back to one
    assert_eq!(store.posts[0].like_count, 1);
}

#[test]
fn counters_match_rows_at_every_step() {
    let mut store = Store::new();
    let alice = add_user(&mut store, "alice");
    let bob = add_user(&mut store, "bob");
    let post = store
        .create_post(&alice, "root".to_string(), None, NOW)
        .unwrap();
    let active = |store: &Store, pid: i32| -> i32 {
        store
            .likes
            .iter()
            .filter(|l| l.post_id == pid && !l.deleted)
            .count() as i32
    };
    store.like(&alice, &post.uuid, NOW).unwrap();
    assert_eq!(store.posts[0].like_count, active(&store, post.id));
    store.like(&bob, &post.uuid, NOW).unwrap();
    assert_eq!(store.posts[0].like_count, active(&store, post.id));
    store.unlike(&alice, &post.uuid).unwrap();
    assert_eq!(store.posts[0].like_count, active(&store, post.id));
    store.unlike(&bob, &post.uuid).unwrap();
    assert_eq!(store.posts[0].like_count, active(&store, post.id));
}
