use microblogs::AppState;
use microblogs::Pagination;
use microblogs::attachments::{attachment_path, validate_upload_file};
use microblogs::errors::ServiceError;
use microblogs::feeds::{Poster, PostRead};
use microblogs::profiles::get_profile;
use microblogs::store::{Post, Store};
use microblogs::users::UserDetails;

const NOW: u64 = 1_700_000_000;

fn add_user(store: &mut Store, name: &str) -> UserDetails {
    store
        .register_user_hashed(
            name.to_string(),
            format!("{}@example.org", name),
            format!("{} Real", name),
            format!("about {}", name),
            "stored-hash".to_string(),
            NOW,
        )
        .unwrap()
}

fn page(offset: i32, limit: i32) -> Pagination {
    Pagination { offset, limit }
}

#[test]
fn feed_lists_top_level_newest_first() {
    let mut store = Store::new();
    let alice = add_user(&mut store, "alice");
    let p1 = store.create_post(&alice, "one".to_string(), None, NOW).unwrap();
    let p2 = store.create_post(&alice, "two".to_string(), None, NOW + 1).unwrap();
    // a reply never shows in the feed
    store
        .create_post(&alice, "reply".to_string(), Some(&p1.uuid), NOW + 2)
        .unwrap();
    let feed = store.get_feed(&alice, &page(0, 10));
    assert_eq!(feed.len(), 2);
    assert_eq!(feed[0].uuid, p2.uuid);
    assert_eq!(feed[1].uuid, p1.uuid);
    assert_eq!(feed[0].poster.username, "alice");
    assert_eq!(feed[0].poster.real_name, "alice Real");
}

#[test]
fn feed_pagination_window() {
    let mut store = Store::new();
    let alice = add_user(&mut store, "alice");
    for k in 0..5u64 {
        store
            .create_post(&alice, format!("post {}", k), None, NOW + k)
            .unwrap();
    }
    let window = store.get_feed(&alice, &page(1, 2));
    assert_eq!(window.len(), 2);
    assert_eq!(window[0].body, "post 3");
    assert_eq!(window[1].body, "post 2");
    // a negative offset skips nothing; a negative limit bounds nothing
    let all = store.get_feed(&alice, &page(-3, -1));
    assert_eq!(all.len(), 5);
    // an offset past the end yields nothing
    let none = store.get_feed(&alice, &page(9, 10));
    assert_eq!(none.len(), 0);
}

#[test]
fn feed_hides_deleted_posters_posts() {
    let mut store = Store::new();
    let alice = add_user(&mut store, "alice");
    let bob = add_user(&mut store, "bob");
    store.create_post(&alice, "a".to_string(), None, NOW).unwrap();
    store.create_post(&bob, "b".to_string(), None, NOW + 1).unwrap();
    store.soft_delete_user(&"bob".to_string()).unwrap();
    let feed = store.get_feed(&alice, &page(0, 10));
    assert_eq!(feed.len(), 1);
    assert_eq!(feed[0].body, "a");
}

#[test]
fn feed_marks_liked_by_viewer() {
    let mut store = Store::new();
    let alice = add_user(&mut store, "alice");
    let bob = add_user(&mut store, "bob");
    let p = store.create_post(&alice, "a".to_string(), None, NOW).unwrap();
    store.like(&bob, &p.uuid, NOW).unwrap();
    let feed_bob = store.get_feed(&bob, &page(0, 10));
    assert!(feed_bob[0].liked_by_user);
    assert_eq!(feed_bob[0].like_count, 1);
    let feed_alice = store.get_feed(&alice, &page(0, 10));
    assert!(!feed_alice[0].liked_by_user);
}

#[test]
fn post_details_found_and_missing() {
    let mut store = Store::new();
    let alice = add_user(&mut store, "alice");
    let p = store.create_post(&alice, "hello".to_string(), None, NOW).unwrap();
    let d = store.get_post_details(&alice, &p.uuid).unwrap();
    assert_eq!(d.body, "hello");
    assert_eq!(d.reply_count, 0);
    let r = store.get_post_details(&alice, &"missing1".to_string());
    assert_eq!(r.unwrap_err(), ServiceError::NotFound);
}

#[test]
fn replies_listed_oldest_first() {
    let mut store = Store::new();
    let alice = add_user(&mut store, "alice");
    let root = store.create_post(&alice, "root".to_string(), None, NOW).unwrap();
    store
        .create_post(&alice, "r1".to_string(), Some(&root.uuid), NOW + 1)
        .unwrap();
    store
        .create_post(&alice, "r2".to_string(), Some(&root.uuid), NOW + 2)
        .unwrap();
    let replies = store.get_replies(&alice, &root.uuid, &page(0, 10)).unwrap();
    assert_eq!(replies.len(), 2);
    assert_eq!(replies[0].body, "r1");
    assert_eq!(replies[1].body, "r2");
    let r = store.get_replies(&alice, &"missing1".to_string(), &page(0, 10));
    assert_eq!(r.unwrap_err(), ServiceError::NotFound);
}

#[test]
fn profile_found_and_missing() {
    let mut store = Store::new();
    add_user(&mut store, "alice");
    let p = get_profile(&store, &"alice".to_string()).unwrap();
    assert_eq!(p.username, "alice");
    assert_eq!(p.real_name, "alice Real");
    assert_eq!(p.summary, "about alice");
    assert_eq!(p.created_at, NOW);
    let r = get_profile(&store, &"ghost".to_string());
    assert_eq!(r.unwrap_err(), ServiceError::NotFound);
}

#[test]
fn profile_of_deleted_user_missing() {
    let mut store = Store::new();
    add_user(&mut store, "alice");
    store.soft_delete_user(&"alice".to_string()).unwrap();
    let r = get_profile(&store, &"alice".to_string());
    assert_eq!(r.unwrap_err(), ServiceError::NotFound);
}

#[test]
fn profile_posts_newest_first_including_replies() {
    let mut store = Store::new();
    let alice = add_user(&mut store, "alice");
    let bob = add_user(&mut store, "bob");
    let root = store.create_post(&alice, "root".to_string(), None, NOW).unwrap();
    store.create_post(&bob, "not hers".to_string(), None, NOW + 1).unwrap();
    store
        .create_post(&alice, "her reply".to_string(), Some(&root.uuid), NOW + 2)
        .unwrap();
    let posts = store.get_profile_posts(&bob, &"alice".to_string(), &page(0, 10));
    assert_eq!(posts.len(), 2);
    assert_eq!(posts[0].body, "her reply");
    assert_eq!(posts[1].body, "root");
    // an unknown user yields an empty listing
    let none = store.get_profile_posts(&bob, &"ghost".to_string(), &page(0, 10));
    assert_eq!(none.len(), 0);
}

#[test]
fn post_read_from_row() {
    let post = Post {
        id: 7,
        uuid: "abcd1234".to_string(),
        parent_id: None,
        poster_id: 3,
        body: "text".to_string(),
        created_at: NOW,
        reply_count: 2,
        like_count: 5,
        deleted: false,
    };
    let poster = Poster { username: "carol".to_string(), real_name: "Carol".to_string() };
    let read = PostRead::from((post, poster, None));
    assert_eq!(read.uuid, "abcd1234");
    assert_eq!(read.body, "text");
    assert_eq!(read.created_at, NOW);
    assert_eq!(read.reply_count, 2);
    assert_eq!(read.like_count, 5);
    assert!(!read.liked_by_user);
    assert_eq!(read.poster.username, "carol");
    assert_eq!(read.poster.real_name, "Carol");
}

#[test]
fn validate_upload_file_rules() {
    let ct = |s: &str| s.to_string();
    let jpg = "photo.jpg".to_string();
    // a valid image
    let ok = validate_upload_file(Some(&ct("image/jpeg")), Some(&jpg)).unwrap();
    assert_eq!(ok, "photo.jpg");
    // a valid video, name with several dots keeps its last extension
    let clip = "my.holiday.mp4".to_string();
    let ok2 = validate_upload_file(Some(&ct("video/mp4")), Some(&clip)).unwrap();
    assert_eq!(ok2, "my.holiday.mp4");
    // no content type
    let r = validate_upload_file(None, Some(&jpg));
    assert_eq!(r.unwrap_err(), ServiceError::ValidationFailure);
    // a type that is neither image nor video
    let r = validate_upload_file(Some(&ct("application/pdf")), Some(&jpg));
    assert_eq!(r.unwrap_err(), ServiceError::ValidationFailure);
    // no file name
    let r = validate_upload_file(Some(&ct("image/png")), None);
    assert_eq!(r.unwrap_err(), ServiceError::ValidationFailure);
    // no extension
    let r = validate_upload_file(Some(&ct("image/png")), Some(&"noext".to_string()));
    assert_eq!(r.unwrap_err(), ServiceError::ValidationFailure);
    // a dotfile has no stem
    let r = validate_upload_file(Some(&ct("image/png")), Some(&".gitignore".to_string()));
    assert_eq!(r.unwrap_err(), ServiceError::ValidationFailure);
    // a trailing dot has no extension
    let r = validate_upload_file(Some(&ct("image/png")), Some(&"name.".to_string()));
    assert_eq!(r.unwrap_err(), ServiceError::ValidationFailure);
}

#[test]
fn attachment_rows_and_path() {
    let mut store = Store::new();
    let alice = add_user(&mut store, "alice");
    let entries = vec![
        ("att-0001".to_string(), "a.png".to_string()),
        ("att-0002".to_string(), "b.mp4".to_string()),
    ];
    let out = store.add_attachments(&alice, &entries, NOW).unwrap();
    assert_eq!(out.len(), 2);
    assert_eq!(out[0].id, 1);
    assert_eq!(out[1].id, 2);
    assert_eq!(out[0].uuid, "att-0001");
    assert_eq!(out[1].file_name, "b.mp4");
    assert_eq!(store.attachments.len(), 2);

    let dir = "/srv/uploads".to_string();
    let path = store.get_attachment_path(&dir, &"att-0002".to_string()).unwrap();
    assert_eq!(path, "/srv/uploads/att-0002/b.mp4");
    let r = store.get_attachment_path(&dir, &"att-none".to_string());
    assert_eq!(r.unwrap_err(), ServiceError::NotFound);
}

#[test]
fn attachment_batch_is_all_or_nothing() {
    let mut store = Store::new();
    let alice = add_user(&mut store, "alice");
    let first = vec![("att-0001".to_string(), "a.png".to_string())];
    store.add_attachments(&alice, &first, NOW).unwrap();
    // one entry of the batch collides: nothing of the batch is inserted
    let batch = vec![
        ("att-0009".to_string(), "fresh.png".to_string()),
        ("att-0001".to_string(), "dup.png".to_string()),
    ];
    let r = store.add_attachments(&alice, &batch, NOW);
    assert_eq!(r.unwrap_err(), ServiceError::Conflict);
    assert_eq!(store.attachments.len(), 1);
    // a batch that repeats an identifier within itself is refused too
    let twice = vec![
        ("att-0007".to_string(), "x.png".to_string()),
        ("att-0007".to_string(), "y.png".to_string()),
    ];
    let r = store.add_attachments(&alice, &twice, NOW);
    assert_eq!(r.unwrap_err(), ServiceError::Conflict);
    assert_eq!(store.attachments.len(), 1);
}

#[test]
fn attachment_path_joins_with_slashes() {
    let p = attachment_path(
        &"uploads".to_string(),
        &"u1".to_string(),
        &"f.png".to_string(),
    );
    assert_eq!(p, "uploads/u1/f.png");
}

#[test]
fn app_state_carries_configuration() {
    let state = AppState {
        secret_key: "a-signing-secret".to_string(),
        uploads_dir: "/srv/uploads".to_string(),
    };
    assert_eq!(state.uploads_dir, "/srv/uploads");
    assert!(!state.secret_key.is_empty());
}
