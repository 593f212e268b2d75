use vstd::prelude::*;
use crate::counting::count_where;

verus! {

/// A registered account. Rows are never removed; `deleted` marks an
/// account that no longer authenticates and no longer appears as a poster.
#[derive(Debug)]
pub struct User {
    pub id: i32,
    pub username: String,
    pub email: String,
    pub real_name: String,
    pub summary: String,
    pub password: String,
    pub created_at: u64,
    pub deleted: bool,
}

/// A post or a reply. `parent_id` is `None` for a top-level post.
/// `reply_count` and `like_count` are denormalized counters kept in sync
/// with the underlying rows by the mutating operations.
#[derive(Debug)]
pub struct Post {
    pub id: i32,
    pub uuid: String,
    pub parent_id: Option<i32>,
    pub poster_id: i32,
    pub body: String,
    pub created_at: u64,
    pub reply_count: i32,
    pub like_count: i32,
    pub deleted: bool,
}

/// A like edge between a user and a post. An unlike sets `deleted`
/// instead of removing the row, preserving history.
#[derive(Clone, Copy, Debug, PartialEq, Eq, Structural)]
pub struct Like {
    pub id: i32,
    pub user_id: i32,
    pub post_id: i32,
    pub created_at: u64,
    pub deleted: bool,
}

/// An uploaded file's metadata row; the bytes live outside the store.
#[derive(Debug)]
pub struct Attachment {
    pub id: i32,
    pub uploader_id: i32,
    pub uuid: String,
    pub file_name: String,
    pub uploaded_at: u64,
    pub deleted: bool,
}

/// The relational store, held in memory. Every mutating operation is a
/// single call, so each call is one atomic transaction: it either applies
/// all of its writes or returns an error and leaves the store unchanged.
#[derive(Debug)]
pub struct Store {
    pub users: Vec<User>,
    pub posts: Vec<Post>,
    pub likes: Vec<Like>,
    pub attachments: Vec<Attachment>,
}

/// Holds of the non-deleted posts whose parent reference is `pid`.
pub open spec fn reply_pred(pid: i32) -> spec_fn(Post) -> bool {
    |p: Post| p.parent_id == Some(pid) && !p.deleted
}

/// Holds of the non-deleted likes that reference post `pid`.
pub open spec fn like_pred(pid: i32) -> spec_fn(Like) -> bool {
    |l: Like| l.post_id == pid && !l.deleted
}

/// Number of non-deleted posts whose parent reference is `pid`.
pub open spec fn reply_count_of(posts: Seq<Post>, pid: i32) -> nat {
    count_where(posts, reply_pred(pid))
}

/// Number of non-deleted likes referencing post `pid`.
pub open spec fn like_count_of(likes: Seq<Like>, pid: i32) -> nat {
    count_where(likes, like_pred(pid))
}

pub open spec fn is_active_post_with_uuid(p: Post, u: Seq<char>) -> bool {
    p.uuid@ == u && !p.deleted
}

pub open spec fn has_active_post(posts: Seq<Post>, u: Seq<char>) -> bool {
    exists|i: int| 0 <= i < posts.len() && is_active_post_with_uuid(#[trigger] posts[i], u)
}

/// Index of the non-deleted post whose public identifier is `u`; meaningful
/// only when `has_active_post` holds (it is then unique, since public
/// identifiers never repeat).
pub open spec fn active_post_index(posts: Seq<Post>, u: Seq<char>) -> int {
    choose|i: int| 0 <= i < posts.len() && is_active_post_with_uuid(#[trigger] posts[i], u)
}

/// Some row, deleted or not, already carries the public identifier `u`.
pub open spec fn uuid_taken(posts: Seq<Post>, u: Seq<char>) -> bool {
    exists|i: int| 0 <= i < posts.len() && (#[trigger] posts[i]).uuid@ == u
}

pub open spec fn is_active_like(l: Like, uid: i32, pid: i32) -> bool {
    l.user_id == uid && l.post_id == pid && !l.deleted
}

pub open spec fn has_active_like(likes: Seq<Like>, uid: i32, pid: i32) -> bool {
    exists|i: int| 0 <= i < likes.len() && is_active_like(#[trigger] likes[i], uid, pid)
}

/// Index of the non-deleted like by `uid` on `pid`; meaningful only when
/// `has_active_like` holds (it is then unique, by the at-most-one-active-
/// like invariant).
pub open spec fn active_like_index(likes: Seq<Like>, uid: i32, pid: i32) -> int {
    choose|i: int| 0 <= i < likes.len() && is_active_like(#[trigger] likes[i], uid, pid)
}

pub open spec fn is_active_user_named(u: User, name: Seq<char>) -> bool {
    u.username@ == name && !u.deleted
}

pub open spec fn has_active_user(users: Seq<User>, name: Seq<char>) -> bool {
    exists|i: int| 0 <= i < users.len() && is_active_user_named(#[trigger] users[i], name)
}

/// Index of the non-deleted user named `name`; meaningful only when
/// `has_active_user` holds (it is then unique, since usernames never
/// repeat).
pub open spec fn active_user_index(users: Seq<User>, name: Seq<char>) -> int {
    choose|i: int| 0 <= i < users.len() && is_active_user_named(#[trigger] users[i], name)
}

/// Some row, deleted or not, already carries the username `name`.
pub open spec fn username_taken(users: Seq<User>, name: Seq<char>) -> bool {
    exists|i: int| 0 <= i < users.len() && (#[trigger] users[i]).username@ == name
}

pub open spec fn uuid_taken_att(atts: Seq<Attachment>, u: Seq<char>) -> bool {
    exists|i: int| 0 <= i < atts.len() && (#[trigger] atts[i]).uuid@ == u
}

impl Store {
    pub open spec fn users_wf(self) -> bool {
        &&& forall|i: int|
            0 <= i < self.users@.len() ==> (#[trigger] self.users@[i]).id == i + 1
        &&& forall|i: int, j: int|
            0 <= i < j < self.users@.len() ==> (#[trigger] self.users@[i]).username@ != (
            #[trigger] self.users@[j]).username@
    }

    pub open spec fn posts_wf(self) -> bool {
        &&& forall|i: int|
            0 <= i < self.posts@.len() ==> (#[trigger] self.posts@[i]).id == i + 1
        &&& forall|i: int, j: int|
            0 <= i < j < self.posts@.len() ==> (#[trigger] self.posts@[i]).uuid@ != (
            #[trigger] self.posts@[j]).uuid@
        &&& forall|i: int|
            0 <= i < self.posts@.len() ==> match (#[trigger] self.posts@[i]).parent_id {
                Some(p) => 1 <= p <= self.posts@.len(),
                None => true,
            }
        &&& forall|i: int|
            0 <= i < self.posts@.len() ==> 1 <= (#[trigger] self.posts@[i]).poster_id
                <= self.users@.len()
        &&& forall|i: int|
            0 <= i < self.posts@.len() ==> (#[trigger] self.posts@[i]).reply_count
                == reply_count_of(self.posts@, self.posts@[i].id)
        &&& forall|i: int|
            0 <= i < self.posts@.len() ==> (#[trigger] self.posts@[i]).like_count
                == like_count_of(self.likes@, self.posts@[i].id)
    }

    pub open spec fn likes_wf(self) -> bool {
        &&& forall|i: int|
            0 <= i < self.likes@.len() ==> (#[trigger] self.likes@[i]).id == i + 1
        &&& forall|i: int|
            0 <= i < self.likes@.len() ==> 1 <= (#[trigger] self.likes@[i]).user_id
                <= self.users@.len() && 1 <= self.likes@[i].post_id <= self.posts@.len()
        &&& forall|i: int, j: int|
            0 <= i < self.likes@.len() && 0 <= j < self.likes@.len() && i != j && !(
            #[trigger] self.likes@[i]).deleted && !(#[trigger] self.likes@[j]).deleted ==> !(
            self.likes@[i].user_id == self.likes@[j].user_id && self.likes@[i].post_id
                == self.likes@[j].post_id)
    }

    pub open spec fn attachments_wf(self) -> bool {
        &&& forall|i: int|
            0 <= i < self.attachments@.len() ==> (#[trigger] self.attachments@[i]).id == i + 1
        &&& forall|i: int|
            0 <= i < self.attachments@.len() ==> 1 <= (#[trigger] self.attachments@[i]).uploader_id
                <= self.users@.len()
        &&& forall|i: int, j: int|
            0 <= i < j < self.attachments@.len() ==> (#[trigger] self.attachments@[i]).uuid@ != (
            #[trigger] self.attachments@[j]).uuid@
    }

    /// The store's invariant: surrogate ids are dense and ordered, unique
    /// keys never repeat, references resolve, each denormalized counter
    /// equals the number of rows it stands for, and a user holds at most
    /// one non-deleted like on any post.
    pub open spec fn wf(self) -> bool {
        &&& self.users_wf()
        &&& self.posts_wf()
        &&& self.likes_wf()
        &&& self.attachments_wf()
    }

    pub fn new() -> (r: Store)
        ensures
            r.wf(),
            r.users@.len() == 0,
            r.posts@.len() == 0,
            r.likes@.len() == 0,
            r.attachments@.len() == 0,
    {
        Store { users: Vec::new(), posts: Vec::new(), likes: Vec::new(), attachments: Vec::new() }
    }
}

/// Locate the non-deleted post carrying the public identifier `u`.
pub fn find_active_post_index(posts: &Vec<Post>, u: &String) -> (r: Option<usize>)
    requires
        forall|i: int, j: int|
            0 <= i < j < posts@.len() ==> (#[trigger] posts@[i]).uuid@ != (
            #[trigger] posts@[j]).uuid@,
    ensures
        match r {
            Some(i) => i < posts@.len() && is_active_post_with_uuid(posts@[i as int], u@)
                && has_active_post(posts@, u@) && active_post_index(posts@, u@) == i as int,
            None => !has_active_post(posts@, u@),
        },
{
    let mut idx: usize = 0;
    while idx < posts.len()
        invariant
            idx <= posts@.len(),
            forall|k: int| 0 <= k < idx ==> !is_active_post_with_uuid(#[trigger] posts@[k], u@),
            forall|i: int, j: int|
                0 <= i < j < posts@.len() ==> (#[trigger] posts@[i]).uuid@ != (
                #[trigger] posts@[j]).uuid@,
        decreases posts@.len() - idx,
    {
        let p = &posts[idx];
        if !p.deleted && p.uuid == *u {
            proof {
                assert(is_active_post_with_uuid(posts@[idx as int], u@));
                let c = active_post_index(posts@, u@);
                assert(0 <= c < posts@.len() && is_active_post_with_uuid(posts@[c], u@));
                if c != idx as int {
                    assert(posts@[c].uuid@ != posts@[idx as int].uuid@);
                }
            }
            return Some(idx);
        }
        idx = idx + 1;
    }
    None
}

/// Locate the non-deleted like by user `uid` on post `pid`.
pub fn find_active_like_index(likes: &Vec<Like>, uid: i32, pid: i32) -> (r: Option<usize>)
    requires
        forall|i: int, j: int|
            0 <= i < likes@.len() && 0 <= j < likes@.len() && i != j && !(
            #[trigger] likes@[i]).deleted && !(#[trigger] likes@[j]).deleted ==> !(likes@[i].user_id
                == likes@[j].user_id && likes@[i].post_id == likes@[j].post_id),
    ensures
        match r {
            Some(i) => i < likes@.len() && is_active_like(likes@[i as int], uid, pid)
                && has_active_like(likes@, uid, pid) && active_like_index(likes@, uid, pid)
                == i as int,
            None => !has_active_like(likes@, uid, pid),
        },
{
    let mut idx: usize = 0;
    while idx < likes.len()
        invariant
            idx <= likes@.len(),
            forall|k: int| 0 <= k < idx ==> !is_active_like(#[trigger] likes@[k], uid, pid),
            forall|i: int, j: int|
                0 <= i < likes@.len() && 0 <= j < likes@.len() && i != j && !(
                #[trigger] likes@[i]).deleted && !(#[trigger] likes@[j]).deleted ==> !(
                likes@[i].user_id == likes@[j].user_id && likes@[i].post_id == likes@[j].post_id),
        decreases likes@.len() - idx,
    {
        let l = &likes[idx];
        if !l.deleted && l.user_id == uid && l.post_id == pid {
            proof {
                assert(is_active_like(likes@[idx as int], uid, pid));
                let c = active_like_index(likes@, uid, pid);
                assert(0 <= c < likes@.len() && is_active_like(likes@[c], uid, pid));
            }
            return Some(idx);
        }
        idx = idx + 1;
    }
    None
}

/// Locate the non-deleted user named `name`.
pub fn find_active_user_index(users: &Vec<User>, name: &String) -> (r: Option<usize>)
    requires
        forall|i: int, j: int|
            0 <= i < j < users@.len() ==> (#[trigger] users@[i]).username@ != (
            #[trigger] users@[j]).username@,
    ensures
        match r {
            Some(i) => i < users@.len() && is_active_user_named(users@[i as int], name@)
                && has_active_user(users@, name@) && active_user_index(users@, name@) == i as int,
            None => !has_active_user(users@, name@),
        },
{
    let mut idx: usize = 0;
    while idx < users.len()
        invariant
            idx <= users@.len(),
            forall|k: int| 0 <= k < idx ==> !is_active_user_named(#[trigger] users@[k], name@),
            forall|i: int, j: int|
                0 <= i < j < users@.len() ==> (#[trigger] users@[i]).username@ != (
                #[trigger] users@[j]).username@,
        decreases users@.len() - idx,
    {
        let us = &users[idx];
        if !us.deleted && us.username == *name {
            proof {
                assert(is_active_user_named(users@[idx as int], name@));
                let c = active_user_index(users@, name@);
                assert(0 <= c < users@.len() && is_active_user_named(users@[c], name@));
                if c != idx as int {
                    assert(users@[c].username@ != users@[idx as int].username@);
                }
            }
            return Some(idx);
        }
        idx = idx + 1;
    }
    None
}

/// Whether some row, deleted or not, already carries the public
/// identifier `u`.
pub fn post_uuid_taken(posts: &Vec<Post>, u: &String) -> (r: bool)
    ensures
        r == uuid_taken(posts@, u@),
{
    let mut idx: usize = 0;
    while idx < posts.len()
        invariant
            idx <= posts@.len(),
            forall|k: int| 0 <= k < idx ==> (#[trigger] posts@[k]).uuid@ != u@,
        decreases posts@.len() - idx,
    {
        if posts[idx].uuid == *u {
            return true;
        }
        idx = idx + 1;
    }
    false
}

/// Whether some row, deleted or not, already carries the username `name`.
pub fn user_name_taken(users: &Vec<User>, name: &String) -> (r: bool)
    ensures
        r == username_taken(users@, name@),
{
    let mut idx: usize = 0;
    while idx < users.len()
        invariant
            idx <= users@.len(),
            forall|k: int| 0 <= k < idx ==> (#[trigger] users@[k]).username@ != name@,
        decreases users@.len() - idx,
    {
        if users[idx].username == *name {
            return true;
        }
        idx = idx + 1;
    }
    false
}

} // verus!
