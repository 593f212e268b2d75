use vstd::prelude::*;
use crate::Pagination;
use crate::errors::ServiceError;
use crate::store::{
    Like, Post, Store, User, active_post_index, find_active_like_index, find_active_post_index,
    has_active_like, has_active_post,
};
use crate::users::UserDetails;

verus! {

/// The columns of a post's author that a listing shows.
#[derive(Debug)]
pub struct Poster {
    pub username: String,
    pub real_name: String,
}

/// The author part of a rendered post row.
#[derive(Debug)]
pub struct PosterRead {
    pub username: String,
    pub real_name: String,
}

/// A post row as a listing hands it out, with the viewer-dependent
/// `liked_by_user` flag resolved.
#[derive(Debug)]
pub struct PostRead {
    pub uuid: String,
    pub body: String,
    pub created_at: u64,
    pub reply_count: i32,
    pub like_count: i32,
    pub liked_by_user: bool,
    pub poster: PosterRead,
}

impl From<(Post, Poster, Option<Like>)> for PostRead {
    fn from(row: (Post, Poster, Option<Like>)) -> (r: PostRead) {
        let (post, poster, like) = row;
        PostRead {
            uuid: post.uuid,
            body: post.body,
            created_at: post.created_at,
            reply_count: post.reply_count,
            like_count: post.like_count,
            liked_by_user: like.is_some(),
            poster: PosterRead { username: poster.username, real_name: poster.real_name },
        }
    }
}

impl vstd::std_specs::convert::FromSpecImpl<(Post, Poster, Option<Like>)> for PostRead {
    open spec fn obeys_from_spec() -> bool {
        true
    }

    open spec fn from_spec(row: (Post, Poster, Option<Like>)) -> PostRead {
        PostRead {
            uuid: row.0.uuid,
            body: row.0.body,
            created_at: row.0.created_at,
            reply_count: row.0.reply_count,
            like_count: row.0.like_count,
            liked_by_user: row.2 is Some,
            poster: PosterRead { username: row.1.username, real_name: row.1.real_name },
        }
    }
}

/// The rendering of the post at index `i`, as seen by user `uid`.
pub open spec fn post_read_at(s: Store, uid: i32, i: int) -> PostRead {
    let p = s.posts@[i];
    let u = s.users@[p.poster_id - 1];
    PostRead {
        uuid: p.uuid,
        body: p.body,
        created_at: p.created_at,
        reply_count: p.reply_count,
        like_count: p.like_count,
        liked_by_user: has_active_like(s.likes@, uid, p.id),
        poster: PosterRead { username: u.username, real_name: u.real_name },
    }
}

/// The indexes below `i` whose rows satisfy `f`, in ascending order.
pub open spec fn rows_asc(s: Store, f: spec_fn(Store, int) -> bool, i: int) -> Seq<int>
    decreases i,
{
    if i <= 0 {
        Seq::empty()
    } else if f(s, i - 1) {
        rows_asc(s, f, i - 1).push(i - 1)
    } else {
        rows_asc(s, f, i - 1)
    }
}

/// Creation timestamps never decrease along the table: rows were
/// inserted in time order. The running system reads a monotone clock, so
/// every store it builds satisfies this; under it, recency order and
/// insertion order coincide.
pub open spec fn timestamps_monotone(s: Store) -> bool {
    forall|i: int, j: int|
        0 <= i < j < s.posts@.len() ==> (#[trigger] s.posts@[i]).created_at <= (
        #[trigger] s.posts@[j]).created_at
}

/// The collected indexes ascend strictly and stay within `[0, i)`.
pub proof fn lemma_rows_asc_increasing(s: Store, f: spec_fn(Store, int) -> bool, i: int)
    ensures
        forall|k: int|
            0 <= k < rows_asc(s, f, i).len() ==> 0 <= #[trigger] rows_asc(s, f, i)[k] < i,
        forall|a: int, b: int|
            #![trigger rows_asc(s, f, i)[a], rows_asc(s, f, i)[b]]
            0 <= a < b < rows_asc(s, f, i).len() ==> rows_asc(s, f, i)[a] < rows_asc(s, f, i)[b],
    decreases i,
{
    if i > 0 {
        lemma_rows_asc_increasing(s, f, i - 1);
        let prev = rows_asc(s, f, i - 1);
        let cur = rows_asc(s, f, i);
        assert forall|k: int| 0 <= k < cur.len() implies 0 <= #[trigger] cur[k] < i by {
            if k < prev.len() {
                assert(cur[k] == prev[k]);
            }
        };
        assert forall|a: int, b: int|
            #![trigger cur[a], cur[b]]
            0 <= a < b < cur.len() implies cur[a] < cur[b] by {
            assert(cur[a] == prev[a]);
            if b < prev.len() {
                assert(cur[b] == prev[b]);
            }
        };
    }
}

/// Under a monotone table, a listing that hands out matching rows from
/// the last insert down shows creation timestamps in non-increasing
/// order.
pub(crate) proof fn lemma_newest_first_ordered(
    s: Store,
    f: spec_fn(Store, int) -> bool,
    p: Pagination,
    uid: i32,
    out: Seq<PostRead>,
)
    requires
        timestamps_monotone(s),
        ({
            let rows = rows_asc(s, f, s.posts@.len() as int);
            let skip = page_skip(p, rows.len() as int);
            let cnt = page_count(p, rows.len() as int);
            &&& out.len() == cnt
            &&& forall|k: int|
                0 <= k < cnt ==> out[k] == post_read_at(s, uid, rows[rows.len() - 1 - (skip + k)])
        }),
    ensures
        forall|a: int, b: int|
            0 <= a < b < out.len() ==> (#[trigger] out[a]).created_at >= (
            #[trigger] out[b]).created_at,
{
    let rows = rows_asc(s, f, s.posts@.len() as int);
    let skip = page_skip(p, rows.len() as int);
    lemma_rows_asc_increasing(s, f, s.posts@.len() as int);
    assert forall|a: int, b: int|
        0 <= a < b < out.len() implies (#[trigger] out[a]).created_at >= (
    #[trigger] out[b]).created_at by {
        let xa = rows.len() - 1 - (skip + a);
        let xb = rows.len() - 1 - (skip + b);
        assert(out[a] == post_read_at(s, uid, rows[xa]));
        assert(out[b] == post_read_at(s, uid, rows[xb]));
        assert(rows[xb] < rows[xa]);
        assert(s.posts@[rows[xb]].created_at <= s.posts@[rows[xa]].created_at);
    };
}

/// Under a monotone table, a listing that hands out matching rows in
/// insertion order shows creation timestamps in non-decreasing order.
pub(crate) proof fn lemma_oldest_first_ordered(
    s: Store,
    f: spec_fn(Store, int) -> bool,
    p: Pagination,
    uid: i32,
    out: Seq<PostRead>,
)
    requires
        timestamps_monotone(s),
        ({
            let rows = rows_asc(s, f, s.posts@.len() as int);
            let skip = page_skip(p, rows.len() as int);
            let cnt = page_count(p, rows.len() as int);
            &&& out.len() == cnt
            &&& forall|k: int| 0 <= k < cnt ==> out[k] == post_read_at(s, uid, rows[skip + k])
        }),
    ensures
        forall|a: int, b: int|
            0 <= a < b < out.len() ==> (#[trigger] out[a]).created_at <= (
            #[trigger] out[b]).created_at,
{
    let rows = rows_asc(s, f, s.posts@.len() as int);
    let skip = page_skip(p, rows.len() as int);
    lemma_rows_asc_increasing(s, f, s.posts@.len() as int);
    assert forall|a: int, b: int|
        0 <= a < b < out.len() implies (#[trigger] out[a]).created_at <= (
    #[trigger] out[b]).created_at by {
        assert(out[a] == post_read_at(s, uid, rows[skip + a]));
        assert(out[b] == post_read_at(s, uid, rows[skip + b]));
        assert(rows[skip + a] < rows[skip + b]);
        assert(s.posts@[rows[skip + a]].created_at <= s.posts@[rows[skip + b]].created_at);
    };
}

/// A row the feed lists: a non-deleted top-level post whose author is
/// not soft-deleted.
pub open spec fn feed_pred() -> spec_fn(Store, int) -> bool {
    |s: Store, i: int|
        {
            &&& !s.posts@[i].deleted
            &&& s.posts@[i].parent_id is None
            &&& !s.users@[s.posts@[i].poster_id - 1].deleted
        }
}

/// A row the reply listing under post id `pid` shows: a non-deleted
/// reply to it whose author is not soft-deleted.
pub open spec fn reply_row_pred(pid: i32) -> spec_fn(Store, int) -> bool {
    |s: Store, i: int|
        {
            &&& !s.posts@[i].deleted
            &&& s.posts@[i].parent_id == Some(pid)
            &&& !s.users@[s.posts@[i].poster_id - 1].deleted
        }
}

/// How a pagination window falls on a listing of `n` rows: the number of
/// rows skipped (a negative offset skips nothing).
pub open spec fn page_skip(p: Pagination, n: int) -> int {
    if p.offset < 0 {
        0
    } else {
        p.offset as int
    }
}

/// How many rows of `n` the window returns (a negative limit means no
/// bound, as the underlying store's listing primitive treats it).
pub open spec fn page_count(p: Pagination, n: int) -> int {
    let skip = page_skip(p, n);
    let avail = if n - skip < 0 {
        0
    } else {
        n - skip
    };
    let take = if p.limit < 0 {
        n
    } else {
        p.limit as int
    };
    if take < avail {
        take
    } else {
        avail
    }
}

impl Store {
    /// Render the post at `idx` for viewer `uid`.
    fn post_read_of(&self, uid: i32, idx: usize) -> (r: PostRead)
        requires
            self.wf(),
            idx < self.posts@.len(),
        ensures
            r == post_read_at(*self, uid, idx as int),
    {
        let p = &self.posts[idx];
        let liked = find_active_like_index(&self.likes, uid, p.id).is_some();
        let u = &self.users[(p.poster_id - 1) as usize];
        PostRead {
            uuid: p.uuid.clone(),
            body: p.body.clone(),
            created_at: p.created_at,
            reply_count: p.reply_count,
            like_count: p.like_count,
            liked_by_user: liked,
            poster: PosterRead { username: u.username.clone(), real_name: u.real_name.clone() },
        }
    }

    /// The feed: non-deleted top-level posts by non-deleted authors,
    /// newest first, under the pagination window.
    pub fn get_feed(&self, current_user: &UserDetails, pagination: &Pagination) -> (r: Vec<
        PostRead,
    >)
        requires
            self.wf(),
        ensures
            ({
                let rows = rows_asc(*self, feed_pred(), self.posts@.len() as int);
                let skip = page_skip(*pagination, rows.len() as int);
                let cnt = page_count(*pagination, rows.len() as int);
                &&& r@.len() == cnt
                &&& forall|k: int|
                    0 <= k < cnt ==> r@[k] == post_read_at(
                        *self,
                        current_user.id,
                        rows[rows.len() - 1 - (skip + k)],
                    )
                &&& (timestamps_monotone(*self) ==> forall|a: int, b: int|
                    0 <= a < b < cnt ==> (#[trigger] r@[a]).created_at >= (
                    #[trigger] r@[b]).created_at)
            }),
    {
        let rows_v = self.collect_feed_rows();
        let out = self.page_newest_first(current_user, pagination, &rows_v);
        proof {
            if timestamps_monotone(*self) {
                let rows = rows_asc(*self, feed_pred(), self.posts@.len() as int);
                let skip = page_skip(*pagination, rows.len() as int);
                let cnt = page_count(*pagination, rows.len() as int);
                assert forall|k: int|
                    0 <= k < cnt implies out@[k] == post_read_at(
                    *self,
                    current_user.id,
                    rows[rows.len() - 1 - (skip + k)],
                ) by {
                    assert(rows_v@[rows.len() - 1 - (skip + k)] == rows[rows.len() - 1 - (skip
                        + k)]);
                };
                lemma_newest_first_ordered(*self, feed_pred(), *pagination, current_user.id, out@);
            }
        }
        out
    }

    /// The indexes of the feed's rows, ascending.
    fn collect_feed_rows(&self) -> (rows: Vec<usize>)
        requires
            self.wf(),
        ensures
            rows@.len() == rows_asc(*self, feed_pred(), self.posts@.len() as int).len(),
            forall|k: int|
                0 <= k < rows@.len() ==> #[trigger] rows@[k] == rows_asc(
                    *self,
                    feed_pred(),
                    self.posts@.len() as int,
                )[k],
            forall|k: int| 0 <= k < rows@.len() ==> #[trigger] rows@[k] < self.posts@.len(),
    {
        let mut rows: Vec<usize> = Vec::new();
        let mut i: usize = 0;
        while i < self.posts.len()
            invariant
                self.wf(),
                i <= self.posts@.len(),
                rows@.len() == rows_asc(*self, feed_pred(), i as int).len(),
                forall|k: int|
                    0 <= k < rows@.len() ==> #[trigger] rows@[k] == rows_asc(
                        *self,
                        feed_pred(),
                        i as int,
                    )[k],
                forall|k: int| 0 <= k < rows@.len() ==> #[trigger] rows@[k] < self.posts@.len(),
            decreases self.posts@.len() - i,
        {
            let p = &self.posts[i];
            if !p.deleted && p.parent_id.is_none() {
                let u = &self.users[(p.poster_id - 1) as usize];
                if !u.deleted {
                    rows.push(i);
                }
            }
            proof {
                let f = feed_pred();
                let i_ = i as int;
                assert(rows_asc(*self, f, i_ + 1) == if f(*self, i_) {
                    rows_asc(*self, f, i_).push(i_)
                } else {
                    rows_asc(*self, f, i_)
                });
                assert(f(*self, i_) == (!self.posts@[i_].deleted && self.posts@[i_].parent_id
                    is None && !self.users@[self.posts@[i_].poster_id - 1].deleted));
            }
            i = i + 1;
        }
        rows
    }

    /// Apply the pagination window to `rows`, walking it newest-first
    /// (from the last collected index down).
    pub(crate) fn page_newest_first(
        &self,
        current_user: &UserDetails,
        pagination: &Pagination,
        rows: &Vec<usize>,
    ) -> (r: Vec<PostRead>)
        requires
            self.wf(),
            forall|k: int| 0 <= k < rows@.len() ==> #[trigger] rows@[k] < self.posts@.len(),
        ensures
            ({
                let skip = page_skip(*pagination, rows@.len() as int);
                let cnt = page_count(*pagination, rows@.len() as int);
                &&& r@.len() == cnt
                &&& forall|k: int|
                    0 <= k < cnt ==> r@[k] == post_read_at(
                        *self,
                        current_user.id,
                        rows@[rows@.len() - 1 - (skip + k)] as int,
                    )
            }),
    {
        let skip: usize = if pagination.offset < 0 {
            0
        } else {
            pagination.offset as usize
        };
        let mut out: Vec<PostRead> = Vec::new();
        if skip >= rows.len() {
            return out;
        }
        let remaining = rows.len() - skip;
        let cnt: usize = if pagination.limit < 0 {
            remaining
        } else if (pagination.limit as usize) < remaining {
            pagination.limit as usize
        } else {
            remaining
        };
        let mut k: usize = 0;
        while k < cnt
            invariant
                self.wf(),
                forall|j: int| 0 <= j < rows@.len() ==> #[trigger] rows@[j] < self.posts@.len(),
                skip + cnt <= rows@.len(),
                k <= cnt,
                out@.len() == k,
                forall|j: int|
                    0 <= j < k ==> out@[j] == post_read_at(
                        *self,
                        current_user.id,
                        rows@[rows@.len() - 1 - (skip + j)] as int,
                    ),
            decreases cnt - k,
        {
            let idx = rows[rows.len() - 1 - (skip + k)];
            let item = self.post_read_of(current_user.id, idx);
            out.push(item);
            k = k + 1;
        }
        out
    }

    /// Render one non-deleted post, located by its public identifier, for
    /// the viewer. Fails `NotFound` when no such post exists or when its
    /// author is soft-deleted (a deleted user no longer appears as a
    /// poster).
    pub fn get_post_details(&self, current_user: &UserDetails, target_post_uuid: &String) -> (r:
        Result<PostRead, ServiceError>)
        requires
            self.wf(),
        ensures
            ({
                if !has_active_post(self.posts@, target_post_uuid@) {
                    r == Err::<PostRead, ServiceError>(ServiceError::NotFound)
                } else {
                    let pi = active_post_index(self.posts@, target_post_uuid@);
                    if self.users@[self.posts@[pi].poster_id - 1].deleted {
                        r == Err::<PostRead, ServiceError>(ServiceError::NotFound)
                    } else {
                        r == Ok::<PostRead, ServiceError>(
                            post_read_at(*self, current_user.id, pi),
                        )
                    }
                }
            }),
    {
        let pi = match find_active_post_index(&self.posts, target_post_uuid) {
            Some(pi) => pi,
            None => {
                return Err(ServiceError::NotFound);
            },
        };
        let poster_idx = (self.posts[pi].poster_id - 1) as usize;
        if self.users[poster_idx].deleted {
            return Err(ServiceError::NotFound);
        }
        Ok(self.post_read_of(current_user.id, pi))
    }

    /// The non-deleted replies to one non-deleted post (located by its
    /// public identifier) by non-deleted authors, oldest first, under the
    /// pagination window. Fails `NotFound` when the post is absent.
    pub fn get_replies(
        &self,
        current_user: &UserDetails,
        target_post_uuid: &String,
        pagination: &Pagination,
    ) -> (r: Result<Vec<PostRead>, ServiceError>)
        requires
            self.wf(),
        ensures
            ({
                if !has_active_post(self.posts@, target_post_uuid@) {
                    r == Err::<Vec<PostRead>, ServiceError>(ServiceError::NotFound)
                } else {
                    let pid = self.posts@[active_post_index(self.posts@, target_post_uuid@)].id;
                    let rows = rows_asc(*self, reply_row_pred(pid), self.posts@.len() as int);
                    let skip = page_skip(*pagination, rows.len() as int);
                    let cnt = page_count(*pagination, rows.len() as int);
                    &&& r matches Ok(out)
                    &&& out@.len() == cnt
                    &&& forall|k: int|
                        0 <= k < cnt ==> out@[k] == post_read_at(
                            *self,
                            current_user.id,
                            rows[skip + k],
                        )
                    &&& (timestamps_monotone(*self) ==> forall|a: int, b: int|
                        0 <= a < b < cnt ==> (#[trigger] out@[a]).created_at <= (
                        #[trigger] out@[b]).created_at)
                }
            }),
    {
        let pi = match find_active_post_index(&self.posts, target_post_uuid) {
            Some(pi) => pi,
            None => {
                return Err(ServiceError::NotFound);
            },
        };
        let pid = self.posts[pi].id;
        let mut rows: Vec<usize> = Vec::new();
        let mut i: usize = 0;
        while i < self.posts.len()
            invariant
                self.wf(),
                i <= self.posts@.len(),
                rows@.len() == rows_asc(*self, reply_row_pred(pid), i as int).len(),
                forall|k: int|
                    0 <= k < rows@.len() ==> #[trigger] rows@[k] == rows_asc(
                        *self,
                        reply_row_pred(pid),
                        i as int,
                    )[k],
                forall|k: int| 0 <= k < rows@.len() ==> #[trigger] rows@[k] < self.posts@.len(),
            decreases self.posts@.len() - i,
        {
            let p = &self.posts[i];
            let is_reply = match p.parent_id {
                Some(q) => q == pid,
                None => false,
            };
            if !p.deleted && is_reply {
                let u = &self.users[(p.poster_id - 1) as usize];
                if !u.deleted {
                    rows.push(i);
                }
            }
            proof {
                let f = reply_row_pred(pid);
                let i_ = i as int;
                assert(rows_asc(*self, f, i_ + 1) == if f(*self, i_) {
                    rows_asc(*self, f, i_).push(i_)
                } else {
                    rows_asc(*self, f, i_)
                });
                assert(f(*self, i_) == (!self.posts@[i_].deleted && self.posts@[i_].parent_id
                    == Some(pid) && !self.users@[self.posts@[i_].poster_id - 1].deleted));
            }
            i = i + 1;
        }
        let skip: usize = if pagination.offset < 0 {
            0
        } else {
            pagination.offset as usize
        };
        let mut out: Vec<PostRead> = Vec::new();
        if skip >= rows.len() {
            return Ok(out);
        }
        let remaining = rows.len() - skip;
        let cnt: usize = if pagination.limit < 0 {
            remaining
        } else if (pagination.limit as usize) < remaining {
            pagination.limit as usize
        } else {
            remaining
        };
        let mut k: usize = 0;
        while k < cnt
            invariant
                self.wf(),
                forall|j: int| 0 <= j < rows@.len() ==> #[trigger] rows@[j] < self.posts@.len(),
                rows@.len() <= usize::MAX,
                skip + cnt <= rows@.len(),
                k <= cnt,
                out@.len() == k,
                forall|j: int|
                    0 <= j < k ==> out@[j] == post_read_at(
                        *self,
                        current_user.id,
                        rows@[skip + j] as int,
                    ),
            decreases cnt - k,
        {
            proof {
                assert(skip + k < rows@.len());
            }
            let idx = rows[skip + k];
            let item = self.post_read_of(current_user.id, idx);
            out.push(item);
            k = k + 1;
        }
        proof {
            if timestamps_monotone(*self) {
                let rows_s = rows_asc(*self, reply_row_pred(pid), self.posts@.len() as int);
                let skip_s = page_skip(*pagination, rows_s.len() as int);
                let cnt_s = page_count(*pagination, rows_s.len() as int);
                assert forall|j: int|
                    0 <= j < cnt_s implies out@[j] == post_read_at(
                    *self,
                    current_user.id,
                    rows_s[skip_s + j],
                ) by {
                    assert(rows@[skip_s + j] == rows_s[skip_s + j]);
                };
                lemma_oldest_first_ordered(
                    *self,
                    reply_row_pred(pid),
                    *pagination,
                    current_user.id,
                    out@,
                );
            }
        }
        Ok(out)
    }
}

} // verus!
