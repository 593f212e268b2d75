use vstd::prelude::*;
use crate::Pagination;
use crate::errors::ServiceError;
use crate::feeds::{
    PostRead, lemma_newest_first_ordered, page_count, page_skip, post_read_at, rows_asc,
    timestamps_monotone,
};
use crate::store::{Store, active_user_index, find_active_user_index, has_active_user};
use crate::users::UserDetails;

verus! {

/// The columns of an account that its public profile shows — never the
/// password hash.
#[derive(Debug)]
pub struct Profile {
    pub username: String,
    pub real_name: String,
    pub summary: String,
    pub created_at: u64,
}

/// Look up the non-deleted user named `target_username` and render the
/// public profile columns. Fails `NotFound` when no such user exists.
pub fn get_profile(store: &Store, target_username: &String) -> (r: Result<Profile, ServiceError>)
    requires
        store.wf(),
    ensures
        ({
            if !has_active_user(store.users@, target_username@) {
                r == Err::<Profile, ServiceError>(ServiceError::NotFound)
            } else {
                let u = store.users@[active_user_index(store.users@, target_username@)];
                &&& r matches Ok(p)
                &&& p.username@ == u.username@
                &&& p.real_name@ == u.real_name@
                &&& p.summary@ == u.summary@
                &&& p.created_at == u.created_at
            }
        }),
{
    let ui = match find_active_user_index(&store.users, target_username) {
        Some(ui) => ui,
        None => {
            return Err(ServiceError::NotFound);
        },
    };
    let u = &store.users[ui];
    Ok(Profile {
        username: u.username.clone(),
        real_name: u.real_name.clone(),
        summary: u.summary.clone(),
        created_at: u.created_at,
    })
}

/// A row the profile listing for user id `uid` shows: a non-deleted post
/// (reply or top-level) authored by that user.
pub open spec fn profile_post_pred(uid: i32) -> spec_fn(Store, int) -> bool {
    |s: Store, i: int|
        {
            &&& !s.posts@[i].deleted
            &&& s.posts@[i].poster_id == uid
        }
}

impl Store {
    /// The non-deleted posts authored by the non-deleted user named
    /// `target_username`, newest first, under the pagination window. An
    /// unknown or soft-deleted user yields an empty listing, as a listing
    /// over zero rows would.
    pub fn get_profile_posts(
        &self,
        current_user: &UserDetails,
        target_username: &String,
        pagination: &Pagination,
    ) -> (r: Vec<PostRead>)
        requires
            self.wf(),
        ensures
            ({
                if !has_active_user(self.users@, target_username@) {
                    r@.len() == 0
                } else {
                    let uid = self.users@[active_user_index(self.users@, target_username@)].id;
                    let rows = rows_asc(*self, profile_post_pred(uid), self.posts@.len() as int);
                    let skip = page_skip(*pagination, rows.len() as int);
                    let cnt = page_count(*pagination, rows.len() as int);
                    &&& r@.len() == cnt
                    &&& forall|k: int|
                        0 <= k < cnt ==> r@[k] == post_read_at(
                            *self,
                            current_user.id,
                            rows[rows.len() - 1 - (skip + k)],
                        )
                    &&& (timestamps_monotone(*self) ==> forall|a: int, b: int|
                        0 <= a < b < cnt ==> (#[trigger] r@[a]).created_at >= (
                        #[trigger] r@[b]).created_at)
                }
            }),
    {
        let ui = match find_active_user_index(&self.users, target_username) {
            Some(ui) => ui,
            None => {
                return Vec::new();
            },
        };
        let uid = self.users[ui].id;
        let mut rows: Vec<usize> = Vec::new();
        let mut i: usize = 0;
        while i < self.posts.len()
            invariant
                self.wf(),
                i <= self.posts@.len(),
                rows@.len() == rows_asc(*self, profile_post_pred(uid), i as int).len(),
                forall|k: int|
                    0 <= k < rows@.len() ==> #[trigger] rows@[k] == rows_asc(
                        *self,
                        profile_post_pred(uid),
                        i as int,
                    )[k],
                forall|k: int| 0 <= k < rows@.len() ==> #[trigger] rows@[k] < self.posts@.len(),
            decreases self.posts@.len() - i,
        {
            let p = &self.posts[i];
            if !p.deleted && p.poster_id == uid {
                rows.push(i);
            }
            proof {
                let f = profile_post_pred(uid);
                let i_ = i as int;
                assert(rows_asc(*self, f, i_ + 1) == if f(*self, i_) {
                    rows_asc(*self, f, i_).push(i_)
                } else {
                    rows_asc(*self, f, i_)
                });
                assert(f(*self, i_) == (!self.posts@[i_].deleted && self.posts@[i_].poster_id
                    == uid));
            }
            i = i + 1;
        }
        let out = self.page_newest_first(current_user, pagination, &rows);
        proof {
            if timestamps_monotone(*self) {
                let rows_s = rows_asc(*self, profile_post_pred(uid), self.posts@.len() as int);
                let skip_s = page_skip(*pagination, rows_s.len() as int);
                let cnt_s = page_count(*pagination, rows_s.len() as int);
                assert forall|k: int|
                    0 <= k < cnt_s implies out@[k] == post_read_at(
                    *self,
                    current_user.id,
                    rows_s[rows_s.len() - 1 - (skip_s + k)],
                ) by {
                    assert(rows@[rows_s.len() - 1 - (skip_s + k)] == rows_s[rows_s.len() - 1 - (
                    skip_s + k)]);
                };
                lemma_newest_first_ordered(
                    *self,
                    profile_post_pred(uid),
                    *pagination,
                    current_user.id,
                    out@,
                );
            }
        }
        out
    }
}

} // verus!
