use vstd::prelude::*;
use crate::counting::{lemma_count_le_len, lemma_count_pos, lemma_count_push, lemma_count_update};
use crate::errors::ServiceError;
use crate::store::{
    Like, Post, Store, active_like_index, active_post_index, find_active_like_index,
    find_active_post_index, has_active_like, has_active_post, like_pred, post_uuid_taken,
    reply_pred, uuid_taken,
};
use crate::users::UserDetails;

verus! {

impl Store {
    /// Record a like by `current_user` on the non-deleted post whose
    /// public identifier is `post_uuid`, bumping that post's denormalized
    /// like counter in the same atomic step.
    ///
    /// Fails `NotFound` when no such post exists, and `Conflict` when the
    /// user already holds a non-deleted like on it; on any failure the
    /// store is unchanged.
    pub fn like(&mut self, current_user: &UserDetails, post_uuid: &String, now: u64) -> (r: Result<
        Like,
        ServiceError,
    >)
        requires
            old(self).wf(),
            1 <= current_user.id <= old(self).users@.len(),
        ensures
            final(self).wf(),
            final(self).users@ == old(self).users@,
            final(self).attachments@ == old(self).attachments@,
            ({
                let posts0 = old(self).posts@;
                let likes0 = old(self).likes@;
                if !has_active_post(posts0, post_uuid@) {
                    &&& r == Err::<Like, ServiceError>(ServiceError::NotFound)
                    &&& final(self).posts@ == posts0
                    &&& final(self).likes@ == likes0
                } else {
                    let pi = active_post_index(posts0, post_uuid@);
                    let pid = posts0[pi].id;
                    if has_active_like(likes0, current_user.id, pid) {
                        &&& r == Err::<Like, ServiceError>(ServiceError::Conflict)
                        &&& final(self).posts@ == posts0
                        &&& final(self).likes@ == likes0
                    } else if likes0.len() >= i32::MAX {
                        &&& r == Err::<Like, ServiceError>(ServiceError::StorageUnavailable)
                        &&& final(self).posts@ == posts0
                        &&& final(self).likes@ == likes0
                    } else {
                        let nl = Like {
                            id: (likes0.len() + 1) as i32,
                            user_id: current_user.id,
                            post_id: pid,
                            created_at: now,
                            deleted: false,
                        };
                        &&& r == Ok::<Like, ServiceError>(nl)
                        &&& final(self).likes@ == likes0.push(nl)
                        &&& final(self).posts@ == posts0.update(
                            pi,
                            Post { like_count: (posts0[pi].like_count + 1) as i32, ..posts0[pi] },
                        )
                    }
                }
            }),
    {
        let pi = match find_active_post_index(&self.posts, post_uuid) {
            Some(pi) => pi,
            None => {
                return Err(ServiceError::NotFound);
            },
        };
        let pid = self.posts[pi].id;
        match find_active_like_index(&self.likes, current_user.id, pid) {
            Some(_) => {
                return Err(ServiceError::Conflict);
            },
            None => {},
        }
        if self.likes.len() >= i32::MAX as usize {
            return Err(ServiceError::StorageUnavailable);
        }
        let new_like = Like {
            id: (self.likes.len() as i32) + 1,
            user_id: current_user.id,
            post_id: pid,
            created_at: now,
            deleted: false,
        };
        proof {
            lemma_count_le_len(self.likes@, like_pred(pid));
        }
        let p = &self.posts[pi];
        let bumped = Post {
            id: p.id,
            uuid: p.uuid.clone(),
            parent_id: p.parent_id,
            poster_id: p.poster_id,
            body: p.body.clone(),
            created_at: p.created_at,
            reply_count: p.reply_count,
            like_count: p.like_count + 1,
            deleted: p.deleted,
        };
        self.posts[pi] = bumped;
        self.likes.push(new_like);
        proof {
            let posts0 = old(self).posts@;
            let likes0 = old(self).likes@;
            let pi_ = pi as int;
            let nl = new_like;
            assert(self.posts@ =~= posts0.update(
                pi_,
                Post { like_count: (posts0[pi_].like_count + 1) as i32, ..posts0[pi_] },
            ));
            assert(self.likes@ =~= likes0.push(nl));
            assert forall|i: int|
                0 <= i < self.posts@.len() implies (#[trigger] self.posts@[i]).reply_count
                == crate::store::reply_count_of(self.posts@, self.posts@[i].id) by {
                let idv = self.posts@[i].id;
                lemma_count_update(posts0, reply_pred(idv), pi_, self.posts@[pi_]);
            };
            assert forall|i: int|
                0 <= i < self.posts@.len() implies (#[trigger] self.posts@[i]).like_count
                == crate::store::like_count_of(self.likes@, self.posts@[i].id) by {
                let idv = self.posts@[i].id;
                lemma_count_push(likes0, like_pred(idv), nl);
                lemma_count_update(posts0, reply_pred(idv), pi_, self.posts@[pi_]);
                if i != pi_ {
                    assert(posts0[i].id == i + 1 && posts0[pi_].id == pi_ + 1);
                    assert(!(like_pred(idv)(nl)));
                } else {
                    assert(like_pred(idv)(nl));
                }
            };
        }
        Ok(new_like)
    }

    /// Revoke the non-deleted like held by `current_user` on the
    /// non-deleted post whose public identifier is `post_uuid`: the like
    /// row is soft-deleted (preserving history) and the post's
    /// denormalized like counter drops by one in the same atomic step.
    ///
    /// Fails `NotFound` when no such post exists or when the user holds
    /// no non-deleted like on it; on failure the store is unchanged.
    /// Returns the like row as it stood before the revocation.
    pub fn unlike(&mut self, current_user: &UserDetails, post_uuid: &String) -> (r: Result<
        Like,
        ServiceError,
    >)
        requires
            old(self).wf(),
            1 <= current_user.id <= old(self).users@.len(),
        ensures
            final(self).wf(),
            final(self).users@ == old(self).users@,
            final(self).attachments@ == old(self).attachments@,
            ({
                let posts0 = old(self).posts@;
                let likes0 = old(self).likes@;
                if !has_active_post(posts0, post_uuid@) {
                    &&& r == Err::<Like, ServiceError>(ServiceError::NotFound)
                    &&& final(self).posts@ == posts0
                    &&& final(self).likes@ == likes0
                } else {
                    let pi = active_post_index(posts0, post_uuid@);
                    let pid = posts0[pi].id;
                    if !has_active_like(likes0, current_user.id, pid) {
                        &&& r == Err::<Like, ServiceError>(ServiceError::NotFound)
                        &&& final(self).posts@ == posts0
                        &&& final(self).likes@ == likes0
                    } else {
                        let li = active_like_index(likes0, current_user.id, pid);
                        &&& r == Ok::<Like, ServiceError>(likes0[li])
                        &&& final(self).likes@ == likes0.update(
                            li,
                            Like { deleted: true, ..likes0[li] },
                        )
                        &&& final(self).posts@ == posts0.update(
                            pi,
                            Post { like_count: (posts0[pi].like_count - 1) as i32, ..posts0[pi] },
                        )
                    }
                }
            }),
    {
        let pi = match find_active_post_index(&self.posts, post_uuid) {
            Some(pi) => pi,
            None => {
                return Err(ServiceError::NotFound);
            },
        };
        let pid = self.posts[pi].id;
        let li = match find_active_like_index(&self.likes, current_user.id, pid) {
            Some(li) => li,
            None => {
                return Err(ServiceError::NotFound);
            },
        };
        let original = self.likes[li];
        proof {
            lemma_count_pos(self.likes@, like_pred(pid), li as int);
        }
        let revoked = Like { deleted: true, ..original };
        self.likes[li] = revoked;
        let p = &self.posts[pi];
        let debumped = Post {
            id: p.id,
            uuid: p.uuid.clone(),
            parent_id: p.parent_id,
            poster_id: p.poster_id,
            body: p.body.clone(),
            created_at: p.created_at,
            reply_count: p.reply_count,
            like_count: p.like_count - 1,
            deleted: p.deleted,
        };
        self.posts[pi] = debumped;
        proof {
            let posts0 = old(self).posts@;
            let likes0 = old(self).likes@;
            let pi_ = pi as int;
            let li_ = li as int;
            assert(self.posts@ =~= posts0.update(
                pi_,
                Post { like_count: (posts0[pi_].like_count - 1) as i32, ..posts0[pi_] },
            ));
            assert(self.likes@ =~= likes0.update(li_, Like { deleted: true, ..likes0[li_] }));
            assert forall|i: int|
                0 <= i < self.posts@.len() implies (#[trigger] self.posts@[i]).reply_count
                == crate::store::reply_count_of(self.posts@, self.posts@[i].id) by {
                let idv = self.posts@[i].id;
                lemma_count_update(posts0, reply_pred(idv), pi_, self.posts@[pi_]);
            };
            assert forall|i: int|
                0 <= i < self.posts@.len() implies (#[trigger] self.posts@[i]).like_count
                == crate::store::like_count_of(self.likes@, self.posts@[i].id) by {
                let idv = self.posts@[i].id;
                lemma_count_update(likes0, like_pred(idv), li_, self.likes@[li_]);
                lemma_count_update(posts0, reply_pred(idv), pi_, self.posts@[pi_]);
                if i != pi_ {
                    assert(posts0[i].id == i + 1 && posts0[pi_].id == pi_ + 1);
                    assert(!(like_pred(idv)(likes0[li_])));
                } else {
                    assert(like_pred(idv)(likes0[li_]));
                }
            };
        }
        Ok(original)
    }

    /// Create a post (or a reply, when `parent_uuid` is given) under the
    /// caller-supplied public identifier `uid`, as one atomic step: when a
    /// parent is given, its denormalized reply counter is bumped together
    /// with the insert, and a failure at any step leaves the store
    /// unchanged.
    ///
    /// Fails `NotFound` when `parent_uuid` names no non-deleted post, and
    /// `Conflict` when some row (deleted or not) already carries `uid`.
    pub fn create_post_with_uid(
        &mut self,
        current_user: &UserDetails,
        body: String,
        parent_uuid: Option<&String>,
        uid: String,
        now: u64,
    ) -> (r: Result<Post, ServiceError>)
        requires
            old(self).wf(),
            1 <= current_user.id <= old(self).users@.len(),
        ensures
            final(self).wf(),
            final(self).users@ == old(self).users@,
            final(self).likes@ == old(self).likes@,
            final(self).attachments@ == old(self).attachments@,
            ({
                let posts0 = old(self).posts@;
                let parent_absent = (parent_uuid matches Some(pu) && !has_active_post(
                    posts0,
                    pu@,
                ));
                if parent_absent {
                    &&& r == Err::<Post, ServiceError>(ServiceError::NotFound)
                    &&& final(self).posts@ == posts0
                } else if uuid_taken(posts0, uid@) {
                    &&& r == Err::<Post, ServiceError>(ServiceError::Conflict)
                    &&& final(self).posts@ == posts0
                } else if posts0.len() >= i32::MAX {
                    &&& r == Err::<Post, ServiceError>(ServiceError::StorageUnavailable)
                    &&& final(self).posts@ == posts0
                } else {
                    let np = Post {
                        id: (posts0.len() + 1) as i32,
                        uuid: uid,
                        parent_id: match parent_uuid {
                            Some(pu) => Some(posts0[active_post_index(posts0, pu@)].id),
                            None => None,
                        },
                        poster_id: current_user.id,
                        body: body,
                        created_at: now,
                        reply_count: 0,
                        like_count: 0,
                        deleted: false,
                    };
                    &&& r == Ok::<Post, ServiceError>(np)
                    &&& final(self).posts@ == (match parent_uuid {
                        Some(pu) => {
                            let pi = active_post_index(posts0, pu@);
                            posts0.update(
                                pi,
                                Post {
                                    reply_count: (posts0[pi].reply_count + 1) as i32,
                                    ..posts0[pi]
                                },
                            ).push(np)
                        },
                        None => posts0.push(np),
                    })
                }
            }),
    {
        let parent_idx: Option<usize> = match parent_uuid {
            Some(pu) => match find_active_post_index(&self.posts, pu) {
                Some(pi) => Some(pi),
                None => {
                    return Err(ServiceError::NotFound);
                },
            },
            None => None,
        };
        if post_uuid_taken(&self.posts, &uid) {
            return Err(ServiceError::Conflict);
        }
        if self.posts.len() >= i32::MAX as usize {
            return Err(ServiceError::StorageUnavailable);
        }
        let new_id = (self.posts.len() as i32) + 1;
        let parent_id: Option<i32> = match parent_idx {
            Some(pi) => {
                let pid = self.posts[pi].id;
                proof {
                    lemma_count_le_len(self.posts@, reply_pred(pid));
                }
                let p = &self.posts[pi];
                let bumped = Post {
                    id: p.id,
                    uuid: p.uuid.clone(),
                    parent_id: p.parent_id,
                    poster_id: p.poster_id,
                    body: p.body.clone(),
                    created_at: p.created_at,
                    reply_count: p.reply_count + 1,
                    like_count: p.like_count,
                    deleted: p.deleted,
                };
                self.posts[pi] = bumped;
                Some(pid)
            },
            None => None,
        };
        let np = Post {
            id: new_id,
            uuid: uid,
            parent_id,
            poster_id: current_user.id,
            body,
            created_at: now,
            reply_count: 0,
            like_count: 0,
            deleted: false,
        };
        let ret = Post {
            id: np.id,
            uuid: np.uuid.clone(),
            parent_id: np.parent_id,
            poster_id: np.poster_id,
            body: np.body.clone(),
            created_at: np.created_at,
            reply_count: 0,
            like_count: 0,
            deleted: false,
        };
        self.posts.push(np);
        proof {
            let posts0 = old(self).posts@;
            let likes0 = old(self).likes@;
            let npv = self.posts@.last();
            let posts1 = match parent_idx {
                Some(pi) => posts0.update(
                    pi as int,
                    Post {
                        reply_count: (posts0[pi as int].reply_count + 1) as i32,
                        ..posts0[pi as int]
                    },
                ),
                None => posts0,
            };
            assert(self.posts@ =~= posts1.push(npv));
            assert forall|i: int|
                0 <= i < self.posts@.len() implies (#[trigger] self.posts@[i]).reply_count
                == crate::store::reply_count_of(self.posts@, self.posts@[i].id) by {
                let idv = self.posts@[i].id;
                lemma_count_push(posts1, reply_pred(idv), npv);
                match parent_idx {
                    Some(pi) => {
                        lemma_count_update(posts0, reply_pred(idv), pi as int, posts1[pi as int]);
                    },
                    None => {},
                }
                if i < posts0.len() {
                    assert(posts0[i].id == i + 1);
                }
                if i == self.posts@.len() - 1 {
                    // the new row: nothing yet replies to it
                    assert forall|j: int| 0 <= j < posts1.len() implies !(reply_pred(idv)(
                        #[trigger] posts1[j],
                    )) by {
                        assert(match posts0[j].parent_id {
                            Some(q) => 1 <= q <= posts0.len(),
                            None => true,
                        });
                    };
                    crate::counting::lemma_count_zero(posts1, reply_pred(idv));
                    assert(!(reply_pred(idv)(npv)));
                }
            };
            assert forall|i: int|
                0 <= i < self.posts@.len() implies (#[trigger] self.posts@[i]).like_count
                == crate::store::like_count_of(self.likes@, self.posts@[i].id) by {
                let idv = self.posts@[i].id;
                if i == self.posts@.len() - 1 {
                    assert forall|j: int| 0 <= j < likes0.len() implies !(like_pred(idv)(
                        #[trigger] likes0[j],
                    )) by {
                        assert(1 <= likes0[j].post_id <= posts0.len());
                    };
                    crate::counting::lemma_count_zero(likes0, like_pred(idv));
                }
            };
        }
        Ok(ret)
    }

    /// Create a post (or a reply, when `parent_uuid` is given) under a
    /// freshly generated public identifier. On the rare draw of an
    /// identifier that some row already carries, fails `Conflict` without
    /// inserting anything; the caller may retry.
    pub fn create_post(
        &mut self,
        current_user: &UserDetails,
        body: String,
        parent_uuid: Option<&String>,
        now: u64,
    ) -> (r: Result<Post, ServiceError>)
        requires
            old(self).wf(),
            1 <= current_user.id <= old(self).users@.len(),
        ensures
            final(self).wf(),
            final(self).users@ == old(self).users@,
            final(self).likes@ == old(self).likes@,
            final(self).attachments@ == old(self).attachments@,
            ({
                let posts0 = old(self).posts@;
                let parent_absent = (parent_uuid matches Some(pu) && !has_active_post(
                    posts0,
                    pu@,
                ));
                &&& (r == Err::<Post, ServiceError>(ServiceError::NotFound) <==> parent_absent)
                &&& (r matches Err(e) ==> final(self).posts@ == posts0 && (e
                    == ServiceError::NotFound || e == ServiceError::Conflict || e
                    == ServiceError::StorageUnavailable))
                &&& (!parent_absent && posts0.len() < i32::MAX ==> (r matches Err(e) ==> e
                    == ServiceError::Conflict))
                &&& (r == Err::<Post, ServiceError>(ServiceError::Conflict) ==> exists|i: int|
                    0 <= i < posts0.len() && (#[trigger] posts0[i]).uuid@.len() == 8)
                &&& (r matches Ok(np) ==> {
                    &&& posts0.len() < i32::MAX
                    &&& np.uuid@.len() == 8
                    &&& (forall|i: int|
                        0 <= i < 8 ==> crate::uid_charset().contains(#[trigger] np.uuid@[i]))
                    &&& !uuid_taken(posts0, np.uuid@)
                    &&& np == (Post {
                        id: (posts0.len() + 1) as i32,
                        uuid: np.uuid,
                        parent_id: match parent_uuid {
                            Some(pu) => Some(posts0[active_post_index(posts0, pu@)].id),
                            None => None,
                        },
                        poster_id: current_user.id,
                        body: body,
                        created_at: now,
                        reply_count: 0,
                        like_count: 0,
                        deleted: false,
                    })
                    &&& final(self).posts@ == (match parent_uuid {
                        Some(pu) => {
                            let pi = active_post_index(posts0, pu@);
                            posts0.update(
                                pi,
                                Post {
                                    reply_count: (posts0[pi].reply_count + 1) as i32,
                                    ..posts0[pi]
                                },
                            ).push(np)
                        },
                        None => posts0.push(np),
                    })
                })
            }),
    {
        let uid = crate::generate_uid();
        let ghost uidv = uid@;
        let r = self.create_post_with_uid(current_user, body, parent_uuid, uid, now);
        proof {
            let posts0 = old(self).posts@;
            if r == Err::<Post, ServiceError>(ServiceError::Conflict) {
                assert(uuid_taken(posts0, uidv));
                let i = choose|i: int| 0 <= i < posts0.len() && (#[trigger] posts0[i]).uuid@
                    == uidv;
                assert(posts0[i].uuid@.len() == 8);
            }
        }
        r
    }
}

} // verus!
