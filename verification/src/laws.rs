use vstd::prelude::*;
use crate::counting::{lemma_count_le_len, lemma_count_push, lemma_count_update};
use crate::store::{
    Like, Post, Store, User, active_like_index, has_active_like, has_active_user, is_active_like,
    is_active_user_named, like_count_of, like_pred, reply_count_of, reply_pred,
};
use crate::tokens::jwt_claims;
use crate::users::cred_token;

verus! {

/// A successful reply creation raises the parent's stored reply counter
/// by exactly one, and the number of non-deleted posts replying to the
/// parent by exactly one, and the two stay equal. The state expression
/// below is precisely the transition `create_post` commits when it
/// returns `Ok` under a parent, so each successful call adds one —
/// applied in sequence, N successful replies leave the counter exactly N
/// higher, with no update lost (in the running system the durable
/// store's transaction isolation serializes concurrent calls into such a
/// sequence).
pub proof fn lemma_reply_bumps_parent_by_one(posts0: Seq<Post>, pi: int, np: Post)
    requires
        0 <= pi < posts0.len(),
        forall|i: int| 0 <= i < posts0.len() ==> (#[trigger] posts0[i]).id == i + 1,
        forall|i: int|
            0 <= i < posts0.len() ==> (#[trigger] posts0[i]).reply_count == reply_count_of(
                posts0,
                posts0[i].id,
            ),
        np.parent_id == Some(posts0[pi].id),
        !np.deleted,
        posts0.len() < i32::MAX,
    ensures
        ({
            let posts1 = posts0.update(
                pi,
                Post { reply_count: (posts0[pi].reply_count + 1) as i32, ..posts0[pi] },
            ).push(np);
            &&& posts1[pi].reply_count == posts0[pi].reply_count + 1
            &&& reply_count_of(posts1, posts0[pi].id) == reply_count_of(posts0, posts0[pi].id) + 1
            &&& posts1[pi].reply_count == reply_count_of(posts1, posts1[pi].id)
        }),
{
    let pid = posts0[pi].id;
    let bumped = Post { reply_count: (posts0[pi].reply_count + 1) as i32, ..posts0[pi] };
    let posts_u = posts0.update(pi, bumped);
    lemma_count_le_len(posts0, reply_pred(pid));
    lemma_count_update(posts0, reply_pred(pid), pi, bumped);
    lemma_count_push(posts_u, reply_pred(pid), np);
}

/// In every well-formed store — the state each operation requires and
/// re-establishes, so at every observable point between operations —
/// a post's denormalized like counter equals the number of non-deleted
/// like rows that reference it.
pub proof fn lemma_like_count_matches_rows(s: Store, i: int)
    requires
        s.wf(),
        0 <= i < s.posts@.len(),
    ensures
        s.posts@[i].like_count == like_count_of(s.likes@, s.posts@[i].id),
{
}

/// Recording a like leaves a non-deleted like by that user on that post,
/// so an immediately repeated `like` by the same user on the same post
/// meets the `Conflict` case of `like`'s contract and changes nothing:
/// over the two calls the counter rises by exactly one, not two.
pub proof fn lemma_second_like_conflicts(likes0: Seq<Like>, nl: Like)
    requires
        !nl.deleted,
    ensures
        has_active_like(likes0.push(nl), nl.user_id, nl.post_id),
        like_count_of(likes0.push(nl), nl.post_id) == like_count_of(likes0, nl.post_id) + 1,
{
    let likes1 = likes0.push(nl);
    assert(is_active_like(likes1[likes0.len() as int], nl.user_id, nl.post_id));
    lemma_count_push(likes0, like_pred(nl.post_id), nl);
}

/// Revoking the non-deleted like at `li` leaves no non-deleted like by
/// that user on that post — the at-most-one-active-like invariant says
/// the row at `li` was the only one — while the row itself remains. A
/// `like` call after the revocation therefore meets its success case
/// again: like, unlike, like succeeds on the third call and adds a third
/// row, history preserved.
pub proof fn lemma_relike_allowed_after_unlike(s: Store, li: int, uid: i32, pid: i32)
    requires
        s.wf(),
        0 <= li < s.likes@.len(),
        is_active_like(s.likes@[li], uid, pid),
    ensures
        ({
            let likes1 = s.likes@.update(li, Like { deleted: true, ..s.likes@[li] });
            &&& !has_active_like(likes1, uid, pid)
            &&& likes1.len() == s.likes@.len()
        }),
{
    let likes1 = s.likes@.update(li, Like { deleted: true, ..s.likes@[li] });
    assert forall|j: int| 0 <= j < likes1.len() implies !is_active_like(
        #[trigger] likes1[j],
        uid,
        pid,
    ) by {
        if j != li {
            assert(likes1[j] == s.likes@[j]);
        }
    };
}

/// Like, unlike, like on one (user, post) pair, starting from no
/// non-deleted like by that user on that post and below capacity for two
/// more rows. The three state expressions below are precisely the
/// transitions `like`, `unlike` and `like` commit in turn (the second
/// clause pins the index that `unlike`'s contract revokes). The third
/// call is permitted and adds a fresh row; both rows of the history
/// remain, the first soft-deleted; and the number of non-deleted likes
/// on the post ends exactly one higher than at the start — at exactly
/// one, for a post that started at none.
pub proof fn lemma_like_unlike_like(likes0: Seq<Like>, uid: i32, pid: i32, now1: u64, now3: u64)
    requires
        !has_active_like(likes0, uid, pid),
        likes0.len() + 2 <= i32::MAX,
    ensures
        ({
            let l1 = Like {
                id: (likes0.len() + 1) as i32,
                user_id: uid,
                post_id: pid,
                created_at: now1,
                deleted: false,
            };
            let likes1 = likes0.push(l1);
            let likes2 = likes1.update(likes0.len() as int, Like { deleted: true, ..l1 });
            let l3 = Like {
                id: (likes0.len() + 2) as i32,
                user_id: uid,
                post_id: pid,
                created_at: now3,
                deleted: false,
            };
            let likes3 = likes2.push(l3);
            &&& has_active_like(likes1, uid, pid)
            &&& active_like_index(likes1, uid, pid) == likes0.len()
            &&& !has_active_like(likes2, uid, pid)
            &&& likes3.len() == likes0.len() + 2
            &&& likes3[likes0.len() as int].deleted
            &&& !likes3[likes0.len() as int + 1].deleted
            &&& like_count_of(likes3, pid) == like_count_of(likes0, pid) + 1
            &&& (like_count_of(likes0, pid) == 0 ==> like_count_of(likes3, pid) == 1)
        }),
{
    let n0 = likes0.len() as int;
    let l1 = Like {
        id: (likes0.len() + 1) as i32,
        user_id: uid,
        post_id: pid,
        created_at: now1,
        deleted: false,
    };
    let likes1 = likes0.push(l1);
    let likes2 = likes1.update(n0, Like { deleted: true, ..l1 });
    let l3 = Like {
        id: (likes0.len() + 2) as i32,
        user_id: uid,
        post_id: pid,
        created_at: now3,
        deleted: false,
    };
    assert(is_active_like(likes1[n0], uid, pid));
    let c = active_like_index(likes1, uid, pid);
    assert(0 <= c < likes1.len() && is_active_like(likes1[c], uid, pid));
    if c != n0 {
        assert(likes1[c] == likes0[c]);
        assert(false);
    }
    assert forall|j: int| 0 <= j < likes2.len() implies !is_active_like(
        #[trigger] likes2[j],
        uid,
        pid,
    ) by {
        if j != n0 {
            assert(likes2[j] == likes0[j]);
        }
    };
    lemma_count_push(likes0, like_pred(pid), l1);
    lemma_count_update(likes1, like_pred(pid), n0, likes2[n0]);
    lemma_count_push(likes2, like_pred(pid), l3);
}

/// Soft-deleting the non-deleted user at `ui` leaves no non-deleted user
/// of that name: usernames never repeat, so the row at `ui` was the only
/// candidate.
pub proof fn lemma_soft_delete_deactivates(s: Store, ui: int, name: Seq<char>)
    requires
        s.wf(),
        0 <= ui < s.users@.len(),
        is_active_user_named(s.users@[ui], name),
    ensures
        !has_active_user(
            s.users@.update(ui, User { deleted: true, ..s.users@[ui] }),
            name,
        ),
{
    let users1 = s.users@.update(ui, User { deleted: true, ..s.users@[ui] });
    assert forall|j: int| 0 <= j < users1.len() implies !is_active_user_named(
        #[trigger] users1[j],
        name,
    ) by {
        if j != ui {
            assert(users1[j] == s.users@[j]);
        }
    };
}

/// A credential that decodes to subject `sub` — however far its expiry
/// lies in the future — meets the `Unauthenticated` branch of
/// `authenticate`'s contract once no non-deleted user of that name
/// remains: soft-deleting an account cuts off every outstanding
/// credential at once, expiry notwithstanding.
pub proof fn lemma_deleted_subject_fails_auth(
    s: Store,
    header: Option<Seq<char>>,
    cookie: Option<Seq<char>>,
    secret: Seq<char>,
    now: u64,
    sub: Seq<char>,
    exp: u64,
)
    requires
        ({
            &&& cred_token(header, cookie) matches Some(t)
            &&& jwt_claims(t, secret) == Some((sub, exp))
        }),
        !has_active_user(s.users@, sub),
    ensures
        match cred_token(header, cookie) {
            Some(t) => match jwt_claims(t, secret) {
                Some(c) => c.1 <= now || !has_active_user(s.users@, c.0),
                None => true,
            },
            None => true,
        },
{
}

} // verus!
