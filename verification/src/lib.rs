use vstd::prelude::*;
use vstd::string::{StrSliceExecFns, StringExecFns};
use rand::Rng;

pub mod attachments;
pub mod counting;
pub mod credentials;
pub mod errors;
pub mod feeds;
pub mod laws;
pub mod posts;
pub mod profiles;
pub mod store;
pub mod tokens;
pub mod users;

verus! {

/// Shared configuration handed to each component at construction.
pub struct AppState {
    pub secret_key: String,
    pub uploads_dir: String,
}

/// A window onto a listing: skip `offset` rows, return at most `limit`.
pub struct Pagination {
    pub offset: i32,
    pub limit: i32,
}

/// The alphabet that public identifiers are drawn from.
pub open spec fn uid_charset() -> Seq<char> {
    "ABCDEFGHIJKLMNOPQRSTUVWXYZabcdefghijklmnopqrstuvwxyz0123456789-_"@
}

/// Relies on rand's `OsRng` with `Rng::gen_range`: returns a value drawn
/// from `0..n`. It panics only on an empty range, which the precondition
/// rules out; nothing more can be promised of a random draw than its
/// range.
#[verifier::external_body]
fn random_below(n: usize) -> (r: usize)
    requires
        n > 0,
    ensures
        r < n,
{
    rand::rngs::OsRng.gen_range(0..n)
}

/// Generate a public identifier: eight characters drawn at random from a
/// 64-character alphabet. Uniqueness is not guaranteed here; the insert
/// that uses the identifier checks for a collision and fails on one.
pub fn generate_uid() -> (r: String)
    ensures
        r@.len() == 8,
        forall|i: int| 0 <= i < 8 ==> uid_charset().contains(#[trigger] r@[i]),
{
    let charset: &str = "ABCDEFGHIJKLMNOPQRSTUVWXYZabcdefghijklmnopqrstuvwxyz0123456789-_";
    proof {
        reveal_strlit("ABCDEFGHIJKLMNOPQRSTUVWXYZabcdefghijklmnopqrstuvwxyz0123456789-_");
    }
    let mut uid = String::new();
    let mut i: usize = 0;
    while i < 8
        invariant
            i <= 8,
            uid@.len() == i,
            charset@ == uid_charset(),
            charset@.len() == 64,
            forall|k: int| 0 <= k < i ==> uid_charset().contains(#[trigger] uid@[k]),
        decreases 8 - i,
    {
        let idx = random_below(64);
        let ch = charset.substring_char(idx, idx + 1);
        uid.append(ch);
        proof {
            assert(uid@[i as int] == charset@[idx as int]);
            assert(uid_charset()[idx as int] == charset@[idx as int]);
        }
        i = i + 1;
    }
    uid
}

} // verus!
