use vstd::prelude::*;
use vstd::string::{StrSliceExecFns, StringExecFns};
use crate::errors::ServiceError;
use crate::store::{Attachment, Store, uuid_taken_att};
use crate::users::UserDetails;

verus! {

/// `s` opens with `p`.
pub open spec fn starts_with(s: Seq<char>, p: Seq<char>) -> bool {
    s.len() >= p.len() && s.subrange(0, p.len() as int) == p
}

pub open spec fn image_prefix() -> Seq<char> {
    seq!['i', 'm', 'a', 'g', 'e', '/']
}

pub open spec fn video_prefix() -> Seq<char> {
    seq!['v', 'i', 'd', 'e', 'o', '/']
}

/// Only images and videos may be uploaded.
pub open spec fn allowed_content_type(ct: Seq<char>) -> bool {
    starts_with(ct, image_prefix()) || starts_with(ct, video_prefix())
}

/// Position of the last '.' in `s`, or -1 when there is none.
pub open spec fn last_dot_index(s: Seq<char>) -> int
    decreases s.len(),
{
    if s.len() == 0 {
        -1
    } else if s.last() == '.' {
        s.len() - 1
    } else {
        last_dot_index(s.drop_last())
    }
}

/// A file name splits into a non-empty stem and a non-empty extension at
/// its last dot.
pub open spec fn valid_file_name(s: Seq<char>) -> bool {
    let d = last_dot_index(s);
    0 < d && d < s.len() - 1
}

proof fn lemma_last_dot(s: Seq<char>, j: int)
    requires
        0 <= j < s.len(),
        s[j] == '.',
        forall|k: int| j < k < s.len() ==> s[k] != '.',
    ensures
        last_dot_index(s) == j,
    decreases s.len(),
{
    if j < s.len() - 1 {
        lemma_last_dot(s.drop_last(), j);
    }
}

proof fn lemma_no_dot(s: Seq<char>)
    requires
        forall|k: int| 0 <= k < s.len() ==> s[k] != '.',
    ensures
        last_dot_index(s) == -1,
    decreases s.len(),
{
    if s.len() > 0 {
        lemma_no_dot(s.drop_last());
    }
}

/// Whether `s` opens with `p`, by characters.
pub fn str_starts_with(s: &str, p: &str) -> (r: bool)
    ensures
        r == starts_with(s@, p@),
{
    let n = p.unicode_len();
    if s.unicode_len() < n {
        return false;
    }
    let mut i: usize = 0;
    while i < n
        invariant
            i <= n,
            n == p@.len(),
            n <= s@.len(),
            forall|k: int| 0 <= k < i ==> s@[k] == p@[k],
        decreases n - i,
    {
        if s.get_char(i) != p.get_char(i) {
            proof {
                if starts_with(s@, p@) {
                    assert(s@.subrange(0, p@.len() as int)[i as int] == s@[i as int]);
                }
            }
            return false;
        }
        i = i + 1;
    }
    proof {
        assert(s@.subrange(0, p@.len() as int) =~= p@);
    }
    true
}

/// Position of the last '.' in `name`, scanned from the end.
fn find_last_dot(name: &str) -> (r: Option<usize>)
    ensures
        match r {
            Some(d) => d < name@.len() && name@[d as int] == '.' && last_dot_index(name@)
                == d as int,
            None => last_dot_index(name@) == -1,
        },
{
    let n = name.unicode_len();
    let mut i: usize = n;
    while i > 0
        invariant
            i <= n,
            n == name@.len(),
            forall|k: int| i <= k < n ==> name@[k] != '.',
        decreases i,
    {
        if name.get_char(i - 1) == '.' {
            proof {
                lemma_last_dot(name@, i - 1);
            }
            return Some(i - 1);
        }
        i = i - 1;
    }
    proof {
        lemma_no_dot(name@);
    }
    None
}

/// Screen one uploaded file: the content type must be present and name an
/// image or a video, and the file name must be present and split into a
/// non-empty stem and extension at its last dot. On success the name
/// under which the file is saved comes back (the stem, the dot and the
/// extension — the given name itself).
pub fn validate_upload_file(content_type: Option<&String>, file_name: Option<&String>) -> (r:
    Result<String, ServiceError>)
    ensures
        ({
            match content_type {
                None => r == Err::<String, ServiceError>(ServiceError::ValidationFailure),
                Some(ct) => if !allowed_content_type(ct@) {
                    r == Err::<String, ServiceError>(ServiceError::ValidationFailure)
                } else {
                    match file_name {
                        None => r == Err::<String, ServiceError>(ServiceError::ValidationFailure),
                        Some(f) => if !valid_file_name(f@) {
                            r == Err::<String, ServiceError>(ServiceError::ValidationFailure)
                        } else {
                            r matches Ok(saved) && saved@ == f@
                        },
                    }
                },
            }
        }),
{
    let ct = match content_type {
        Some(ct) => ct,
        None => {
            return Err(ServiceError::ValidationFailure);
        },
    };
    let image_ok = str_starts_with(ct.as_str(), "image/");
    let video_ok = str_starts_with(ct.as_str(), "video/");
    proof {
        reveal_strlit("image/");
        reveal_strlit("video/");
        assert("image/"@ =~= image_prefix());
        assert("video/"@ =~= video_prefix());
    }
    if !image_ok && !video_ok {
        return Err(ServiceError::ValidationFailure);
    }
    let f = match file_name {
        Some(f) => f,
        None => {
            return Err(ServiceError::ValidationFailure);
        },
    };
    let n = f.as_str().unicode_len();
    let d = match find_last_dot(f.as_str()) {
        Some(d) => d,
        None => {
            return Err(ServiceError::ValidationFailure);
        },
    };
    if d == 0 || d + 1 >= n {
        return Err(ServiceError::ValidationFailure);
    }
    Ok(f.clone())
}

/// Where an attachment's bytes live under the uploads directory: the
/// directory, the attachment's public identifier and the saved file name,
/// joined by '/'.
pub fn attachment_path(uploads_dir: &String, att_uuid: &String, file_name: &String) -> (r: String)
    ensures
        r@ == uploads_dir@ + seq!['/'] + att_uuid@ + seq!['/'] + file_name@,
{
    proof {
        reveal_strlit("/");
    }
    let mut path = uploads_dir.clone();
    path.append("/");
    path.append(att_uuid.as_str());
    path.append("/");
    path.append(file_name.as_str());
    proof {
        assert(path@ =~= uploads_dir@ + seq!['/'] + att_uuid@ + seq!['/'] + file_name@);
    }
    path
}

pub open spec fn has_attachment(atts: Seq<Attachment>, u: Seq<char>) -> bool {
    exists|i: int| 0 <= i < atts.len() && (#[trigger] atts[i]).uuid@ == u
}

/// Index of the attachment carrying `u`; meaningful only when
/// `has_attachment` holds (it is then unique, since attachment
/// identifiers never repeat).
pub open spec fn attachment_index(atts: Seq<Attachment>, u: Seq<char>) -> int {
    choose|i: int| 0 <= i < atts.len() && (#[trigger] atts[i]).uuid@ == u
}

/// Whether some attachment row already carries the public identifier `u`.
pub fn att_uuid_taken(atts: &Vec<Attachment>, u: &String) -> (r: bool)
    ensures
        r == uuid_taken_att(atts@, u@),
{
    let mut idx: usize = 0;
    while idx < atts.len()
        invariant
            idx <= atts@.len(),
            forall|k: int| 0 <= k < idx ==> (#[trigger] atts@[k]).uuid@ != u@,
        decreases atts@.len() - idx,
    {
        if atts[idx].uuid == *u {
            return true;
        }
        idx = idx + 1;
    }
    false
}

/// Some entry's identifier is already carried by a row, or repeats an
/// earlier entry's.
pub open spec fn entries_conflict(atts: Seq<Attachment>, es: Seq<(String, String)>) -> bool {
    exists|k: int|
        0 <= k < es.len() && (uuid_taken_att(atts, (#[trigger] es[k]).0@) || exists|j: int|
            0 <= j < k && (#[trigger] es[j]).0@ == es[k].0@)
}

impl Store {
    /// Insert the metadata rows for a batch of uploaded files — each
    /// entry a (public identifier, saved file name) pair — as one atomic
    /// step: a duplicate identifier anywhere in the batch fails
    /// `Conflict` and inserts nothing.
    pub fn add_attachments(
        &mut self,
        current_user: &UserDetails,
        entries: &Vec<(String, String)>,
        now: u64,
    ) -> (r: Result<Vec<Attachment>, ServiceError>)
        requires
            old(self).wf(),
            1 <= current_user.id <= old(self).users@.len(),
        ensures
            final(self).wf(),
            final(self).users@ == old(self).users@,
            final(self).posts@ == old(self).posts@,
            final(self).likes@ == old(self).likes@,
            ({
                let atts0 = old(self).attachments@;
                if entries_conflict(atts0, entries@) {
                    &&& r == Err::<Vec<Attachment>, ServiceError>(ServiceError::Conflict)
                    &&& final(self).attachments@ == atts0
                } else if atts0.len() + entries@.len() > i32::MAX {
                    &&& r == Err::<Vec<Attachment>, ServiceError>(ServiceError::StorageUnavailable)
                    &&& final(self).attachments@ == atts0
                } else {
                    &&& final(self).attachments@.len() == atts0.len() + entries@.len()
                    &&& forall|i: int|
                        0 <= i < atts0.len() ==> final(self).attachments@[i] == atts0[i]
                    &&& forall|k: int|
                        0 <= k < entries@.len() ==> final(self).attachments@[atts0.len() + k] == (
                        Attachment {
                            id: (atts0.len() + k + 1) as i32,
                            uploader_id: current_user.id,
                            uuid: entries@[k].0,
                            file_name: entries@[k].1,
                            uploaded_at: now,
                            deleted: false,
                        })
                    &&& r matches Ok(out) && out@.len() == entries@.len() && (forall|k: int|
                        0 <= k < entries@.len() ==> out@[k] == final(self).attachments@[atts0.len()
                            + k])
                }
            }),
    {
        let mut k: usize = 0;
        while k < entries.len()
            invariant
                self == old(self),
                self.wf(),
                k <= entries@.len(),
                forall|a: int|
                    0 <= a < k ==> !uuid_taken_att(
                        self.attachments@,
                        (#[trigger] entries@[a]).0@,
                    ),
                forall|a: int, j: int|
                    0 <= j < a < k ==> (#[trigger] entries@[j]).0@ != (#[trigger] entries@[a]).0@,
            decreases entries@.len() - k,
        {
            if att_uuid_taken(&self.attachments, &entries[k].0) {
                proof {
                    assert(entries_conflict(self.attachments@, entries@));
                }
                return Err(ServiceError::Conflict);
            }
            let mut j: usize = 0;
            while j < k
                invariant
                    self == old(self),
                    self.wf(),
                    j <= k,
                    k < entries@.len(),
                    forall|jj: int|
                        0 <= jj < j ==> (#[trigger] entries@[jj]).0@ != entries@[k as int].0@,
                decreases k - j,
            {
                if entries[j].0 == entries[k].0 {
                    proof {
                        assert(entries_conflict(self.attachments@, entries@));
                    }
                    return Err(ServiceError::Conflict);
                }
                j = j + 1;
            }
            k = k + 1;
        }
        proof {
            if self.attachments@.len() > 0 {
                assert(self.attachments@[self.attachments@.len() - 1].id
                    == self.attachments@.len());
            }
        }
        if entries.len() > (i32::MAX as usize) - self.attachments.len() {
            return Err(ServiceError::StorageUnavailable);
        }
        let ghost atts0 = self.attachments@;
        let mut out: Vec<Attachment> = Vec::new();
        let mut k: usize = 0;
        while k < entries.len()
            invariant
                self.users@ == old(self).users@,
                self.posts@ == old(self).posts@,
                self.likes@ == old(self).likes@,
                old(self).wf(),
                atts0 == old(self).attachments@,
                1 <= current_user.id <= self.users@.len(),
                k <= entries@.len(),
                atts0.len() + entries@.len() <= i32::MAX,
                self.attachments@.len() == atts0.len() + k,
                forall|i: int| 0 <= i < atts0.len() ==> self.attachments@[i] == atts0[i],
                forall|a: int|
                    0 <= a < entries@.len() ==> !uuid_taken_att(atts0, (#[trigger] entries@[a]).0@),
                forall|a: int, j: int|
                    0 <= j < a < entries@.len() ==> (#[trigger] entries@[j]).0@ != (
                    #[trigger] entries@[a]).0@,
                forall|j: int|
                    0 <= j < k ==> self.attachments@[atts0.len() + j] == (Attachment {
                        id: (atts0.len() + j + 1) as i32,
                        uploader_id: current_user.id,
                        uuid: entries@[j].0,
                        file_name: entries@[j].1,
                        uploaded_at: now,
                        deleted: false,
                    }),
                out@.len() == k,
                forall|j: int| 0 <= j < k ==> out@[j] == self.attachments@[atts0.len() + j],
            decreases entries@.len() - k,
        {
            let id = (self.attachments.len() as i32) + 1;
            let e = &entries[k];
            let att = Attachment {
                id,
                uploader_id: current_user.id,
                uuid: e.0.clone(),
                file_name: e.1.clone(),
                uploaded_at: now,
                deleted: false,
            };
            out.push(
                Attachment {
                    id,
                    uploader_id: current_user.id,
                    uuid: e.0.clone(),
                    file_name: e.1.clone(),
                    uploaded_at: now,
                    deleted: false,
                },
            );
            self.attachments.push(att);
            k = k + 1;
        }
        proof {
            assert forall|i: int, j: int|
                0 <= i < j < self.attachments@.len() implies (
            #[trigger] self.attachments@[i]).uuid@ != (#[trigger] self.attachments@[j]).uuid@ by {
                let n0 = atts0.len() as int;
                if i < n0 && j < n0 {
                    assert(self.attachments@[i] == atts0[i]);
                    assert(self.attachments@[j] == atts0[j]);
                    assert(old(self).attachments@[i].uuid@ != old(self).attachments@[j].uuid@);
                } else if i < n0 && j >= n0 {
                    assert(!uuid_taken_att(atts0, entries@[j - n0].0@));
                    assert(atts0[i].uuid@ != entries@[j - n0].0@);
                } else {
                    assert(self.attachments@[i].uuid@ == entries@[i - n0].0@);
                    assert(self.attachments@[j].uuid@ == entries@[j - n0].0@);
                    assert(entries@[i - n0].0@ != entries@[j - n0].0@);
                }
            };
            assert forall|i: int|
                0 <= i < self.attachments@.len() implies (#[trigger] self.attachments@[i]).id == i
                + 1 by {
                let n0 = atts0.len() as int;
                if i < n0 {
                    assert(self.attachments@[i] == atts0[i]);
                    assert(old(self).attachments@[i].id == i + 1);
                } else {
                    let j = i - n0;
                    assert(self.attachments@[atts0.len() + j] == (Attachment {
                        id: (atts0.len() + j + 1) as i32,
                        uploader_id: current_user.id,
                        uuid: entries@[j].0,
                        file_name: entries@[j].1,
                        uploaded_at: now,
                        deleted: false,
                    }));
                }
            };
            assert forall|i: int|
                0 <= i < self.attachments@.len() implies 1 <= (
            #[trigger] self.attachments@[i]).uploader_id <= self.users@.len() by {
                let n0 = atts0.len() as int;
                if i < n0 {
                    assert(self.attachments@[i] == atts0[i]);
                    assert(1 <= old(self).attachments@[i].uploader_id <= old(self).users@.len());
                } else {
                    let j = i - n0;
                    assert(self.attachments@[atts0.len() + j] == (Attachment {
                        id: (atts0.len() + j + 1) as i32,
                        uploader_id: current_user.id,
                        uuid: entries@[j].0,
                        file_name: entries@[j].1,
                        uploaded_at: now,
                        deleted: false,
                    }));
                }
            };
        }
        Ok(out)
    }

    /// Where the bytes of the attachment carrying `att_uuid` live under
    /// `uploads_dir`. Fails `NotFound` when no row carries it.
    pub fn get_attachment_path(&self, uploads_dir: &String, att_uuid: &String) -> (r: Result<
        String,
        ServiceError,
    >)
        requires
            self.wf(),
        ensures
            ({
                if !has_attachment(self.attachments@, att_uuid@) {
                    r == Err::<String, ServiceError>(ServiceError::NotFound)
                } else {
                    let a = self.attachments@[attachment_index(self.attachments@, att_uuid@)];
                    r matches Ok(p) && p@ == uploads_dir@ + seq!['/'] + a.uuid@ + seq!['/']
                        + a.file_name@
                }
            }),
    {
        let mut idx: usize = 0;
        while idx < self.attachments.len()
            invariant
                self.wf(),
                idx <= self.attachments@.len(),
                forall|k: int| 0 <= k < idx ==> (#[trigger] self.attachments@[k]).uuid@ != att_uuid@,
            decreases self.attachments@.len() - idx,
        {
            let a = &self.attachments[idx];
            if a.uuid == *att_uuid {
                proof {
                    let c = attachment_index(self.attachments@, att_uuid@);
                    assert(0 <= c < self.attachments@.len() && self.attachments@[c].uuid@
                        == att_uuid@);
                }
                return Ok(attachment_path(uploads_dir, &a.uuid, &a.file_name));
            }
            idx = idx + 1;
        }
        Err(ServiceError::NotFound)
    }
}

} // verus!
