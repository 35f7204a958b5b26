//! Stored clips.

use vstd::prelude::*;

verus! {

/// Microseconds in the seven days a new clip stays live.
pub const CLIP_LIFETIME: i64 = 604_800_000_000;

/// A row of the clip table. Times are microseconds since the epoch;
/// `expires_at` absent means the clip never expires.
#[derive(Debug)]
pub struct Clip {
    pub id: i32,
    pub url: String,
    pub code: String,
    pub created_at: i64,
    pub expires_at: Option<i64>,
}

/// A clip that has not been stored yet.
#[derive(Debug)]
pub struct NewClip {
    pub url: String,
    pub code: String,
    pub created_at: i64,
    pub expires_at: Option<i64>,
}

/// What a [`Clip`] holds, with its texts as character sequences.
pub struct ClipView {
    pub id: i32,
    pub url: Seq<char>,
    pub code: Seq<char>,
    pub created_at: i64,
    pub expires_at: Option<i64>,
}

/// What a [`NewClip`] holds, with its texts as character sequences.
pub struct NewClipView {
    pub url: Seq<char>,
    pub code: Seq<char>,
    pub created_at: i64,
    pub expires_at: Option<i64>,
}

impl View for Clip {
    type V = ClipView;

    open spec fn view(&self) -> ClipView {
        ClipView {
            id: self.id,
            url: self.url@,
            code: self.code@,
            created_at: self.created_at,
            expires_at: self.expires_at,
        }
    }
}

impl View for NewClip {
    type V = NewClipView;

    open spec fn view(&self) -> NewClipView {
        NewClipView {
            url: self.url@,
            code: self.code@,
            created_at: self.created_at,
            expires_at: self.expires_at,
        }
    }
}

/// The moment a clip created at `now` expires: seven days later, or never
/// where that moment cannot be represented.
pub open spec fn expiry_after(now: i64) -> Option<i64> {
    if now + CLIP_LIFETIME <= i64::MAX {
        Some((now + CLIP_LIFETIME) as i64)
    } else {
        None
    }
}

impl ClipView {
    /// A clip is live until its expiry; one without expiry is always live.
    pub open spec fn is_live(self, now: i64) -> bool {
        match self.expires_at {
            None => true,
            Some(end) => end > now,
        }
    }

    /// A clip is swept once its expiry lies strictly in the past.
    pub open spec fn is_expired(self, now: i64) -> bool {
        match self.expires_at {
            None => false,
            Some(end) => end < now,
        }
    }

    /// The row that storing `new` under `id` gives.
    pub open spec fn stored(new: NewClipView, id: i32) -> ClipView {
        ClipView {
            id,
            url: new.url,
            code: new.code,
            created_at: new.created_at,
            expires_at: new.expires_at,
        }
    }
}

impl NewClipView {
    /// The clip that a creation at `now` proposes for `url` under `code`.
    pub open spec fn proposed(url: Seq<char>, code: Seq<char>, now: i64) -> NewClipView {
        NewClipView { url, code, created_at: now, expires_at: expiry_after(now) }
    }
}

impl Clone for Clip {
    fn clone(&self) -> (copy: Self)
        ensures
            copy == *self,
    {
        Clip {
            id: self.id,
            url: self.url.clone(),
            code: self.code.clone(),
            created_at: self.created_at,
            expires_at: self.expires_at,
        }
    }
}

impl Clone for NewClip {
    fn clone(&self) -> (copy: Self)
        ensures
            copy == *self,
    {
        NewClip {
            url: self.url.clone(),
            code: self.code.clone(),
            created_at: self.created_at,
            expires_at: self.expires_at,
        }
    }
}

impl Clip {
    /// Whether a read at `now` may return this clip.
    pub fn is_live(&self, now: i64) -> (live: bool)
        ensures
            live == self@.is_live(now),
    {
        match self.expires_at {
            None => true,
            Some(end) => end > now,
        }
    }

    /// Whether a sweep at `now` removes this clip.
    pub fn is_expired(&self, now: i64) -> (expired: bool)
        ensures
            expired == self@.is_expired(now),
    {
        match self.expires_at {
            None => false,
            Some(end) => end < now,
        }
    }
}

impl NewClip {
    /// The clip to store for `url` under `code`, created at `now` and
    /// expiring seven days later.
    pub fn new(url: String, code: String, now: i64) -> (clip: NewClip)
        ensures
            clip@ == NewClipView::proposed(url@, code@, now),
    {
        NewClip { url, code, created_at: now, expires_at: now.checked_add(CLIP_LIFETIME) }
    }
}

/// A clip that is swept is no longer served, and a clip that is served is
/// not swept.
pub proof fn expired_is_not_live(clip: ClipView, now: i64)
    ensures
        clip.is_expired(now) ==> !clip.is_live(now),
{
}

} // verus!
