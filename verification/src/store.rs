//! The clip store: resolving a code to its URL and creating a clip for a
//! URL, with the lookup cache in front of the clip table.
//!
//! Neither the table nor the cache is reached from here. A lookup or a
//! creation is a value that says what to ask next, of the cache or of the
//! table, and is continued with the answer. A store fault ends it with the
//! fault; a cache failure never does.

use crate::cache::{
    cache_clip, cache_entry, cached_value, get_cached_clip, write_view, CacheUnavailable, CacheWrite,
    CacheWriteView,
};
use crate::db::{
    clip_views, first_live_by_code, first_live_by_url, get_clip, get_clip_by_url, insert_clip_with,
    local_now, InsertClip, InsertClipError, InsertClipErrorView, InsertClipView, InsertOutcome,
    InsertOutcomeView, StoreError, CODE_LENGTH,
};
use crate::id::{gen_id, is_code};
use crate::models::{Clip, ClipView};
use vstd::prelude::*;

verus! {

/// How a lookup ended: the URL, nothing where no live clip has the code, or
/// the store's fault.
pub type Resolved = Result<Option<String>, StoreError>;

/// How a creation ended: the code of the clip, or why there is none.
pub type Created = Result<String, InsertClipError>;

/// The view of a lookup's end.
pub open spec fn resolved_view(outcome: Resolved) -> Result<Option<Seq<char>>, Seq<char>> {
    match outcome {
        Ok(Some(url)) => Ok(Some(url@)),
        Ok(None) => Ok(None),
        Err(e) => Err(e@),
    }
}

/// The view of a creation's end.
pub open spec fn created_view(outcome: Created) -> Result<Seq<char>, InsertClipErrorView> {
    match outcome {
        Ok(code) => Ok(code@),
        Err(e) => Err(e@),
    }
}

/// The view of the rows, or the fault, that the table answered with.
pub open spec fn rows_view(reply: Result<Vec<Clip>, StoreError>) -> Result<
    Seq<ClipView>,
    Seq<char>,
> {
    match reply {
        Ok(rows) => Ok(clip_views(rows@)),
        Err(e) => Err(e@),
    }
}

/// A lookup of a code: what to ask next, or how it ended.
#[derive(Debug)]
pub enum Resolve {
    /// Ask the cache for `code`.
    CheckCache { code: String },
    /// Ask the table for the rows under `code`.
    CheckStore { code: String },
    /// The lookup has ended with `outcome`; `refill`, if any, is to be
    /// written to the cache, whatever becomes of that write.
    Done { outcome: Resolved, refill: Option<CacheWrite> },
}

/// A [`Resolve`] by its view.
pub enum ResolveView {
    CheckCache { code: Seq<char> },
    CheckStore { code: Seq<char> },
    Done { outcome: Result<Option<Seq<char>>, Seq<char>>, refill: Option<CacheWriteView> },
}

impl View for Resolve {
    type V = ResolveView;

    open spec fn view(&self) -> ResolveView {
        match *self {
            Resolve::CheckCache { code } => ResolveView::CheckCache { code: code@ },
            Resolve::CheckStore { code } => ResolveView::CheckStore { code: code@ },
            Resolve::Done { outcome, refill } => ResolveView::Done {
                outcome: resolved_view(outcome),
                refill: write_view(refill),
            },
        }
    }
}

impl ResolveView {
    /// A lookup of `code` begins at the cache.
    pub open spec fn start(code: Seq<char>) -> ResolveView {
        ResolveView::CheckCache { code }
    }

    /// The lookup after the cache yielded `hit`: a cached URL ends it
    /// without a word to the table, and nothing sends it to the table.
    pub open spec fn after_cache(self, hit: Option<Seq<char>>) -> ResolveView {
        match self {
            ResolveView::CheckCache { code } => match hit {
                Some(url) => ResolveView::Done { outcome: Ok(Some(url)), refill: None },
                None => ResolveView::CheckStore { code },
            },
            _ => self,
        }
    }

    /// The lookup after the table answered with `reply`, read at `now`: the
    /// first live row under the code ends it with its URL, which is due to
    /// be cached; no such row ends it with nothing; a fault ends it with the
    /// fault.
    pub open spec fn after_store(self, reply: Result<Seq<ClipView>, Seq<char>>, now: i64) -> ResolveView {
        match self {
            ResolveView::CheckStore { code } => match reply {
                Ok(rows) => match first_live_by_code(rows, code, now) {
                    Some(clip) => ResolveView::Done {
                        outcome: Ok(Some(clip.url)),
                        refill: Some(cache_entry(code, clip.url)),
                    },
                    None => ResolveView::Done { outcome: Ok(None), refill: None },
                },
                Err(e) => ResolveView::Done { outcome: Err(e), refill: None },
            },
            _ => self,
        }
    }
}

impl Resolve {
    /// Begins the lookup of `code`.
    pub fn start(code: &str) -> (lookup: Resolve)
        ensures
            lookup@ == ResolveView::start(code@),
    {
        Resolve::CheckCache { code: code.to_owned() }
    }

    /// Continues with the cache's reply. A reply that came too early or too
    /// late changes nothing.
    pub fn on_cache(self, reply: Result<Option<String>, CacheUnavailable>) -> (next: Resolve)
        ensures
            next@ == self@.after_cache(cached_value(reply)),
    {
        match self {
            Resolve::CheckCache { code } => match get_cached_clip(reply) {
                Some(url) => Resolve::Done { outcome: Ok(Some(url)), refill: None },
                None => Resolve::CheckStore { code },
            },
            Resolve::CheckStore { code } => Resolve::CheckStore { code },
            Resolve::Done { outcome, refill } => Resolve::Done { outcome, refill },
        }
    }

    /// Continues with the table's reply, read at `now`. A reply that came
    /// too early or too late changes nothing.
    pub fn on_store_at(self, reply: Result<Vec<Clip>, StoreError>, now: i64) -> (next: Resolve)
        ensures
            next@ == self@.after_store(rows_view(reply), now),
    {
        match self {
            Resolve::CheckStore { code } => match reply {
                Ok(rows) => match get_clip(&rows, code.as_str(), now) {
                    Some(clip) => {
                        let refill = cache_clip(code.as_str(), clip.url.as_str());
                        Resolve::Done { outcome: Ok(Some(clip.url)), refill: Some(refill) }
                    },
                    None => Resolve::Done { outcome: Ok(None), refill: None },
                },
                Err(e) => Resolve::Done { outcome: Err(e), refill: None },
            },
            Resolve::CheckCache { code } => Resolve::CheckCache { code },
            Resolve::Done { outcome, refill } => Resolve::Done { outcome, refill },
        }
    }

    /// Continues with the table's reply, read now.
    pub fn on_store(self, reply: Result<Vec<Clip>, StoreError>) -> (next: Resolve)
        ensures
            exists|now: i64| next@ == #[trigger] self@.after_store(rows_view(reply), now),
    {
        let now = local_now();
        self.on_store_at(reply, now)
    }
}

/// The creation of a clip for a URL: what to ask next, or how it ended.
#[derive(Debug)]
pub enum Create {
    /// Ask the table for the rows that point to `url`.
    FindExisting { url: String },
    /// Carry on with the insertion: ask the table to insert its clip.
    Inserting(InsertClip),
    /// The creation has ended with `outcome`; `fill`, if any, is to be
    /// written to the cache, whatever becomes of that write.
    Done { outcome: Created, fill: Option<CacheWrite> },
}

/// A [`Create`] by its view.
pub enum CreateView {
    FindExisting { url: Seq<char> },
    Inserting(InsertClipView),
    Done { outcome: Result<Seq<char>, InsertClipErrorView>, fill: Option<CacheWriteView> },
}

impl View for Create {
    type V = CreateView;

    open spec fn view(&self) -> CreateView {
        match *self {
            Create::FindExisting { url } => CreateView::FindExisting { url: url@ },
            Create::Inserting(insertion) => CreateView::Inserting(insertion@),
            Create::Done { outcome, fill } => CreateView::Done {
                outcome: created_view(outcome),
                fill: write_view(fill),
            },
        }
    }
}

impl CreateView {
    /// A creation for `url` begins by looking for a clip of that URL.
    pub open spec fn start(url: Seq<char>) -> CreateView {
        CreateView::FindExisting { url }
    }

    /// Where an insertion stands within a creation: a pending attempt
    /// carries on, a stored row ends the creation with its code and is due
    /// to be cached, a failure ends it with the failure.
    pub open spec fn of_insertion(insertion: InsertClipView) -> CreateView {
        match insertion {
            InsertClipView::Try { .. } => CreateView::Inserting(insertion),
            InsertClipView::Committed(row) => CreateView::Done {
                outcome: Ok(row.code),
                fill: Some(cache_entry(row.code, row.url)),
            },
            InsertClipView::Abandoned(e) => CreateView::Done { outcome: Err(e), fill: None },
        }
    }

    /// The creation after the table answered the search with `reply`, read
    /// at `now`: the first live row for the URL ends it with that row's
    /// code; no such row begins an insertion that proposes `candidate`; a
    /// fault ends it with the fault.
    pub open spec fn after_lookup(
        self,
        reply: Result<Seq<ClipView>, Seq<char>>,
        now: i64,
        candidate: Seq<char>,
    ) -> CreateView {
        match self {
            CreateView::FindExisting { url } => match reply {
                Ok(rows) => match first_live_by_url(rows, url, now) {
                    Some(clip) => CreateView::Done { outcome: Ok(clip.code), fill: None },
                    None => CreateView::Inserting(InsertClipView::begun(url, now, candidate)),
                },
                Err(e) => CreateView::Done {
                    outcome: Err(InsertClipErrorView::Store(e)),
                    fill: None,
                },
            },
            _ => self,
        }
    }

    /// The creation after the table answered the pending insertion with
    /// `outcome`; see [`InsertClipView::after`].
    pub open spec fn after_insert(
        self,
        outcome: InsertOutcomeView,
        now: i64,
        candidate: Seq<char>,
    ) -> CreateView {
        match self {
            CreateView::Inserting(insertion) => CreateView::of_insertion(
                insertion.after(outcome, now, candidate),
            ),
            _ => self,
        }
    }
}

impl Create {
    /// Begins the creation of a clip for `url`.
    pub fn start(url: &str) -> (creation: Create)
        ensures
            creation@ == CreateView::start(url@),
    {
        Create::FindExisting { url: url.to_owned() }
    }

    fn of_insertion(insertion: InsertClip) -> (creation: Create)
        ensures
            creation@ == CreateView::of_insertion(insertion@),
    {
        match insertion {
            InsertClip::Try { clip, failures } => Create::Inserting(
                InsertClip::Try { clip, failures },
            ),
            InsertClip::Committed(row) => {
                let fill = cache_clip(row.code.as_str(), row.url.as_str());
                Create::Done { outcome: Ok(row.code), fill: Some(fill) }
            },
            InsertClip::Abandoned(e) => Create::Done { outcome: Err(e), fill: None },
        }
    }

    /// Continues with the table's reply to the search, read at `now`; an
    /// insertion, if one is due, proposes `candidate`. A reply that came
    /// too early or too late changes nothing.
    pub fn on_lookup_with(
        self,
        reply: Result<Vec<Clip>, StoreError>,
        now: i64,
        candidate: String,
    ) -> (next: Create)
        ensures
            next@ == self@.after_lookup(rows_view(reply), now, candidate@),
    {
        match self {
            Create::FindExisting { url } => match reply {
                Ok(rows) => match get_clip_by_url(&rows, url.as_str(), now) {
                    Some(clip) => Create::Done { outcome: Ok(clip.code), fill: None },
                    None => Create::Inserting(insert_clip_with(url, now, candidate)),
                },
                Err(e) => Create::Done { outcome: Err(InsertClipError::from(e)), fill: None },
            },
            Create::Inserting(insertion) => Create::Inserting(insertion),
            Create::Done { outcome, fill } => Create::Done { outcome, fill },
        }
    }

    /// Continues with the table's reply to the search, read now; an
    /// insertion, if one is due, proposes a code drawn at random.
    pub fn on_lookup(self, reply: Result<Vec<Clip>, StoreError>) -> (next: Create)
        ensures
            exists|now: i64, candidate: Seq<char>|
                is_code(candidate, CODE_LENGTH as nat) && next@ == #[trigger] self@.after_lookup(
                    rows_view(reply),
                    now,
                    candidate,
                ),
    {
        let now = local_now();
        let candidate = gen_id(CODE_LENGTH);
        self.on_lookup_with(reply, now, candidate)
    }

    /// Continues with the table's answer to the pending insertion; a
    /// further attempt, if one is due, is made at `now` and proposes
    /// `candidate`. An answer that came too early or too late changes
    /// nothing.
    pub fn on_insert_with(self, outcome: InsertOutcome, now: i64, candidate: String) -> (next:
        Create)
        ensures
            next@ == self@.after_insert(outcome@, now, candidate@),
    {
        match self {
            Create::Inserting(insertion) => Create::of_insertion(
                insertion.after_with(outcome, now, candidate),
            ),
            Create::FindExisting { url } => Create::FindExisting { url },
            Create::Done { outcome, fill } => Create::Done { outcome, fill },
        }
    }

    /// Continues with the table's answer to the pending insertion; a
    /// further attempt, if one is due, is made now and proposes a code
    /// drawn at random.
    pub fn on_insert(self, outcome: InsertOutcome) -> (next: Create)
        ensures
            exists|now: i64, candidate: Seq<char>|
                is_code(candidate, CODE_LENGTH as nat) && next@ == #[trigger] self@.after_insert(
                    outcome@,
                    now,
                    candidate,
                ),
    {
        let ghost answer = outcome@;
        let ghost start = self@;
        match self {
            Create::Inserting(insertion) => {
                let ghost before = insertion@;
                let continued = insertion.after(outcome);
                proof {
                    let (now, candidate) = choose|now: i64, candidate: Seq<char>|
                        is_code(candidate, CODE_LENGTH as nat) && continued@
                            == #[trigger] before.after(answer, now, candidate);
                    assert(CreateView::of_insertion(continued@) == start.after_insert(
                        answer,
                        now,
                        candidate,
                    ));
                }
                Create::of_insertion(continued)
            },
            Create::FindExisting { url } => {
                proof {
                    let candidate = a_code();
                    assert(start == start.after_insert(answer, 0, candidate));
                }
                Create::FindExisting { url }
            },
            Create::Done { outcome, fill } => {
                proof {
                    let candidate = a_code();
                    assert(start == start.after_insert(answer, 0, candidate));
                }
                Create::Done { outcome, fill }
            },
        }
    }
}

/// There are codes of the length that clips take.
proof fn a_code() -> (code: Seq<char>)
    ensures
        is_code(code, CODE_LENGTH as nat),
{
    reveal_strlit("abcdefghijklmnopqrstuvwxyz0123456789");
    assert(crate::id::code_alphabet()[0] == 'a');
    Seq::new(CODE_LENGTH as nat, |i: int| 'a')
}

} // verus!
