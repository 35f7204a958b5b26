//! Reads and writes of the clip table, as far as they are decided here: which
//! of the rows a query brought back is served, and what follows an attempt to
//! insert a row.

use crate::id::{gen_id, is_code};
use crate::models::{Clip, ClipView, NewClip, NewClipView};
use vstd::prelude::*;
use vstd::string::StringExecFns;

verus! {

/// How often one creation may propose a code before it gives up.
pub const MAX_ATTEMPTS: usize = 10;

/// Number of characters in the code of a clip.
pub const CODE_LENGTH: usize = 5;

/// A fault of the durable store, with the store's own words.
#[derive(Debug)]
pub struct StoreError {
    pub message: String,
}

impl View for StoreError {
    type V = Seq<char>;

    open spec fn view(&self) -> Seq<char> {
        self.message@
    }
}

/// Why a clip could not be inserted.
#[derive(Debug)]
pub enum InsertClipError {
    /// The store failed for a reason other than a taken code.
    Store(StoreError),
    /// Every proposed code was already taken.
    MaxAttemptsExceeded,
}

/// An [`InsertClipError`] with its message as a character sequence.
pub enum InsertClipErrorView {
    Store(Seq<char>),
    MaxAttemptsExceeded,
}

impl View for InsertClipError {
    type V = InsertClipErrorView;

    open spec fn view(&self) -> InsertClipErrorView {
        match *self {
            InsertClipError::Store(e) => InsertClipErrorView::Store(e@),
            InsertClipError::MaxAttemptsExceeded => InsertClipErrorView::MaxAttemptsExceeded,
        }
    }
}

impl InsertClipErrorView {
    /// The text shown for the error.
    pub open spec fn message(self) -> Seq<char> {
        match self {
            InsertClipErrorView::Store(e) => "Database error: "@ + e,
            InsertClipErrorView::MaxAttemptsExceeded =>
                "Exceeded maximum attempts to generate a unique code."@,
        }
    }
}

impl InsertClipError {
    /// The text shown for the error.
    pub fn message(&self) -> (text: String)
        ensures
            text@ == self@.message(),
    {
        match self {
            InsertClipError::Store(e) => String::from_str("Database error: ").concat(
                e.message.as_str(),
            ),
            InsertClipError::MaxAttemptsExceeded => String::from_str(
                "Exceeded maximum attempts to generate a unique code.",
            ),
        }
    }
}

impl From<StoreError> for InsertClipError {
    fn from(error: StoreError) -> (wrapped: InsertClipError) {
        InsertClipError::Store(error)
    }
}

impl vstd::std_specs::convert::FromSpecImpl<StoreError> for InsertClipError {
    open spec fn obeys_from_spec() -> bool {
        true
    }

    open spec fn from_spec(error: StoreError) -> InsertClipError {
        InsertClipError::Store(error)
    }
}

/// The rows of a table, each by its view.
pub open spec fn clip_views(rows: Seq<Clip>) -> Seq<ClipView> {
    rows.map_values(|clip: Clip| clip@)
}

/// The view of a clip that was or was not found.
pub open spec fn found_view(found: Option<Clip>) -> Option<ClipView> {
    match found {
        Some(clip) => Some(clip@),
        None => None,
    }
}

/// What a search of the table goes by.
pub enum Key {
    /// The clip's code.
    Code(Seq<char>),
    /// The URL the clip points to.
    Url(Seq<char>),
}

impl Key {
    /// Whether `clip` is a row that the search is for.
    pub open spec fn fits(self, clip: ClipView) -> bool {
        match self {
            Key::Code(code) => clip.code == code,
            Key::Url(url) => clip.url == url,
        }
    }
}

/// The first row, in table order, that fits `key` and is live at `now`.
pub open spec fn first_live(rows: Seq<ClipView>, key: Key, now: i64) -> Option<ClipView>
    decreases rows.len(),
{
    if rows.len() == 0 {
        None
    } else if key.fits(rows[0]) && rows[0].is_live(now) {
        Some(rows[0])
    } else {
        first_live(rows.skip(1), key, now)
    }
}

/// The first row, in table order, that carries `code` and is live at `now`.
pub open spec fn first_live_by_code(rows: Seq<ClipView>, code: Seq<char>, now: i64) -> Option<
    ClipView,
> {
    first_live(rows, Key::Code(code), now)
}

/// The first row, in table order, that points to `url` and is live at `now`.
pub open spec fn first_live_by_url(rows: Seq<ClipView>, url: Seq<char>, now: i64) -> Option<
    ClipView,
> {
    first_live(rows, Key::Url(url), now)
}

/// Returns the clip that a read of `clip_code` at `now` serves, out of the
/// rows the table holds under that code: the first that has not expired.
pub fn get_clip(rows: &Vec<Clip>, clip_code: &str, now: i64) -> (found: Option<Clip>)
    ensures
        found_view(found) == first_live_by_code(clip_views(rows@), clip_code@, now),
{
    let wanted = clip_code.to_owned();
    let ghost all = clip_views(rows@);
    assert(all.skip(0) == all);
    let mut at: usize = 0;
    while at < rows.len()
        invariant
            at <= rows.len(),
            all == clip_views(rows@),
            wanted@ == clip_code@,
            first_live(all, Key::Code(clip_code@), now) == first_live(
                all.skip(at as int),
                Key::Code(clip_code@),
                now,
            ),
        decreases rows.len() - at,
    {
        let row = &rows[at];
        assert(all.skip(at as int)[0] == row@);
        assert(all.skip(at as int).skip(1) == all.skip(at + 1));
        if row.code == wanted && row.is_live(now) {
            return Some(row.clone());
        }
        at = at + 1;
    }
    None
}

/// Looks for a clip by its URL: the first row pointing to `url` that has not
/// expired at `now`, if there is one.
pub fn get_clip_by_url(rows: &Vec<Clip>, url: &str, now: i64) -> (found: Option<Clip>)
    ensures
        found_view(found) == first_live_by_url(clip_views(rows@), url@, now),
{
    let wanted = url.to_owned();
    let ghost all = clip_views(rows@);
    assert(all.skip(0) == all);
    let mut at: usize = 0;
    while at < rows.len()
        invariant
            at <= rows.len(),
            all == clip_views(rows@),
            wanted@ == url@,
            first_live(all, Key::Url(url@), now) == first_live(
                all.skip(at as int),
                Key::Url(url@),
                now,
            ),
        decreases rows.len() - at,
    {
        let row = &rows[at];
        assert(all.skip(at as int)[0] == row@);
        assert(all.skip(at as int).skip(1) == all.skip(at + 1));
        if row.url == wanted && row.is_live(now) {
            return Some(row.clone());
        }
        at = at + 1;
    }
    None
}

/// The ids of the rows that have expired at `now`, in table order.
pub open spec fn garbage_ids(rows: Seq<ClipView>, now: i64) -> Seq<i32>
    decreases rows.len(),
{
    if rows.len() == 0 {
        Seq::empty()
    } else if rows.last().is_expired(now) {
        garbage_ids(rows.drop_last(), now).push(rows.last().id)
    } else {
        garbage_ids(rows.drop_last(), now)
    }
}

/// Picks the rows that a sweep at `now` deletes: those whose expiry lies in
/// the past. Returns their ids, in table order.
pub fn collect_garbage(rows: &Vec<Clip>, now: i64) -> (expired: Vec<i32>)
    ensures
        expired@ == garbage_ids(clip_views(rows@), now),
{
    let ghost all = clip_views(rows@);
    let mut expired: Vec<i32> = Vec::new();
    let mut at: usize = 0;
    while at < rows.len()
        invariant
            at <= rows.len(),
            all == clip_views(rows@),
            expired@ == garbage_ids(all.take(at as int), now),
        decreases rows.len() - at,
    {
        let row = &rows[at];
        assert(all.take(at + 1).drop_last() == all.take(at as int));
        assert(all.take(at + 1).last() == row@);
        if row.is_expired(now) {
            expired.push(row.id);
        }
        at = at + 1;
    }
    assert(all.take(at as int) == all);
    expired
}

/// Reads the local wall clock, by `chrono::Local::now`, and gives the naive
/// local time as microseconds since the epoch. Nothing is promised of the
/// value: it is whatever the clock shows.
#[verifier::external_body]
pub(crate) fn local_now() -> (now: i64) {
    chrono::Local::now().naive_local().and_utc().timestamp_micros()
}

/// Returns the clip that a read of `clip_code` serves now.
pub fn get_clip_now(rows: &Vec<Clip>, clip_code: &str) -> (found: Option<Clip>)
    ensures
        exists|now: i64|
            found_view(found) == #[trigger] first_live_by_code(clip_views(rows@), clip_code@, now),
{
    let now = local_now();
    get_clip(rows, clip_code, now)
}

/// What the store answered to an attempt to insert a clip.
#[derive(Debug)]
pub enum InsertOutcome {
    /// The clip was stored, as this row.
    Inserted(Clip),
    /// The code of the clip is taken.
    UniqueViolation,
    /// The store failed otherwise.
    Failed(StoreError),
}

/// An [`InsertOutcome`] by its view.
pub enum InsertOutcomeView {
    Inserted(ClipView),
    UniqueViolation,
    Failed(Seq<char>),
}

impl View for InsertOutcome {
    type V = InsertOutcomeView;

    open spec fn view(&self) -> InsertOutcomeView {
        match *self {
            InsertOutcome::Inserted(row) => InsertOutcomeView::Inserted(row@),
            InsertOutcome::UniqueViolation => InsertOutcomeView::UniqueViolation,
            InsertOutcome::Failed(e) => InsertOutcomeView::Failed(e@),
        }
    }
}

/// The insertion of a clip under a random code: what to ask of the store
/// next, or how it ended.
#[derive(Debug)]
pub enum InsertClip {
    /// Ask the store to insert `clip`; `failures` codes were taken so far.
    Try { clip: NewClip, failures: usize },
    /// The clip is stored, as this row.
    Committed(Clip),
    /// The insertion failed for good.
    Abandoned(InsertClipError),
}

/// An [`InsertClip`] by its view.
pub enum InsertClipView {
    Try { clip: NewClipView, failures: usize },
    Committed(ClipView),
    Abandoned(InsertClipErrorView),
}

impl View for InsertClip {
    type V = InsertClipView;

    open spec fn view(&self) -> InsertClipView {
        match *self {
            InsertClip::Try { clip, failures } => InsertClipView::Try { clip: clip@, failures },
            InsertClip::Committed(row) => InsertClipView::Committed(row@),
            InsertClip::Abandoned(e) => InsertClipView::Abandoned(e@),
        }
    }
}

impl InsertClipView {
    /// An insertion of `url` that starts at `now` and proposes `candidate`.
    pub open spec fn begun(url: Seq<char>, now: i64, candidate: Seq<char>) -> InsertClipView {
        InsertClipView::Try { clip: NewClipView::proposed(url, candidate, now), failures: 0 }
    }

    /// The insertion after the store answered the pending attempt with
    /// `outcome`. A taken code leads to another attempt, with `candidate`
    /// and the time `now`, unless it was the last one allowed. An insertion
    /// that has ended stays as it is.
    pub open spec fn after(self, outcome: InsertOutcomeView, now: i64, candidate: Seq<char>) -> InsertClipView {
        match self {
            InsertClipView::Try { clip, failures } => match outcome {
                InsertOutcomeView::Inserted(row) => InsertClipView::Committed(row),
                InsertOutcomeView::UniqueViolation => if failures + 1 < MAX_ATTEMPTS {
                    InsertClipView::Try {
                        clip: NewClipView::proposed(clip.url, candidate, now),
                        failures: (failures + 1) as usize,
                    }
                } else {
                    InsertClipView::Abandoned(InsertClipErrorView::MaxAttemptsExceeded)
                },
                InsertOutcomeView::Failed(e) => InsertClipView::Abandoned(
                    InsertClipErrorView::Store(e),
                ),
            },
            _ => self,
        }
    }
}

/// Begins the insertion of a clip for `url`, created at `now`, that
/// proposes the code `candidate`.
pub fn insert_clip_with(url: String, now: i64, candidate: String) -> (insertion: InsertClip)
    ensures
        insertion@ == InsertClipView::begun(url@, now, candidate@),
{
    InsertClip::Try { clip: NewClip::new(url, candidate, now), failures: 0 }
}

/// Begins the insertion of a clip for `url`, created now, under a code
/// drawn at random.
pub fn insert_clip(url: String) -> (insertion: InsertClip)
    ensures
        exists|now: i64, candidate: Seq<char>|
            is_code(candidate, CODE_LENGTH as nat) && insertion@ == #[trigger] InsertClipView::begun(
                url@,
                now,
                candidate,
            ),
{
    let now = local_now();
    let candidate = gen_id(CODE_LENGTH);
    insert_clip_with(url, now, candidate)
}

impl InsertClip {
    /// Continues the insertion with the store's answer to the pending
    /// attempt; a further attempt, if one is due, is made at `now` with the
    /// code `candidate`.
    pub fn after_with(self, outcome: InsertOutcome, now: i64, candidate: String) -> (next:
        InsertClip)
        ensures
            next@ == self@.after(outcome@, now, candidate@),
    {
        match self {
            InsertClip::Try { clip, failures } => match outcome {
                InsertOutcome::Inserted(row) => InsertClip::Committed(row),
                InsertOutcome::UniqueViolation => if failures < MAX_ATTEMPTS - 1 {
                    InsertClip::Try {
                        clip: NewClip::new(clip.url, candidate, now),
                        failures: failures + 1,
                    }
                } else {
                    InsertClip::Abandoned(InsertClipError::MaxAttemptsExceeded)
                },
                InsertOutcome::Failed(e) => InsertClip::Abandoned(InsertClipError::from(e)),
            },
            InsertClip::Committed(row) => InsertClip::Committed(row),
            InsertClip::Abandoned(e) => InsertClip::Abandoned(e),
        }
    }

    /// Continues the insertion with the store's answer to the pending
    /// attempt; a further attempt, if one is due, is made now with a code
    /// drawn at random.
    pub fn after(self, outcome: InsertOutcome) -> (next: InsertClip)
        ensures
            exists|now: i64, candidate: Seq<char>|
                is_code(candidate, CODE_LENGTH as nat) && next@ == #[trigger] self@.after(
                    outcome@,
                    now,
                    candidate,
                ),
    {
        let now = local_now();
        let candidate = gen_id(CODE_LENGTH);
        self.after_with(outcome, now, candidate)
    }
}

/// The insertion after `refused` attempts in a row found their code taken.
pub open spec fn after_refusals(
    start: InsertClipView,
    times: Seq<i64>,
    candidates: Seq<Seq<char>>,
    refused: nat,
) -> InsertClipView
    decreases refused,
{
    if refused == 0 {
        start
    } else {
        after_refusals(start, times, candidates, (refused - 1) as nat).after(
            InsertOutcomeView::UniqueViolation,
            times[refused - 1],
            candidates[refused - 1],
        )
    }
}

/// An insertion proposes at most ten codes. As long as fewer than ten were
/// refused, the next is pending, for the same URL; the tenth refusal ends
/// the insertion with `MaxAttemptsExceeded`, whatever codes were proposed.
pub proof fn refusals_exhaust_attempts(
    url: Seq<char>,
    now: i64,
    candidate: Seq<char>,
    times: Seq<i64>,
    candidates: Seq<Seq<char>>,
    refused: nat,
)
    requires
        refused <= MAX_ATTEMPTS,
    ensures
        ({
            let reached = after_refusals(
                InsertClipView::begun(url, now, candidate),
                times,
                candidates,
                refused,
            );
            if refused < MAX_ATTEMPTS {
                &&& reached is Try
                &&& reached->failures == refused
                &&& reached->clip.url == url
            } else {
                reached == InsertClipView::Abandoned(InsertClipErrorView::MaxAttemptsExceeded)
            }
        }),
    decreases refused,
{
    if refused > 0 {
        refusals_exhaust_attempts(url, now, candidate, times, candidates, (refused - 1) as nat);
    }
}

} // verus!
