//! A model of the clip table and the lookup cache, and what holds of lookups
//! and creations that are carried out against them.
//!
//! The table keeps its rows in the order they were inserted, refuses a row
//! whose code it already holds, and answers a search with the rows that fit,
//! in that order. The cache holds at most one URL per code and may be down,
//! in which case it yields nothing and drops what is written to it.

use crate::cache::CacheWriteView;
use crate::db::{first_live, InsertClipView, InsertOutcomeView, Key, MAX_ATTEMPTS};
use crate::models::{ClipView, NewClipView};
use crate::store::{CreateView, ResolveView};
use vstd::prelude::*;

verus! {

/// The rows of `rows` that fit `key`, in their order.
pub open spec fn matching(rows: Seq<ClipView>, key: Key) -> Seq<ClipView>
    decreases rows.len(),
{
    if rows.len() == 0 {
        Seq::empty()
    } else if key.fits(rows[0]) {
        seq![rows[0]] + matching(rows.skip(1), key)
    } else {
        matching(rows.skip(1), key)
    }
}

/// The table and the cache.
pub struct World {
    /// The rows of the table, oldest first.
    pub rows: Seq<ClipView>,
    /// What the cache holds: the URL cached under each code.
    pub cache: Map<Seq<char>, Seq<char>>,
}

impl World {
    /// Whether the table holds a row with `code`.
    pub open spec fn has_code(self, code: Seq<char>) -> bool {
        exists|i: int| 0 <= i < self.rows.len() && (#[trigger] self.rows[i]).code == code
    }

    /// Whether the table holds a row with `code` that is live at `now`.
    pub open spec fn has_live_code(self, code: Seq<char>, now: i64) -> bool {
        exists|i: int|
            0 <= i < self.rows.len() && (#[trigger] self.rows[i]).code == code
                && self.rows[i].is_live(now)
    }

    /// No two rows of the table have the same code.
    pub open spec fn codes_unique(self) -> bool {
        forall|i: int, j: int|
            0 <= i < j < self.rows.len() ==> (#[trigger] self.rows[i]).code
                != (#[trigger] self.rows[j]).code
    }

    /// Whatever the cache holds under a code is the URL of a row with that
    /// code.
    pub open spec fn cache_coherent(self) -> bool {
        forall|code: Seq<char>| #[trigger]
            self.cache.contains_key(code) ==> exists|i: int|
                0 <= i < self.rows.len() && (#[trigger] self.rows[i]).code == code
                    && self.rows[i].url == self.cache[code]
    }

    /// Whatever the cache holds under a code is the URL of a row with that
    /// code which is live at `now`.
    pub open spec fn cache_fresh(self, now: i64) -> bool {
        forall|code: Seq<char>| #[trigger]
            self.cache.contains_key(code) ==> exists|i: int|
                0 <= i < self.rows.len() && (#[trigger] self.rows[i]).code == code
                    && self.rows[i].url == self.cache[code] && self.rows[i].is_live(now)
    }

    /// The table keeps its codes unique and the cache holds nothing that
    /// the table does not.
    pub open spec fn wf(self) -> bool {
        self.codes_unique() && self.cache_coherent()
    }

    /// What the cache yields for `code`.
    pub open spec fn cache_get(self, code: Seq<char>, up: bool) -> Option<Seq<char>> {
        if up && self.cache.contains_key(code) {
            Some(self.cache[code])
        } else {
            None
        }
    }

    /// The world after `write`, if there is one, was sent to the cache.
    pub open spec fn cache_set(self, write: Option<CacheWriteView>, up: bool) -> World {
        match write {
            Some(w) if up => World { cache: self.cache.insert(w.key, w.value), ..self },
            _ => self,
        }
    }

    /// The table's answer to an insertion of `clip`, which would be stored
    /// under `id`, and the world after it.
    pub open spec fn insert(self, clip: NewClipView, id: i32) -> (World, InsertOutcomeView) {
        if self.has_code(clip.code) {
            (self, InsertOutcomeView::UniqueViolation)
        } else {
            let row = ClipView::stored(clip, id);
            (World { rows: self.rows.push(row), ..self }, InsertOutcomeView::Inserted(row))
        }
    }

    /// A lookup of `code` at `now`, carried out to its end: how it ended,
    /// and the world it leaves.
    pub open spec fn resolve(self, code: Seq<char>, now: i64, up: bool) -> (ResolveView, World) {
        let asked = ResolveView::start(code).after_cache(self.cache_get(code, up));
        let end = asked.after_store(Ok(matching(self.rows, Key::Code(code))), now);
        (
            end,
            match end {
                ResolveView::Done { refill, .. } => self.cache_set(refill, up),
                _ => self,
            },
        )
    }

    /// An insertion carried out to its end: each pending attempt is put to
    /// the table, and a refused one is followed by the next candidate.
    pub open spec fn run_insertion(
        self,
        insertion: InsertClipView,
        now: i64,
        candidates: Seq<Seq<char>>,
        id: i32,
    ) -> (InsertClipView, World)
        decreases
            (match insertion {
                InsertClipView::Try { failures, .. } if failures < MAX_ATTEMPTS => MAX_ATTEMPTS
                    - failures,
                _ => 0,
            }),
    {
        match insertion {
            InsertClipView::Try { clip, failures } => {
                let (world, outcome) = self.insert(clip, id);
                let next = insertion.after(outcome, now, candidates[failures + 1]);
                if outcome is UniqueViolation && failures + 1 < MAX_ATTEMPTS {
                    world.run_insertion(next, now, candidates, id)
                } else {
                    (next, world)
                }
            },
            _ => (insertion, self),
        }
    }

    /// A creation for `url` at `now`, carried out to its end: how it ended,
    /// and the world it leaves. The codes proposed are `candidates`, in
    /// order; a row that is inserted is stored under `id`.
    pub open spec fn create(
        self,
        url: Seq<char>,
        now: i64,
        candidates: Seq<Seq<char>>,
        id: i32,
        up: bool,
    ) -> (CreateView, World) {
        let searched = CreateView::start(url).after_lookup(
            Ok(matching(self.rows, Key::Url(url))),
            now,
            candidates[0],
        );
        match searched {
            CreateView::Inserting(insertion) => {
                let (ended, world) = self.run_insertion(insertion, now, candidates, id);
                let end = CreateView::of_insertion(ended);
                (
                    end,
                    match end {
                        CreateView::Done { fill, .. } => world.cache_set(fill, up),
                        _ => world,
                    },
                )
            },
            _ => (searched, self),
        }
    }
}

/// Where the first live row that fits `key` stands in `rows`: at the index
/// returned, before which no row both fits and is live; or nowhere, and then
/// no row of `rows` both fits and is live.
pub proof fn first_live_index(rows: Seq<ClipView>, key: Key, now: i64) -> (at: int)
    ensures
        first_live(rows, key, now) is Some ==> {
            &&& 0 <= at < rows.len()
            &&& first_live(rows, key, now) == Some(rows[at])
            &&& key.fits(rows[at])
            &&& rows[at].is_live(now)
            &&& forall|j: int| 0 <= j < at ==> !(key.fits(#[trigger] rows[j]) && rows[j].is_live(now))
        },
        first_live(rows, key, now) is None ==> forall|j: int|
            0 <= j < rows.len() ==> !(key.fits(#[trigger] rows[j]) && rows[j].is_live(now)),
    decreases rows.len(),
{
    if rows.len() == 0 {
        0
    } else if key.fits(rows[0]) && rows[0].is_live(now) {
        0
    } else {
        let rest = rows.skip(1);
        let in_rest = first_live_index(rest, key, now);
        assert forall|j: int| 0 <= j < rest.len() implies rest[j] == rows[j + 1] by {}
        if first_live(rest, key, now) is Some {
            assert forall|j: int| 0 <= j < in_rest + 1 implies !(key.fits(#[trigger] rows[j])
                && rows[j].is_live(now)) by {
                if j > 0 {
                    assert(rest[j - 1] == rows[j]);
                }
            }
        } else {
            assert forall|j: int| 0 <= j < rows.len() implies !(key.fits(#[trigger] rows[j])
                && rows[j].is_live(now)) by {
                if j > 0 {
                    assert(rest[j - 1] == rows[j]);
                }
            }
        }
        in_rest + 1
    }
}

/// The row at `at` is the first live row that fits `key` if it fits and is
/// live and no row before it is both.
pub proof fn first_live_at(rows: Seq<ClipView>, key: Key, now: i64, at: int)
    requires
        0 <= at < rows.len(),
        key.fits(rows[at]),
        rows[at].is_live(now),
        forall|j: int| 0 <= j < at ==> !(key.fits(#[trigger] rows[j]) && rows[j].is_live(now)),
    ensures
        first_live(rows, key, now) == Some(rows[at]),
    decreases at,
{
    if at > 0 {
        let rest = rows.skip(1);
        assert forall|j: int| 0 <= j < at - 1 implies !(key.fits(#[trigger] rest[j])
            && rest[j].is_live(now)) by {
            assert(rest[j] == rows[j + 1]);
        }
        first_live_at(rest, key, now, at - 1);
    }
}

/// A search that is answered with the fitting rows only serves the same
/// clip as one that is answered with the whole table.
pub proof fn matching_keeps_first_live(rows: Seq<ClipView>, key: Key, now: i64)
    ensures
        first_live(matching(rows, key), key, now) == first_live(rows, key, now),
    decreases rows.len(),
{
    if rows.len() > 0 {
        matching_keeps_first_live(rows.skip(1), key, now);
        if key.fits(rows[0]) {
            let found = matching(rows, key);
            assert(found[0] == rows[0]);
            assert(found.skip(1) == matching(rows.skip(1), key));
        }
    }
}

/// How an insertion ends against the table: with a row for the URL that is
/// live at the time of the insertion and whose code the table did not hold,
/// appended to the table; or, after ten refusals, without a change.
pub proof fn run_insertion_ends(
    world: World,
    insertion: InsertClipView,
    now: i64,
    candidates: Seq<Seq<char>>,
    id: i32,
)
    requires
        insertion is Try,
        insertion->failures < MAX_ATTEMPTS,
        insertion->clip.created_at == now,
        insertion->clip.expires_at == crate::models::expiry_after(now),
    ensures
        ({
            let (ended, after) = world.run_insertion(insertion, now, candidates, id);
            match ended {
                InsertClipView::Committed(row) => {
                    &&& row.url == insertion->clip.url
                    &&& row.is_live(now)
                    &&& !world.has_code(row.code)
                    &&& after == World { rows: world.rows.push(row), ..world }
                },
                InsertClipView::Abandoned(e) => {
                    &&& e == crate::db::InsertClipErrorView::MaxAttemptsExceeded
                    &&& after == world
                },
                InsertClipView::Try { .. } => false,
            }
        }),
    decreases MAX_ATTEMPTS - insertion->failures,
{
    let clip = insertion->clip;
    let failures = insertion->failures;
    let (next_world, outcome) = world.insert(clip, id);
    let next = insertion.after(outcome, now, candidates[failures + 1]);
    if outcome is UniqueViolation && failures + 1 < MAX_ATTEMPTS {
        run_insertion_ends(next_world, next, now, candidates, id);
    }
}

/// A code that the table has never been given resolves to nothing, and the
/// lookup leaves table and cache as they were.
pub proof fn unknown_code_resolves_to_nothing(world: World, code: Seq<char>, now: i64, up: bool)
    requires
        world.cache_coherent(),
        !world.has_code(code),
    ensures
        world.resolve(code, now, up).0 == (ResolveView::Done { outcome: Ok(None), refill: None }),
        world.resolve(code, now, up).1 == world,
{
    let key = Key::Code(code);
    matching_keeps_first_live(world.rows, key, now);
    first_live_index(world.rows, key, now);
}

/// A lookup serves the URL of the live row with the code, where the table
/// holds one, whether it is served by the cache or by the table.
pub proof fn live_code_resolves(world: World, code: Seq<char>, now: i64, up: bool, at: int)
    requires
        world.wf(),
        0 <= at < world.rows.len(),
        world.rows[at].code == code,
        world.rows[at].is_live(now),
    ensures
        world.resolve(code, now, up).0 is Done,
        world.resolve(code, now, up).0->outcome == Ok::<Option<Seq<char>>, Seq<char>>(
            Some(world.rows[at].url),
        ),
{
    let key = Key::Code(code);
    matching_keeps_first_live(world.rows, key, now);
    let first = first_live_index(world.rows, key, now);
    if world.cache_get(code, up) is Some {
        let cached = choose|i: int|
            0 <= i < world.rows.len() && (#[trigger] world.rows[i]).code == code
                && world.rows[i].url == world.cache[code];
        assert(cached == at);
    }
}

/// Lookups keep the table as it is, and table and cache well-formed.
pub proof fn resolve_keeps_wf(world: World, code: Seq<char>, now: i64, up: bool)
    requires
        world.wf(),
    ensures
        world.resolve(code, now, up).1.wf(),
        world.resolve(code, now, up).1.rows == world.rows,
        world.resolve(code, now, up).0 is Done,
{
    let key = Key::Code(code);
    matching_keeps_first_live(world.rows, key, now);
    let first = first_live_index(world.rows, key, now);
    let after = world.resolve(code, now, up).1;
    assert forall|c: Seq<char>| #[trigger] after.cache.contains_key(c) implies exists|i: int|
        0 <= i < after.rows.len() && (#[trigger] after.rows[i]).code == c && after.rows[i].url
            == after.cache[c] by {
        if world.cache.contains_key(c) && after.cache[c] == world.cache[c] {
            let i = choose|i: int|
                0 <= i < world.rows.len() && (#[trigger] world.rows[i]).code == c
                    && world.rows[i].url == world.cache[c];
            assert(after.rows[i].code == c);
        } else {
            assert(after.rows[first].code == c);
        }
    }
}

/// Every creation ends, and leaves table and cache well-formed.
pub proof fn create_keeps_wf(
    world: World,
    url: Seq<char>,
    now: i64,
    candidates: Seq<Seq<char>>,
    id: i32,
    up: bool,
)
    requires
        world.wf(),
    ensures
        world.create(url, now, candidates, id, up).0 is Done,
        world.create(url, now, candidates, id, up).1.wf(),
{
    let key = Key::Url(url);
    matching_keeps_first_live(world.rows, key, now);
    let searched = CreateView::start(url).after_lookup(
        Ok(matching(world.rows, key)),
        now,
        candidates[0],
    );
    let after = world.create(url, now, candidates, id, up).1;
    if searched is Inserting {
        let insertion = searched->0;
        run_insertion_ends(world, insertion, now, candidates, id);
        let (ended, grown) = world.run_insertion(insertion, now, candidates, id);
        if ended is Committed {
            let row = ended->Committed_0;
            let n = world.rows.len() as int;
            assert(grown.rows[n] == row);
            assert forall|i: int, j: int| 0 <= i < j < after.rows.len() implies (
            #[trigger] after.rows[i]).code != (#[trigger] after.rows[j]).code by {
                if j == n {
                    assert(world.rows[i].code != row.code);
                }
            }
            assert forall|c: Seq<char>| #[trigger] after.cache.contains_key(c) implies exists|
                i: int,
            |
                0 <= i < after.rows.len() && (#[trigger] after.rows[i]).code == c
                    && after.rows[i].url == after.cache[c] by {
                if world.cache.contains_key(c) {
                    let i = choose|i: int|
                        0 <= i < world.rows.len() && (#[trigger] world.rows[i]).code == c
                            && world.rows[i].url == world.cache[c];
                    assert(after.rows[i] == world.rows[i]);
                    assert(c != row.code);
                } else {
                    assert(after.rows[n].code == c);
                }
            }
        }
    }
}

/// The code that a creation returns resolves, at that moment, to the URL
/// the creation was for, whether or not the cache is up.
pub proof fn created_code_resolves(
    world: World,
    url: Seq<char>,
    now: i64,
    candidates: Seq<Seq<char>>,
    id: i32,
    up: bool,
    up_after: bool,
)
    requires
        world.wf(),
    ensures
        ({
            let (end, after) = world.create(url, now, candidates, id, up);
            end matches CreateView::Done { outcome: Ok(code), .. } ==> after.resolve(
                code,
                now,
                up_after,
            ).0 == (ResolveView::Done { outcome: Ok(Some(url)), refill: after.resolve(
                code,
                now,
                up_after,
            ).0->refill })
        }),
{
    let key = Key::Url(url);
    matching_keeps_first_live(world.rows, key, now);
    let found = first_live_index(world.rows, key, now);
    let searched = CreateView::start(url).after_lookup(
        Ok(matching(world.rows, key)),
        now,
        candidates[0],
    );
    let (end, after) = world.create(url, now, candidates, id, up);
    create_keeps_wf(world, url, now, candidates, id, up);
    if end is Done && end->outcome is Ok {
        let code = end->outcome->Ok_0;
        if searched is Inserting {
            let insertion = searched->0;
            run_insertion_ends(world, insertion, now, candidates, id);
            let (ended, grown) = world.run_insertion(insertion, now, candidates, id);
            let n = world.rows.len() as int;
            assert(after.rows[n] == ended->Committed_0);
            live_code_resolves(after, code, now, up_after, n);
        } else {
            live_code_resolves(after, code, now, up_after, found);
        }
    }
}

/// A second creation for a URL returns the code of the first, as long as
/// the clip of the first has not expired and the clock has not gone back.
pub proof fn create_is_idempotent(
    world: World,
    url: Seq<char>,
    first: i64,
    second: i64,
    first_candidates: Seq<Seq<char>>,
    second_candidates: Seq<Seq<char>>,
    first_id: i32,
    second_id: i32,
    first_up: bool,
    second_up: bool,
)
    requires
        world.codes_unique(),
        first <= second,
        world.create(url, first, first_candidates, first_id, first_up).0 matches CreateView::Done {
            outcome: Ok(code),
            ..
        } && world.create(url, first, first_candidates, first_id, first_up).1.has_live_code(
            code,
            second,
        ),
    ensures
        ({
            let (end, after) = world.create(url, first, first_candidates, first_id, first_up);
            let again = after.create(url, second, second_candidates, second_id, second_up);
            &&& again.0 is Done
            &&& again.0->outcome == end->outcome
            &&& again.1.rows == after.rows
        }),
{
    let key = Key::Url(url);
    matching_keeps_first_live(world.rows, key, first);
    let found = first_live_index(world.rows, key, first);
    let searched = CreateView::start(url).after_lookup(
        Ok(matching(world.rows, key)),
        first,
        first_candidates[0],
    );
    let (end, after) = world.create(url, first, first_candidates, first_id, first_up);
    let code = end->outcome->Ok_0;
    let live = choose|i: int|
        0 <= i < after.rows.len() && (#[trigger] after.rows[i]).code == code
            && after.rows[i].is_live(second);
    matching_keeps_first_live(after.rows, key, second);
    if searched is Inserting {
        let insertion = searched->0;
        run_insertion_ends(world, insertion, first, first_candidates, first_id);
        let (ended, grown) = world.run_insertion(insertion, first, first_candidates, first_id);
        let row = ended->Committed_0;
        let n = world.rows.len() as int;
        assert(after.rows[n] == row);
        if live < n {
            assert(world.rows[live].code == code);
        }
        assert forall|j: int| 0 <= j < n implies !(key.fits(#[trigger] after.rows[j])
            && after.rows[j].is_live(second)) by {
            assert(after.rows[j] == world.rows[j]);
        }
        first_live_at(after.rows, key, second, n);
    } else {
        assert(after.rows == world.rows);
        assert(live == found);
        first_live_at(after.rows, key, second, found);
    }
}

/// A cache that is down changes no outcome. A lookup ends as it would with
/// the cache up, provided that the cache holds live clips only; a creation
/// ends as it would with the cache up, and leaves the same table, whatever
/// the cache holds.
pub proof fn cache_failure_keeps_outcomes(
    world: World,
    code: Seq<char>,
    url: Seq<char>,
    now: i64,
    candidates: Seq<Seq<char>>,
    id: i32,
)
    requires
        world.codes_unique(),
    ensures
        world.cache_fresh(now) ==> world.resolve(code, now, false).0->outcome == world.resolve(
            code,
            now,
            true,
        ).0->outcome,
        world.resolve(code, now, false).0 is Done,
        world.resolve(code, now, true).0 is Done,
        world.resolve(code, now, false).1 == world,
        world.create(url, now, candidates, id, false).0 == world.create(
            url,
            now,
            candidates,
            id,
            true,
        ).0,
        world.create(url, now, candidates, id, false).1.rows == world.create(
            url,
            now,
            candidates,
            id,
            true,
        ).1.rows,
        world.create(url, now, candidates, id, false).1.cache == world.cache,
{
    let key = Key::Code(code);
    matching_keeps_first_live(world.rows, key, now);
    let first = first_live_index(world.rows, key, now);
    if world.cache_fresh(now) && world.cache.contains_key(code) {
        let cached = choose|i: int|
            0 <= i < world.rows.len() && (#[trigger] world.rows[i]).code == code
                && world.rows[i].url == world.cache[code] && world.rows[i].is_live(now);
        assert(cached == first);
    }
    let by_url = Key::Url(url);
    matching_keeps_first_live(world.rows, by_url, now);
    let searched = CreateView::start(url).after_lookup(
        Ok(matching(world.rows, by_url)),
        now,
        candidates[0],
    );
    if searched is Inserting {
        run_insertion_ends(world, searched->0, now, candidates, id);
    }
}

/// The rows that a sweep at `now` leaves: those that have not expired.
pub open spec fn swept(rows: Seq<ClipView>, now: i64) -> Seq<ClipView>
    decreases rows.len(),
{
    if rows.len() == 0 {
        Seq::empty()
    } else if rows[0].is_expired(now) {
        swept(rows.skip(1), now)
    } else {
        seq![rows[0]] + swept(rows.skip(1), now)
    }
}

/// A sweep changes no read that comes after it: what a search serves at
/// `later` is the same with and without the rows swept at `now`.
pub proof fn sweep_spares_reads(rows: Seq<ClipView>, key: Key, now: i64, later: i64)
    requires
        now <= later,
    ensures
        first_live(swept(rows, now), key, later) == first_live(rows, key, later),
    decreases rows.len(),
{
    if rows.len() > 0 {
        sweep_spares_reads(rows.skip(1), key, now, later);
        if !rows[0].is_expired(now) {
            let kept = swept(rows, now);
            assert(kept[0] == rows[0]);
            assert(kept.skip(1) == swept(rows.skip(1), now));
        }
    }
}

} // verus!
