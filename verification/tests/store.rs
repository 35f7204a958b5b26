use iclip::cache::{CacheUnavailable, CacheWrite};
use iclip::db::{InsertClip, InsertClipError, InsertOutcome, StoreError};
use iclip::models::{Clip, NewClip, CLIP_LIFETIME};
use iclip::store::{Create, Resolve};
use std::collections::HashMap;

/// A table that lives in memory and keeps its codes unique.
struct Table {
    rows: Vec<Clip>,
    down: bool,
    searches: usize,
}

/// A cache that lives in memory and can be switched off.
struct Cache {
    held: HashMap<String, String>,
    up: bool,
    writes: Vec<(String, String, u64)>,
}

fn table() -> Table {
    Table { rows: Vec::new(), down: false, searches: 0 }
}

fn cache(up: bool) -> Cache {
    Cache { held: HashMap::new(), up, writes: Vec::new() }
}

fn fault() -> StoreError {
    StoreError { message: "table is down".to_string() }
}

fn search(table: &mut Table, by_code: Option<&str>, by_url: Option<&str>) -> Result<Vec<Clip>, StoreError> {
    table.searches += 1;
    if table.down {
        return Err(fault());
    }
    Ok(table
        .rows
        .iter()
        .filter(|r| by_code.map_or(true, |c| r.code == c) && by_url.map_or(true, |u| r.url == u))
        .cloned()
        .collect())
}

fn insert(table: &mut Table, clip: &NewClip) -> InsertOutcome {
    if table.down {
        return InsertOutcome::Failed(fault());
    }
    if table.rows.iter().any(|r| r.code == clip.code) {
        return InsertOutcome::UniqueViolation;
    }
    let row = Clip {
        id: table.rows.len() as i32 + 1,
        url: clip.url.clone(),
        code: clip.code.clone(),
        created_at: clip.created_at,
        expires_at: clip.expires_at,
    };
    table.rows.push(row.clone());
    InsertOutcome::Inserted(row)
}

fn read(cache: &Cache, code: &str) -> Result<Option<String>, CacheUnavailable> {
    if cache.up {
        Ok(cache.held.get(code).cloned())
    } else {
        Err(CacheUnavailable { message: "cache is down".to_string() })
    }
}

fn write(cache: &mut Cache, write: Option<CacheWrite>) {
    if let Some(w) = write {
        cache.writes.push((w.key.clone(), w.value.clone(), w.ttl_seconds));
        if cache.up {
            cache.held.insert(w.key, w.value);
        }
    }
}

fn resolve(table: &mut Table, cache: &mut Cache, code: &str, now: i64) -> Result<Option<String>, StoreError> {
    let mut lookup = Resolve::start(code);
    loop {
        lookup = match lookup {
            Resolve::CheckCache { code } => {
                let reply = read(cache, &code);
                Resolve::CheckCache { code }.on_cache(reply)
            }
            Resolve::CheckStore { code } => {
                let reply = search(table, Some(&code), None);
                Resolve::CheckStore { code }.on_store_at(reply, now)
            }
            Resolve::Done { outcome, refill } => {
                write(cache, refill);
                return outcome;
            }
        }
    }
}

fn create(
    table: &mut Table,
    cache: &mut Cache,
    url: &str,
    now: i64,
    candidates: &[&str],
) -> Result<String, InsertClipError> {
    let mut drawn = candidates.iter().map(|c| c.to_string());
    let mut creation = Create::start(url);
    loop {
        creation = match creation {
            Create::FindExisting { url } => {
                let reply = search(table, None, Some(&url));
                Create::FindExisting { url }.on_lookup_with(reply, now, drawn.next().unwrap())
            }
            Create::Inserting(InsertClip::Try { clip, failures }) => {
                let outcome = insert(table, &clip);
                Create::Inserting(InsertClip::Try { clip, failures }).on_insert_with(
                    outcome,
                    now,
                    drawn.next().unwrap_or_default(),
                )
            }
            Create::Inserting(other) => panic!("insertion ended inside a creation: {:?}", other),
            Create::Done { outcome, fill } => {
                write(cache, fill);
                return outcome;
            }
        }
    }
}

#[test]
fn unknown_code_resolves_to_none() {
    let mut t = table();
    let mut c = cache(true);
    assert_eq!(resolve(&mut t, &mut c, "abc12", 0).unwrap(), None);
    create(&mut t, &mut c, "https://a.example/", 0, &["abc12"]).unwrap();
    assert_eq!(resolve(&mut t, &mut c, "zzzzz", 0).unwrap(), None);
    assert!(c.held.get("zzzzz").is_none());
}

#[test]
fn created_code_resolves_to_its_url() {
    for up in [true, false] {
        let mut t = table();
        let mut c = cache(up);
        let code = create(&mut t, &mut c, "https://a.example/", 10, &["abc12"]).unwrap();
        assert_eq!(code, "abc12");
        assert_eq!(
            resolve(&mut t, &mut c, &code, 10).unwrap(),
            Some("https://a.example/".to_string())
        );
        assert_eq!(t.rows.len(), 1);
        assert_eq!(t.rows[0].created_at, 10);
        assert_eq!(t.rows[0].expires_at, Some(10 + CLIP_LIFETIME));
    }
}

#[test]
fn create_twice_returns_the_same_code() {
    let mut t = table();
    let mut c = cache(true);
    let first = create(&mut t, &mut c, "https://a.example/", 10, &["abc12"]).unwrap();
    let second = create(&mut t, &mut c, "https://a.example/", 20, &["other"]).unwrap();
    assert_eq!(first, "abc12");
    assert_eq!(second, "abc12");
    assert_eq!(t.rows.len(), 1);
}

#[test]
fn create_after_expiry_makes_a_new_clip() {
    let mut t = table();
    let mut c = cache(true);
    let first = create(&mut t, &mut c, "https://a.example/", 0, &["abc12"]).unwrap();
    let second =
        create(&mut t, &mut c, "https://a.example/", CLIP_LIFETIME, &["def34"]).unwrap();
    assert_eq!(first, "abc12");
    assert_eq!(second, "def34");
    assert_eq!(t.rows.len(), 2);
}

#[test]
fn create_writes_through_to_the_cache() {
    let mut t = table();
    let mut c = cache(true);
    create(&mut t, &mut c, "https://a.example/", 0, &["abc12"]).unwrap();
    assert_eq!(
        c.writes,
        vec![("abc12".to_string(), "https://a.example/".to_string(), 2_592_000)]
    );
    let before = t.searches;
    assert_eq!(resolve(&mut t, &mut c, "abc12", 1).unwrap(), Some("https://a.example/".to_string()));
    assert_eq!(t.searches, before);
}

#[test]
fn resolve_refills_the_cache_after_a_store_hit() {
    let mut t = table();
    let mut down = cache(false);
    create(&mut t, &mut down, "https://a.example/", 0, &["abc12"]).unwrap();
    let mut c = cache(true);
    assert_eq!(resolve(&mut t, &mut c, "abc12", 1).unwrap(), Some("https://a.example/".to_string()));
    assert_eq!(c.held.get("abc12").map(String::as_str), Some("https://a.example/"));
    let before = t.searches;
    assert_eq!(resolve(&mut t, &mut c, "abc12", 2).unwrap(), Some("https://a.example/".to_string()));
    assert_eq!(t.searches, before);
}

#[test]
fn resolve_leaves_out_expired_clips() {
    let mut t = table();
    let mut c = cache(false);
    create(&mut t, &mut c, "https://a.example/", 0, &["abc12"]).unwrap();
    assert_eq!(
        resolve(&mut t, &mut c, "abc12", CLIP_LIFETIME - 1).unwrap(),
        Some("https://a.example/".to_string())
    );
    assert_eq!(resolve(&mut t, &mut c, "abc12", CLIP_LIFETIME).unwrap(), None);
}

#[test]
fn cache_failure_changes_no_outcome() {
    let mut with_cache = (table(), cache(true));
    let mut without = (table(), cache(false));
    for (t, c) in [&mut with_cache, &mut without] {
        assert_eq!(resolve(t, c, "abc12", 0).unwrap(), None);
        assert_eq!(create(t, c, "https://a.example/", 0, &["abc12"]).unwrap(), "abc12");
        assert_eq!(create(t, c, "https://b.example/", 1, &["abc12", "def34"]).unwrap(), "def34");
        assert_eq!(create(t, c, "https://a.example/", 2, &["ghi56"]).unwrap(), "abc12");
        assert_eq!(resolve(t, c, "abc12", 3).unwrap(), Some("https://a.example/".to_string()));
        assert_eq!(resolve(t, c, "def34", 3).unwrap(), Some("https://b.example/".to_string()));
        assert_eq!(resolve(t, c, "ghi56", 3).unwrap(), None);
        assert_eq!(t.rows.len(), 2);
    }
    assert!(without.1.held.is_empty());
    assert_eq!(with_cache.1.held.len(), 2);
}

#[test]
fn taken_code_is_retried_with_the_next_candidate() {
    let mut t = table();
    let mut c = cache(true);
    create(&mut t, &mut c, "https://a.example/", 0, &["abc12"]).unwrap();
    let code = create(&mut t, &mut c, "https://b.example/", 0, &["abc12", "abc12", "def34"]).unwrap();
    assert_eq!(code, "def34");
    assert_eq!(resolve(&mut t, &mut c, "def34", 0).unwrap(), Some("https://b.example/".to_string()));
}

#[test]
fn ten_taken_codes_end_the_creation() {
    let mut t = table();
    let mut c = cache(true);
    create(&mut t, &mut c, "https://a.example/", 0, &["abc12"]).unwrap();
    let outcome = create(&mut t, &mut c, "https://b.example/", 0, &["abc12"; 10]);
    assert!(matches!(outcome, Err(InsertClipError::MaxAttemptsExceeded)));
    assert_eq!(t.rows.len(), 1);
    assert_eq!(c.writes.len(), 1);
    let nine = ["abc12", "abc12", "abc12", "abc12", "abc12", "abc12", "abc12", "abc12", "abc12", "def34"];
    assert_eq!(create(&mut t, &mut c, "https://b.example/", 0, &nine).unwrap(), "def34");
}

#[test]
fn store_fault_ends_lookup_and_creation() {
    let mut t = table();
    t.down = true;
    let mut c = cache(true);
    let error = resolve(&mut t, &mut c, "abc12", 0).unwrap_err();
    assert_eq!(error.message, "table is down");
    match create(&mut t, &mut c, "https://a.example/", 0, &["abc12"]) {
        Err(InsertClipError::Store(e)) => assert_eq!(e.message, "table is down"),
        other => panic!("unexpected {:?}", other),
    }
    assert!(c.writes.is_empty());
}

#[test]
fn store_fault_during_insert_ends_the_creation() {
    let creation = Create::start("https://a.example/").on_lookup_with(Ok(Vec::new()), 0, "abc12".to_string());
    let failed = InsertOutcome::Failed(fault());
    match creation.on_insert_with(failed, 0, "def34".to_string()) {
        Create::Done { outcome: Err(InsertClipError::Store(e)), fill: None } => {
            assert_eq!(e.message, "table is down")
        }
        other => panic!("unexpected {:?}", other),
    }
}

#[test]
fn cache_hit_ends_the_lookup_without_the_store() {
    let lookup = Resolve::start("abc12").on_cache(Ok(Some("https://a.example/".to_string())));
    match lookup {
        Resolve::Done { outcome: Ok(Some(url)), refill: None } => {
            assert_eq!(url, "https://a.example/")
        }
        other => panic!("unexpected {:?}", other),
    }
}

#[test]
fn replies_out_of_turn_change_nothing() {
    let lookup = Resolve::start("abc12").on_store_at(Ok(Vec::new()), 0);
    assert!(matches!(lookup, Resolve::CheckCache { ref code } if code == "abc12"));
    let lookup = lookup.on_cache(Ok(None)).on_cache(Ok(Some("late".to_string())));
    assert!(matches!(lookup, Resolve::CheckStore { ref code } if code == "abc12"));
    let lookup = lookup.on_store_at(Ok(Vec::new()), 0).on_cache(Ok(Some("late".to_string())));
    assert!(matches!(lookup, Resolve::Done { outcome: Ok(None), refill: None }));
    let creation = Create::start("u").on_insert_with(InsertOutcome::UniqueViolation, 0, "c".to_string());
    assert!(matches!(creation, Create::FindExisting { ref url } if url == "u"));
}

#[test]
fn steps_by_the_clock_and_by_chance() {
    let forever = Clip { id: 1, url: "https://a.example/".to_string(), code: "abc12".to_string(), created_at: 0, expires_at: None };
    let lookup = Resolve::start("abc12").on_cache(Ok(None)).on_store(Ok(vec![forever.clone()]));
    match lookup {
        Resolve::Done { outcome: Ok(Some(url)), refill: Some(refill) } => {
            assert_eq!(url, "https://a.example/");
            assert_eq!(refill.key, "abc12");
            assert_eq!(refill.value, "https://a.example/");
        }
        other => panic!("unexpected {:?}", other),
    }
    let creation = Create::start("https://a.example/").on_lookup(Ok(vec![forever]));
    assert!(matches!(creation, Create::Done { outcome: Ok(ref code), fill: None } if code == "abc12"));
    let creation = Create::start("https://b.example/").on_lookup(Ok(Vec::new()));
    let candidate = match &creation {
        Create::Inserting(InsertClip::Try { clip, failures: 0 }) => {
            assert_eq!(clip.url, "https://b.example/");
            assert_eq!(clip.code.chars().count(), 5);
            clip.code.clone()
        }
        other => panic!("unexpected {:?}", other),
    };
    match creation.on_insert(InsertOutcome::UniqueViolation) {
        Create::Inserting(InsertClip::Try { clip, failures: 1 }) => {
            assert_eq!(clip.url, "https://b.example/");
            assert_eq!(clip.code.chars().count(), 5);
            assert_eq!(candidate.chars().count(), 5);
        }
        other => panic!("unexpected {:?}", other),
    }
}
