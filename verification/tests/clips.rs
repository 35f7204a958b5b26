use iclip::cache::{cache_clip, get_cached_clip, load_redis_url, CacheUnavailable, CACHE_TTL_SECONDS};
use iclip::db::{
    collect_garbage, get_clip, get_clip_by_url, get_clip_now, insert_clip, insert_clip_with,
    InsertClip, InsertClipError, InsertOutcome, StoreError, CODE_LENGTH, MAX_ATTEMPTS,
};
use iclip::id::gen_id;
use iclip::models::{Clip, NewClip, CLIP_LIFETIME};
use iclip::structs::{APIResponse, APIStatus};

fn row(id: i32, url: &str, code: &str, expires_at: Option<i64>) -> Clip {
    Clip { id, url: url.to_string(), code: code.to_string(), created_at: 0, expires_at }
}

fn in_alphabet(code: &str) -> bool {
    code.chars().all(|c| "abcdefghijklmnopqrstuvwxyz0123456789".contains(c))
}

#[test]
fn gen_id_has_the_length_asked_for() {
    for length in [0usize, 1, 5, 10, 64] {
        let id = gen_id(length);
        assert_eq!(id.chars().count(), length);
        assert!(in_alphabet(&id));
    }
}

#[test]
fn gen_id_draws_different_codes() {
    let first = gen_id(32);
    let second = gen_id(32);
    assert_ne!(first, second);
}

#[test]
fn new_clip_expires_after_seven_days() {
    let clip = NewClip::new("https://a.example/".to_string(), "abc12".to_string(), 1_000);
    assert_eq!(clip.url, "https://a.example/");
    assert_eq!(clip.code, "abc12");
    assert_eq!(clip.created_at, 1_000);
    assert_eq!(clip.expires_at, Some(604_800_001_000));
    assert_eq!(CLIP_LIFETIME, 7 * 24 * 60 * 60 * 1_000_000);
}

#[test]
fn new_clip_at_the_end_of_time_never_expires() {
    let clip = NewClip::new("u".to_string(), "c".to_string(), i64::MAX);
    assert_eq!(clip.expires_at, None);
    let clip = NewClip::new("u".to_string(), "c".to_string(), i64::MAX - CLIP_LIFETIME);
    assert_eq!(clip.expires_at, Some(i64::MAX));
}

#[test]
fn clip_is_live_until_its_expiry() {
    let clip = row(1, "u", "c", Some(100));
    assert!(clip.is_live(99));
    assert!(!clip.is_live(100));
    assert!(!clip.is_live(101));
    assert!(!clip.is_expired(99));
    assert!(!clip.is_expired(100));
    assert!(clip.is_expired(101));
    let forever = row(2, "u", "c", None);
    assert!(forever.is_live(i64::MAX));
    assert!(!forever.is_expired(i64::MAX));
}

#[test]
fn clone_keeps_every_field() {
    let clip = row(9, "https://a.example/", "abc12", Some(5));
    let copy = clip.clone();
    assert_eq!(copy.id, 9);
    assert_eq!(copy.url, "https://a.example/");
    assert_eq!(copy.code, "abc12");
    assert_eq!(copy.created_at, 0);
    assert_eq!(copy.expires_at, Some(5));
    let response = APIResponse { status: APIStatus::Success, result: "x".to_string() };
    let copy = response.clone();
    assert_eq!(copy.status, APIStatus::Success);
    assert_eq!(copy.result, "x");
}

#[test]
fn get_clip_serves_the_first_live_row_with_the_code() {
    let rows = vec![
        row(1, "https://old.example/", "abc12", Some(50)),
        row(2, "https://other.example/", "zzzzz", None),
        row(3, "https://new.example/", "abc12", Some(200)),
        row(4, "https://newer.example/", "abc12", None),
    ];
    let found = get_clip(&rows, "abc12", 100).unwrap();
    assert_eq!(found.id, 3);
    assert_eq!(found.url, "https://new.example/");
    let found = get_clip(&rows, "abc12", 10).unwrap();
    assert_eq!(found.id, 1);
    let found = get_clip(&rows, "abc12", 200).unwrap();
    assert_eq!(found.id, 4);
    assert!(get_clip(&rows, "nope1", 100).is_none());
    assert!(get_clip(&Vec::new(), "abc12", 100).is_none());
}

#[test]
fn get_clip_leaves_out_expired_rows() {
    let rows = vec![row(1, "https://a.example/", "abc12", Some(100))];
    assert!(get_clip(&rows, "abc12", 99).is_some());
    assert!(get_clip(&rows, "abc12", 100).is_none());
    assert!(get_clip_by_url(&rows, "https://a.example/", 99).is_some());
    assert!(get_clip_by_url(&rows, "https://a.example/", 100).is_none());
}

#[test]
fn get_clip_by_url_serves_the_first_live_row_with_the_url() {
    let rows = vec![
        row(1, "https://a.example/", "aaaaa", Some(50)),
        row(2, "https://b.example/", "bbbbb", None),
        row(3, "https://a.example/", "ccccc", None),
    ];
    assert_eq!(get_clip_by_url(&rows, "https://a.example/", 10).unwrap().code, "aaaaa");
    assert_eq!(get_clip_by_url(&rows, "https://a.example/", 50).unwrap().code, "ccccc");
    assert_eq!(get_clip_by_url(&rows, "https://b.example/", 50).unwrap().code, "bbbbb");
    assert!(get_clip_by_url(&rows, "https://c.example/", 50).is_none());
}

#[test]
fn reads_by_the_clock_see_what_never_expires() {
    let rows = vec![
        row(1, "https://gone.example/", "gone1", Some(0)),
        row(2, "https://a.example/", "abc12", None),
    ];
    assert_eq!(get_clip_now(&rows, "abc12").unwrap().id, 2);
    assert!(get_clip_now(&rows, "gone1").is_none());
}

#[test]
fn sweep_picks_the_rows_whose_expiry_has_passed() {
    let rows = vec![
        row(1, "https://a.example/", "aaaaa", Some(50)),
        row(2, "https://b.example/", "bbbbb", None),
        row(3, "https://c.example/", "ccccc", Some(100)),
        row(4, "https://d.example/", "ddddd", Some(99)),
        row(5, "https://e.example/", "eeeee", Some(101)),
    ];
    assert_eq!(collect_garbage(&rows, 100), vec![1, 4]);
    assert_eq!(collect_garbage(&rows, 101), vec![1, 3, 4]);
    assert_eq!(collect_garbage(&rows, 50), Vec::<i32>::new());
    assert_eq!(collect_garbage(&rows, i64::MAX), vec![1, 3, 4, 5]);
    assert_eq!(collect_garbage(&Vec::new(), 100), Vec::<i32>::new());
}

#[test]
fn sweep_takes_nothing_that_a_read_would_serve() {
    let rows = vec![
        row(1, "https://a.example/", "aaaaa", Some(50)),
        row(2, "https://a.example/", "aaaaa", Some(100)),
        row(3, "https://a.example/", "aaaaa", None),
    ];
    for now in [0i64, 49, 50, 51, 99, 100, 101] {
        let swept = collect_garbage(&rows, now);
        let kept: Vec<Clip> = rows.iter().filter(|r| !swept.contains(&r.id)).cloned().collect();
        for later in [now, now + 1, now + 60] {
            let with = get_clip(&rows, "aaaaa", later).map(|c| c.id);
            let without = get_clip(&kept, "aaaaa", later).map(|c| c.id);
            assert_eq!(with, without);
        }
    }
}

#[test]
fn insert_error_messages() {
    let error = InsertClipError::Store(StoreError { message: "connection reset".to_string() });
    assert_eq!(error.message(), "Database error: connection reset");
    assert_eq!(
        InsertClipError::MaxAttemptsExceeded.message(),
        "Exceeded maximum attempts to generate a unique code."
    );
    let wrapped = InsertClipError::from(StoreError { message: "m".to_string() });
    assert!(matches!(wrapped, InsertClipError::Store(StoreError { ref message }) if message == "m"));
}

#[test]
fn insertion_begins_with_the_first_candidate() {
    let insertion = insert_clip_with("https://a.example/".to_string(), 77, "abc12".to_string());
    match insertion {
        InsertClip::Try { clip, failures } => {
            assert_eq!(failures, 0);
            assert_eq!(clip.url, "https://a.example/");
            assert_eq!(clip.code, "abc12");
            assert_eq!(clip.created_at, 77);
            assert_eq!(clip.expires_at, Some(77 + CLIP_LIFETIME));
        }
        other => panic!("unexpected {:?}", other),
    }
}

#[test]
fn insertion_by_chance_proposes_a_code_of_five() {
    match insert_clip("https://a.example/".to_string()) {
        InsertClip::Try { clip, failures } => {
            assert_eq!(failures, 0);
            assert_eq!(clip.url, "https://a.example/");
            assert_eq!(clip.code.chars().count(), CODE_LENGTH);
            assert!(in_alphabet(&clip.code));
            assert_eq!(clip.expires_at, Some(clip.created_at + CLIP_LIFETIME));
            assert!(clip.created_at > 1_500_000_000_000_000);
        }
        other => panic!("unexpected {:?}", other),
    }
}

#[test]
fn insertion_commits_the_row_the_store_gives_back() {
    let insertion = insert_clip_with("https://a.example/".to_string(), 0, "abc12".to_string());
    let stored = row(11, "https://a.example/", "abc12", Some(CLIP_LIFETIME));
    match insertion.after_with(InsertOutcome::Inserted(stored), 1, "unused".to_string()) {
        InsertClip::Committed(clip) => {
            assert_eq!(clip.id, 11);
            assert_eq!(clip.code, "abc12");
        }
        other => panic!("unexpected {:?}", other),
    }
}

#[test]
fn insertion_retries_with_the_next_candidate() {
    let insertion = insert_clip_with("https://a.example/".to_string(), 0, "first".to_string());
    match insertion.after_with(InsertOutcome::UniqueViolation, 5, "secnd".to_string()) {
        InsertClip::Try { clip, failures } => {
            assert_eq!(failures, 1);
            assert_eq!(clip.url, "https://a.example/");
            assert_eq!(clip.code, "secnd");
            assert_eq!(clip.created_at, 5);
            assert_eq!(clip.expires_at, Some(5 + CLIP_LIFETIME));
        }
        other => panic!("unexpected {:?}", other),
    }
}

#[test]
fn insertion_gives_up_after_ten_refusals() {
    assert_eq!(MAX_ATTEMPTS, 10);
    let mut insertion = insert_clip_with("https://a.example/".to_string(), 0, "c0000".to_string());
    for refused in 1..10usize {
        insertion =
            insertion.after_with(InsertOutcome::UniqueViolation, 0, format!("c{:04}", refused));
        match &insertion {
            InsertClip::Try { failures, .. } => assert_eq!(*failures, refused),
            other => panic!("unexpected {:?}", other),
        }
    }
    insertion = insertion.after_with(InsertOutcome::UniqueViolation, 0, "c0010".to_string());
    assert!(matches!(insertion, InsertClip::Abandoned(InsertClipError::MaxAttemptsExceeded)));
    insertion = insertion.after_with(InsertOutcome::UniqueViolation, 0, "c0011".to_string());
    assert!(matches!(insertion, InsertClip::Abandoned(InsertClipError::MaxAttemptsExceeded)));
}

#[test]
fn insertion_by_chance_retries_with_a_fresh_code() {
    let insertion = insert_clip_with("https://a.example/".to_string(), 0, "first".to_string());
    match insertion.after(InsertOutcome::UniqueViolation) {
        InsertClip::Try { clip, failures } => {
            assert_eq!(failures, 1);
            assert_eq!(clip.url, "https://a.example/");
            assert_eq!(clip.code.chars().count(), 5);
            assert!(in_alphabet(&clip.code));
        }
        other => panic!("unexpected {:?}", other),
    }
}

#[test]
fn insertion_ends_on_a_store_fault() {
    let insertion = insert_clip_with("https://a.example/".to_string(), 0, "abc12".to_string());
    let fault = InsertOutcome::Failed(StoreError { message: "disk full".to_string() });
    match insertion.after_with(fault, 0, "next1".to_string()) {
        InsertClip::Abandoned(error) => {
            assert_eq!(error.message(), "Database error: disk full")
        }
        other => panic!("unexpected {:?}", other),
    }
}

#[test]
fn cache_write_lasts_thirty_days() {
    let write = cache_clip("abc12", "https://a.example/");
    assert_eq!(write.key, "abc12");
    assert_eq!(write.value, "https://a.example/");
    assert_eq!(write.ttl_seconds, 2_592_000);
    assert_eq!(CACHE_TTL_SECONDS, 30 * 24 * 60 * 60);
}

#[test]
fn cache_failure_reads_as_a_miss() {
    assert_eq!(get_cached_clip(Ok(Some("https://a.example/".to_string()))), Some("https://a.example/".to_string()));
    assert_eq!(get_cached_clip(Ok(None)), None);
    assert_eq!(get_cached_clip(Err(CacheUnavailable { message: "refused".to_string() })), None);
}

#[test]
fn redis_url_uses_defaults_where_nothing_is_set() {
    assert_eq!(load_redis_url(None, None, None), "redis://:@localhost/");
    assert_eq!(
        load_redis_url(Some("cache.internal:6379"), Some("clips"), Some("pw")),
        "redis://clips:pw@cache.internal:6379/"
    );
    assert_eq!(load_redis_url(Some("h"), None, Some("pw")), "redis://:pw@h/");
}
