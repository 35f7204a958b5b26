//! The lookup cache in front of the clip table: a key-value backend that
//! maps a code to its URL for a limited time. The cache is an optimisation
//! only. A backend that cannot be reached answers like one that holds
//! nothing, and a write that fails is dropped.

use vstd::prelude::*;
use vstd::string::StringExecFns;

verus! {

/// Seconds a cached clip stays in the cache: thirty days.
pub const CACHE_TTL_SECONDS: u64 = 2_592_000;

/// Host of the cache backend where none is configured.
pub open spec fn default_host() -> Seq<char> {
    "localhost"@
}

/// A failure of the cache backend, with the backend's own words.
#[derive(Debug)]
pub struct CacheUnavailable {
    pub message: String,
}

/// A write to the cache backend: store `value` under `key` and let it expire
/// after `ttl_seconds`.
#[derive(Debug)]
pub struct CacheWrite {
    pub key: String,
    pub value: String,
    pub ttl_seconds: u64,
}

/// What a [`CacheWrite`] holds, with its texts as character sequences.
pub struct CacheWriteView {
    pub key: Seq<char>,
    pub value: Seq<char>,
    pub ttl_seconds: u64,
}

impl View for CacheWrite {
    type V = CacheWriteView;

    open spec fn view(&self) -> CacheWriteView {
        CacheWriteView { key: self.key@, value: self.value@, ttl_seconds: self.ttl_seconds }
    }
}

/// The write that caches `url` under `code`.
pub open spec fn cache_entry(code: Seq<char>, url: Seq<char>) -> CacheWriteView {
    CacheWriteView { key: code, value: url, ttl_seconds: CACHE_TTL_SECONDS }
}

/// The view of a write that is or is not due.
pub open spec fn write_view(write: Option<CacheWrite>) -> Option<CacheWriteView> {
    match write {
        Some(w) => Some(w@),
        None => None,
    }
}

/// The URL that a reply of the backend yields: the value it holds, and
/// nothing where it holds none or could not be asked.
pub open spec fn cached_value(reply: Result<Option<String>, CacheUnavailable>) -> Option<Seq<char>> {
    match reply {
        Ok(Some(url)) => Some(url@),
        Ok(None) => None,
        Err(_) => None,
    }
}

/// The view of a text that is or is not there.
pub open spec fn text_view(text: Option<String>) -> Option<Seq<char>> {
    match text {
        Some(t) => Some(t@),
        None => None,
    }
}

/// The address of the cache backend for the given settings, each with its
/// default where it is not set.
pub open spec fn redis_url(
    host: Option<Seq<char>>,
    username: Option<Seq<char>>,
    password: Option<Seq<char>>,
) -> Seq<char> {
    "redis://"@ + (match username {
        Some(name) => name,
        None => Seq::empty(),
    }) + ":"@ + (match password {
        Some(word) => word,
        None => Seq::empty(),
    }) + "@"@ + (match host {
        Some(name) => name,
        None => default_host(),
    }) + "/"@
}

/// Builds the connection string of the cache backend from the configured
/// host, user name and password.
pub fn load_redis_url(host: Option<&str>, username: Option<&str>, password: Option<&str>) -> (url:
    String)
    ensures
        url@ == redis_url(
            match host {
                Some(t) => Some(t@),
                None => None,
            },
            match username {
                Some(t) => Some(t@),
                None => None,
            },
            match password {
                Some(t) => Some(t@),
                None => None,
            },
        ),
{
    let server = match host {
        Some(name) => name,
        None => "localhost",
    };
    let user = match username {
        Some(name) => name,
        None => "",
    };
    let word = match password {
        Some(word) => word,
        None => "",
    };
    proof {
        reveal_strlit("");
    }
    assert(""@ =~= Seq::<char>::empty());
    String::from_str("redis://").concat(user).concat(":").concat(word).concat("@").concat(
        server,
    ).concat("/")
}

/// The write that caches `url` under `code` for thirty days.
pub fn cache_clip(code: &str, url: &str) -> (write: CacheWrite)
    ensures
        write@ == cache_entry(code@, url@),
{
    CacheWrite { key: code.to_owned(), value: url.to_owned(), ttl_seconds: CACHE_TTL_SECONDS }
}

/// Reads what the backend replied to a lookup: the cached URL, or nothing
/// where the backend holds none or failed.
pub fn get_cached_clip(reply: Result<Option<String>, CacheUnavailable>) -> (url: Option<String>)
    ensures
        text_view(url) == cached_value(reply),
{
    match reply {
        Ok(Some(url)) => Some(url),
        Ok(None) => None,
        Err(_) => None,
    }
}

} // verus!
