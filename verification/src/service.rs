//! What the endpoints decide: which requests are refused before any work is
//! done, what work a request that passes begins, and what is answered once
//! the work has ended.

use crate::db::StoreError;
use crate::id::{gen_id, is_code};
use crate::rate_limit::{Decision, RateLimiter};
use crate::store::{created_view, resolved_view, Create, CreateView, Created, Resolve, ResolveView, Resolved};
use crate::structs::{APIResponse, APIResponseView, APIStatus};
use vstd::prelude::*;
use vstd::string::StringExecFns;

verus! {

/// Largest upload that is accepted, in bytes: 100 MiB.
pub const MAX_UPLOAD_SIZE: usize = 104_857_600;

/// Seconds a signed upload address stays valid.
pub const UPLOAD_EXPIRES_IN: u64 = 60;

/// Number of characters in the random prefix of an upload's key.
pub const UPLOAD_PREFIX_LENGTH: usize = 10;

/// An answer to a request: the HTTP status and the body.
#[derive(Debug)]
pub struct Reply {
    pub status: u16,
    pub body: APIResponse,
}

/// A [`Reply`] by its view.
pub struct ReplyView {
    pub status: u16,
    pub body: APIResponseView,
}

impl View for Reply {
    type V = ReplyView;

    open spec fn view(&self) -> ReplyView {
        ReplyView { status: self.status, body: self.body@ }
    }
}

/// The answer that carries `result` with status 200.
pub open spec fn served(result: Seq<char>) -> ReplyView {
    ReplyView { status: 200, body: APIResponseView { status: APIStatus::Success, result } }
}

/// The answer that refuses with `status` and says why.
pub open spec fn refused(status: u16, reason: Seq<char>) -> ReplyView {
    ReplyView { status, body: APIResponseView { status: APIStatus::Error, result: reason } }
}

/// The answer to any request that failed at the table.
pub open spec fn database_problem() -> ReplyView {
    refused(500, "A problem with the database has occurred"@)
}

fn serve(result: String) -> (reply: Reply)
    ensures
        reply@ == served(result@),
{
    Reply { status: 200, body: APIResponse { status: APIStatus::Success, result } }
}

fn refuse(status: u16, reason: &str) -> (reply: Reply)
    ensures
        reply@ == refused(status, reason@),
{
    Reply { status, body: APIResponse { status: APIStatus::Error, result: reason.to_owned() } }
}

/// The answer to a `GET` on the endpoint that creates clips.
pub fn set_clip_get() -> (reply: Reply)
    ensures
        reply@ == refused(405, "For creating clips, only POST is allowed"@),
{
    refuse(405, "For creating clips, only POST is allowed")
}

/// The answer to a lookup without a code.
pub fn get_clip_empty() -> (reply: Reply)
    ensures
        reply@ == refused(400, "No clip code provided in the request."@),
{
    refuse(400, "No clip code provided in the request.")
}

/// The body sent to a request that the limiter turned away.
pub fn too_many_requests() -> (body: APIResponse)
    ensures
        body@ == refused(429, "Too many requests"@).body,
{
    APIResponse { status: APIStatus::Error, result: "Too many requests".to_owned() }
}

/// The body sent to a request for an endpoint that does not exist.
pub fn not_found() -> (body: APIResponse)
    ensures
        body@ == refused(404, "Endpoint not found"@).body,
{
    APIResponse { status: APIStatus::Error, result: "Endpoint not found".to_owned() }
}

/// What the limiter's decision means for the request: nothing if it was
/// admitted, and the answer with status 429 if it was not.
pub open spec fn gate(decision: Decision) -> Option<ReplyView> {
    match decision {
        Decision::Admitted => None,
        Decision::Rejected => Some(refused(429, "Too many requests"@)),
    }
}

/// The view of an answer that is or is not given.
pub open spec fn reply_view(reply: Option<Reply>) -> Option<ReplyView> {
    match reply {
        Some(r) => Some(r@),
        None => None,
    }
}

/// Puts a request for `path` arriving at `now` to the limiter. Returns the
/// answer to send in place of the endpoint's, if the request is turned
/// away.
pub fn request_gate(limiter: &mut RateLimiter, path: &str, now: u64) -> (turned_away: Option<Reply>)
    ensures
        reply_view(turned_away) == gate(old(limiter)@.decision(path@, now)),
        final(limiter)@ == old(limiter)@.checked(path@, now),
{
    match limiter.check(path, now) {
        Decision::Admitted => None,
        Decision::Rejected => Some(Reply { status: 429, body: too_many_requests() }),
    }
}

/// What `regex::Regex::new(pattern)` followed by `is_match(text)` gives:
/// whether `text` matches, or nothing where `pattern` is no regular
/// expression.
pub uninterp spec fn regex_match(pattern: Seq<char>, text: Seq<char>) -> Option<bool>;

/// Compiles `pattern` with `regex::Regex::new` and tests `text` against it
/// with `Regex::is_match`. A pattern that the crate rejects gives `None`.
#[verifier::external_body]
fn regex_is_match(pattern: &str, text: &str) -> (matched: Option<bool>)
    ensures
        matched == regex_match(pattern@, text@),
{
    match regex::Regex::new(pattern) {
        Ok(compiled) => Some(compiled.is_match(text)),
        Err(_) => None,
    }
}

/// The pattern of a clip code: five letters or digits, in either case.
pub open spec fn code_pattern() -> Seq<char> {
    "^(?i)[A-Z0-9]{5}$"@
}

/// Why a lookup of `code` is refused before the store is asked, if it is:
/// the code is empty, or it does not match the pattern of a code. `matched`
/// is the result of the match.
pub open spec fn code_refusal(code: Seq<char>, matched: Option<bool>) -> Option<ReplyView> {
    if code.len() == 0 {
        Some(refused(400, "No code provided"@))
    } else if matched != Some(true) {
        Some(refused(400, "Invalid clip code format"@))
    } else {
        None
    }
}

/// The lookup that a request for `code` begins, or the refusal it meets.
pub open spec fn lookup_begun(code: Seq<char>, matched: Option<bool>) -> Result<
    ResolveView,
    ReplyView,
> {
    match code_refusal(code, matched) {
        Some(reply) => Err(reply),
        None => Ok(ResolveView::start(code)),
    }
}

/// The view of a lookup that was begun or refused.
pub open spec fn lookup_view(begun: Result<Resolve, Reply>) -> Result<ResolveView, ReplyView> {
    match begun {
        Ok(lookup) => Ok(lookup@),
        Err(reply) => Err(reply@),
    }
}

/// Begins the lookup of `code`, given whether it matched the pattern of a
/// code, or refuses the request.
pub fn get_clip_with(code: &str, matched: Option<bool>) -> (begun: Result<Resolve, Reply>)
    ensures
        lookup_view(begun) == lookup_begun(code@, matched),
{
    if code.is_empty() {
        return Err(refuse(400, "No code provided"));
    }
    match matched {
        Some(true) => Ok(Resolve::start(code)),
        _ => Err(refuse(400, "Invalid clip code format")),
    }
}

/// Begins the lookup of `code`, or refuses the request where the code is
/// empty or is not five letters or digits.
pub fn get_clip(code: &str) -> (begun: Result<Resolve, Reply>)
    ensures
        lookup_view(begun) == lookup_begun(code@, regex_match(code_pattern(), code@)),
{
    let matched = regex_is_match("^(?i)[A-Z0-9]{5}$", code);
    get_clip_with(code, matched)
}

/// The answer to a lookup that ended with `outcome`.
pub open spec fn lookup_answer(outcome: Result<Option<Seq<char>>, Seq<char>>) -> ReplyView {
    match outcome {
        Ok(Some(url)) => served(url),
        Ok(None) => refused(404, "Clip not found"@),
        Err(_) => database_problem(),
    }
}

/// Answers a lookup that has ended: the URL, that there is no such clip,
/// or that the table failed.
pub fn get_clip_reply(outcome: Resolved) -> (reply: Reply)
    ensures
        reply@ == lookup_answer(resolved_view(outcome)),
{
    match outcome {
        Ok(Some(url)) => serve(url),
        Ok(None) => refuse(404, "Clip not found"),
        Err(_) => refuse(500, "A problem with the database has occurred"),
    }
}

/// A URL that was parsed: its scheme, and the URL as it is written out
/// again.
#[derive(Debug)]
pub struct ParsedUrl {
    pub scheme: String,
    pub text: String,
}

/// The view of a URL that was or was not parsed: scheme and text.
pub open spec fn parsed_view(parsed: Option<ParsedUrl>) -> Option<(Seq<char>, Seq<char>)> {
    match parsed {
        Some(url) => Some((url.scheme@, url.text@)),
        None => None,
    }
}

/// What `url::Url::parse(input)` gives: the scheme of the URL and its
/// serialization, or nothing where `input` is no absolute URL.
pub uninterp spec fn url_parse(input: Seq<char>) -> Option<(Seq<char>, Seq<char>)>;

/// Parses `input` with `url::Url::parse`, and reads the result's `scheme`
/// and its serialization.
#[verifier::external_body]
fn parse_url(input: &str) -> (parsed: Option<ParsedUrl>)
    ensures
        parsed_view(parsed) == url_parse(input@),
{
    match url::Url::parse(input) {
        Ok(url) => Some(ParsedUrl { scheme: url.scheme().to_string(), text: url.to_string() }),
        Err(_) => None,
    }
}

/// Why a creation for `url` is refused before the store is asked, if it
/// is: the URL is empty, it does not parse, or its scheme is neither `http`
/// nor `https`. `parsed` is the result of parsing it.
pub open spec fn url_refusal(url: Seq<char>, parsed: Option<(Seq<char>, Seq<char>)>) -> Option<
    ReplyView,
> {
    if url.len() == 0 {
        Some(refused(400, "No URL provided"@))
    } else {
        match parsed {
            None => Some(refused(400, "Invalid URL"@)),
            Some((scheme, _)) => if scheme != "http"@ && scheme != "https"@ {
                Some(refused(400, "Invalid URL scheme"@))
            } else {
                None
            },
        }
    }
}

/// The creation that a request for `url` begins, for the URL as the parser
/// writes it out, or the refusal it meets.
pub open spec fn creation_begun(url: Seq<char>, parsed: Option<(Seq<char>, Seq<char>)>) -> Result<
    CreateView,
    ReplyView,
> {
    match (url_refusal(url, parsed), parsed) {
        (None, Some((_, text))) => Ok(CreateView::start(text)),
        (Some(reply), _) => Err(reply),
        (None, None) => Err(refused(400, "Invalid URL"@)),
    }
}

/// The view of a creation that was begun or refused.
pub open spec fn creation_view(begun: Result<Create, Reply>) -> Result<CreateView, ReplyView> {
    match begun {
        Ok(creation) => Ok(creation@),
        Err(reply) => Err(reply@),
    }
}

/// Begins the creation of a clip for `url`, given what parsing it gave, or
/// refuses the request.
pub fn set_clip_with(url: &str, parsed: Option<ParsedUrl>) -> (begun: Result<Create, Reply>)
    ensures
        creation_view(begun) == creation_begun(url@, parsed_view(parsed)),
{
    if url.is_empty() {
        return Err(refuse(400, "No URL provided"));
    }
    match parsed {
        None => Err(refuse(400, "Invalid URL")),
        Some(parsed) => {
            let http = String::from_str("http");
            let https = String::from_str("https");
            if parsed.scheme != http && parsed.scheme != https {
                Err(refuse(400, "Invalid URL scheme"))
            } else {
                Ok(Create::start(parsed.text.as_str()))
            }
        },
    }
}

/// Begins the creation of a clip for `url`, or refuses the request where
/// the URL is empty, does not parse, or is neither `http` nor `https`.
pub fn set_clip(url: &str) -> (begun: Result<Create, Reply>)
    ensures
        creation_view(begun) == creation_begun(url@, url_parse(url@)),
{
    let parsed = parse_url(url);
    set_clip_with(url, parsed)
}

/// The answer to a creation that ended with `outcome`.
pub open spec fn creation_answer(
    outcome: Result<Seq<char>, crate::db::InsertClipErrorView>,
) -> ReplyView {
    match outcome {
        Ok(code) => served(code),
        Err(_) => database_problem(),
    }
}

/// Answers a creation that has ended: the code, or that the table failed.
pub fn set_clip_reply(outcome: Created) -> (reply: Reply)
    ensures
        reply@ == creation_answer(created_view(outcome)),
{
    match outcome {
        Ok(code) => serve(code),
        Err(_) => refuse(500, "A problem with the database has occurred"),
    }
}

/// Answers a status probe: `OK` where the table took a clip and gave it
/// back, and the table's failure where it did not.
pub fn status(probe: Result<(), StoreError>) -> (reply: Reply)
    ensures
        reply@ == (match probe {
            Ok(_) => served("OK"@),
            Err(_) => database_problem(),
        }),
{
    match probe {
        Ok(_) => serve("OK".to_owned()),
        Err(_) => refuse(500, "A problem with the database has occurred"),
    }
}

/// Where an upload goes: the bucket, the key of the object, and how long
/// the signed address is valid.
#[derive(Debug)]
pub struct UploadTarget {
    pub bucket: String,
    pub key: String,
    pub expires_in: u64,
}

/// An [`UploadTarget`] by its view.
pub struct UploadTargetView {
    pub bucket: Seq<char>,
    pub key: Seq<char>,
    pub expires_in: u64,
}

impl View for UploadTarget {
    type V = UploadTargetView;

    open spec fn view(&self) -> UploadTargetView {
        UploadTargetView { bucket: self.bucket@, key: self.key@, expires_in: self.expires_in }
    }
}

/// Why an upload is refused, if it is: the file has no name, or its
/// announced size is over the limit.
pub open spec fn upload_refusal(name: Seq<char>, size: Option<usize>) -> Option<ReplyView> {
    if name.len() == 0 {
        Some(refused(400, "File name is empty"@))
    } else if size is Some && size->0 > MAX_UPLOAD_SIZE {
        Some(refused(413, "File is too large"@))
    } else {
        None
    }
}

/// Where an upload of `name` goes, under the key prefix `prefix`, or the
/// refusal it meets.
pub open spec fn upload_planned(name: Seq<char>, size: Option<usize>, prefix: Seq<char>) -> Result<
    UploadTargetView,
    ReplyView,
> {
    match upload_refusal(name, size) {
        Some(reply) => Err(reply),
        None => Ok(
            UploadTargetView {
                bucket: "iclip"@,
                key: prefix + "/"@ + name,
                expires_in: UPLOAD_EXPIRES_IN,
            },
        ),
    }
}

/// The view of an upload that was planned or refused.
pub open spec fn upload_view(planned: Result<UploadTarget, Reply>) -> Result<
    UploadTargetView,
    ReplyView,
> {
    match planned {
        Ok(target) => Ok(target@),
        Err(reply) => Err(reply@),
    }
}

/// Plans the upload of a file called `name`, of the announced `size`, under
/// the key prefix `prefix`, or refuses the request.
pub fn upload_file_with(name: &str, size: Option<usize>, prefix: String) -> (planned: Result<
    UploadTarget,
    Reply,
>)
    ensures
        upload_view(planned) == upload_planned(name@, size, prefix@),
{
    if name.is_empty() {
        return Err(refuse(400, "File name is empty"));
    }
    if let Some(size) = size {
        if size > MAX_UPLOAD_SIZE {
            return Err(refuse(413, "File is too large"));
        }
    }
    Ok(
        UploadTarget {
            bucket: "iclip".to_owned(),
            key: prefix.concat("/").concat(name),
            expires_in: UPLOAD_EXPIRES_IN,
        },
    )
}

/// Plans the upload of a file called `name`, of the announced `size`, under
/// a key with a random prefix, or refuses the request.
pub fn upload_file(name: &str, size: Option<usize>) -> (planned: Result<UploadTarget, Reply>)
    ensures
        exists|prefix: Seq<char>|
            is_code(prefix, UPLOAD_PREFIX_LENGTH as nat) && upload_view(planned)
                == #[trigger] upload_planned(name@, size, prefix),
{
    let prefix = gen_id(UPLOAD_PREFIX_LENGTH);
    upload_file_with(name, size, prefix)
}

/// Answers an upload request once the address was or was not signed: the
/// address, or that the server failed.
pub fn upload_reply(signed: Result<String, String>) -> (reply: Reply)
    ensures
        reply@ == (match signed {
            Ok(address) => served(address@),
            Err(_) => refused(500, "A server-side problem has occurred"@),
        }),
{
    match signed {
        Ok(address) => serve(address),
        Err(_) => refuse(500, "A server-side problem has occurred"),
    }
}

} // verus!
