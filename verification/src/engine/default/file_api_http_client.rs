//! The decisions of a client that reads a files service over HTTP.
//!
//! The client itself sends requests and waits for answers, which is not the
//! business of this crate. What it decides, it decides here: the address of a
//! request, the headers that identify the caller, what the status of an
//! answer means, what the headers of an answer say of a file, and which
//! entries of a directory listing are files.

use crate::text::{parse_u64, spec_parse_u64};
use vstd::prelude::*;
use vstd::string::{StrSliceExecFns, StringExecFns, StringSliceAdditionalSpecFns};
use vstd::utf8::encode_utf8;

verus! {

/// The seconds after which a request is given up.
pub const REQUEST_TIMEOUT_SECONDS: u64 = 300;

/// The message for status 429.
pub const RATE_LIMITED: &'static str = "Rate limited (429). Consider implementing retry logic.";

/// The message for status 401.
pub const UNAUTHORIZED: &'static str = "Authentication failed (401). Check your token.";

/// The message for status 403.
pub const FORBIDDEN: &'static str = "Access forbidden (403). Check permissions.";

/// The message for status 404 on a request for a file or a listing.
pub const NOT_FOUND: &'static str = "Resource not found (404).";

/// An entry of a directory listing.
#[derive(Debug, PartialEq, Eq)]
pub struct FileInfo {
    pub path: String,
    pub name: String,
    pub is_directory: bool,
    /// The size of the file in bytes.
    pub file_size: Option<u64>,
    /// When the file was last modified, in milliseconds since the epoch.
    pub last_modified: Option<u64>,
}

/// The answer to a request for a directory listing.
#[derive(Debug, PartialEq, Eq)]
pub struct DirectoryListResponse {
    pub contents: Vec<FileInfo>,
}

/// What is known of a stored file.
#[derive(Debug, PartialEq, Eq)]
pub struct ObjectInfo {
    pub location: String,
    /// When the file was last modified: seconds since the epoch, and the
    /// nanoseconds within the second. Nothing where the service did not say.
    pub last_modified: Option<(i64, u32)>,
    /// The size of the file in bytes; 0 where the service did not say.
    pub size: u64,
    pub e_tag: Option<String>,
}

/// The mathematical value of an [`ObjectInfo`].
pub struct ObjectInfoView {
    pub location: Seq<char>,
    pub last_modified: Option<(i64, u32)>,
    pub size: u64,
    pub e_tag: Option<Seq<char>>,
}

impl View for ObjectInfo {
    type V = ObjectInfoView;

    open spec fn view(&self) -> ObjectInfoView {
        ObjectInfoView {
            location: self.location@,
            last_modified: self.last_modified,
            size: self.size,
            e_tag: match self.e_tag {
                Some(tag) => Some(tag@),
                None => None,
            },
        }
    }
}

/// A text without the slashes at its start.
pub open spec fn without_leading_slashes(path: Seq<char>) -> Seq<char>
    decreases path.len(),
{
    if path.len() > 0 && path[0] == '/' {
        without_leading_slashes(path.drop_first())
    } else {
        path
    }
}

/// Taking the slashes off the start is skipping as many characters as there
/// are slashes.
pub proof fn lemma_leading_slashes(path: Seq<char>, k: int)
    requires
        0 <= k <= path.len(),
        forall|i: int| 0 <= i < k ==> path[i] == '/',
        k < path.len() ==> path[k] != '/',
    ensures
        without_leading_slashes(path) == path.skip(k),
    decreases k,
{
    if k == 0 {
        assert(path.skip(0) =~= path);
    } else {
        let rest = path.drop_first();
        assert forall|i: int| 0 <= i < k - 1 implies rest[i] == '/' by {
            assert(rest[i] == path[i + 1]);
        }
        lemma_leading_slashes(rest, k - 1);
        assert(rest.skip(k - 1) =~= path.skip(k));
    }
}

/// Takes the slashes off the start of a path.
pub fn trim_leading_slashes(path: &str) -> (r: &str)
    ensures
        r@ == without_leading_slashes(path@),
{
    let n = path.unicode_len();
    let mut k: usize = 0;
    while k < n && path.get_char(k) == '/'
        invariant
            k <= n,
            n == path@.len(),
            forall|i: int| 0 <= i < k ==> path@[i] == '/',
        decreases n - k,
    {
        k += 1;
    }
    proof {
        lemma_leading_slashes(path@, k as int);
    }
    path.substring_char(k, n)
}

/// The address of a file: the address of the workspace, the path of the
/// files interface, and the path of the file without the slashes at its
/// start.
pub open spec fn spec_files_url(workspace_url: Seq<char>, path: Seq<char>) -> Seq<char> {
    workspace_url + "/api/2.0/fs/files/"@ + without_leading_slashes(path)
}

/// The address of a directory, built like that of a file.
pub open spec fn spec_directories_url(workspace_url: Seq<char>, path: Seq<char>) -> Seq<char> {
    workspace_url + "/api/2.0/fs/directories/"@ + without_leading_slashes(path)
}

/// The address under which the service hands out the file at `path`.
pub fn files_url(workspace_url: &str, path: &str) -> (r: String)
    ensures
        r@ == spec_files_url(workspace_url@, path@),
{
    let mut url = String::from_str(workspace_url);
    url.append("/api/2.0/fs/files/");
    url.append(trim_leading_slashes(path));
    url
}

/// The address under which the service lists the directory at `path`.
pub fn directories_url(workspace_url: &str, path: &str) -> (r: String)
    ensures
        r@ == spec_directories_url(workspace_url@, path@),
{
    let mut url = String::from_str(workspace_url);
    url.append("/api/2.0/fs/directories/");
    url.append(trim_leading_slashes(path));
    url
}

/// The headers that identify the caller to the service, as names and values.
pub open spec fn spec_auth_headers(
    user_id: Seq<char>,
    user_name: Seq<char>,
    org_id: Seq<char>,
    account_id: Seq<char>,
) -> Seq<(Seq<char>, Seq<char>)> {
    seq![
        ("X-Databricks-User-Id"@, user_id),
        ("X-Databricks-User-Name"@, user_name),
        ("X-Databricks-Org-Id"@, org_id),
        ("X-Databricks-Account-Id"@, account_id),
    ]
}

/// The names and values of a list of headers.
pub open spec fn headers_view(headers: Seq<(String, String)>) -> Seq<(Seq<char>, Seq<char>)> {
    headers.map_values(|h: (String, String)| (h.0@, h.1@))
}

/// The headers that identify the caller to the service.
pub fn auth_headers(user_id: &str, user_name: &str, org_id: &str, account_id: &str) -> (r: Vec<
    (String, String),
>)
    ensures
        headers_view(r@) == spec_auth_headers(user_id@, user_name@, org_id@, account_id@),
{
    let r = vec![
        (String::from_str("X-Databricks-User-Id"), String::from_str(user_id)),
        (String::from_str("X-Databricks-User-Name"), String::from_str(user_name)),
        (String::from_str("X-Databricks-Org-Id"), String::from_str(org_id)),
        (String::from_str("X-Databricks-Account-Id"), String::from_str(account_id)),
    ];
    assert(headers_view(r@) =~= spec_auth_headers(user_id@, user_name@, org_id@, account_id@));
    r
}

/// What the status of an answer means for the request.
#[derive(Debug, PartialEq, Eq)]
pub enum Verdict {
    /// The request succeeded: the answer holds what was asked for.
    Success,
    /// The request failed, with this message.
    Failure(String),
    /// The server failed. The message is to be built from the body of the
    /// answer, with [`server_error_message`].
    ServerError,
}

/// The mathematical value of a [`Verdict`].
pub enum VerdictView {
    Success,
    Failure(Seq<char>),
    ServerError,
}

impl View for Verdict {
    type V = VerdictView;

    open spec fn view(&self) -> VerdictView {
        match self {
            Verdict::Success => VerdictView::Success,
            Verdict::Failure(m) => VerdictView::Failure(m@),
            Verdict::ServerError => VerdictView::ServerError,
        }
    }
}

/// The message for a status that has no message of its own.
pub open spec fn spec_http_error_message(status: Seq<char>, url: Seq<char>) -> Seq<char> {
    "HTTP error "@ + status + " for URL: "@ + url
}

/// The message for a failure of the server, which gives the body of its
/// answer.
pub open spec fn spec_server_error_message(body: Seq<char>) -> Seq<char> {
    "Internal Server Error (500): "@ + body
}

/// The message for a file that is not there.
pub open spec fn spec_file_not_found_message(path: Seq<char>) -> Seq<char> {
    "File not found (404): "@ + path
}

/// What a status means for a request that fetches a file or a listing:
/// 200, 201, 204 and 206 are success; 429, 401, 403 and 404 have messages of
/// their own; 500 is a failure of the server; every other status fails with a
/// message that gives the status and the address.
pub open spec fn spec_judge_get(code: u16, status: Seq<char>, url: Seq<char>) -> VerdictView {
    if code == 200 || code == 201 || code == 204 || code == 206 {
        VerdictView::Success
    } else if code == 429 {
        VerdictView::Failure(RATE_LIMITED@)
    } else if code == 401 {
        VerdictView::Failure(UNAUTHORIZED@)
    } else if code == 403 {
        VerdictView::Failure(FORBIDDEN@)
    } else if code == 404 {
        VerdictView::Failure(NOT_FOUND@)
    } else if code == 500 {
        VerdictView::ServerError
    } else {
        VerdictView::Failure(spec_http_error_message(status, url))
    }
}

/// What a status means for a request that asks for the description of a
/// file: 200 is success; 404, 401 and 403 have messages of their own; every
/// other status fails with a message that gives the status and the address.
pub open spec fn spec_judge_head(code: u16, status: Seq<char>, url: Seq<char>, path: Seq<char>)
    -> VerdictView {
    if code == 200 {
        VerdictView::Success
    } else if code == 404 {
        VerdictView::Failure(spec_file_not_found_message(path))
    } else if code == 401 {
        VerdictView::Failure(UNAUTHORIZED@)
    } else if code == 403 {
        VerdictView::Failure(FORBIDDEN@)
    } else {
        VerdictView::Failure(spec_http_error_message(status, url))
    }
}

fn http_error_message(status: &str, url: &str) -> (r: String)
    ensures
        r@ == spec_http_error_message(status@, url@),
{
    let mut m = String::from_str("HTTP error ");
    m.append(status);
    m.append(" for URL: ");
    m.append(url);
    m
}

/// The message for a failure of the server that answered with `body`.
pub fn server_error_message(body: &str) -> (r: String)
    ensures
        r@ == spec_server_error_message(body@),
{
    let mut m = String::from_str("Internal Server Error (500): ");
    m.append(body);
    m
}

/// Judges the answer to a request that fetches a file or a listing. `code`
/// is the status of the answer, `status` the same as text, `url` the address
/// that was asked.
pub fn judge_get(code: u16, status: &str, url: &str) -> (r: Verdict)
    ensures
        r@ == spec_judge_get(code, status@, url@),
{
    if code == 200 || code == 201 || code == 204 || code == 206 {
        Verdict::Success
    } else if code == 429 {
        Verdict::Failure(String::from_str(RATE_LIMITED))
    } else if code == 401 {
        Verdict::Failure(String::from_str(UNAUTHORIZED))
    } else if code == 403 {
        Verdict::Failure(String::from_str(FORBIDDEN))
    } else if code == 404 {
        Verdict::Failure(String::from_str(NOT_FOUND))
    } else if code == 500 {
        Verdict::ServerError
    } else {
        Verdict::Failure(http_error_message(status, url))
    }
}

/// Judges the answer to a request that asks for the description of the file
/// at `path`.
pub fn judge_head(code: u16, status: &str, url: &str, path: &str) -> (r: Verdict)
    ensures
        r@ == spec_judge_head(code, status@, url@, path@),
        !(r is ServerError),
{
    if code == 200 {
        Verdict::Success
    } else if code == 404 {
        let mut m = String::from_str("File not found (404): ");
        m.append(path);
        Verdict::Failure(m)
    } else if code == 401 {
        Verdict::Failure(String::from_str(UNAUTHORIZED))
    } else if code == 403 {
        Verdict::Failure(String::from_str(FORBIDDEN))
    } else {
        Verdict::Failure(http_error_message(status, url))
    }
}

/// The instant that a date in the form of RFC 2822 names, in seconds since
/// the epoch, as `chrono` reads it; nothing where `chrono` rejects the text.
pub uninterp spec fn rfc2822_seconds(text: Seq<char>) -> Option<i64>;

/// Calls `chrono::DateTime::parse_from_rfc2822`, and `DateTime::timestamp` on
/// what it returns.
///
/// Trusted: the outcome depends on the text alone.
#[verifier::external_body]
fn parse_rfc2822(text: &str) -> (r: Option<i64>)
    ensures
        r == rfc2822_seconds(text@),
{
    chrono::DateTime::parse_from_rfc2822(text).ok().map(|t| t.timestamp())
}

/// The size that a header `content-length` gives: its number, and 0 where
/// the header is missing or holds no number.
pub open spec fn spec_content_length(header: Option<Seq<char>>) -> u64 {
    match header {
        Some(text) => match spec_parse_u64(text) {
            Some(n) => n,
            None => 0,
        },
        None => 0,
    }
}

/// The time that a header `last-modified` gives: its seconds and no
/// nanoseconds.
pub open spec fn spec_last_modified(seconds: Option<i64>) -> Option<(i64, u32)> {
    match seconds {
        Some(s) => Some((s, 0u32)),
        None => None,
    }
}

/// The text of an optional header.
pub open spec fn header_view(header: Option<&str>) -> Option<Seq<char>> {
    match header {
        Some(text) => Some(text@),
        None => None,
    }
}

/// What [`head_info`] makes of the instant that it read from the header
/// `last-modified`.
pub open spec fn spec_head_info(
    path: Seq<char>,
    content_length: Option<Seq<char>>,
    last_modified: Option<i64>,
    e_tag: Option<Seq<char>>,
) -> ObjectInfoView {
    ObjectInfoView {
        location: path,
        last_modified: spec_last_modified(last_modified),
        size: spec_content_length(content_length),
        e_tag,
    }
}

/// Describes a file from the instant of its last modification and from the
/// other headers of the answer.
pub fn head_info_at(
    path: &str,
    content_length: Option<&str>,
    last_modified: Option<i64>,
    e_tag: Option<&str>,
) -> (r: ObjectInfo)
    ensures
        r@ == spec_head_info(
            path@,
            header_view(content_length),
            last_modified,
            header_view(e_tag),
        ),
{
    let size = match content_length {
        Some(text) => match parse_u64(text) {
            Some(n) => n,
            None => 0,
        },
        None => 0,
    };
    let last_modified = match last_modified {
        Some(s) => Some((s, 0u32)),
        None => None,
    };
    let e_tag = match e_tag {
        Some(tag) => Some(String::from_str(tag)),
        None => None,
    };
    ObjectInfo { location: String::from_str(path), last_modified, size, e_tag }
}

/// The instant that an optional header `last-modified` names.
pub open spec fn header_seconds(header: Option<Seq<char>>) -> Option<i64> {
    match header {
        Some(text) => rfc2822_seconds(text),
        None => None,
    }
}

/// Describes the file at `path` from the headers `content-length`,
/// `last-modified` and `etag` of an answer. The time of the last modification
/// is nothing where the header is missing or holds no date.
pub fn head_info(
    path: &str,
    content_length: Option<&str>,
    last_modified: Option<&str>,
    e_tag: Option<&str>,
) -> (r: ObjectInfo)
    ensures
        r@ == spec_head_info(
            path@,
            header_view(content_length),
            header_seconds(header_view(last_modified)),
            header_view(e_tag),
        ),
{
    let seconds = match last_modified {
        Some(text) => parse_rfc2822(text),
        None => None,
    };
    head_info_at(path, content_length, seconds, e_tag)
}

/// The seconds and the nanoseconds within the second of a time in
/// milliseconds.
pub open spec fn spec_split_millis(millis: u64) -> (i64, u32) {
    ((millis / 1000) as i64, ((millis % 1000) * 1_000_000) as u32)
}

/// Splits a time in milliseconds into seconds and the nanoseconds within the
/// second.
pub fn split_millis(millis: u64) -> (r: (i64, u32))
    ensures
        r == spec_split_millis(millis),
        r.0 * 1000 + r.1 / 1_000_000 == millis,
        r.1 < 1_000_000_000,
        r.1 % 1_000_000 == 0,
{
    let seconds = (millis / 1000) as i64;
    let rest = millis % 1000;
    let nanos = (rest as u32) * 1_000_000;
    (seconds, nanos)
}

impl FileInfo {
    /// What the entry says of the file it stands for.
    pub open spec fn spec_object_info(&self) -> ObjectInfoView {
        ObjectInfoView {
            location: self.path@,
            last_modified: match self.last_modified {
                Some(millis) => Some(spec_split_millis(millis)),
                None => None,
            },
            size: match self.file_size {
                Some(n) => n,
                None => 0,
            },
            e_tag: None,
        }
    }

    /// What the entry says of the file it stands for: its path, its size, or
    /// 0 where the entry gives none, and the time of its last modification.
    pub fn object_info(&self) -> (r: ObjectInfo)
        ensures
            r@ == self.spec_object_info(),
    {
        ObjectInfo {
            location: self.path.clone(),
            last_modified: match self.last_modified {
                Some(millis) => Some(split_millis(millis)),
                None => None,
            },
            size: match self.file_size {
                Some(n) => n,
                None => 0,
            },
            e_tag: None,
        }
    }
}

/// What the entries that are files say, in the order of the entries.
pub open spec fn spec_files(contents: Seq<FileInfo>) -> Seq<ObjectInfoView>
    decreases contents.len(),
{
    if contents.len() == 0 {
        Seq::empty()
    } else if contents.last().is_directory {
        spec_files(contents.drop_last())
    } else {
        spec_files(contents.drop_last()).push(contents.last().spec_object_info())
    }
}

/// The views of a list of descriptions.
pub open spec fn infos_view(infos: Seq<ObjectInfo>) -> Seq<ObjectInfoView> {
    infos.map_values(|i: ObjectInfo| i@)
}

impl DirectoryListResponse {
    /// The files of the listing: its entries without the directories.
    pub fn files(&self) -> (r: Vec<ObjectInfo>)
        ensures
            infos_view(r@) == spec_files(self.contents@),
    {
        let mut out: Vec<ObjectInfo> = Vec::new();
        let mut i: usize = 0;
        assert(self.contents@.take(0) =~= Seq::<FileInfo>::empty());
        assert(infos_view(out@) =~= Seq::<ObjectInfoView>::empty());
        while i < self.contents.len()
            invariant
                i <= self.contents.len(),
                infos_view(out@) == spec_files(self.contents@.take(i as int)),
            decreases self.contents.len() - i,
        {
            let entry = &self.contents[i];
            proof {
                assert(self.contents@.take(i + 1).drop_last() =~= self.contents@.take(i as int));
                assert(self.contents@.take(i + 1).last() == *entry);
            }
            if !entry.is_directory {
                let ghost before = infos_view(out@);
                let info = entry.object_info();
                out.push(info);
                assert(infos_view(out@) =~= before.push(info@));
            }
            i += 1;
        }
        assert(self.contents@.take(self.contents.len() as int) =~= self.contents@);
        out
    }
}

/// A byte with an upper case letter of ASCII turned into lower case.
pub open spec fn lower(b: u8) -> u8 {
    if 65 <= b <= 90 {
        (b + 32) as u8
    } else {
        b
    }
}

/// Whether `phrase` stands in `text` at `i`, without regard to the case of
/// the letters of ASCII in `text`.
pub open spec fn occurs_at(text: Seq<u8>, phrase: Seq<u8>, i: int) -> bool {
    &&& 0 <= i
    &&& i + phrase.len() <= text.len()
    &&& forall|k: int| 0 <= k < phrase.len() ==> lower(#[trigger] text[i + k]) == phrase[k]
}

/// Whether `phrase` stands somewhere in `text`, both as bytes.
pub open spec fn mentions(text: Seq<u8>, phrase: Seq<u8>) -> bool {
    exists|i: int| occurs_at(text, phrase, i)
}

/// Whether the message of an error says that something was not found: it
/// holds `404`, or, where `or_words` is set, the words `not found` in any
/// case. Both are looked for in the UTF-8 form of the message.
pub open spec fn spec_is_not_found(message: Seq<char>, or_words: bool) -> bool {
    mentions(encode_utf8(message), encode_utf8("404"@)) || (or_words && mentions(
        encode_utf8(message),
        encode_utf8("not found"@),
    ))
}

fn matches_at(text: &[u8], phrase: &[u8], i: usize) -> (r: bool)
    requires
        i + phrase@.len() <= text@.len(),
    ensures
        r == occurs_at(text@, phrase@, i as int),
{
    let n = text.len();
    let mut k: usize = 0;
    while k < phrase.len()
        invariant
            k <= phrase@.len(),
            n == text@.len(),
            i + phrase@.len() <= text@.len(),
            forall|j: int| 0 <= j < k ==> lower(#[trigger] text@[i + j]) == phrase@[j],
        decreases phrase@.len() - k,
    {
        let b = text[i + k];
        let folded = if 65 <= b && b <= 90 {
            b + 32
        } else {
            b
        };
        if folded != phrase[k] {
            assert(lower(text@[i + k]) != phrase@[k as int]);
            return false;
        }
        k += 1;
    }
    true
}

/// Whether `phrase` stands somewhere in `text`, without regard to the case
/// of the letters of ASCII in `text`.
pub fn bytes_mention(text: &[u8], phrase: &[u8]) -> (r: bool)
    ensures
        r == mentions(text@, phrase@),
{
    if phrase.len() > text.len() {
        return false;
    }
    if phrase.len() == 0 {
        assert(occurs_at(text@, phrase@, 0));
        return true;
    }
    let last = text.len() - phrase.len();
    let mut i: usize = 0;
    while i <= last
        invariant
            i <= last + 1,
            last < usize::MAX,
            last == text@.len() - phrase@.len(),
            forall|j: int| 0 <= j < i ==> !occurs_at(text@, phrase@, j),
        decreases last + 1 - i,
    {
        if matches_at(text, phrase, i) {
            return true;
        }
        i += 1;
    }
    false
}

/// Whether the message of an error says that something was not found.
pub fn is_not_found(message: &str, or_words: bool) -> (r: bool)
    ensures
        r == spec_is_not_found(message@, or_words),
{
    let text = message.as_bytes();
    bytes_mention(text, "404".as_bytes()) || (or_words && bytes_mention(
        text,
        "not found".as_bytes(),
    ))
}

} // verus!
