//! The request handler, as a sequence of decisions.
//!
//! The handler never touches the file system. [`begin`] looks at the request
//! and either answers at once or names the one thing that has to be found
//! out next; the caller finds it out and hands the result to the function
//! that belongs to the step. An exchange ends after at most two such
//! questions.

use crate::config::{Config, ConfigView};
use crate::headers::HeaderSeq;
use crate::message::{Method, Reason, Reply, ReplyView, Request, RequestView, Response, ResponseView};
use crate::text::{find_char, first_index, lemma_first_index};
use vstd::prelude::*;
use vstd::utf8::encode_utf8;

verus! {

/// The mathematical model of a [`Step`].
pub enum StepView {
    /// Find out whether `path` names a regular file.
    CheckFile { path: Seq<char> },
    /// Read the requested file at `path`.
    ReadFile { path: Seq<char> },
    /// Read the fallback file at `path`.
    ReadFallback { path: Seq<char> },
    /// Send the reply.
    Respond { reply: ReplyView },
}

/// What the handler needs next.
#[derive(Clone, Debug, PartialEq, Eq)]
pub enum Step {
    /// Find out whether `path` names a regular file, and call
    /// [`file_checked`].
    CheckFile { path: String },
    /// Read the whole file at `path`, and call [`file_read`].
    ReadFile { path: String },
    /// Read the whole fallback file at `path`, and call [`fallback_read`].
    ReadFallback { path: String },
    /// Send the reply; the exchange is over.
    Respond { reply: Reply },
}

impl View for Step {
    type V = StepView;

    open spec fn view(&self) -> StepView {
        match self {
            Step::CheckFile { path } => StepView::CheckFile { path: path@ },
            Step::ReadFile { path } => StepView::ReadFile { path: path@ },
            Step::ReadFallback { path } => StepView::ReadFallback { path: path@ },
            Step::Respond { reply } => StepView::Respond { reply: reply@ },
        }
    }
}

/// The model of optional file contents.
pub open spec fn bytes_of(contents: Option<Vec<u8>>) -> Option<Seq<u8>> {
    match contents {
        Some(bytes) => Some(bytes@),
        None => None,
    }
}

/// The path of a request target: what stands before the first `?`. The
/// query behind it plays no part.
pub open spec fn path_of(target: Seq<char>) -> Seq<char> {
    target.take(first_index(target, '?'))
}

/// The path of a request relative to the document root: the leading `/` is
/// left out, and the empty path stands for `index.html`.
pub open spec fn relative_segment(path: Seq<char>) -> Seq<char> {
    let stripped = if path.len() > 0 && path[0] == '/' {
        path.skip(1)
    } else {
        path
    };
    if stripped.len() == 0 {
        "index.html"@
    } else {
        stripped
    }
}

/// The traversal guard: a relative path that begins with a dot is refused.
pub open spec fn begins_with_dot(segment: Seq<char>) -> bool {
    segment.len() > 0 && segment[0] == '.'
}

/// The file that a request target names: the document root followed by the
/// relative path.
pub open spec fn candidate_path(config: ConfigView, target: Seq<char>) -> Seq<char> {
    config.document_root + relative_segment(path_of(target))
}

/// The body of the response to a refused path.
pub open spec fn invalid_path_body() -> Seq<u8> {
    encode_utf8("Invalid Path"@)
}

/// The body of the response to a file that could not be read.
pub open spec fn read_failed_body() -> Seq<u8> {
    encode_utf8("Something Went Wrong :("@)
}

/// The body of the not-found response when no fallback file can be sent.
pub open spec fn not_found_body() -> Seq<u8> {
    encode_utf8("404 Not Found"@)
}

/// The header list of a not-found response: the configured headers, then the
/// content type.
pub open spec fn with_content_type(headers: HeaderSeq, content_type: Seq<char>) -> HeaderSeq {
    headers.push(("Content-Type"@, content_type))
}

/// A reply that carries the configured headers and nothing else.
pub open spec fn plain_reply(config: ConfigView, status: u16, body: Seq<u8>, reason: Reason) -> ReplyView {
    ReplyView {
        response: ResponseView { status, headers: config.response_headers, body },
        reason,
    }
}

/// The not-found reply: status 404 with the fallback file's contents as
/// `text/html` where they could be read, and with a fixed text as
/// `text/plain` where not.
pub open spec fn not_found_reply(config: ConfigView, fallback: Option<Seq<u8>>) -> ReplyView {
    match fallback {
        Some(bytes) => ReplyView {
            response: ResponseView {
                status: 404,
                headers: with_content_type(config.response_headers, "text/html"@),
                body: bytes,
            },
            reason: Reason::NotFound,
        },
        None => ReplyView {
            response: ResponseView {
                status: 404,
                headers: with_content_type(config.response_headers, "text/plain"@),
                body: not_found_body(),
            },
            reason: Reason::NotFound,
        },
    }
}

/// The step that resolves a request which matched nothing: read the fallback
/// file where one is configured, else send the fixed not-found reply.
pub open spec fn not_found_step(config: ConfigView) -> StepView {
    match config.not_found_file {
        Some(path) => StepView::ReadFallback { path },
        None => StepView::Respond { reply: not_found_reply(config, None) },
    }
}

/// The first step of an exchange.
pub open spec fn first_step(request: RequestView, config: ConfigView) -> StepView {
    match request.method {
        Method::Options => StepView::Respond {
            reply: plain_reply(config, 200, Seq::empty(), Reason::Preflight),
        },
        Method::Get => if begins_with_dot(relative_segment(path_of(request.target))) {
            StepView::Respond {
                reply: plain_reply(config, 403, invalid_path_body(), Reason::InvalidPath),
            }
        } else {
            StepView::CheckFile { path: candidate_path(config, request.target) }
        },
        Method::Other => not_found_step(config),
    }
}

/// The step after it is known whether `path` names a regular file.
pub open spec fn step_after_check(path: Seq<char>, is_file: bool, config: ConfigView) -> StepView {
    if is_file {
        StepView::ReadFile { path }
    } else {
        not_found_step(config)
    }
}

/// The reply after the requested file was read (`Some`) or could not be read
/// (`None`).
pub open spec fn reply_after_read(contents: Option<Seq<u8>>, config: ConfigView) -> ReplyView {
    match contents {
        Some(bytes) => plain_reply(config, 200, bytes, Reason::FileServed),
        None => plain_reply(config, 500, read_failed_body(), Reason::ReadFailed),
    }
}

/// The path of a request target, without the query.
pub fn request_path(target: &str) -> (path: &str)
    ensures
        path@ == path_of(target@),
{
    let end: usize = find_char(target, '?');
    proof {
        lemma_first_index(target@, '?');
    }
    target.substring_char(0, end)
}

/// The path of a request relative to the document root.
pub fn relative_path(path: &str) -> (segment: String)
    ensures
        segment@ == relative_segment(path@),
{
    let n: usize = path.unicode_len();
    let stripped: &str = if n > 0 && path.get_char(0) == '/' {
        path.substring_char(1, n)
    } else {
        path
    };
    if stripped.is_empty() {
        "index.html".to_owned()
    } else {
        stripped.to_owned()
    }
}

/// Whether the traversal guard refuses the relative path `segment`.
pub fn is_refused(segment: &str) -> (refused: bool)
    ensures
        refused == begins_with_dot(segment@),
{
    !segment.is_empty() && segment.get_char(0) == '.'
}

/// A reply with the configured headers, the given status and body.
fn reply_with(config: &Config, status: u16, body: Vec<u8>, reason: Reason) -> (reply: Reply)
    ensures
        reply@ == plain_reply(config@, status, body@, reason),
{
    let headers = config.response_headers().to_vec();
    Reply { response: Response { status, headers, body }, reason }
}

/// Continues after [`Step::ReadFallback`]: the contents are sent with status
/// 404 as `text/html`; a failed read (`None`) is answered with the fixed
/// not-found reply.
pub fn fallback_read(contents: Option<Vec<u8>>, config: &Config) -> (reply: Reply)
    ensures
        reply@ == not_found_reply(config@, bytes_of(contents)),
{
    let mut headers = config.response_headers().to_vec();
    match contents {
        Some(bytes) => {
            headers.push(("Content-Type".to_owned(), "text/html".to_owned()));
            let reply = Reply {
                response: Response { status: 404, headers, body: bytes },
                reason: Reason::NotFound,
            };
            assert(reply@.response.headers =~= with_content_type(
                config@.response_headers,
                "text/html"@,
            ));
            reply
        },
        None => {
            headers.push(("Content-Type".to_owned(), "text/plain".to_owned()));
            let reply = Reply {
                response: Response { status: 404, headers, body: "404 Not Found".as_bytes_vec() },
                reason: Reason::NotFound,
            };
            assert(reply@.response.headers =~= with_content_type(
                config@.response_headers,
                "text/plain"@,
            ));
            reply
        },
    }
}

/// The step that resolves a request which matched nothing.
fn resolve_not_found(config: &Config) -> (step: Step)
    ensures
        step@ == not_found_step(config@),
{
    match config.not_found_file() {
        Some(path) => Step::ReadFallback { path: path.clone() },
        None => Step::Respond { reply: fallback_read(None, config) },
    }
}

/// Starts an exchange: dispatches on the method, resolves the path of a
/// `GET` and applies the traversal guard.
pub fn begin(request: &Request, config: &Config) -> (step: Step)
    ensures
        step@ == first_step(request@, config@),
{
    match request.method {
        Method::Options => Step::Respond {
            reply: reply_with(config, 200, Vec::new(), Reason::Preflight),
        },
        Method::Get => {
            let segment = relative_path(request_path(request.target.as_str()));
            if is_refused(segment.as_str()) {
                Step::Respond {
                    reply: reply_with(
                        config,
                        403,
                        "Invalid Path".as_bytes_vec(),
                        Reason::InvalidPath,
                    ),
                }
            } else {
                let path = config.document_root().clone().concat(segment.as_str());
                Step::CheckFile { path }
            }
        },
        Method::Other => resolve_not_found(config),
    }
}

/// Continues after [`Step::CheckFile`]: a regular file is read next, anything
/// else is resolved as not found.
pub fn file_checked(path: String, is_file: bool, config: &Config) -> (step: Step)
    ensures
        step@ == step_after_check(path@, is_file, config@),
{
    if is_file {
        Step::ReadFile { path }
    } else {
        resolve_not_found(config)
    }
}

/// Continues after [`Step::ReadFile`]: the contents are sent with status 200;
/// a failed read (`None`) is answered with status 500.
pub fn file_read(contents: Option<Vec<u8>>, config: &Config) -> (reply: Reply)
    ensures
        reply@ == reply_after_read(bytes_of(contents), config@),
{
    match contents {
        Some(bytes) => reply_with(config, 200, bytes, Reason::FileServed),
        None => reply_with(
            config,
            500,
            "Something Went Wrong :(".as_bytes_vec(),
            Reason::ReadFailed,
        ),
    }
}

} // verus!
