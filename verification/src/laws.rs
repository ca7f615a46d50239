//! What holds of the header list and of every exchange.

use crate::arguments::{
    initial_settings, options_from, parsed, with_option, InvocationView, SettingsView,
};
use crate::config::ConfigView;
use crate::exchange::{carried_out, served, Files};
use crate::handler::{
    begins_with_dot, candidate_path, first_step, invalid_path_body, not_found_body,
    not_found_reply, path_of, plain_reply, read_failed_body, relative_segment, reply_after_read,
    with_content_type, StepView,
};
use crate::headers::{
    default_header_name, default_header_value, has_name, unique_names, updated, with_defaults,
    HeaderSeq,
};
use crate::message::{Method, Reason, ReplyView, RequestView, ResponseView};
use crate::text::{first_index, lemma_first_index, lemma_first_index_is};
use vstd::prelude::*;
use vstd::utf8::is_ascii_chars_encode_utf8;

verus! {

/// The request target that asks for the relative path `segment`.
pub open spec fn path_to(segment: Seq<char>) -> Seq<char> {
    seq!['/'] + segment
}

/// A `GET` for `target`.
pub open spec fn get(target: Seq<char>) -> RequestView {
    RequestView { method: Method::Get, target }
}

/// `text` holds no `?`, so that it is a path as a whole.
pub open spec fn is_path(text: Seq<char>) -> bool {
    forall|i: int| 0 <= i < text.len() ==> text[i] != '?'
}

/// A text without `?` is its own path.
pub proof fn lemma_path_of_path(path: Seq<char>)
    requires
        is_path(path),
    ensures
        path_of(path) == path,
{
    lemma_first_index_is(path, '?', path.len() as int);
}

/// The query plays no part: a target with a query has the path, and gets the
/// first step, of the target without it.
pub proof fn lemma_query_is_ignored(
    method: Method,
    path: Seq<char>,
    query: Seq<char>,
    config: ConfigView,
)
    requires
        is_path(path),
    ensures
        path_of(path + seq!['?'] + query) == path,
        first_step(RequestView { method, target: path + seq!['?'] + query }, config) == first_step(
            RequestView { method, target: path },
            config,
        ),
{
    let target = path + seq!['?'] + query;
    lemma_first_index_is(target, '?', path.len() as int);
    lemma_path_of_path(path);
}

/// The configured headers stand at the front of the reply's headers, in
/// their order.
pub open spec fn carries_headers(reply: ReplyView, config: ConfigView) -> bool {
    config.response_headers.is_prefix_of(reply.response.headers)
}

/// A text as bytes, one for each of its characters.
pub open spec fn ascii_bytes(text: Seq<char>) -> Seq<u8> {
    Seq::new(text.len(), |i: int| text[i] as u8)
}

/// The fixed bodies are plain ASCII: each is its text, byte for character.
pub proof fn lemma_fixed_bodies_are_ascii()
    ensures
        invalid_path_body() == ascii_bytes("Invalid Path"@),
        invalid_path_body().len() == 12,
        read_failed_body() == ascii_bytes("Something Went Wrong :("@),
        read_failed_body().len() == 23,
        not_found_body() == ascii_bytes("404 Not Found"@),
        not_found_body().len() == 13,
{
    reveal_strlit("Invalid Path");
    reveal_strlit("Something Went Wrong :(");
    reveal_strlit("404 Not Found");
    is_ascii_chars_encode_utf8("Invalid Path"@);
    is_ascii_chars_encode_utf8("Something Went Wrong :("@);
    is_ascii_chars_encode_utf8("404 Not Found"@);
}

/// Updating keeps every name unique.
pub proof fn lemma_update_keeps_names_unique(headers: HeaderSeq, name: Seq<char>, value: Seq<char>)
    requires
        unique_names(headers),
    ensures
        unique_names(updated(headers, name, value)),
{
}

/// Updating keeps the order: every header that was there keeps its place and
/// its name, and every header of another name keeps its value too.
pub proof fn lemma_update_keeps_order(headers: HeaderSeq, name: Seq<char>, value: Seq<char>)
    ensures
        updated(headers, name, value).len() >= headers.len(),
        forall|i: int|
            0 <= i < headers.len() ==> (#[trigger] updated(headers, name, value)[i]).0
                == headers[i].0,
        forall|i: int|
            0 <= i < headers.len() && headers[i].0 != name ==> #[trigger] updated(
                headers,
                name,
                value,
            )[i] == headers[i],
{
}

/// The last value given to a name is the one that is kept, and the list
/// names exactly what it named before and the updated name.
pub proof fn lemma_update_sets_value(headers: HeaderSeq, name: Seq<char>, value: Seq<char>)
    ensures
        updated(headers, name, value).contains((name, value)),
        forall|i: int|
            0 <= i < updated(headers, name, value).len() && (#[trigger] updated(
                headers,
                name,
                value,
            )[i]).0 == name ==> updated(headers, name, value)[i].1 == value,
        forall|other: Seq<char>|
            has_name(updated(headers, name, value), other) <==> other == name || has_name(
                headers,
                other,
            ),
{
    let after = updated(headers, name, value);
    if !has_name(headers, name) {
        assert(after[headers.len() as int] == (name, value));
    }
    assert forall|other: Seq<char>|
        has_name(after, other) <==> other == name || has_name(headers, other) by {
        if has_name(headers, other) {
            let i = choose|i: int| 0 <= i < headers.len() && (#[trigger] headers[i]).0 == other;
            assert(after[i].0 == other);
        }
    }
}

/// Updating is idempotent: a second update with the same name and value
/// changes nothing.
pub proof fn lemma_update_is_idempotent(headers: HeaderSeq, name: Seq<char>, value: Seq<char>)
    ensures
        updated(updated(headers, name, value), name, value) == updated(headers, name, value),
{
    lemma_update_sets_value(headers, name, value);
}

/// An option leaves the header names unique.
pub proof fn lemma_option_keeps_names_unique(settings: SettingsView, arg: Seq<char>)
    requires
        unique_names(settings.headers),
    ensures
        with_option(settings, arg) matches Ok(next) ==> unique_names(next.headers),
{
}

/// However many options are read, the header names stay unique.
pub proof fn lemma_options_keep_names_unique(
    args: Seq<Seq<char>>,
    from: int,
    settings: SettingsView,
)
    requires
        unique_names(settings.headers),
    ensures
        options_from(args, from, settings) matches Ok(InvocationView::Serve(end)) ==> unique_names(
            end.headers,
        ),
    decreases args.len() - from,
{
    if 0 <= from < args.len() && args[from] != "--help"@ {
        lemma_option_keeps_names_unique(settings, args[from]);
        match with_option(settings, args[from]) {
            Ok(next) => {
                lemma_options_keep_names_unique(args, from + 1, next);
            },
            Err(_) => {},
        }
    }
}

/// The settings that a command line gives hold every header name once.
pub proof fn lemma_parsed_names_are_unique(args: Seq<Seq<char>>)
    ensures
        parsed(args) matches Ok(InvocationView::Serve(settings)) ==> unique_names(
            settings.headers,
        ),
{
    if args.len() > 0 {
        lemma_options_keep_names_unique(args, 1, initial_settings(args[0]));
    }
}

/// The target that asks for a non-empty relative path resolves to it.
pub proof fn lemma_relative_segment_of_path(segment: Seq<char>)
    requires
        segment.len() > 0,
        is_path(segment),
    ensures
        relative_segment(path_of(path_to(segment))) == segment,
{
    lemma_path_of_path(path_to(segment));
}

/// A `GET` for a regular file that can be read is answered with status 200,
/// the exact contents of the file, and the configured headers.
pub proof fn lemma_existing_file_is_served(
    segment: Seq<char>,
    contents: Seq<u8>,
    config: ConfigView,
    files: Files,
)
    requires
        segment.len() > 0,
        segment[0] != '.',
        is_path(segment),
        files.is_file(config.document_root + segment),
        files.read(config.document_root + segment) == Some(contents),
    ensures
        served(get(path_to(segment)), config, files).response == (ResponseView {
            status: 200,
            headers: config.response_headers,
            body: contents,
        }),
{
    lemma_relative_segment_of_path(segment);
    reveal_with_fuel(carried_out, 3);
}

/// Two requests for two files are answered each with the contents of its own
/// file, whatever the other one asks for: a reply is made of the request,
/// the settings and the answers to its own questions, and of nothing else.
pub proof fn lemma_replies_keep_apart(
    first: Seq<char>,
    second: Seq<char>,
    first_contents: Seq<u8>,
    second_contents: Seq<u8>,
    config: ConfigView,
    files: Files,
)
    requires
        first.len() > 0 && first[0] != '.' && is_path(first),
        second.len() > 0 && second[0] != '.' && is_path(second),
        files.is_file(config.document_root + first),
        files.is_file(config.document_root + second),
        files.read(config.document_root + first) == Some(first_contents),
        files.read(config.document_root + second) == Some(second_contents),
    ensures
        served(get(path_to(first)), config, files).response.body == first_contents,
        served(get(path_to(second)), config, files).response.body == second_contents,
        served(get(path_to(first)), config, files).response.headers == served(
            get(path_to(second)),
            config,
            files,
        ).response.headers,
{
    lemma_existing_file_is_served(first, first_contents, config, files);
    lemma_existing_file_is_served(second, second_contents, config, files);
}

/// The root path and the path of `index.html` are answered alike, and so is
/// the empty path.
pub proof fn lemma_root_is_index(config: ConfigView, files: Files)
    ensures
        served(get("/"@), config, files) == served(get("/index.html"@), config, files),
        served(get(""@), config, files) == served(get("/index.html"@), config, files),
{
    reveal_strlit("/");
    reveal_strlit("");
    reveal_strlit("/index.html");
    reveal_strlit("index.html");
    lemma_path_of_path("/"@);
    lemma_path_of_path(""@);
    lemma_path_of_path("/index.html"@);
    assert(relative_segment("/index.html"@) == "index.html"@);
}

/// A `GET` whose relative path begins with a dot is answered at once with
/// status 403 and the body `Invalid Path`: no question about the file system
/// is asked, so the reply is the same whatever the file system holds.
pub proof fn lemma_dot_path_is_refused(target: Seq<char>, config: ConfigView, files: Files)
    requires
        begins_with_dot(relative_segment(path_of(target))),
    ensures
        first_step(get(target), config) == (StepView::Respond {
            reply: plain_reply(config, 403, invalid_path_body(), Reason::InvalidPath),
        }),
        served(get(target), config, files).response == (ResponseView {
            status: 403,
            headers: config.response_headers,
            body: invalid_path_body(),
        }),
{
}

/// Every path segment that begins with a dot is refused.
pub proof fn lemma_dot_segment_is_refused(segment: Seq<char>, config: ConfigView, files: Files)
    requires
        segment.len() > 0,
        segment[0] == '.',
    ensures
        served(get(path_to(segment)), config, files).response == (ResponseView {
            status: 403,
            headers: config.response_headers,
            body: invalid_path_body(),
        }),
{
    let target = path_to(segment);
    lemma_first_index(target, '?');
    lemma_dot_path_is_refused(target, config, files);
}

/// The request matches nothing: it is neither a preflight check nor a `GET`
/// that is refused or names a regular file.
pub open spec fn unmatched(request: RequestView, config: ConfigView, files: Files) -> bool {
    match request.method {
        Method::Options => false,
        Method::Get => !begins_with_dot(relative_segment(path_of(request.target)))
            && !files.is_file(candidate_path(config, request.target)),
        Method::Other => true,
    }
}

/// With no fallback file configured, a request that matches nothing is
/// answered with status 404, the body `404 Not Found` and the content type
/// `text/plain`.
pub proof fn lemma_unmatched_without_fallback(
    request: RequestView,
    config: ConfigView,
    files: Files,
)
    requires
        unmatched(request, config, files),
        config.not_found_file is None,
    ensures
        served(request, config, files).response == (ResponseView {
            status: 404,
            headers: with_content_type(config.response_headers, "text/plain"@),
            body: not_found_body(),
        }),
{
    reveal_with_fuel(carried_out, 3);
}

/// With a fallback file configured that can be read, a request that matches
/// nothing is answered with status 404, the contents of that file and the
/// content type `text/html`.
pub proof fn lemma_unmatched_with_fallback(
    request: RequestView,
    config: ConfigView,
    files: Files,
    fallback: Seq<char>,
    contents: Seq<u8>,
)
    requires
        unmatched(request, config, files),
        config.not_found_file == Some(fallback),
        files.read(fallback) == Some(contents),
    ensures
        served(request, config, files).response == (ResponseView {
            status: 404,
            headers: with_content_type(config.response_headers, "text/html"@),
            body: contents,
        }),
{
    reveal_with_fuel(carried_out, 3);
}

/// With a fallback file configured that cannot be read, a request that
/// matches nothing is answered as if none were configured: never with
/// status 500.
pub proof fn lemma_unmatched_with_unreadable_fallback(
    request: RequestView,
    config: ConfigView,
    files: Files,
    fallback: Seq<char>,
)
    requires
        unmatched(request, config, files),
        config.not_found_file == Some(fallback),
        files.read(fallback) is None,
    ensures
        served(request, config, files) == not_found_reply(config, None),
{
    reveal_with_fuel(carried_out, 3);
}

/// A preflight check is answered at once with status 200 and an empty body,
/// whatever the path, the settings and the file system.
pub proof fn lemma_options_is_empty_ok(target: Seq<char>, config: ConfigView, files: Files)
    ensures
        first_step(RequestView { method: Method::Options, target }, config) == (
        StepView::Respond { reply: plain_reply(config, 200, Seq::empty(), Reason::Preflight) }),
        served(RequestView { method: Method::Options, target }, config, files).response == (
        ResponseView { status: 200, headers: config.response_headers, body: Seq::empty() }),
{
}

/// Whatever a step of the handler replies, on whatever answer, carries the
/// configured headers first and in their order.
pub proof fn lemma_every_reply_carries_headers(
    request: RequestView,
    config: ConfigView,
    contents: Option<Seq<u8>>,
)
    ensures
        first_step(request, config) matches StepView::Respond { reply } ==> carries_headers(
            reply,
            config,
        ),
        carries_headers(reply_after_read(contents, config), config),
        carries_headers(not_found_reply(config, contents), config),
{
}

/// The response to any request carries the configured headers first and in
/// their order, whichever status it has; only a 404 adds a header, the
/// content type, behind them.
pub proof fn lemma_response_carries_headers(request: RequestView, config: ConfigView, files: Files)
    ensures
        carries_headers(served(request, config, files), config),
        ({
            let response = served(request, config, files).response;
            &&& response.status == 200 || response.status == 403 || response.status == 404
                || response.status == 500
            &&& response.status != 404 ==> response.headers == config.response_headers
            &&& response.status == 404 ==> response.headers.len() == config.response_headers.len()
                + 1 && response.headers.last().0 == "Content-Type"@
        }),
{
    reveal_with_fuel(carried_out, 3);
}

/// The default header reaches every response unless the caller opted out:
/// where the caller gave no header of that name and did not opt out, the
/// response has `access-control-allow-origin: *`; where the caller opted
/// out, the response has a header of that name only if the caller gave one.
pub proof fn lemma_default_header_reaches_response(
    given: HeaderSeq,
    opt_out: bool,
    request: RequestView,
    document_root: Seq<char>,
    not_found_file: Option<Seq<char>>,
    files: Files,
)
    ensures
        ({
            let config = ConfigView {
                document_root,
                response_headers: with_defaults(given, opt_out),
                not_found_file,
            };
            let headers = served(request, config, files).response.headers;
            &&& !opt_out && !has_name(given, default_header_name()) ==> headers.contains(
                (default_header_name(), default_header_value()),
            )
            &&& opt_out ==> (has_name(headers, default_header_name()) <==> has_name(
                given,
                default_header_name(),
            ))
            &&& given.is_prefix_of(headers)
        }),
{
    let config = ConfigView {
        document_root,
        response_headers: with_defaults(given, opt_out),
        not_found_file,
    };
    let configured = config.response_headers;
    let headers = served(request, config, files).response.headers;
    lemma_response_carries_headers(request, config, files);
    reveal_strlit("Content-Type");
    reveal_strlit("access-control-allow-origin");
    if !opt_out && !has_name(given, default_header_name()) {
        let last = given.len() as int;
        assert(headers[last] == configured[last]);
    }
    if opt_out && has_name(headers, default_header_name()) {
        let i = choose|i: int|
            0 <= i < headers.len() && (#[trigger] headers[i]).0 == default_header_name();
        if i < given.len() {
            assert(given[i] == headers[i]);
        } else {
            assert("Content-Type"@.len() != default_header_name().len());
        }
    }
}

} // verus!
