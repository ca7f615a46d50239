//! A whole exchange, from request to reply, against a fixed file system.
//!
//! The handler's steps are defined one by one. This module says what they add
//! up to when every question is answered from one and the same snapshot of
//! the file system, and proves that the sum is the response that the server
//! owes for the request.

use crate::config::ConfigView;
use crate::handler::{
    begins_with_dot, candidate_path, first_step, invalid_path_body, not_found_reply, path_of,
    plain_reply, relative_segment, reply_after_read, step_after_check, StepView,
};
use crate::message::{Method, Reason, ReplyView, RequestView};
use vstd::prelude::*;

verus! {

/// A snapshot of the file system, as far as the handler can ask about it.
pub struct Files {
    /// The paths that name a regular file.
    pub regular: Set<Seq<char>>,
    /// The contents of the files that can be read.
    pub contents: Map<Seq<char>, Seq<u8>>,
}

impl Files {
    /// Whether `path` names a regular file.
    pub open spec fn is_file(self, path: Seq<char>) -> bool {
        self.regular.contains(path)
    }

    /// What reading the whole file at `path` gives; `None` when it fails.
    pub open spec fn read(self, path: Seq<char>) -> Option<Seq<u8>> {
        if self.contents.contains_key(path) {
            Some(self.contents[path])
        } else {
            None
        }
    }
}

/// The number of questions that may still have to be answered before `step`
/// has led to a reply.
pub open spec fn pending(step: StepView) -> nat {
    match step {
        StepView::CheckFile { .. } => 2,
        StepView::ReadFile { .. } => 1,
        StepView::ReadFallback { .. } => 1,
        StepView::Respond { .. } => 0,
    }
}

/// The reply that `step` leads to when each question is answered from
/// `files` and the answer is handed to the function that belongs to the step.
pub open spec fn carried_out(step: StepView, config: ConfigView, files: Files) -> ReplyView
    decreases pending(step),
{
    match step {
        StepView::CheckFile { path } => carried_out(
            step_after_check(path, files.is_file(path), config),
            config,
            files,
        ),
        StepView::ReadFile { path } => reply_after_read(files.read(path), config),
        StepView::ReadFallback { path } => not_found_reply(config, files.read(path)),
        StepView::Respond { reply } => reply,
    }
}

/// The reply that the handler's steps give to `request`.
pub open spec fn served(request: RequestView, config: ConfigView, files: Files) -> ReplyView {
    carried_out(first_step(request, config), config, files)
}

/// What can be read of the configured fallback file, if there is one.
pub open spec fn fallback_contents(config: ConfigView, files: Files) -> Option<Seq<u8>> {
    match config.not_found_file {
        Some(path) => files.read(path),
        None => None,
    }
}

/// The reply that is owed for `request`, stated at once: a preflight check
/// is answered with an empty 200; a `GET` is refused with 403 where its path
/// begins with a dot, and else answered with the file (200), with 500 where
/// the file is there but unreadable, and as not found where it is no regular
/// file; every other method is answered as not found.
pub open spec fn owed(request: RequestView, config: ConfigView, files: Files) -> ReplyView {
    match request.method {
        Method::Options => plain_reply(config, 200, Seq::empty(), Reason::Preflight),
        Method::Get => {
            let file = candidate_path(config, request.target);
            if begins_with_dot(relative_segment(path_of(request.target))) {
                plain_reply(config, 403, invalid_path_body(), Reason::InvalidPath)
            } else if files.is_file(file) {
                reply_after_read(files.read(file), config)
            } else {
                not_found_reply(config, fallback_contents(config, files))
            }
        },
        Method::Other => not_found_reply(config, fallback_contents(config, files)),
    }
}

/// Every step but the last brings the exchange nearer to its reply: after a
/// check at most one question is left.
pub proof fn lemma_check_makes_progress(path: Seq<char>, is_file: bool, config: ConfigView)
    ensures
        pending(step_after_check(path, is_file, config)) <= 1,
        pending(step_after_check(path, is_file, config)) < pending(StepView::CheckFile { path }),
{
}

/// An exchange asks at most two questions, and none for a request that is
/// not a `GET` unless a fallback file is configured.
pub proof fn lemma_first_step_is_bounded(request: RequestView, config: ConfigView)
    ensures
        pending(first_step(request, config)) <= 2,
        request.method == Method::Options ==> pending(first_step(request, config)) == 0,
        request.method == Method::Other ==> pending(first_step(request, config)) <= 1,
        request.method == Method::Other && config.not_found_file is None ==> pending(
            first_step(request, config),
        ) == 0,
{
}

/// The handler's steps, carried out against one snapshot of the file system,
/// give exactly the reply that is owed.
pub proof fn lemma_steps_give_what_is_owed(request: RequestView, config: ConfigView, files: Files)
    ensures
        served(request, config, files) == owed(request, config, files),
{
    reveal_with_fuel(carried_out, 3);
}

} // verus!
