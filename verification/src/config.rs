//! The settings that every request is answered under.

use crate::headers::{unique_names, HeaderList, HeaderSeq};
use vstd::prelude::*;

verus! {

/// A character that ends a directory path.
pub open spec fn is_separator(c: char) -> bool {
    c == '/' || c == '\\'
}

/// `path` ends with a path separator.
pub open spec fn ends_with_separator(path: Seq<char>) -> bool {
    path.len() > 0 && is_separator(path.last())
}

/// The document root as it is stored: a root that does not end with a
/// separator gets a `/` appended, so that a relative path can be joined to it
/// by plain concatenation.
pub open spec fn normalized_root(path: Seq<char>) -> Seq<char> {
    if ends_with_separator(path) {
        path
    } else {
        path.push('/')
    }
}

/// The model of an optional text.
pub open spec fn text_of(text: Option<String>) -> Option<Seq<char>> {
    match text {
        Some(s) => Some(s@),
        None => None,
    }
}

/// The mathematical model of a [`Config`].
pub struct ConfigView {
    /// The directory that files are served from.
    pub document_root: Seq<char>,
    /// The headers of every response, in sending order.
    pub response_headers: HeaderSeq,
    /// The file whose contents answer a request that matches nothing.
    pub not_found_file: Option<Seq<char>>,
}

impl ConfigView {
    /// Well-formedness: the root ends with a separator and no header name
    /// occurs twice.
    pub open spec fn wf(self) -> bool {
        &&& ends_with_separator(self.document_root)
        &&& unique_names(self.response_headers)
    }
}

/// Immutable settings, built once and shared by all requests.
#[derive(Debug)]
pub struct Config {
    document_root: String,
    response_headers: HeaderList,
    not_found_file: Option<String>,
}

impl View for Config {
    type V = ConfigView;

    closed spec fn view(&self) -> ConfigView {
        ConfigView {
            document_root: self.document_root@,
            response_headers: self.response_headers@,
            not_found_file: text_of(self.not_found_file),
        }
    }
}

/// Appends `/` to `root` unless it already ends with a separator.
pub fn normalize_root(root: String) -> (normalized: String)
    ensures
        normalized@ == normalized_root(root@),
        ends_with_separator(normalized@),
{
    let n: usize = root.as_str().unicode_len();
    if n > 0 {
        let last = root.as_str().get_char(n - 1);
        if last == '/' || last == '\\' {
            return root;
        }
    }
    proof {
        reveal_strlit("/");
    }
    root.concat("/")
}

impl Config {
    #[verifier::type_invariant]
    spec fn well_formed(&self) -> bool {
        self@.wf()
    }

    /// Settings that serve files from `document_root` (normalized to end
    /// with a separator), send `response_headers` with every response, and
    /// answer unmatched requests from `not_found_file` where one is given.
    pub fn new(
        document_root: String,
        response_headers: HeaderList,
        not_found_file: Option<String>,
    ) -> (config: Config)
        requires
            response_headers.wf(),
        ensures
            config@.wf(),
            config@ == (ConfigView {
                document_root: normalized_root(document_root@),
                response_headers: response_headers@,
                not_found_file: text_of(not_found_file),
            }),
    {
        Config { document_root: normalize_root(document_root), response_headers, not_found_file }
    }

    /// The directory that files are served from; it ends with a separator.
    pub fn document_root(&self) -> (root: &String)
        ensures
            root@ == self@.document_root,
            ends_with_separator(root@),
    {
        proof {
            use_type_invariant(self);
        }
        &self.document_root
    }

    /// The headers of every response.
    pub fn response_headers(&self) -> (headers: &HeaderList)
        ensures
            headers@ == self@.response_headers,
            headers.wf(),
    {
        proof {
            use_type_invariant(self);
        }
        &self.response_headers
    }

    /// The file whose contents answer a request that matches nothing.
    pub fn not_found_file(&self) -> (file: &Option<String>)
        ensures
            text_of(*file) == self@.not_found_file,
    {
        &self.not_found_file
    }
}

} // verus!
