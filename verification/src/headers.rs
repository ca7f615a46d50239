//! The ordered, duplicate-free list of response headers.

use vstd::prelude::*;

verus! {

/// The mathematical model of a header list: names and values as character
/// sequences, in the order in which they are sent.
pub type HeaderSeq = Seq<(Seq<char>, Seq<char>)>;

/// The name of the header that is sent unless the caller opts out.
pub open spec fn default_header_name() -> Seq<char> {
    "access-control-allow-origin"@
}

/// The value of the header that is sent unless the caller opts out.
pub open spec fn default_header_value() -> Seq<char> {
    "*"@
}

/// Views a stored list of headers as its model.
pub open spec fn header_seq(entries: Seq<(String, String)>) -> HeaderSeq {
    Seq::new(entries.len(), |i: int| (entries[i].0@, entries[i].1@))
}

/// Some entry of `headers` has the name `name` (names are case-sensitive).
pub open spec fn has_name(headers: HeaderSeq, name: Seq<char>) -> bool {
    exists|i: int| 0 <= i < headers.len() && (#[trigger] headers[i]).0 == name
}

/// No two entries of `headers` share a name.
pub open spec fn unique_names(headers: HeaderSeq) -> bool {
    forall|i: int, j: int|
        0 <= i < j < headers.len() ==> (#[trigger] headers[i]).0 != (#[trigger] headers[j]).0
}

/// The list after `name` has been given `value`: an entry with that name keeps
/// its place and takes the new value; without one, the pair goes to the end.
pub open spec fn updated(headers: HeaderSeq, name: Seq<char>, value: Seq<char>) -> HeaderSeq {
    if has_name(headers, name) {
        Seq::new(
            headers.len(),
            |i: int|
                if headers[i].0 == name {
                    (name, value)
                } else {
                    headers[i]
                },
        )
    } else {
        headers.push((name, value))
    }
}

/// The list after the default header has been applied: nothing changes when
/// the caller opted out or already gave that header; otherwise it is appended.
pub open spec fn with_defaults(headers: HeaderSeq, opt_out: bool) -> HeaderSeq {
    if opt_out || has_name(headers, default_header_name()) {
        headers
    } else {
        headers.push((default_header_name(), default_header_value()))
    }
}

/// An insertion-ordered list of headers in which every name occurs once.
#[derive(Clone, Debug)]
pub struct HeaderList {
    entries: Vec<(String, String)>,
}

impl View for HeaderList {
    type V = HeaderSeq;

    closed spec fn view(&self) -> HeaderSeq {
        header_seq(self.entries@)
    }
}

impl HeaderList {
    /// Well-formedness: no name occurs twice.
    pub open spec fn wf(&self) -> bool {
        unique_names(self@)
    }

    /// An empty list.
    pub fn new() -> (list: HeaderList)
        ensures
            list.wf(),
            list@ == Seq::<(Seq<char>, Seq<char>)>::empty(),
    {
        let list = HeaderList { entries: Vec::new() };
        list
    }

    /// The number of headers.
    pub fn len(&self) -> (n: usize)
        ensures
            n == self@.len(),
    {
        self.entries.len()
    }

    /// The place of the first header called `name`, if there is one.
    pub fn position(&self, name: &String) -> (found: Option<usize>)
        ensures
            found is Some <==> has_name(self@, name@),
            found matches Some(i) ==> i < self@.len() && self@[i as int].0 == name@ && forall|k: int|
                0 <= k < i ==> (#[trigger] self@[k]).0 != name@,
    {
        let mut i: usize = 0;
        while i < self.entries.len()
            invariant
                i <= self.entries.len(),
                forall|k: int| 0 <= k < i ==> (#[trigger] self@[k]).0 != name@,
            decreases self.entries.len() - i,
        {
            if self.entries[i].0 == *name {
                assert(self@[i as int].0 == name@);
                return Some(i);
            }
            i += 1;
        }
        None
    }

    /// Applies the default header: unless the caller opted out or gave that
    /// header already, `access-control-allow-origin: *` is appended.
    pub fn apply_defaults(&mut self, opt_out: bool)
        requires
            old(self).wf(),
        ensures
            final(self).wf(),
            final(self)@ == with_defaults(old(self)@, opt_out),
    {
        if opt_out {
            return;
        }
        let name = "access-control-allow-origin".to_owned();
        if self.position(&name).is_none() {
            self.entries.push((name, "*".to_owned()));
            assert(self@ =~= with_defaults(old(self)@, opt_out));
        }
    }

    /// A copy of the headers, in order.
    pub fn to_vec(&self) -> (copy: Vec<(String, String)>)
        ensures
            header_seq(copy@) == self@,
    {
        let mut copy: Vec<(String, String)> = Vec::new();
        let mut i: usize = 0;
        while i < self.entries.len()
            invariant
                i <= self.entries.len(),
                copy@.len() == i,
                forall|k: int| 0 <= k < i ==> copy@[k] == self.entries@[k],
            decreases self.entries.len() - i,
        {
            let entry = &self.entries[i];
            copy.push((entry.0.clone(), entry.1.clone()));
            i += 1;
        }
        copy
    }

    /// Gives `name` the value `value`. A header of that name keeps its place
    /// and takes the new value; otherwise the pair is appended. Returns
    /// whether a header of that name was there before.
    pub fn update(&mut self, name: String, value: String) -> (replaced: bool)
        requires
            old(self).wf(),
        ensures
            final(self).wf(),
            final(self)@ == updated(old(self)@, name@, value@),
            replaced == has_name(old(self)@, name@),
    {
        match self.position(&name) {
            Some(index) => {
                self.entries.set(index, (name, value));
                assert(self@ =~= updated(old(self)@, name@, value@));
                true
            },
            None => {
                self.entries.push((name, value));
                assert(self@ =~= updated(old(self)@, name@, value@));
                false
            },
        }
    }
}

} // verus!
