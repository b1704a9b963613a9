//! Response headers as the client reads them.

use vstd::prelude::*;
use crate::internal::text::{eq_ignore_ascii_case, str_eq_ignore_ascii_case};

verus! {

/// One header line of a response: its name (lowercase, as HTTP header maps
/// store names) and its value when that value is visible ASCII text.
#[derive(Debug, Clone)]
pub struct HeaderEntry {
    /// Header name.
    pub name: String,
    /// Header value; `None` when the value is not visible ASCII text.
    pub value: Option<String>,
}

/// The headers of an HTTP response, in the order the response carried them.
#[derive(Debug, Clone)]
pub struct ResponseHeaders {
    /// The header lines.
    pub entries: Vec<HeaderEntry>,
}

/// The view of an optional string.
pub open spec fn opt_str_view(o: Option<String>) -> Option<Seq<char>> {
    match o {
        Some(s) => Some(s@),
        None => None,
    }
}

/// The view of one header line.
pub open spec fn entry_view(e: HeaderEntry) -> (Seq<char>, Option<Seq<char>>) {
    (e.name@, opt_str_view(e.value))
}

impl View for ResponseHeaders {
    type V = Seq<(Seq<char>, Option<Seq<char>>)>;

    open spec fn view(&self) -> Seq<(Seq<char>, Option<Seq<char>>)> {
        self.entries@.map_values(|e: HeaderEntry| entry_view(e))
    }
}

/// The value of the first header line named `name` (compared without regard
/// to ASCII case): `None` when no line has that name, `Some(None)` when the
/// line's value is not text.
pub open spec fn header_lookup(h: Seq<(Seq<char>, Option<Seq<char>>)>, name: Seq<char>) -> Option<Option<Seq<char>>>
    decreases h.len(),
{
    if h.len() == 0 {
        None
    } else if eq_ignore_ascii_case(h[0].0, name) {
        Some(h[0].1)
    } else {
        header_lookup(h.drop_first(), name)
    }
}

/// The text of the first header line named `name`, if that line exists and
/// its value is text.
pub open spec fn header_text(h: Seq<(Seq<char>, Option<Seq<char>>)>, name: Seq<char>) -> Option<Seq<char>> {
    match header_lookup(h, name) {
        Some(Some(t)) => Some(t),
        _ => None,
    }
}

proof fn lemma_header_lookup_skip(h: Seq<(Seq<char>, Option<Seq<char>>)>, name: Seq<char>, i: int)
    requires
        0 <= i < h.len(),
        !eq_ignore_ascii_case(h[i].0, name),
    ensures
        header_lookup(h.skip(i), name) == header_lookup(h.skip(i + 1), name),
{
    assert(h.skip(i).drop_first() =~= h.skip(i + 1));
}

/// The view of an optional optional string.
pub open spec fn opt_opt_str_view(o: Option<Option<String>>) -> Option<Option<Seq<char>>> {
    match o {
        Some(v) => Some(opt_str_view(v)),
        None => None,
    }
}

impl ResponseHeaders {
    /// Headers with no lines.
    pub fn new() -> (h: Self)
        ensures
            h@ == Seq::<(Seq<char>, Option<Seq<char>>)>::empty(),
    {
        let h = ResponseHeaders { entries: Vec::new() };
        assert(h@ =~= Seq::<(Seq<char>, Option<Seq<char>>)>::empty());
        h
    }

    /// Appends a header line.
    pub fn append(&mut self, name: String, value: Option<String>)
        ensures
            final(self)@ == old(self)@.push((name@, opt_str_view(value))),
    {
        let e = HeaderEntry { name, value };
        self.entries.push(e);
        assert(self@ =~= old(self)@.push((name@, opt_str_view(value))));
    }

    /// A copy of the headers.
    pub fn clone_headers(&self) -> (c: Self)
        ensures
            c@ == self@,
    {
        let mut c = ResponseHeaders::new();
        let n = self.entries.len();
        let mut i: usize = 0;
        while i < n
            invariant
                i <= n,
                n == self.entries@.len(),
                c@ == self@.take(i as int),
            decreases n - i,
        {
            let e = &self.entries[i];
            let v = match &e.value {
                Some(t) => Some(t.clone()),
                None => None,
            };
            c.append(e.name.clone(), v);
            i = i + 1;
            assert(c@ =~= self@.take(i as int));
        }
        assert(self@.take(n as int) =~= self@);
        c
    }

    /// The value of the first line named `name`, ignoring ASCII case.
    pub fn get(&self, name: &str) -> (r: Option<Option<String>>)
        ensures
            opt_opt_str_view(r) == header_lookup(self@, name@),
    {
        let n = self.entries.len();
        let mut i: usize = 0;
        assert(self@.skip(0) =~= self@);
        while i < n
            invariant
                i <= n,
                n == self.entries@.len(),
                self@.len() == n,
                header_lookup(self@, name@) == header_lookup(self@.skip(i as int), name@),
            decreases n - i,
        {
            let e = &self.entries[i];
            assert(self@[i as int] == entry_view(*e));
            if str_eq_ignore_ascii_case(e.name.as_str(), name) {
                assert(self@.skip(i as int)[0] == self@[i as int]);
                return match &e.value {
                    Some(v) => Some(Some(v.clone())),
                    None => Some(None),
                };
            }
            proof { lemma_header_lookup_skip(self@, name@, i as int); }
            i = i + 1;
        }
        assert(self@.skip(n as int).len() == 0);
        None
    }

    /// The text of the first line named `name`, ignoring ASCII case.
    pub fn get_text(&self, name: &str) -> (r: Option<String>)
        ensures
            opt_str_view(r) == header_text(self@, name@),
    {
        match self.get(name) {
            Some(Some(t)) => Some(t),
            _ => None,
        }
    }
}

impl Default for ResponseHeaders {
    fn default() -> (h: Self)
        ensures
            h@ == Seq::<(Seq<char>, Option<Seq<char>>)>::empty(),
    {
        ResponseHeaders::new()
    }
}

} // verus!
