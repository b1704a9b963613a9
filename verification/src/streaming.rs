//! Framing of an NDJSON (`application/x-ndjson`) response body.
//!
//! The server of `StreamedListObjects` sends one JSON object per line. The
//! bytes arrive in chunks; [`NdJsonBuffer`] collects them and hands out
//! complete lines, then, once the body has ended, whatever text is left.

use vstd::prelude::*;
use vstd::string::*;
use crate::error::OpenFgaError;
use crate::models::{Status, StreamResult, StreamedListObjectsResponse};

verus! {

/// ASCII whitespace as `u8::is_ascii_whitespace` defines it: space, tab,
/// line feed, form feed and carriage return.
pub open spec fn is_ascii_ws(b: u8) -> bool {
    b == 0x20 || b == 0x09 || b == 0x0A || b == 0x0C || b == 0x0D
}

/// Drops leading ASCII whitespace.
pub open spec fn trim_ascii_front(s: Seq<u8>) -> Seq<u8>
    decreases s.len(),
{
    if s.len() > 0 && is_ascii_ws(s[0]) { trim_ascii_front(s.drop_first()) } else { s }
}

/// Drops trailing ASCII whitespace.
pub open spec fn trim_ascii_back(s: Seq<u8>) -> Seq<u8>
    decreases s.len(),
{
    if s.len() > 0 && is_ascii_ws(s.last()) { trim_ascii_back(s.drop_last()) } else { s }
}

/// What `<[u8]>::trim_ascii` leaves of a byte string.
pub open spec fn trim_ascii(s: Seq<u8>) -> Seq<u8> {
    trim_ascii_back(trim_ascii_front(s))
}

proof fn lemma_front_from(s: Seq<u8>, i: int)
    requires
        0 <= i <= s.len(),
        forall|k: int| 0 <= k < i ==> is_ascii_ws(#[trigger] s[k]),
    ensures
        trim_ascii_front(s) == trim_ascii_front(s.subrange(i, s.len() as int)),
    decreases i,
{
    if i > 0 {
        let t = s.drop_first();
        lemma_front_from(t, i - 1);
        assert(t.subrange(i - 1, t.len() as int) =~= s.subrange(i, s.len() as int));
    } else {
        assert(s.subrange(0, s.len() as int) =~= s);
    }
}

proof fn lemma_back_to(s: Seq<u8>, j: int)
    requires
        0 <= j <= s.len(),
        forall|k: int| j <= k < s.len() ==> is_ascii_ws(#[trigger] s[k]),
    ensures
        trim_ascii_back(s) == trim_ascii_back(s.subrange(0, j)),
    decreases s.len() - j,
{
    if j < s.len() {
        let t = s.drop_last();
        lemma_back_to(t, j);
        assert(t.subrange(0, j) =~= s.subrange(0, j));
    } else {
        assert(s.subrange(0, j) =~= s);
    }
}

fn copy_range(v: &Vec<u8>, from: usize, to: usize) -> (r: Vec<u8>)
    requires
        from <= to <= v.len(),
    ensures
        r@ == v@.subrange(from as int, to as int),
{
    let mut r: Vec<u8> = Vec::new();
    let mut i = from;
    while i < to
        invariant
            from <= i <= to <= v.len(),
            r@ == v@.subrange(from as int, i as int),
        decreases to - i,
    {
        r.push(v[i]);
        i = i + 1;
        assert(r@ =~= v@.subrange(from as int, i as int));
    }
    r
}

fn byte_is_ws(b: u8) -> (r: bool)
    ensures
        r == is_ascii_ws(b),
{
    b == 0x20 || b == 0x09 || b == 0x0A || b == 0x0C || b == 0x0D
}

/// The bytes `v[from..to]` with ASCII whitespace trimmed from both ends.
fn trimmed_range(v: &Vec<u8>, from: usize, to: usize) -> (r: Vec<u8>)
    requires
        from <= to <= v.len(),
    ensures
        r@ == trim_ascii(v@.subrange(from as int, to as int)),
{
    let ghost s = v@.subrange(from as int, to as int);
    let mut i = from;
    while i < to && byte_is_ws(v[i])
        invariant
            from <= i <= to <= v.len(),
            s == v@.subrange(from as int, to as int),
            forall|k: int| 0 <= k < i - from ==> is_ascii_ws(#[trigger] s[k]),
        decreases to - i,
    {
        i = i + 1;
    }
    proof { lemma_front_from(s, i - from); }
    let ghost rest = s.subrange(i - from, s.len() as int);
    assert(trim_ascii_front(rest) == rest);
    let mut j = to;
    while j > i && byte_is_ws(v[j - 1])
        invariant
            from <= i <= j <= to <= v.len(),
            s == v@.subrange(from as int, to as int),
            forall|k: int| j - from <= k < s.len() ==> is_ascii_ws(#[trigger] s[k]),
        decreases j,
    {
        j = j - 1;
    }
    proof {
        assert forall|k: int| (j - i) <= k < rest.len() implies is_ascii_ws(#[trigger] rest[k]) by {
            assert(rest[k] == s[k + i - from]);
        }
        lemma_back_to(rest, j - i);
        let kept = rest.subrange(0, j - i);
        assert(trim_ascii_back(kept) == kept);
        assert(kept =~= v@.subrange(i as int, j as int));
    }
    copy_range(v, i, j)
}

/// The position of the first line feed, if any.
pub open spec fn first_newline(s: Seq<u8>) -> Option<int> {
    if exists|i: int| 0 <= i < s.len() && s[i] == 0x0A {
        Some(choose|i: int| 0 <= i < s.len() && s[i] == 0x0A && forall|k: int| 0 <= k < i ==> s[k] != 0x0A)
    } else {
        None
    }
}

/// What follows when no line is handed out of buffer `buf`: before the end
/// of the body, more input is needed and the buffer stays; after it, the
/// trimmed buffer is handed out whole (and the buffer emptied) unless nothing
/// is left, which is the end.
pub open spec fn no_line_outcome(buf: Seq<u8>, done: bool, f: Frame, after: Seq<u8>) -> bool {
    if !done {
        f is NeedInput && after == buf
    } else if trim_ascii(buf).len() == 0 {
        f is End && after == buf
    } else {
        f matches Frame::Rest(r) && r@ == trim_ascii(buf) && after.len() == 0
    }
}

/// The first complete line of a buffer, trimmed, and what follows its line
/// feed; nothing without a line feed.
pub open spec fn split_line(buf: Seq<u8>) -> Option<(Seq<u8>, Seq<u8>)> {
    match first_newline(buf) {
        Some(p) => Some((trim_ascii(buf.subrange(0, p)), buf.subrange(p + 1, buf.len() as int))),
        None => None,
    }
}

/// The first complete line that has text once trimmed, and what follows it,
/// blank lines before it being dropped; without such a line, nothing and
/// what is left once the leading blank lines are dropped.
pub open spec fn next_text_line(buf: Seq<u8>) -> (Option<Seq<u8>>, Seq<u8>)
    decreases buf.len(),
{
    match split_line(buf) {
        Some((t, r)) => if t.len() != 0 {
            (Some(t), r)
        } else if r.len() < buf.len() {
            next_text_line(r)
        } else {
            (None, buf)
        },
        None => (None, buf),
    }
}

/// What the next frame of buffer `buf` is: the first line with text, trimmed
/// (it, its line feed and the blank lines before it are consumed); without
/// one, once the blank lines are consumed, what [`no_line_outcome`] says of
/// what is left.
pub open spec fn frame_outcome(buf: Seq<u8>, done: bool, f: Frame, after: Seq<u8>) -> bool {
    match next_text_line(buf) {
        (Some(t), r) => f matches Frame::Line(l) && l@ == t && after == r,
        (None, r) => no_line_outcome(r, done, f, after),
    }
}

/// Collects the chunks of an NDJSON body.
#[derive(Debug, Clone)]
pub struct NdJsonBuffer {
    /// Bytes received and not yet handed out.
    pub buf: Vec<u8>,
    /// Set when the body has ended.
    pub done: bool,
}

/// What the buffer can hand out next.
#[derive(Debug, Clone)]
pub enum Frame {
    /// A complete, non-empty line (trimmed), to be decoded.
    Line(Vec<u8>),
    /// The non-empty rest of an ended body (trimmed), to be decoded.
    Rest(Vec<u8>),
    /// The body has ended and nothing is left.
    End,
    /// More bytes are needed.
    NeedInput,
}

impl NdJsonBuffer {
    /// An empty buffer of a body that has not ended.
    pub fn new() -> (b: Self)
        ensures
            b.buf@.len() == 0,
            !b.done,
    {
        NdJsonBuffer { buf: Vec::new(), done: false }
    }

    /// Appends a chunk of the body.
    pub fn push_chunk(&mut self, chunk: &[u8])
        ensures
            final(self).buf@ == old(self).buf@ + chunk@,
            final(self).done == old(self).done,
    {
        let mut i: usize = 0;
        let ghost start = self.buf@;
        while i < chunk.len()
            invariant
                i <= chunk@.len(),
                self.buf@ == start + chunk@.subrange(0, i as int),
                self.done == old(self).done,
                start == old(self).buf@,
            decreases chunk@.len() - i,
        {
            self.buf.push(chunk[i]);
            i = i + 1;
            assert(self.buf@ =~= start + chunk@.subrange(0, i as int));
        }
        assert(chunk@.subrange(0, chunk@.len() as int) =~= chunk@);
    }

    /// Records that the body has ended.
    pub fn finish(&mut self)
        ensures
            final(self).buf == old(self).buf,
            final(self).done,
    {
        self.done = true;
    }

    /// Takes the first complete line out of the buffer. A line that is empty
    /// once trimmed is consumed and yields nothing; without a line feed the
    /// buffer is left as it is.
    pub fn take_line(&mut self) -> (line: Option<Vec<u8>>)
        ensures
            final(self).done == old(self).done,
            match first_newline(old(self).buf@) {
                None => final(self).buf == old(self).buf && line is None,
                Some(p) => {
                    &&& final(self).buf@ == old(self).buf@.subrange(p + 1, old(self).buf@.len() as int)
                    &&& ({
                        let t = trim_ascii(old(self).buf@.subrange(0, p));
                        if t.len() == 0 { line is None } else { line matches Some(l) && l@ == t }
                    })
                },
            },
    {
        let n = self.buf.len();
        let mut pos: usize = 0;
        while pos < n && self.buf[pos] != 0x0A
            invariant
                pos <= n,
                n == self.buf@.len(),
                self.buf == old(self).buf,
                self.done == old(self).done,
                forall|k: int| 0 <= k < pos ==> self.buf@[k] != 0x0A,
            decreases n - pos,
        {
            pos = pos + 1;
        }
        if pos == n {
            assert(!exists|i: int| 0 <= i < self.buf@.len() && self.buf@[i] == 0x0A);
            return None;
        }
        proof {
            let ghost s = self.buf@;
            assert(s[pos as int] == 0x0A);
            let c = choose|i: int| 0 <= i < s.len() && s[i] == 0x0A && forall|k: int| 0 <= k < i ==> s[k] != 0x0A;
            if c < pos { assert(s[c] != 0x0A); }
            if c > pos { assert(s[pos as int] != 0x0A); }
            assert(first_newline(s) == Some(pos as int));
        }
        let line = trimmed_range(&self.buf, 0, pos);
        let rest = copy_range(&self.buf, pos + 1, n);
        self.buf = rest;
        if line.len() == 0 {
            None
        } else {
            Some(line)
        }
    }

    /// What to do when no line was handed out: once the body has ended, the
    /// trimmed rest of the buffer (the buffer is emptied) or the end; before
    /// that, wait for more bytes.
    pub fn after_no_line(&mut self) -> (f: Frame)
        ensures
            final(self).done == old(self).done,
            no_line_outcome(old(self).buf@, old(self).done, f, final(self).buf@),
    {
        if !self.done {
            return Frame::NeedInput;
        }
        let n = self.buf.len();
        let t = trimmed_range(&self.buf, 0, n);
        assert(self.buf@.subrange(0, n as int) =~= self.buf@);
        if t.len() == 0 {
            Frame::End
        } else {
            self.buf.clear();
            Frame::Rest(t)
        }
    }

    /// The next frame: the first complete line with text if there is one
    /// (blank lines are skipped), otherwise what
    /// [`NdJsonBuffer::after_no_line`] gives for what is left.
    pub fn next_frame(&mut self) -> (f: Frame)
        ensures
            final(self).done == old(self).done,
            frame_outcome(old(self).buf@, old(self).done, f, final(self).buf@),
    {
        loop
            invariant
                self.done == old(self).done,
                next_text_line(self.buf@) == next_text_line(old(self).buf@),
            decreases self.buf@.len(),
        {
            let ghost before = self.buf@;
            let n = self.buf.len();
            proof { lemma_split_line_facts(before); }
            match self.take_line() {
                Some(l) => {
                    return Frame::Line(l);
                },
                None => {
                    if self.buf.len() == n {
                        assert(split_line(before) is None);
                        return self.after_no_line();
                    }
                },
            }
        }
    }
}

/// The message of a server error sent in a stream envelope.
pub open spec fn stream_error_message(status: Status) -> Seq<char> {
    "Streaming error from server: "@ + (match status.message {
        Some(msg) => msg@,
        None => "Unknown streaming error"@,
    })
}

/// What a line (or the rest of an ended body) stands for, given how it
/// decodes as a stream envelope (if it does) and as a plain object: the
/// envelope's error or result when it holds one; otherwise the plain object,
/// or the error of decoding it.
pub open spec fn line_item_ok(
    envelope: Option<StreamResult<StreamedListObjectsResponse>>,
    plain: Result<StreamedListObjectsResponse, serde_json::Error>,
    r: Result<StreamedListObjectsResponse, OpenFgaError>,
) -> bool {
    if envelope matches Some(env) && env.error is Some {
        r matches Err(OpenFgaError::Configuration(m)) && m@ == stream_error_message(envelope->0.error->0)
    } else if envelope matches Some(env) && env.result is Some {
        r == Ok::<StreamedListObjectsResponse, OpenFgaError>(envelope->0.result->0)
    } else {
        match plain {
            Ok(o) => r == Ok::<StreamedListObjectsResponse, OpenFgaError>(o),
            Err(x) => r == Err::<StreamedListObjectsResponse, OpenFgaError>(OpenFgaError::Json(x)),
        }
    }
}

/// The item of a line of the stream (or of the rest of an ended body),
/// given its decoding as a stream envelope, if it is one, and as a plain
/// object.
pub fn line_item(
    envelope: Option<StreamResult<StreamedListObjectsResponse>>,
    plain: Result<StreamedListObjectsResponse, serde_json::Error>,
) -> (r: Result<StreamedListObjectsResponse, OpenFgaError>)
    ensures
        line_item_ok(envelope, plain, r),
{
    match envelope {
        Some(env) => {
            match env.error {
                Some(err_status) => {
                    let mut msg = String::from_str("Streaming error from server: ");
                    match err_status.message {
                        Some(m) => msg.append(m.as_str()),
                        None => msg.append("Unknown streaming error"),
                    }
                    return Err(OpenFgaError::Configuration(msg));
                },
                None => {},
            }
            match env.result {
                Some(item) => {
                    return Ok(item);
                },
                None => {},
            }
        },
        None => {},
    }
    match plain {
        Ok(o) => Ok(o),
        Err(x) => Err(OpenFgaError::Json(x)),
    }
}

/// Bytes that arrive later do not change a line that is already complete:
/// the first line feed of a buffer stays the first once more bytes are
/// appended, so the line handed out is the same however the body was split
/// into chunks.
pub proof fn lemma_first_line_stable(buf: Seq<u8>, more: Seq<u8>)
    requires
        first_newline(buf) is Some,
    ensures
        first_newline(buf + more) == first_newline(buf),
{
    let j = choose|i: int| 0 <= i < buf.len() && buf[i] == 0x0A;
    lemma_first_newline_found(buf, j);
    let p = first_newline(buf)->0;
    let s = buf + more;
    assert(s[p] == 0x0A);
    assert(forall|k: int| 0 <= k < p ==> s[k] == buf[k]);
    assert(first_newline(s) == Some(p)) by {
        lemma_first_newline_found(s, p);
        let c = first_newline(s)->0;
        if c < p {
            assert(s[c] == buf[c]);
        }
        if c > p {
            assert(s[p] != 0x0A);
        }
    }
}

/// A buffer with a line feed at `j` has a first line feed, at or before `j`.
proof fn lemma_first_newline_found(s: Seq<u8>, j: int)
    requires
        0 <= j < s.len(),
        s[j] == 0x0A,
    ensures
        first_newline(s) matches Some(p) && 0 <= p <= j && s[p] == 0x0A
            && forall|k: int| 0 <= k < p ==> s[k] != 0x0A,
    decreases j,
{
    if exists|k: int| 0 <= k < j && s[k] == 0x0A {
        let k = choose|k: int| 0 <= k < j && s[k] == 0x0A;
        lemma_first_newline_found(s, k);
    } else {
        assert(exists|i: int| 0 <= i < s.len() && s[i] == 0x0A && forall|k: int| 0 <= k < i ==> s[k] != 0x0A);
    }
}



/// Where the first line feed of a buffer is, when there is one.
proof fn lemma_split_line_facts(buf: Seq<u8>)
    ensures
        first_newline(buf) matches Some(p) ==> 0 <= p < buf.len() && buf[p] == 0x0A
            && forall|k: int| 0 <= k < p ==> buf[k] != 0x0A,
        split_line(buf) matches Some((t, r)) ==> r.len() < buf.len(),
{
    if first_newline(buf) is Some {
        let j = choose|i: int| 0 <= i < buf.len() && buf[i] == 0x0A;
        lemma_first_newline_found(buf, j);
    }
}

/// Bytes appended after a complete line do not change it, and follow what
/// came after it.
proof fn lemma_split_line_stable(buf: Seq<u8>, more: Seq<u8>)
    requires
        split_line(buf) is Some,
    ensures
        split_line(buf + more) == Some(((split_line(buf)->0).0, (split_line(buf)->0).1 + more)),
{
    lemma_split_line_facts(buf);
    lemma_first_line_stable(buf, more);
    let p = first_newline(buf)->0;
    let s = buf + more;
    assert(s.subrange(0, p) =~= buf.subrange(0, p));
    assert(s.subrange(p + 1, s.len() as int) =~= buf.subrange(p + 1, buf.len() as int) + more);
}

/// Appending bytes to a buffer whose next line with text is complete keeps
/// that line and appends the bytes to what follows it.
proof fn lemma_text_line_stable(buf: Seq<u8>, more: Seq<u8>)
    requires
        next_text_line(buf).0 is Some,
    ensures
        next_text_line(buf + more) == (next_text_line(buf).0, next_text_line(buf).1 + more),
        next_text_line(buf).1.len() < buf.len(),
    decreases buf.len(),
{
    lemma_split_line_facts(buf);
    let (t, r) = split_line(buf)->0;
    lemma_split_line_stable(buf, more);
    lemma_split_line_facts(buf + more);
    if t.len() == 0 {
        lemma_text_line_stable(r, more);
    }
}

/// Without a complete line with text, the blank lines a buffer starts with
/// are dropped whatever bytes follow, and what is left has no line feed.
proof fn lemma_no_text_line(buf: Seq<u8>, more: Seq<u8>)
    requires
        next_text_line(buf).0 is None,
    ensures
        next_text_line(buf + more) == next_text_line(next_text_line(buf).1 + more),
        first_newline(next_text_line(buf).1) is None,
    decreases buf.len(),
{
    lemma_split_line_facts(buf);
    match split_line(buf) {
        Some((t, r)) => {
            lemma_split_line_stable(buf, more);
            lemma_split_line_facts(buf + more);
            lemma_no_text_line(r, more);
        },
        None => {},
    }
}

/// What is left after the next line with text (or after the blank lines)
/// is a suffix of the buffer.
proof fn lemma_text_line_suffix(buf: Seq<u8>)
    ensures
        exists|k: int| 0 <= k <= buf.len() && next_text_line(buf).1 == #[trigger] buf.subrange(k, buf.len() as int),
    decreases buf.len(),
{
    lemma_split_line_facts(buf);
    match split_line(buf) {
        Some((t, r)) => {
            let p = first_newline(buf)->0;
            if t.len() != 0 {
                assert(next_text_line(buf).1 == buf.subrange(p + 1, buf.len() as int));
            } else {
                lemma_text_line_suffix(r);
                let k = choose|k: int| 0 <= k <= r.len() && next_text_line(r).1 == #[trigger] r.subrange(k, r.len() as int);
                assert(r.subrange(k, r.len() as int) =~= buf.subrange(p + 1 + k, buf.len() as int));
            }
        },
        None => {
            assert(buf =~= buf.subrange(0, buf.len() as int));
        },
    }
}

/// Framing only ever consumes the buffer from the front: after any frame,
/// what is left is what followed the consumed bytes, so no byte is
/// reordered or invented.
pub proof fn lemma_frame_consumes_front(buf: Seq<u8>, done: bool, f: Frame, after: Seq<u8>)
    requires
        frame_outcome(buf, done, f, after),
    ensures
        exists|k: int| 0 <= k <= buf.len() && after == #[trigger] buf.subrange(k, buf.len() as int),
{
    lemma_text_line_suffix(buf);
    let r = next_text_line(buf).1;
    let k = choose|k: int| 0 <= k <= buf.len() && r == #[trigger] buf.subrange(k, buf.len() as int);
    if next_text_line(buf).0 is None && done && trim_ascii(r).len() != 0 {
        assert(after =~= buf.subrange(buf.len() as int, buf.len() as int));
    } else {
        assert(after == buf.subrange(k, buf.len() as int));
    }
}

/// The payloads a stream hands out, in order, from buffer `buf` (of a body
/// that has ended when `done`) when the body's remaining chunks are
/// `chunks`: the next line with text, frame by frame; when there is none,
/// the next chunk is appended (or, with no chunk left, the body ends); once
/// the body has ended, the trimmed rest if it has text, then nothing more.
pub open spec fn stream_items(buf: Seq<u8>, done: bool, chunks: Seq<Seq<u8>>) -> Seq<Seq<u8>>
    decreases chunks.len(), (if done { 0int } else { 1int }), buf.len(),
{
    match next_text_line(buf) {
        (Some(t), r) => if r.len() < buf.len() {
            seq![t] + stream_items(r, done, chunks)
        } else {
            seq![t]
        },
        (None, r) => if !done {
            if chunks.len() > 0 {
                stream_items(r + chunks[0], false, chunks.drop_first())
            } else {
                stream_items(r, true, chunks)
            }
        } else if trim_ascii(r).len() != 0 {
            seq![trim_ascii(r)]
        } else {
            Seq::<Seq<u8>>::empty()
        },
    }
}

/// The payloads of a whole body read at once after it ended.
pub open spec fn body_items(body: Seq<u8>) -> Seq<Seq<u8>> {
    stream_items(body, true, Seq::<Seq<u8>>::empty())
}

proof fn lemma_body_items_follow_text_line(x: Seq<u8>, y: Seq<u8>)
    requires
        next_text_line(x) == next_text_line(y),
    ensures
        body_items(x) == body_items(y),
{
    if next_text_line(x).0 is Some {
        lemma_text_line_stable(x, Seq::<u8>::empty());
        lemma_text_line_stable(y, Seq::<u8>::empty());
    }
}

/// However the body is split into chunks, the stream hands out the same
/// payloads: those of the whole body read at once after it ended.
pub proof fn lemma_stream_items_any_chunking(buf: Seq<u8>, chunks: Seq<Seq<u8>>)
    ensures
        stream_items(buf, false, chunks) == body_items(buf + chunks.flatten()),
    decreases chunks.len(), buf.len(),
{
    let f = chunks.flatten();
    let (l, r) = next_text_line(buf);
    if l is Some {
        lemma_text_line_stable(buf, f);
        lemma_stream_items_any_chunking(r, chunks);
        assert(next_text_line(buf + f) == (l, r + f));
        assert((r + f).len() < (buf + f).len());
        assert(stream_items(buf, false, chunks) == seq![l->0] + stream_items(r, false, chunks));
        assert(body_items(buf + f) == seq![l->0] + body_items(r + f));
    } else {
        lemma_no_text_line(buf, f);
        if chunks.len() > 0 {
            let c = chunks[0];
            let rest = chunks.drop_first();
            lemma_stream_items_any_chunking(r + c, rest);
            assert(f == c + rest.flatten());
            assert((r + c) + rest.flatten() =~= r + f);
            lemma_body_items_follow_text_line(buf + f, r + f);
            assert(stream_items(buf, false, chunks) == stream_items(r + c, false, rest));
        } else {
            assert(f =~= Seq::<u8>::empty());
            assert(buf + f =~= buf);
            lemma_no_text_line(r, Seq::<u8>::empty());
            assert(r + Seq::<u8>::empty() =~= r);
            assert(split_line(r) is None);
            assert(next_text_line(r) == (None::<Seq<u8>>, r));
            assert(stream_items(buf, false, chunks) == stream_items(r, true, chunks));
            assert(body_items(buf) == body_items(r));
        }
    }
}

/// Two ways of splitting the same body into chunks give the same payloads.
pub proof fn lemma_stream_same_for_every_chunking(a: Seq<Seq<u8>>, b: Seq<Seq<u8>>)
    requires
        a.flatten() == b.flatten(),
    ensures
        stream_items(Seq::<u8>::empty(), false, a) == stream_items(Seq::<u8>::empty(), false, b),
{
    lemma_stream_items_any_chunking(Seq::<u8>::empty(), a);
    lemma_stream_items_any_chunking(Seq::<u8>::empty(), b);
    assert(Seq::<u8>::empty() + a.flatten() =~= a.flatten());
    assert(Seq::<u8>::empty() + b.flatten() =~= b.flatten());
}

} // verus!
