//! The client layer: error taxonomy, endpoint addresses, the builders that
//! assemble an API call from a compiled prompt, and the streaming response
//! aggregator that reassembles server-sent events into a queryable
//! collection.

use std::io::Write;

use vstd::prelude::*;

use crate::text_api::common::{chars_to_string, spec_find_char, str_to_chars};
use crate::text_api::json::json_parsed;
use crate::text_api::request::{Request, RequestBuilder};
use crate::text_api::response::streaming::{
    spec_chunk_of, chunk_from_json, ChoiceView, ResponseChunk, ResponseChunkView,
};

verus! {

// ---------------------------------------------------------------------------
// Error taxonomy
// ---------------------------------------------------------------------------
/// A malformed template, or a fault while rendering it.
#[derive(Clone, Debug)]
pub struct TemplateError {
    pub message: String,
}

/// A lookup by a name that no prompt in the collection carries.
#[derive(Clone, Debug)]
pub struct PromptNotFound(pub String);

impl PromptNotFound {
    /// A human-readable account of the failure, the name in quotes.
    pub fn message(&self) -> (r: String)
        ensures
            r@ == "Cannot find prompt: \""@ + self.0@ + "\"."@,
    {
        let mut s = String::new();
        s.append("Cannot find prompt: \"");
        s.append(self.0.as_str());
        s.append("\".");
        proof {
            assert(s@ =~= "Cannot find prompt: \""@ + self.0@ + "\"."@);
        }
        s
    }
}

/// What compiling-then-looking-up a prompt can fail with.
#[derive(Clone, Debug)]
pub enum Error {
    Template(TemplateError),
    NotFound(PromptNotFound),
}

/// The stream-flag contract was violated: the batch path wants `false`, the
/// streaming path wants `true`.
#[derive(Clone, Copy, Debug, PartialEq, Eq, Structural)]
pub enum InvalidConfiguration {
    StreamFlag { should_be: bool, given: bool },
}

/// The text of a stream-flag violation.
pub open spec fn spec_stream_flag_text(should_be: bool, given: bool) -> Seq<char> {
    "Error: Invalid Configuration! Stream flag should be '"@ + (if should_be {
        "true"@
    } else {
        "false"@
    }) + "' given '"@ + (if given {
        "true"@
    } else {
        "false"@
    }) + "'."@
}

impl InvalidConfiguration {
    /// A human-readable account of the failure.
    pub fn message(&self) -> (r: String)
        ensures
            (*self) matches InvalidConfiguration::StreamFlag { should_be, given } ==> r@
                == spec_stream_flag_text(should_be, given),
    {
        match self {
            InvalidConfiguration::StreamFlag { should_be, given } => {
                let mut s = String::new();
                s.append("Error: Invalid Configuration! Stream flag should be '");
                s.append(if *should_be {
                    "true"
                } else {
                    "false"
                });
                s.append("' given '");
                s.append(if *given {
                    "true"
                } else {
                    "false"
                });
                s.append("'.");
                proof {
                    assert(s@ =~= spec_stream_flag_text(*should_be, *given));
                }
                s
            },
        }
    }
}

/// A non-2xx HTTP status, classified by code.
#[derive(Clone, Copy, Debug, PartialEq, Eq, Structural)]
pub enum ApiError {
    APIConnectionError,
    APITimeoutError,
    InternalServerError,
    /// 401
    AuthenticationError,
    /// 400
    BadRequestError,
    /// 409
    ConflictError,
    /// 404
    NotFoundError,
    /// 403
    PermissionDeniedError,
    /// 429
    RateLimitError,
    /// 422
    UnprocessableEntityError,
}

/// The fixed label of each classified error.
pub open spec fn spec_api_error_text(e: ApiError) -> Seq<char> {
    match e {
        ApiError::APIConnectionError => "API ERROR: api connection error."@,
        ApiError::APITimeoutError => "API ERROR: api timeout error."@,
        ApiError::InternalServerError => "API ERROR: internal server error."@,
        ApiError::AuthenticationError => "API ERROR: authentication error."@,
        ApiError::BadRequestError => "API ERROR: bad request error."@,
        ApiError::ConflictError => "API ERROR: conflict error."@,
        ApiError::NotFoundError => "API ERROR: not found error."@,
        ApiError::PermissionDeniedError => "API ERROR: permission denied error."@,
        ApiError::RateLimitError => "API ERROR: rate limit error."@,
        ApiError::UnprocessableEntityError => "API ERROR: unprocessable entity error."@,
    }
}

/// The status codes that map to a classified error.
pub open spec fn spec_api_error_of(status: u16) -> Option<ApiError> {
    if status == 400 {
        Some(ApiError::BadRequestError)
    } else if status == 401 {
        Some(ApiError::AuthenticationError)
    } else if status == 403 {
        Some(ApiError::PermissionDeniedError)
    } else if status == 404 {
        Some(ApiError::NotFoundError)
    } else if status == 409 {
        Some(ApiError::ConflictError)
    } else if status == 422 {
        Some(ApiError::UnprocessableEntityError)
    } else if status == 429 {
        Some(ApiError::RateLimitError)
    } else {
        None
    }
}

impl ApiError {
    /// Classifies an HTTP status code; unmapped codes pass through as `None`
    /// (no error is raised for them here).
    pub fn from_code(status: u16) -> (r: Option<ApiError>)
        ensures
            r == spec_api_error_of(status),
    {
        match status {
            400 => Some(ApiError::BadRequestError),
            401 => Some(ApiError::AuthenticationError),
            403 => Some(ApiError::PermissionDeniedError),
            404 => Some(ApiError::NotFoundError),
            409 => Some(ApiError::ConflictError),
            422 => Some(ApiError::UnprocessableEntityError),
            429 => Some(ApiError::RateLimitError),
            _ => None,
        }
    }

    /// A human-readable account of the failure.
    pub fn message(&self) -> (r: &'static str)
        ensures
            r@ == spec_api_error_text(*self),
    {
        match self {
            ApiError::APIConnectionError => "API ERROR: api connection error.",
            ApiError::APITimeoutError => "API ERROR: api timeout error.",
            ApiError::InternalServerError => "API ERROR: internal server error.",
            ApiError::AuthenticationError => "API ERROR: authentication error.",
            ApiError::BadRequestError => "API ERROR: bad request error.",
            ApiError::ConflictError => "API ERROR: conflict error.",
            ApiError::NotFoundError => "API ERROR: not found error.",
            ApiError::PermissionDeniedError => "API ERROR: permission denied error.",
            ApiError::RateLimitError => "API ERROR: rate limit error.",
            ApiError::UnprocessableEntityError => "API ERROR: unprocessable entity error.",
        }
    }
}

// ---------------------------------------------------------------------------
// Endpoints
// ---------------------------------------------------------------------------
/// A chat-completions endpoint address.
#[derive(Debug, Clone, Copy)]
pub struct URL(pub &'static str);

impl URL {
    pub fn open_ai_chat_completions() -> (r: URL)
        ensures
            r.0@ == "https://api.openai.com/v1/chat/completions"@,
    {
        URL("https://api.openai.com/v1/chat/completions")
    }

    pub fn octo_ai_chat_completions() -> (r: URL)
        ensures
            r.0@ == "https://text.octoai.run/v1/chat/completions"@,
    {
        URL("https://text.octoai.run/v1/chat/completions")
    }

    pub fn mistral_ai_chat_completions() -> (r: URL)
        ensures
            r.0@ == "https://api.mistral.ai/v1/chat/completions"@,
    {
        URL("https://api.mistral.ai/v1/chat/completions")
    }
}

// ---------------------------------------------------------------------------
// Stream framing and aggregation
// ---------------------------------------------------------------------------
/// A line with one trailing carriage return removed.
pub open spec fn strip_cr(l: Seq<char>) -> Seq<char> {
    if l.len() > 0 && l[l.len() - 1] == '\r' {
        l.drop_last()
    } else {
        l
    }
}

/// The lines of a text: split at newlines, each stripped of one trailing
/// carriage return; a final line ending yields no extra empty line.
pub open spec fn spec_lines(s: Seq<char>) -> Seq<Seq<char>>
    decreases s.len(),
    via spec_lines_dec
{
    if s.len() == 0 {
        Seq::empty()
    } else {
        match spec_find_char(s, '\n', 0) {
            None => seq![strip_cr(s)],
            Some(j) => seq![strip_cr(s.subrange(0, j))] + spec_lines(s.skip(j + 1)),
        }
    }
}

#[via_fn]
proof fn spec_lines_dec(s: Seq<char>) {
    crate::text_api::common::lemma_find_char(s, '\n', 0);
}

/// The chunk carried by one line: the line must bear the event prefix and the
/// rest must parse as a well-formed chunk; anything else is framing noise and
/// carries nothing.
pub open spec fn spec_line_chunk(line: Seq<char>) -> Option<ResponseChunkView> {
    if line.len() >= 6 && line.subrange(0, 6) == "data: "@ {
        match json_parsed(line.skip(6)) {
            None => None,
            Some(j) => spec_chunk_of(j),
        }
    } else {
        None
    }
}

/// The chunks carried by the lines from `i` on, in order.
pub open spec fn spec_chunks_of_lines(lines: Seq<Seq<char>>, i: int) -> Seq<ResponseChunkView>
    decreases lines.len() - i,
{
    if !(0 <= i < lines.len()) {
        Seq::empty()
    } else {
        match spec_line_chunk(lines[i]) {
            None => spec_chunks_of_lines(lines, i + 1),
            Some(c) => seq![c] + spec_chunks_of_lines(lines, i + 1),
        }
    }
}

/// The chunks carried by one buffer's text.
pub open spec fn spec_extract(text: Seq<char>) -> Seq<ResponseChunkView> {
    spec_chunks_of_lines(spec_lines(text), 0)
}

/// A line that does not carry a chunk changes nothing: inserting it between
/// two line runs leaves the extracted chunks exactly as they were.
pub proof fn lemma_noise_line_ignored(a: Seq<Seq<char>>, noise: Seq<char>, b: Seq<Seq<char>>)
    requires
        spec_line_chunk(noise) is None,
    ensures
        spec_chunks_of_lines(a + seq![noise] + b, 0) == spec_chunks_of_lines(a + b, 0),
    decreases a.len(),
{
    if a.len() == 0 {
        assert(a + seq![noise] + b =~= seq![noise] + b);
        assert((seq![noise] + b)[0] == noise);
        assert(a + b =~= b);
        assert((seq![noise] + b).subrange(1, (seq![noise] + b).len() as int) =~= b);
        lemma_chunks_of_lines_shift(seq![noise] + b, b);
    } else {
        let t = a.drop_first();
        lemma_noise_line_ignored(t, noise, b);
        let full = a + seq![noise] + b;
        let short = a + b;
        assert(full[0] == a[0]);
        assert(short[0] == a[0]);
        assert(full.subrange(1, full.len() as int) =~= t + seq![noise] + b);
        assert(short.subrange(1, short.len() as int) =~= t + b);
        lemma_chunks_of_lines_shift(full, t + seq![noise] + b);
        lemma_chunks_of_lines_shift(short, t + b);
        match spec_line_chunk(a[0]) {
            None => {},
            Some(c) => {},
        }
    }
}

/// Scanning from the head of a line run equals the head's contribution
/// followed by a scan of the tail.
pub proof fn lemma_chunks_of_lines_shift(lines: Seq<Seq<char>>, tail: Seq<Seq<char>>)
    requires
        lines.len() > 0,
        tail == lines.subrange(1, lines.len() as int),
    ensures
        spec_chunks_of_lines(lines, 0) == (match spec_line_chunk(lines[0]) {
            None => spec_chunks_of_lines(tail, 0),
            Some(c) => seq![c] + spec_chunks_of_lines(tail, 0),
        }),
{
    lemma_chunks_of_lines_index(lines, 1, tail);
}

/// Scanning `lines` from `i` equals scanning the suffix from its start.
pub proof fn lemma_chunks_of_lines_index(lines: Seq<Seq<char>>, i: int, suffix: Seq<Seq<char>>)
    requires
        0 <= i <= lines.len(),
        suffix == lines.subrange(i, lines.len() as int),
    ensures
        spec_chunks_of_lines(lines, i) == spec_chunks_of_lines(suffix, 0),
    decreases lines.len() - i,
{
    if i < lines.len() {
        assert(suffix[0] == lines[i]);
        lemma_chunks_of_lines_index(lines, i + 1, lines.subrange(i + 1, lines.len() as int));
        assert(suffix.subrange(1, suffix.len() as int) =~= lines.subrange(
            i + 1,
            lines.len() as int,
        ));
        lemma_chunks_of_lines_index(suffix, 1, suffix.subrange(1, suffix.len() as int));
    } else {
        assert(suffix =~= Seq::<Seq<char>>::empty());
    }
}

/// The lines of a text, executable form.
fn lines_exec(s: &Vec<char>) -> (r: Vec<Vec<char>>)
    ensures
        r@.map_values(|l: Vec<char>| l@) == spec_lines(s@),
    decreases s@.len(),
{
    proof {
        crate::text_api::common::lemma_find_char(s@, '\n', 0);
    }
    let n = s.len();
    if n == 0 {
        let r: Vec<Vec<char>> = Vec::new();
        proof {
            assert(r@.map_values(|l: Vec<char>| l@) =~= spec_lines(s@));
        }
        return r;
    }
    let (head_end, rest_start): (usize, Option<usize>) = match crate::text_api::common::find_char(
        s,
        '\n',
        0,
    ) {
        None => (n, None),
        Some(j) => (j, Some(j + 1)),
    };
    let head_end = if head_end > 0 && s[head_end - 1] == '\r' {
        head_end - 1
    } else {
        head_end
    };
    let head = crate::text_api::common::copy_range(s, 0, head_end);
    match rest_start {
        None => {
            let mut r: Vec<Vec<char>> = Vec::new();
            proof {
                assert(head@ =~= strip_cr(s@));
            }
            r.push(head);
            proof {
                assert(r@.map_values(|l: Vec<char>| l@) =~= spec_lines(s@));
            }
            r
        },
        Some(start) => {
            let restv = crate::text_api::common::copy_range(s, start, n);
            proof {
                assert(restv@ =~= s@.skip(start as int));
                assert(head@ =~= strip_cr(s@.subrange(0, start - 1 as int)));
            }
            let mut tail = lines_exec(&restv);
            let mut r: Vec<Vec<char>> = Vec::new();
            r.push(head);
            let ghost head_snap = r@;
            let ghost tail_snap = tail@;
            r.append(&mut tail);
            proof {
                let f = |l: Vec<char>| l@;
                let lhs = r@.map_values(f);
                let rhs = spec_lines(s@);
                assert forall|q: int| 0 <= q < lhs.len() implies lhs[q] == rhs[q] by {
                    if q > 0 {
                        assert(r@[q] == tail_snap[q - 1]);
                        assert(tail_snap.map_values(f)[q - 1] == tail_snap[q - 1]@);
                    }
                }
                assert(lhs =~= rhs);
            }
            r
        },
    }
}

/// The chunks carried by the lines from `i` on, executable form.
fn chunks_of_lines(lines: &Vec<Vec<char>>, i: usize) -> (r: Vec<ResponseChunk>)
    requires
        i <= lines@.len(),
    ensures
        r@.map_values(|c: ResponseChunk| c@) == spec_chunks_of_lines(
            lines@.map_values(|l: Vec<char>| l@),
            i as int,
        ),
    decreases lines@.len() - i,
{
    let ghost glines = lines@.map_values(|l: Vec<char>| l@);
    if i >= lines.len() {
        let r: Vec<ResponseChunk> = Vec::new();
        proof {
            assert(r@.map_values(|c: ResponseChunk| c@) =~= spec_chunks_of_lines(
                glines,
                i as int,
            ));
        }
        return r;
    }
    proof {
        assert(glines[i as int] == lines@[i as int]@);
    }
    let line = &lines[i];
    let prefix = str_to_chars("data: ");
    proof {
        reveal_strlit("data: ");
    }
    let head: Option<ResponseChunk> = if line.len() >= 6 {
        let front = crate::text_api::common::copy_range(line, 0, 6);
        if crate::text_api::common::eq_chars(&front, &prefix) {
            let rest = crate::text_api::common::copy_range(line, 6, line.len());
            proof {
                assert(rest@ =~= line@.skip(6));
            }
            let body = chars_to_string(&rest);
            match crate::text_api::json::parse_json(body.as_str()) {
                None => None,
                Some(j) => chunk_from_json(&j),
            }
        } else {
            None
        }
    } else {
        None
    };
    match &head {
        Some(c) => {
            proof {
                assert(spec_line_chunk(glines[i as int]) == Some(c@));
            }
        },
        None => {
            proof {
                assert(spec_line_chunk(glines[i as int]) is None);
            }
        },
    }
    let mut rest_chunks = chunks_of_lines(lines, i + 1);
    match head {
        None => rest_chunks,
        Some(c) => {
            let ghost c_view = c@;
            let ghost rest_snap = rest_chunks@;
            let mut out: Vec<ResponseChunk> = Vec::new();
            out.push(c);
            out.append(&mut rest_chunks);
            proof {
                let f = |x: ResponseChunk| x@;
                assert forall|q: int| 0 <= q < out@.len() implies out@.map_values(f)[q] == (
                seq![c_view] + rest_snap.map_values(f))[q] by {
                    if q > 0 {
                        assert(out@[q] == rest_snap[q - 1]);
                    }
                }
                assert(out@.map_values(f) =~= seq![c_view] + rest_snap.map_values(f));
            }
            out
        },
    }
}

/// The chunks carried by one buffer's text: the lines with the event prefix
/// whose payload parses as a well-formed chunk, in order; everything else is
/// discarded as framing noise.
pub fn extract_chunks(text: &str) -> (r: Vec<ResponseChunk>)
    ensures
        r@.map_values(|c: ResponseChunk| c@) == spec_extract(text@),
{
    let chars = str_to_chars(text);
    let lines = lines_exec(&chars);
    chunks_of_lines(&lines, 0)
}

/// What the observer is shown for one chunk: the concatenation of the deltas'
/// contents across its choices, from `i` on.
pub open spec fn spec_contents_from(cs: Seq<ChoiceView>, i: int) -> Seq<char>
    decreases cs.len() - i,
{
    if !(0 <= i < cs.len()) {
        Seq::empty()
    } else {
        (match cs[i].delta.content {
            Some(t) => t,
            None => Seq::empty(),
        }) + spec_contents_from(cs, i + 1)
    }
}

/// What the observer is shown for one chunk.
pub open spec fn spec_observer_text(c: ResponseChunkView) -> Seq<char> {
    spec_contents_from(c.choices, 0)
}

/// The observer's incremental text for one chunk, executable form.
pub fn chunk_observer_text(c: &ResponseChunk) -> (r: String)
    ensures
        r@ == spec_observer_text(c@),
{
    let ghost gchoices = c@.choices;
    let mut acc: Vec<char> = Vec::new();
    let n = c.choices.len();
    proof {
        assert(gchoices.len() == n);
    }
    let mut i: usize = 0;
    while i < n
        invariant
            0 <= i <= n == c.choices@.len(),
            gchoices == c@.choices,
            gchoices.len() == n,
            spec_contents_from(gchoices, 0) == acc@ + spec_contents_from(gchoices, i as int),
        decreases n - i,
    {
        proof {
            assert(gchoices[i as int] == c.choices@[i as int]@);
        }
        match &c.choices[i].delta.content {
            Some(t) => {
                let tc = str_to_chars(t.as_str());
                let ghost acc_snap = acc@;
                let mut k: usize = 0;
                while k < tc.len()
                    invariant
                        0 <= k <= tc@.len(),
                        acc@ == acc_snap + tc@.subrange(0, k as int),
                    decreases tc@.len() - k,
                {
                    acc.push(tc[k]);
                    proof {
                        assert(acc@ =~= acc_snap + tc@.subrange(0, k + 1 as int));
                    }
                    k = k + 1;
                }
                proof {
                    assert(tc@.subrange(0, tc@.len() as int) =~= tc@);
                    assert(acc@ =~= acc_snap + tc@);
                    assert(spec_contents_from(gchoices, 0) =~= acc@ + spec_contents_from(
                        gchoices,
                        i + 1 as int,
                    ));
                }
            },
            None => {
                proof {
                    assert(spec_contents_from(gchoices, 0) =~= acc@ + spec_contents_from(
                        gchoices,
                        i + 1 as int,
                    ));
                }
            },
        }
        i = i + 1;
    }
    proof {
        assert(spec_contents_from(gchoices, i as int) =~= Seq::<char>::empty());
        assert(acc@ =~= spec_observer_text(c@));
    }
    chars_to_string(&acc)
}

// ---------------------------------------------------------------------------
// The chunk collection
// ---------------------------------------------------------------------------
/// Every chunk received during one streaming session, in arrival order.
#[derive(Debug, Clone)]
pub struct ResponseChunkCollection(pub Vec<ResponseChunk>);

impl View for ResponseChunkCollection {
    type V = Seq<ResponseChunkView>;

    open spec fn view(&self) -> Seq<ResponseChunkView> {
        self.0@.map_values(|c: ResponseChunk| c@)
    }
}

/// The fragments one chunk carries for the logical slot `idx`: its choices
/// with that index, in order, each contributing its delta content.
pub open spec fn spec_slot_in_choices(cs: Seq<ChoiceView>, idx: int, i: int) -> Seq<char>
    decreases cs.len() - i,
{
    if !(0 <= i < cs.len()) {
        Seq::empty()
    } else {
        (if cs[i].index == idx {
            match cs[i].delta.content {
                Some(t) => t,
                None => Seq::empty(),
            }
        } else {
            Seq::empty()
        }) + spec_slot_in_choices(cs, idx, i + 1)
    }
}

/// The joined content for slot `idx` across the chunks from `i` on, in
/// arrival order.
pub open spec fn spec_slot_text(chunks: Seq<ResponseChunkView>, idx: int, i: int) -> Seq<char>
    decreases chunks.len() - i,
{
    if !(0 <= i < chunks.len()) {
        Seq::empty()
    } else {
        spec_slot_in_choices(chunks[i].choices, idx, 0) + spec_slot_text(chunks, idx, i + 1)
    }
}

/// Whether any chunk carries non-empty content for slot `idx` among the
/// choices from `i` on.
pub open spec fn spec_slot_has_content_choices(cs: Seq<ChoiceView>, idx: int, i: int) -> bool
    decreases cs.len() - i,
{
    if !(0 <= i < cs.len()) {
        false
    } else {
        (cs[i].index == idx && (match cs[i].delta.content {
            Some(t) => t.len() > 0,
            None => false,
        })) || spec_slot_has_content_choices(cs, idx, i + 1)
    }
}

pub open spec fn spec_slot_has_content(chunks: Seq<ResponseChunkView>, idx: int, i: int) -> bool
    decreases chunks.len() - i,
{
    if !(0 <= i < chunks.len()) {
        false
    } else {
        spec_slot_has_content_choices(chunks[i].choices, idx, 0) || spec_slot_has_content(
            chunks,
            idx,
            i + 1,
        )
    }
}

impl ResponseChunkCollection {
    /// The reconstructed text of one logical output slot: `None` when no
    /// chunk ever carried non-empty content for that index, else the ordered
    /// join of every fragment the stream delivered for it.
    pub fn content(&self, index: usize) -> (r: Option<String>)
        ensures
            spec_slot_has_content(self@, index as int, 0) ==> (r matches Some(t) && t@
                == spec_slot_text(self@, index as int, 0)),
            !spec_slot_has_content(self@, index as int, 0) ==> r is None,
    {
        let ghost gchunks = self@;
        let mut acc: Vec<char> = Vec::new();
        let mut found: bool = false;
        let n = self.0.len();
        let mut i: usize = 0;
        while i < n
            invariant
                0 <= i <= n == self.0@.len(),
                gchunks == self@,
                gchunks.len() == n,
                spec_slot_text(gchunks, index as int, 0) == acc@ + spec_slot_text(
                    gchunks,
                    index as int,
                    i as int,
                ),
                found == spec_slot_has_content(gchunks, index as int, 0) || (!found
                    && spec_slot_has_content(gchunks, index as int, 0)
                    == spec_slot_has_content(gchunks, index as int, i as int)),
                !found ==> spec_slot_has_content(gchunks, index as int, 0)
                    == spec_slot_has_content(gchunks, index as int, i as int),
                found ==> spec_slot_has_content(gchunks, index as int, 0),
            decreases n - i,
        {
            proof {
                assert(gchunks[i as int] == self.0@[i as int]@);
            }
            let chunk = &self.0[i];
            let ghost gchoices = chunk@.choices;
            let m = chunk.choices.len();
            let ghost acc_outer = acc@;
            let ghost found_outer = found;
            let mut k: usize = 0;
            while k < m
                invariant
                    0 <= k <= m == chunk.choices@.len(),
                    gchoices == chunk@.choices,
                    gchoices.len() == m,
                    acc@.len() >= acc_outer.len(),
                    acc@.subrange(0, acc_outer.len() as int) == acc_outer,
                    spec_slot_in_choices(gchoices, index as int, 0) == acc@.skip(
                        acc_outer.len() as int,
                    ) + spec_slot_in_choices(gchoices, index as int, k as int),
                    !found ==> !found_outer && spec_slot_has_content_choices(
                        gchoices,
                        index as int,
                        0,
                    ) == spec_slot_has_content_choices(gchoices, index as int, k as int),
                    found ==> found_outer || spec_slot_has_content_choices(
                        gchoices,
                        index as int,
                        0,
                    ),
                decreases m - k,
            {
                proof {
                    assert(gchoices[k as int] == chunk.choices@[k as int]@);
                }
                let choice = &chunk.choices[k];
                let is_slot: bool = if (index as u64) <= 0x7fffffffffffffffu64 {
                    choice.index == index as i64
                } else {
                    false
                };
                proof {
                    assert(is_slot == (gchoices[k as int].index == index as int));
                }
                if is_slot {
                    match &choice.delta.content {
                        Some(t) => {
                            if t.as_str().unicode_len() > 0 {
                                found = true;
                            }
                            let tc = str_to_chars(t.as_str());
                            let ghost acc_snap = acc@;
                            let mut q: usize = 0;
                            while q < tc.len()
                                invariant
                                    0 <= q <= tc@.len(),
                                    acc@ == acc_snap + tc@.subrange(0, q as int),
                                decreases tc@.len() - q,
                            {
                                acc.push(tc[q]);
                                proof {
                                    assert(acc@ =~= acc_snap + tc@.subrange(0, q + 1 as int));
                                }
                                q = q + 1;
                            }
                            proof {
                                assert(tc@.subrange(0, tc@.len() as int) =~= tc@);
                                assert(t@.len() > 0 ==> spec_slot_has_content_choices(
                                    gchoices,
                                    index as int,
                                    k as int,
                                ));
                                assert(acc@.skip(acc_outer.len() as int) =~= acc_snap.skip(
                                    acc_outer.len() as int,
                                ) + tc@);
                                assert(spec_slot_in_choices(gchoices, index as int, 0) == acc@.skip(
                                    acc_outer.len() as int,
                                ) + spec_slot_in_choices(gchoices, index as int, k + 1 as int));
                                assert(acc@.subrange(0, acc_outer.len() as int) =~= acc_outer);
                            }
                        },
                        None => {
                            proof {
                                assert(spec_slot_in_choices(gchoices, index as int, 0) == acc@.skip(
                                    acc_outer.len() as int,
                                ) + spec_slot_in_choices(gchoices, index as int, k + 1 as int));
                            }
                        },
                    }
                } else {
                    proof {
                        assert(spec_slot_in_choices(gchoices, index as int, 0) == acc@.skip(
                            acc_outer.len() as int,
                        ) + spec_slot_in_choices(gchoices, index as int, k + 1 as int));
                    }
                }
                k = k + 1;
            }
            proof {
                assert(spec_slot_in_choices(gchoices, index as int, k as int)
                    =~= Seq::<char>::empty());
                assert(acc@.skip(acc_outer.len() as int) =~= spec_slot_in_choices(
                    gchoices,
                    index as int,
                    0,
                ));
                assert(acc@ =~= acc_outer + spec_slot_in_choices(gchoices, index as int, 0));
                assert(spec_slot_text(gchunks, index as int, i as int) == spec_slot_in_choices(
                    gchoices,
                    index as int,
                    0,
                ) + spec_slot_text(gchunks, index as int, i + 1 as int));
                assert(spec_slot_text(gchunks, index as int, 0) =~= acc@ + spec_slot_text(
                    gchunks,
                    index as int,
                    i + 1 as int,
                ));
            }
            i = i + 1;
        }
        proof {
            assert(spec_slot_text(gchunks, index as int, i as int) =~= Seq::<char>::empty());
            assert(spec_slot_has_content(gchunks, index as int, i as int) == false);
            assert(acc@ =~= spec_slot_text(gchunks, index as int, 0));
        }
        if found {
            Some(chars_to_string(&acc))
        } else {
            None
        }
    }
}

// ---------------------------------------------------------------------------
// The streaming session
// ---------------------------------------------------------------------------
/// What decoding a byte buffer as text yields; invalid sequences are replaced,
/// never fatal. The result is a function of the bytes alone.
pub uninterp spec fn lossy_text_of(b: Seq<u8>) -> Seq<char>;

/// Relies on String::from_utf8_lossy: decodes bytes as UTF-8, replacing
/// invalid sequences with the replacement character.
#[verifier::external_body]
fn lossy_decode(data: &Vec<u8>) -> (r: String)
    ensures
        r@ == lossy_text_of(data@),
{
    String::from_utf8_lossy(data.as_slice()).to_string()
}

/// The streaming aggregator: consumes the transport's byte buffers strictly
/// in arrival order, extracts the chunks each carries, and accumulates them.
/// It exists only for a request whose stream flag is set, checked before any
/// stream data is consumed.
pub struct StreamingSession {
    chunks: Vec<ResponseChunk>,
}

impl View for StreamingSession {
    type V = Seq<ResponseChunkView>;

    closed spec fn view(&self) -> Seq<ResponseChunkView> {
        self.chunks@.map_values(|c: ResponseChunk| c@)
    }
}

impl StreamingSession {
    /// Opens a session for a request. A request whose stream flag is not
    /// `true` is refused before any stream data is consumed.
    pub fn new(request: &Request) -> (r: Result<StreamingSession, InvalidConfiguration>)
        ensures
            request.stream == Some(true) ==> (r matches Ok(s) && s@ == Seq::<
                ResponseChunkView,
            >::empty()),
            request.stream != Some(true) ==> r == Err::<StreamingSession, _>(
                InvalidConfiguration::StreamFlag { should_be: true, given: false },
            ),
    {
        let streaming = match request.stream {
            Some(b) => b,
            None => false,
        };
        if !streaming {
            return Err(InvalidConfiguration::StreamFlag { should_be: true, given: false });
        }
        let s = StreamingSession { chunks: Vec::new() };
        proof {
            assert(s@ =~= Seq::<ResponseChunkView>::empty());
        }
        Ok(s)
    }

    /// Consumes one buffer of stream text: appends every chunk it carries, in
    /// order, and returns the observer's incremental text for each appended
    /// chunk, in the same order.
    pub fn push_text(&mut self, text: &str) -> (msgs: Vec<String>)
        ensures
            final(self)@ == old(self)@ + spec_extract(text@),
            msgs@.len() == spec_extract(text@).len(),
            forall|k: int|
                0 <= k < msgs@.len() ==> msgs@[k]@ == spec_observer_text(spec_extract(text@)[k]),
    {
        let mut fresh = extract_chunks(text);
        let ghost fresh_snap = fresh@;
        let ghost old_snap = self.chunks@;
        let mut msgs: Vec<String> = Vec::new();
        let n = fresh.len();
        let mut i: usize = 0;
        while i < n
            invariant
                0 <= i <= n == fresh@.len(),
                fresh@ == fresh_snap,
                fresh@.map_values(|c: ResponseChunk| c@) == spec_extract(text@),
                msgs@.len() == i,
                forall|k: int|
                    0 <= k < i ==> msgs@[k]@ == spec_observer_text(
                        fresh@.map_values(|c: ResponseChunk| c@)[k],
                    ),
            decreases n - i,
        {
            let m = chunk_observer_text(&fresh[i]);
            proof {
                assert(fresh@.map_values(|c: ResponseChunk| c@)[i as int] == fresh@[i as int]@);
            }
            msgs.push(m);
            i = i + 1;
        }
        self.chunks.append(&mut fresh);
        proof {
            let f = |c: ResponseChunk| c@;
            assert(self.chunks@ == old_snap + fresh_snap);
            assert forall|k: int| 0 <= k < self.chunks@.len() implies self.chunks@.map_values(f)[k]
                == (old_snap.map_values(f) + fresh_snap.map_values(f))[k] by {
                if k < old_snap.len() {
                    assert(self.chunks@[k] == old_snap[k]);
                } else {
                    assert(self.chunks@[k] == fresh_snap[k - old_snap.len()]);
                }
            }
            assert(self.chunks@.map_values(f) =~= old_snap.map_values(f) + fresh_snap.map_values(
                f,
            ));
        }
        msgs
    }

    /// Consumes one byte buffer from the transport: decodes it as text, with
    /// invalid sequences replaced, then processes its lines.
    pub fn push_buffer(&mut self, data: &Vec<u8>) -> (msgs: Vec<String>)
        ensures
            final(self)@ == old(self)@ + spec_extract(lossy_text_of(data@)),
            msgs@.len() == spec_extract(lossy_text_of(data@)).len(),
            forall|k: int|
                0 <= k < msgs@.len() ==> msgs@[k]@ == spec_observer_text(
                    spec_extract(lossy_text_of(data@))[k],
                ),
    {
        let text = lossy_decode(data);
        self.push_text(text.as_str())
    }

    /// Ends the session: the caller owns the collection exclusively from here
    /// on. The observer is conventionally shown one final newline, which is
    /// the caller's output concern, not the collection's.
    pub fn finish(self) -> (r: ResponseChunkCollection)
        ensures
            r@ == self@,
    {
        ResponseChunkCollection(self.chunks)
    }
}

// ---------------------------------------------------------------------------
// Observers
// ---------------------------------------------------------------------------
/// The observer driven once per chunk with its incremental text: a console
/// writer, a file writer, a no-op — anything the caller supplies. It must not
/// block indefinitely, since it gates the stream's forward progress.
pub trait Logger {
    fn log(&self, msg: &str);
}

/// Relies on the write! macro over std::io::Stdout: prints the text as-is.
#[verifier::external_body]
fn write_stdout(msg: &str) {
    let _ = write!(std::io::stdout(), "{}", msg);
}

/// Relies on colored's truecolor decoration and the write! macro: prints the
/// text tinted gray.
#[verifier::external_body]
fn write_stdout_tinted(msg: &str) {
    let tinted = colored::Colorize::truecolor(msg, 197, 191, 201);
    let _ = write!(std::io::stdout(), "{}", tinted);
}

/// The console observer.
#[derive(Debug, Clone)]
pub struct StdOutLogger {
    pub colorize: bool,
}

impl StdOutLogger {
    pub fn new() -> (r: StdOutLogger)
        ensures
            r.colorize == true,
    {
        StdOutLogger { colorize: true }
    }
}

impl Default for StdOutLogger {
    fn default() -> (r: StdOutLogger)
        ensures
            r.colorize == true,
    {
        StdOutLogger { colorize: true }
    }
}

impl Logger for StdOutLogger {
    fn log(&self, msg: &str) {
        if self.colorize {
            write_stdout_tinted(msg);
        } else {
            write_stdout(msg);
        }
    }
}

// ---------------------------------------------------------------------------
// The API-call builders
// ---------------------------------------------------------------------------
/// One server-sent event, as raw message text.
#[derive(Debug, Clone)]
pub struct ServerSentEvent {
    pub message: String,
}

/// The assembled ingredients of one API call: where to send it, how to
/// authenticate, what to send, and who watches the stream.
pub struct IApiCall {
    pub api_url: URL,
    pub api_key: String,
    pub request_body: Request,
    pub timeout: Option<u64>,
    pub logger: Option<Box<dyn Logger>>,
}

/// Accumulates the ingredients of an API call; `build_batch_api_call` or
/// `build_streaming_api_call` validates them. The timeout is a duration bound
/// in milliseconds, applied by the transport.
pub struct ApiCallBuilder {
    pub api_url: Option<URL>,
    pub api_key: Option<String>,
    pub request_body: Option<RequestBuilder>,
    pub timeout: Option<u64>,
    pub logger: Option<Box<dyn Logger>>,
}

impl Default for ApiCallBuilder {
    fn default() -> (r: ApiCallBuilder)
        ensures
            r.api_url is None,
            r.api_key is None,
            r.request_body is None,
            r.timeout is None,
            r.logger is None,
    {
        ApiCallBuilder {
            api_url: None,
            api_key: None,
            request_body: None,
            timeout: None,
            logger: None,
        }
    }
}

impl ApiCallBuilder {
    pub fn with_api_url(self, api_url: URL) -> (r: ApiCallBuilder)
        ensures
            r.api_url == Some(api_url),
            r.api_key == self.api_key,
            r.request_body == self.request_body,
            r.timeout == self.timeout,
            r.logger is Some == self.logger is Some,
    {
        ApiCallBuilder { api_url: Some(api_url), ..self }
    }

    pub fn with_api_key(self, api_key: String) -> (r: ApiCallBuilder)
        ensures
            r.api_key == Some(api_key),
            r.api_url == self.api_url,
            r.request_body == self.request_body,
            r.timeout == self.timeout,
            r.logger is Some == self.logger is Some,
    {
        ApiCallBuilder { api_key: Some(api_key), ..self }
    }

    pub fn with_request_body(self, request_body: RequestBuilder) -> (r: ApiCallBuilder)
        ensures
            r.request_body matches Some(b) && b@ == request_body@,
            r.api_url == self.api_url,
            r.api_key == self.api_key,
            r.timeout == self.timeout,
            r.logger is Some == self.logger is Some,
    {
        ApiCallBuilder { request_body: Some(request_body), ..self }
    }

    /// The timeout, as milliseconds of overall duration.
    pub fn with_timeout(self, timeout: u64) -> (r: ApiCallBuilder)
        ensures
            r.timeout == Some(timeout),
            r.api_url == self.api_url,
            r.api_key == self.api_key,
            r.request_body == self.request_body,
            r.logger is Some == self.logger is Some,
    {
        ApiCallBuilder { timeout: Some(timeout), ..self }
    }

    pub fn with_logger<L: Logger + 'static>(self, logger: L) -> (r: ApiCallBuilder)
        ensures
            r.logger is Some,
            r.api_url == self.api_url,
            r.api_key == self.api_key,
            r.request_body == self.request_body,
            r.timeout == self.timeout,
    {
        let boxed: Box<dyn Logger> = Box::new(logger);
        ApiCallBuilder { logger: Some(boxed), ..self }
    }

    /// Whether the ingredients are complete: address, key, and a draft that
    /// finalizes.
    pub open spec fn complete(self) -> bool {
        &&& self.api_url is Some
        &&& self.api_key is Some
        &&& self.request_body matches Some(b) && b@.model is Some && b@.messages.len() > 0
    }

    fn build(self) -> (r: Option<IApiCall>)
        ensures
            self.complete() ==> (r matches Some(c) && c.api_url == self.api_url->0 && c.api_key
                == self.api_key->0 && c.request_body@ == crate::text_api::request::spec_finalize(
                self.request_body->0@,
            ) && c.timeout == self.timeout && (c.logger is Some == self.logger is Some)),
            !self.complete() ==> r is None,
    {
        let api_url = match self.api_url {
            Some(u) => u,
            None => {
                return None;
            },
        };
        let api_key = match self.api_key {
            Some(k) => k,
            None => {
                return None;
            },
        };
        let request_body = match self.request_body {
            Some(b) => match b.build() {
                Ok(req) => req,
                Err(_) => {
                    return None;
                },
            },
            None => {
                return None;
            },
        };
        Some(IApiCall { api_url, api_key, request_body, timeout: self.timeout, logger: self.logger })
    }

    /// Validates the ingredients into a batch call.
    pub fn build_batch_api_call(self) -> (r: Option<BatchApiCall>)
        ensures
            self.complete() ==> (r matches Some(c) && c.client.api_url == self.api_url->0
                && c.client.api_key == self.api_key->0 && c.client.request_body@
                == crate::text_api::request::spec_finalize(self.request_body->0@)
                && c.client.timeout == self.timeout && (c.client.logger is Some == self.logger
                is Some)),
            !self.complete() ==> r is None,
    {
        match self.build() {
            Some(client) => Some(BatchApiCall { client }),
            None => None,
        }
    }

    /// Validates the ingredients into a streaming call.
    pub fn build_streaming_api_call(self) -> (r: Option<StreamingApiCall>)
        ensures
            self.complete() ==> (r matches Some(c) && c.client.api_url == self.api_url->0
                && c.client.api_key == self.api_key->0 && c.client.request_body@
                == crate::text_api::request::spec_finalize(self.request_body->0@)
                && c.client.timeout == self.timeout && (c.client.logger is Some == self.logger
                is Some)),
            !self.complete() ==> r is None,
    {
        match self.build() {
            Some(client) => Some(StreamingApiCall { client }),
            None => None,
        }
    }
}

/// A call that expects one complete JSON response.
pub struct BatchApiCall {
    pub client: IApiCall,
}

impl BatchApiCall {
    /// Refuses to run when the request asks for streaming; checked before any
    /// network or parse work.
    pub fn precheck(&self) -> (r: Result<(), InvalidConfiguration>)
        ensures
            self.client.request_body.stream == Some(true) ==> r == Err::<(), _>(
                InvalidConfiguration::StreamFlag { should_be: false, given: true },
            ),
            self.client.request_body.stream != Some(true) ==> r is Ok,
    {
        let streaming = match self.client.request_body.stream {
            Some(b) => b,
            None => false,
        };
        if streaming {
            Err(InvalidConfiguration::StreamFlag { should_be: false, given: true })
        } else {
            Ok(())
        }
    }
}

/// A call that consumes an event stream.
pub struct StreamingApiCall {
    pub client: IApiCall,
}

impl StreamingApiCall {
    /// Opens the aggregation session, refusing a request whose stream flag is
    /// not set; checked before any stream data is consumed.
    pub fn session(&self) -> (r: Result<StreamingSession, InvalidConfiguration>)
        ensures
            self.client.request_body.stream == Some(true) ==> (r matches Ok(s) && s@ == Seq::<
                ResponseChunkView,
            >::empty()),
            self.client.request_body.stream != Some(true) ==> r == Err::<StreamingSession, _>(
                InvalidConfiguration::StreamFlag { should_be: true, given: false },
            ),
    {
        StreamingSession::new(&self.client.request_body)
    }
}

} // verus!
