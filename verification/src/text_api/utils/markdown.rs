//! Pulling a JSON payload out of a model's markdown answer: the first fenced
//! code block labelled `json`.

use vstd::prelude::*;

use crate::text_api::common::{chars_to_string, str_to_chars};
use crate::text_api::dedent::{is_space, lemma_spaces_end, spaces_end, spec_join_lines, spec_split_lines};

verus! {

/// The index of the first character at or after `i` that is not a backtick.
pub open spec fn ticks_end(l: Seq<char>, i: int) -> int
    decreases l.len() - i,
{
    if 0 <= i < l.len() && l[i] == '`' {
        ticks_end(l, i + 1)
    } else {
        i
    }
}

proof fn lemma_ticks_end(l: Seq<char>, i: int)
    requires
        0 <= i <= l.len(),
    ensures
        i <= ticks_end(l, i) <= l.len(),
    decreases l.len() - i,
{
    if i < l.len() && l[i] == '`' {
        lemma_ticks_end(l, i + 1);
    }
}

fn ticks_end_exec(l: &Vec<char>, i: usize) -> (r: usize)
    requires
        i <= l@.len(),
    ensures
        r == ticks_end(l@, i as int),
        i <= r <= l@.len(),
    decreases l@.len() - i,
{
    if i < l.len() && l[i] == '`' {
        ticks_end_exec(l, i + 1)
    } else {
        i
    }
}

/// The index of the first whitespace character at or after `i`.
pub open spec fn nonspace_end(l: Seq<char>, i: int) -> int
    decreases l.len() - i,
{
    if 0 <= i < l.len() && !is_space(l[i]) {
        nonspace_end(l, i + 1)
    } else {
        i
    }
}

proof fn lemma_nonspace_end(l: Seq<char>, i: int)
    requires
        0 <= i <= l.len(),
    ensures
        i <= nonspace_end(l, i) <= l.len(),
    decreases l.len() - i,
{
    if i < l.len() && !is_space(l[i]) {
        lemma_nonspace_end(l, i + 1);
    }
}

fn nonspace_end_exec(l: &Vec<char>, i: usize) -> (r: usize)
    requires
        i <= l@.len(),
    ensures
        r == nonspace_end(l@, i as int),
        i <= r <= l@.len(),
    decreases l@.len() - i,
{
    if i < l.len() {
        let c = l[i];
        if !(c == ' ' || c == '\t' || c == '\r' || c == '\n') {
            return nonspace_end_exec(l, i + 1);
        }
    }
    i
}

/// A line opening a `json` code block: optional leading whitespace, at least
/// three backticks, and an info string whose first word is `json`.
pub open spec fn is_open_json_fence(l: Seq<char>) -> bool {
    let a = spaces_end(l, 0);
    let t = ticks_end(l, a);
    let w0 = spaces_end(l, t);
    let w1 = nonspace_end(l, w0);
    t - a >= 3 && l.subrange(w0, w1) == "json"@
}

/// A line closing a code block: optional leading whitespace, at least three
/// backticks, and nothing but whitespace after them.
pub open spec fn is_close_fence(l: Seq<char>) -> bool {
    let a = spaces_end(l, 0);
    let t = ticks_end(l, a);
    t - a >= 3 && spaces_end(l, t) == l.len()
}

fn is_open_json_fence_exec(l: &Vec<char>) -> (r: bool)
    ensures
        r == is_open_json_fence(l@),
{
    proof {
        lemma_spaces_end(l@, 0);
    }
    let a = spaces_end_exec(l, 0);
    proof {
        lemma_ticks_end(l@, a as int);
    }
    let t = ticks_end_exec(l, a);
    proof {
        lemma_spaces_end(l@, t as int);
    }
    let w0 = spaces_end_exec(l, t);
    proof {
        lemma_nonspace_end(l@, w0 as int);
    }
    let w1 = nonspace_end_exec(l, w0);
    if t - a < 3 {
        return false;
    }
    let word = crate::text_api::common::copy_range(l, w0, w1);
    let json_lit = str_to_chars("json");
    crate::text_api::common::eq_chars(&word, &json_lit)
}

fn is_close_fence_exec(l: &Vec<char>) -> (r: bool)
    ensures
        r == is_close_fence(l@),
{
    proof {
        lemma_spaces_end(l@, 0);
    }
    let a = spaces_end_exec(l, 0);
    proof {
        lemma_ticks_end(l@, a as int);
    }
    let t = ticks_end_exec(l, a);
    proof {
        lemma_spaces_end(l@, t as int);
    }
    let e = spaces_end_exec(l, t);
    t - a >= 3 && e == l.len()
}

fn spaces_end_exec(l: &Vec<char>, i: usize) -> (r: usize)
    requires
        i <= l@.len(),
    ensures
        r == spaces_end(l@, i as int),
        i <= r <= l@.len(),
    decreases l@.len() - i,
{
    if i < l.len() {
        let c = l[i];
        if c == ' ' || c == '\t' || c == '\r' || c == '\n' {
            return spaces_end_exec(l, i + 1);
        }
    }
    i
}

/// The first opening `json` fence line at or after `i`.
pub open spec fn spec_find_open_fence(lines: Seq<Seq<char>>, i: int) -> Option<int>
    decreases lines.len() - i,
{
    if !(0 <= i < lines.len()) {
        None
    } else if is_open_json_fence(lines[i]) {
        Some(i)
    } else {
        spec_find_open_fence(lines, i + 1)
    }
}

/// The first closing fence line at or after `i`.
pub open spec fn spec_find_close_fence(lines: Seq<Seq<char>>, i: int) -> Option<int>
    decreases lines.len() - i,
{
    if !(0 <= i < lines.len()) {
        None
    } else if is_close_fence(lines[i]) {
        Some(i)
    } else {
        spec_find_close_fence(lines, i + 1)
    }
}

/// The content of the first fenced block whose info string names `json`: the
/// lines up to the next closing fence, or to the document's end when the
/// block is left open.
pub open spec fn spec_json_block(s: Seq<char>) -> Option<Seq<char>> {
    let lines = spec_split_lines(s);
    match spec_find_open_fence(lines, 0) {
        None => None,
        Some(i) => match spec_find_close_fence(lines, i + 1) {
            None => Some(spec_join_lines(lines.subrange(i + 1, lines.len() as int))),
            Some(j) => Some(spec_join_lines(lines.subrange(i + 1, j))),
        },
    }
}

fn find_open_fence(lines: &Vec<Vec<char>>, i: usize) -> (r: Option<usize>)
    requires
        i <= lines@.len(),
    ensures
        match r {
            Some(j) => Some(j as int) == spec_find_open_fence(
                lines@.map_values(|l: Vec<char>| l@),
                i as int,
            ) && i <= j < lines@.len(),
            None => spec_find_open_fence(lines@.map_values(|l: Vec<char>| l@), i as int) is None,
        },
    decreases lines@.len() - i,
{
    if i >= lines.len() {
        return None;
    }
    proof {
        assert(lines@.map_values(|l: Vec<char>| l@)[i as int] == lines@[i as int]@);
    }
    if is_open_json_fence_exec(&lines[i]) {
        Some(i)
    } else {
        find_open_fence(lines, i + 1)
    }
}

fn find_close_fence(lines: &Vec<Vec<char>>, i: usize) -> (r: Option<usize>)
    requires
        i <= lines@.len(),
    ensures
        match r {
            Some(j) => Some(j as int) == spec_find_close_fence(
                lines@.map_values(|l: Vec<char>| l@),
                i as int,
            ) && i <= j < lines@.len(),
            None => spec_find_close_fence(lines@.map_values(|l: Vec<char>| l@), i as int) is None,
        },
    decreases lines@.len() - i,
{
    if i >= lines.len() {
        return None;
    }
    proof {
        assert(lines@.map_values(|l: Vec<char>| l@)[i as int] == lines@[i as int]@);
    }
    if is_close_fence_exec(&lines[i]) {
        Some(i)
    } else {
        find_close_fence(lines, i + 1)
    }
}

/// Exec join of `lines[a..b]` with newlines.
fn join_range(lines: &Vec<Vec<char>>, a: usize, b: usize) -> (r: Vec<char>)
    requires
        a <= b <= lines@.len(),
    ensures
        r@ == spec_join_lines(lines@.map_values(|l: Vec<char>| l@).subrange(a as int, b as int)),
    decreases b - a,
{
    let ghost tgt = lines@.map_values(|l: Vec<char>| l@).subrange(a as int, b as int);
    if a >= b {
        proof {
            assert(tgt =~= Seq::<Seq<char>>::empty());
        }
        return Vec::new();
    }
    proof {
        assert(tgt[0] == lines@[a as int]@);
    }
    let mut head = crate::text_api::common::copy_range(&lines[a], 0, lines[a].len());
    proof {
        assert(head@ =~= lines@[a as int]@);
    }
    if a + 1 == b {
        proof {
            assert(tgt.len() == 1);
        }
        head
    } else {
        let rest = join_range(lines, a + 1, b);
        head.push('\n');
        let ghost head_snap = head@;
        let mut k: usize = 0;
        while k < rest.len()
            invariant
                0 <= k <= rest@.len(),
                head@ == head_snap + rest@.subrange(0, k as int),
            decreases rest@.len() - k,
        {
            head.push(rest[k]);
            proof {
                assert(head@ =~= head_snap + rest@.subrange(0, k + 1 as int));
            }
            k = k + 1;
        }
        proof {
            assert(rest@.subrange(0, rest@.len() as int) =~= rest@);
            assert(tgt.drop_first() =~= lines@.map_values(|l: Vec<char>| l@).subrange(
                a + 1 as int,
                b as int,
            ));
            assert(head@ =~= tgt[0] + seq!['\n'] + spec_join_lines(tgt.drop_first()));
        }
        head
    }
}

/// The content of the first <code>```json</code> fenced block of a markdown
/// text, if any.
pub fn extract_json_block(source: &str) -> (r: Option<String>)
    ensures
        match r {
            Some(t) => spec_json_block(source@) == Some(t@),
            None => spec_json_block(source@) is None,
        },
{
    let chars = str_to_chars(source);
    let lines = split_lines_for_blocks(&chars);
    let n = lines.len();
    let i = match find_open_fence(&lines, 0) {
        None => {
            return None;
        },
        Some(i) => i,
    };
    assert(i < n);
    let content = match find_close_fence(&lines, i + 1) {
        None => join_range(&lines, i + 1, n),
        Some(j) => join_range(&lines, i + 1, j),
    };
    Some(chars_to_string(&content))
}

/// The plain newline split used by fence scanning.
fn split_lines_for_blocks(s: &Vec<char>) -> (r: Vec<Vec<char>>)
    ensures
        r@.map_values(|l: Vec<char>| l@) == spec_split_lines(s@),
    decreases s@.len(),
{
    proof {
        crate::text_api::common::lemma_find_char(s@, '\n', 0);
    }
    match crate::text_api::common::find_char(s, '\n', 0) {
        None => {
            let mut r: Vec<Vec<char>> = Vec::new();
            r.push(crate::text_api::common::copy_range(s, 0, s.len()));
            proof {
                assert(s@.subrange(0, s@.len() as int) =~= s@);
                assert(r@.map_values(|l: Vec<char>| l@) =~= spec_split_lines(s@));
            }
            r
        },
        Some(j) => {
            let n = s.len();
            assert(j < n);
            let head = crate::text_api::common::copy_range(s, 0, j);
            let restv = crate::text_api::common::copy_range(s, j + 1, n);
            proof {
                assert(restv@ =~= s@.skip(j + 1 as int));
            }
            let mut tail = split_lines_for_blocks(&restv);
            let mut r: Vec<Vec<char>> = Vec::new();
            r.push(head);
            let ghost tail_snap = tail@;
            r.append(&mut tail);
            proof {
                let f = |l: Vec<char>| l@;
                let rhs = seq![s@.subrange(0, j as int)] + spec_split_lines(s@.skip(j + 1));
                assert forall|q: int| 0 <= q < r@.len() implies r@.map_values(f)[q] == rhs[q] by {
                    if q > 0 {
                        assert(r@[q] == tail_snap[q - 1]);
                        assert(tail_snap.map_values(f)[q - 1] == tail_snap[q - 1]@);
                    }
                }
                assert(r@.map_values(f) =~= rhs);
            }
            r
        },
    }
}

} // verus!
