//! Whitespace policy for message bodies: trimming and de-indentation.
//!
//! De-indentation removes the common leading whitespace shared by the
//! non-blank lines, preserving relative indentation. As markup authors indent
//! message bodies to match the surrounding structure, the first line — which
//! trimming has already made flush — is left out of the computation, and a
//! leading empty line is dropped.

use vstd::prelude::*;

use crate::text_api::common::{chars_to_string, copy_range, spec_find_char, str_to_chars};

verus! {

/// The whitespace characters that trimming strips.
pub open spec fn is_space(c: char) -> bool {
    c == ' ' || c == '\t' || c == '\r' || c == '\n'
}

/// The first position at or after `i` holding something other than a space.
pub open spec fn spaces_end(s: Seq<char>, i: int) -> int
    decreases s.len() - i,
{
    if 0 <= i < s.len() && is_space(s[i]) {
        spaces_end(s, i + 1)
    } else {
        i
    }
}

pub proof fn lemma_spaces_end(s: Seq<char>, i: int)
    requires
        0 <= i <= s.len(),
    ensures
        i <= spaces_end(s, i) <= s.len(),
        forall|k: int| i <= k < spaces_end(s, i) ==> is_space(s[k]),
        spaces_end(s, i) < s.len() ==> !is_space(s[spaces_end(s, i)]),
    decreases s.len() - i,
{
    if i < s.len() && is_space(s[i]) {
        lemma_spaces_end(s, i + 1);
    }
}

/// One past the last non-space position strictly before `j`.
pub open spec fn spaces_rbegin(s: Seq<char>, j: int) -> int
    decreases j,
{
    if 0 < j <= s.len() && is_space(s[j - 1]) {
        spaces_rbegin(s, j - 1)
    } else {
        j
    }
}

pub proof fn lemma_spaces_rbegin(s: Seq<char>, j: int)
    requires
        0 <= j <= s.len(),
    ensures
        0 <= spaces_rbegin(s, j) <= j,
        forall|k: int| spaces_rbegin(s, j) <= k < j ==> is_space(s[k]),
        spaces_rbegin(s, j) > 0 ==> !is_space(s[spaces_rbegin(s, j) - 1]),
    decreases j,
{
    if 0 < j && is_space(s[j - 1]) {
        lemma_spaces_rbegin(s, j - 1);
    }
}

/// The text with leading and trailing whitespace removed.
pub open spec fn spec_trim(s: Seq<char>) -> Seq<char> {
    let a = spaces_end(s, 0);
    let b = spaces_rbegin(s, s.len() as int);
    if a <= b {
        s.subrange(a, b)
    } else {
        Seq::empty()
    }
}

/// Trimming, executable form.
pub fn trim_chars(s: &Vec<char>) -> (r: Vec<char>)
    ensures
        r@ == spec_trim(s@),
{
    proof {
        lemma_spaces_end(s@, 0);
        lemma_spaces_rbegin(s@, s@.len() as int);
    }
    let n = s.len();
    let mut a: usize = 0;
    while a < n && (s[a] == ' ' || s[a] == '\t' || s[a] == '\r' || s[a] == '\n')
        invariant
            0 <= a <= n == s@.len(),
            spaces_end(s@, 0) == spaces_end(s@, a as int),
        decreases n - a,
    {
        a = a + 1;
    }
    assert(a as int == spaces_end(s@, a as int));
    let mut b: usize = n;
    while b > 0 && (s[b - 1] == ' ' || s[b - 1] == '\t' || s[b - 1] == '\r' || s[b - 1] == '\n')
        invariant
            0 <= b <= n == s@.len(),
            spaces_rbegin(s@, n as int) == spaces_rbegin(s@, b as int),
        decreases b,
    {
        b = b - 1;
    }
    assert(b as int == spaces_rbegin(s@, b as int));
    if a <= b {
        copy_range(s, a, b)
    } else {
        proof {
            assert(Seq::<char>::empty() =~= spec_trim(s@));
        }
        Vec::new()
    }
}

/// The text split at every newline; a trailing newline yields a final empty
/// line.
pub open spec fn spec_split_lines(s: Seq<char>) -> Seq<Seq<char>>
    decreases s.len(),
    via spec_split_lines_dec
{
    match spec_find_char(s, '\n', 0) {
        None => seq![s],
        Some(j) => seq![s.subrange(0, j)] + spec_split_lines(s.skip(j + 1)),
    }
}

#[via_fn]
proof fn spec_split_lines_dec(s: Seq<char>) {
    crate::text_api::common::lemma_find_char(s, '\n', 0);
}

/// The lines joined back with single newlines.
pub open spec fn spec_join_lines(lines: Seq<Seq<char>>) -> Seq<char>
    decreases lines.len(),
{
    if lines.len() == 0 {
        Seq::empty()
    } else if lines.len() == 1 {
        lines[0]
    } else {
        lines[0] + seq!['\n'] + spec_join_lines(lines.drop_first())
    }
}

/// Splitting and rejoining is the identity.
pub proof fn lemma_join_split(s: Seq<char>)
    ensures
        spec_join_lines(spec_split_lines(s)) == s,
    decreases s.len(),
{
    crate::text_api::common::lemma_find_char(s, '\n', 0);
    match spec_find_char(s, '\n', 0) {
        None => {
            assert(spec_join_lines(seq![s]) == s);
        },
        Some(j) => {
            let rest = s.skip(j + 1);
            lemma_join_split(rest);
            let lines = seq![s.subrange(0, j)] + spec_split_lines(rest);
            assert(spec_split_lines(rest).len() >= 1);
            assert(lines.len() >= 2);
            assert(lines[0] == s.subrange(0, j));
            assert(lines.drop_first() =~= spec_split_lines(rest));
            assert(s.subrange(0, j) + seq!['\n'] + rest =~= s);
        },
    }
}

/// The number of leading plain spaces of a line.
pub open spec fn lead_spaces(l: Seq<char>, i: int) -> int
    decreases l.len() - i,
{
    if 0 <= i < l.len() && l[i] == ' ' {
        lead_spaces(l, i + 1)
    } else {
        i
    }
}

pub proof fn lemma_lead_spaces(l: Seq<char>, i: int)
    requires
        0 <= i <= l.len(),
    ensures
        i <= lead_spaces(l, i) <= l.len(),
        forall|k: int| i <= k < lead_spaces(l, i) ==> l[k] == ' ',
        lead_spaces(l, i) < l.len() ==> l[lead_spaces(l, i)] != ' ',
    decreases l.len() - i,
{
    if i < l.len() && l[i] == ' ' {
        lemma_lead_spaces(l, i + 1);
    }
}

/// A blank line: empty, or spaces only.
pub open spec fn line_blank(l: Seq<char>) -> bool {
    lead_spaces(l, 0) == l.len()
}

/// The smallest leading-space count over the non-blank lines at or after `i`;
/// `None` when there is no such line.
pub open spec fn min_indent_from(lines: Seq<Seq<char>>, i: int) -> Option<int>
    decreases lines.len() - i,
{
    if !(0 <= i < lines.len()) {
        None
    } else {
        let rest = min_indent_from(lines, i + 1);
        if line_blank(lines[i]) {
            rest
        } else {
            let ind = lead_spaces(lines[i], 0);
            match rest {
                None => Some(ind),
                Some(m) => Some(if ind <= m { ind } else { m }),
            }
        }
    }
}

/// A line with up to `m` of its leading spaces removed.
pub open spec fn drop_indent(l: Seq<char>, m: int) -> Seq<char> {
    let lead = lead_spaces(l, 0);
    let k = if m <= lead { m } else { lead };
    if 0 <= k {
        l.skip(k)
    } else {
        l
    }
}

/// The de-indented text: the common leading-space count of the non-blank
/// lines after the first is removed from every line, and a leading empty line
/// is dropped.
pub open spec fn spec_unindent(s: Seq<char>) -> Seq<char> {
    let lines = spec_split_lines(s);
    let m = match min_indent_from(lines, 1) {
        None => 0int,
        Some(v) => v,
    };
    let start: int = if lines.len() > 1 && lines[0].len() == 0 {
        1
    } else {
        0
    };
    spec_join_lines(lines.skip(start).map_values(|l: Seq<char>| drop_indent(l, m)))
}

/// Already-flush text: no leading empty line, and no shared indentation to
/// remove.
pub open spec fn is_flush(s: Seq<char>) -> bool {
    let lines = spec_split_lines(s);
    &&& (lines.len() > 1 ==> lines[0].len() != 0)
    &&& match min_indent_from(lines, 1) {
        None => true,
        Some(m) => m == 0,
    }
}

/// De-indentation is idempotent: on already-flush text it is a no-op.
pub proof fn lemma_unindent_flush_noop(s: Seq<char>)
    requires
        is_flush(s),
    ensures
        spec_unindent(s) == s,
{
    let lines = spec_split_lines(s);
    let m = match min_indent_from(lines, 1) {
        None => 0int,
        Some(v) => v,
    };
    assert(m == 0);
    assert(lines.len() > 0);
    let start: int = if lines.len() > 1 && lines[0].len() == 0 {
        1
    } else {
        0
    };
    assert(start == 0);
    let mapped = lines.skip(0).map_values(|l: Seq<char>| drop_indent(l, 0));
    assert forall|i: int| 0 <= i < lines.len() implies mapped[i] == lines[i] by {
        lemma_lead_spaces(lines[i], 0);
        assert(drop_indent(lines[i], 0) =~= lines[i]);
    }
    assert(mapped =~= lines);
    lemma_join_split(s);
}

/// Exec form of [`min_indent_from`].
fn min_indent_exec(lines: &Vec<Vec<char>>, i: usize) -> (r: Option<usize>)
    requires
        i <= lines@.len(),
    ensures
        match r {
            Some(v) => Some(v as int) == min_indent_from(
                lines@.map_values(|l: Vec<char>| l@),
                i as int,
            ),
            None => min_indent_from(lines@.map_values(|l: Vec<char>| l@), i as int) is None,
        },
    decreases lines@.len() - i,
{
    let ghost glines = lines@.map_values(|l: Vec<char>| l@);
    if i >= lines.len() {
        None
    } else {
        let rest = min_indent_exec(lines, i + 1);
        let line = &lines[i];
        proof {
            assert(glines[i as int] == line@);
            lemma_lead_spaces(line@, 0);
        }
        let mut k: usize = 0;
        let n = line.len();
        while k < n && line[k] == ' '
            invariant
                0 <= k <= n == line@.len(),
                lead_spaces(line@, 0) == lead_spaces(line@, k as int),
            decreases n - k,
        {
            k = k + 1;
        }
        assert(k as int == lead_spaces(line@, 0));
        if k == n {
            // blank line
            rest
        } else {
            match rest {
                None => Some(k),
                Some(m) => Some(if k <= m { k } else { m }),
            }
        }
    }
}

/// Exec form of one [`drop_indent`] application.
fn drop_indent_exec(l: &Vec<char>, m: usize) -> (r: Vec<char>)
    ensures
        r@ == drop_indent(l@, m as int),
{
    proof {
        lemma_lead_spaces(l@, 0);
    }
    let mut k: usize = 0;
    let n = l.len();
    while k < n && l[k] == ' ' && k < m
        invariant
            0 <= k <= n == l@.len(),
            k <= m,
            k <= lead_spaces(l@, 0),
            forall|j: int| 0 <= j < k ==> l@[j] == ' ',
        decreases n - k,
    {
        proof {
            lemma_lead_spaces(l@, 0);
            if lead_spaces(l@, 0) <= k as int {
                assert(l@[lead_spaces(l@, 0)] == ' ');
            }
        }
        k = k + 1;
    }
    proof {
        lemma_lead_spaces(l@, 0);
        let lead = lead_spaces(l@, 0);
        let kk = if m as int <= lead { m as int } else { lead };
        assert(k as int == kk);
    }
    copy_range(l, k, n)
}

/// Exec splitting into lines at newlines.
fn split_lines_exec(s: &Vec<char>) -> (r: Vec<Vec<char>>)
    ensures
        r@.map_values(|l: Vec<char>| l@) == spec_split_lines(s@),
    decreases s@.len(),
{
    proof {
        crate::text_api::common::lemma_find_char(s@, '\n', 0);
    }
    match crate::text_api::common::find_char(s, '\n', 0) {
        None => {
            let mut r: Vec<Vec<char>> = Vec::new();
            r.push(copy_range(s, 0, s.len()));
            proof {
                assert(s@.subrange(0, s@.len() as int) =~= s@);
                assert(r@.map_values(|l: Vec<char>| l@) =~= spec_split_lines(s@));
            }
            r
        },
        Some(j) => {
            let n = s.len();
            assert(j < n);
            let head = copy_range(s, 0, j);
            let restv = copy_range(s, j + 1, n);
            proof {
                assert(restv@ =~= s@.skip(j + 1 as int));
            }
            let mut tail = split_lines_exec(&restv);
            let mut r: Vec<Vec<char>> = Vec::new();
            r.push(head);
            let mut idx: usize = 0;
            while idx < tail.len()
                invariant
                    0 <= idx <= tail@.len(),
                    r@.len() == idx + 1,
                    r@[0]@ == s@.subrange(0, j as int),
                    forall|q: int| 0 <= q < idx ==> r@[q + 1]@ == tail@[q]@,
                decreases tail@.len() - idx,
            {
                let line = copy_range(&tail[idx], 0, tail[idx].len());
                proof {
                    assert(line@ =~= tail@[idx as int]@);
                }
                r.push(line);
                idx = idx + 1;
            }
            proof {
                let f = |l: Vec<char>| l@;
                let lhs = r@.map_values(f);
                let rhs = seq![s@.subrange(0, j as int)] + spec_split_lines(s@.skip(j + 1));
                assert(tail@.map_values(f) == spec_split_lines(restv@));
                assert forall|q: int| 0 <= q < lhs.len() implies lhs[q] == rhs[q] by {
                    if q == 0 {
                    } else {
                        assert(r@[q]@ == tail@[q - 1]@);
                        assert(tail@.map_values(f)[q - 1] == tail@[q - 1]@);
                        assert(spec_split_lines(restv@)[q - 1] == rhs[q]);
                    }
                }
                assert(lhs =~= rhs);
            }
            r
        },
    }
}

/// Exec join of the de-indented tail `lines[i..]`.
fn join_dropped_exec(lines: &Vec<Vec<char>>, i: usize, m: usize) -> (r: Vec<char>)
    requires
        i <= lines@.len(),
    ensures
        r@ == spec_join_lines(
            lines@.map_values(|l: Vec<char>| l@).skip(i as int).map_values(
                |l: Seq<char>| drop_indent(l, m as int),
            ),
        ),
    decreases lines@.len() - i,
{
    let ghost f = |l: Vec<char>| l@;
    let ghost g = |l: Seq<char>| drop_indent(l, m as int);
    let ghost tgt = lines@.map_values(f).skip(i as int).map_values(g);
    if i >= lines.len() {
        proof {
            assert(tgt =~= Seq::<Seq<char>>::empty());
        }
        Vec::new()
    } else {
        let mut head = drop_indent_exec(&lines[i], m);
        proof {
            assert(tgt[0] == g(f(lines@[i as int])));
            assert(head@ == tgt[0]);
        }
        if i + 1 == lines.len() {
            proof {
                assert(tgt.len() == 1);
            }
            head
        } else {
            let rest = join_dropped_exec(lines, i + 1, m);
            head.push('\n');
            let mut k: usize = 0;
            let ghost head_snap = head@;
            while k < rest.len()
                invariant
                    0 <= k <= rest@.len(),
                    head@ == head_snap + rest@.subrange(0, k as int),
                decreases rest@.len() - k,
            {
                head.push(rest[k]);
                proof {
                    assert(head@ =~= head_snap + rest@.subrange(0, k + 1 as int));
                }
                k = k + 1;
            }
            proof {
                assert(rest@.subrange(0, rest@.len() as int) =~= rest@);
                let tail_tgt = lines@.map_values(f).skip(i + 1 as int).map_values(g);
                assert(rest@ == spec_join_lines(tail_tgt));
                assert(tgt.len() >= 2);
                assert(tgt.drop_first() =~= tail_tgt);
                assert(head@ =~= tgt[0] + seq!['\n'] + spec_join_lines(tgt.drop_first()));
            }
            head
        }
    }
}

/// De-indentation, executable form over a character buffer.
pub fn unindent_chars(s: &Vec<char>) -> (r: Vec<char>)
    ensures
        r@ == spec_unindent(s@),
{
    let lines = split_lines_exec(s);
    let ghost glines = spec_split_lines(s@);
    proof {
        assert(lines@.map_values(|l: Vec<char>| l@) == glines);
        assert(lines@.len() == glines.len());
    }
    let m: usize = match min_indent_exec(&lines, 1) {
        None => 0,
        Some(v) => v,
    };
    let start: usize = if lines.len() > 1 && lines[0].len() == 0 {
        1
    } else {
        0
    };
    proof {
        assert(lines@[0]@ == glines[0]);
    }
    let r = join_dropped_exec(&lines, start, m);
    proof {
        assert(lines@.map_values(|l: Vec<char>| l@).skip(start as int) =~= glines.skip(
            start as int,
        ));
    }
    r
}

/// Trim, then de-indent: the whitespace policy applied to message bodies.
pub open spec fn spec_clean_body(s: Seq<char>) -> Seq<char> {
    spec_unindent(spec_trim(s))
}

/// De-indentation of a string, for callers outside the compiler.
pub fn unindent_text(s: &str) -> (r: String)
    ensures
        r@ == spec_unindent(s@),
{
    let chars = str_to_chars(s);
    let out = unindent_chars(&chars);
    chars_to_string(&out)
}

/// Trimming of a string, for callers outside the compiler.
pub fn trim_text(s: &str) -> (r: String)
    ensures
        r@ == spec_trim(s@),
{
    let chars = str_to_chars(s);
    let out = trim_chars(&chars);
    chars_to_string(&out)
}

} // verus!
