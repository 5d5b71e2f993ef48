//! Scalar lexical rules shared by the prompt compiler and the wire codec:
//! strict boolean, integer and decimal-number attribute values.

use vstd::prelude::*;

verus! {

/// The integer type carried by request and response fields.
pub type Integer = i64;

/// The value of a strict boolean literal.
pub open spec fn spec_parse_bool(s: Seq<char>) -> Option<bool> {
    if s == "true"@ {
        Some(true)
    } else if s == "false"@ {
        Some(false)
    } else {
        None
    }
}

/// Strict boolean coercion: `true` and `false` are the only accepted spellings.
pub fn parse_bool(s: &str) -> (r: Option<bool>)
    ensures
        r == spec_parse_bool(s@),
{
    proof {
        reveal_strlit("true");
        reveal_strlit("false");
    }
    let n = s.unicode_len();
    if n == 4 && s.get_char(0) == 't' && s.get_char(1) == 'r' && s.get_char(2) == 'u'
        && s.get_char(3) == 'e' {
        proof {
            assert(s@ =~= "true"@);
        }
        Some(true)
    } else if n == 5 && s.get_char(0) == 'f' && s.get_char(1) == 'a' && s.get_char(2) == 'l'
        && s.get_char(3) == 's' && s.get_char(4) == 'e' {
        proof {
            assert(s@ =~= "false"@);
        }
        Some(false)
    } else {
        proof {
            if s@ == "true"@ {
                assert(s@.len() == 4);
                assert(s@[0] == 't' && s@[1] == 'r' && s@[2] == 'u' && s@[3] == 'e');
            }
            if s@ == "false"@ {
                assert(s@.len() == 5);
                assert(s@[0] == 'f' && s@[1] == 'a' && s@[2] == 'l' && s@[3] == 's' && s@[4]
                    == 'e');
            }
        }
        None
    }
}

pub open spec fn is_digit(c: char) -> bool {
    '0' <= c && c <= '9'
}

/// The numeric value of a decimal digit.
pub open spec fn digit_val(c: char) -> int {
    c as int - '0' as int
}

/// The index of the first non-digit at or after `i`.
pub open spec fn digits_end(s: Seq<char>, i: int) -> int
    decreases s.len() - i,
{
    if 0 <= i < s.len() && is_digit(s[i]) {
        digits_end(s, i + 1)
    } else {
        i
    }
}

pub proof fn lemma_digits_end(s: Seq<char>, i: int)
    requires
        0 <= i <= s.len(),
    ensures
        i <= digits_end(s, i) <= s.len(),
        forall|k: int| i <= k < digits_end(s, i) ==> is_digit(s[k]),
        digits_end(s, i) < s.len() ==> !is_digit(s[digits_end(s, i)]),
    decreases s.len() - i,
{
    if i < s.len() && is_digit(s[i]) {
        lemma_digits_end(s, i + 1);
    }
}

/// The mathematical value of the digit run `s[i..j]`, read most significant first.
pub open spec fn digits_val(s: Seq<char>, i: int, j: int) -> int
    decreases j - i,
{
    if i < j {
        digits_val(s, i, j - 1) * 10 + digit_val(s[j - 1])
    } else {
        0
    }
}

pub proof fn lemma_digits_val_nonneg(s: Seq<char>, i: int, j: int)
    requires
        0 <= i <= j <= s.len(),
        forall|k: int| i <= k < j ==> is_digit(s[k]),
    ensures
        digits_val(s, i, j) >= 0,
        j > i && s[i] != '0' ==> digits_val(s, i, j) >= 1,
    decreases j - i,
{
    if i < j {
        lemma_digits_val_nonneg(s, i, j - 1);
    }
}

/// A strict integer literal: an optional minus sign and then only digits, at
/// least one.
pub open spec fn is_int_lit(s: Seq<char>) -> bool {
    let b = if s.len() > 0 && s[0] == '-' { 1int } else { 0int };
    s.len() > b && forall|k: int| b <= k < s.len() ==> is_digit(s[k])
}

/// The mathematical value of a strict integer literal.
pub open spec fn int_lit_val(s: Seq<char>) -> int {
    if s.len() > 0 && s[0] == '-' {
        -digits_val(s, 1, s.len() as int)
    } else {
        digits_val(s, 0, s.len() as int)
    }
}

/// Strict integer coercion: a literal that does not fit the carried integer
/// type degrades to "absent", like any other malformed value.
pub open spec fn spec_parse_int(s: Seq<char>) -> Option<i64> {
    if is_int_lit(s) && i64::MIN <= int_lit_val(s) <= i64::MAX {
        Some(int_lit_val(s) as i64)
    } else {
        None
    }
}

/// One decimal digit as a `u128`, for the accumulating parser.
fn digit_of(c: char) -> (d: u128)
    requires
        is_digit(c),
    ensures
        d == digit_val(c),
{
    (c as u32 - '0' as u32) as u128
}

/// Reads the digit run `s[i..j]` into an accumulator, reporting magnitudes
/// beyond `u64::MAX` as an overflow instead of a value.
fn digits_to_u128(s: &Vec<char>, i: usize, j: usize) -> (r: Option<u128>)
    requires
        i <= j <= s@.len(),
        forall|k: int| i <= k < j ==> is_digit(s@[k]),
    ensures
        r matches Some(v) ==> v == digits_val(s@, i as int, j as int) && v <= u64::MAX,
        r is None ==> digits_val(s@, i as int, j as int) > u64::MAX,
{
    let mut acc: u128 = 0;
    let mut k: usize = i;
    while k < j
        invariant
            i <= k <= j <= s@.len(),
            forall|m: int| i <= m < j ==> is_digit(s@[m]),
            acc == digits_val(s@, i as int, k as int),
            acc <= u64::MAX,
        decreases j - k,
    {
        let d = digit_of(s[k]);
        proof {
            lemma_digits_val_nonneg(s@, i as int, k as int);
        }
        let next: u128 = acc * 10 + d;
        if next > u64::MAX as u128 {
            proof {
                lemma_digits_val_grows(s@, i as int, k as int + 1, j as int);
            }
            return None;
        }
        acc = next;
        k = k + 1;
    }
    Some(acc)
}

/// A digit run's value never shrinks as more digits are read.
pub proof fn lemma_digits_val_grows(s: Seq<char>, i: int, j: int, j2: int)
    requires
        0 <= i <= j <= j2 <= s.len(),
        forall|k: int| i <= k < j2 ==> is_digit(s[k]),
    ensures
        digits_val(s, i, j2) >= digits_val(s, i, j),
    decreases j2 - j,
{
    if j < j2 {
        lemma_digits_val_grows(s, i, j, j2 - 1);
        lemma_digits_val_nonneg(s, i, j2 - 1);
        assert(digits_val(s, i, j2) == digits_val(s, i, j2 - 1) * 10 + digit_val(s[j2 - 1]));
    }
}

/// Strict integer coercion over a character buffer.
pub fn parse_int_chars(s: &Vec<char>) -> (r: Option<i64>)
    ensures
        r == spec_parse_int(s@),
{
    let n = s.len();
    let neg = n > 0 && s[0] == '-';
    let b: usize = if neg { 1 } else { 0 };
    if n == b {
        return None;
    }
    let mut k: usize = b;
    while k < n
        invariant
            b <= k <= n == s@.len(),
            b == (if s@.len() > 0 && s@[0] == '-' { 1int } else { 0int }),
            forall|m: int| b <= m < k ==> is_digit(s@[m]),
        decreases n - k,
    {
        let c = s[k];
        if c < '0' || c > '9' {
            proof {
                assert(!is_digit(s@[k as int]));
                if is_int_lit(s@) {
                    assert(is_digit(s@[k as int]));
                }
            }
            return None;
        }
        k = k + 1;
    }
    assert(is_int_lit(s@));
    let mag = match digits_to_u128(s, b, n) {
        Some(v) => v,
        None => {
            return None;
        },
    };
    if neg {
        if mag <= i64::MAX as u128 {
            Some(-(mag as i64))
        } else if mag == i64::MAX as u128 + 1 {
            Some(i64::MIN)
        } else {
            None
        }
    } else {
        if mag <= i64::MAX as u128 {
            Some(mag as i64)
        } else {
            None
        }
    }
}

/// A strict decimal-number literal: an optional minus sign, an integer part,
/// then an optional fraction and an optional exponent, each with at least one
/// digit. This is also exactly the number grammar of the wire format.
pub open spec fn is_number_lit(s: Seq<char>) -> bool {
    let b = if s.len() > 0 && s[0] == '-' { 1int } else { 0int };
    let i1 = digits_end(s, b);
    i1 > b && number_tail_ok(s, i1)
}

/// The fraction-and-exponent tail of a number literal, starting at `i`.
pub open spec fn number_tail_ok(s: Seq<char>, i: int) -> bool {
    let i2 = if i < s.len() && s[i] == '.' { digits_end(s, i + 1) } else { i };
    let frac_ok = if i < s.len() && s[i] == '.' { i2 > i + 1 } else { true };
    frac_ok && exponent_ok(s, i2)
}

/// The exponent part of a number literal, starting at `i`; it must reach the
/// end of the text.
pub open spec fn exponent_ok(s: Seq<char>, i: int) -> bool {
    if i < s.len() && (s[i] == 'e' || s[i] == 'E') {
        let b = if i + 1 < s.len() && (s[i + 1] == '+' || s[i + 1] == '-') { i + 2 } else {
            i + 1
        };
        digits_end(s, b) > b && digits_end(s, b) == s.len()
    } else {
        i == s.len()
    }
}

/// The index of the first non-digit at or after `i`, executable form.
fn digits_end_exec(s: &Vec<char>, i: usize) -> (r: usize)
    requires
        i <= s@.len(),
    ensures
        r == digits_end(s@, i as int),
        i <= r <= s@.len(),
    decreases s@.len() - i,
{
    if i < s.len() {
        let c = s[i];
        if '0' <= c && c <= '9' {
            return digits_end_exec(s, i + 1);
        }
    }
    i
}

/// Strict decimal-number check over a character buffer.
pub fn is_number_chars(s: &Vec<char>) -> (r: bool)
    ensures
        r == is_number_lit(s@),
{
    let n = s.len();
    let b: usize = if n > 0 && s[0] == '-' { 1 } else { 0 };
    let i1 = digits_end_exec(s, b);
    if i1 == b {
        return false;
    }
    // fraction
    let i2: usize = if i1 < n && s[i1] == '.' {
        let j = digits_end_exec(s, i1 + 1);
        if j == i1 + 1 {
            return false;
        }
        j
    } else {
        i1
    };
    // exponent
    if i2 < n && (s[i2] == 'e' || s[i2] == 'E') {
        let eb: usize = if i2 + 1 < n && (s[i2 + 1] == '+' || s[i2 + 1] == '-') { i2 + 2 } else {
            i2 + 1
        };
        let j = digits_end_exec(s, eb);
        j > eb && j == n
    } else {
        i2 == n
    }
}

/// The index of the first character at or after `i` that is not a zero.
pub open spec fn zeros_end(s: Seq<char>, i: int) -> int
    decreases s.len() - i,
{
    if 0 <= i < s.len() && s[i] == '0' {
        zeros_end(s, i + 1)
    } else {
        i
    }
}

pub proof fn lemma_zeros_end(s: Seq<char>, i: int)
    requires
        0 <= i <= s.len(),
    ensures
        i <= zeros_end(s, i) <= s.len(),
    decreases s.len() - i,
{
    if i < s.len() && s[i] == '0' {
        lemma_zeros_end(s, i + 1);
    }
}

fn zeros_end_exec(s: &Vec<char>, i: usize) -> (r: usize)
    requires
        i <= s@.len(),
    ensures
        r == zeros_end(s@, i as int),
        i <= r <= s@.len(),
    decreases s@.len() - i,
{
    if i < s.len() && s[i] == '0' {
        zeros_end_exec(s, i + 1)
    } else {
        i
    }
}

/// A finite decimal the attribute coercion accepts — an optional sign, then
/// digits with an optional fraction (at least one digit on one side of the
/// dot) and an optional exponent — rewritten into the strict wire grammar: a
/// plus sign dropped, leading zeros of the integer part removed, an empty
/// integer part written as one zero, an empty fraction dropped. Anything
/// else, the non-finite spellings included, is `None`.
pub open spec fn spec_coerce_number(s: Seq<char>) -> Option<Seq<char>> {
    let b: int = if s.len() > 0 && (s[0] == '+' || s[0] == '-') {
        1
    } else {
        0
    };
    let i1 = digits_end(s, b);
    let has_dot = i1 < s.len() && s[i1] == '.';
    let f_end = if has_dot {
        digits_end(s, i1 + 1)
    } else {
        i1
    };
    if i1 == b && !(has_dot && f_end > i1 + 1) {
        None
    } else if !exponent_ok(s, f_end) {
        None
    } else {
        let sign: Seq<char> = if s.len() > 0 && s[0] == '-' {
            seq!['-']
        } else {
            Seq::empty()
        };
        let int_part: Seq<char> = if i1 == b || zeros_end(s, b) >= i1 {
            seq!['0']
        } else {
            s.subrange(zeros_end(s, b), i1)
        };
        let frac_part: Seq<char> = if has_dot && f_end > i1 + 1 {
            seq!['.'] + s.subrange(i1 + 1, f_end)
        } else {
            Seq::empty()
        };
        Some(sign + int_part + frac_part + s.subrange(f_end, s.len() as int))
    }
}

/// Lenient number coercion over a character buffer: the accepted forms of
/// [`spec_coerce_number`], normalized to the wire grammar.
#[verifier::rlimit(100)]
pub fn coerce_number_chars(s: &Vec<char>) -> (r: Option<Vec<char>>)
    ensures
        match r {
            Some(t) => spec_coerce_number(s@) == Some(t@),
            None => spec_coerce_number(s@) is None,
        },
{
    let n = s.len();
    let b: usize = if n > 0 && (s[0] == '+' || s[0] == '-') {
        1
    } else {
        0
    };
    let neg = n > 0 && s[0] == '-';
    proof {
        lemma_digits_end(s@, b as int);
    }
    let i1 = digits_end_exec(s, b);
    let has_dot = i1 < n && s[i1] == '.';
    let f_end: usize = if has_dot {
        digits_end_exec(s, i1 + 1)
    } else {
        i1
    };
    if i1 == b && !(has_dot && f_end > i1 + 1) {
        return None;
    }
    let exp_ok: bool = if f_end < n && (s[f_end] == 'e' || s[f_end] == 'E') {
        let eb: usize = if f_end + 1 < n && (s[f_end + 1] == '+' || s[f_end + 1] == '-') {
            f_end + 2
        } else {
            f_end + 1
        };
        let e_end = digits_end_exec(s, eb);
        e_end > eb && e_end == n
    } else {
        f_end == n
    };
    if !exp_ok {
        proof {
            assert(!exponent_ok(s@, f_end as int));
        }
        return None;
    }
    let mut out: Vec<char> = Vec::new();
    if neg {
        out.push('-');
    }
    if i1 == b {
        out.push('0');
    } else {
        proof {
            lemma_zeros_end(s@, b as int);
        }
        let z = zeros_end_exec(s, b);
        if z >= i1 {
            out.push('0');
        } else {
            let mut piece = copy_range(s, z, i1);
            out.append(&mut piece);
        }
    }
    if has_dot && f_end > i1 + 1 {
        out.push('.');
        let mut piece = copy_range(s, i1 + 1, f_end);
        out.append(&mut piece);
    }
    let mut piece = copy_range(s, f_end, n);
    out.append(&mut piece);
    proof {
        assert(out@ =~= spec_coerce_number(s@)->Some_0);
    }
    Some(out)
}

/// The first position at or after `i` holding `c`, if any.
pub open spec fn spec_find_char(s: Seq<char>, c: char, i: int) -> Option<int>
    decreases s.len() - i,
{
    if i < 0 || i >= s.len() {
        None
    } else if s[i] == c {
        Some(i)
    } else {
        spec_find_char(s, c, i + 1)
    }
}

pub proof fn lemma_find_char(s: Seq<char>, c: char, i: int)
    requires
        0 <= i <= s.len(),
    ensures
        match spec_find_char(s, c, i) {
            Some(j) => i <= j < s.len() && s[j] == c && (forall|k: int| i <= k < j ==> s[k] != c),
            None => forall|k: int| i <= k < s.len() ==> s[k] != c,
        },
    decreases s.len() - i,
{
    if i < s.len() && s[i] != c {
        lemma_find_char(s, c, i + 1);
    }
}

/// The first position at or after `i` holding `c`, executable form.
pub fn find_char(s: &Vec<char>, c: char, i: usize) -> (r: Option<usize>)
    requires
        i <= s@.len(),
    ensures
        match r {
            Some(j) => Some(j as int) == spec_find_char(s@, c, i as int),
            None => spec_find_char(s@, c, i as int) is None,
        },
    decreases s@.len() - i,
{
    if i >= s.len() {
        None
    } else if s[i] == c {
        Some(i)
    } else {
        find_char(s, c, i + 1)
    }
}

/// A copy of `s[a..b]`.
pub fn copy_range(s: &Vec<char>, a: usize, b: usize) -> (r: Vec<char>)
    requires
        a <= b <= s@.len(),
    ensures
        r@ == s@.subrange(a as int, b as int),
{
    let mut v: Vec<char> = Vec::new();
    let mut i: usize = a;
    while i < b
        invariant
            a <= i <= b <= s@.len(),
            v@ == s@.subrange(a as int, i as int),
        decreases b - i,
    {
        v.push(s[i]);
        proof {
            assert(v@ =~= s@.subrange(a as int, i + 1 as int));
        }
        i = i + 1;
    }
    v
}

/// Character-for-character equality of two buffers.
pub fn eq_chars(a: &Vec<char>, b: &Vec<char>) -> (r: bool)
    ensures
        r == (a@ == b@),
{
    if a.len() != b.len() {
        proof {
            assert(a@ != b@);
        }
        return false;
    }
    let n = a.len();
    let mut i: usize = 0;
    while i < n
        invariant
            0 <= i <= n == a@.len() == b@.len(),
            forall|k: int| 0 <= k < i ==> a@[k] == b@[k],
        decreases n - i,
    {
        if a[i] != b[i] {
            return false;
        }
        i = i + 1;
    }
    proof {
        assert(a@ =~= b@);
    }
    true
}

/// The characters of a string, one by one.
pub fn str_to_chars(s: &str) -> (r: Vec<char>)
    ensures
        r@ == s@,
{
    let n = s.unicode_len();
    let mut v: Vec<char> = Vec::new();
    let mut i: usize = 0;
    while i < n
        invariant
            i <= n == s@.len(),
            v@ == s@.subrange(0, i as int),
        decreases n - i,
    {
        v.push(s.get_char(i));
        proof {
            assert(v@ =~= s@.subrange(0, i + 1 as int));
        }
        i = i + 1;
    }
    proof {
        assert(v@ =~= s@);
    }
    v
}

/// Relies on std's `FromIterator<char> for String`: collecting characters
/// yields the string of exactly those characters, in order.
#[verifier::external_body]
pub fn chars_to_string(v: &Vec<char>) -> (r: String)
    ensures
        r@ == v@,
{
    v.iter().collect()
}

} // verus!
