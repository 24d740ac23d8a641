//! Verified text utilities: decimal parsers matching the standard library's
//! integer parsing, whitespace trimming, and whitespace-separated field
//! splitting for tabular reports.

use vstd::prelude::*;
use vstd::string::*;

verus! {

/// An ASCII decimal digit.
pub open spec fn is_ascii_digit(c: char) -> bool {
    48 <= c as u32 && c as u32 <= 57
}

/// The blank characters recognised when trimming and splitting:
/// space, tab, line feed, vertical tab, form feed, carriage return.
pub open spec fn is_blank(c: char) -> bool {
    c == ' ' || c == '\t' || c == '\n' || c == '\x0B' || c == '\x0C' || c == '\r'
}

/// Numeric value of one digit; zero for anything else.
pub open spec fn digit_val(c: char) -> nat {
    if is_ascii_digit(c) {
        (c as u32 - 48) as nat
    } else {
        0
    }
}

/// Every character of the sequence is a digit.
pub open spec fn all_digits(s: Seq<char>) -> bool {
    forall|i: int| 0 <= i < s.len() ==> is_ascii_digit(#[trigger] s[i])
}

/// Value of a digit sequence read in base ten.
pub open spec fn digits_val(s: Seq<char>) -> nat
    decreases s.len(),
{
    if s.len() == 0 {
        0
    } else {
        digits_val(s.drop_last()) * 10 + digit_val(s.last())
    }
}

/// What `u64::from_str` accepts: an optional leading plus sign, then one or
/// more digits, valuing at most `u64::MAX`.
pub open spec fn spec_parse_u64(s: Seq<char>) -> Option<u64> {
    let body = if s.len() > 0 && s[0] == '+' {
        s.subrange(1, s.len() as int)
    } else {
        s
    };
    if body.len() > 0 && all_digits(body) && digits_val(body) <= u64::MAX {
        Some(digits_val(body) as u64)
    } else {
        None
    }
}

/// What `i64::from_str` accepts: an optional sign, then one or more digits,
/// within the type's range.
pub open spec fn spec_parse_i64(s: Seq<char>) -> Option<i64> {
    let neg = s.len() > 0 && s[0] == '-';
    let body = if s.len() > 0 && (s[0] == '+' || s[0] == '-') {
        s.subrange(1, s.len() as int)
    } else {
        s
    };
    if body.len() > 0 && all_digits(body) {
        if neg {
            if digits_val(body) <= 0x8000000000000000 {
                Some((-(digits_val(body) as int)) as i64)
            } else {
                None
            }
        } else {
            if digits_val(body) <= i64::MAX {
                Some(digits_val(body) as i64)
            } else {
                None
            }
        }
    } else {
        None
    }
}

/// What `i32::from_str` accepts.
pub open spec fn spec_parse_i32(s: Seq<char>) -> Option<i32> {
    match spec_parse_i64(s) {
        Some(v) => if i32::MIN <= v && v <= i32::MAX {
            Some(v as i32)
        } else {
            None
        },
        None => None,
    }
}

/// A digit sequence is worth at least any of its prefixes.
proof fn lemma_digits_val_take_le(s: Seq<char>, n: int)
    requires
        0 <= n <= s.len(),
    ensures
        digits_val(s.take(n)) <= digits_val(s),
    decreases s.len(),
{
    if n < s.len() {
        assert(s.drop_last().take(n) =~= s.take(n));
        lemma_digits_val_take_le(s.drop_last(), n);
        assert(digits_val(s.drop_last()) * 10 >= digits_val(s.drop_last()));
    } else {
        assert(s.take(n) =~= s);
    }
}

/// Peeling one more digit multiplies the prefix value by ten.
proof fn lemma_digits_val_take_step(s: Seq<char>, n: int)
    requires
        0 <= n < s.len(),
    ensures
        digits_val(s.take(n + 1)) == digits_val(s.take(n)) * 10 + digit_val(s[n]),
{
    assert(s.take(n + 1).drop_last() =~= s.take(n));
    assert(s.take(n + 1).last() == s[n]);
}

/// Parses the digit run `s@.subrange(from, s@.len())`, which the caller has
/// already checked to follow an optional sign; mirrors the overflow and
/// stray-character behaviour of the standard parsers.
fn parse_digits(s: &str, from: usize) -> (r: Option<u64>)
    requires
        from <= s@.len(),
    ensures
        ({
            let body = s@.subrange(from as int, s@.len() as int);
            match r {
                Some(v) => body.len() > 0 && all_digits(body) && digits_val(body) == v,
                None => body.len() == 0 || !all_digits(body) || digits_val(body) > u64::MAX,
            }
        }),
{
    let len = s.unicode_len();
    if from >= len {
        return None;
    }
    let ghost body = s@.subrange(from as int, s@.len() as int);
    let mut acc: u64 = 0;
    let mut i: usize = from;
    while i < len
        invariant
            from <= i <= len,
            len == s@.len(),
            from < len,
            body == s@.subrange(from as int, s@.len() as int),
            acc == digits_val(body.take(i - from)),
            all_digits(body.take(i - from)),
        decreases len - i,
    {
        let c = s.get_char(i);
        let u = c as u32;
        assert(body[i - from] == s@[i as int]);
        if !(48 <= u && u <= 57) {
            assert(!all_digits(body));
            return None;
        }
        let d = (u - 48) as u64;
        proof {
            lemma_digits_val_take_step(body, i - from);
            assert(digit_val(c) == d);
        }
        let stepped = match acc.checked_mul(10) {
            Some(t) => t.checked_add(d),
            None => None,
        };
        match stepped {
            Some(v) => {
                acc = v;
            },
            None => {
                proof {
                    if all_digits(body) && digits_val(body) <= u64::MAX {
                        lemma_digits_val_take_le(body, i - from + 1);
                        assert(false);
                    }
                }
                return None;
            },
        }
        i += 1;
    }
    proof {
        assert(body.take(len - from) =~= body);
    }
    Some(acc)
}

/// Parse an unsigned 64-bit decimal exactly as `u64::from_str` does.
pub fn parse_u64(s: &str) -> (r: Option<u64>)
    ensures
        r == spec_parse_u64(s@),
{
    let len = s.unicode_len();
    let mut from: usize = 0;
    if len > 0 && s.get_char(0) == '+' {
        from = 1;
    }
    proof {
        if !(s@.len() > 0 && s@[0] == '+') {
            assert(s@.subrange(0, s@.len() as int) =~= s@);
        }
    }
    parse_digits(s, from)
}

/// Parse a signed 64-bit decimal exactly as `i64::from_str` does.
pub fn parse_i64(s: &str) -> (r: Option<i64>)
    ensures
        r == spec_parse_i64(s@),
{
    let len = s.unicode_len();
    let mut from: usize = 0;
    let mut neg = false;
    if len > 0 {
        let c = s.get_char(0);
        if c == '+' {
            from = 1;
        } else if c == '-' {
            from = 1;
            neg = true;
        }
    }
    proof {
        if !(s@.len() > 0 && (s@[0] == '+' || s@[0] == '-')) {
            assert(s@.subrange(0, s@.len() as int) =~= s@);
        }
    }
    match parse_digits(s, from) {
        None => None,
        Some(mag) => {
            if neg {
                if mag <= 0x7fffffffffffffff {
                    Some(-(mag as i64))
                } else if mag == 0x8000000000000000 {
                    Some(i64::MIN)
                } else {
                    None
                }
            } else {
                if mag <= 0x7fffffffffffffff {
                    Some(mag as i64)
                } else {
                    None
                }
            }
        },
    }
}

/// Parse a signed 32-bit decimal exactly as `i32::from_str` does.
pub fn parse_i32(s: &str) -> (r: Option<i32>)
    ensures
        r == spec_parse_i32(s@),
{
    match parse_i64(s) {
        Some(v) => {
            if -0x80000000i64 <= v && v <= 0x7fffffffi64 {
                Some(v as i32)
            } else {
                None
            }
        },
        None => None,
    }
}

/// The sequence with leading blanks removed.
pub open spec fn trim_front(s: Seq<char>) -> Seq<char>
    decreases s.len(),
{
    if s.len() > 0 && is_blank(s[0]) {
        trim_front(s.subrange(1, s.len() as int))
    } else {
        s
    }
}

/// The sequence with trailing blanks removed.
pub open spec fn trim_back(s: Seq<char>) -> Seq<char>
    decreases s.len(),
{
    if s.len() > 0 && is_blank(s.last()) {
        trim_back(s.drop_last())
    } else {
        s
    }
}

/// The sequence with blanks removed from both ends, as `str::trim` yields it
/// for ASCII text.
pub open spec fn spec_trim(s: Seq<char>) -> Seq<char> {
    trim_back(trim_front(s))
}

proof fn lemma_trim_front_range(s: Seq<char>, lo: int)
    requires
        0 <= lo <= s.len(),
        forall|k: int| 0 <= k < lo ==> is_blank(#[trigger] s[k]),
        lo == s.len() || !is_blank(s[lo]),
    ensures
        trim_front(s) == s.subrange(lo, s.len() as int),
    decreases lo,
{
    if lo == 0 {
        assert(s.subrange(0, s.len() as int) =~= s);
    } else {
        let t = s.subrange(1, s.len() as int);
        lemma_trim_front_range(t, lo - 1);
        assert(t.subrange(lo - 1, t.len() as int) =~= s.subrange(lo, s.len() as int));
    }
}

proof fn lemma_trim_back_range(s: Seq<char>, hi: int)
    requires
        0 <= hi <= s.len(),
        forall|k: int| hi <= k < s.len() ==> is_blank(#[trigger] s[k]),
        hi == 0 || !is_blank(s[hi - 1]),
    ensures
        trim_back(s) == s.subrange(0, hi),
    decreases s.len() - hi,
{
    if hi == s.len() {
        assert(s.subrange(0, hi) =~= s);
    } else {
        let t = s.drop_last();
        lemma_trim_back_range(t, hi);
        assert(t.subrange(0, hi) =~= s.subrange(0, hi));
    }
}

/// Trim blanks from both ends of a string.
pub fn trim_str(s: &str) -> (r: String)
    ensures
        r@ == spec_trim(s@),
{
    let len = s.unicode_len();
    let mut lo: usize = 0;
    while lo < len && is_blank_char(s.get_char(lo))
        invariant
            0 <= lo <= len,
            len == s@.len(),
            forall|k: int| 0 <= k < lo ==> is_blank(#[trigger] s@[k]),
        decreases len - lo,
    {
        lo += 1;
    }
    let mut hi: usize = len;
    while hi > lo && is_blank_char(s.get_char(hi - 1))
        invariant
            lo <= hi <= len,
            len == s@.len(),
            forall|k: int| 0 <= k < lo ==> is_blank(#[trigger] s@[k]),
            lo == len || !is_blank(s@[lo as int]),
            forall|k: int| hi <= k < len ==> is_blank(#[trigger] s@[k]),
        decreases hi,
    {
        hi -= 1;
    }
    proof {
        lemma_trim_front_range(s@, lo as int);
        let f = s@.subrange(lo as int, s@.len() as int);
        if hi == lo {
            lemma_trim_back_range(f, 0);
        } else {
            lemma_trim_back_range(f, hi - lo);
        }
        assert(f.subrange(0, hi - lo) =~= s@.subrange(lo as int, hi as int));
    }
    String::from_str(s.substring_char(lo, hi))
}

/// Compare two strings character by character.
pub fn str_eq(a: &str, b: &str) -> (r: bool)
    ensures
        r == (a@ == b@),
{
    let alen = a.unicode_len();
    let blen = b.unicode_len();
    if alen != blen {
        return false;
    }
    let mut i: usize = 0;
    while i < alen
        invariant
            0 <= i <= alen,
            alen == a@.len(),
            alen == b@.len(),
            forall|k: int| 0 <= k < i ==> a@[k] == b@[k],
        decreases alen - i,
    {
        if a.get_char(i) != b.get_char(i) {
            return false;
        }
        i += 1;
    }
    proof {
        assert(a@ =~= b@);
    }
    true
}

/// Blank test on one character.
pub fn is_blank_char(c: char) -> (r: bool)
    ensures
        r == is_blank(c),
{
    c == ' ' || c == '\t' || c == '\n' || c == '\x0B' || c == '\x0C' || c == '\r'
}

/// Length of the first line: the prefix before the first line feed, or the
/// whole sequence when it holds none.
pub open spec fn line_len(s: Seq<char>) -> nat
    decreases s.len(),
{
    if s.len() == 0 || s[0] == '\n' {
        0
    } else {
        1 + line_len(s.subrange(1, s.len() as int))
    }
}

pub proof fn lemma_line_len_range(s: Seq<char>, i: int)
    requires
        0 <= i <= s.len(),
        forall|k: int| 0 <= k < i ==> #[trigger] s[k] != '\n',
        i == s.len() || s[i] == '\n',
    ensures
        line_len(s) == i,
    decreases i,
{
    if i > 0 {
        let t = s.subrange(1, s.len() as int);
        lemma_line_len_range(t, i - 1);
    }
}

/// Length of the blank-free run starting the sequence.
pub open spec fn run_len(s: Seq<char>) -> nat
    decreases s.len(),
{
    if s.len() == 0 || is_blank(s[0]) {
        0
    } else {
        1 + run_len(s.subrange(1, s.len() as int))
    }
}

proof fn lemma_run_len_le(s: Seq<char>)
    ensures
        run_len(s) <= s.len(),
    decreases s.len(),
{
    if s.len() > 0 && !is_blank(s[0]) {
        lemma_run_len_le(s.subrange(1, s.len() as int));
    }
}

/// The maximal blank-free runs of the sequence, in order: the fields of a
/// whitespace-separated record.
pub open spec fn spec_fields(s: Seq<char>) -> Seq<Seq<char>>
    decreases s.len(),
    via spec_fields_decreases
{
    if s.len() == 0 {
        Seq::empty()
    } else if is_blank(s[0]) {
        spec_fields(s.subrange(1, s.len() as int))
    } else {
        seq![s.take(run_len(s) as int)] + spec_fields(s.subrange(run_len(s) as int, s.len() as int))
    }
}

#[via_fn]
proof fn spec_fields_decreases(s: Seq<char>) {
    if s.len() > 0 && !is_blank(s[0]) {
        lemma_run_len_le(s);
    }
}

/// Split a string into its whitespace-separated fields.
pub fn split_fields(s: &str) -> (r: Vec<String>)
    ensures
        r.deep_view() == spec_fields(s@),
{
    let len = s.unicode_len();
    let mut out: Vec<String> = Vec::new();
    let mut i: usize = 0;
    proof {
        assert(s@.subrange(0, s@.len() as int) =~= s@);
        assert(out.deep_view() + spec_fields(s@) =~= spec_fields(s@));
    }
    while i < len
        invariant
            0 <= i <= len,
            len == s@.len(),
            spec_fields(s@) == out.deep_view() + spec_fields(s@.subrange(i as int, s@.len() as int)),
        decreases len - i,
    {
        let c = s.get_char(i);
        if is_blank_char(c) {
            proof {
                let rest = s@.subrange(i as int, s@.len() as int);
                assert(rest.subrange(1, rest.len() as int) =~= s@.subrange(
                    i + 1,
                    s@.len() as int,
                ));
                assert(out.deep_view() + spec_fields(rest) == out.deep_view() + spec_fields(
                    s@.subrange(i + 1, s@.len() as int),
                ));
            }
            i += 1;
        } else {
            let mut j: usize = i;
            while j < len && !is_blank_char(s.get_char(j))
                invariant
                    i <= j <= len,
                    len == s@.len(),
                    run_len(s@.subrange(i as int, s@.len() as int)) == (j - i) + run_len(
                        s@.subrange(j as int, s@.len() as int),
                    ),
                decreases len - j,
            {
                proof {
                    let cur = s@.subrange(j as int, s@.len() as int);
                    assert(cur[0] == s@[j as int]);
                    assert(cur.subrange(1, cur.len() as int) =~= s@.subrange(
                        j + 1,
                        s@.len() as int,
                    ));
                }
                j += 1;
            }
            proof {
                let tail = s@.subrange(j as int, s@.len() as int);
                if j < len {
                    assert(tail[0] == s@[j as int]);
                }
                assert(run_len(tail) == 0);
                let rest = s@.subrange(i as int, s@.len() as int);
                assert(run_len(rest) == j - i);
                assert(rest.take((j - i) as int) =~= s@.subrange(i as int, j as int));
                assert(rest.subrange((j - i) as int, rest.len() as int) =~= s@.subrange(
                    j as int,
                    s@.len() as int,
                ));
            }
            let field = String::from_str(s.substring_char(i, j));
            out.push(field);
            proof {
                assert(out.deep_view() =~= out.deep_view().drop_last().push(
                    s@.subrange(i as int, j as int),
                ));
                assert(out.deep_view().drop_last() + (seq![
                    s@.subrange(i as int, j as int),
                ] + spec_fields(s@.subrange(j as int, s@.len() as int))) =~= out.deep_view()
                    + spec_fields(s@.subrange(j as int, s@.len() as int)));
            }
            i = j;
        }
    }
    proof {
        assert(spec_fields(s@.subrange(i as int, s@.len() as int)) =~= Seq::<Seq<char>>::empty());
        assert(out.deep_view() + Seq::<Seq<char>>::empty() =~= out.deep_view());
    }
    out
}

} // verus!
