//! The execution harness: the result of one confined script run, and the
//! defensive parsing of the grade token from adversarial process output.
//!
//! The parsing rule is a fixed external contract: take the last non-empty
//! output line, require it to contain the literal marker `[RESULT] `, take
//! the substring after the marker up to the next `/`, and parse it as an
//! integer.  Any failure in this chain yields grade `0`, never a hard
//! error: the value only seeds an automatic grade that a human can
//! override.

use vstd::prelude::*;

use crate::container::Container;
use crate::ops::ExitStatus;
use crate::ops::seq_views;

verus! {

/// What one confined script invocation produced: both streams, buffered in
/// full, the exit status, and — for the run script only — the parsed grade.
#[derive(Debug)]
pub struct ExecutionResult {
    pub stdout: String,
    pub stderr: String,
    pub exit: ExitStatus,
    pub grade: Option<i32>,
}

/// The literal grade marker.
pub open spec fn marker() -> Seq<char> {
    "[RESULT] "@
}

/// The largest index `i < end` with `s[i] == '\n'`, or `-1` when there is
/// none.
pub open spec fn last_newline_before(s: Seq<char>, end: int) -> int
    decreases end,
{
    if end <= 0 {
        -1
    } else if s[end - 1] == '\n' {
        end - 1
    } else {
        last_newline_before(s, end - 1)
    }
}

/// A line with one trailing carriage return removed, so that both `\n` and
/// `\r\n` line endings are handled.
pub open spec fn strip_cr(l: Seq<char>) -> Seq<char> {
    if l.len() > 0 && l.last() == '\r' {
        l.drop_last()
    } else {
        l
    }
}

/// The last non-empty line of `s.take(end)`, where lines are separated by
/// `'\n'` and a line is taken without its trailing `'\r'`.
pub open spec fn last_nonempty_line_upto(s: Seq<char>, end: int) -> Option<Seq<char>>
    decreases end,
        via last_nonempty_line_upto_dec
{
    if end <= 0 {
        None
    } else {
        let nl = last_newline_before(s, end);
        let line = strip_cr(s.subrange(nl + 1, end));
        if line.len() > 0 {
            Some(line)
        } else if nl <= 0 {
            None
        } else {
            last_nonempty_line_upto(s, nl)
        }
    }
}

#[via_fn]
proof fn last_nonempty_line_upto_dec(s: Seq<char>, end: int) {
    if end > 0 {
        lemma_last_newline_before_lt(s, end);
    }
}

proof fn lemma_last_newline_before_lt(s: Seq<char>, end: int)
    requires
        end > 0,
    ensures
        last_newline_before(s, end) < end,
    decreases end,
{
    if s[end - 1] != '\n' {
        if end > 1 {
            lemma_last_newline_before_lt(s, end - 1);
        } else {
            assert(last_newline_before(s, 0) == -1);
        }
    }
}

/// The last non-empty line of the whole output.
pub open spec fn last_nonempty_line(s: Seq<char>) -> Option<Seq<char>> {
    last_nonempty_line_upto(s, s.len() as int)
}

/// Whether the marker occupies positions `i .. i + 9` of `l`.
pub open spec fn is_marker_at(l: Seq<char>, i: int) -> bool {
    0 <= i && i + 9 <= l.len() && l.subrange(i, i + 9) == marker()
}

/// The largest `q <= p` at which the marker occurs, or `-1` when there is
/// none.
pub open spec fn last_marker_at_or_before(l: Seq<char>, p: int) -> int
    decreases p + 1,
{
    if p < 0 {
        -1
    } else if is_marker_at(l, p) {
        p
    } else {
        last_marker_at_or_before(l, p - 1)
    }
}

/// The position of the last occurrence of the marker in `l`, or `-1`.
pub open spec fn last_marker(l: Seq<char>) -> int {
    last_marker_at_or_before(l, l.len() - 9)
}

/// The smallest `j >= i` with `l[j] == '/'`, or `l.len()` when there is
/// none.
pub open spec fn first_slash_from(l: Seq<char>, i: int) -> int
    recommends
        0 <= i,
    decreases l.len() - i,
{
    if i >= l.len() {
        l.len() as int
    } else if l[i] == '/' {
        i
    } else {
        first_slash_from(l, i + 1)
    }
}

pub open spec fn is_digit_char(c: char) -> bool {
    48 <= c as u32 && c as u32 <= 57
}

pub open spec fn digit_val(c: char) -> int {
    c as u32 - 48
}

pub open spec fn all_digits(t: Seq<char>) -> bool {
    forall|i: int| 0 <= i < t.len() ==> is_digit_char(#[trigger] t[i])
}

/// The value of a pure digit string.
pub open spec fn digits_val(t: Seq<char>) -> int
    decreases t.len(),
{
    if t.len() == 0 {
        0
    } else {
        digits_val(t.drop_last()) * 10 + digit_val(t.last())
    }
}

/// What `str::parse::<i32>` accepts and returns: an optional sign, then at
/// least one digit, with the value in range.
pub open spec fn parse_i32(t: Seq<char>) -> Option<i32> {
    let signed = t.len() > 0 && (t[0] == '+' || t[0] == '-');
    let digits = if signed {
        t.subrange(1, t.len() as int)
    } else {
        t
    };
    let sign: int = if t.len() > 0 && t[0] == '-' {
        -1
    } else {
        1
    };
    if digits.len() == 0 || !all_digits(digits) {
        None
    } else {
        let v = sign * digits_val(digits);
        if i32::MIN <= v <= i32::MAX {
            Some(v as i32)
        } else {
            None
        }
    }
}

/// The parsed grade of one captured output: the last non-empty line must
/// contain the marker; the token after the marker's last occurrence, up to
/// the next `/`, is parsed as an integer; every failure yields `0`.
pub open spec fn spec_parse_grade(out: Seq<char>) -> i32 {
    match last_nonempty_line(out) {
        None => 0,
        Some(line) => {
            let p = last_marker(line);
            if p < 0 {
                0
            } else {
                let tend = first_slash_from(line, p + 9);
                match parse_i32(line.subrange(p + 9, tend)) {
                    Some(g) => g,
                    None => 0,
                }
            }
        },
    }
}

proof fn lemma_last_newline_at(s: Seq<char>, end: int, i: int)
    requires
        -1 <= i < end <= s.len(),
        i >= 0 ==> s[i] == '\n',
        forall|k: int| i < k < end ==> s[k] != '\n',
    ensures
        last_newline_before(s, end) == i,
    decreases end,
{
    if end - 1 > i {
        lemma_last_newline_at(s, end - 1, i);
    }
}

proof fn lemma_digits_val_nonneg(t: Seq<char>)
    requires
        all_digits(t),
    ensures
        digits_val(t) >= 0,
    decreases t.len(),
{
    if t.len() > 0 {
        assert(all_digits(t.drop_last()));
        lemma_digits_val_nonneg(t.drop_last());
    }
}

/// A digit string is worth at least any of its prefixes.
proof fn lemma_digits_val_prefix_le(t: Seq<char>, k: int)
    requires
        all_digits(t),
        0 <= k <= t.len(),
    ensures
        digits_val(t.take(k)) <= digits_val(t),
    decreases t.len() - k,
{
    if k < t.len() {
        assert(t.take(k + 1).drop_last() =~= t.take(k));
        assert(all_digits(t.take(k)));
        lemma_digits_val_nonneg(t.take(k));
        assert(digits_val(t.take(k + 1)) == digits_val(t.take(k)) * 10 + digit_val(
            t.take(k + 1).last(),
        ));
        lemma_digits_val_prefix_le(t, k + 1);
    } else {
        assert(t.take(k) =~= t);
    }
}

/// Finds the last non-empty line of the output.
fn find_last_line<'a>(out: &'a str) -> (r: Option<&'a str>)
    ensures
        match r {
            Some(l) => last_nonempty_line(out@) == Some(l@),
            None => last_nonempty_line(out@) is None,
        },
{
    let n = out.unicode_len();
    let mut end = n;
    loop
        invariant
            end <= n,
            n == out@.len(),
            last_nonempty_line_upto(out@, end as int) == last_nonempty_line(out@),
        decreases end,
    {
        if end == 0 {
            return None;
        }
        let mut start = end;
        while start > 0 && out.get_char(start - 1) != '\n'
            invariant
                start <= end <= n,
                n == out@.len(),
                forall|k: int| start <= k < end ==> out@[k] != '\n',
            decreases start,
        {
            start = start - 1;
        }
        proof {
            lemma_last_newline_at(out@, end as int, start - 1);
        }
        let mut lend = end;
        if lend > start && out.get_char(lend - 1) == '\r' {
            lend = lend - 1;
        }
        proof {
            assert(out@.subrange(start as int, lend as int) =~= strip_cr(
                out@.subrange(start as int, end as int),
            ));
        }
        if lend > start {
            let line = out.substring_char(start, lend);
            return Some(line);
        }
        if start <= 1 {
            return None;
        }
        end = start - 1;
    }
}

/// Checks whether the marker occupies positions `p .. p + 9` of the line.
fn marker_at(line: &str, p: usize) -> (b: bool)
    requires
        p + 9 <= line@.len(),
        p + 9 <= usize::MAX,
    ensures
        b == is_marker_at(line@, p as int),
{
    let mk = "[RESULT] ";
    proof {
        reveal_strlit("[RESULT] ");
    }
    let mut j: usize = 0;
    while j < 9
        invariant
            j <= 9,
            p + 9 <= line@.len(),
            p + 9 <= usize::MAX,
            mk@ == marker(),
            mk@.len() == 9,
            forall|k: int| 0 <= k < j ==> line@[p + k] == marker()[k],
        decreases 9 - j,
    {
        if line.get_char(p + j) != mk.get_char(j) {
            proof {
                assert(line@.subrange(p as int, p as int + 9)[j as int] != marker()[j as int]);
            }
            return false;
        }
        j = j + 1;
    }
    proof {
        assert(line@.subrange(p as int, p as int + 9) =~= marker());
    }
    true
}

/// Finds the last occurrence of the marker in the line.
fn find_last_marker(line: &str) -> (r: Option<usize>)
    ensures
        match r {
            Some(p) => p + 9 <= line@.len() && last_marker(line@) == p as int,
            None => last_marker(line@) == -1,
        },
{
    let n = line.unicode_len();
    if n < 9 {
        return None;
    }
    let mut p: usize = n - 9;
    loop
        invariant
            p + 9 <= n,
            n == line@.len(),
            last_marker(line@) == last_marker_at_or_before(line@, p as int),
        decreases p,
    {
        if marker_at(line, p) {
            return Some(p);
        }
        if p == 0 {
            proof {
                assert(last_marker_at_or_before(line@, 0) == last_marker_at_or_before(line@, -1));
                assert(last_marker_at_or_before(line@, -1) == -1);
            }
            return None;
        }
        p = p - 1;
    }
}

/// Parses a whole token exactly as `str::parse::<i32>` would.
fn parse_i32_str(t: &str) -> (r: Option<i32>)
    ensures
        r == parse_i32(t@),
{
    let n = t.unicode_len();
    if n == 0 {
        return None;
    }
    let c0 = t.get_char(0);
    let neg = c0 == '-';
    let signed = neg || c0 == '+';
    let start: usize = if signed {
        1
    } else {
        0
    };
    if start == n {
        return None;
    }
    let ghost digits: Seq<char> = if signed {
        t@.subrange(1, n as int)
    } else {
        t@
    };
    let bound: u64 = if neg {
        2147483648
    } else {
        2147483647
    };
    let mut acc: u64 = 0;
    let mut j: usize = start;
    while j < n
        invariant
            start <= j <= n,
            n == t@.len(),
            start == if signed { 1int } else { 0int },
            signed == (t@[0] == '+' || t@[0] == '-'),
            neg == (t@[0] == '-'),
            digits == if signed { t@.subrange(1, n as int) } else { t@ },
            bound == if neg { 2147483648u64 } else { 2147483647u64 },
            acc as int == digits_val(digits.take(j - start)),
            all_digits(digits.take(j - start)),
            acc <= bound,
        decreases n - j,
    {
        let c = t.get_char(j);
        let u = c as u32;
        if u < 48 || u > 57 {
            proof {
                assert(digits[j - start] == t@[j as int]);
                assert(!is_digit_char(digits[j - start]));
            }
            return None;
        }
        proof {
            assert(digits.take(j - start + 1).drop_last() =~= digits.take(j - start));
            assert(digits.take(j - start + 1).last() == t@[j as int]);
            assert(all_digits(digits.take(j - start + 1)));
        }
        proof {
            assert(digits_val(digits.take(j - start + 1)) == digits_val(digits.take(j - start))
                * 10 + digit_val(t@[j as int]));
        }
        acc = acc * 10 + ((u - 48) as u64);
        if acc > bound {
            proof {
                assert(acc as int == digits_val(digits.take(j - start + 1)));
                if all_digits(digits) {
                    lemma_digits_val_prefix_le(digits, j - start + 1);
                    assert(digits_val(digits) >= acc as int);
                    assert(digits_val(digits) > bound as int);
                    assert(t@.len() > 0);
                    assert(digits == if t@.len() > 0 && (t@[0] == '+' || t@[0] == '-') {
                        t@.subrange(1, t@.len() as int)
                    } else {
                        t@
                    });
                    if neg {
                        assert(t@[0] == '-');
                        assert(digits_val(digits) >= 2147483649);
                        assert(-1 * digits_val(digits) <= -2147483649) by (nonlinear_arith)
                            requires
                                digits_val(digits) >= 2147483649,
                        ;
                        assert(-1 * digits_val(digits) < i32::MIN);
                        assert(parse_i32(t@) is None);
                    } else {
                        assert(digits_val(digits) > 2147483647);
                        assert(1 * digits_val(digits) > i32::MAX);
                        assert(parse_i32(t@) is None);
                    }
                } else {
                    assert(parse_i32(t@) is None);
                }
            }
            return None;
        }
        j = j + 1;
    }
    proof {
        assert(digits.take(n - start) =~= digits);
        assert(acc as int == digits_val(digits));
        assert(all_digits(digits));
        assert(digits.len() > 0);
        assert(digits == if t@.len() > 0 && (t@[0] == '+' || t@[0] == '-') {
            t@.subrange(1, t@.len() as int)
        } else {
            t@
        });
        if neg {
            assert(t@[0] == '-');
            assert(i32::MIN <= -1 * digits_val(digits) <= i32::MAX);
            assert(parse_i32(t@) == Some((-1 * digits_val(digits)) as i32));
        } else {
            assert(i32::MIN <= 1 * digits_val(digits) <= i32::MAX);
            assert(parse_i32(t@) == Some((1 * digits_val(digits)) as i32));
        }
    }
    if neg {
        if acc == 2147483648 {
            Some(i32::MIN)
        } else {
            Some(-(acc as i32))
        }
    } else {
        Some(acc as i32)
    }
}

/// Parses the grade token out of one captured output, per the fixed rule;
/// every failure yields `0`.
pub fn parse_grade(out: &str) -> (g: i32)
    ensures
        g == spec_parse_grade(out@),
{
    match find_last_line(out) {
        None => 0,
        Some(line) => {
            match find_last_marker(line) {
                None => 0,
                Some(p) => {
                    let n = line.unicode_len();
                    let tstart = p + 9;
                    let mut tend = tstart;
                    while tend < n && line.get_char(tend) != '/'
                        invariant
                            tstart <= tend <= n,
                            n == line@.len(),
                            first_slash_from(line@, tstart as int) == first_slash_from(
                                line@,
                                tend as int,
                            ),
                        decreases n - tend,
                    {
                        tend = tend + 1;
                    }
                    let token = line.substring_char(tstart, tend);
                    match parse_i32_str(token) {
                        Some(g) => g,
                        None => 0,
                    }
                },
            }
        },
    }
}

/// The full command line that runs the fixed build script inside the
/// container (without the privilege prefix).
pub fn build_command(c: &Container) -> (v: Vec<String>)
    ensures
        seq_views(v@) == c@.spec_cmd() + seq!["sh"@, "build.sh"@],
{
    let mut v = c.cmd();
    v.push(String::from_str("sh"));
    v.push(String::from_str("build.sh"));
    assert(seq_views(v@) =~= c@.spec_cmd() + seq!["sh"@, "build.sh"@]);
    v
}

/// The full command line that runs the fixed run script inside the
/// container (without the privilege prefix).
pub fn run_command(c: &Container) -> (v: Vec<String>)
    ensures
        seq_views(v@) == c@.spec_cmd() + seq!["sh"@, "run.sh"@],
{
    let mut v = c.cmd();
    v.push(String::from_str("sh"));
    v.push(String::from_str("run.sh"));
    assert(seq_views(v@) =~= c@.spec_cmd() + seq!["sh"@, "run.sh"@]);
    v
}

/// The result of the build script: both streams and the exit status,
/// returned without judging them — the caller decides pass/fail.
pub fn build_result(stdout: String, stderr: String, exit: ExitStatus) -> (r: ExecutionResult)
    ensures
        r.stdout == stdout,
        r.stderr == stderr,
        r.exit == exit,
        r.grade is None,
{
    ExecutionResult { stdout, stderr, exit, grade: None }
}

/// The result of the run script: grade extraction is attempted only when
/// the exit status indicates success; otherwise the grade is `0`.
pub fn run_result(stdout: String, stderr: String, exit: ExitStatus) -> (r: ExecutionResult)
    ensures
        r.stdout == stdout,
        r.stderr == stderr,
        r.exit == exit,
        r.grade == Some(
            if exit.success() {
                spec_parse_grade(stdout@)
            } else {
                0i32
            },
        ),
{
    let grade = if exit.is_success() {
        parse_grade(stdout.as_str())
    } else {
        0
    };
    ExecutionResult { stdout, stderr, exit, grade: Some(grade) }
}

} // verus!
