//! Write-progress sampling: the block copier is signalled to print transfer
//! statistics into its log, and the last statistics line is read back:
//! `2841640960 bytes transferred in 997.746971 secs (2848058 bytes/sec)`.
//! Without statistics the written amount is extrapolated from elapsed time
//! and the last known rate.

use vstd::prelude::*;
use crate::flash::FlashEvent;
use crate::text::{contains_seq, contains_text, occurs_at, matches_at};

verus! {

/// What one statistics line reports.
#[derive(Clone, Copy, Debug, PartialEq, Eq, Structural)]
pub struct TransferSample {
    /// Bytes transferred so far, when the line's first word is a number.
    pub bytes: Option<u64>,
    /// Bytes per second, when the line ends in `(<n> bytes/sec)`.
    pub rate: Option<u64>,
}

/// A line without one carriage return at its end.
pub open spec fn without_cr(l: Seq<char>) -> Seq<char> {
    if l.len() > 0 && l.last() == '\r' {
        l.drop_last()
    } else {
        l
    }
}

/// The lines of `s`, where `cur` holds the line begun before it: a line
/// ends at each line feed (one carriage return before it is dropped); a
/// last line without a line feed is kept unless it is empty.
pub open spec fn lines_from(cur: Seq<char>, s: Seq<char>) -> Seq<Seq<char>>
    decreases s.len(),
{
    if s.len() == 0 {
        if cur.len() == 0 {
            Seq::empty()
        } else {
            seq![cur]
        }
    } else if s[0] == '\n' {
        seq![without_cr(cur)] + lines_from(Seq::empty(), s.drop_first())
    } else {
        lines_from(cur.push(s[0]), s.drop_first())
    }
}

/// The lines of a text, as `str::lines` cuts them.
pub open spec fn lines_of(s: Seq<char>) -> Seq<Seq<char>> {
    lines_from(Seq::empty(), s)
}

/// Relies on `str::lines`: lines end at `\n` or `\r\n`, the terminators are
/// not part of the lines, and the final line ending is optional.
#[verifier::external_body]
pub(crate) fn split_lines(s: &str) -> (r: Vec<String>)
    ensures
        r@.map_values(|l: String| l@) == lines_of(s@),
{
    s.lines().map(|l| l.to_string()).collect()
}

pub open spec fn is_space(c: char) -> bool {
    c == ' ' || c == '\t' || c == '\n' || c == '\r'
}

pub open spec fn is_digit(c: char) -> bool {
    '0' <= c <= '9'
}

/// Every character is a decimal digit.
pub open spec fn all_digits(s: Seq<char>) -> bool {
    forall|i: int| 0 <= i < s.len() ==> is_digit(#[trigger] s[i])
}

/// The value of a string of decimal digits.
pub open spec fn decimal_value(s: Seq<char>) -> nat
    decreases s.len(),
{
    if s.len() == 0 {
        0
    } else {
        decimal_value(s.drop_last()) * 10 + (s.last() as nat - '0' as nat) as nat
    }
}

/// The number written by `s`: a non-empty run of digits that fits in `u64`.
pub open spec fn number_of(s: Seq<char>) -> Option<u64> {
    if s.len() > 0 && all_digits(s) && decimal_value(s) <= u64::MAX {
        Some(decimal_value(s) as u64)
    } else {
        None
    }
}

/// The characters of `s` up to its first space.
pub open spec fn word_prefix(s: Seq<char>) -> Seq<char>
    decreases s.len(),
{
    if s.len() == 0 || is_space(s[0]) {
        Seq::empty()
    } else {
        seq![s[0]] + word_prefix(s.drop_first())
    }
}

/// The first space-separated word of `s` (empty when there is none).
pub open spec fn first_word(s: Seq<char>) -> Seq<char>
    decreases s.len(),
{
    if s.len() == 0 {
        Seq::empty()
    } else if is_space(s[0]) {
        first_word(s.drop_first())
    } else {
        word_prefix(s)
    }
}

/// `k` is the last position where `p` occurs in `s`.
pub open spec fn last_at(s: Seq<char>, p: Seq<char>, k: int) -> bool {
    occurs_at(s, k, p) && forall|j: int| k < j <= s.len() ==> !#[trigger] occurs_at(s, j, p)
}

/// The rate text of a line: between its last `(` and its last ` bytes/sec)`.
pub open spec fn rate_text(l: Seq<char>) -> Option<Seq<char>> {
    if exists|a: int, b: int| last_at(l, "("@, a) && last_at(l, " bytes/sec)"@, b) && a + 1 <= b {
        let (a, b) = choose|a: int, b: int|
            last_at(l, "("@, a) && last_at(l, " bytes/sec)"@, b) && a + 1 <= b;
        Some(l.subrange(a + 1, b))
    } else {
        None
    }
}

/// A statistics line mentions both `bytes` and `transferred`.
pub open spec fn is_stats_line(l: Seq<char>) -> bool {
    contains_seq(l, "bytes"@) && contains_seq(l, "transferred"@)
}

/// What a statistics line reports.
pub open spec fn sample_of(l: Seq<char>) -> TransferSample {
    TransferSample {
        bytes: number_of(first_word(l)),
        rate: match rate_text(l) {
            Some(t) => number_of(t),
            None => None,
        },
    }
}

/// The sample of the last statistics line among `ls`, if any.
pub open spec fn last_sample(ls: Seq<Seq<char>>) -> Option<TransferSample>
    decreases ls.len(),
{
    if ls.len() == 0 {
        None
    } else if is_stats_line(ls.last()) {
        Some(sample_of(ls.last()))
    } else {
        last_sample(ls.drop_last())
    }
}

/// A text has at most one last occurrence of a pattern.
pub proof fn lemma_last_at_unique(s: Seq<char>, p: Seq<char>, a: int, b: int)
    requires
        last_at(s, p, a),
        last_at(s, p, b),
    ensures
        a == b,
{
    if a < b {
        assert(!occurs_at(s, b, p));
    } else if b < a {
        assert(!occurs_at(s, a, p));
    }
}

/// Reads a run of decimal digits as a `u64`; `None` when it is empty, holds
/// anything else, or does not fit.
pub fn parse_number(s: &str) -> (r: Option<u64>)
    ensures
        r == number_of(s@),
{
    let n = s.unicode_len();
    if n == 0 {
        return None;
    }
    let mut v: u64 = 0;
    let mut i: usize = 0;
    while i < n
        invariant
            n == s@.len(),
            i <= n,
            all_digits(s@.subrange(0, i as int)),
            v == decimal_value(s@.subrange(0, i as int)),
        decreases n - i,
    {
        let c = s.get_char(i);
        let ghost pre = s@.subrange(0, i as int);
        let ghost next = s@.subrange(0, i + 1);
        assert(next.drop_last() =~= pre);
        if !('0' <= c && c <= '9') {
            assert(!all_digits(s@)) by {
                assert(!is_digit(s@[i as int]));
            }
            return None;
        }
        let d = (c as u32 - '0' as u32) as u64;
        if v > (u64::MAX - d) / 10 {
            proof {
                lemma_prefix_value_bound(s@, (i + 1) as int);
            }
            return None;
        }
        v = v * 10 + d;
        i = i + 1;
    }
    assert(s@.subrange(0, n as int) =~= s@);
    Some(v)
}

proof fn lemma_prefix_value_bound(s: Seq<char>, k: int)
    requires
        0 <= k <= s.len(),
        all_digits(s.subrange(0, k)) ==> decimal_value(s.subrange(0, k)) > u64::MAX,
    ensures
        number_of(s) is None,
    decreases s.len() - k,
{
    if k == s.len() {
        assert(s.subrange(0, k) =~= s);
    } else {
        let a = s.subrange(0, k);
        let b = s.subrange(0, k + 1);
        assert(b.drop_last() =~= a);
        assert forall|i: int| 0 <= i < k implies is_digit(#[trigger] a[i]) || !all_digits(b) by {
            if all_digits(b) {
                assert(a[i] == b[i]);
            }
        }
        if all_digits(b) {
            assert(is_digit(b[k]));
            assert(decimal_value(b) >= decimal_value(a) * 10);
        }
        lemma_prefix_value_bound(s, k + 1);
    }
}

/// The first space-separated word of a line.
pub fn first_word_of(l: &str) -> (r: &str)
    ensures
        r@ == first_word(l@),
{
    let n = l.unicode_len();
    let mut i: usize = 0;
    assert(l@.subrange(0, n as int) =~= l@);
    while i < n && is_space_char(l.get_char(i))
        invariant
            n == l@.len(),
            i <= n,
            first_word(l@) == first_word(l@.subrange(i as int, n as int)),
        decreases n - i,
    {
        assert(l@.subrange(i as int, n as int).drop_first() =~= l@.subrange(i + 1, n as int));
        i = i + 1;
    }
    let start = i;
    proof {
        if start < n {
            assert(first_word(l@.subrange(start as int, n as int)) == word_prefix(
                l@.subrange(start as int, n as int),
            ));
        }
    }
    while i < n && !is_space_char(l.get_char(i))
        invariant
            n == l@.len(),
            start <= i <= n,
            word_prefix(l@.subrange(start as int, n as int)) == l@.subrange(start as int, i as int)
                + word_prefix(l@.subrange(i as int, n as int)),
        decreases n - i,
    {
        let ghost rest = l@.subrange(i as int, n as int);
        assert(rest.drop_first() =~= l@.subrange(i + 1, n as int));
        assert(l@.subrange(start as int, i + 1) =~= l@.subrange(start as int, i as int) + seq![
            l@[i as int],
        ]);
        i = i + 1;
    }
    assert(word_prefix(l@.subrange(i as int, n as int)) =~= Seq::<char>::empty());
    assert(l@.subrange(start as int, i as int) + Seq::<char>::empty() =~= l@.subrange(
        start as int,
        i as int,
    ));
    l.substring_char(start, i)
}

fn is_space_char(c: char) -> (r: bool)
    ensures
        r == is_space(c),
{
    c == ' ' || c == '\t' || c == '\n' || c == '\r'
}

/// The last position where `p` occurs in `s`.
pub fn find_last(s: &str, p: &str) -> (r: Option<usize>)
    ensures
        r matches Some(k) ==> last_at(s@, p@, k as int),
        r is None ==> forall|j: int| 0 <= j <= s@.len() ==> !#[trigger] occurs_at(s@, j, p@),
{
    let n = s.unicode_len();
    let mut i: usize = n;
    while i > 0 || matches_at(s, 0, p)
        invariant
            n == s@.len(),
            i <= n,
            forall|j: int| i < j <= n ==> !#[trigger] occurs_at(s@, j, p@),
        decreases i,
    {
        if matches_at(s, i, p) {
            return Some(i);
        }
        if i == 0 {
            return None;
        }
        i = i - 1;
    }
    if matches_at(s, i, p) {
        return Some(i);
    }
    None
}

/// What one statistics line reports.
pub fn parse_sample(l: &str) -> (r: TransferSample)
    ensures
        r == sample_of(l@),
{
    let bytes = parse_number(first_word_of(l));
    let open = find_last(l, "(");
    let close = find_last(l, " bytes/sec)");
    let rate = match (open, close) {
        (Some(a), Some(b)) => {
            if a < b {
                proof {
                    assert(last_at(l@, "("@, a as int) && last_at(l@, " bytes/sec)"@, b as int));
                    assert forall|x: int, y: int|
                        last_at(l@, "("@, x) && last_at(l@, " bytes/sec)"@, y) implies x == a
                        && y == b by {
                        lemma_last_at_unique(l@, "("@, x, a as int);
                        lemma_last_at_unique(l@, " bytes/sec)"@, y, b as int);
                    }
                }
                parse_number(l.substring_char(a + 1, b))
            } else {
                proof {
                    assert forall|x: int, y: int|
                        last_at(l@, "("@, x) && last_at(l@, " bytes/sec)"@, y) implies !(x + 1 <= y) by {
                        lemma_last_at_unique(l@, "("@, x, a as int);
                        lemma_last_at_unique(l@, " bytes/sec)"@, y, b as int);
                    }
                }
                None
            }
        },
        _ => {
            proof {
                assert forall|x: int, y: int|
                    last_at(l@, "("@, x) && last_at(l@, " bytes/sec)"@, y) implies false by {
                    if open is None {
                        assert(!occurs_at(l@, x, "("@));
                    } else {
                        assert(!occurs_at(l@, y, " bytes/sec)"@));
                    }
                }
            }
            None
        },
    };
    TransferSample { bytes, rate }
}

/// The sample of the last statistics line among `lines`.
pub fn last_sample_in(lines: &Vec<String>) -> (r: Option<TransferSample>)
    ensures
        r == last_sample(lines@.map_values(|l: String| l@)),
{
    let ghost ls = lines@.map_values(|l: String| l@);
    let mut i: usize = lines.len();
    assert(ls.subrange(0, i as int) =~= ls);
    while i > 0
        invariant
            i <= lines@.len(),
            ls == lines@.map_values(|l: String| l@),
            last_sample(ls) == last_sample(ls.subrange(0, i as int)),
        decreases i,
    {
        let l = lines[i - 1].as_str();
        let ghost pre = ls.subrange(0, i as int);
        assert(pre.last() == l@);
        if contains_text(l, "bytes") && contains_text(l, "transferred") {
            return Some(parse_sample(l));
        }
        assert(pre.drop_last() =~= ls.subrange(0, i - 1));
        i = i - 1;
    }
    None
}

/// The sample of the last statistics line of the copier's log.
pub fn last_sample_of_log(log: &str) -> (r: Option<TransferSample>)
    ensures
        r == last_sample(lines_of(log@)),
{
    let lines = split_lines(log);
    last_sample_in(&lines)
}

/// Bytes written so far: the reported count when there is one above zero,
/// else the elapsed time at the last known rate.
pub fn estimate_written(reported: Option<u64>, elapsed_secs: u64, rate: u64) -> (r: u64)
    ensures
        reported is Some && reported->0 > 0 ==> r == reported->0,
        !(reported is Some && reported->0 > 0) ==> r == (if elapsed_secs * rate > u64::MAX {
            u64::MAX as int
        } else {
            elapsed_secs * rate
        }),
{
    match reported {
        Some(b) => {
            if b > 0 {
                return b;
            }
        },
        None => {},
    }
    assert(elapsed_secs * rate <= u64::MAX * u64::MAX) by (nonlinear_arith)
        requires
            elapsed_secs <= u64::MAX,
            rate <= u64::MAX,
    ;
    let wide: u128 = elapsed_secs as u128 * rate as u128;
    if wide > u64::MAX as u128 {
        u64::MAX
    } else {
        wide as u64
    }
}

/// Seconds left to write `total - written` bytes at `rate` bytes per second
/// (zero when the rate is unknown).
pub fn remaining_secs(total: u64, written: u64, rate: u64) -> (r: u64)
    ensures
        rate == 0 ==> r == 0,
        rate > 0 && written >= total ==> r == 0,
        rate > 0 && written < total ==> r == (total - written) / (rate as int),
{
    if rate == 0 || written >= total {
        return 0;
    }
    (total - written) / rate
}

/// How a finished write is read from the writer's exit status and its log:
/// a successful exit that logged its statistics is done; a log that reports
/// refused access is a denial; any other failed exit is a failure.
pub open spec fn write_outcome_spec(success: bool, log: Seq<char>) -> FlashEvent {
    if success && contains_seq(log, "bytes transferred"@) {
        FlashEvent::StepDone
    } else if contains_seq(log, "Operation not permitted"@) || contains_seq(log, "Permission denied"@) {
        FlashEvent::AccessDenied
    } else if !success {
        FlashEvent::StepFailed
    } else {
        FlashEvent::StepDone
    }
}

/// Reads the outcome of a finished write.
pub fn write_outcome(success: bool, log: &str) -> (r: FlashEvent)
    ensures
        r == write_outcome_spec(success, log@),
{
    if success && contains_text(log, "bytes transferred") {
        FlashEvent::StepDone
    } else if contains_text(log, "Operation not permitted") || contains_text(log, "Permission denied") {
        FlashEvent::AccessDenied
    } else if !success {
        FlashEvent::StepFailed
    } else {
        FlashEvent::StepDone
    }
}

/// The size a header line announces: `Content-Length: <n>` (either case of
/// the name), value trimmed.
pub open spec fn length_of_line(l: Seq<char>) -> Option<u64> {
    if occurs_at(l, 0, "Content-Length:"@) || occurs_at(l, 0, "content-length:"@) {
        number_of(crate::text::trimmed(l.subrange(15, l.len() as int)))
    } else {
        None
    }
}

/// The size announced by the last header line that gives one (after
/// redirects, the final response's headers come last).
pub open spec fn last_length(ls: Seq<Seq<char>>) -> Option<u64>
    decreases ls.len(),
{
    if ls.len() == 0 {
        None
    } else {
        match length_of_line(ls.last()) {
            Some(v) => Some(v),
            None => last_length(ls.drop_last()),
        }
    }
}

/// Reads the announced size of a download from its response headers.
pub fn content_length(headers: &str) -> (r: Option<u64>)
    ensures
        r == last_length(lines_of(headers@)),
{
    let lines = split_lines(headers);
    let ghost ls = lines@.map_values(|l: String| l@);
    assert(ls =~= lines_of(headers@));
    let mut i: usize = lines.len();
    assert(ls.subrange(0, i as int) =~= ls);
    while i > 0
        invariant
            i <= lines@.len(),
            ls == lines@.map_values(|l: String| l@),
            ls == lines_of(headers@),
            last_length(ls) == last_length(ls.subrange(0, i as int)),
        decreases i,
    {
        let l = lines[i - 1].as_str();
        let ghost pre = ls.subrange(0, i as int);
        assert(pre.last() == l@);
        assert(pre.drop_last() =~= ls.subrange(0, i - 1));
        if matches_at(l, 0, "Content-Length:") || matches_at(l, 0, "content-length:") {
            proof {
                reveal_strlit("Content-Length:");
                reveal_strlit("content-length:");
            }
            let n = l.unicode_len();
            let v = parse_number(crate::text::trim_text(l.substring_char(15, n)));
            if v.is_some() {
                return v;
            }
        }
        i = i - 1;
    }
    None
}

} // verus!
