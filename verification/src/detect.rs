//! Discovers the TCP port a service uses by scanning a text file's bytes.
//!
//! Two patterns are recognised, in a fixed order of precedence: the first
//! `localhost:<digits>` occurrence anywhere in the content and, failing that,
//! the first `PORT=<digits>` or `port=<digits>` occurrence, where whitespace
//! may surround the `=`. A digit run that does not fit a 16-bit port number
//! makes that pattern's first occurrence worthless and the scan falls through
//! to the next pattern (or to "no port found"). Absence of a port is a plain
//! `None`, never an error.

use vstd::prelude::*;

use crate::outcome::LifecycleError;

verus! {

/// An ASCII decimal digit.
pub open spec fn is_digit(b: u8) -> bool {
    48 <= b && b <= 57
}

/// ASCII whitespace: space, tab, line feed, vertical tab, form feed,
/// carriage return.
pub open spec fn is_space(b: u8) -> bool {
    b == 32 || b == 9 || b == 10 || b == 11 || b == 12 || b == 13
}

/// The bytes `localhost:` stand at `i`, followed by at least one digit.
pub open spec fn localhost_match_at(s: Seq<u8>, i: int) -> bool {
    &&& 0 <= i
    &&& i + 11 <= s.len()
    &&& s[i] == 108
    &&& s[i + 1] == 111
    &&& s[i + 2] == 99
    &&& s[i + 3] == 97
    &&& s[i + 4] == 108
    &&& s[i + 5] == 104
    &&& s[i + 6] == 111
    &&& s[i + 7] == 115
    &&& s[i + 8] == 116
    &&& s[i + 9] == 58
    &&& is_digit(s[i + 10])
}

/// The word `PORT` or `port` stands at `i`.
pub open spec fn port_word_at(s: Seq<u8>, i: int) -> bool {
    &&& 0 <= i
    &&& i + 4 <= s.len()
    &&& {
        ||| (s[i] == 80 && s[i + 1] == 79 && s[i + 2] == 82 && s[i + 3] == 84)
        ||| (s[i] == 112 && s[i + 1] == 111 && s[i + 2] == 114 && s[i + 3] == 116)
    }
}

/// The index of the first byte at or after `p` that is not whitespace
/// (`s.len()` if the rest is all whitespace).
pub open spec fn skip_spaces(s: Seq<u8>, p: int) -> int
    decreases s.len() - p,
{
    if p < 0 || p >= s.len() || !is_space(s[p]) {
        p
    } else {
        skip_spaces(s, p + 1)
    }
}

/// The index one past the maximal digit run starting at `p`.
pub open spec fn digit_run_end(s: Seq<u8>, p: int) -> int
    decreases s.len() - p,
{
    if p < 0 || p >= s.len() || !is_digit(s[p]) {
        p
    } else {
        digit_run_end(s, p + 1)
    }
}

/// `PORT`/`port`, then optional whitespace, `=`, optional whitespace and at
/// least one digit, starting at `i`.
pub open spec fn assign_match_at(s: Seq<u8>, i: int) -> bool {
    port_word_at(s, i) && {
        let eq_pos = skip_spaces(s, i + 4);
        eq_pos < s.len() && s[eq_pos] == 61 && {
            let d = skip_spaces(s, eq_pos + 1);
            d < s.len() && is_digit(s[d])
        }
    }
}

/// Where the digit run of an assignment match starting at `i` begins.
pub open spec fn assign_digits_start(s: Seq<u8>, i: int) -> int {
    skip_spaces(s, skip_spaces(s, i + 4) + 1)
}

/// The number the decimal digit bytes `d` denote.
pub open spec fn digits_value(d: Seq<u8>) -> int
    decreases d.len(),
{
    if d.len() == 0 {
        0
    } else {
        digits_value(d.drop_last()) * 10 + (d.last() - 48)
    }
}

/// What parsing the maximal digit run starting at `p` as a port yields:
/// the run's value if it fits 16 bits, nothing otherwise.
pub open spec fn parsed_port_at(s: Seq<u8>, p: int) -> Option<u16> {
    let v = digits_value(s.subrange(p, digit_run_end(s, p)));
    if v <= 65535 {
        Some(v as u16)
    } else {
        None
    }
}

/// The first index at or after `i` where `localhost:<digit>` matches.
pub open spec fn first_localhost_from(s: Seq<u8>, i: int) -> Option<int>
    decreases s.len() - i,
{
    if i >= s.len() {
        None
    } else if localhost_match_at(s, i) {
        Some(i)
    } else {
        first_localhost_from(s, i + 1)
    }
}

/// The first index at or after `i` where the assignment pattern matches.
pub open spec fn first_assign_from(s: Seq<u8>, i: int) -> Option<int>
    decreases s.len() - i,
{
    if i >= s.len() {
        None
    } else if assign_match_at(s, i) {
        Some(i)
    } else {
        first_assign_from(s, i + 1)
    }
}

/// The port the assignment pattern alone yields.
pub open spec fn assign_result(s: Seq<u8>) -> Option<u16> {
    match first_assign_from(s, 0) {
        Some(i) => parsed_port_at(s, assign_digits_start(s, i)),
        None => None,
    }
}

/// The port detected in file content: the first `localhost:` match wins; if
/// it is absent or its digit run overflows a port number, the first
/// assignment match decides; else no port.
pub open spec fn spec_detect_port(s: Seq<u8>) -> Option<u16> {
    match first_localhost_from(s, 0) {
        Some(i) => match parsed_port_at(s, i + 10) {
            Some(v) => Some(v),
            None => assign_result(s),
        },
        None => assign_result(s),
    }
}

proof fn lemma_first_localhost_is_match(s: Seq<u8>, i: int)
    ensures
        match first_localhost_from(s, i) {
            Some(j) => i <= j && localhost_match_at(s, j),
            None => true,
        },
    decreases s.len() - i,
{
    if i >= s.len() {
    } else if localhost_match_at(s, i) {
    } else {
        lemma_first_localhost_is_match(s, i + 1);
    }
}

proof fn lemma_first_assign_is_match(s: Seq<u8>, i: int)
    ensures
        match first_assign_from(s, i) {
            Some(j) => i <= j && assign_match_at(s, j),
            None => true,
        },
    decreases s.len() - i,
{
    if i >= s.len() {
    } else if assign_match_at(s, i) {
    } else {
        lemma_first_assign_is_match(s, i + 1);
    }
}

proof fn lemma_skip_spaces_bounds(s: Seq<u8>, p: int)
    requires
        0 <= p,
    ensures
        p <= skip_spaces(s, p),
        p <= s.len() ==> skip_spaces(s, p) <= s.len(),
    decreases s.len() - p,
{
    if p < s.len() && is_space(s[p]) {
        lemma_skip_spaces_bounds(s, p + 1);
    }
}

proof fn lemma_digit_run_props(s: Seq<u8>, p: int)
    requires
        0 <= p <= s.len(),
    ensures
        p <= digit_run_end(s, p) <= s.len(),
        forall|k: int| p <= k < digit_run_end(s, p) ==> is_digit(s[k]),
    decreases s.len() - p,
{
    if p < s.len() && is_digit(s[p]) {
        lemma_digit_run_props(s, p + 1);
    }
}

/// Appending digits to a run never shrinks its value.
proof fn lemma_digits_value_grows(d: Seq<u8>, m: int)
    requires
        0 <= m <= d.len(),
        forall|k: int| 0 <= k < d.len() ==> is_digit(d[k]),
    ensures
        digits_value(d.take(m)) <= digits_value(d),
        digits_value(d) >= 0,
    decreases d.len(),
{
    if d.len() == 0 {
        assert(d.take(m) =~= d);
    } else if m == d.len() {
        assert(d.take(m) =~= d);
        assert(forall|k: int| 0 <= k < d.drop_last().len() ==> is_digit(d.drop_last()[k]));
        lemma_digits_value_grows(d.drop_last(), d.len() - 1);
    } else {
        assert(forall|k: int| 0 <= k < d.drop_last().len() ==> is_digit(d.drop_last()[k]));
        lemma_digits_value_grows(d.drop_last(), m);
        assert(d.take(m) =~= d.drop_last().take(m));
        assert(digits_value(d) == digits_value(d.drop_last()) * 10 + (d.last() - 48));
    }
}

fn localhost_match_here(s: &[u8], i: usize) -> (b: bool)
    requires
        i <= s@.len(),
    ensures
        b == localhost_match_at(s@, i as int),
{
    if s.len() - i < 11 {
        return false;
    }
    s[i] == 108 && s[i + 1] == 111 && s[i + 2] == 99 && s[i + 3] == 97 && s[i + 4] == 108
        && s[i + 5] == 104 && s[i + 6] == 111 && s[i + 7] == 115 && s[i + 8] == 116
        && s[i + 9] == 58 && 48 <= s[i + 10] && s[i + 10] <= 57
}

fn skip_spaces_here(s: &[u8], p: usize) -> (q: usize)
    requires
        p <= s@.len(),
    ensures
        q as int == skip_spaces(s@, p as int),
        p <= q <= s@.len(),
{
    let mut q = p;
    while q < s.len()
        invariant
            p <= q <= s@.len(),
            skip_spaces(s@, p as int) == skip_spaces(s@, q as int),
        decreases s@.len() - q,
    {
        let b = s[q];
        if !(b == 32 || b == 9 || b == 10 || b == 11 || b == 12 || b == 13) {
            return q;
        }
        q += 1;
    }
    q
}

fn digit_run_end_here(s: &[u8], p: usize) -> (q: usize)
    requires
        p <= s@.len(),
    ensures
        q as int == digit_run_end(s@, p as int),
        p <= q <= s@.len(),
{
    let mut q = p;
    while q < s.len()
        invariant
            p <= q <= s@.len(),
            digit_run_end(s@, p as int) == digit_run_end(s@, q as int),
        decreases s@.len() - q,
    {
        let b = s[q];
        if !(48 <= b && b <= 57) {
            return q;
        }
        q += 1;
    }
    q
}

/// Parses the maximal digit run starting at `p` as a 16-bit port number.
fn parse_port_at(s: &[u8], p: usize) -> (r: Option<u16>)
    requires
        p <= s@.len(),
    ensures
        r == parsed_port_at(s@, p as int),
{
    let q = digit_run_end_here(s, p);
    proof {
        lemma_digit_run_props(s@, p as int);
    }
    let ghost run = s@.subrange(p as int, q as int);
    let mut v: u32 = 0;
    let mut too_big = false;
    let mut j = p;
    while j < q
        invariant
            p <= j <= q <= s@.len(),
            q as int == digit_run_end(s@, p as int),
            run == s@.subrange(p as int, q as int),
            forall|k: int| p <= k < q ==> is_digit(s@[k]),
            !too_big ==> v as int == digits_value(s@.subrange(p as int, j as int)) && v <= 65535,
            too_big ==> digits_value(s@.subrange(p as int, j as int)) > 65535,
        decreases q - j,
    {
        let d = s[j];
        proof {
            assert(s@.subrange(p as int, j + 1).drop_last() =~= s@.subrange(p as int, j as int));
            assert(s@.subrange(p as int, j + 1).last() == s@[j as int]);
        }
        if too_big {
            proof {
                let prev = digits_value(s@.subrange(p as int, j as int));
                assert(digits_value(s@.subrange(p as int, j + 1)) == prev * 10 + (d - 48));
            }
        } else {
            let nv = v * 10 + (d as u32 - 48);
            if nv > 65535 {
                too_big = true;
            } else {
                v = nv;
            }
        }
        j += 1;
    }
    proof {
        assert(s@.subrange(p as int, j as int) =~= run);
    }
    if too_big {
        None
    } else {
        Some(v as u16)
    }
}

fn find_localhost(s: &[u8]) -> (r: Option<usize>)
    ensures
        match r {
            Some(i) => first_localhost_from(s@, 0) == Some(i as int),
            None => first_localhost_from(s@, 0) is None,
        },
{
    let n = s.len();
    let mut i: usize = 0;
    while i < n
        invariant
            0 <= i <= n,
            n == s@.len(),
            first_localhost_from(s@, 0) == first_localhost_from(s@, i as int),
        decreases n - i,
    {
        if localhost_match_here(s, i) {
            return Some(i);
        }
        i += 1;
    }
    None
}

/// Looks for the first assignment match and returns where its digits begin.
fn find_assign(s: &[u8]) -> (r: Option<usize>)
    ensures
        match first_assign_from(s@, 0) {
            Some(i) => r == Some(assign_digits_start(s@, i) as usize) && assign_digits_start(
                s@,
                i,
            ) < s@.len(),
            None => r is None,
        },
{
    let n = s.len();
    let mut i: usize = 0;
    while i < n
        invariant
            0 <= i <= n,
            n == s@.len(),
            first_assign_from(s@, 0) == first_assign_from(s@, i as int),
        decreases n - i,
    {
        match assign_match_here(s, i) {
            Some(d) => {
                return Some(d);
            },
            None => {},
        }
        i += 1;
    }
    None
}

fn assign_match_here(s: &[u8], i: usize) -> (r: Option<usize>)
    requires
        i <= s@.len(),
    ensures
        match r {
            Some(d) => assign_match_at(s@, i as int) && d as int == assign_digits_start(
                s@,
                i as int,
            ) && d < s@.len(),
            None => !assign_match_at(s@, i as int),
        },
{
    if s.len() - i < 4 {
        return None;
    }
    let upper = s[i] == 80 && s[i + 1] == 79 && s[i + 2] == 82 && s[i + 3] == 84;
    let lower = s[i] == 112 && s[i + 1] == 111 && s[i + 2] == 114 && s[i + 3] == 116;
    if !(upper || lower) {
        return None;
    }
    let eq_pos = skip_spaces_here(s, i + 4);
    if eq_pos == s.len() {
        return None;
    }
    if s[eq_pos] != 61 {
        return None;
    }
    let d = skip_spaces_here(s, eq_pos + 1);
    if d == s.len() {
        return None;
    }
    let b = s[d];
    if 48 <= b && b <= 57 {
        Some(d)
    } else {
        None
    }
}

fn scan_assign(s: &[u8]) -> (r: Option<u16>)
    ensures
        r == assign_result(s@),
{
    let n = s.len();
    match find_assign(s) {
        Some(d) => {
            proof {
                lemma_first_assign_is_match(s@, 0);
                match first_assign_from(s@, 0) {
                    Some(i) => {
                        lemma_skip_spaces_bounds(s@, i + 4);
                        lemma_skip_spaces_bounds(s@, skip_spaces(s@, i + 4) + 1);
                    },
                    None => {},
                }
            }
            parse_port_at(s, d)
        },
        None => None,
    }
}

/// Scans file content for the port a service is bound to.
///
/// The first `localhost:<digits>` occurrence wins; when it is absent or its
/// digit run exceeds 65535, the first `PORT=<digits>` or `port=<digits>`
/// occurrence (whitespace allowed around `=`) is taken instead; with neither,
/// there is no port, which is not an error.
pub fn scan_port(content: &[u8]) -> (r: Option<u16>)
    ensures
        r == spec_detect_port(content@),
{
    let n = content.len();
    match find_localhost(content) {
        Some(i) => {
            proof {
                lemma_first_localhost_is_match(content@, 0);
                assert(i + 11 <= n);
            }
            match parse_port_at(content, i + 10) {
                Some(v) => Some(v),
                None => scan_assign(content),
            }
        },
        None => scan_assign(content),
    }
}

/// The whole detection step over the result of reading the file: absent
/// content (the file could not be read) is an `IoFailure`; content in hand,
/// the scan itself cannot fail.
pub fn detect_port(content: Option<&[u8]>) -> (r: Result<Option<u16>, LifecycleError>)
    ensures
        match content {
            Some(c) => r == Ok::<Option<u16>, LifecycleError>(spec_detect_port(c@)),
            None => r == Err::<Option<u16>, LifecycleError>(LifecycleError::IoFailure),
        },
{
    match content {
        Some(c) => Ok(scan_port(c)),
        None => Err(LifecycleError::IoFailure),
    }
}

} // verus!
