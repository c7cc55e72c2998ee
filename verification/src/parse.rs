//! Header parsing collaborators: raw header text becomes plain values, and
//! unparseable input is treated as absent, never as an error.
//!
//! An `If-None-Match` value is a comma-separated list of double-quoted
//! entity-tag tokens, each optionally surrounded by spaces or tabs; the
//! parse yields the unquoted tokens. An `If-Unmodified-Since` value is an
//! RFC 2822 date, parsed to a seconds-based instant.

use vstd::prelude::*;

verus! {

/// The seconds-based instant that an RFC 2822 date string denotes, or `None`
/// where the string is not a valid RFC 2822 date.
pub uninterp spec fn rfc2822_instant(s: Seq<char>) -> Option<i64>;

/// Relies on chrono's `DateTime::parse_from_rfc2822`, a pure parse of an
/// RFC 2822 date string, and on `DateTime::timestamp`, the seconds-based
/// instant of the parsed date: both depend on the characters of `s` alone.
#[verifier::external_body]
fn parse_rfc2822_instant(s: &str) -> (r: Option<i64>)
    ensures
        r == rfc2822_instant(s@),
{
    chrono::DateTime::parse_from_rfc2822(s).ok().map(|date| date.timestamp())
}

/// The instant denoted by an `If-Unmodified-Since` header: `None` when the
/// header is absent or its value is not a valid RFC 2822 date.
pub open spec fn spec_if_unmodified_since(raw: Option<&str>) -> Option<i64> {
    match raw {
        Some(s) => rfc2822_instant(s@),
        None => None,
    }
}

/// Parse the `If-Unmodified-Since` header, absent or unparseable giving
/// `None`.
pub fn parse_if_unmodified_since(raw: Option<&str>) -> (r: Option<i64>)
    ensures
        r == spec_if_unmodified_since(raw),
{
    match raw {
        Some(s) => parse_rfc2822_instant(s),
        None => None,
    }
}

/// A character that may surround a list element without significance.
pub open spec fn is_blank(c: char) -> bool {
    c == ' ' || c == '\t'
}

/// `e` with its leading blanks removed.
pub open spec fn trim_start(e: Seq<char>) -> Seq<char>
    decreases e.len(),
{
    if e.len() > 0 && is_blank(e[0]) {
        trim_start(e.subrange(1, e.len() as int))
    } else {
        e
    }
}

/// `e` with its trailing blanks removed.
pub open spec fn trim_end(e: Seq<char>) -> Seq<char>
    decreases e.len(),
{
    if e.len() > 0 && is_blank(e[e.len() - 1]) {
        trim_end(e.subrange(0, e.len() - 1))
    } else {
        e
    }
}

/// `e` with leading and trailing blanks removed.
pub open spec fn trim(e: Seq<char>) -> Seq<char> {
    trim_end(trim_start(e))
}

/// The token of one list element: the characters between the double quotes
/// of the trimmed element, or `None` where the trimmed element is not a
/// quoted string free of inner quotes.
pub open spec fn parse_element(e: Seq<char>) -> Option<Seq<char>> {
    let t = trim(e);
    if t.len() >= 2 && t[0] == '"' && t[t.len() - 1] == '"' && (forall|j: int|
        1 <= j < t.len() - 1 ==> t[j] != '"') {
        Some(t.subrange(1, t.len() - 1))
    } else {
        None
    }
}

/// The index of the first comma of `s` at or after `start`, or `s.len()`
/// where there is none.
pub open spec fn next_boundary(s: Seq<char>, start: int) -> int
    decreases s.len() - start,
{
    if start < 0 || start >= s.len() {
        s.len() as int
    } else if s[start] == ',' {
        start
    } else {
        next_boundary(s, start + 1)
    }
}

/// `next_boundary` stays between `start` and the end of `s`.
pub proof fn lemma_next_boundary_bounds(s: Seq<char>, start: int)
    requires
        0 <= start <= s.len(),
    ensures
        start <= next_boundary(s, start) <= s.len(),
    decreases s.len() - start,
{
    if start < s.len() && s[start] != ',' {
        lemma_next_boundary_bounds(s, start + 1);
    }
}

/// The tokens of the comma-separated elements of `s` from `start` on, or
/// `None` where some element does not parse. Past the end of `s` there is no
/// further element; at the end there is one final empty element.
pub open spec fn parse_list_from(s: Seq<char>, start: int) -> Option<Seq<Seq<char>>>
    decreases s.len() - start + 1,
        via parse_list_from_decreases
{
    if start > s.len() {
        Some(Seq::empty())
    } else {
        let b = next_boundary(s, start);
        match (parse_element(s.subrange(start, b)), parse_list_from(s, b + 1)) {
            (Some(token), Some(rest)) => Some(seq![token] + rest),
            _ => None,
        }
    }
}

#[via_fn]
proof fn parse_list_from_decreases(s: Seq<char>, start: int) {
    if 0 <= start <= s.len() {
        lemma_next_boundary_bounds(s, start);
    }
}

/// The entity-tag tokens of an `If-None-Match` value: one token per
/// comma-separated element, or `None` where any element is malformed.
pub open spec fn parse_list(s: Seq<char>) -> Option<Seq<Seq<char>>> {
    parse_list_from(s, 0)
}

/// An index below which no comma occurs, and which holds a comma or ends
/// `s`, is the next boundary.
proof fn lemma_next_boundary_is(s: Seq<char>, start: int, b: int)
    requires
        0 <= start <= b <= s.len(),
        forall|j: int| start <= j < b ==> s[j] != ',',
        b == s.len() || s[b] == ',',
    ensures
        next_boundary(s, start) == b,
    decreases b - start,
{
    if start < b {
        lemma_next_boundary_is(s, start + 1, b);
    }
}

/// The index of the first comma of `s` at or after `start`, or `n` where
/// there is none.
fn find_boundary(s: &str, start: usize, n: usize) -> (b: usize)
    requires
        n == s@.len(),
        start <= n,
    ensures
        start <= b <= n,
        b == next_boundary(s@, start as int),
{
    let mut i: usize = start;
    while i < n
        invariant
            start <= i <= n,
            n == s@.len(),
            forall|j: int| start <= j < i ==> s@[j] != ',',
        decreases n - i,
    {
        if s.get_char(i) == ',' {
            proof {
                lemma_next_boundary_is(s@, start as int, i as int);
            }
            return i;
        }
        i = i + 1;
    }
    proof {
        lemma_next_boundary_is(s@, start as int, n as int);
    }
    n
}

/// Parse the element `s[from..to]`: trim blanks, then strip the surrounding
/// quotes, or report that the element is malformed.
fn parse_element_range(s: &str, from: usize, to: usize) -> (r: Option<String>)
    requires
        from <= to <= s@.len(),
    ensures
        (match r {
            Some(token) => parse_element(s@.subrange(from as int, to as int)) == Some(token@),
            None => parse_element(s@.subrange(from as int, to as int)) is None,
        }),
{
    let ghost seg = s@.subrange(from as int, to as int);
    let mut lo: usize = from;
    while lo < to && (s.get_char(lo) == ' ' || s.get_char(lo) == '\t')
        invariant
            from <= lo <= to <= s@.len(),
            trim_start(seg) == trim_start(s@.subrange(lo as int, to as int)),
        decreases to - lo,
    {
        proof {
            assert(s@.subrange(lo as int, to as int).subrange(1, to - lo) =~= s@.subrange(
                lo + 1,
                to as int,
            ));
        }
        lo = lo + 1;
    }
    proof {
        assert(trim_start(seg) == s@.subrange(lo as int, to as int));
    }
    let mut hi: usize = to;
    while hi > lo && (s.get_char(hi - 1) == ' ' || s.get_char(hi - 1) == '\t')
        invariant
            from <= lo <= hi <= to <= s@.len(),
            trim_start(seg) == s@.subrange(lo as int, to as int),
            trim_end(s@.subrange(lo as int, to as int)) == trim_end(
                s@.subrange(lo as int, hi as int),
            ),
        decreases hi - lo,
    {
        proof {
            assert(s@.subrange(lo as int, hi as int).subrange(0, hi - lo - 1) =~= s@.subrange(
                lo as int,
                hi - 1,
            ));
        }
        hi = hi - 1;
    }
    let ghost t = trim(seg);
    proof {
        assert(t == s@.subrange(lo as int, hi as int));
    }
    if hi - lo >= 2 && s.get_char(lo) == '"' && s.get_char(hi - 1) == '"' {
        let mut i: usize = lo + 1;
        while i < hi - 1
            invariant
                from <= lo,
                lo + 1 <= i <= hi - 1,
                hi <= to <= s@.len(),
                t == trim(s@.subrange(from as int, to as int)),
                t == s@.subrange(lo as int, hi as int),
                forall|j: int| lo + 1 <= j < i ==> s@[j] != '"',
            decreases hi - i,
        {
            if s.get_char(i) == '"' {
                proof {
                    assert(t[i - lo] == '"');
                    assert(!(forall|j: int| 1 <= j < t.len() - 1 ==> t[j] != '"'));
                    assert(parse_element(s@.subrange(from as int, to as int)) is None);
                }
                return None;
            }
            i = i + 1;
        }
        let token = s.substring_char(lo + 1, hi - 1).to_owned();
        proof {
            assert(forall|j: int| 1 <= j < t.len() - 1 ==> t[j] == s@[lo + j] && t[j] != '"');
            assert(t.subrange(1, t.len() - 1) =~= s@.subrange(lo + 1, hi - 1));
        }
        Some(token)
    } else {
        proof {
            assert(parse_element(seg) is None);
        }
        None
    }
}

/// Parse an `If-None-Match` value into its unquoted entity-tag tokens, a
/// malformed value giving `None`.
pub fn parse_if_none_match_value(s: &str) -> (r: Option<Vec<String>>)
    ensures
        (match r {
            Some(tokens) => parse_list(s@) == Some(tokens.deep_view()),
            None => parse_list(s@) is None,
        }),
{
    let n = s.unicode_len();
    let mut tokens: Vec<String> = Vec::new();
    let mut start: usize = 0;
    proof {
        assert(tokens.deep_view() =~= Seq::<Seq<char>>::empty());
        if parse_list_from(s@, 0) is Some {
            assert(tokens.deep_view() + parse_list_from(s@, 0).unwrap() =~= parse_list_from(
                s@,
                0,
            ).unwrap());
        }
    }
    loop
        invariant
            start <= n,
            n == s@.len(),
            (match parse_list_from(s@, start as int) {
                Some(rest) => parse_list(s@) == Some(tokens.deep_view() + rest),
                None => parse_list(s@) is None,
            }),
        decreases n - start,
    {
        let b = find_boundary(s, start, n);
        match parse_element_range(s, start, b) {
            None => {
                return None;
            },
            Some(token) => {
                let ghost old_tokens = tokens.deep_view();
                let ghost rest = parse_list_from(s@, b + 1);
                tokens.push(token);
                proof {
                    assert(tokens.deep_view() =~= old_tokens.push(token@));
                    if rest is Some {
                        assert(old_tokens + (seq![token@] + rest.unwrap()) =~= tokens.deep_view()
                            + rest.unwrap());
                    }
                }
            },
        }
        if b == n {
            proof {
                assert(parse_list_from(s@, n + 1) == Some(Seq::<Seq<char>>::empty()));
                assert(tokens.deep_view() + Seq::<Seq<char>>::empty() =~= tokens.deep_view());
            }
            return Some(tokens);
        }
        start = b + 1;
    }
}

} // verus!
