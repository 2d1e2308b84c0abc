//! The pagination cursor and its parser.

use vstd::prelude::*;

use crate::link::entries_of;
use crate::link::entry_ok;
use crate::link::entry_part0;
use crate::link::entry_part1;
use crate::link::entry_rel;
use crate::link::entry_url;
use crate::link::has_rel_prefix;
use crate::link::init_state;
use crate::link::is_space;
use crate::link::lemma_find_char_at;
use crate::link::lemma_trim_at;
use crate::link::run;
use crate::link::spec_parse;
use crate::link::step;
use crate::link::strip_ends;
use crate::link::trim;
use crate::link::LinkState;
use vstd::string::StrSliceExecFns;
use vstd::string::StringExecFns;

verus! {

/// Parsing the pagination header failed: an entry was malformed or one
/// of the mandatory relations (`current`, `first`, `last`) was missing.
#[derive(Debug, Clone, Copy, PartialEq, Eq)]
pub struct InvalidPaginationError;

impl InvalidPaginationError {
    /// The human-readable description of this error.
    pub fn message(&self) -> (r: String)
        ensures
            r@ == "Invalid Pagination Response"@,
    {
        String::from_str("Invalid Pagination Response")
    }
}

/// A pagination cursor: the page references taken from one response's
/// link header. `current`, `first` and `last` are always present and
/// non-empty after a successful parse; `next` is absent exactly when
/// the current page is the last one.
#[derive(Debug, Clone, PartialEq, Eq, Hash)]
pub struct Pagination {
    pub current: String,
    pub first: String,
    pub last: String,
    pub next: Option<String>,
}

/// The sequence of characters held by an optional URL string.
pub open spec fn view_opt(o: Option<String>) -> Option<Seq<char>> {
    match o {
        Some(s) => Some(s@),
        None => None,
    }
}

impl Pagination {
    /// The pagination state this cursor stands for.
    pub open spec fn state(self) -> LinkState {
        LinkState {
            current: self.current@,
            first: self.first@,
            last: self.last@,
            next: view_opt(self.next),
        }
    }
}

/// Whether `c` counts as surrounding whitespace.
fn is_space_char(c: char) -> (r: bool)
    ensures
        r == is_space(c),
{
    c == ' ' || c == '\t' || c == '\n' || c == '\r'
}

/// Position of the first occurrence of `c` within `s[from..to)`, or
/// `to` when there is none.
fn find_from(s: &str, from: usize, to: usize, c: char) -> (r: usize)
    requires
        from <= to <= s@.len(),
    ensures
        from <= r <= to,
        r < to ==> s@[r as int] == c,
        forall|i: int| from <= i < r ==> s@[i] != c,
{
    let mut i = from;
    while i < to
        invariant
            from <= i <= to <= s@.len(),
            forall|j: int| from <= j < i ==> s@[j] != c,
        decreases to - i,
    {
        if s.get_char(i) == c {
            return i;
        }
        i = i + 1;
    }
    i
}

/// Position of the first non-whitespace character within `s[from..to)`,
/// or `to` when the span is all whitespace.
fn first_non_space(s: &str, from: usize, to: usize) -> (r: usize)
    requires
        from <= to <= s@.len(),
    ensures
        from <= r <= to,
        r < to ==> !is_space(s@[r as int]),
        forall|i: int| from <= i < r ==> is_space(s@[i]),
{
    let mut i = from;
    while i < to
        invariant
            from <= i <= to <= s@.len(),
            forall|j: int| from <= j < i ==> is_space(s@[j]),
        decreases to - i,
    {
        if !is_space_char(s.get_char(i)) {
            return i;
        }
        i = i + 1;
    }
    i
}

/// Position right after the last non-whitespace character within
/// `s[from..to)`, or `from` when the span is all whitespace.
fn after_last_non_space(s: &str, from: usize, to: usize) -> (r: usize)
    requires
        from <= to <= s@.len(),
    ensures
        from <= r <= to,
        r > from ==> !is_space(s@[r - 1]),
        forall|i: int| r <= i < to ==> is_space(s@[i]),
{
    let mut j = to;
    while j > from
        invariant
            from <= j <= to <= s@.len(),
            forall|i: int| j <= i < to ==> is_space(s@[i]),
        decreases j,
    {
        if !is_space_char(s.get_char(j - 1)) {
            return j;
        }
        j = j - 1;
    }
    j
}

/// Whether `s[a..b)` holds exactly the characters of `t`.
fn range_matches(s: &str, a: usize, b: usize, t: &str) -> (r: bool)
    requires
        a <= b <= s@.len(),
    ensures
        r == (s@.subrange(a as int, b as int) == t@),
{
    let tn = t.unicode_len();
    if b - a != tn {
        proof {
            assert(s@.subrange(a as int, b as int).len() != t@.len());
        }
        return false;
    }
    let mut i: usize = 0;
    while i < tn
        invariant
            0 <= i <= tn,
            a + tn == b <= s@.len(),
            tn == t@.len(),
            forall|j: int| 0 <= j < i ==> s@[a + j] == t@[j],
        decreases tn - i,
    {
        if s.get_char(a + i) != t.get_char(i) {
            proof {
                assert(s@.subrange(a as int, b as int)[i as int] != t@[i as int]);
            }
            return false;
        }
        i = i + 1;
    }
    proof {
        assert(s@.subrange(a as int, b as int) =~= t@);
    }
    true
}

/// The URL (or relation-name) payload of the trimmed span `s[a..b)`:
/// the span with its first and last character removed, or the empty
/// string when the span is shorter than two characters.
fn strip_ends_of(s: &str, a: usize, b: usize) -> (r: String)
    requires
        a <= b <= s@.len(),
    ensures
        r@ == strip_ends(s@.subrange(a as int, b as int)),
{
    if b - a >= 2 {
        let inner = s.substring_char(a + 1, b - 1);
        proof {
            assert(s@.subrange(a + 1, b - 1) =~= s@.subrange(a as int, b as int).subrange(
                1,
                b - a - 1,
            ));
        }
        inner.to_owned()
    } else {
        proof {
            assert(strip_ends(s@.subrange(a as int, b as int)) =~= Seq::<char>::empty());
        }
        String::new()
    }
}

impl Pagination {
    /// Parse the value of a pagination link header.
    ///
    /// The result is exactly what the wire-format model says: `Ok` with
    /// the stripped URL of each recognized relation if and only if every
    /// comma-separated entry carries a `rel=` marker after its `;` and
    /// the `current`, `first` and `last` relations all came out
    /// non-empty; `Err` otherwise.
    #[verifier::rlimit(100)]
    pub fn from_str(value: &str) -> (r: Result<Pagination, InvalidPaginationError>)
        ensures
            match r {
                Ok(p) => spec_parse(value@) == Some(p.state()),
                Err(_) => spec_parse(value@) is None,
            },
    {
        let n = value.unicode_len();
        let mut current = String::new();
        let mut first = String::new();
        let mut last = String::new();
        let mut next: Option<String> = None;
        let mut p: usize = 0;
        proof {
            assert(value@.subrange(0, n as int) =~= value@);
        }
        loop
            invariant_except_break
                n == value@.len(),
                p <= n,
                run(entries_of(value@), init_state()) == run(
                    entries_of(value@.subrange(p as int, n as int)),
                    LinkState {
                        current: current@,
                        first: first@,
                        last: last@,
                        next: view_opt(next),
                    },
                ),
            ensures
                run(entries_of(value@), init_state()) == Some(
                    LinkState {
                        current: current@,
                        first: first@,
                        last: last@,
                        next: view_opt(next),
                    },
                ),
            decreases n - p,
        {
            let ghost st_old = LinkState {
                current: current@,
                first: first@,
                last: last@,
                next: view_opt(next),
            };
            let ghost suffix = value@.subrange(p as int, n as int);
            let q = find_from(value, p, n, ',');
            let ghost entry = value@.subrange(p as int, q as int);
            proof {
                // the first entry of the remaining suffix is value[p..q)
                assert(forall|i: int|
                    0 <= i < q - p ==> suffix[i] == value@[p + i] && suffix[i] != ',');
                lemma_find_char_at(suffix, ',', q - p);
                assert(suffix.subrange(0, q - p) =~= entry);
                if q < n {
                    assert(entries_of(suffix) == seq![entry] + entries_of(
                        value@.subrange(q + 1, n as int),
                    )) by {
                        assert(suffix.subrange(q - p + 1, suffix.len() as int) =~= value@.subrange(
                            q + 1,
                            n as int,
                        ));
                    }
                } else {
                    assert(entries_of(suffix) == seq![entry]) by {
                        assert(suffix =~= entry);
                    }
                }
            }
            // split the entry at its first `;`
            let semi = find_from(value, p, q, ';');
            proof {
                assert(forall|i: int|
                    0 <= i < semi - p ==> entry[i] == value@[p + i] && entry[i] != ';');
                lemma_find_char_at(entry, ';', semi - p);
            }
            if semi == q {
                proof {
                    assert(!entry_ok(entry));
                    assert(run(entries_of(suffix), st_old) is None);
                }
                return Err(InvalidPaginationError);
            }
            proof {
                assert(entry_part0(entry) =~= value@.subrange(p as int, semi as int));
            }
            // the relation segment runs to the second `;` or the end
            let semi2 = find_from(value, semi + 1, q, ';');
            let ghost rest = entry.subrange(semi - p + 1, entry.len() as int);
            proof {
                assert(forall|i: int|
                    0 <= i < semi2 - semi - 1 ==> rest[i] == value@[semi + 1 + i] && rest[i]
                        != ';');
                lemma_find_char_at(rest, ';', semi2 - semi - 1);
                assert(entry_part1(entry) =~= value@.subrange(semi + 1, semi2 as int));
            }
            // trim the relation segment
            let a1 = first_non_space(value, semi + 1, semi2);
            let b1 = after_last_non_space(value, a1, semi2);
            proof {
                let part1 = value@.subrange(semi + 1, semi2 as int);
                assert(forall|i: int|
                    0 <= i < part1.len() ==> part1[i] == value@[semi + 1 + i]);
                lemma_trim_at(part1, a1 - (semi + 1), b1 - (semi + 1));
                assert(trim(entry_part1(entry)) =~= value@.subrange(a1 as int, b1 as int));
            }
            // the `rel=` marker
            if b1 - a1 < 4 || value.get_char(a1) != 'r' || value.get_char(a1 + 1) != 'e'
                || value.get_char(a1 + 2) != 'l' || value.get_char(a1 + 3) != '=' {
                proof {
                    assert(!has_rel_prefix(trim(entry_part1(entry))));
                    assert(!entry_ok(entry));
                    assert(run(entries_of(suffix), st_old) is None);
                }
                return Err(InvalidPaginationError);
            }
            proof {
                assert(entry_ok(entry));
            }
            // the relation name: the segment after `rel=`, unquoted
            let (na, nb) = if b1 - (a1 + 4) >= 2 {
                (a1 + 5, b1 - 1)
            } else {
                (a1, a1)
            };
            proof {
                let seg = trim(entry_part1(entry)).skip(4);
                assert(seg =~= value@.subrange(a1 + 4, b1 as int));
                assert(entry_rel(entry) =~= value@.subrange(na as int, nb as int));
            }
            // the URL: the URL segment, trimmed, unbracketed
            let a0 = first_non_space(value, p, semi);
            let b0 = after_last_non_space(value, a0, semi);
            proof {
                let part0 = entry_part0(entry);
                assert(forall|i: int| 0 <= i < part0.len() ==> part0[i] == value@[p + i]);
                lemma_trim_at(part0, a0 - p, b0 - p);
                assert(trim(entry_part0(entry)) =~= value@.subrange(a0 as int, b0 as int));
            }
            let url = strip_ends_of(value, a0, b0);
            proof {
                assert(url@ == entry_url(entry));
            }
            // record the URL under its relation name
            if range_matches(value, na, nb, "current") {
                current = url;
            } else if range_matches(value, na, nb, "first") {
                first = url;
            } else if range_matches(value, na, nb, "last") {
                last = url;
            } else if range_matches(value, na, nb, "next") {
                next = Some(url);
            }
            let ghost st_new = LinkState {
                current: current@,
                first: first@,
                last: last@,
                next: view_opt(next),
            };
            proof {
                assert(step(st_old, entry) == Some(st_new));
            }
            if q == n {
                proof {
                    assert(seq![entry].subrange(1, 1) =~= Seq::<Seq<char>>::empty());
                    assert(run(Seq::<Seq<char>>::empty(), st_new) == Some(st_new));
                    assert(run(entries_of(suffix), st_old) == Some(st_new));
                }
                break ;
            }
            proof {
                let tail = entries_of(value@.subrange(q + 1, n as int));
                assert((seq![entry] + tail).subrange(1, (seq![entry] + tail).len() as int)
                    =~= tail);
                assert(run(entries_of(suffix), st_old) == run(tail, st_new));
            }
            p = q + 1;
        }
        if current.as_str().is_empty() || first.as_str().is_empty() || last.as_str().is_empty() {
            return Err(InvalidPaginationError);
        }
        Ok(Pagination { current, first, last, next })
    }
}

/// Append one rendered entry, `<url>;rel="name"`, to `out`.
fn push_entry(out: &mut String, url: &str, name: &str)
    ensures
        final(out)@ == old(out)@ + crate::link::render_entry(url@, name@),
{
    out.append("<");
    out.append(url);
    out.append(">;rel=\"");
    out.append(name);
    out.append("\"");
    proof {
        assert(out@ =~= old(out)@ + crate::link::render_entry(url@, name@));
    }
}

impl Pagination {
    /// Render this cursor back into a link-header value: the three
    /// mandatory relations, then `next` when present, separated by
    /// commas.
    pub fn to_header(&self) -> (r: String)
        ensures
            r@ == crate::link::spec_render(self.state()),
    {
        let mut out = String::new();
        push_entry(&mut out, self.current.as_str(), "current");
        out.append(",");
        push_entry(&mut out, self.first.as_str(), "first");
        out.append(",");
        push_entry(&mut out, self.last.as_str(), "last");
        match &self.next {
            Some(u) => {
                out.append(",");
                push_entry(&mut out, u.as_str(), "next");
            },
            None => {},
        }
        proof {
            assert(out@ =~= crate::link::spec_render(self.state()));
        }
        out
    }

    /// A cursor whose references are delimiter-free: the wire format
    /// can carry such a cursor without loss.
    pub open spec fn renderable(self) -> bool {
        &&& self.current@.len() > 0
        &&& self.first@.len() > 0
        &&& self.last@.len() > 0
        &&& crate::link::url_ok(self.current@)
        &&& crate::link::url_ok(self.first@)
        &&& crate::link::url_ok(self.last@)
        &&& (view_opt(self.next) matches Some(u) ==> crate::link::url_ok(u))
    }
}

/// Round trip: rendering a delimiter-free cursor with `to_header` and
/// parsing the result with `from_str` yields an equivalent cursor —
/// `current`, `first`, `last` and `next` all match.
pub proof fn lemma_header_round_trip(p: Pagination)
    requires
        p.renderable(),
    ensures
        spec_parse(crate::link::spec_render(p.state())) == Some(p.state()),
{
    crate::link::lemma_round_trip(p.state());
}

} // verus!
