//! Mathematical model of the link-header wire format.
//!
//! A header value is a comma-separated list of entries, each of the shape
//! `<url>; rel="name"`. The model below says, for any sequence of
//! characters, which pagination state a parse yields, or that it fails.

use vstd::prelude::*;

verus! {

/// The accumulated pagination state while entries are processed:
/// the `current`, `first` and `last` page references (empty when not yet
/// seen) and the optional `next` page reference.
pub ghost struct LinkState {
    pub current: Seq<char>,
    pub first: Seq<char>,
    pub last: Seq<char>,
    pub next: Option<Seq<char>>,
}

/// The characters that count as surrounding whitespace.
pub open spec fn is_space(c: char) -> bool {
    c == ' ' || c == '\t' || c == '\n' || c == '\r'
}

/// Index of the first occurrence of `c` in `s`, or -1 when absent.
pub open spec fn find_char(s: Seq<char>, c: char) -> int
    decreases s.len(),
{
    if s.len() == 0 {
        -1
    } else if s[0] == c {
        0
    } else {
        let r = find_char(s.subrange(1, s.len() as int), c);
        if r == -1 {
            -1
        } else {
            r + 1
        }
    }
}

/// The pieces of `s` between occurrences of the separator `c`.
pub open spec fn split_char(s: Seq<char>, c: char) -> Seq<Seq<char>>
    decreases s.len(),
{
    let i = find_char(s, c);
    if 0 <= i && i < s.len() {
        seq![s.subrange(0, i)] + split_char(s.subrange(i + 1, s.len() as int), c)
    } else {
        seq![s]
    }
}

/// `s` without its leading whitespace.
pub open spec fn trim_start(s: Seq<char>) -> Seq<char>
    decreases s.len(),
{
    if s.len() > 0 && is_space(s[0]) {
        trim_start(s.subrange(1, s.len() as int))
    } else {
        s
    }
}

/// `s` without its trailing whitespace.
pub open spec fn trim_end(s: Seq<char>) -> Seq<char>
    decreases s.len(),
{
    if s.len() > 0 && is_space(s[s.len() - 1]) {
        trim_end(s.subrange(0, s.len() - 1))
    } else {
        s
    }
}

/// `s` without leading and trailing whitespace.
pub open spec fn trim(s: Seq<char>) -> Seq<char> {
    trim_end(trim_start(s))
}

/// `s` without its first and last character (the `<`/`>` around a URL,
/// or the quotes around a relation name); empty when `s` is too short
/// to carry a surrounded payload.
pub open spec fn strip_ends(s: Seq<char>) -> Seq<char> {
    if s.len() >= 2 {
        s.subrange(1, s.len() - 1)
    } else {
        Seq::empty()
    }
}

/// The segment of the entry before the first `;`: the URL part.
pub open spec fn entry_part0(e: Seq<char>) -> Seq<char> {
    let i = find_char(e, ';');
    if 0 <= i && i < e.len() {
        e.subrange(0, i)
    } else {
        Seq::empty()
    }
}

/// The segment of the entry between the first `;` and the second one
/// (or the end): the relation part.
pub open spec fn entry_part1(e: Seq<char>) -> Seq<char> {
    let i = find_char(e, ';');
    if 0 <= i && i < e.len() {
        let rest = e.subrange(i + 1, e.len() as int);
        let j = find_char(rest, ';');
        if 0 <= j && j < rest.len() {
            rest.subrange(0, j)
        } else {
            rest
        }
    } else {
        Seq::empty()
    }
}

/// Whether the trimmed relation segment starts with the literal `rel=`.
pub open spec fn has_rel_prefix(q: Seq<char>) -> bool {
    q.len() >= 4 && q[0] == 'r' && q[1] == 'e' && q[2] == 'l' && q[3] == '='
}

/// An entry is acceptable when it has a `;` and its relation segment,
/// after trimming, carries the `rel=` marker.
pub open spec fn entry_ok(e: Seq<char>) -> bool {
    let i = find_char(e, ';');
    &&& 0 <= i && i < e.len()
    &&& has_rel_prefix(trim(entry_part1(e)))
}

/// The relation name of an acceptable entry: the relation segment with
/// `rel=` and the surrounding quotes removed.
pub open spec fn entry_rel(e: Seq<char>) -> Seq<char> {
    strip_ends(trim(entry_part1(e)).skip(4))
}

/// The URL of an acceptable entry: the URL segment, trimmed, with the
/// surrounding angle brackets removed.
pub open spec fn entry_url(e: Seq<char>) -> Seq<char> {
    strip_ends(trim(entry_part0(e)))
}

/// Record `url` under the relation `rel`; unrecognized relation names
/// leave the state unchanged.
pub open spec fn assign(st: LinkState, rel: Seq<char>, url: Seq<char>) -> LinkState {
    if rel == "current"@ {
        LinkState { current: url, ..st }
    } else if rel == "first"@ {
        LinkState { first: url, ..st }
    } else if rel == "last"@ {
        LinkState { last: url, ..st }
    } else if rel == "next"@ {
        LinkState { next: Some(url), ..st }
    } else {
        st
    }
}

/// One entry applied to the state: a malformed entry fails the parse.
pub open spec fn step(st: LinkState, e: Seq<char>) -> Option<LinkState> {
    if entry_ok(e) {
        Some(assign(st, entry_rel(e), entry_url(e)))
    } else {
        None
    }
}

/// All entries applied in input order.
pub open spec fn run(entries: Seq<Seq<char>>, st: LinkState) -> Option<LinkState>
    decreases entries.len(),
{
    if entries.len() == 0 {
        Some(st)
    } else {
        match step(st, entries[0]) {
            Some(st2) => run(entries.subrange(1, entries.len() as int), st2),
            None => None,
        }
    }
}

/// The state before any entry was seen.
pub open spec fn init_state() -> LinkState {
    LinkState { current: Seq::empty(), first: Seq::empty(), last: Seq::empty(), next: None }
}

/// The entries of a header value: the pieces between commas.
pub open spec fn entries_of(s: Seq<char>) -> Seq<Seq<char>> {
    split_char(s, ',')
}

/// What parsing a header value yields: the final state, provided every
/// entry was acceptable and the three mandatory relations came out
/// non-empty; `None` when the parse fails.
pub open spec fn spec_parse(s: Seq<char>) -> Option<LinkState> {
    match run(entries_of(s), init_state()) {
        Some(st) => if st.current.len() == 0 || st.first.len() == 0 || st.last.len() == 0 {
            None
        } else {
            Some(st)
        },
        None => None,
    }
}

/// The URL of the last acceptable entry carrying the relation `rel`,
/// if any: a later entry for a relation overwrites an earlier one.
pub open spec fn last_rel_url(es: Seq<Seq<char>>, rel: Seq<char>) -> Option<Seq<char>>
    decreases es.len(),
{
    if es.len() == 0 {
        None
    } else if entry_ok(es.last()) && entry_rel(es.last()) == rel {
        Some(entry_url(es.last()))
    } else {
        last_rel_url(es.drop_last(), rel)
    }
}

/// The URL an optional relation resolved to, or `d` when it never
/// appeared.
pub open spec fn rel_or(o: Option<Seq<char>>, d: Seq<char>) -> Seq<char> {
    match o {
        Some(u) => u,
        None => d,
    }
}

/// `find_char` returns the index of the first occurrence: if nothing
/// before `k` is `c`, and `k` (when within bounds) holds `c`, the first
/// occurrence is `k`, or there is none when `k` is the length.
pub proof fn lemma_find_char_at(s: Seq<char>, c: char, k: int)
    requires
        0 <= k <= s.len(),
        forall|i: int| 0 <= i < k ==> s[i] != c,
        k < s.len() ==> s[k] == c,
    ensures
        find_char(s, c) == if k < s.len() { k } else { -1 },
    decreases k,
{
    if s.len() == 0 {
    } else if k == 0 {
    } else {
        let t = s.subrange(1, s.len() as int);
        assert(forall|i: int| 0 <= i < k - 1 ==> t[i] != c);
        lemma_find_char_at(t, c, k - 1);
    }
}

/// `find_char` always yields -1 or a position of `c` with nothing
/// earlier equal to `c`.
pub proof fn lemma_find_char_range(s: Seq<char>, c: char)
    ensures
        -1 <= find_char(s, c) < s.len(),
        find_char(s, c) >= 0 ==> s[find_char(s, c)] == c,
        forall|i: int| 0 <= i < find_char(s, c) ==> s[i] != c,
        find_char(s, c) == -1 ==> forall|i: int| 0 <= i < s.len() ==> s[i] != c,
    decreases s.len(),
{
    if s.len() == 0 {
    } else if s[0] == c {
    } else {
        let t = s.subrange(1, s.len() as int);
        lemma_find_char_range(t, c);
        assert(forall|i: int| 1 <= i < s.len() ==> s[i] == t[i - 1]);
    }
}

/// Dropping `a` leading whitespace characters is what `trim_start` does,
/// provided position `a` (when within bounds) is not whitespace.
pub proof fn lemma_trim_start_at(s: Seq<char>, a: int)
    requires
        0 <= a <= s.len(),
        forall|i: int| 0 <= i < a ==> is_space(s[i]),
        a < s.len() ==> !is_space(s[a]),
    ensures
        trim_start(s) == s.subrange(a, s.len() as int),
    decreases a,
{
    if a == 0 {
        assert(s.subrange(0, s.len() as int) =~= s);
    } else {
        let t = s.subrange(1, s.len() as int);
        lemma_trim_start_at(t, a - 1);
        assert(t.subrange(a - 1, t.len() as int) =~= s.subrange(a, s.len() as int));
    }
}

/// Dropping the whitespace from position `b` on is what `trim_end` does,
/// provided position `b - 1` (when it exists) is not whitespace.
pub proof fn lemma_trim_end_at(s: Seq<char>, b: int)
    requires
        0 <= b <= s.len(),
        forall|i: int| b <= i < s.len() ==> is_space(s[i]),
        b > 0 ==> !is_space(s[b - 1]),
    ensures
        trim_end(s) == s.subrange(0, b),
    decreases s.len() - b,
{
    if b == s.len() as int {
        assert(s.subrange(0, s.len() as int) =~= s);
    } else {
        let t = s.subrange(0, s.len() - 1);
        assert(forall|i: int| b <= i < t.len() ==> t[i] == s[i]);
        lemma_trim_end_at(t, b);
        assert(t.subrange(0, b) =~= s.subrange(0, b));
    }
}

/// Trimming keeps exactly the characters from `a` to `b`, when all
/// characters outside that span are whitespace and, when the span is
/// not empty, its two end characters are not.
pub proof fn lemma_trim_at(s: Seq<char>, a: int, b: int)
    requires
        0 <= a <= b <= s.len(),
        forall|i: int| 0 <= i < a ==> is_space(s[i]),
        forall|i: int| b <= i < s.len() ==> is_space(s[i]),
        a < b ==> !is_space(s[a]) && !is_space(s[b - 1]),
        a == b ==> a == s.len() || b == 0,
    ensures
        trim(s) == s.subrange(a, b),
{
    if a < b || a == s.len() as int {
        lemma_trim_start_at(s, a);
        let t = s.subrange(a, s.len() as int);
        lemma_trim_end_at(t, b - a);
        assert(t.subrange(0, b - a) =~= s.subrange(a, b));
    } else {
        // a == b == 0: the whole of s is whitespace
        lemma_trim_start_at(s, s.len() as int);
        assert(s.subrange(s.len() as int, s.len() as int) =~= Seq::<char>::empty());
        lemma_trim_end_at(Seq::<char>::empty(), 0);
        assert(Seq::<char>::empty() =~= s.subrange(0, 0));
    }
}

/// Seen from the front: the last entry for `rel` is whatever the tail
/// yields, or the head entry when the tail has none.
proof fn lemma_last_rel_cons(es: Seq<Seq<char>>, rel: Seq<char>)
    requires
        es.len() > 0,
    ensures
        last_rel_url(es, rel) == {
            let t = last_rel_url(es.drop_first(), rel);
            if t is Some {
                t
            } else if entry_ok(es[0]) && entry_rel(es[0]) == rel {
                Some(entry_url(es[0]))
            } else {
                None
            }
        },
    decreases es.len(),
{
    if es.len() == 1 {
        assert(es.drop_first() =~= Seq::<Seq<char>>::empty());
        assert(es.last() == es[0]);
        assert(es.drop_last() =~= Seq::<Seq<char>>::empty());
    } else {
        assert(es.drop_first().last() == es.last());
        assert(es.drop_first().drop_last() =~= es.drop_last().drop_first());
        assert(es.drop_last()[0] == es[0]);
        lemma_last_rel_cons(es.drop_last(), rel);
    }
}

/// A relation that no acceptable entry carries never resolves.
proof fn lemma_last_rel_absent(es: Seq<Seq<char>>, rel: Seq<char>)
    requires
        forall|i: int|
            0 <= i < es.len() ==> !(entry_ok(#[trigger] es[i]) && entry_rel(es[i]) == rel),
    ensures
        last_rel_url(es, rel) is None,
    decreases es.len(),
{
    if es.len() > 0 {
        assert(es.last() == es[es.len() - 1]);
        lemma_last_rel_absent(es.drop_last(), rel);
    }
}

/// A single malformed entry fails the whole run.
proof fn lemma_run_bad(es: Seq<Seq<char>>, st: LinkState)
    requires
        exists|i: int| 0 <= i < es.len() && !entry_ok(#[trigger] es[i]),
    ensures
        run(es, st) is None,
    decreases es.len(),
{
    let i = choose|i: int| 0 <= i < es.len() && !entry_ok(#[trigger] es[i]);
    if i == 0 {
    } else {
        let t = es.subrange(1, es.len() as int);
        assert(!entry_ok(t[i - 1]));
        lemma_run_bad(t, assign(st, entry_rel(es[0]), entry_url(es[0])));
    }
}

/// When every entry is acceptable, a run succeeds and each relation
/// field ends up at the URL of the last entry that carried it, or at
/// its starting value when none did.
proof fn lemma_run_all_ok(es: Seq<Seq<char>>, st: LinkState)
    requires
        forall|i: int| 0 <= i < es.len() ==> entry_ok(#[trigger] es[i]),
    ensures
        run(es, st) == Some(
            LinkState {
                current: rel_or(last_rel_url(es, "current"@), st.current),
                first: rel_or(last_rel_url(es, "first"@), st.first),
                last: rel_or(last_rel_url(es, "last"@), st.last),
                next: match last_rel_url(es, "next"@) {
                    Some(u) => Some(u),
                    None => st.next,
                },
            },
        ),
    decreases es.len(),
{
    reveal_strlit("current");
    reveal_strlit("first");
    reveal_strlit("last");
    reveal_strlit("next");
    assert("current"@.len() == 7 && "first"@.len() == 5 && "last"@.len() == 4 && "next"@.len()
        == 4);
    assert("current"@ != "first"@ && "current"@ != "last"@ && "current"@ != "next"@);
    assert("first"@ != "last"@ && "first"@ != "next"@);
    assert("last"@ != "next"@) by {
        assert("last"@[0] == 'l' && "next"@[0] == 'n');
    }
    if es.len() == 0 {
        assert(last_rel_url(es, "current"@) is None);
        assert(last_rel_url(es, "first"@) is None);
        assert(last_rel_url(es, "last"@) is None);
        assert(last_rel_url(es, "next"@) is None);
    } else {
        let t = es.subrange(1, es.len() as int);
        assert(t =~= es.drop_first());
        assert(entry_ok(es[0]));
        assert(forall|i: int| 0 <= i < t.len() ==> entry_ok(#[trigger] t[i])) by {
            assert(forall|i: int| 0 <= i < t.len() ==> t[i] == es[i + 1]);
        }
        let st2 = assign(st, entry_rel(es[0]), entry_url(es[0]));
        assert(run(es, st) == run(t, st2));
        lemma_run_all_ok(t, st2);
        lemma_last_rel_cons(es, "current"@);
        lemma_last_rel_cons(es, "first"@);
        lemma_last_rel_cons(es, "last"@);
        lemma_last_rel_cons(es, "next"@);
        assert(es.drop_first() == t);
        let fin = run(t, st2)->Some_0;
        assert(fin.current == rel_or(last_rel_url(es, "current"@), st.current));
        assert(fin.first == rel_or(last_rel_url(es, "first"@), st.first));
        assert(fin.last == rel_or(last_rel_url(es, "last"@), st.last));
        assert(fin.next == match last_rel_url(es, "next"@) {
            Some(u) => Some(u),
            None => st.next,
        });
    }
}

/// A header whose entries are all acceptable, and whose `current`,
/// `first` and `last` relations resolve to non-empty URLs, parses; the
/// cursor holds, for each relation, exactly the stripped URL of the
/// last entry that carried it, and `next` is absent exactly when no
/// entry carried it.
pub proof fn lemma_parse_wellformed(s: Seq<char>)
    requires
        forall|i: int| 0 <= i < entries_of(s).len() ==> entry_ok(#[trigger] entries_of(s)[i]),
        last_rel_url(entries_of(s), "current"@) matches Some(u) && u.len() > 0,
        last_rel_url(entries_of(s), "first"@) matches Some(u) && u.len() > 0,
        last_rel_url(entries_of(s), "last"@) matches Some(u) && u.len() > 0,
    ensures
        spec_parse(s) == Some(
            LinkState {
                current: rel_or(last_rel_url(entries_of(s), "current"@), Seq::empty()),
                first: rel_or(last_rel_url(entries_of(s), "first"@), Seq::empty()),
                last: rel_or(last_rel_url(entries_of(s), "last"@), Seq::empty()),
                next: last_rel_url(entries_of(s), "next"@),
            },
        ),
{
    lemma_run_all_ok(entries_of(s), init_state());
}

/// A header in which no acceptable entry carries one of the mandatory
/// relations `current`, `first` or `last` fails to parse.
pub proof fn lemma_parse_missing_required(s: Seq<char>, rel: Seq<char>)
    requires
        rel == "current"@ || rel == "first"@ || rel == "last"@,
        forall|i: int|
            0 <= i < entries_of(s).len() ==> !(entry_ok(#[trigger] entries_of(s)[i])
                && entry_rel(entries_of(s)[i]) == rel),
    ensures
        spec_parse(s) is None,
{
    let es = entries_of(s);
    if exists|i: int| 0 <= i < es.len() && !entry_ok(#[trigger] es[i]) {
        lemma_run_bad(es, init_state());
    } else {
        assert(forall|i: int| 0 <= i < es.len() ==> entry_ok(#[trigger] es[i]));
        lemma_run_all_ok(es, init_state());
        lemma_last_rel_absent(es, rel);
    }
}

/// A header with an entry whose relation segment lacks the `rel=`
/// marker (or that has no `;` at all) fails to parse.
pub proof fn lemma_parse_malformed_entry(s: Seq<char>, i: int)
    requires
        0 <= i < entries_of(s).len(),
        !entry_ok(entries_of(s)[i]),
    ensures
        spec_parse(s) is None,
{
    lemma_run_bad(entries_of(s), init_state());
}

/// A URL fit for the wire format: it holds none of the two delimiter
/// characters, which the format cannot carry inside a URL.
pub open spec fn url_ok(u: Seq<char>) -> bool {
    forall|i: int| 0 <= i < u.len() ==> u[i] != ',' && u[i] != ';'
}

/// One rendered entry: `<url>;rel="name"`.
pub open spec fn render_entry(url: Seq<char>, name: Seq<char>) -> Seq<char> {
    "<"@ + url + ">;rel=\""@ + name + "\""@
}

/// A whole rendered header: the three mandatory relations, then `next`
/// when present, separated by commas.
pub open spec fn spec_render(st: LinkState) -> Seq<char> {
    let base = render_entry(st.current, "current"@) + ","@ + render_entry(st.first, "first"@)
        + ","@ + render_entry(st.last, "last"@);
    match st.next {
        None => base,
        Some(u) => base + ","@ + render_entry(u, "next"@),
    }
}

/// A rendered entry is acceptable and parses back to its relation name
/// and URL, provided neither holds a `;`.
proof fn lemma_entry_of_render(url: Seq<char>, name: Seq<char>)
    requires
        forall|i: int| 0 <= i < url.len() ==> url[i] != ';',
        forall|i: int| 0 <= i < name.len() ==> name[i] != ';',
        name.len() > 0,
    ensures
        entry_ok(render_entry(url, name)),
        entry_rel(render_entry(url, name)) == name,
        entry_url(render_entry(url, name)) == url,
{
    reveal_strlit("<");
    reveal_strlit(">;rel=\"");
    reveal_strlit("\"");
    let e = render_entry(url, name);
    assert("<"@.len() == 1 && ">;rel=\""@.len() == 7 && "\""@.len() == 1);
    let ul = url.len() as int;
    assert(e.len() == url.len() + name.len() + 9);
    assert(forall|i: int| 0 <= i < url.len() ==> e[1 + i] == url[i]);
    assert(forall|i: int| 0 <= i < name.len() ==> e[ul + 8 + i] == name[i]);
    assert(e[0] == '<' && e[ul + 1] == '>' && e[ul + 2] == ';');
    assert(e[ul + 3] == 'r' && e[ul + 4] == 'e' && e[ul + 5] == 'l');
    assert(e[ul + 6] == '=' && e[ul + 7] == '"');
    assert(e.last() == '"');
    // the first `;` sits right after the closing bracket
    lemma_find_char_at(e, ';', ul + 2);
    assert(entry_part0(e) =~= "<"@ + url + ">"@) by {
        reveal_strlit(">");
    }
    let rest = e.subrange(ul + 3, e.len() as int);
    lemma_find_char_at(rest, ';', rest.len() as int);
    assert(entry_part1(e) =~= rest);
    // neither segment carries surrounding whitespace
    lemma_trim_at(rest, 0, rest.len() as int);
    assert(trim(entry_part1(e)) == rest);
    assert(has_rel_prefix(rest));
    assert(entry_rel(e) =~= name) by {
        assert(rest.skip(4) =~= "\""@ + name + "\""@);
    }
    let part0 = entry_part0(e);
    lemma_trim_at(part0, 0, part0.len() as int);
    assert(entry_url(e) =~= url);
}

/// Splitting at commas peels off a comma-free prefix.
proof fn lemma_split_comma_prefix(a: Seq<char>, b: Seq<char>)
    requires
        forall|i: int| 0 <= i < a.len() ==> a[i] != ',',
    ensures
        split_char(a + seq![','] + b, ',') == seq![a] + split_char(b, ','),
{
    let s = a + seq![','] + b;
    assert(forall|i: int| 0 <= i < a.len() ==> s[i] == a[i]);
    assert(s[a.len() as int] == ',');
    lemma_find_char_at(s, ',', a.len() as int);
    assert(s.subrange(0, a.len() as int) =~= a);
    assert(s.subrange(a.len() as int + 1, s.len() as int) =~= b);
}

/// A comma-free string is a single entry.
proof fn lemma_split_no_comma(a: Seq<char>)
    requires
        forall|i: int| 0 <= i < a.len() ==> a[i] != ',',
    ensures
        split_char(a, ',') == seq![a],
{
    lemma_find_char_at(a, ',', a.len() as int);
}

/// Round trip: a header rendered from a pagination state parses back to
/// exactly that state, provided the three mandatory references are
/// non-empty and no reference holds a delimiter character.
#[verifier::rlimit(100)]
pub proof fn lemma_round_trip(st: LinkState)
    requires
        st.current.len() > 0,
        st.first.len() > 0,
        st.last.len() > 0,
        url_ok(st.current),
        url_ok(st.first),
        url_ok(st.last),
        st.next matches Some(u) ==> url_ok(u),
    ensures
        spec_parse(spec_render(st)) == Some(st),
{
    reveal_strlit("current");
    reveal_strlit("first");
    reveal_strlit("last");
    reveal_strlit("next");
    reveal_strlit("<");
    reveal_strlit(">;rel=\"");
    reveal_strlit("\"");
    reveal_strlit(",");
    assert(","@ =~= seq![',']);
    assert("current"@.len() == 7 && "first"@.len() == 5 && "last"@.len() == 4 && "next"@.len()
        == 4);
    assert("current"@ != "first"@ && "current"@ != "last"@ && "current"@ != "next"@);
    assert("first"@ != "last"@ && "first"@ != "next"@);
    assert("last"@ != "next"@) by {
        assert("last"@[0] == 'l' && "next"@[0] == 'n');
    }
    let e1 = render_entry(st.current, "current"@);
    let e2 = render_entry(st.first, "first"@);
    let e3 = render_entry(st.last, "last"@);
    lemma_entry_of_render(st.current, "current"@);
    lemma_entry_of_render(st.first, "first"@);
    lemma_entry_of_render(st.last, "last"@);
    let s = spec_render(st);
    match st.next {
        None => {
            assert(s =~= e1 + seq![','] + (e2 + seq![','] + e3));
            lemma_split_comma_prefix(e1, e2 + seq![','] + e3);
            lemma_split_comma_prefix(e2, e3);
            lemma_split_no_comma(e3);
            let es = entries_of(s);
            assert(es == seq![e1] + (seq![e2] + seq![e3]));
            assert(es.len() == 3 && es[0] == e1 && es[1] == e2 && es[2] == e3);
            let st1 = assign(init_state(), "current"@, st.current);
            let st2 = assign(st1, "first"@, st.first);
            let st3 = assign(st2, "last"@, st.last);
            assert(es.subrange(1, 3) =~= seq![e2, e3]);
            assert(seq![e2, e3].subrange(1, 2) =~= seq![e3]);
            assert(seq![e3].subrange(1, 1) =~= Seq::<Seq<char>>::empty());
            assert(step(init_state(), e1) == Some(st1));
            assert(run(es, init_state()) == run(seq![e2, e3], st1));
            assert(step(st1, e2) == Some(st2));
            assert(run(seq![e2, e3], st1) == run(seq![e3], st2));
            assert(step(st2, e3) == Some(st3));
            assert(run(Seq::<Seq<char>>::empty(), st3) == Some(st3));
            assert(run(seq![e3], st2) == Some(st3));
            assert(st3 == st);
        },
        Some(u) => {
            let e4 = render_entry(u, "next"@);
            lemma_entry_of_render(u, "next"@);
            assert(s =~= e1 + seq![','] + (e2 + seq![','] + (e3 + seq![','] + e4)));
            lemma_split_comma_prefix(e1, e2 + seq![','] + (e3 + seq![','] + e4));
            lemma_split_comma_prefix(e2, e3 + seq![','] + e4);
            lemma_split_comma_prefix(e3, e4);
            lemma_split_no_comma(e4);
            let es = entries_of(s);
            assert(es == seq![e1] + (seq![e2] + (seq![e3] + seq![e4])));
            assert(es.len() == 4 && es[0] == e1 && es[1] == e2 && es[2] == e3 && es[3] == e4);
            let st1 = assign(init_state(), "current"@, st.current);
            let st2 = assign(st1, "first"@, st.first);
            let st3 = assign(st2, "last"@, st.last);
            let st4 = assign(st3, "next"@, u);
            assert(es.subrange(1, 4) =~= seq![e2, e3, e4]);
            assert(seq![e2, e3, e4].subrange(1, 3) =~= seq![e3, e4]);
            assert(seq![e3, e4].subrange(1, 2) =~= seq![e4]);
            assert(seq![e4].subrange(1, 1) =~= Seq::<Seq<char>>::empty());
            assert(step(init_state(), e1) == Some(st1));
            assert(run(es, init_state()) == run(seq![e2, e3, e4], st1));
            assert(step(st1, e2) == Some(st2));
            assert(run(seq![e2, e3, e4], st1) == run(seq![e3, e4], st2));
            assert(step(st2, e3) == Some(st3));
            assert(run(seq![e3, e4], st2) == run(seq![e4], st3));
            assert(step(st3, e4) == Some(st4));
            assert(run(Seq::<Seq<char>>::empty(), st4) == Some(st4));
            assert(run(seq![e4], st3) == Some(st4));
            assert(st4 == st);
        },
    }
}

} // verus!
