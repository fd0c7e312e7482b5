//! Character-level text model shared by the library.
//!
//! Text is handled as sequences of Unicode scalar values (`Seq<char>`), which is
//! also the view Verus gives to `str` and `String`. Whitespace follows Unicode's
//! `White_Space` property, the definition that `char::is_whitespace` and
//! `str::trim` use.
use vstd::prelude::*;

verus! {

broadcast use vstd::string::group_string_axioms;

// ---------------------------------------------------------------------------
// Specifications
// ---------------------------------------------------------------------------

/// Unicode `White_Space`: the characters `char::is_whitespace` accepts.
pub open spec fn is_ws(c: char) -> bool {
    let u = c as u32;
    (9 <= u && u <= 13) || u == 32 || u == 0x85 || u == 0xa0 || u == 0x1680 || (0x2000 <= u
        && u <= 0x200a) || u == 0x2028 || u == 0x2029 || u == 0x202f || u == 0x205f || u
        == 0x3000
}

/// The text with every whitespace character removed: what a reader sees of it.
pub open spec fn strip_ws(s: Seq<char>) -> Seq<char>
    decreases s.len(),
{
    if s.len() == 0 {
        Seq::empty()
    } else if is_ws(s[0]) {
        strip_ws(s.drop_first())
    } else {
        seq![s[0]] + strip_ws(s.drop_first())
    }
}

/// Whether every character of `s` is whitespace.
pub open spec fn all_ws(s: Seq<char>) -> bool {
    forall|i: int| 0 <= i < s.len() ==> is_ws(#[trigger] s[i])
}

/// `str::trim_start`.
pub open spec fn trim_start(s: Seq<char>) -> Seq<char>
    decreases s.len(),
{
    if s.len() > 0 && is_ws(s[0]) {
        trim_start(s.drop_first())
    } else {
        s
    }
}

/// `str::trim_end`.
pub open spec fn trim_end(s: Seq<char>) -> Seq<char>
    decreases s.len(),
{
    if s.len() > 0 && is_ws(s.last()) {
        trim_end(s.drop_last())
    } else {
        s
    }
}

/// `str::trim`.
pub open spec fn trim(s: Seq<char>) -> Seq<char> {
    trim_end(trim_start(s))
}

/// Neither end of `s` is whitespace.
pub open spec fn is_trimmed(s: Seq<char>) -> bool {
    s.len() == 0 || (!is_ws(s[0]) && !is_ws(s.last()))
}

/// The concatenation of all parts, in order.
pub open spec fn concat_all(parts: Seq<Seq<char>>) -> Seq<char>
    decreases parts.len(),
{
    if parts.len() == 0 {
        Seq::empty()
    } else {
        concat_all(parts.drop_last()) + parts.last()
    }
}

/// `parts.join(sep)`.
pub open spec fn join(parts: Seq<Seq<char>>, sep: Seq<char>) -> Seq<char>
    decreases parts.len(),
{
    if parts.len() == 0 {
        Seq::empty()
    } else if parts.len() == 1 {
        parts[0]
    } else {
        join(parts.drop_last(), sep) + sep + parts.last()
    }
}

/// The character views of a sequence of character buffers.
pub open spec fn views(v: Seq<Vec<char>>) -> Seq<Seq<char>> {
    Seq::new(v.len(), |i: int| v[i]@)
}

/// The character views of a sequence of strings.
pub open spec fn string_views(v: Seq<String>) -> Seq<Seq<char>> {
    Seq::new(v.len(), |i: int| v[i]@)
}

/// `s` starts with `p`.
pub open spec fn has_prefix(s: Seq<char>, p: Seq<char>) -> bool {
    p.len() <= s.len() && s.subrange(0, p.len() as int) == p
}

/// `s` ends with `p`.
pub open spec fn has_suffix(s: Seq<char>, p: Seq<char>) -> bool {
    p.len() <= s.len() && s.subrange(s.len() - p.len(), s.len() as int) == p
}

/// `p` occurs in `s` at position `i`.
pub open spec fn occurs_at(s: Seq<char>, p: Seq<char>, i: int) -> bool {
    0 <= i && i + p.len() <= s.len() && s.subrange(i, i + p.len()) == p
}

/// `s.contains(p)`.
pub open spec fn contains(s: Seq<char>, p: Seq<char>) -> bool {
    exists|i: int| occurs_at(s, p, i)
}

/// The first position at which `p` occurs in `s`, searching from `from`.
pub open spec fn find_from(s: Seq<char>, p: Seq<char>, from: int) -> Option<int>
    decreases s.len() + 1 - from,
{
    if from < 0 || from + p.len() > s.len() {
        None
    } else if occurs_at(s, p, from) {
        Some(from)
    } else {
        find_from(s, p, from + 1)
    }
}

/// `s.replace(p, r)` for a non-empty pattern `p`: every non-overlapping occurrence,
/// left to right, replaced.
pub open spec fn replace_from(s: Seq<char>, p: Seq<char>, r: Seq<char>, from: int) -> Seq<char>
    recommends
        p.len() > 0,
        0 <= from <= s.len(),
    decreases s.len() - from,
{
    if p.len() == 0 || from < 0 || from > s.len() {
        s.subrange(from, s.len() as int)
    } else {
        match find_from(s, p, from) {
            None => s.subrange(from, s.len() as int),
            Some(i) => if from < i + p.len() <= s.len() {
                s.subrange(from, i) + r + replace_from(s, p, r, i + p.len())
            } else {
                s.subrange(from, s.len() as int)
            },
        }
    }
}

/// `s.replace(p, r)`.
pub open spec fn replace(s: Seq<char>, p: Seq<char>, r: Seq<char>) -> Seq<char> {
    replace_from(s, p, r, 0)
}

/// `s.trim_end_matches(p)` for a non-empty pattern: every trailing repetition of `p` removed.
pub open spec fn trim_end_matches(s: Seq<char>, p: Seq<char>) -> Seq<char>
    decreases s.len(),
{
    if p.len() > 0 && has_suffix(s, p) {
        trim_end_matches(s.subrange(0, s.len() - p.len()), p)
    } else {
        s
    }
}

/// `s.trim_end_matches(p)` is a prefix of `s`.
pub proof fn lemma_trim_end_matches_prefix(s: Seq<char>, p: Seq<char>) -> (k: int)
    ensures
        0 <= k <= s.len(),
        trim_end_matches(s, p) == s.subrange(0, k),
    decreases s.len(),
{
    if p.len() > 0 && has_suffix(s, p) {
        let t = s.subrange(0, s.len() - p.len());
        let k = lemma_trim_end_matches_prefix(t, p);
        assert(t.subrange(0, k) =~= s.subrange(0, k));
        k
    } else {
        assert(s.subrange(0, s.len() as int) =~= s);
        s.len() as int
    }
}

/// The position of the first whitespace character of `s` at or after `i` (or `s.len()`).
pub open spec fn first_ws_from(s: Seq<char>, i: int) -> int
    decreases s.len() - i,
{
    if i < 0 || i >= s.len() {
        s.len() as int
    } else if is_ws(s[i]) {
        i
    } else {
        first_ws_from(s, i + 1)
    }
}

/// `str::split_whitespace`: the maximal runs of non-whitespace characters.
pub open spec fn words(s: Seq<char>) -> Seq<Seq<char>>
    decreases s.len(),
{
    let t = trim_start(s);
    if t.len() == 0 {
        Seq::empty()
    } else {
        let k = first_ws_from(t, 0);
        if 0 < k <= t.len() && t.len() <= s.len() {
            seq![t.subrange(0, k)] + words(t.subrange(k, t.len() as int))
        } else {
            Seq::empty()
        }
    }
}

/// `Path::join` with `/` as the separator: an absolute name (one that starts with `/`)
/// replaces the directory; otherwise a `/` is inserted between them unless the
/// directory is empty or already ends with one.
pub open spec fn join_path(dir: Seq<char>, name: Seq<char>) -> Seq<char> {
    if name.len() > 0 && name[0] == '/' {
        name
    } else if dir.len() == 0 {
        name
    } else if dir.last() == '/' {
        dir + name
    } else {
        dir + seq!['/'] + name
    }
}

/// Decimal digits of `n`, as `n.to_string()` writes them.
pub open spec fn decimal(n: nat) -> Seq<char>
    decreases n,
{
    if n < 10 {
        seq![digit_char(n)]
    } else {
        decimal(n / 10) + seq![digit_char(n % 10)]
    }
}

/// The ASCII digit for `d < 10`.
pub open spec fn digit_char(d: nat) -> char {
    if d == 0 {
        '0'
    } else if d == 1 {
        '1'
    } else if d == 2 {
        '2'
    } else if d == 3 {
        '3'
    } else if d == 4 {
        '4'
    } else if d == 5 {
        '5'
    } else if d == 6 {
        '6'
    } else if d == 7 {
        '7'
    } else if d == 8 {
        '8'
    } else {
        '9'
    }
}

// ---------------------------------------------------------------------------
// Lemmas
// ---------------------------------------------------------------------------

pub proof fn lemma_strip_ws_add(a: Seq<char>, b: Seq<char>)
    ensures
        strip_ws(a + b) == strip_ws(a) + strip_ws(b),
    decreases a.len(),
{
    if a.len() == 0 {
        assert(a + b =~= b);
        assert(strip_ws(a) =~= Seq::<char>::empty());
        assert(strip_ws(a) + strip_ws(b) =~= strip_ws(b));
    } else {
        lemma_strip_ws_add(a.drop_first(), b);
        assert((a + b).drop_first() =~= a.drop_first() + b);
        assert((a + b)[0] == a[0]);
        if is_ws(a[0]) {
        } else {
            assert(seq![a[0]] + strip_ws(a.drop_first()) + strip_ws(b) =~= seq![a[0]] + (
            strip_ws(a.drop_first()) + strip_ws(b)));
        }
    }
}

pub proof fn lemma_strip_ws_all_ws(s: Seq<char>)
    requires
        all_ws(s),
    ensures
        strip_ws(s) == Seq::<char>::empty(),
    decreases s.len(),
{
    if s.len() > 0 {
        assert(is_ws(s[0]));
        assert forall|i: int| 0 <= i < s.drop_first().len() implies is_ws(
            #[trigger] s.drop_first()[i],
        ) by {
            assert(s.drop_first()[i] == s[i + 1]);
        }
        lemma_strip_ws_all_ws(s.drop_first());
    }
}

pub proof fn lemma_strip_ws_empty_all_ws(s: Seq<char>)
    requires
        strip_ws(s).len() == 0,
    ensures
        all_ws(s),
    decreases s.len(),
{
    if s.len() > 0 {
        if !is_ws(s[0]) {
            assert((seq![s[0]] + strip_ws(s.drop_first())).len() > 0);
        }
        lemma_strip_ws_empty_all_ws(s.drop_first());
        assert forall|i: int| 0 <= i < s.len() implies is_ws(#[trigger] s[i]) by {
            if i > 0 {
                assert(s[i] == s.drop_first()[i - 1]);
            }
        }
    }
}

pub proof fn lemma_strip_ws_single(c: char)
    ensures
        strip_ws(seq![c]) == (if is_ws(c) {
            Seq::<char>::empty()
        } else {
            seq![c]
        }),
{
    assert(seq![c].drop_first() =~= Seq::<char>::empty());
    assert(strip_ws(seq![c].drop_first()) =~= Seq::<char>::empty());
    assert(seq![c][0] == c);
    if !is_ws(c) {
        assert(seq![c] + Seq::<char>::empty() =~= seq![c]);
    }
}

pub proof fn lemma_trim_start(s: Seq<char>)
    ensures
        strip_ws(trim_start(s)) == strip_ws(s),
        trim_start(s).len() <= s.len(),
        trim_start(s).len() == 0 || !is_ws(trim_start(s)[0]),
        exists|k: int|
            0 <= k <= s.len() && trim_start(s) == s.subrange(k, s.len() as int) && all_ws(
                s.subrange(0, k),
            ),
    decreases s.len(),
{
    if s.len() > 0 && is_ws(s[0]) {
        lemma_trim_start(s.drop_first());
        let k = choose|k: int|
            0 <= k <= s.drop_first().len() && trim_start(s.drop_first()) == s.drop_first().subrange(
                k,
                s.drop_first().len() as int,
            ) && all_ws(s.drop_first().subrange(0, k));
        assert(s.drop_first().subrange(k, s.drop_first().len() as int) =~= s.subrange(
            k + 1,
            s.len() as int,
        ));
        assert forall|i: int| 0 <= i < k + 1 implies is_ws(#[trigger] s.subrange(0, k + 1)[i]) by {
            if i > 0 {
                assert(s.subrange(0, k + 1)[i] == s.drop_first().subrange(0, k)[i - 1]);
            }
        }
    } else {
        assert(s.subrange(0, s.len() as int) =~= s);
        assert(all_ws(s.subrange(0, 0)));
    }
}

pub proof fn lemma_trim_end(s: Seq<char>)
    ensures
        strip_ws(trim_end(s)) == strip_ws(s),
        trim_end(s).len() <= s.len(),
        trim_end(s).len() == 0 || !is_ws(trim_end(s).last()),
        exists|k: int|
            0 <= k <= s.len() && trim_end(s) == s.subrange(0, k) && all_ws(
                s.subrange(k, s.len() as int),
            ),
    decreases s.len(),
{
    if s.len() > 0 && is_ws(s.last()) {
        lemma_trim_end(s.drop_last());
        let k = choose|k: int|
            0 <= k <= s.drop_last().len() && trim_end(s.drop_last()) == s.drop_last().subrange(
                0,
                k,
            ) && all_ws(s.drop_last().subrange(k, s.drop_last().len() as int));
        assert(s.drop_last().subrange(0, k) =~= s.subrange(0, k));
        assert(s =~= s.drop_last() + seq![s.last()]);
        lemma_strip_ws_add(s.drop_last(), seq![s.last()]);
        lemma_strip_ws_single(s.last());
        assert(strip_ws(s.drop_last()) + Seq::<char>::empty() =~= strip_ws(s.drop_last()));
        assert forall|i: int| 0 <= i < s.len() - k implies is_ws(
            #[trigger] s.subrange(k, s.len() as int)[i],
        ) by {
            if k + i < s.len() - 1 {
                assert(s.subrange(k, s.len() as int)[i] == s.drop_last().subrange(
                    k,
                    s.drop_last().len() as int,
                )[i]);
            }
        }
    } else {
        assert(s.subrange(0, s.len() as int) =~= s);
        assert(all_ws(s.subrange(s.len() as int, s.len() as int)));
    }
}

/// What `trim` keeps and drops.
pub proof fn lemma_trim(s: Seq<char>)
    ensures
        strip_ws(trim(s)) == strip_ws(s),
        trim(s).len() <= s.len(),
        is_trimmed(trim(s)),
        strip_ws(s).len() > 0 <==> trim(s).len() > 0,
{
    lemma_trim_start(s);
    lemma_trim_end(trim_start(s));
    let t = trim_start(s);
    let k = choose|k: int|
        0 <= k <= t.len() && trim_end(t) == t.subrange(0, k) && all_ws(
            t.subrange(k, t.len() as int),
        );
    if trim(s).len() > 0 {
        assert(trim(s)[0] == t[0]);
    }
    if trim(s).len() == 0 {
        assert(strip_ws(trim(s)) =~= Seq::<char>::empty());
    }
    if strip_ws(s).len() == 0 {
        if trim(s).len() > 0 {
            lemma_strip_ws_empty_all_ws(s);
            lemma_strip_ws_empty_all_ws(trim(s));
            assert(is_ws(trim(s)[0]));
        }
    }
}

/// A trimmed text is its own trim.
pub proof fn lemma_trim_trimmed(s: Seq<char>)
    requires
        is_trimmed(s),
    ensures
        trim(s) == s,
{
    if s.len() > 0 {
        assert(trim_start(s) == s);
        assert(trim_end(s) == s);
    } else {
        assert(trim_start(s) == s);
    }
}

pub proof fn lemma_first_ws_from(s: Seq<char>, i: int)
    requires
        0 <= i <= s.len(),
    ensures
        i <= first_ws_from(s, i) <= s.len(),
        forall|j: int| i <= j < first_ws_from(s, i) ==> !is_ws(#[trigger] s[j]),
        first_ws_from(s, i) < s.len() ==> is_ws(s[first_ws_from(s, i)]),
    decreases s.len() - i,
{
    if i < s.len() && !is_ws(s[i]) {
        lemma_first_ws_from(s, i + 1);
    }
}

pub proof fn lemma_first_ws_skip(s: Seq<char>, i: int, j: int)
    requires
        0 <= i <= j <= s.len(),
        forall|m: int| i <= m < j ==> !is_ws(#[trigger] s[m]),
    ensures
        first_ws_from(s, i) == first_ws_from(s, j),
    decreases j - i,
{
    if i < j {
        lemma_first_ws_skip(s, i + 1, j);
    }
}

pub proof fn lemma_words_skip_ws(s: Seq<char>)
    requires
        s.len() > 0,
        is_ws(s[0]),
    ensures
        words(s) == words(s.drop_first()),
{
    lemma_trim_start(s);
    lemma_trim_start(s.drop_first());
}

pub proof fn lemma_words_word(s: Seq<char>, k: int)
    requires
        0 < k <= s.len(),
        forall|m: int| 0 <= m < k ==> !is_ws(#[trigger] s[m]),
        k == s.len() || is_ws(s[k]),
    ensures
        words(s) == seq![s.subrange(0, k)] + words(s.subrange(k, s.len() as int)),
{
    assert(trim_start(s) == s);
    lemma_first_ws_skip(s, 0, k);
}

pub proof fn lemma_concat_all_push(parts: Seq<Seq<char>>, x: Seq<char>)
    ensures
        concat_all(parts.push(x)) == concat_all(parts) + x,
{
    assert(parts.push(x).drop_last() =~= parts);
}

pub proof fn lemma_concat_all_add(a: Seq<Seq<char>>, b: Seq<Seq<char>>)
    ensures
        concat_all(a + b) == concat_all(a) + concat_all(b),
    decreases b.len(),
{
    if b.len() == 0 {
        assert(a + b =~= a);
        assert(concat_all(a) + Seq::<char>::empty() =~= concat_all(a));
    } else {
        lemma_concat_all_add(a, b.drop_last());
        assert((a + b).drop_last() =~= a + b.drop_last());
        assert((a + b).last() == b.last());
        assert(concat_all(a) + concat_all(b.drop_last()) + b.last() =~= concat_all(a) + (
        concat_all(b.drop_last()) + b.last()));
    }
}

/// Joining with a whitespace separator keeps exactly the visible text of the parts.
pub proof fn lemma_strip_join(parts: Seq<Seq<char>>, sep: Seq<char>)
    requires
        all_ws(sep),
    ensures
        strip_ws(join(parts, sep)) == strip_ws(concat_all(parts)),
    decreases parts.len(),
{
    lemma_strip_ws_all_ws(sep);
    if parts.len() == 0 {
    } else if parts.len() == 1 {
        assert(concat_all(parts.drop_last()) =~= Seq::<char>::empty());
        assert(Seq::<char>::empty() + parts.last() =~= parts[0]);
    } else {
        lemma_strip_join(parts.drop_last(), sep);
        lemma_strip_ws_add(join(parts.drop_last(), sep) + sep, parts.last());
        lemma_strip_ws_add(join(parts.drop_last(), sep), sep);
        lemma_strip_ws_add(concat_all(parts.drop_last()), parts.last());
        assert(strip_ws(join(parts.drop_last(), sep)) + Seq::<char>::empty() =~= strip_ws(
            join(parts.drop_last(), sep),
        ));
    }
}

pub proof fn lemma_join_push(parts: Seq<Seq<char>>, sep: Seq<char>, x: Seq<char>)
    ensures
        join(parts.push(x), sep) == if parts.len() == 0 {
            x
        } else {
            join(parts, sep) + sep + x
        },
{
    assert(parts.push(x).drop_last() =~= parts);
    if parts.len() == 0 {
        assert(parts.push(x)[0] == x);
    }
}

pub proof fn lemma_views_push(v: Seq<Vec<char>>, x: Vec<char>)
    ensures
        views(v.push(x)) == views(v).push(x@),
{
    assert(views(v.push(x)) =~= views(v).push(x@));
}

pub proof fn lemma_string_views_push(v: Seq<String>, x: String)
    ensures
        string_views(v.push(x)) == string_views(v).push(x@),
{
    assert(string_views(v.push(x)) =~= string_views(v).push(x@));
}

// ---------------------------------------------------------------------------
// Executable operations
// ---------------------------------------------------------------------------

/// `char::is_whitespace`.
pub fn is_whitespace(c: char) -> (b: bool)
    ensures
        b == is_ws(c),
{
    let u = c as u32;
    (9 <= u && u <= 13) || u == 32 || u == 0x85 || u == 0xa0 || u == 0x1680 || (0x2000 <= u
        && u <= 0x200a) || u == 0x2028 || u == 0x2029 || u == 0x202f || u == 0x205f || u
        == 0x3000
}

/// The characters of `s`, in order.
pub fn chars_of(s: &str) -> (out: Vec<char>)
    ensures
        out@ == s@,
{
    let mut out: Vec<char> = Vec::new();
    for c in it: s.chars()
        invariant
            out@ == it.seq().take(it.index() as int),
            it.seq() == s@,
    {
        out.push(c);
    }
    out
}

/// `String: FromIterator<char>`: the string made of these characters.
#[verifier::external_body]
pub(crate) fn string_from_chars(chars: &[char]) -> (s: String)
    ensures
        s@ == chars@,
{
    chars.iter().collect()
}

/// `str::chars().count()`: the number of characters of `s`.
pub fn char_count(s: &str) -> (n: usize)
    ensures
        n == s@.len(),
{
    chars_of(s).len()
}

/// `s[from..to]` as a new buffer.
pub fn sub_chars(s: &[char], from: usize, to: usize) -> (out: Vec<char>)
    requires
        from <= to <= s@.len(),
    ensures
        out@ == s@.subrange(from as int, to as int),
{
    let mut out: Vec<char> = Vec::new();
    let mut i = from;
    while i < to
        invariant
            from <= i <= to <= s@.len(),
            out@ == s@.subrange(from as int, i as int),
        decreases to - i,
    {
        out.push(s[i]);
        i += 1;
        assert(out@ =~= s@.subrange(from as int, i as int));
    }
    out
}

/// `a + b`.
pub fn concat_chars(a: &[char], b: &[char]) -> (out: Vec<char>)
    ensures
        out@ == a@ + b@,
{
    let mut out = sub_chars(a, 0, a.len());
    append_chars(&mut out, b);
    proof {
        assert(a@.subrange(0, a@.len() as int) =~= a@);
    }
    out
}

/// Appends `b` to `a`.
pub fn append_chars(a: &mut Vec<char>, b: &[char])
    ensures
        final(a)@ == old(a)@ + b@,
{
    let ghost start = a@;
    let mut i: usize = 0;
    while i < b.len()
        invariant
            i <= b@.len(),
            a@ == start + b@.subrange(0, i as int),
        decreases b.len() - i,
    {
        a.push(b[i]);
        i += 1;
        assert(a@ =~= start + b@.subrange(0, i as int));
    }
    assert(b@.subrange(0, b@.len() as int) =~= b@);
}

/// `str::trim` on a character buffer.
pub fn trim_chars(s: &[char]) -> (out: Vec<char>)
    ensures
        out@ == trim(s@),
{
    let n = s.len();
    let mut i: usize = 0;
    assert(s@.subrange(0, n as int) =~= s@);
    while i < n && is_whitespace(s[i])
        invariant
            i <= n == s@.len(),
            trim_start(s@) == trim_start(s@.subrange(i as int, n as int)),
        decreases n - i,
    {
        proof {
            let t = s@.subrange(i as int, n as int);
            assert(t.drop_first() =~= s@.subrange(i + 1, n as int));
        }
        i += 1;
    }
    proof {
        let t = s@.subrange(i as int, n as int);
        if i < n {
            assert(!is_ws(t[0]));
        }
    }
    let mut j: usize = n;
    while j > i && is_whitespace(s[j - 1])
        invariant
            i <= j <= n == s@.len(),
            trim_end(s@.subrange(i as int, n as int)) == trim_end(
                s@.subrange(i as int, j as int),
            ),
        decreases j - i,
    {
        proof {
            let t = s@.subrange(i as int, j as int);
            assert(t.drop_last() =~= s@.subrange(i as int, j - 1));
        }
        j -= 1;
    }
    sub_chars(s, i, j)
}

/// `str::trim_start` on a character buffer.
pub fn trim_start_chars(s: &[char]) -> (out: Vec<char>)
    ensures
        out@ == trim_start(s@),
{
    let n = s.len();
    let mut i: usize = 0;
    assert(s@.subrange(0, n as int) =~= s@);
    while i < n && is_whitespace(s[i])
        invariant
            i <= n == s@.len(),
            trim_start(s@) == trim_start(s@.subrange(i as int, n as int)),
        decreases n - i,
    {
        proof {
            let t = s@.subrange(i as int, n as int);
            assert(t.drop_first() =~= s@.subrange(i + 1, n as int));
        }
        i += 1;
    }
    proof {
        let t = s@.subrange(i as int, n as int);
        if i < n {
            assert(!is_ws(t[0]));
        }
    }
    sub_chars(s, i, n)
}

/// `parts.join(sep)`.
pub fn join_chars(parts: &Vec<Vec<char>>, sep: &[char]) -> (out: Vec<char>)
    ensures
        out@ == join(views(parts@), sep@),
{
    let mut out: Vec<char> = Vec::new();
    let mut i: usize = 0;
    while i < parts.len()
        invariant
            i <= parts@.len(),
            out@ == join(views(parts@.subrange(0, i as int)), sep@),
        decreases parts.len() - i,
    {
        proof {
            assert(views(parts@.subrange(0, i + 1)) =~= views(parts@.subrange(0, i as int)).push(
                parts@[i as int]@,
            ));
            lemma_join_push(views(parts@.subrange(0, i as int)), sep@, parts@[i as int]@);
        }
        if i > 0 {
            append_chars(&mut out, sep);
        }
        append_chars(&mut out, &parts[i]);
        proof {
            if i == 0 {
                assert(out@ =~= parts@[0]@);
            }
        }
        i += 1;
    }
    proof {
        assert(parts@.subrange(0, parts@.len() as int) =~= parts@);
    }
    out
}

/// `str::split_whitespace` on a character buffer.
pub fn split_whitespace(s: &[char]) -> (out: Vec<Vec<char>>)
    ensures
        views(out@) == words(s@),
{
    let n = s.len();
    let mut out: Vec<Vec<char>> = Vec::new();
    let mut i: usize = 0;
    proof {
        assert(s@.subrange(0, n as int) =~= s@);
        assert(views(out@) + words(s@) =~= words(s@));
    }
    while i < n
        invariant
            i <= n == s@.len(),
            words(s@) == views(out@) + words(s@.subrange(i as int, n as int)),
        decreases n - i,
    {
        if is_whitespace(s[i]) {
            proof {
                let x = s@.subrange(i as int, n as int);
                lemma_words_skip_ws(x);
                assert(x.drop_first() =~= s@.subrange(i + 1, n as int));
            }
            i += 1;
        } else {
            let start = i;
            while i < n && !is_whitespace(s[i])
                invariant
                    start < i || start == i,
                    start <= i <= n == s@.len(),
                    forall|m: int| start <= m < i ==> !is_ws(#[trigger] s@[m]),
                decreases n - i,
            {
                i += 1;
            }
            let word = sub_chars(s, start, i);
            proof {
                let x = s@.subrange(start as int, n as int);
                assert(!is_ws(x[0]));
                assert forall|m: int| 0 <= m < i - start implies !is_ws(#[trigger] x[m]) by {
                    assert(x[m] == s@[start + m]);
                }
                lemma_words_word(x, i - start);
                assert(x.subrange(0, i - start) =~= word@);
                assert(x.subrange(i - start, x.len() as int) =~= s@.subrange(i as int, n as int));
                lemma_views_push(out@, word);
                assert(views(out@) + (seq![word@] + words(s@.subrange(i as int, n as int)))
                    =~= views(out@).push(word@) + words(s@.subrange(i as int, n as int)));
            }
            out.push(word);
        }
    }
    proof {
        assert(words(s@.subrange(n as int, n as int)) =~= Seq::<Seq<char>>::empty()) by {
            assert(trim_start(s@.subrange(n as int, n as int)).len() == 0);
        }
        assert(views(out@) + Seq::<Seq<char>>::empty() =~= views(out@));
    }
    out
}

/// `s.to_string()` for a string slice.
pub fn owned(s: &str) -> (r: String)
    ensures
        r@ == s@,
{
    s.to_string()
}

/// Character-wise equality.
pub fn chars_eq(a: &[char], b: &[char]) -> (r: bool)
    ensures
        r == (a@ == b@),
{
    if a.len() != b.len() {
        return false;
    }
    let mut i: usize = 0;
    while i < a.len()
        invariant
            i <= a@.len() == b@.len(),
            a@.subrange(0, i as int) == b@.subrange(0, i as int),
        decreases a.len() - i,
    {
        if a[i] != b[i] {
            return false;
        }
        i += 1;
        assert(a@.subrange(0, i as int) =~= b@.subrange(0, i as int));
    }
    assert(a@ =~= a@.subrange(0, i as int));
    assert(b@ =~= b@.subrange(0, i as int));
    true
}

/// Whether the string `s` equals the literal `lit`.
pub fn str_is(s: &str, lit: &str) -> (r: bool)
    ensures
        r == (s@ == lit@),
{
    chars_eq(&chars_of(s), &chars_of(lit))
}

/// `Path::join(dir, name)` for a plain name.
pub fn join_path_exec(dir: &str, name: &[char]) -> (out: String)
    ensures
        out@ == join_path(dir@, name@),
{
    if name.len() > 0 && name[0] == '/' {
        return string_from_chars(name);
    }
    let mut d = chars_of(dir);
    if d.len() > 0 && d[d.len() - 1] != '/' {
        d.push('/');
    }
    append_chars(&mut d, name);
    string_from_chars(&d)
}

/// `str::trim_end` on a character buffer.
pub fn trim_end_chars(s: &[char]) -> (out: Vec<char>)
    ensures
        out@ == trim_end(s@),
{
    let n = s.len();
    let mut j: usize = n;
    assert(s@.subrange(0, n as int) =~= s@);
    while j > 0 && is_whitespace(s[j - 1])
        invariant
            j <= n == s@.len(),
            trim_end(s@) == trim_end(s@.subrange(0, j as int)),
        decreases j,
    {
        proof {
            assert(s@.subrange(0, j as int).drop_last() =~= s@.subrange(0, j - 1));
        }
        j -= 1;
    }
    sub_chars(s, 0, j)
}

/// Whether every character is whitespace (`s.trim().is_empty()`).
pub fn is_blank(s: &[char]) -> (b: bool)
    ensures
        b == all_ws(s@),
        b == (strip_ws(s@).len() == 0),
        b == (trim(s@).len() == 0),
{
    let mut i: usize = 0;
    while i < s.len()
        invariant
            i <= s@.len(),
            all_ws(s@.subrange(0, i as int)),
        decreases s.len() - i,
    {
        if !is_whitespace(s[i]) {
            proof {
                if strip_ws(s@).len() == 0 {
                    lemma_strip_ws_empty_all_ws(s@);
                }
                lemma_trim(s@);
            }
            return false;
        }
        i += 1;
        proof {
            assert forall|k: int| 0 <= k < i implies is_ws(
                #[trigger] s@.subrange(0, i as int)[k],
            ) by {
                if k < i - 1 {
                    assert(s@.subrange(0, i as int)[k] == s@.subrange(0, i - 1)[k]);
                }
            }
        }
    }
    proof {
        assert(s@.subrange(0, s@.len() as int) =~= s@);
        lemma_strip_ws_all_ws(s@);
        lemma_trim(s@);
    }
    true
}

/// Whether `s` starts with `p`.
pub fn starts_with(s: &[char], p: &[char]) -> (b: bool)
    ensures
        b == has_prefix(s@, p@),
{
    if p.len() > s.len() {
        return false;
    }
    let mut i: usize = 0;
    while i < p.len()
        invariant
            i <= p@.len() <= s@.len(),
            s@.subrange(0, i as int) == p@.subrange(0, i as int),
        decreases p.len() - i,
    {
        if s[i] != p[i] {
            proof {
                assert(s@.subrange(0, p@.len() as int)[i as int] != p@[i as int]);
            }
            return false;
        }
        i += 1;
        proof {
            assert(s@.subrange(0, i as int) =~= p@.subrange(0, i as int));
        }
    }
    proof {
        assert(p@.subrange(0, p@.len() as int) =~= p@);
    }
    true
}

/// Whether `s` ends with `p`.
pub fn ends_with(s: &[char], p: &[char]) -> (b: bool)
    ensures
        b == has_suffix(s@, p@),
{
    if p.len() > s.len() {
        return false;
    }
    let off = s.len() - p.len();
    let mut i: usize = 0;
    while i < p.len()
        invariant
            i <= p@.len() <= s@.len(),
            off == s@.len() - p@.len(),
            off + p@.len() == s@.len(),
            s.len() == s@.len(),
            s@.subrange(off as int, off + i) == p@.subrange(0, i as int),
        decreases p.len() - i,
    {
        if s[off + i] != p[i] {
            proof {
                assert(s@.subrange(off as int, s@.len() as int)[i as int] != p@[i as int]);
            }
            return false;
        }
        i += 1;
        proof {
            assert(s@.subrange(off as int, off + i) =~= p@.subrange(0, i as int));
        }
    }
    proof {
        assert(p@.subrange(0, p@.len() as int) =~= p@);
    }
    true
}

/// Whether `p` occurs in `s` at position `i`.
pub fn occurs_at_exec(s: &[char], p: &[char], i: usize) -> (b: bool)
    ensures
        b == occurs_at(s@, p@, i as int),
{
    if i > s.len() || p.len() > s.len() - i {
        return false;
    }
    let mut k: usize = 0;
    while k < p.len()
        invariant
            k <= p@.len(),
            i + p@.len() <= s@.len(),
            s.len() == s@.len(),
            s@.subrange(i as int, i + k) == p@.subrange(0, k as int),
        decreases p.len() - k,
    {
        if s[i + k] != p[k] {
            proof {
                assert(s@.subrange(i as int, i + p@.len())[k as int] != p@[k as int]);
            }
            return false;
        }
        k += 1;
        proof {
            assert(s@.subrange(i as int, i + k) =~= p@.subrange(0, k as int));
        }
    }
    proof {
        assert(p@.subrange(0, p@.len() as int) =~= p@);
    }
    true
}

/// The first occurrence of `p` in `s` at or after `from`.
pub fn find_exec(s: &[char], p: &[char], from: usize) -> (r: Option<usize>)
    ensures
        match r {
            Some(i) => find_from(s@, p@, from as int) == Some(i as int),
            None => find_from(s@, p@, from as int) is None,
        },
{
    if p.len() > s.len() || from > s.len() - p.len() {
        return None;
    }
    let last = s.len() - p.len();
    let mut i = from;
    loop
        invariant
            from <= i <= last,
            last + p@.len() == s@.len(),
            find_from(s@, p@, from as int) == find_from(s@, p@, i as int),
        decreases last - i,
    {
        if occurs_at_exec(s, p, i) {
            return Some(i);
        }
        if i == last {
            assert(find_from(s@, p@, i + 1) is None);
            return None;
        }
        i += 1;
    }
}

/// `s.contains(p)`.
pub fn contains_exec(s: &[char], p: &[char]) -> (b: bool)
    ensures
        b == contains(s@, p@),
{
    let r = find_exec(s, p, 0);
    proof {
        lemma_find_from(s@, p@, 0);
    }
    r.is_some()
}

/// What `find_from` finds.
pub proof fn lemma_find_from(s: Seq<char>, p: Seq<char>, from: int)
    requires
        0 <= from,
    ensures
        match find_from(s, p, from) {
            Some(i) => from <= i && occurs_at(s, p, i) && forall|j: int|
                from <= j < i ==> !occurs_at(s, p, j),
            None => forall|j: int| from <= j ==> !occurs_at(s, p, j),
        },
    decreases s.len() + 1 - from,
{
    if from + p.len() > s.len() {
    } else if occurs_at(s, p, from) {
    } else {
        lemma_find_from(s, p, from + 1);
    }
}

/// `s.replace(p, r)` for a non-empty pattern.
pub fn replace_exec(s: &[char], p: &[char], r: &[char]) -> (out: Vec<char>)
    requires
        p@.len() > 0,
    ensures
        out@ == replace(s@, p@, r@),
{
    let mut out: Vec<char> = Vec::new();
    let mut from: usize = 0;
    loop
        invariant
            p@.len() > 0,
            from <= s@.len(),
            s.len() == s@.len(),
            out@ + replace_from(s@, p@, r@, from as int) == replace(s@, p@, r@),
        decreases s@.len() - from,
    {
        match find_exec(s, p, from) {
            None => {
                let rest = sub_chars(s, from, s.len());
                append_chars(&mut out, &rest);
                proof {
                    assert(replace_from(s@, p@, r@, from as int) == s@.subrange(
                        from as int,
                        s@.len() as int,
                    ));
                }
                return out;
            },
            Some(i) => {
                proof {
                    lemma_find_from(s@, p@, from as int);
                    assert(occurs_at(s@, p@, i as int));
                }
                let before = sub_chars(s, from, i);
                let ghost old_out = out@;
                append_chars(&mut out, &before);
                append_chars(&mut out, r);
                proof {
                    assert(replace_from(s@, p@, r@, from as int) == s@.subrange(from as int, i as int)
                        + r@ + replace_from(s@, p@, r@, i + p@.len()));
                    assert(old_out + (s@.subrange(from as int, i as int) + r@ + replace_from(
                        s@,
                        p@,
                        r@,
                        i + p@.len(),
                    )) =~= out@ + replace_from(s@, p@, r@, i + p@.len()));
                }
                from = i + p.len();
            },
        }
    }
}

/// `s.trim_end_matches(p)`.
pub fn trim_end_matches_exec(s: &[char], p: &[char]) -> (out: Vec<char>)
    ensures
        out@ == trim_end_matches(s@, p@),
{
    let mut end = s.len();
    assert(s@.subrange(0, end as int) =~= s@);
    while p.len() > 0 && p.len() <= end && ends_with_at(s, end, p)
        invariant
            end <= s@.len(),
            trim_end_matches(s@, p@) == trim_end_matches(s@.subrange(0, end as int), p@),
        decreases end,
    {
        proof {
            assert(s@.subrange(0, end as int).subrange(0, end - p@.len()) =~= s@.subrange(
                0,
                end - p@.len(),
            ));
        }
        end = end - p.len();
    }
    sub_chars(s, 0, end)
}

/// Whether `s[..end]` ends with `p`.
fn ends_with_at(s: &[char], end: usize, p: &[char]) -> (b: bool)
    requires
        end <= s@.len(),
    ensures
        b == has_suffix(s@.subrange(0, end as int), p@),
{
    let head = sub_chars(s, 0, end);
    ends_with(&head, p)
}

/// The decimal digits of `n`, as `n.to_string()` writes them.
pub fn decimal_chars(n: u64) -> (out: Vec<char>)
    ensures
        out@ == decimal(n as nat),
    decreases n,
{
    let d = (n % 10) as u32;
    let c = if d == 0 {
        '0'
    } else if d == 1 {
        '1'
    } else if d == 2 {
        '2'
    } else if d == 3 {
        '3'
    } else if d == 4 {
        '4'
    } else if d == 5 {
        '5'
    } else if d == 6 {
        '6'
    } else if d == 7 {
        '7'
    } else if d == 8 {
        '8'
    } else {
        '9'
    };
    if n < 10 {
        let mut out: Vec<char> = Vec::new();
        out.push(c);
        assert(out@ =~= seq![digit_char(n as nat)]);
        out
    } else {
        let mut out = decimal_chars(n / 10);
        out.push(c);
        assert(out@ =~= decimal((n / 10) as nat) + seq![digit_char((n % 10) as nat)]);
        out
    }
}

/// The position of the first line break at or after `i` (the length where none is).
pub open spec fn line_break_from(s: Seq<char>, i: int) -> int
    decreases s.len() - i,
{
    if i < 0 || i >= s.len() {
        s.len() as int
    } else if s[i] == '\n' {
        i
    } else {
        line_break_from(s, i + 1)
    }
}

/// The next line break at or after `i` lies between `i` and the end, and no break comes
/// before it.
pub proof fn lemma_line_break_from(s: Seq<char>, i: int)
    requires
        0 <= i <= s.len(),
    ensures
        i <= line_break_from(s, i) <= s.len(),
        line_break_from(s, i) < s.len() ==> s[line_break_from(s, i)] == '\n',
        forall|k: int| i <= k < line_break_from(s, i) ==> s[k] != '\n',
    decreases s.len() - i,
{
    if i < s.len() && s[i] != '\n' {
        lemma_line_break_from(s, i + 1);
    }
}

proof fn lemma_line_break_at(s: Seq<char>, i: int, j: int)
    requires
        0 <= i <= j <= s.len(),
        forall|k: int| i <= k < j ==> s[k] != '\n',
        j == s.len() || s[j] == '\n',
    ensures
        line_break_from(s, i) == j,
    decreases j - i,
{
    if i < j {
        lemma_line_break_at(s, i + 1, j);
    }
}

/// A line without the `\r` that ends it, where one does.
pub open spec fn strip_cr(line: Seq<char>) -> Seq<char> {
    if line.len() > 0 && line.last() == '\r' {
        line.drop_last()
    } else {
        line
    }
}

/// The lines of `s` from position `start` on, as `str::lines` gives them.
pub open spec fn lines_from(s: Seq<char>, start: int) -> Seq<Seq<char>>
    decreases s.len() - start,
{
    if start < 0 || start >= s.len() {
        Seq::empty()
    } else {
        let e = line_break_from(s, start);
        if e >= s.len() {
            seq![s.subrange(start, s.len() as int)]
        } else {
            proof {
                lemma_line_break_from(s, start);
            }
            seq![strip_cr(s.subrange(start, e))] + lines_from(s, e + 1)
        }
    }
}

/// `str::lines`: the pieces between `\n`s, each without a `\r` before its `\n`, and no
/// empty piece after a final `\n`.
pub open spec fn text_lines(s: Seq<char>) -> Seq<Seq<char>> {
    lines_from(s, 0)
}

/// `str::lines` on a character buffer.
pub fn split_lines(s: &[char]) -> (out: Vec<Vec<char>>)
    ensures
        views(out@) == text_lines(s@),
        strip_ws(concat_all(views(out@))) == strip_ws(s@),
{
    let mut out: Vec<Vec<char>> = Vec::new();
    let n = s.len();
    let mut start: usize = 0;
    let mut i: usize = 0;
    while i < n
        invariant
            start <= i <= n == s@.len(),
            strip_ws(concat_all(views(out@))) == strip_ws(s@.subrange(0, start as int)),
            views(out@) + lines_from(s@, start as int) == text_lines(s@),
            forall|k: int| start <= k < i ==> s@[k] != '\n',
        decreases n - i,
    {
        if s[i] == '\n' {
            let mut end = i;
            if end > start && s[end - 1] == '\r' {
                end = end - 1;
            }
            let line = sub_chars(s, start, end);
            proof {
                let ghost dropped = s@.subrange(end as int, i + 1);
                assert(all_ws(dropped));
                lemma_strip_ws_all_ws(dropped);
                assert(s@.subrange(0, i + 1) =~= s@.subrange(0, start as int) + line@ + dropped);
                lemma_strip_ws_add(s@.subrange(0, start as int) + line@, dropped);
                lemma_strip_ws_add(s@.subrange(0, start as int), line@);
                lemma_views_push(out@, line);
                lemma_concat_all_push(views(out@), line@);
                lemma_strip_ws_add(concat_all(views(out@)), line@);
                assert(strip_ws(s@.subrange(0, start as int) + line@) + Seq::<char>::empty()
                    =~= strip_ws(s@.subrange(0, start as int) + line@));
                lemma_line_break_at(s@, start as int, i as int);
                assert(line@ =~= strip_cr(s@.subrange(start as int, i as int)));
                assert(views(out@).push(line@) + lines_from(s@, i + 1) =~= views(out@) + (seq![
                    line@,
                ] + lines_from(s@, i + 1)));
            }
            out.push(line);
            start = i + 1;
        }
        i += 1;
    }
    if start < n {
        let line = sub_chars(s, start, n);
        proof {
            assert(s@.subrange(0, n as int) =~= s@.subrange(0, start as int) + line@);
            lemma_strip_ws_add(s@.subrange(0, start as int), line@);
            lemma_views_push(out@, line);
            lemma_concat_all_push(views(out@), line@);
            lemma_strip_ws_add(concat_all(views(out@)), line@);
            lemma_line_break_at(s@, start as int, n as int);
            assert(views(out@).push(line@) =~= views(out@) + lines_from(s@, start as int));
        }
        out.push(line);
    } else {
        proof {
            assert(views(out@) + lines_from(s@, start as int) =~= views(out@));
        }
    }
    proof {
        assert(s@.subrange(0, n as int) =~= s@);
    }
    out
}


/// Whether every character is an ASCII digit.
pub open spec fn all_ascii_digits(d: Seq<char>) -> bool {
    forall|i: int| 0 <= i < d.len() ==> '0' <= #[trigger] d[i] <= '9'
}

/// The number that a string of ASCII digits writes in decimal.
pub open spec fn digits_value(d: Seq<char>) -> int
    decreases d.len(),
{
    if d.len() == 0 {
        0
    } else {
        digits_value(d.drop_last()) * 10 + (d.last() as int - 48)
    }
}

/// What `str::parse::<i64>` gives: an optional `+` or `-`, then one or more ASCII digits
/// whose value fits in an `i64`; `None` for anything else.
pub open spec fn parsed_i64(s: Seq<char>) -> Option<i64> {
    let signed = s.len() > 0 && (s[0] == '-' || s[0] == '+');
    let d = if signed {
        s.drop_first()
    } else {
        s
    };
    let v = if signed && s[0] == '-' {
        -digits_value(d)
    } else {
        digits_value(d)
    };
    if d.len() == 0 || !all_ascii_digits(d) || v < i64::MIN || v > i64::MAX {
        None
    } else {
        Some(v as i64)
    }
}

proof fn lemma_digits_value_nonneg(d: Seq<char>)
    requires
        all_ascii_digits(d),
    ensures
        digits_value(d) >= 0,
    decreases d.len(),
{
    if d.len() > 0 {
        lemma_digits_value_nonneg(d.drop_last());
        assert('0' <= d[d.len() - 1]);
    }
}

/// `str::parse::<i64>`.
pub fn parse_i64(s: &str) -> (r: Option<i64>)
    ensures
        r == parsed_i64(s@),
{
    let cs = chars_of(s);
    let n = cs.len();
    let signed = n > 0 && (cs[0] == '-' || cs[0] == '+');
    let negative = signed && cs[0] == '-';
    let start: usize = if signed {
        1
    } else {
        0
    };
    let ghost d = if signed {
        s@.drop_first()
    } else {
        s@
    };
    assert(d =~= cs@.subrange(start as int, n as int));
    if start == n {
        return None;
    }
    let limit: u128 = 9223372036854775808;
    let mut acc: u128 = 0;
    let mut over = false;
    let mut i: usize = start;
    while i < n
        invariant
            start <= i <= n == cs@.len(),
            d == cs@.subrange(start as int, n as int),
            all_ascii_digits(cs@.subrange(start as int, i as int)),
            !over ==> acc as int == digits_value(cs@.subrange(start as int, i as int)) && acc
                <= limit,
            over ==> digits_value(cs@.subrange(start as int, i as int)) > limit,
            limit == 9223372036854775808u128,
            cs@ == s@,
            signed == (s@.len() > 0 && (s@[0] == '-' || s@[0] == '+')),
            d == if signed {
                s@.drop_first()
            } else {
                s@
            },
        decreases n - i,
    {
        let c = cs[i];
        if c < '0' || c > '9' {
            proof {
                assert(d[i - start] == c);
                assert(!('0' <= d[i - start] <= '9'));
                assert(!all_ascii_digits(d));
                assert(cs@ == s@);
                assert(signed == (s@.len() > 0 && (s@[0] == '-' || s@[0] == '+')));
            }
            return None;
        }
        let ghost prefix = cs@.subrange(start as int, i + 1);
        proof {
            assert(prefix.drop_last() =~= cs@.subrange(start as int, i as int));
            assert(prefix.last() == c);
            lemma_digits_value_nonneg(prefix.drop_last());
        }
        if !over {
            let digit = (c as u32 - '0' as u32) as u128;
            acc = acc * 10 + digit;
            if acc > limit {
                over = true;
            }
        }
        i += 1;
    }
    proof {
        assert(cs@.subrange(start as int, n as int) =~= d);
    }
    if over {
        return None;
    }
    if negative {
        if acc == limit {
            Some(-9223372036854775807i64 - 1)
        } else {
            Some(-(acc as i64))
        }
    } else {
        if acc == limit {
            None
        } else {
            Some(acc as i64)
        }
    }
}


/// `char::to_ascii_lowercase`: ASCII capitals become small letters, anything else stays.
pub open spec fn ascii_lower(c: char) -> char {
    if 'A' <= c <= 'Z' {
        ((c as u32) + 32) as char
    } else {
        c
    }
}

/// `str::to_ascii_lowercase`.
pub open spec fn ascii_lowercase(s: Seq<char>) -> Seq<char> {
    s.map_values(|c: char| ascii_lower(c))
}

/// `str::to_ascii_lowercase` on a character buffer.
pub fn ascii_lowercase_chars(s: &[char]) -> (out: Vec<char>)
    ensures
        out@ == ascii_lowercase(s@),
{
    let mut out: Vec<char> = Vec::new();
    let mut i: usize = 0;
    while i < s.len()
        invariant
            i <= s@.len(),
            out@ == ascii_lowercase(s@.take(i as int)),
        decreases s.len() - i,
    {
        let c = s[i];
        let l = if 'A' <= c && c <= 'Z' {
            let code: u8 = (c as u8) + 32;
            code as char
        } else {
            c
        };
        out.push(l);
        i += 1;
        assert(out@ =~= ascii_lowercase(s@.take(i as int)));
    }
    assert(s@.take(s@.len() as int) =~= s@);
    out
}


/// The view of an optional string.
pub open spec fn opt_views(v: Option<String>) -> Option<Seq<char>> {
    match v {
        Some(s) => Some(s@),
        None => None,
    }
}

/// The view of an optional string slice.
pub open spec fn opt_str(v: Option<&str>) -> Option<Seq<char>> {
    match v {
        Some(s) => Some(s@),
        None => None,
    }
}

} // verus!
