//! Splitting long transcripts into segments for the LLM, and batching segment
//! summaries for the merge rounds.
//!
//! Each function's result is stated exactly by a spec function of the same shape
//! (`split_text_spec`, `greedy_merge`, `batches_of`). Every chunk that `split_text` and
//! `batch_texts` produce is non-empty, trimmed and at most the character limit (a limit
//! of 0 behaves as 1), and no visible (non-whitespace) character of the input is lost,
//! duplicated or reordered. `greedy_merge_chunks` keeps a piece that is over the limit
//! as a chunk of its own.
use vstd::prelude::*;

use crate::text::{
    lemma_join_push,
    all_ws, append_chars, concat_all, is_blank, is_trimmed, is_ws, join, join_chars,
    lemma_concat_all_add, lemma_concat_all_push, lemma_strip_join, lemma_strip_ws_add,
    lemma_strip_ws_all_ws, lemma_trim, lemma_trim_start, lemma_views_push, split_lines,
    starts_with, string_views, chars_of, string_from_chars, lemma_string_views_push, strip_ws,
    sub_chars, text_lines, trim, trim_chars, trim_start, trim_start_chars, views, has_prefix,
};

pub use crate::text::char_count;

verus! {

broadcast use vstd::string::group_string_axioms;

/// Characters per transcript segment sent in one request.
pub const MAX_SEGMENT_CHARS: usize = 12_000;

/// Characters of segment summaries merged in one request.
pub const MAX_MERGE_INPUT_CHARS: usize = 18_000;

/// Separator placed between summaries of one merge batch.
pub const MERGE_BATCH_SEPARATOR: &'static str = "\n\n---\n\n";

/// The effective limit: a limit of 0 still lets single characters through.
pub open spec fn cap(max_chars: usize) -> nat {
    if max_chars == 0 {
        1
    } else {
        max_chars as nat
    }
}

/// Each chunk is non-empty, trimmed and within the limit.
pub open spec fn chunks_bounded(chunks: Seq<Seq<char>>, max_chars: usize) -> bool {
    forall|i: int|
        0 <= i < chunks.len() ==> 0 < (#[trigger] chunks[i]).len() <= cap(max_chars)
            && is_trimmed(chunks[i])
}

/// Each piece is within the limit.
pub open spec fn pieces_within(pieces: Seq<Seq<char>>, max_chars: usize) -> bool {
    forall|i: int| 0 <= i < pieces.len() ==> (#[trigger] pieces[i]).len() <= cap(max_chars)
}

/// The chunks hold exactly the visible text of `source`, in order.
pub open spec fn same_content(chunks: Seq<Seq<char>>, source: Seq<char>) -> bool {
    strip_ws(concat_all(chunks)) == strip_ws(source)
}

/// All pieces of all batches, in order.
pub open spec fn concat_batches(batches: Seq<Vec<String>>) -> Seq<char>
    decreases batches.len(),
{
    if batches.len() == 0 {
        Seq::empty()
    } else {
        concat_batches(batches.drop_last()) + concat_all(string_views(batches.last()@))
    }
}

/// The visible text of all given texts.
pub open spec fn texts_content(texts: Seq<String>) -> Seq<char> {
    strip_ws(concat_all(string_views(texts)))
}

/// The characters of the batch separator.
pub open spec fn batch_separator() -> Seq<char> {
    seq!['\n', '\n', '-', '-', '-', '\n', '\n']
}

/// `t` alone where it is non-empty; nothing otherwise.
pub open spec fn keep_nonempty(t: Seq<char>) -> Seq<Seq<char>> {
    if t.len() > 0 {
        seq![t]
    } else {
        Seq::empty()
    }
}

/// Greedy packing of `chunks`, as far as it got: the packed chunks already closed, and
/// the one being filled. A blank chunk is skipped; another is trimmed and appended to the
/// open chunk after `sep` while that stays within `max_chars`, else it closes the open
/// chunk (trimmed) and opens the next.
pub open spec fn greedy_state(chunks: Seq<Seq<char>>, sep: Seq<char>, max_chars: usize) -> (
    Seq<Seq<char>>,
    Seq<char>,
)
    decreases chunks.len(),
{
    if chunks.len() == 0 {
        (Seq::empty(), Seq::empty())
    } else {
        let st = greedy_state(chunks.drop_last(), sep, max_chars);
        let c = trim(chunks.last());
        if c.len() == 0 {
            st
        } else if st.1.len() > 0 && st.1.len() + sep.len() + c.len() > max_chars {
            (st.0.push(trim(st.1)), c)
        } else if st.1.len() == 0 {
            (st.0, c)
        } else {
            (st.0, st.1 + sep + c)
        }
    }
}

/// Greedy packing of `chunks` with `sep`: the closed chunks, then the open one (trimmed)
/// unless it is blank.
pub open spec fn greedy_merge(chunks: Seq<Seq<char>>, sep: Seq<char>, max_chars: usize) -> Seq<
    Seq<char>,
> {
    let st = greedy_state(chunks, sep, max_chars);
    st.0 + keep_nonempty(trim(st.1))
}

proof fn lemma_views_subrange_push(v: Seq<Vec<char>>, k: int)
    requires
        0 <= k < v.len(),
    ensures
        views(v.subrange(0, k + 1)) == views(v.subrange(0, k)).push(v[k]@),
        concat_all(views(v.subrange(0, k + 1))) == concat_all(views(v.subrange(0, k))) + v[k]@,
{
    assert(views(v.subrange(0, k + 1)) =~= views(v.subrange(0, k)).push(v[k]@));
    lemma_concat_all_push(views(v.subrange(0, k)), v[k]@);
}

proof fn lemma_views_full(v: Seq<Vec<char>>)
    ensures
        views(v.subrange(0, v.len() as int)) == views(v),
{
    assert(v.subrange(0, v.len() as int) =~= v);
}

/// Appends `more` to `out`.
fn extend_chunks(out: &mut Vec<Vec<char>>, more: Vec<Vec<char>>)
    ensures
        views(final(out)@) == views(old(out)@) + views(more@),
        concat_all(views(final(out)@)) == concat_all(views(old(out)@)) + concat_all(
            views(more@),
        ),
{
    let ghost start = views(out@);
    let mut i: usize = 0;
    while i < more.len()
        invariant
            i <= more@.len(),
            views(out@) == start + views(more@.subrange(0, i as int)),
        decreases more.len() - i,
    {
        let piece = more[i].clone();
        proof {
            lemma_views_push(out@, piece);
        }
        out.push(piece);
        i += 1;
        proof {
            assert(views(out@) =~= start + views(more@.subrange(0, i as int)));
        }
    }
    proof {
        lemma_views_full(more@);
        lemma_concat_all_add(start, views(more@));
    }
}

/// Pushes `piece` and records what that does to the content.
fn push_chunk(out: &mut Vec<Vec<char>>, piece: Vec<char>)
    ensures
        views(final(out)@) == views(old(out)@).push(piece@),
        strip_ws(concat_all(views(final(out)@))) == strip_ws(concat_all(views(old(out)@)))
            + strip_ws(piece@),
{
    proof {
        lemma_views_push(out@, piece);
        lemma_concat_all_push(views(out@), piece@);
        lemma_strip_ws_add(concat_all(views(out@)), piece@);
    }
    out.push(piece);
}

/// Whether `a + sep + b` would exceed `max_chars` characters, without overflow.
fn exceeds(a: usize, sep: usize, b: usize, max_chars: usize) -> (r: bool)
    ensures
        r == (a + sep + b > max_chars),
{
    a > max_chars || sep > max_chars - a || b > max_chars - a - sep
}

/// Packs chunks greedily: each chunk is trimmed, blank ones dropped, and neighbours
/// joined with `separator` while the result stays within `max_chars`.
pub fn greedy_merge_chunks(chunks: Vec<Vec<char>>, separator: &[char], max_chars: usize) -> (out:
    Vec<Vec<char>>)
    requires
        all_ws(separator@),
    ensures
        views(out@) == greedy_merge(views(chunks@), separator@, max_chars),
        pieces_within(views(chunks@), max_chars) ==> chunks_bounded(views(out@), max_chars),
        same_content(views(out@), concat_all(views(chunks@))),
{
    let mut merged: Vec<Vec<char>> = Vec::new();
    let mut current: Vec<char> = Vec::new();
    let mut k: usize = 0;
    proof {
        lemma_strip_ws_all_ws(separator@);
        assert(chunks@.subrange(0, 0) =~= Seq::<Vec<char>>::empty());
        assert(views(merged@) =~= Seq::<Seq<char>>::empty());
        assert(views(chunks@.subrange(0, 0)) =~= Seq::<Seq<char>>::empty());
        assert(concat_all(views(merged@)) + current@ =~= Seq::<char>::empty());
    }
    while k < chunks.len()
        invariant
            k <= chunks@.len(),
            all_ws(separator@),
            strip_ws(separator@) == Seq::<char>::empty(),
            (views(merged@), current@) == greedy_state(
                views(chunks@.subrange(0, k as int)),
                separator@,
                max_chars,
            ),
            pieces_within(views(chunks@), max_chars) ==> chunks_bounded(views(merged@), max_chars),
            pieces_within(views(chunks@), max_chars) ==> current@.len() <= cap(max_chars),
            current@.len() == 0 || strip_ws(current@).len() > 0,
            strip_ws(concat_all(views(merged@)) + current@) == strip_ws(
                concat_all(views(chunks@.subrange(0, k as int))),
            ),
        decreases chunks.len() - k,
    {
        proof {
            lemma_views_subrange_push(chunks@, k as int);
            lemma_strip_ws_add(concat_all(views(chunks@.subrange(0, k as int))), chunks@[k as int]@);
            assert(views(chunks@)[k as int] == chunks@[k as int]@);
            assert(views(chunks@.subrange(0, k + 1)).drop_last() =~= views(
                chunks@.subrange(0, k as int),
            ));
        }
        if is_blank(&chunks[k]) {
            proof {
                assert(strip_ws(concat_all(views(chunks@.subrange(0, k as int)))) + Seq::<
                    char,
                >::empty() =~= strip_ws(concat_all(views(chunks@.subrange(0, k as int)))));
            }
        } else {
            let chunk = trim_chars(&chunks[k]);
            proof {
                lemma_trim(chunks@[k as int]@);
            }
            let full = current.len() > 0 && exceeds(
                current.len(),
                separator.len(),
                chunk.len(),
                max_chars,
            );
            if full {
                let flushed = trim_chars(&current);
                proof {
                    lemma_trim(current@);
                    lemma_views_push(merged@, flushed);
                    lemma_concat_all_push(views(merged@), flushed@);
                    lemma_strip_ws_add(concat_all(views(merged@)), flushed@);
                    lemma_strip_ws_add(concat_all(views(merged@)), current@);
                    assert(concat_all(views(merged@)) + flushed@ + Seq::<char>::empty()
                        =~= concat_all(views(merged@)) + flushed@);
                }
                merged.push(flushed);
                current = Vec::new();
            }
            let ghost before = current@;
            if current.len() == 0 {
                current = chunk;
            } else {
                append_chars(&mut current, separator);
                append_chars(&mut current, &chunk);
                proof {
                    lemma_strip_ws_add(before, separator@);
                    lemma_strip_ws_add(before + separator@, chunk@);
                    assert(strip_ws(before) + Seq::<char>::empty() =~= strip_ws(before));
                }
            }
            proof {
                lemma_strip_ws_add(concat_all(views(merged@)), before);
                lemma_strip_ws_add(concat_all(views(merged@)), current@);
                if before.len() == 0 {
                    assert(strip_ws(before) =~= Seq::<char>::empty());
                    assert(current@ == chunk@);
                } else {
                    lemma_strip_ws_add(before, separator@ + chunk@);
                    lemma_strip_ws_add(separator@, chunk@);
                    assert(current@ =~= before + (separator@ + chunk@));
                    assert(Seq::<char>::empty() + strip_ws(chunk@) =~= strip_ws(chunk@));
                }
                assert(strip_ws(current@) =~= strip_ws(before) + strip_ws(chunk@));
                assert(strip_ws(concat_all(views(merged@))) + (strip_ws(before) + strip_ws(
                    chunk@,
                )) =~= strip_ws(concat_all(views(merged@))) + strip_ws(before) + strip_ws(
                    chunks@[k as int]@,
                ));
            }
        }
        k += 1;
    }
    proof {
        lemma_views_full(chunks@);
    }
    if !is_blank(&current) {
        let last = trim_chars(&current);
        proof {
            lemma_trim(current@);
            lemma_views_push(merged@, last);
            lemma_concat_all_push(views(merged@), last@);
            lemma_strip_ws_add(concat_all(views(merged@)), last@);
            lemma_strip_ws_add(concat_all(views(merged@)), current@);
        }
        merged.push(last);
        proof {
            assert(views(merged@) =~= greedy_merge(views(chunks@), separator@, max_chars));
        }
    } else {
        proof {
            lemma_strip_ws_add(concat_all(views(merged@)), current@);
            assert(strip_ws(concat_all(views(merged@))) + Seq::<char>::empty() =~= strip_ws(
                concat_all(views(merged@)),
            ));
            assert(views(merged@) =~= greedy_merge(views(chunks@), separator@, max_chars));
        }
    }
    merged
}

/// Whether every chunk has at most `max_chars` characters.
fn all_within(chunks: &Vec<Vec<char>>, max_chars: usize) -> (b: bool)
    ensures
        b == forall|i: int| 0 <= i < chunks@.len() ==> (#[trigger] chunks@[i])@.len() <= max_chars,
{
    let mut i: usize = 0;
    while i < chunks.len()
        invariant
            i <= chunks@.len(),
            forall|j: int| 0 <= j < i ==> (#[trigger] chunks@[j])@.len() <= max_chars,
        decreases chunks.len() - i,
    {
        if chunks[i].len() > max_chars {
            return false;
        }
        i += 1;
    }
    true
}

/// `text` cut into runs of `size` characters (the last one shorter), each trimmed,
/// blank runs dropped.
pub open spec fn char_runs(text: Seq<char>, size: nat) -> Seq<Seq<char>>
    decreases text.len(),
{
    if text.len() == 0 {
        Seq::empty()
    } else if size == 0 || text.len() <= size {
        keep_nonempty(trim(text))
    } else {
        keep_nonempty(trim(text.subrange(0, size as int))) + char_runs(
            text.subrange(size as int, text.len() as int),
            size,
        )
    }
}

/// Cuts `text` into runs of at most `max(max_chars, 1)` characters, each trimmed,
/// blank runs dropped.
fn split_by_chars(text: &[char], max_chars: usize) -> (out: Vec<Vec<char>>)
    ensures
        views(out@) == char_runs(text@, cap(max_chars)),
        chunks_bounded(views(out@), max_chars),
        same_content(views(out@), text@),
{
    let size: usize = if max_chars == 0 {
        1
    } else {
        max_chars
    };
    let n = text.len();
    let mut out: Vec<Vec<char>> = Vec::new();
    let mut start: usize = 0;
    proof {
        assert(views(out@) =~= Seq::<Seq<char>>::empty());
        assert(text@.subrange(0, 0) =~= Seq::<char>::empty());
        assert(text@.subrange(0, n as int) =~= text@);
        assert(views(out@) + char_runs(text@, size as nat) =~= char_runs(text@, size as nat));
    }
    while start < n
        invariant
            start <= n == text@.len(),
            size == cap(max_chars),
            chunks_bounded(views(out@), max_chars),
            strip_ws(concat_all(views(out@))) == strip_ws(text@.subrange(0, start as int)),
            views(out@) + char_runs(text@.subrange(start as int, n as int), size as nat)
                == char_runs(text@, size as nat),
        decreases n - start,
    {
        let end = if n - start > size {
            start + size
        } else {
            n
        };
        let piece = sub_chars(text, start, end);
        let t = trim_chars(&piece);
        let ghost rest = text@.subrange(start as int, n as int);
        proof {
            if n - start > size {
                assert(rest.subrange(0, size as int) =~= piece@);
                assert(rest.subrange(size as int, rest.len() as int) =~= text@.subrange(
                    end as int,
                    n as int,
                ));
            } else {
                assert(rest =~= piece@);
                assert(text@.subrange(end as int, n as int) =~= Seq::<char>::empty());
            }
            assert(char_runs(rest, size as nat) == keep_nonempty(trim(piece@)) + char_runs(
                text@.subrange(end as int, n as int),
                size as nat,
            ));
            lemma_trim(piece@);
            assert(text@.subrange(0, end as int) =~= text@.subrange(0, start as int) + piece@);
            lemma_strip_ws_add(text@.subrange(0, start as int), piece@);
        }
        let ghost before = views(out@);
        if t.len() > 0 {
            push_chunk(&mut out, t);
            proof {
                assert(keep_nonempty(t@) == seq![t@]);
                assert(views(out@) + char_runs(text@.subrange(end as int, n as int), size as nat)
                    =~= before + (keep_nonempty(t@) + char_runs(
                    text@.subrange(end as int, n as int),
                    size as nat,
                )));
            }
        } else {
            proof {
                assert(strip_ws(piece@) =~= Seq::<char>::empty());
                assert(strip_ws(text@.subrange(0, start as int)) + Seq::<char>::empty()
                    =~= strip_ws(text@.subrange(0, start as int)));
                assert(keep_nonempty(t@) =~= Seq::<Seq<char>>::empty());
                assert(before + (keep_nonempty(t@) + char_runs(
                    text@.subrange(end as int, n as int),
                    size as nat,
                )) =~= before + char_runs(text@.subrange(end as int, n as int), size as nat));
            }
        }
        start = end;
    }
    proof {
        assert(text@.subrange(0, n as int) =~= text@);
        assert(text@.subrange(n as int, n as int) =~= Seq::<char>::empty());
        assert(views(out@) + Seq::<Seq<char>>::empty() =~= views(out@));
    }
    out
}

/// Whether a sentence ends after `c`: a Chinese or Western full stop, exclamation or
/// question mark, or a line break.
pub open spec fn ends_sentence(c: char) -> bool {
    c == '。' || c == '！' || c == '？' || c == '.' || c == '!' || c == '?' || c == '\n'
}

/// The sentences of `text` as far as its first `i` characters go: the pieces closed
/// after each sentence terminator (trimmed, blank ones dropped), and where the open
/// piece starts.
pub open spec fn sentence_scan(text: Seq<char>, i: nat) -> (Seq<Seq<char>>, int)
    decreases i,
{
    if i == 0 {
        (Seq::empty(), 0)
    } else {
        let st = sentence_scan(text, (i - 1) as nat);
        if ends_sentence(text[i - 1]) {
            (st.0 + keep_nonempty(trim(text.subrange(st.1, i as int))), i as int)
        } else {
            st
        }
    }
}

/// `text` split after each sentence terminator (`str::split_inclusive`), each piece
/// trimmed and blank ones dropped; the whole text, trimmed, where that leaves nothing.
pub open spec fn text_sentences(text: Seq<char>) -> Seq<Seq<char>> {
    let st = sentence_scan(text, text.len());
    let all = if st.1 < text.len() {
        st.0 + keep_nonempty(trim(text.subrange(st.1, text.len() as int)))
    } else {
        st.0
    };
    if all.len() == 0 {
        seq![trim(text)]
    } else {
        all
    }
}

/// Each sentence kept whole where it is within `max_chars`, else cut into runs of
/// characters.
pub open spec fn expand_sentences(xs: Seq<Seq<char>>, max_chars: usize) -> Seq<Seq<char>>
    decreases xs.len(),
{
    if xs.len() == 0 {
        Seq::empty()
    } else {
        expand_sentences(xs.drop_last(), max_chars) + if xs.last().len() <= max_chars {
            seq![xs.last()]
        } else {
            char_runs(xs.last(), cap(max_chars))
        }
    }
}

/// `text` cut into sentences (over-long ones into runs of characters), packed greedily
/// with nothing between the pieces.
pub open spec fn sentence_chunks(text: Seq<char>, max_chars: usize) -> Seq<Seq<char>> {
    greedy_merge(expand_sentences(text_sentences(text), max_chars), Seq::empty(), max_chars)
}

proof fn lemma_scan_bounds(text: Seq<char>, i: nat)
    ensures
        0 <= sentence_scan(text, i).1 <= i,
    decreases i,
{
    if i > 0 {
        lemma_scan_bounds(text, (i - 1) as nat);
    }
}

/// The scan of the first `i` characters reads nothing beyond them.
proof fn lemma_scan_prefix(a: Seq<char>, b: Seq<char>, i: nat)
    requires
        i <= a.len(),
    ensures
        sentence_scan(a + b, i) == sentence_scan(a, i),
    decreases i,
{
    if i > 0 {
        lemma_scan_prefix(a, b, (i - 1) as nat);
        lemma_scan_bounds(a, (i - 1) as nat);
        let st = sentence_scan(a, (i - 1) as nat);
        assert((a + b)[i - 1] == a[i - 1]);
        assert((a + b).subrange(st.1, i as int) =~= a.subrange(st.1, i as int));
    }
}

/// Before any terminator, no sentence is closed.
proof fn lemma_scan_without_terminator(text: Seq<char>, i: nat)
    requires
        i <= text.len(),
        forall|k: int| 0 <= k < i ==> !(text[k] == '。' || text[k] == '！' || text[k] == '？' || text[k] == '.' || text[k] == '!' || text[k] == '?' || text[k] == '\n'),
    ensures
        sentence_scan(text, i) == (Seq::<Seq<char>>::empty(), 0int),
    decreases i,
{
    if i > 0 {
        lemma_scan_without_terminator(text, (i - 1) as nat);
        assert(!(text[i - 1] == '。' || text[i - 1] == '！' || text[i - 1] == '？' || text[i - 1] == '.' || text[i - 1] == '!' || text[i - 1] == '?' || text[i - 1] == '\n'));
    }
}

/// Once the scan has closed everything up to the end of `a`, the scan of `a + b`
/// continues as the scan of `b` alone.
proof fn lemma_scan_shift(a: Seq<char>, b: Seq<char>, j: nat)
    requires
        j <= b.len(),
        sentence_scan(a + b, a.len()).1 == a.len(),
    ensures
        sentence_scan(a + b, a.len() + j) == (
            sentence_scan(a + b, a.len()).0 + sentence_scan(b, j).0,
            a.len() + sentence_scan(b, j).1,
        ),
    decreases j,
{
    let whole = a + b;
    let closed = sentence_scan(whole, a.len()).0;
    if j == 0 {
        assert(closed + Seq::<Seq<char>>::empty() =~= closed);
    } else {
        lemma_scan_shift(a, b, (j - 1) as nat);
        lemma_scan_bounds(b, (j - 1) as nat);
        let st = sentence_scan(b, (j - 1) as nat);
        let n = (a.len() + j) as nat;
        assert(((n - 1) as nat) == a.len() + (j - 1) as nat);
        assert(whole[n - 1] == b[j - 1]);
        assert(whole.subrange(a.len() + st.1, n as int) =~= b.subrange(st.1, j as int));
        assert(closed + (st.0 + keep_nonempty(trim(b.subrange(st.1, j as int)))) =~= closed + st.0
            + keep_nonempty(trim(b.subrange(st.1, j as int))));
    }
}

/// The sentences closed so far hold exactly the visible text of what was read up to the
/// open piece.
proof fn lemma_scan_content(text: Seq<char>, i: nat)
    requires
        i <= text.len(),
    ensures
        strip_ws(concat_all(sentence_scan(text, i).0)) == strip_ws(
            text.subrange(0, sentence_scan(text, i).1),
        ),
    decreases i,
{
    if i == 0 {
        assert(text.subrange(0, 0) =~= Seq::<char>::empty());
        assert(strip_ws(Seq::<char>::empty()) =~= Seq::<char>::empty());
    } else {
        lemma_scan_content(text, (i - 1) as nat);
        lemma_scan_bounds(text, (i - 1) as nat);
        let st = sentence_scan(text, (i - 1) as nat);
        if ends_sentence(text[i - 1]) {
            let piece = text.subrange(st.1, i as int);
            lemma_trim(piece);
            lemma_concat_all_add(st.0, keep_nonempty(trim(piece)));
            lemma_strip_ws_add(concat_all(st.0), concat_all(keep_nonempty(trim(piece))));
            if trim(piece).len() > 0 {
                assert(concat_all(keep_nonempty(trim(piece))) =~= trim(piece)) by {
                    lemma_concat_all_push(Seq::<Seq<char>>::empty(), trim(piece));
                    assert(Seq::<Seq<char>>::empty().push(trim(piece)) =~= seq![trim(piece)]);
                    assert(Seq::<char>::empty() + trim(piece) =~= trim(piece));
                }
            } else {
                assert(concat_all(keep_nonempty(trim(piece))) =~= Seq::<char>::empty());
                assert(strip_ws(Seq::<char>::empty()) =~= Seq::<char>::empty());
                assert(strip_ws(piece) =~= Seq::<char>::empty());
            }
            assert(text.subrange(0, i as int) =~= text.subrange(0, st.1) + piece);
            lemma_strip_ws_add(text.subrange(0, st.1), piece);
        }
    }
}

/// The pieces `text_sentences` finds before the fallback to the whole text.
spec fn scanned_sentences(text: Seq<char>) -> Seq<Seq<char>> {
    let st = sentence_scan(text, text.len());
    if st.1 < text.len() {
        st.0 + keep_nonempty(trim(text.subrange(st.1, text.len() as int)))
    } else {
        st.0
    }
}

/// A text with visible characters yields at least one sentence of its own.
proof fn lemma_visible_text_has_sentences(text: Seq<char>)
    requires
        trim(text).len() > 0,
    ensures
        scanned_sentences(text).len() > 0,
        text_sentences(text) == scanned_sentences(text),
{
    let st = sentence_scan(text, text.len());
    lemma_scan_content(text, text.len());
    lemma_scan_bounds(text, text.len());
    lemma_trim(text);
    if scanned_sentences(text).len() == 0 {
        assert(st.0 =~= Seq::<Seq<char>>::empty());
        assert(concat_all(st.0) =~= Seq::<char>::empty());
        assert(strip_ws(Seq::<char>::empty()) =~= Seq::<char>::empty());
        if st.1 < text.len() {
            let piece = text.subrange(st.1, text.len() as int);
            lemma_trim(piece);
            assert(trim(piece).len() == 0);
            assert(text =~= text.subrange(0, st.1) + piece);
            lemma_strip_ws_add(text.subrange(0, st.1), piece);
        } else {
            assert(text.subrange(0, st.1) =~= text);
        }
        assert(strip_ws(text).len() == 0);
    }
}

/// A text in which none of 。！？.!? and no line break occurs is one sentence: the whole
/// text, trimmed.
pub proof fn lemma_text_without_terminator_is_one_sentence(text: Seq<char>)
    requires
        forall|k: int| 0 <= k < text.len() ==> !(text[k] == '。' || text[k] == '！' || text[k] == '？' || text[k] == '.' || text[k] == '!' || text[k] == '?' || text[k] == '\n'),
    ensures
        text_sentences(text) == seq![trim(text)],
{
    lemma_scan_without_terminator(text, text.len());
    if text.len() > 0 {
        assert(text.subrange(0, text.len() as int) =~= text);
        assert(Seq::<Seq<char>>::empty() + keep_nonempty(trim(text)) =~= keep_nonempty(trim(text)));
    }
}

/// A sentence is cut directly after the first of 。！？.!? or a line break: where
/// `first` ends with one of them and holds none before it, the sentences of
/// `first + rest` are `first` (trimmed) followed by the sentences of `rest` alone.
pub proof fn lemma_sentence_ends_at_terminator(first: Seq<char>, rest: Seq<char>)
    requires
        first.len() > 0,
        (first.last() == '。' || first.last() == '！' || first.last() == '？' || first.last() == '.' || first.last() == '!' || first.last() == '?' || first.last() == '\n'),
        forall|k: int| 0 <= k < first.len() - 1 ==> !(first[k] == '。' || first[k] == '！' || first[k] == '？' || first[k] == '.' || first[k] == '!' || first[k] == '?' || first[k] == '\n'),
        trim(first).len() > 0,
        trim(rest).len() > 0,
    ensures
        text_sentences(first + rest) == seq![trim(first)] + text_sentences(rest),
{
    let whole = first + rest;
    let n = first.len();
    lemma_scan_without_terminator(first, (n - 1) as nat);
    assert(((n as nat - 1) as nat) == (n - 1) as nat);
    assert(ends_sentence(first[n - 1]));
    assert(first.subrange(0, n as int) =~= first);
    assert(Seq::<Seq<char>>::empty() + keep_nonempty(trim(first)) =~= seq![trim(first)]);
    assert(sentence_scan(first, n) == (seq![trim(first)], n as int));
    lemma_scan_prefix(first, rest, n);
    lemma_scan_shift(first, rest, rest.len());
    assert(whole.len() == n + rest.len());
    let sb = sentence_scan(rest, rest.len());
    lemma_scan_bounds(rest, rest.len());
    assert(sentence_scan(whole, whole.len()) == (seq![trim(first)] + sb.0, n + sb.1));
    if sb.1 < rest.len() {
        assert(whole.subrange(n + sb.1, whole.len() as int) =~= rest.subrange(sb.1, rest.len() as int));
        assert(seq![trim(first)] + sb.0 + keep_nonempty(trim(rest.subrange(sb.1, rest.len() as int)))
            =~= seq![trim(first)] + (sb.0 + keep_nonempty(trim(rest.subrange(sb.1, rest.len() as int)))));
    }
    assert(scanned_sentences(whole) == seq![trim(first)] + scanned_sentences(rest));
    lemma_visible_text_has_sentences(rest);
}

/// The sentence terminators `str::split_inclusive` cuts after.
fn is_terminator(c: char) -> (b: bool)
    ensures
        b == ends_sentence(c),
        b == (c == '。' || c == '！' || c == '？' || c == '.' || c == '!' || c == '?' || c == '\n'),
{
    c == '。' || c == '！' || c == '？' || c == '.' || c == '!' || c == '?' || c == '\n'
}

/// Splits after sentence terminators (pieces trimmed, blank ones dropped), cuts
/// over-long sentences by characters, then packs the pieces.
fn split_sentences_or_chars(text: &[char], max_chars: usize) -> (out: Vec<Vec<char>>)
    ensures
        views(out@) == sentence_chunks(text@, max_chars),
        chunks_bounded(views(out@), max_chars),
        same_content(views(out@), text@),
{
    let n = text.len();
    let mut sentences: Vec<Vec<char>> = Vec::new();
    let mut start: usize = 0;
    let mut i: usize = 0;
    proof {
        assert(views(sentences@) =~= Seq::<Seq<char>>::empty());
        assert(text@.subrange(0, 0) =~= Seq::<char>::empty());
    }
    while i < n
        invariant
            start <= i <= n == text@.len(),
            strip_ws(concat_all(views(sentences@))) == strip_ws(text@.subrange(0, start as int)),
            (views(sentences@), start as int) == sentence_scan(text@, i as nat),
        decreases n - i,
    {
        proof {
            assert(((i + 1) as nat - 1) as nat == i as nat);
        }
        if is_terminator(text[i]) {
            let piece = sub_chars(text, start, i + 1);
            let t = trim_chars(&piece);
            proof {
                lemma_trim(piece@);
                assert(text@.subrange(0, i + 1) =~= text@.subrange(0, start as int) + piece@);
                lemma_strip_ws_add(text@.subrange(0, start as int), piece@);
            }
            let ghost before = views(sentences@);
            if t.len() > 0 {
                push_chunk(&mut sentences, t);
                proof {
                    assert(views(sentences@) =~= before + keep_nonempty(t@));
                }
            } else {
                proof {
                    assert(strip_ws(piece@) =~= Seq::<char>::empty());
                    assert(strip_ws(text@.subrange(0, start as int)) + Seq::<char>::empty()
                        =~= strip_ws(text@.subrange(0, start as int)));
                    assert(views(sentences@) =~= before + keep_nonempty(t@));
                }
            }
            start = i + 1;
        }
        i += 1;
    }
    let ghost scanned = views(sentences@);
    if start < n {
        let piece = sub_chars(text, start, n);
        let t = trim_chars(&piece);
        proof {
            lemma_trim(piece@);
            assert(text@.subrange(0, n as int) =~= text@.subrange(0, start as int) + piece@);
            lemma_strip_ws_add(text@.subrange(0, start as int), piece@);
        }
        if t.len() > 0 {
            push_chunk(&mut sentences, t);
            proof {
                assert(views(sentences@) =~= scanned + keep_nonempty(t@));
            }
        } else {
            proof {
                assert(views(sentences@) =~= scanned + keep_nonempty(t@));
            }
            proof {
                assert(strip_ws(piece@) =~= Seq::<char>::empty());
                assert(strip_ws(text@.subrange(0, start as int)) + Seq::<char>::empty()
                    =~= strip_ws(text@.subrange(0, start as int)));
            }
        }
    }
    proof {
        assert(text@.subrange(0, n as int) =~= text@);
    }
    if sentences.len() == 0 {
        let t = trim_chars(text);
        proof {
            lemma_trim(text@);
            assert(views(sentences@) =~= Seq::<Seq<char>>::empty());
        }
        push_chunk(&mut sentences, t);
        proof {
            assert(Seq::<char>::empty() + strip_ws(t@) =~= strip_ws(t@));
            assert(views(sentences@) =~= seq![t@]);
        }
    }
    assert(views(sentences@) == text_sentences(text@));
    let mut pieces: Vec<Vec<char>> = Vec::new();
    let mut k: usize = 0;
    proof {
        assert(views(pieces@) =~= Seq::<Seq<char>>::empty());
        assert(views(sentences@.subrange(0, 0)) =~= Seq::<Seq<char>>::empty());
    }
    while k < sentences.len()
        invariant
            k <= sentences@.len(),
            pieces_within(views(pieces@), max_chars),
            strip_ws(concat_all(views(pieces@))) == strip_ws(
                concat_all(views(sentences@.subrange(0, k as int))),
            ),
            views(pieces@) == expand_sentences(views(sentences@.subrange(0, k as int)), max_chars),
        decreases sentences.len() - k,
    {
        proof {
            lemma_views_subrange_push(sentences@, k as int);
            lemma_strip_ws_add(
                concat_all(views(sentences@.subrange(0, k as int))),
                sentences@[k as int]@,
            );
            assert(views(sentences@.subrange(0, k + 1)).drop_last() =~= views(
                sentences@.subrange(0, k as int),
            ));
        }
        let ghost before = views(pieces@);
        if sentences[k].len() <= max_chars {
            let s = sentences[k].clone();
            push_chunk(&mut pieces, s);
            proof {
                assert(views(pieces@) =~= before + seq![sentences@[k as int]@]);
            }
        } else {
            let parts = split_by_chars(&sentences[k], max_chars);
            extend_chunks(&mut pieces, parts);
            proof {
                lemma_strip_ws_add(concat_all(before), concat_all(views(parts@)));
            }
        }
        k += 1;
    }
    proof {
        lemma_views_full(sentences@);
    }
    let none: [char; 0] = [];
    proof {
        assert(none@ =~= Seq::<char>::empty());
    }
    greedy_merge_chunks(pieces, &none, max_chars)
}

/// Each line trimmed, blank ones dropped.
pub open spec fn nonblank_trims(lines: Seq<Seq<char>>) -> Seq<Seq<char>>
    decreases lines.len(),
{
    if lines.len() == 0 {
        Seq::empty()
    } else {
        nonblank_trims(lines.drop_last()) + keep_nonempty(trim(lines.last()))
    }
}

/// The lines of `text` (`str::lines`), trimmed, blank ones dropped.
pub open spec fn trimmed_lines_of(text: Seq<char>) -> Seq<Seq<char>> {
    nonblank_trims(text_lines(text))
}

/// Each line kept whole where it is within `max_chars`, else cut into sentences.
pub open spec fn expand_lines(xs: Seq<Seq<char>>, max_chars: usize) -> Seq<Seq<char>>
    decreases xs.len(),
{
    if xs.len() == 0 {
        Seq::empty()
    } else {
        expand_lines(xs.drop_last(), max_chars) + if xs.last().len() <= max_chars {
            seq![xs.last()]
        } else {
            sentence_chunks(xs.last(), max_chars)
        }
    }
}

/// `text` cut by lines (over-long lines into sentences), packed greedily with a line
/// break between the pieces; cut into sentences where it has no visible line.
pub open spec fn line_chunks(text: Seq<char>, max_chars: usize) -> Seq<Seq<char>> {
    let lines = trimmed_lines_of(text);
    if lines.len() == 0 {
        sentence_chunks(text, max_chars)
    } else {
        greedy_merge(expand_lines(lines, max_chars), seq!['\n'], max_chars)
    }
}

/// The lines of `text`, trimmed, blank ones dropped.
fn trimmed_lines(text: &[char]) -> (out: Vec<Vec<char>>)
    ensures
        views(out@) == trimmed_lines_of(text@),
        same_content(views(out@), text@),
        forall|i: int|
            0 <= i < out@.len() ==> (#[trigger] views(out@)[i]).len() > 0 && is_trimmed(
                views(out@)[i],
            ),
{
    let lines = split_lines(text);
    let mut out: Vec<Vec<char>> = Vec::new();
    let mut k: usize = 0;
    proof {
        assert(views(out@) =~= Seq::<Seq<char>>::empty());
        assert(views(lines@.subrange(0, 0)) =~= Seq::<Seq<char>>::empty());
    }
    while k < lines.len()
        invariant
            k <= lines@.len(),
            forall|i: int|
                0 <= i < out@.len() ==> (#[trigger] views(out@)[i]).len() > 0 && is_trimmed(
                    views(out@)[i],
                ),
            strip_ws(concat_all(views(out@))) == strip_ws(
                concat_all(views(lines@.subrange(0, k as int))),
            ),
            views(out@) == nonblank_trims(views(lines@.subrange(0, k as int))),
        decreases lines.len() - k,
    {
        proof {
            lemma_views_subrange_push(lines@, k as int);
            lemma_strip_ws_add(concat_all(views(lines@.subrange(0, k as int))), lines@[k as int]@);
            lemma_trim(lines@[k as int]@);
            assert(views(lines@.subrange(0, k + 1)).drop_last() =~= views(
                lines@.subrange(0, k as int),
            ));
        }
        let t = trim_chars(&lines[k]);
        let ghost before = views(out@);
        if t.len() > 0 {
            push_chunk(&mut out, t);
            proof {
                assert(views(out@) =~= before + keep_nonempty(t@));
            }
        } else {
            proof {
                assert(views(out@) =~= before + keep_nonempty(t@));
            }
            proof {
                assert(strip_ws(lines@[k as int]@) =~= Seq::<char>::empty());
                assert(strip_ws(concat_all(views(lines@.subrange(0, k as int)))) + Seq::<
                    char,
                >::empty() =~= strip_ws(concat_all(views(lines@.subrange(0, k as int)))));
            }
        }
        k += 1;
    }
    proof {
        lemma_views_full(lines@);
    }
    out
}

/// Splits by lines, cutting over-long lines into sentences or characters, then packs
/// the pieces line by line.
fn split_oversized_lines(text: &[char], max_chars: usize) -> (out: Vec<Vec<char>>)
    ensures
        views(out@) == line_chunks(text@, max_chars),
        chunks_bounded(views(out@), max_chars),
        same_content(views(out@), text@),
{
    let lines = trimmed_lines(text);
    if lines.len() == 0 {
        return split_sentences_or_chars(text, max_chars);
    }
    let mut pieces: Vec<Vec<char>> = Vec::new();
    let mut k: usize = 0;
    proof {
        assert(views(pieces@) =~= Seq::<Seq<char>>::empty());
        assert(views(lines@.subrange(0, 0)) =~= Seq::<Seq<char>>::empty());
    }
    while k < lines.len()
        invariant
            k <= lines@.len(),
            pieces_within(views(pieces@), max_chars),
            strip_ws(concat_all(views(pieces@))) == strip_ws(
                concat_all(views(lines@.subrange(0, k as int))),
            ),
            views(pieces@) == expand_lines(views(lines@.subrange(0, k as int)), max_chars),
        decreases lines.len() - k,
    {
        proof {
            lemma_views_subrange_push(lines@, k as int);
            lemma_strip_ws_add(concat_all(views(lines@.subrange(0, k as int))), lines@[k as int]@);
            assert(views(lines@.subrange(0, k + 1)).drop_last() =~= views(
                lines@.subrange(0, k as int),
            ));
        }
        let ghost before = views(pieces@);
        if lines[k].len() <= max_chars {
            let s = lines[k].clone();
            push_chunk(&mut pieces, s);
            proof {
                assert(views(pieces@) =~= before + seq![lines@[k as int]@]);
            }
        } else {
            let parts = split_sentences_or_chars(&lines[k], max_chars);
            extend_chunks(&mut pieces, parts);
            proof {
                lemma_strip_ws_add(concat_all(before), concat_all(views(parts@)));
            }
        }
        k += 1;
    }
    proof {
        lemma_views_full(lines@);
    }
    let newline: [char; 1] = ['\n'];
    proof {
        assert(newline@ =~= seq!['\n']);
    }
    greedy_merge_chunks(pieces, &newline, max_chars)
}

/// The paragraphs of `lines` as far as the first `k` go: the paragraphs closed at
/// blank lines (their lines joined by line breaks, trimmed), and the lines of the open
/// paragraph.
pub open spec fn paragraph_scan(lines: Seq<Seq<char>>, k: nat) -> (Seq<Seq<char>>, Seq<Seq<char>>)
    decreases k,
{
    if k == 0 {
        (Seq::empty(), Seq::empty())
    } else {
        let st = paragraph_scan(lines, (k - 1) as nat);
        let line = lines[k - 1];
        if trim(line).len() == 0 {
            if st.1.len() > 0 {
                (st.0.push(trim(join(st.1, seq!['\n']))), Seq::empty())
            } else {
                st
            }
        } else {
            (st.0, st.1.push(line))
        }
    }
}

/// The paragraphs of `text`: runs of non-blank lines, each joined by line breaks and
/// trimmed; the whole text, trimmed, where there is none.
pub open spec fn paragraphs_of(text: Seq<char>) -> Seq<Seq<char>> {
    let lines = text_lines(text);
    let st = paragraph_scan(lines, lines.len());
    let all = if st.1.len() > 0 {
        st.0.push(trim(join(st.1, seq!['\n'])))
    } else {
        st.0
    };
    if all.len() == 0 {
        seq![trim(text)]
    } else {
        all
    }
}

/// Every piece is within `max_chars`.
pub open spec fn within_all(xs: Seq<Seq<char>>, max_chars: usize) -> bool {
    forall|i: int| 0 <= i < xs.len() ==> (#[trigger] xs[i]).len() <= max_chars
}

/// An over-long paragraph cut up: its lines packed with line breaks where it has lines
/// and each fits, else cut by lines and sentences.
pub open spec fn paragraph_parts(p: Seq<char>, max_chars: usize) -> Seq<Seq<char>> {
    let lines = trimmed_lines_of(p);
    if lines.len() > 0 && within_all(lines, max_chars) {
        greedy_merge(lines, seq!['\n'], max_chars)
    } else {
        line_chunks(p, max_chars)
    }
}

/// Each paragraph kept whole where it is within `max_chars`, else cut up.
pub open spec fn expand_paragraphs(xs: Seq<Seq<char>>, max_chars: usize) -> Seq<Seq<char>>
    decreases xs.len(),
{
    if xs.len() == 0 {
        Seq::empty()
    } else {
        expand_paragraphs(xs.drop_last(), max_chars) + if xs.last().len() <= max_chars {
            seq![xs.last()]
        } else {
            paragraph_parts(xs.last(), max_chars)
        }
    }
}

/// An over-long block cut up: its paragraphs, over-long ones cut up, packed with a blank
/// line between the pieces.
pub open spec fn block_chunks(text: Seq<char>, max_chars: usize) -> Seq<Seq<char>> {
    let paragraphs = paragraphs_of(text);
    if within_all(paragraphs, max_chars) {
        greedy_merge(paragraphs, seq!['\n', '\n'], max_chars)
    } else {
        greedy_merge(expand_paragraphs(paragraphs, max_chars), seq!['\n', '\n'], max_chars)
    }
}

/// Moves the collected lines of a paragraph, joined by newlines and trimmed, to `out`.
fn flush_paragraph(out: &mut Vec<Vec<char>>, current: &mut Vec<Vec<char>>)
    ensures
        views(final(out)@) == views(old(out)@).push(trim(join(views(old(current)@), seq!['\n']))),
        strip_ws(concat_all(views(final(out)@))) == strip_ws(concat_all(views(old(out)@)))
            + strip_ws(concat_all(views(old(current)@))),
        final(current)@.len() == 0,
{
    let newline = vec!['\n'];
    let joined = join_chars(current, &newline);
    let t = trim_chars(&joined);
    proof {
        assert(newline@ =~= seq!['\n']);
        assert(all_ws(seq!['\n']));
        lemma_strip_join(views(current@), seq!['\n']);
        lemma_trim(joined@);
    }
    push_chunk(out, t);
    *current = Vec::new();
}

/// Splits at blank lines; each paragraph is its lines joined by `\n`, trimmed.
fn split_paragraphs(text: &[char]) -> (out: Vec<Vec<char>>)
    ensures
        views(out@) == paragraphs_of(text@),
        same_content(views(out@), text@),
{
    let lines = split_lines(text);
    let mut paragraphs: Vec<Vec<char>> = Vec::new();
    let mut current: Vec<Vec<char>> = Vec::new();
    let mut k: usize = 0;
    proof {
        assert(views(paragraphs@) =~= Seq::<Seq<char>>::empty());
        assert(views(current@) =~= Seq::<Seq<char>>::empty());
        assert(views(lines@.subrange(0, 0)) =~= Seq::<Seq<char>>::empty());
    }
    while k < lines.len()
        invariant
            k <= lines@.len(),
            strip_ws(concat_all(views(paragraphs@))) + strip_ws(concat_all(views(current@)))
                == strip_ws(concat_all(views(lines@.subrange(0, k as int)))),
            views(lines@) == text_lines(text@),
            (views(paragraphs@), views(current@)) == paragraph_scan(views(lines@), k as nat),
        decreases lines.len() - k,
    {
        proof {
            lemma_views_subrange_push(lines@, k as int);
            lemma_strip_ws_add(concat_all(views(lines@.subrange(0, k as int))), lines@[k as int]@);
            assert(((k + 1) as nat - 1) as nat == k as nat);
            assert(views(lines@)[k as int] == lines@[k as int]@);
            lemma_trim(lines@[k as int]@);
        }
        if is_blank(&lines[k]) {
            if current.len() > 0 {
                flush_paragraph(&mut paragraphs, &mut current);
                proof {
                    assert(views(current@) =~= Seq::<Seq<char>>::empty());
                }
            }
            proof {
                assert(strip_ws(lines@[k as int]@) =~= Seq::<char>::empty());
                assert(strip_ws(concat_all(views(lines@.subrange(0, k as int)))) + Seq::<
                    char,
                >::empty() =~= strip_ws(concat_all(views(lines@.subrange(0, k as int)))));
            }
        } else {
            let line = lines[k].clone();
            let ghost before = views(current@);
            push_chunk(&mut current, line);
            proof {
                assert(views(current@) == before.push(lines@[k as int]@));
                assert(strip_ws(concat_all(views(paragraphs@))) + (strip_ws(concat_all(before))
                    + strip_ws(line@)) =~= strip_ws(concat_all(views(paragraphs@))) + strip_ws(
                    concat_all(before),
                ) + strip_ws(line@));
            }
        }
        k += 1;
    }
    proof {
        assert(views(lines@).len() == lines@.len());
    }
    if current.len() > 0 {
        flush_paragraph(&mut paragraphs, &mut current);
    } else {
        proof {
            assert(views(current@) =~= Seq::<Seq<char>>::empty());
            assert(strip_ws(concat_all(views(paragraphs@))) + Seq::<char>::empty() =~= strip_ws(
                concat_all(views(paragraphs@)),
            ));
        }
    }
    proof {
        lemma_views_full(lines@);
    }
    if paragraphs.len() == 0 {
        let t = trim_chars(text);
        proof {
            lemma_trim(text@);
            assert(views(paragraphs@) =~= Seq::<Seq<char>>::empty());
        }
        push_chunk(&mut paragraphs, t);
        proof {
            assert(Seq::<char>::empty() + strip_ws(t@) =~= strip_ws(t@));
            assert(views(paragraphs@) =~= seq![t@]);
        }
    }
    paragraphs
}

/// Splits a block that is over the limit: by paragraphs, then lines, then
/// sentences or characters, packing the pieces again.
fn split_oversized_block(text: &[char], max_chars: usize) -> (out: Vec<Vec<char>>)
    ensures
        views(out@) == block_chunks(text@, max_chars),
        chunks_bounded(views(out@), max_chars),
        same_content(views(out@), text@),
{
    let paragraphs = split_paragraphs(text);
    let blank_line: [char; 2] = ['\n', '\n'];
    let newline: [char; 1] = ['\n'];
    proof {
        assert(blank_line@ =~= seq!['\n', '\n']);
        assert(newline@ =~= seq!['\n']);
    }
    if all_within(&paragraphs, max_chars) {
        proof {
            assert(within_all(views(paragraphs@), max_chars));
        }
        return greedy_merge_chunks(paragraphs, &blank_line, max_chars);
    }
    proof {
        assert(!within_all(views(paragraphs@), max_chars)) by {
            if within_all(views(paragraphs@), max_chars) {
                assert forall|i: int| 0 <= i < paragraphs@.len() implies (
                #[trigger] paragraphs@[i])@.len() <= max_chars by {
                    assert(views(paragraphs@)[i] == paragraphs@[i]@);
                }
            }
        }
    }
    let mut line_chunks: Vec<Vec<char>> = Vec::new();
    let mut k: usize = 0;
    proof {
        assert(views(line_chunks@) =~= Seq::<Seq<char>>::empty());
        assert(views(paragraphs@.subrange(0, 0)) =~= Seq::<Seq<char>>::empty());
    }
    while k < paragraphs.len()
        invariant
            k <= paragraphs@.len(),
            pieces_within(views(line_chunks@), max_chars),
            strip_ws(concat_all(views(line_chunks@))) == strip_ws(
                concat_all(views(paragraphs@.subrange(0, k as int))),
            ),
            newline@ == seq!['\n'],
            views(line_chunks@) == expand_paragraphs(
                views(paragraphs@.subrange(0, k as int)),
                max_chars,
            ),
        decreases paragraphs.len() - k,
    {
        proof {
            lemma_views_subrange_push(paragraphs@, k as int);
            lemma_strip_ws_add(
                concat_all(views(paragraphs@.subrange(0, k as int))),
                paragraphs@[k as int]@,
            );
            assert(views(paragraphs@.subrange(0, k + 1)).drop_last() =~= views(
                paragraphs@.subrange(0, k as int),
            ));
        }
        let ghost before = views(line_chunks@);
        if paragraphs[k].len() <= max_chars {
            let p = paragraphs[k].clone();
            push_chunk(&mut line_chunks, p);
            proof {
                assert(views(line_chunks@) =~= before + seq![paragraphs@[k as int]@]);
            }
        } else {
            let lines = trimmed_lines(&paragraphs[k]);
            let fits = lines.len() > 0 && all_within(&lines, max_chars);
            proof {
                if lines.len() > 0 {
                    assert(fits == within_all(views(lines@), max_chars)) by {
                        if within_all(views(lines@), max_chars) {
                            assert forall|i: int| 0 <= i < lines@.len() implies (
                            #[trigger] lines@[i])@.len() <= max_chars by {
                                assert(views(lines@)[i] == lines@[i]@);
                            }
                        }
                    }
                }
            }
            let parts = if fits {
                greedy_merge_chunks(lines, &newline, max_chars)
            } else {
                split_oversized_lines(&paragraphs[k], max_chars)
            };
            proof {
                assert(views(parts@) == paragraph_parts(paragraphs@[k as int]@, max_chars));
            }
            extend_chunks(&mut line_chunks, parts);
            proof {
                lemma_strip_ws_add(concat_all(before), concat_all(views(parts@)));
                assert forall|i: int| 0 <= i < views(line_chunks@).len() implies (
                #[trigger] views(line_chunks@)[i]).len() <= cap(max_chars) by {
                    if i >= before.len() {
                        assert(views(line_chunks@)[i] == views(parts@)[i - before.len()]);
                    }
                }
            }
        }
        k += 1;
    }
    proof {
        lemma_views_full(paragraphs@);
    }
    greedy_merge_chunks(line_chunks, &blank_line, max_chars)
}

/// Whether a line opens a `## ` or `### ` section (after its leading whitespace).
pub open spec fn opens_section(line: Seq<char>) -> bool {
    has_prefix(trim_start(line), seq!['#', '#', ' ']) || has_prefix(
        trim_start(line),
        seq!['#', '#', '#', ' '],
    )
}

/// The Markdown blocks of `lines` as far as the first `k` go: the blocks closed before
/// each line that opens a section (trimmed), and the open block, each of its lines
/// followed by a line break.
pub open spec fn block_scan(lines: Seq<Seq<char>>, k: nat) -> (Seq<Seq<char>>, Seq<char>)
    decreases k,
{
    if k == 0 {
        (Seq::empty(), Seq::empty())
    } else {
        let st = block_scan(lines, (k - 1) as nat);
        let line = lines[k - 1];
        let closed = if opens_section(line) && trim(st.1).len() > 0 {
            (st.0.push(trim(st.1)), Seq::<char>::empty())
        } else {
            st
        };
        (closed.0, closed.1 + line + seq!['\n'])
    }
}

/// The Markdown blocks of `text`: a new block starts at each line that opens a `## ` or
/// `### ` section after some visible text; blocks are trimmed and blank ones dropped;
/// the whole text, trimmed, where none is left.
pub open spec fn markdown_blocks(text: Seq<char>) -> Seq<Seq<char>> {
    let lines = text_lines(text);
    let st = block_scan(lines, lines.len());
    let all = st.0 + keep_nonempty(trim(st.1));
    if all.len() == 0 {
        seq![trim(text)]
    } else {
        all
    }
}

/// Each block kept whole where it is within `max_chars`, else cut up.
pub open spec fn expand_blocks(xs: Seq<Seq<char>>, max_chars: usize) -> Seq<Seq<char>>
    decreases xs.len(),
{
    if xs.len() == 0 {
        Seq::empty()
    } else {
        expand_blocks(xs.drop_last(), max_chars) + if xs.last().len() <= max_chars {
            seq![xs.last()]
        } else {
            block_chunks(xs.last(), max_chars)
        }
    }
}

/// What `split_text` gives: nothing for a blank text; the trimmed text alone where it
/// is within `max_chars`; otherwise its Markdown blocks, over-long ones cut by
/// paragraphs, lines, sentences and characters, packed greedily with a blank line
/// between the pieces.
pub open spec fn split_text_spec(text: Seq<char>, max_chars: usize) -> Seq<Seq<char>> {
    let t = trim(text);
    if t.len() == 0 {
        Seq::empty()
    } else if t.len() <= max_chars {
        seq![t]
    } else {
        greedy_merge(expand_blocks(markdown_blocks(t), max_chars), seq!['\n', '\n'], max_chars)
    }
}

/// Splits before each line that opens a `## ` or `### ` section; blocks are trimmed.
fn split_by_markdown_boundaries(text: &[char]) -> (out: Vec<Vec<char>>)
    ensures
        views(out@) == markdown_blocks(text@),
        same_content(views(out@), text@),
{
    let lines = split_lines(text);
    let h2 = vec!['#', '#', ' '];
    let h3 = vec!['#', '#', '#', ' '];
    proof {
        assert(h2@ =~= seq!['#', '#', ' ']);
        assert(h3@ =~= seq!['#', '#', '#', ' ']);
    }
    let mut blocks: Vec<Vec<char>> = Vec::new();
    let mut current: Vec<char> = Vec::new();
    let mut k: usize = 0;
    proof {
        assert(views(blocks@) =~= Seq::<Seq<char>>::empty());
        assert(views(lines@.subrange(0, 0)) =~= Seq::<Seq<char>>::empty());
        assert(strip_ws(current@) =~= Seq::<char>::empty());
    }
    while k < lines.len()
        invariant
            k <= lines@.len(),
            strip_ws(concat_all(views(blocks@))) + strip_ws(current@) == strip_ws(
                concat_all(views(lines@.subrange(0, k as int))),
            ),
            h2@ == seq!['#', '#', ' '],
            h3@ == seq!['#', '#', '#', ' '],
            views(lines@) == text_lines(text@),
            (views(blocks@), current@) == block_scan(views(lines@), k as nat),
        decreases lines.len() - k,
    {
        proof {
            lemma_views_subrange_push(lines@, k as int);
            lemma_strip_ws_add(concat_all(views(lines@.subrange(0, k as int))), lines@[k as int]@);
            assert(((k + 1) as nat - 1) as nat == k as nat);
            assert(views(lines@)[k as int] == lines@[k as int]@);
        }
        let lead = trim_start_chars(&lines[k]);
        let heading = starts_with(&lead, &h2) || starts_with(&lead, &h3);
        proof {
            assert(heading == opens_section(lines@[k as int]@));
        }
        if heading && !is_blank(&current) {
            let t = trim_chars(&current);
            proof {
                lemma_trim(current@);
            }
            let ghost prior = views(blocks@);
            push_chunk(&mut blocks, t);
            proof {
                assert(views(blocks@) == prior.push(t@));
            }
            current = Vec::new();
            proof {
                assert(strip_ws(current@) =~= Seq::<char>::empty());
                assert(strip_ws(concat_all(views(blocks@))) + Seq::<char>::empty() =~= strip_ws(
                    concat_all(views(blocks@)),
                ));
            }
        }
        let ghost before = current@;
        append_chars(&mut current, &lines[k]);
        current.push('\n');
        proof {
            assert(current@ =~= before + lines@[k as int]@ + seq!['\n']);
            lemma_strip_ws_add(before + lines@[k as int]@, seq!['\n']);
            lemma_strip_ws_add(before, lines@[k as int]@);
            assert(all_ws(seq!['\n']));
            lemma_strip_ws_all_ws(seq!['\n']);
            assert(strip_ws(before + lines@[k as int]@) + Seq::<char>::empty() =~= strip_ws(
                before + lines@[k as int]@,
            ));
            assert(strip_ws(concat_all(views(blocks@))) + (strip_ws(before) + strip_ws(
                lines@[k as int]@,
            )) =~= strip_ws(concat_all(views(blocks@))) + strip_ws(before) + strip_ws(
                lines@[k as int]@,
            ));
        }
        k += 1;
    }
    let ghost scanned = views(blocks@);
    proof {
        assert(views(lines@).len() == lines@.len());
        lemma_trim(current@);
    }
    if !is_blank(&current) {
        let t = trim_chars(&current);
        push_chunk(&mut blocks, t);
        proof {
            assert(views(blocks@) =~= scanned + keep_nonempty(t@));
        }
    } else {
        proof {
            assert(strip_ws(current@) =~= Seq::<char>::empty());
            assert(strip_ws(concat_all(views(blocks@))) + Seq::<char>::empty() =~= strip_ws(
                concat_all(views(blocks@)),
            ));
            assert(views(blocks@) =~= scanned + keep_nonempty(trim(current@)));
        }
    }
    proof {
        lemma_views_full(lines@);
    }
    if blocks.len() == 0 {
        let t = trim_chars(text);
        proof {
            lemma_trim(text@);
            assert(views(blocks@) =~= Seq::<Seq<char>>::empty());
        }
        push_chunk(&mut blocks, t);
        proof {
            assert(Seq::<char>::empty() + strip_ws(t@) =~= strip_ws(t@));
            assert(views(blocks@) =~= seq![t@]);
        }
    }
    blocks
}

/// `split_text` on characters.
pub fn split_text_chars(text: &[char], max_chars: usize) -> (out: Vec<Vec<char>>)
    ensures
        views(out@) == split_text_spec(text@, max_chars),
        chunks_bounded(views(out@), max_chars),
        same_content(views(out@), text@),
        trim(text@).len() == 0 ==> out@.len() == 0,
        trim(text@).len() > 0 ==> out@.len() > 0,
        0 < trim(text@).len() <= max_chars ==> views(out@) == seq![trim(text@)],
{
    let t = trim_chars(text);
    proof {
        lemma_trim(text@);
    }
    if t.len() == 0 {
        proof {
            assert(views(Seq::<Vec<char>>::empty()) =~= Seq::<Seq<char>>::empty());
            assert(strip_ws(text@).len() == 0);
        }
        return Vec::new();
    }
    if t.len() <= max_chars {
        let mut out: Vec<Vec<char>> = Vec::new();
        proof {
            assert(views(out@) =~= Seq::<Seq<char>>::empty());
        }
        push_chunk(&mut out, t);
        proof {
            assert(Seq::<char>::empty() + strip_ws(t@) =~= strip_ws(t@));
            assert(views(out@) =~= seq![t@]);
        }
        return out;
    }
    let raw_blocks = split_by_markdown_boundaries(&t);
    let mut blocks: Vec<Vec<char>> = Vec::new();
    let mut k: usize = 0;
    proof {
        assert(views(blocks@) =~= Seq::<Seq<char>>::empty());
        assert(views(raw_blocks@.subrange(0, 0)) =~= Seq::<Seq<char>>::empty());
    }
    while k < raw_blocks.len()
        invariant
            k <= raw_blocks@.len(),
            pieces_within(views(blocks@), max_chars),
            strip_ws(concat_all(views(blocks@))) == strip_ws(
                concat_all(views(raw_blocks@.subrange(0, k as int))),
            ),
            views(blocks@) == expand_blocks(views(raw_blocks@.subrange(0, k as int)), max_chars),
        decreases raw_blocks.len() - k,
    {
        proof {
            lemma_views_subrange_push(raw_blocks@, k as int);
            lemma_strip_ws_add(
                concat_all(views(raw_blocks@.subrange(0, k as int))),
                raw_blocks@[k as int]@,
            );
            assert(views(raw_blocks@.subrange(0, k + 1)).drop_last() =~= views(
                raw_blocks@.subrange(0, k as int),
            ));
        }
        let ghost before = views(blocks@);
        if raw_blocks[k].len() <= max_chars {
            let b = raw_blocks[k].clone();
            push_chunk(&mut blocks, b);
            proof {
                assert(views(blocks@) =~= before + seq![raw_blocks@[k as int]@]);
            }
        } else {
            let parts = split_oversized_block(&raw_blocks[k], max_chars);
            extend_chunks(&mut blocks, parts);
            proof {
                lemma_strip_ws_add(concat_all(before), concat_all(views(parts@)));
                assert forall|i: int| 0 <= i < views(blocks@).len() implies (#[trigger] views(
                    blocks@,
                )[i]).len() <= cap(max_chars) by {
                    if i >= before.len() {
                        assert(views(blocks@)[i] == views(parts@)[i - before.len()]);
                    }
                }
            }
        }
        k += 1;
    }
    proof {
        lemma_views_full(raw_blocks@);
    }
    let blank_line: [char; 2] = ['\n', '\n'];
    proof {
        assert(blank_line@ =~= seq!['\n', '\n']);
    }
    let out = greedy_merge_chunks(blocks, &blank_line, max_chars);
    proof {
        lemma_content_needs_chunks(views(out@), text@);
    }
    out
}

/// Chunks that keep the visible text of a text with visible characters are not none.
proof fn lemma_content_needs_chunks(chunks: Seq<Seq<char>>, text: Seq<char>)
    requires
        same_content(chunks, text),
        trim(text).len() > 0,
    ensures
        chunks.len() > 0,
{
    lemma_trim(text);
    if chunks.len() == 0 {
        assert(concat_all(chunks) =~= Seq::<char>::empty());
        assert(strip_ws(Seq::<char>::empty()) =~= Seq::<char>::empty());
    }
}

/// Splits a long text into trimmed chunks of at most `max_chars` characters,
/// preferring Markdown section boundaries, then paragraphs, lines and sentences.
pub fn split_text(text: &str, max_chars: usize) -> (chunks: Vec<String>)
    ensures
        string_views(chunks@) == split_text_spec(text@, max_chars),
        chunks_bounded(string_views(chunks@), max_chars),
        same_content(string_views(chunks@), text@),
        trim(text@).len() == 0 ==> chunks@.len() == 0,
        trim(text@).len() > 0 ==> chunks@.len() > 0,
        0 < trim(text@).len() <= max_chars ==> string_views(chunks@) == seq![trim(text@)],
{
    let chars = chars_of(text);
    let parts = split_text_chars(&chars, max_chars);
    to_strings(&parts)
}

/// Converts character buffers to strings.
fn to_strings(parts: &Vec<Vec<char>>) -> (out: Vec<String>)
    ensures
        string_views(out@) == views(parts@),
{
    let mut out: Vec<String> = Vec::new();
    let mut i: usize = 0;
    while i < parts.len()
        invariant
            i <= parts@.len(),
            string_views(out@) == views(parts@.subrange(0, i as int)),
        decreases parts.len() - i,
    {
        let s = string_from_chars(&parts[i]);
        proof {
            lemma_string_views_push(out@, s);
            assert(views(parts@.subrange(0, i + 1)) =~= views(parts@.subrange(0, i as int)).push(
                parts@[i as int]@,
            ));
        }
        out.push(s);
        i += 1;
    }
    proof {
        lemma_views_full(parts@);
    }
    out
}

/// The character count of the batch separator.
fn batch_separator_len() -> (n: usize)
    ensures
        n == batch_separator().len(),
{
    let sep = chars_of(MERGE_BATCH_SEPARATOR);
    proof {
        reveal_strlit("\n\n---\n\n");
        assert(sep@ =~= batch_separator());
    }
    sep.len()
}

/// Each batch is non-empty and its pieces, joined by the separator, fit the limit.
pub open spec fn batches_bounded(batches: Seq<Vec<String>>, max_chars: usize) -> bool {
    forall|b: int|
        0 <= b < batches.len() ==> (#[trigger] batches[b])@.len() > 0 && join(
            string_views(batches[b]@),
            batch_separator(),
        ).len() <= cap(max_chars) && chunks_bounded(string_views(batches[b]@), max_chars)
}

/// The pieces a text gives for merging: the text trimmed where it is within
/// `max_chars`, else what `split_text` makes of it.
pub open spec fn text_pieces(text: Seq<char>, max_chars: usize) -> Seq<Seq<char>> {
    if text.len() > max_chars {
        split_text_spec(text, max_chars)
    } else {
        seq![trim(text)]
    }
}

/// The pieces of all texts, in order.
pub open spec fn all_pieces(texts: Seq<Seq<char>>, max_chars: usize) -> Seq<Seq<char>>
    decreases texts.len(),
{
    if texts.len() == 0 {
        Seq::empty()
    } else {
        all_pieces(texts.drop_last(), max_chars) + text_pieces(texts.last(), max_chars)
    }
}

/// Greedy batching of `pieces`, as far as it got: the closed batches and the open one.
/// A blank piece is skipped; another joins the open batch while the batch, joined by
/// the separator, stays within `max_chars`, else it closes the open batch and opens the
/// next.
pub open spec fn batch_state(pieces: Seq<Seq<char>>, max_chars: usize) -> (
    Seq<Seq<Seq<char>>>,
    Seq<Seq<char>>,
)
    decreases pieces.len(),
{
    if pieces.len() == 0 {
        (Seq::empty(), Seq::empty())
    } else {
        let st = batch_state(pieces.drop_last(), max_chars);
        let p = pieces.last();
        if trim(p).len() == 0 {
            st
        } else if st.1.len() > 0 && join(st.1, batch_separator()).len() + batch_separator().len()
            + p.len() > max_chars {
            (st.0.push(st.1), seq![p])
        } else {
            (st.0, st.1.push(p))
        }
    }
}

/// Greedy batching of `pieces`: the closed batches, then the open one where it holds a
/// piece.
pub open spec fn batches_of(pieces: Seq<Seq<char>>, max_chars: usize) -> Seq<Seq<Seq<char>>> {
    let st = batch_state(pieces, max_chars);
    if st.1.len() > 0 {
        st.0.push(st.1)
    } else {
        st.0
    }
}

/// The character views of batches.
pub open spec fn batch_views(batches: Seq<Vec<String>>) -> Seq<Seq<Seq<char>>> {
    Seq::new(batches.len(), |i: int| string_views(batches[i]@))
}

/// A batch was closed only because the next piece did not fit: the batch, the
/// separator and that piece together exceed `max_chars`.
pub open spec fn closed_when_full(batches: Seq<Vec<String>>, max_chars: usize) -> bool {
    forall|i: int|
        0 <= i < batches.len() - 1 ==> join(string_views((#[trigger] batches[i])@), batch_separator()).len()
            + batch_separator().len() + batches[i + 1]@[0]@.len() > max_chars
}

proof fn lemma_concat_batches_push(batches: Seq<Vec<String>>, b: Vec<String>)
    ensures
        concat_batches(batches.push(b)) == concat_batches(batches) + concat_all(string_views(b@)),
{
    assert(batches.push(b).drop_last() =~= batches);
}

proof fn lemma_string_views_subrange_push(v: Seq<String>, k: int)
    requires
        0 <= k < v.len(),
    ensures
        concat_all(string_views(v.subrange(0, k + 1))) == concat_all(
            string_views(v.subrange(0, k)),
        ) + v[k]@,
{
    assert(string_views(v.subrange(0, k + 1)) =~= string_views(v.subrange(0, k)).push(v[k]@));
    lemma_concat_all_push(string_views(v.subrange(0, k)), v[k]@);
}

/// Groups texts into merge batches. A text over the limit is first split with
/// `split_text`; each batch's pieces, joined by `MERGE_BATCH_SEPARATOR`, stay within
/// the limit.
pub fn batch_texts(texts: &[String], max_chars: usize) -> (batches: Vec<Vec<String>>)
    ensures
        batch_views(batches@) == batches_of(all_pieces(string_views(texts@), max_chars), max_chars),
        closed_when_full(batches@, max_chars),
        batches_bounded(batches@, max_chars),
        strip_ws(concat_batches(batches@)) == texts_content(texts@),
{
    let sep_len = batch_separator_len();
    let mut batches: Vec<Vec<String>> = Vec::new();
    let mut current: Vec<String> = Vec::new();
    let mut current_chars: usize = 0;
    let mut t: usize = 0;
    proof {
        assert(string_views(current@) =~= Seq::<Seq<char>>::empty());
        assert(string_views(texts@.subrange(0, 0)) =~= Seq::<Seq<char>>::empty());
        assert(concat_batches(batches@) + concat_all(string_views(current@)) =~= Seq::<
            char,
        >::empty());
        assert(batch_views(batches@) =~= Seq::<Seq<Seq<char>>>::empty());
        assert(all_pieces(string_views(texts@.subrange(0, 0)), max_chars) =~= Seq::<Seq<char>>::empty());
    }
    while t < texts.len()
        invariant
            t <= texts@.len(),
            (batch_views(batches@), string_views(current@)) == batch_state(
                all_pieces(string_views(texts@.subrange(0, t as int)), max_chars),
                max_chars,
            ),
            closed_when_full(batches@, max_chars),
            current@.len() == 0 ==> batches@.len() == 0,
            batches@.len() > 0 && current@.len() > 0 ==> join(
                string_views(batches@.last()@),
                batch_separator(),
            ).len() + batch_separator().len() + current@[0]@.len() > max_chars,
            sep_len == batch_separator().len(),
            batches_bounded(batches@, max_chars),
            current_chars == join(string_views(current@), batch_separator()).len(),
            current_chars <= cap(max_chars),
            chunks_bounded(string_views(current@), max_chars),
            strip_ws(concat_batches(batches@) + concat_all(string_views(current@))) == strip_ws(
                concat_all(string_views(texts@.subrange(0, t as int))),
            ),
        decreases texts.len() - t,
    {
        let chars = chars_of(texts[t].as_str());
        let pieces = if chars.len() > max_chars {
            split_text_chars(&chars, max_chars)
        } else {
            let mut single: Vec<Vec<char>> = Vec::new();
            let trimmed = trim_chars(&chars);
            proof {
                lemma_trim(chars@);
                assert(views(single@) =~= Seq::<Seq<char>>::empty());
            }
            push_chunk(&mut single, trimmed);
            proof {
                assert(Seq::<char>::empty() + strip_ws(trimmed@) =~= strip_ws(trimmed@));
                assert(views(single@) =~= seq![trimmed@]);
            }
            single
        };
        let ghost prefix = strip_ws(concat_all(string_views(texts@.subrange(0, t as int))));
        let ghost done = all_pieces(string_views(texts@.subrange(0, t as int)), max_chars);
        proof {
            assert(views(pieces@) == text_pieces(texts@[t as int]@, max_chars));
            assert(done + views(pieces@).subrange(0, 0) =~= done);
        }
        let mut p: usize = 0;
        proof {
            assert(views(pieces@.subrange(0, 0)) =~= Seq::<Seq<char>>::empty());
            assert(prefix + Seq::<char>::empty() =~= prefix);
        }
        while p < pieces.len()
            invariant
                p <= pieces@.len(),
                (batch_views(batches@), string_views(current@)) == batch_state(
                    done + views(pieces@).subrange(0, p as int),
                    max_chars,
                ),
                closed_when_full(batches@, max_chars),
                current@.len() == 0 ==> batches@.len() == 0,
                batches@.len() > 0 && current@.len() > 0 ==> join(
                    string_views(batches@.last()@),
                    batch_separator(),
                ).len() + batch_separator().len() + current@[0]@.len() > max_chars,
                pieces_within(views(pieces@), max_chars),
                forall|i: int| 0 <= i < pieces@.len() ==> is_trimmed(#[trigger] views(pieces@)[i]),
                sep_len == batch_separator().len(),
                batches_bounded(batches@, max_chars),
                current_chars == join(string_views(current@), batch_separator()).len(),
                current_chars <= cap(max_chars),
                chunks_bounded(string_views(current@), max_chars),
                strip_ws(concat_batches(batches@) + concat_all(string_views(current@))) == prefix
                    + strip_ws(concat_all(views(pieces@.subrange(0, p as int)))),
            decreases pieces.len() - p,
        {
            proof {
                lemma_views_subrange_push(pieces@, p as int);
                lemma_strip_ws_add(concat_all(views(pieces@.subrange(0, p as int))), pieces@[p as int]@);
                assert(views(pieces@)[p as int] == pieces@[p as int]@);
                assert((done + views(pieces@).subrange(0, p + 1)).drop_last() =~= done + views(
                    pieces@,
                ).subrange(0, p as int));
                assert((done + views(pieces@).subrange(0, p + 1)).last() == pieces@[p as int]@);
            }
            let ghost st_views = batch_views(batches@);
            let ghost cur_views = string_views(current@);
            if is_blank(&pieces[p]) {
                proof {
                    assert(strip_ws(concat_all(views(pieces@.subrange(0, p as int)))) + Seq::<
                        char,
                    >::empty() =~= strip_ws(concat_all(views(pieces@.subrange(0, p as int)))));
                }
            } else {
                let piece_chars = pieces[p].len();
                if current.len() > 0 && exceeds(current_chars, sep_len, piece_chars, max_chars) {
                    proof {
                        lemma_concat_batches_push(batches@, current);
                        assert forall|b: int| 0 <= b < batches@.push(current).len() implies (
                        #[trigger] batches@.push(current)[b])@.len() > 0 && join(
                            string_views(batches@.push(current)[b]@),
                            batch_separator(),
                        ).len() <= cap(max_chars) && chunks_bounded(
                            string_views(batches@.push(current)[b]@),
                            max_chars,
                        ) by {
                            if b < batches@.len() {
                                assert(batches@.push(current)[b] == batches@[b]);
                            }
                        }
                    }
                    let ghost old_batches = batches@;
                    let ghost old_current = current@;
                    batches.push(current);
                    current = Vec::new();
                    current_chars = 0;
                    proof {
                        assert(batch_views(batches@) =~= st_views.push(cur_views));
                        assert forall|i: int| 0 <= i < batches@.len() - 1 implies join(
                            string_views((#[trigger] batches@[i])@),
                            batch_separator(),
                        ).len() + batch_separator().len() + batches@[i + 1]@[0]@.len()
                            > max_chars by {
                            if i < old_batches.len() - 1 {
                                assert(batches@[i] == old_batches[i]);
                                assert(batches@[i + 1] == old_batches[i + 1]);
                            } else {
                                assert(batches@[i] == old_batches.last());
                                assert(batches@[i + 1]@ == old_current);
                            }
                        }
                        assert(string_views(current@) =~= Seq::<Seq<char>>::empty());
                        assert(concat_batches(batches@) + concat_all(string_views(current@))
                            =~= concat_batches(batches@));
                    }
                }
                let piece = string_from_chars(&pieces[p]);
                let ghost before = string_views(current@);
                proof {
                    lemma_join_push(before, batch_separator(), piece@);
                    lemma_string_views_push(current@, piece);
                    lemma_concat_all_push(before, piece@);
                    lemma_strip_ws_add(concat_batches(batches@) + concat_all(before), piece@);
                    assert(concat_batches(batches@) + concat_all(before.push(piece@))
                        =~= concat_batches(batches@) + concat_all(before) + piece@);
                }
                if current.len() == 0 {
                    current_chars = piece_chars;
                } else {
                    current_chars = current_chars + sep_len + piece_chars;
                }
                let ghost current_before = current@;
                let ghost batches_now = batches@;
                current.push(piece);
                proof {
                    assert(string_views(current@) =~= before.push(piece@));
                    assert(piece@ == pieces@[p as int]@);
                    if before.len() > 0 {
                        assert(current@[0] == current_before[0]);
                    }
                    assert forall|i: int| 0 <= i < string_views(current@).len() implies 0 < (
                    #[trigger] string_views(current@)[i]).len() <= cap(max_chars) && is_trimmed(
                        string_views(current@)[i],
                    ) by {
                        if i < before.len() {
                            assert(string_views(current@)[i] == before[i]);
                        }
                    }
                }
            }
            p += 1;
        }
        proof {
            assert(done + views(pieces@).subrange(0, pieces@.len() as int) =~= done + views(pieces@));
            assert(string_views(texts@.subrange(0, t + 1)).drop_last() =~= string_views(
                texts@.subrange(0, t as int),
            ));
            assert(string_views(texts@.subrange(0, t + 1)).last() == texts@[t as int]@);
            lemma_views_full(pieces@);
            lemma_string_views_subrange_push(texts@, t as int);
            lemma_strip_ws_add(concat_all(string_views(texts@.subrange(0, t as int))), texts@[t as int]@);
        }
        t += 1;
    }
    proof {
        assert(string_views(texts@.subrange(0, texts@.len() as int)) =~= string_views(texts@));
    }
    let ghost final_batches = batches@;
    let ghost final_current = current@;
    if current.len() > 0 {
        proof {
            lemma_concat_batches_push(batches@, current);
            assert forall|b: int| 0 <= b < batches@.push(current).len() implies (
            #[trigger] batches@.push(current)[b])@.len() > 0 && join(
                string_views(batches@.push(current)[b]@),
                batch_separator(),
            ).len() <= cap(max_chars) && chunks_bounded(
                string_views(batches@.push(current)[b]@),
                max_chars,
            ) by {
                if b < batches@.len() {
                    assert(batches@.push(current)[b] == batches@[b]);
                }
            }
        }
        batches.push(current);
        proof {
            assert(batch_views(batches@) =~= batch_views(final_batches).push(
                string_views(final_current),
            ));
            assert forall|i: int| 0 <= i < batches@.len() - 1 implies join(
                string_views((#[trigger] batches@[i])@),
                batch_separator(),
            ).len() + batch_separator().len() + batches@[i + 1]@[0]@.len() > max_chars by {
                if i < final_batches.len() - 1 {
                    assert(batches@[i] == final_batches[i]);
                    assert(batches@[i + 1] == final_batches[i + 1]);
                } else {
                    assert(batches@[i] == final_batches.last());
                    assert(batches@[i + 1]@ == final_current);
                }
            }
        }
    } else {
        proof {
            assert(string_views(current@) =~= Seq::<Seq<char>>::empty());
            assert(concat_batches(batches@) + concat_all(string_views(current@))
                =~= concat_batches(batches@));
        }
    }
    proof {
        assert(texts@.subrange(0, texts@.len() as int) =~= texts@);
    }
    batches
}

} // verus!
