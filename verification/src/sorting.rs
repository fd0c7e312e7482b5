//! Ordering text keys: the lexicographic order of strings, and a stable
//! newest-first or ascending arrangement of keyed items.
use vstd::prelude::*;

verus! {

/// `a` comes strictly before `b` in the lexicographic order of code points (the order
/// of `String`s, whose UTF-8 bytes sort as their code points do).
pub open spec fn lex_less(a: Seq<char>, b: Seq<char>) -> bool
    decreases a.len(),
{
    if a.len() == 0 {
        b.len() > 0
    } else if b.len() == 0 {
        false
    } else if a[0] != b[0] {
        a[0] < b[0]
    } else {
        lex_less(a.drop_first(), b.drop_first())
    }
}

/// No key comes before itself, and of two different keys exactly one comes first.
pub proof fn lemma_lex_trichotomy(a: Seq<char>, b: Seq<char>)
    ensures
        !lex_less(a, a),
        a != b ==> (lex_less(a, b) != lex_less(b, a)),
        a == b ==> !lex_less(a, b),
    decreases a.len(),
{
    if a.len() > 0 {
        lemma_lex_trichotomy(a.drop_first(), a.drop_first());
        if b.len() > 0 && a[0] == b[0] {
            lemma_lex_trichotomy(a.drop_first(), b.drop_first());
            if a != b {
                assert(a.drop_first() != b.drop_first()) by {
                    if a.drop_first() == b.drop_first() {
                        assert(a =~= seq![a[0]] + a.drop_first());
                        assert(b =~= seq![b[0]] + b.drop_first());
                    }
                }
            }
        }
    } else {
        if b.len() == 0 {
            assert(a =~= b);
        }
    }
}

/// The lexicographic order is transitive.
pub proof fn lemma_lex_transitive(a: Seq<char>, b: Seq<char>, c: Seq<char>)
    requires
        lex_less(a, b),
        lex_less(b, c),
    ensures
        lex_less(a, c),
    decreases a.len(),
{
    if a.len() > 0 && b.len() > 0 && c.len() > 0 && a[0] == b[0] && b[0] == c[0] {
        lemma_lex_transitive(a.drop_first(), b.drop_first(), c.drop_first());
    }
}

/// `a` comes strictly before `b`.
pub fn lex_less_exec(a: &[char], b: &[char]) -> (r: bool)
    ensures
        r == lex_less(a@, b@),
{
    let mut i: usize = 0;
    assert(a@.skip(0) =~= a@);
    assert(b@.skip(0) =~= b@);
    while i < a.len() && i < b.len()
        invariant
            i <= a@.len(),
            i <= b@.len(),
            a@.subrange(0, i as int) == b@.subrange(0, i as int),
            lex_less(a@, b@) == lex_less(a@.skip(i as int), b@.skip(i as int)),
        decreases a.len() - i,
    {
        if a[i] != b[i] {
            return a[i] < b[i];
        }
        proof {
            assert(a@.skip(i as int).drop_first() =~= a@.skip(i + 1));
            assert(b@.skip(i as int).drop_first() =~= b@.skip(i + 1));
            assert(a@.subrange(0, i + 1) =~= a@.subrange(0, i as int).push(a@[i as int]));
            assert(b@.subrange(0, i + 1) =~= b@.subrange(0, i as int).push(b@[i as int]));
        }
        i += 1;
    }
    i < b.len()
}

/// `order` lists each position below `n` exactly once.
pub open spec fn is_arrangement(order: Seq<usize>, n: int) -> bool {
    &&& order.len() == n
    &&& forall|i: int| 0 <= i < n ==> (#[trigger] order[i]) < n
    &&& forall|i: int, j: int| 0 <= i < j < n ==> order[i] != order[j]
}

/// Following `order`, the keys never increase, and items with equal keys keep the
/// order they had.
pub open spec fn is_newest_first(keys: Seq<Seq<char>>, order: Seq<usize>) -> bool {
    &&& forall|i: int, j: int|
        0 <= i < j < order.len() ==> !lex_less(
            #[trigger] keys[order[i] as int],
            #[trigger] keys[order[j] as int],
        )
    &&& forall|i: int, j: int|
        0 <= i < j < order.len() && keys[order[i] as int] == keys[order[j] as int] ==> #[trigger] order[i]
            < #[trigger] order[j]
}

proof fn lemma_insert_keeps_order(keys: Seq<Seq<char>>, order: Seq<usize>, m: usize, p: int)
    requires
        m < keys.len(),
        is_arrangement(order, m as int),
        is_newest_first(keys, order),
        0 <= p <= order.len(),
        forall|q: int| 0 <= q < p ==> !lex_less(keys[#[trigger] order[q] as int], keys[m as int]),
        p < order.len() ==> lex_less(keys[order[p] as int], keys[m as int]),
    ensures
        is_arrangement(order.insert(p, m), m + 1),
        is_newest_first(keys, order.insert(p, m)),
{
    let o2 = order.insert(p, m);
    let km = keys[m as int];
    assert forall|i: int| 0 <= i < m + 1 implies (#[trigger] o2[i]) < m + 1 by {
        if i < p {
            assert(o2[i] == order[i]);
        } else if i > p {
            assert(o2[i] == order[i - 1]);
        }
    }
    assert forall|i: int, j: int| 0 <= i < j < m + 1 implies o2[i] != o2[j] by {
        if j < p {
            assert(o2[i] == order[i] && o2[j] == order[j]);
        } else if j == p {
            assert(o2[i] == order[i]);
        } else if i < p {
            assert(o2[i] == order[i] && o2[j] == order[j - 1]);
        } else if i == p {
            assert(o2[j] == order[j - 1]);
        } else {
            assert(o2[i] == order[i - 1] && o2[j] == order[j - 1]);
        }
    }
    // every key after the insertion point comes before the inserted one
    assert forall|q: int| p <= q < order.len() implies lex_less(
        #[trigger] keys[order[q] as int],
        km,
    ) by {
        if q > p {
            let a = keys[order[q] as int];
            let b = keys[order[p] as int];
            lemma_lex_trichotomy(a, b);
            if a != b {
                lemma_lex_transitive(a, b, km);
            }
        }
    }
    assert forall|i: int, j: int| 0 <= i < j < o2.len() implies !lex_less(
        #[trigger] keys[o2[i] as int],
        #[trigger] keys[o2[j] as int],
    ) && (keys[o2[i] as int] == keys[o2[j] as int] ==> o2[i] < o2[j]) by {
        if j < p {
            assert(o2[i] == order[i] && o2[j] == order[j]);
        } else if j == p {
            assert(o2[i] == order[i]);
        } else if i < p {
            assert(o2[i] == order[i] && o2[j] == order[j - 1]);
        } else if i == p {
            assert(o2[j] == order[j - 1]);
            let a = keys[order[j - 1] as int];
            lemma_lex_trichotomy(a, km);
        } else {
            assert(o2[i] == order[i - 1] && o2[j] == order[j - 1]);
        }
    }
}

/// The positions of `keys` in newest-first order: keys never increase along it, and
/// equal keys keep their order (a stable sort, largest key first).
pub fn newest_first_order(keys: &Vec<Vec<char>>) -> (order: Vec<usize>)
    ensures
        is_arrangement(order@, keys@.len() as int),
        is_newest_first(keys@.map_values(|k: Vec<char>| k@), order@),
{
    let ghost ks = keys@.map_values(|k: Vec<char>| k@);
    let mut order: Vec<usize> = Vec::new();
    let mut m: usize = 0;
    while m < keys.len()
        invariant
            m <= keys@.len(),
            ks == keys@.map_values(|k: Vec<char>| k@),
            is_arrangement(order@, m as int),
            is_newest_first(ks, order@),
        decreases keys.len() - m,
    {
        let mut p: usize = 0;
        while p < order.len()
            invariant
                m < keys@.len(),
                ks == keys@.map_values(|k: Vec<char>| k@),
                is_arrangement(order@, m as int),
                p <= order@.len(),
                forall|q: int|
                    0 <= q < p ==> !lex_less(ks[#[trigger] order@[q] as int], ks[m as int]),
            ensures
                p <= order@.len(),
                forall|q: int|
                    0 <= q < p ==> !lex_less(ks[#[trigger] order@[q] as int], ks[m as int]),
                p < order@.len() ==> lex_less(ks[order@[p as int] as int], ks[m as int]),
            decreases order.len() - p,
        {
            let o = order[p];
            if lex_less_exec(keys[o].as_slice(), keys[m].as_slice()) {
                break;
            }
            p += 1;
        }
        proof {
            lemma_insert_keeps_order(ks, order@, m, p as int);
        }
        order.insert(p, m);
        m += 1;
    }
    order
}

/// Following `order`, the keys never decrease, and items with equal keys keep the
/// order they had.
pub open spec fn is_ascending(keys: Seq<Seq<char>>, order: Seq<usize>) -> bool {
    &&& forall|i: int, j: int|
        0 <= i < j < order.len() ==> !lex_less(
            #[trigger] keys[order[j] as int],
            #[trigger] keys[order[i] as int],
        )
    &&& forall|i: int, j: int|
        0 <= i < j < order.len() && keys[order[i] as int] == keys[order[j] as int] ==> #[trigger] order[i]
            < #[trigger] order[j]
}

proof fn lemma_insert_keeps_ascending(keys: Seq<Seq<char>>, order: Seq<usize>, m: usize, p: int)
    requires
        m < keys.len(),
        is_arrangement(order, m as int),
        is_ascending(keys, order),
        0 <= p <= order.len(),
        forall|q: int| 0 <= q < p ==> !lex_less(keys[m as int], keys[#[trigger] order[q] as int]),
        p < order.len() ==> lex_less(keys[m as int], keys[order[p] as int]),
    ensures
        is_arrangement(order.insert(p, m), m + 1),
        is_ascending(keys, order.insert(p, m)),
{
    let o2 = order.insert(p, m);
    let km = keys[m as int];
    assert forall|i: int| 0 <= i < m + 1 implies (#[trigger] o2[i]) < m + 1 by {
        if i < p {
            assert(o2[i] == order[i]);
        } else if i > p {
            assert(o2[i] == order[i - 1]);
        }
    }
    assert forall|i: int, j: int| 0 <= i < j < m + 1 implies o2[i] != o2[j] by {
        if j < p {
            assert(o2[i] == order[i] && o2[j] == order[j]);
        } else if j == p {
            assert(o2[i] == order[i]);
        } else if i < p {
            assert(o2[i] == order[i] && o2[j] == order[j - 1]);
        } else if i == p {
            assert(o2[j] == order[j - 1]);
        } else {
            assert(o2[i] == order[i - 1] && o2[j] == order[j - 1]);
        }
    }
    // the inserted key comes before every key after the insertion point
    assert forall|q: int| p <= q < order.len() implies lex_less(
        km,
        #[trigger] keys[order[q] as int],
    ) by {
        if q > p {
            let a = keys[order[q] as int];
            let b = keys[order[p] as int];
            lemma_lex_trichotomy(a, b);
            if a != b {
                lemma_lex_transitive(km, b, a);
            }
        }
    }
    assert forall|i: int, j: int| 0 <= i < j < o2.len() implies !lex_less(
        #[trigger] keys[o2[j] as int],
        #[trigger] keys[o2[i] as int],
    ) && (keys[o2[i] as int] == keys[o2[j] as int] ==> o2[i] < o2[j]) by {
        if j < p {
            assert(o2[i] == order[i] && o2[j] == order[j]);
        } else if j == p {
            assert(o2[i] == order[i]);
        } else if i < p {
            assert(o2[i] == order[i] && o2[j] == order[j - 1]);
        } else if i == p {
            assert(o2[j] == order[j - 1]);
            let a = keys[order[j - 1] as int];
            lemma_lex_trichotomy(a, km);
        } else {
            assert(o2[i] == order[i - 1] && o2[j] == order[j - 1]);
        }
    }
}

/// The positions of `keys` in ascending order: keys never decrease along it, and
/// equal keys keep their order (a stable sort, smallest key first).
pub fn ascending_order(keys: &Vec<Vec<char>>) -> (order: Vec<usize>)
    ensures
        is_arrangement(order@, keys@.len() as int),
        is_ascending(keys@.map_values(|k: Vec<char>| k@), order@),
{
    let ghost ks = keys@.map_values(|k: Vec<char>| k@);
    let mut order: Vec<usize> = Vec::new();
    let mut m: usize = 0;
    while m < keys.len()
        invariant
            m <= keys@.len(),
            ks == keys@.map_values(|k: Vec<char>| k@),
            is_arrangement(order@, m as int),
            is_ascending(ks, order@),
        decreases keys.len() - m,
    {
        let mut p: usize = 0;
        while p < order.len()
            invariant
                m < keys@.len(),
                ks == keys@.map_values(|k: Vec<char>| k@),
                is_arrangement(order@, m as int),
                p <= order@.len(),
                forall|q: int|
                    0 <= q < p ==> !lex_less(ks[m as int], ks[#[trigger] order@[q] as int]),
            ensures
                p <= order@.len(),
                forall|q: int|
                    0 <= q < p ==> !lex_less(ks[m as int], ks[#[trigger] order@[q] as int]),
                p < order@.len() ==> lex_less(ks[m as int], ks[order@[p as int] as int]),
            decreases order.len() - p,
        {
            let o = order[p];
            if lex_less_exec(keys[m].as_slice(), keys[o].as_slice()) {
                break;
            }
            p += 1;
        }
        proof {
            lemma_insert_keeps_ascending(ks, order@, m, p as int);
        }
        order.insert(p, m);
        m += 1;
    }
    order
}

} // verus!
