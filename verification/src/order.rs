//! Ordering of texts the way `Ord for str` orders them (lexicographically
//! by code point, which is the byte order of their UTF-8 encodings), and a
//! sort of a list of strings by that order.
use vstd::prelude::*;
use crate::text::{chars_of, same_text};

verus! {

broadcast use vstd::seq_lib::group_to_multiset_ensures;

/// `a` comes no later than `b`: at the first position where they differ
/// `a` has the smaller character, or `a` is a prefix of `b`.
pub open spec fn lex_le(a: Seq<char>, b: Seq<char>) -> bool
    decreases a.len(),
{
    if a.len() == 0 {
        true
    } else if b.len() == 0 {
        false
    } else if a[0] != b[0] {
        (a[0] as int) < (b[0] as int)
    } else {
        lex_le(a.drop_first(), b.drop_first())
    }
}

/// Any two texts are ordered one way or the other.
pub proof fn lemma_lex_total(a: Seq<char>, b: Seq<char>)
    ensures
        lex_le(a, b) || lex_le(b, a),
    decreases a.len(),
{
    if a.len() > 0 && b.len() > 0 && a[0] == b[0] {
        lemma_lex_total(a.drop_first(), b.drop_first());
    }
}

/// The order is transitive.
pub proof fn lemma_lex_trans(a: Seq<char>, b: Seq<char>, c: Seq<char>)
    requires
        lex_le(a, b),
        lex_le(b, c),
    ensures
        lex_le(a, c),
    decreases a.len(),
{
    if a.len() > 0 && b.len() > 0 && c.len() > 0 && a[0] == b[0] && b[0] == c[0] {
        lemma_lex_trans(a.drop_first(), b.drop_first(), c.drop_first());
    }
}

/// Texts ordered both ways are equal.
pub proof fn lemma_lex_antisym(a: Seq<char>, b: Seq<char>)
    requires
        lex_le(a, b),
        lex_le(b, a),
    ensures
        a == b,
    decreases a.len(),
{
    if a.len() > 0 {
        lemma_lex_antisym(a.drop_first(), b.drop_first());
        assert(a =~= seq![a[0]] + a.drop_first());
        assert(b =~= seq![b[0]] + b.drop_first());
    }
}

/// Whether `a` comes no later than `b` (see `lex_le`).
pub fn text_le(a: &str, b: &str) -> (r: bool)
    ensures
        r == lex_le(a@, b@),
{
    let x = chars_of(a);
    let y = chars_of(b);
    let mut i: usize = 0;
    assert(x@.skip(0) == x@);
    assert(y@.skip(0) == y@);
    while i < x.len() && i < y.len() && x[i] == y[i]
        invariant
            x@ == a@,
            y@ == b@,
            i <= x@.len(),
            i <= y@.len(),
            lex_le(x@.skip(i as int), y@.skip(i as int)) == lex_le(a@, b@),
        decreases x.len() - i,
    {
        assert(x@.skip(i as int).drop_first() =~= x@.skip(i + 1));
        assert(y@.skip(i as int).drop_first() =~= y@.skip(i + 1));
        i += 1;
    }
    if i == x.len() {
        true
    } else if i == y.len() {
        false
    } else {
        assert(x@.skip(i as int)[0] == x@[i as int]);
        assert(y@.skip(i as int)[0] == y@[i as int]);
        x[i] < y[i]
    }
}

/// The texts of a list of strings.
pub open spec fn texts(v: Seq<String>) -> Seq<Seq<char>> {
    v.map_values(|s: String| s@)
}

/// Every text comes no later than every text after it.
pub open spec fn sorted(s: Seq<Seq<char>>) -> bool {
    forall|i: int, j: int| 0 <= i < j < s.len() ==> lex_le(#[trigger] s[i], #[trigger] s[j])
}

/// Sorts `v` by `lex_le`: afterwards it holds the same texts, each as
/// often as before, in order (what `slice::sort` does for strings).
pub fn sort_texts(v: &mut Vec<String>)
    ensures
        sorted(texts(final(v)@)),
        texts(final(v)@).to_multiset() == texts(old(v)@).to_multiset(),
{
    let n = v.len();
    if n == 0 {
        return;
    }
    let mut i: usize = 1;
    while i < n
        invariant
            v@.len() == n,
            1 <= i <= n,
            sorted(texts(v@).take(i as int)),
            texts(v@).to_multiset() == texts(old(v)@).to_multiset(),
        decreases n - i,
    {
        let ghost before = texts(v@);
        let x = v.remove(i);
        let ghost after_remove = texts(v@);
        assert(after_remove =~= before.remove(i as int));
        let mut p: usize = 0;
        while p < i && text_le(v[p].as_str(), x.as_str())
            invariant
                v@.len() == n - 1,
                i < n,
                p <= i,
                texts(v@) == after_remove,
                forall|k: int| 0 <= k < p ==> lex_le(#[trigger] texts(v@)[k], x@),
            decreases i - p,
        {
            p += 1;
        }
        v.insert(p, x);
        proof {
            let s = texts(v@);
            assert(s =~= after_remove.insert(p as int, x@));
            let old_pre = before.take(i as int);
            assert forall|a: int, b: int| 0 <= a < b < i + 1 implies lex_le(
                #[trigger] s.take(i + 1)[a],
                #[trigger] s.take(i + 1)[b],
            ) by {
                let t = s.take(i + 1);
                if b < p {
                    assert(t[a] == old_pre[a]);
                    assert(t[b] == old_pre[b]);
                } else if b == p {
                    assert(t[b] == x@);
                    assert(t[a] == after_remove[a]);
                } else if a == p {
                    assert(t[a] == x@);
                    assert(t[b] == old_pre[b - 1]);
                    assert(p < i);
                    assert(!lex_le(after_remove[p as int], x@));
                    lemma_lex_total(after_remove[p as int], x@);
                    assert(after_remove[p as int] == old_pre[p as int]);
                    if b - 1 > p {
                        lemma_lex_trans(x@, old_pre[p as int], old_pre[b - 1]);
                    }
                } else if a < p {
                    assert(t[a] == old_pre[a]);
                    assert(t[b] == old_pre[b - 1]);
                } else {
                    assert(t[a] == old_pre[a - 1]);
                    assert(t[b] == old_pre[b - 1]);
                }
            }
            assert(sorted(s.take(i + 1)));
        }
        i += 1;
    }
    assert(texts(v@).take(n as int) =~= texts(v@));
}

/// Position of the first text in `s` equal to `t`.
pub open spec fn index_of(s: Seq<Seq<char>>, t: Seq<char>) -> Option<int>
    decreases s.len(),
{
    if s.len() == 0 {
        None
    } else {
        match index_of(s.drop_last(), t) {
            Some(i) => Some(i),
            None => if s.last() == t {
                Some(s.len() - 1)
            } else {
                None
            },
        }
    }
}

/// `index_of` is the least position holding `t`, if any holds it.
pub proof fn lemma_index_of(s: Seq<Seq<char>>, t: Seq<char>)
    ensures
        match index_of(s, t) {
            Some(i) => 0 <= i < s.len() && s[i] == t && forall|j: int| 0 <= j < i ==> #[trigger] s[j] != t,
            None => forall|j: int| 0 <= j < s.len() ==> #[trigger] s[j] != t,
        },
    decreases s.len(),
{
    if s.len() > 0 {
        lemma_index_of(s.drop_last(), t);
        assert(forall|j: int| 0 <= j < s.len() - 1 ==> s.drop_last()[j] == s[j]);
    }
}

/// The position of the first string in `v` whose text is `t`.
pub fn find_text(v: &Vec<String>, t: &str) -> (res: Option<usize>)
    ensures
        match res {
            Some(i) => index_of(texts(v@), t@) == Some(i as int),
            None => index_of(texts(v@), t@) is None,
        },
{
    proof {
        lemma_index_of(texts(v@), t@);
    }
    let mut i: usize = 0;
    while i < v.len()
        invariant
            i <= v@.len(),
            forall|j: int| 0 <= j < i ==> #[trigger] texts(v@)[j] != t@,
        decreases v.len() - i,
    {
        assert(texts(v@)[i as int] == v@[i as int]@);
        if same_text(v[i].as_str(), t) {
            proof {
                lemma_index_of(texts(v@), t@);
            }
            return Some(i);
        }
        i += 1;
    }
    proof {
        lemma_index_of(texts(v@), t@);
    }
    None
}

} // verus!
