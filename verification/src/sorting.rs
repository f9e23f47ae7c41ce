//! Stable sorting by a key made of a number and a text, compared in that order.

use vstd::prelude::*;

verus! {

/// A sort key: first a number, then a text compared character by character.
pub struct SortKey {
    pub rank: i128,
    pub text: Vec<char>,
}

impl View for SortKey {
    type V = (int, Seq<char>);

    open spec fn view(&self) -> (int, Seq<char>) {
        (self.rank as int, self.text@)
    }
}

/// Lexicographic order of texts by code point, which is the order of their UTF-8 bytes.
pub open spec fn text_le(a: Seq<char>, b: Seq<char>) -> bool
    decreases a.len(),
{
    if a.len() == 0 {
        true
    } else if b.len() == 0 {
        false
    } else if a[0] != b[0] {
        (a[0] as int) < (b[0] as int)
    } else {
        text_le(a.drop_first(), b.drop_first())
    }
}

/// Order of keys: by number, then by text.
pub open spec fn key_le(a: (int, Seq<char>), b: (int, Seq<char>)) -> bool {
    a.0 < b.0 || (a.0 == b.0 && text_le(a.1, b.1))
}

/// A keyed entry as the specifications see it.
pub type Keyed<V> = ((int, Seq<char>), V);

/// The keyed entries of `s`, each key and item taken by its view.
pub open spec fn keyed_view<T: View>(s: Seq<(SortKey, T)>) -> Seq<Keyed<T::V>> {
    Seq::new(s.len(), |i: int| (s[i].0@, s[i].1@))
}

/// `x` placed after the leading entries whose key is not above its own.
pub open spec fn insert_sorted<V>(s: Seq<Keyed<V>>, x: Keyed<V>) -> Seq<Keyed<V>>
    decreases s.len(),
{
    if s.len() == 0 {
        seq![x]
    } else if key_le(s[0].0, x.0) {
        seq![s[0]] + insert_sorted(s.drop_first(), x)
    } else {
        seq![x] + s
    }
}

/// Stable sort of `s` by key: insertion of each entry, in order, into the sorted prefix.
pub open spec fn sort_stable<V>(s: Seq<Keyed<V>>) -> Seq<Keyed<V>>
    decreases s.len(),
{
    if s.len() == 0 {
        s
    } else {
        insert_sorted(sort_stable(s.drop_last()), s.last())
    }
}

/// Compare two texts in code point order.
pub fn text_le_exec(a: &Vec<char>, b: &Vec<char>) -> (r: bool)
    ensures
        r == text_le(a@, b@),
{
    let mut i: usize = 0;
    assert(a@.subrange(0, a.len() as int) == a@);
    assert(b@.subrange(0, b.len() as int) == b@);
    while i < a.len() && i < b.len() && a[i] == b[i]
        invariant
            i <= a.len(),
            i <= b.len(),
            text_le(a@, b@) == text_le(a@.subrange(i as int, a.len() as int), b@.subrange(i as int, b.len() as int)),
        decreases a.len() - i,
    {
        assert(a@.subrange(i as int, a.len() as int).drop_first() == a@.subrange(i + 1, a.len() as int));
        assert(b@.subrange(i as int, b.len() as int).drop_first() == b@.subrange(i + 1, b.len() as int));
        i = i + 1;
    }
    if i == a.len() {
        true
    } else if i == b.len() {
        false
    } else {
        assert(a@.subrange(i as int, a.len() as int)[0] == a@[i as int]);
        assert(b@.subrange(i as int, b.len() as int)[0] == b@[i as int]);
        a[i] < b[i]
    }
}

/// Compare two keys.
pub fn key_le_exec(a: &SortKey, b: &SortKey) -> (r: bool)
    ensures
        r == key_le(a@, b@),
{
    if a.rank < b.rank {
        true
    } else if a.rank == b.rank {
        text_le_exec(&a.text, &b.text)
    } else {
        false
    }
}

proof fn lemma_insert_at<V>(s: Seq<Keyed<V>>, x: Keyed<V>, p: int)
    requires
        0 <= p <= s.len(),
        forall|i: int| 0 <= i < p ==> key_le(#[trigger] s[i].0, x.0),
        p < s.len() ==> !key_le(s[p].0, x.0),
    ensures
        insert_sorted(s, x) == s.take(p) + seq![x] + s.skip(p),
    decreases p,
{
    if p == 0 {
        if s.len() > 0 {
            assert(s.skip(0) == s);
        }
        assert(s.take(0) + seq![x] + s.skip(0) == seq![x] + s);
    } else {
        let t = s.drop_first();
        assert forall|i: int| 0 <= i < p - 1 implies key_le(#[trigger] t[i].0, x.0) by {
            assert(t[i] == s[i + 1]);
        }
        lemma_insert_at(t, x, p - 1);
        assert(s.take(p) == seq![s[0]] + t.take(p - 1));
        assert(s.skip(p) == t.skip(p - 1));
        assert(s.take(p) + seq![x] + s.skip(p) == seq![s[0]] + (t.take(p - 1) + seq![x] + t.skip(p - 1)));
    }
}

/// Sort `v` stably by key.
pub fn sort_by_key<T: View>(v: Vec<(SortKey, T)>) -> (r: Vec<(SortKey, T)>)
    ensures
        keyed_view(r@) == sort_stable(keyed_view(v@)),
{
    let mut input = v;
    let ghost orig = keyed_view(input@);
    let mut out: Vec<(SortKey, T)> = Vec::new();
    let n = input.len();
    let mut k: usize = 0;
    assert(keyed_view(out@) == orig.take(0));
    while k < n
        invariant
            n == orig.len(),
            k <= n,
            input.len() == n - k,
            keyed_view(input@) == orig.skip(k as int),
            keyed_view(out@) == sort_stable(orig.take(k as int)),
        decreases n - k,
    {
        let ghost before_input = input@;
        let x = input.remove(0);
        assert(keyed_view(before_input)[0] == orig[k as int]);
        assert(keyed_view(input@) =~= keyed_view(before_input).drop_first());
        assert(orig.skip(k as int).drop_first() =~= orig.skip(k + 1));
        let ghost xv: Keyed<T::V> = (x.0@, x.1@);
        let mut p: usize = 0;
        while p < out.len() && key_le_exec(&out[p].0, &x.0)
            invariant
                p <= out.len(),
                xv == (x.0@, x.1@),
                forall|i: int| 0 <= i < p ==> key_le(#[trigger] keyed_view(out@)[i].0, xv.0),
            decreases out.len() - p,
        {
            p = p + 1;
        }
        let ghost before = out@;
        proof {
            lemma_insert_at(keyed_view(before), xv, p as int);
            assert(orig.take(k + 1).drop_last() == orig.take(k as int));
            assert(orig.take(k + 1).last() == xv);
        }
        out.insert(p, x);
        assert(keyed_view(out@) == keyed_view(before).take(p as int) + seq![xv] + keyed_view(before).skip(p as int));
        k = k + 1;
    }
    assert(orig.take(n as int) == orig);
    out
}


/// Entries of `s` are in key order.
pub open spec fn keys_sorted<V>(s: Seq<Keyed<V>>) -> bool {
    forall|i: int, j: int| 0 <= i < j < s.len() ==> key_le(#[trigger] s[i].0, #[trigger] s[j].0)
}

/// Any two texts are ordered one way or the other.
pub proof fn lemma_text_le_total(a: Seq<char>, b: Seq<char>)
    ensures
        text_le(a, b) || text_le(b, a),
    decreases a.len(),
{
    if a.len() > 0 && b.len() > 0 {
        if a[0] == b[0] {
            lemma_text_le_total(a.drop_first(), b.drop_first());
        } else {
            assert(a[0] as int != b[0] as int);
        }
    }
}

/// Every text is ordered before itself.
pub proof fn lemma_text_le_refl(a: Seq<char>)
    ensures
        text_le(a, a),
    decreases a.len(),
{
    if a.len() > 0 {
        lemma_text_le_refl(a.drop_first());
    }
}

/// The order of texts is transitive.
pub proof fn lemma_text_le_transitive(a: Seq<char>, b: Seq<char>, c: Seq<char>)
    requires
        text_le(a, b),
        text_le(b, c),
    ensures
        text_le(a, c),
    decreases a.len(),
{
    if a.len() > 0 && b.len() > 0 && c.len() > 0 && a[0] == b[0] && b[0] == c[0] {
        lemma_text_le_transitive(a.drop_first(), b.drop_first(), c.drop_first());
    }
}

/// Any two keys are ordered one way or the other.
pub proof fn lemma_key_le_total(a: (int, Seq<char>), b: (int, Seq<char>))
    ensures
        key_le(a, b) || key_le(b, a),
{
    lemma_text_le_total(a.1, b.1);
}

/// The order of keys is transitive.
pub proof fn lemma_key_le_transitive(a: (int, Seq<char>), b: (int, Seq<char>), c: (int, Seq<char>))
    requires
        key_le(a, b),
        key_le(b, c),
    ensures
        key_le(a, c),
{
    if a.0 == b.0 && b.0 == c.0 {
        lemma_text_le_transitive(a.1, b.1, c.1);
    }
}

/// Insertion adds exactly the inserted entry.
pub proof fn lemma_insert_multiset<V>(s: Seq<Keyed<V>>, x: Keyed<V>)
    ensures
        insert_sorted(s, x).to_multiset() =~= s.to_multiset().insert(x),
    decreases s.len(),
{
    broadcast use vstd::seq_lib::group_to_multiset_ensures, vstd::multiset::group_multiset_axioms;

    if s.len() == 0 {
        assert(seq![x] == Seq::<Keyed<V>>::empty().push(x));
        assert(s == Seq::<Keyed<V>>::empty());
    } else if key_le(s[0].0, x.0) {
        lemma_insert_multiset(s.drop_first(), x);
        vstd::seq_lib::lemma_multiset_commutative(seq![s[0]], insert_sorted(s.drop_first(), x));
        vstd::seq_lib::lemma_multiset_commutative(seq![s[0]], s.drop_first());
        assert(seq![s[0]] + s.drop_first() == s);
    } else {
        vstd::seq_lib::lemma_multiset_commutative(seq![x], s);
        assert(seq![x] == Seq::<Keyed<V>>::empty().push(x));
    }
}

/// Sorting keeps exactly the entries it is given.
pub proof fn lemma_sort_multiset<V>(s: Seq<Keyed<V>>)
    ensures
        sort_stable(s).to_multiset() =~= s.to_multiset(),
    decreases s.len(),
{
    broadcast use vstd::seq_lib::group_to_multiset_ensures;

    if s.len() > 0 {
        lemma_sort_multiset(s.drop_last());
        lemma_insert_multiset(sort_stable(s.drop_last()), s.last());
        assert(s.drop_last().push(s.last()) == s);
    }
}

/// An entry of a sorted sequence is an entry of the input.
pub proof fn lemma_sort_member<V>(s: Seq<Keyed<V>>, k: int)
    requires
        0 <= k < sort_stable(s).len(),
    ensures
        s.contains(sort_stable(s)[k]),
{
    broadcast use vstd::seq_lib::group_to_multiset_ensures;

    lemma_sort_multiset(s);
    assert(sort_stable(s).contains(sort_stable(s)[k]));
    assert(sort_stable(s).to_multiset().count(sort_stable(s)[k]) > 0);
    assert(s.to_multiset().count(sort_stable(s)[k]) > 0);
}

/// Inserting into a sorted sequence keeps it sorted.
pub proof fn lemma_insert_sorted_order<V>(s: Seq<Keyed<V>>, x: Keyed<V>)
    requires
        keys_sorted(s),
    ensures
        keys_sorted(insert_sorted(s, x)),
    decreases s.len(),
{
    broadcast use vstd::seq_lib::group_to_multiset_ensures, vstd::multiset::group_multiset_axioms;

    if s.len() == 0 {
    } else if key_le(s[0].0, x.0) {
        let t = s.drop_first();
        assert(keys_sorted(t)) by {
            assert forall|i: int, j: int| 0 <= i < j < t.len() implies key_le(#[trigger] t[i].0, #[trigger] t[j].0) by {
                assert(t[i] == s[i + 1] && t[j] == s[j + 1]);
            }
        }
        lemma_insert_sorted_order(t, x);
        lemma_insert_multiset(t, x);
        let r = insert_sorted(t, x);
        assert forall|j: int| 0 <= j < r.len() implies key_le(s[0].0, #[trigger] r[j].0) by {
            assert(r.contains(r[j]));
            assert(r.to_multiset().count(r[j]) > 0);
            if r[j] != x {
                assert(t.to_multiset().count(r[j]) > 0);
                let m = choose|m: int| 0 <= m < t.len() && t[m] == r[j];
                assert(s[m + 1] == t[m]);
            }
        }
        let whole = seq![s[0]] + r;
        assert forall|i: int, j: int| 0 <= i < j < whole.len() implies key_le(#[trigger] whole[i].0, #[trigger] whole[j].0) by {
            if i == 0 {
                assert(whole[j] == r[j - 1]);
            } else {
                assert(whole[i] == r[i - 1] && whole[j] == r[j - 1]);
            }
        }
    } else {
        lemma_key_le_total(s[0].0, x.0);
        let whole = seq![x] + s;
        assert forall|i: int, j: int| 0 <= i < j < whole.len() implies key_le(#[trigger] whole[i].0, #[trigger] whole[j].0) by {
            if i == 0 {
                assert(whole[j] == s[j - 1]);
                if j > 1 {
                    lemma_key_le_transitive(x.0, s[0].0, s[j - 1].0);
                }
            } else {
                assert(whole[i] == s[i - 1] && whole[j] == s[j - 1]);
            }
        }
    }
}

/// Sorting puts the entries in key order.
pub proof fn lemma_sort_order<V>(s: Seq<Keyed<V>>)
    ensures
        keys_sorted(sort_stable(s)),
    decreases s.len(),
{
    if s.len() > 0 {
        lemma_sort_order(s.drop_last());
        lemma_insert_sorted_order(sort_stable(s.drop_last()), s.last());
    }
}


/// The entries of `s` whose key is `k`, in order.
pub open spec fn with_key<V>(s: Seq<Keyed<V>>, k: (int, Seq<char>)) -> Seq<Keyed<V>>
    decreases s.len(),
{
    if s.len() == 0 {
        s
    } else if s.last().0 == k {
        with_key(s.drop_last(), k).push(s.last())
    } else {
        with_key(s.drop_last(), k)
    }
}

/// Picking the entries of one key distributes over concatenation.
pub proof fn lemma_with_key_concat<V>(a: Seq<Keyed<V>>, b: Seq<Keyed<V>>, k: (int, Seq<char>))
    ensures
        with_key(a + b, k) == with_key(a, k) + with_key(b, k),
    decreases b.len(),
{
    if b.len() == 0 {
        assert(a + b == a);
        assert(with_key(a, k) + with_key(b, k) == with_key(a, k));
    } else {
        lemma_with_key_concat(a, b.drop_last(), k);
        assert((a + b).drop_last() == a + b.drop_last());
        assert((a + b).last() == b.last());
        if b.last().0 == k {
            assert(with_key(a, k) + with_key(b.drop_last(), k).push(b.last())
                == (with_key(a, k) + with_key(b.drop_last(), k)).push(b.last()));
        }
    }
}

proof fn lemma_with_key_none<V>(s: Seq<Keyed<V>>, k: (int, Seq<char>))
    requires
        forall|j: int| 0 <= j < s.len() ==> (#[trigger] s[j]).0 != k,
    ensures
        with_key(s, k) == Seq::<Keyed<V>>::empty(),
    decreases s.len(),
{
    if s.len() > 0 {
        lemma_with_key_none(s.drop_last(), k);
    }
}

proof fn lemma_with_key_single<V>(x: Keyed<V>, k: (int, Seq<char>))
    ensures
        with_key(seq![x], k) == (if x.0 == k { seq![x] } else { Seq::<Keyed<V>>::empty() }),
{
    assert(seq![x].drop_last() == Seq::<Keyed<V>>::empty());
    assert(seq![x].last() == x);
    assert(with_key(Seq::<Keyed<V>>::empty(), k) == Seq::<Keyed<V>>::empty());
    if x.0 == k {
        assert(Seq::<Keyed<V>>::empty().push(x) == seq![x]);
    }
}

/// Inserting into a sorted sequence puts the new entry after the entries of its key.
proof fn lemma_insert_with_key<V>(t: Seq<Keyed<V>>, x: Keyed<V>, k: (int, Seq<char>))
    requires
        keys_sorted(t),
    ensures
        with_key(insert_sorted(t, x), k) == (if x.0 == k { with_key(t, k).push(x) } else { with_key(t, k) }),
    decreases t.len(),
{
    if t.len() == 0 {
        lemma_with_key_single(x, k);
        assert(with_key(t, k) == Seq::<Keyed<V>>::empty());
        if x.0 == k {
            assert(Seq::<Keyed<V>>::empty().push(x) == seq![x]);
        }
    } else if key_le(t[0].0, x.0) {
        let rest = t.drop_first();
        assert(keys_sorted(rest)) by {
            assert forall|i: int, j: int| 0 <= i < j < rest.len() implies key_le(#[trigger] rest[i].0, #[trigger] rest[j].0) by {
                assert(rest[i] == t[i + 1] && rest[j] == t[j + 1]);
            }
        }
        lemma_insert_with_key(rest, x, k);
        lemma_with_key_concat(seq![t[0]], insert_sorted(rest, x), k);
        lemma_with_key_concat(seq![t[0]], rest, k);
        lemma_with_key_single(t[0], k);
        assert(seq![t[0]] + rest == t);
        if x.0 == k {
            assert(with_key(seq![t[0]], k) + with_key(rest, k).push(x)
                == (with_key(seq![t[0]], k) + with_key(rest, k)).push(x));
        }
    } else {
        lemma_with_key_concat(seq![x], t, k);
        lemma_with_key_single(x, k);
        if x.0 == k {
            assert forall|j: int| 0 <= j < t.len() implies (#[trigger] t[j]).0 != k by {
                if t[j].0 == k {
                    if j > 0 {
                        assert(key_le(t[0].0, t[j].0));
                    } else {
                        lemma_text_le_refl(x.0.1);
                    }
                }
            }
            lemma_with_key_none(t, k);
            assert(seq![x] + Seq::<Keyed<V>>::empty() == Seq::<Keyed<V>>::empty().push(x));
        } else {
            assert(Seq::<Keyed<V>>::empty() + with_key(t, k) == with_key(t, k));
        }
    }
}

/// The sort is stable: the entries of each key keep their order.
pub proof fn lemma_sort_with_key<V>(s: Seq<Keyed<V>>, k: (int, Seq<char>))
    ensures
        with_key(sort_stable(s), k) == with_key(s, k),
    decreases s.len(),
{
    if s.len() > 0 {
        lemma_sort_with_key(s.drop_last(), k);
        lemma_sort_order(s.drop_last());
        lemma_insert_with_key(sort_stable(s.drop_last()), s.last(), k);
    }
}

} // verus!
