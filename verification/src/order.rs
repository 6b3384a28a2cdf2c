use vstd::prelude::*;
use vstd::multiset::Multiset;
use vstd::relations::sorted_by;

use crate::types::dv_seq;
use crate::types::lemma_dv_index;
use crate::types::lemma_dv_insert;
use crate::types::lemma_dv_remove;

verus! {

// ---------------------------------------------------------------------------
// Lexicographic order on character sequences, and case folding.
// ---------------------------------------------------------------------------

/// Lexicographic order on character sequences, by code point.
pub open spec fn seq_char_le(a: Seq<char>, b: Seq<char>) -> bool
    decreases a.len(),
{
    if a.len() == 0 {
        true
    } else if b.len() == 0 {
        false
    } else if a[0] != b[0] {
        (a[0] as u32) < (b[0] as u32)
    } else {
        seq_char_le(a.drop_first(), b.drop_first())
    }
}

/// Any two character sequences are comparable.
pub proof fn lemma_seq_char_le_total(a: Seq<char>, b: Seq<char>)
    ensures
        seq_char_le(a, b) || seq_char_le(b, a),
    decreases a.len(),
{
    if a.len() == 0 || b.len() == 0 {
    } else if a[0] != b[0] {
        vstd::utf8::char_u32_cast(a[0], a[0] as u32);
        vstd::utf8::char_u32_cast(b[0], b[0] as u32);
        assert((a[0] as u32) != (b[0] as u32));
    } else {
        lemma_seq_char_le_total(a.drop_first(), b.drop_first());
    }
}

/// The lexicographic order is transitive.
pub proof fn lemma_seq_char_le_trans(a: Seq<char>, b: Seq<char>, c: Seq<char>)
    requires
        seq_char_le(a, b),
        seq_char_le(b, c),
    ensures
        seq_char_le(a, c),
    decreases a.len(),
{
    if a.len() == 0 {
    } else {
        // b and c are non-empty: a lexicographic suffix of a non-empty
        // sequence never precedes the empty one.
        if a[0] == b[0] && b[0] == c[0] {
            lemma_seq_char_le_trans(a.drop_first(), b.drop_first(), c.drop_first());
        }
    }
}

/// The case-folded form of a character sequence, as std computes it.
pub uninterp spec fn lower_of(s: Seq<char>) -> Seq<char>;

/// Relies on str::to_lowercase: the result depends on the characters alone.
#[verifier::external_body]
pub(crate) fn lowercase(s: &str) -> (r: String)
    ensures
        r@ == lower_of(s@),
{
    s.to_lowercase()
}

/// Decides the lexicographic order on two string slices.
pub fn str_le(a: &str, b: &str) -> (r: bool)
    ensures
        r == seq_char_le(a@, b@),
{
    let la = a.unicode_len();
    let lb = b.unicode_len();
    let mut i: usize = 0;
    proof {
        assert(a@.skip(0) =~= a@);
        assert(b@.skip(0) =~= b@);
    }
    loop
        invariant
            i <= la,
            i <= lb,
            la == a@.len(),
            lb == b@.len(),
            seq_char_le(a@, b@) == seq_char_le(a@.skip(i as int), b@.skip(i as int)),
        decreases la - i,
    {
        if i == la {
            proof {
                assert(a@.skip(i as int).len() == 0);
            }
            return true;
        }
        if i == lb {
            proof {
                assert(a@.skip(i as int).len() > 0);
                assert(b@.skip(i as int).len() == 0);
            }
            return false;
        }
        let ca = a.get_char(i);
        let cb = b.get_char(i);
        proof {
            let x = a@.skip(i as int);
            let y = b@.skip(i as int);
            assert(x[0] == a@[i as int]);
            assert(y[0] == b@[i as int]);
            assert(x.drop_first() =~= a@.skip(i + 1));
            assert(y.drop_first() =~= b@.skip(i + 1));
        }
        if ca != cb {
            return (ca as u32) < (cb as u32);
        }
        i += 1;
    }
}

/// Decides equality of two string slices, character by character.
pub fn str_eq(a: &str, b: &str) -> (r: bool)
    ensures
        r == (a@ == b@),
{
    let la = a.unicode_len();
    let lb = b.unicode_len();
    if la != lb {
        return false;
    }
    let mut i: usize = 0;
    while i < la
        invariant
            i <= la,
            la == a@.len(),
            la == b@.len(),
            forall|k: int| 0 <= k < i ==> a@[k] == b@[k],
        decreases la - i,
    {
        if a.get_char(i) != b.get_char(i) {
            return false;
        }
        i += 1;
    }
    proof {
        assert(a@ =~= b@);
    }
    true
}

/// Relies on String as FromIterator<char>: collecting characters yields
/// exactly that character sequence.
#[verifier::external_body]
pub(crate) fn chars_to_string(v: &Vec<char>) -> (r: String)
    ensures
        r@ == v@,
{
    v.iter().collect()
}

/// The characters of a string slice, as a vector.
pub fn string_to_chars(s: &str) -> (r: Vec<char>)
    ensures
        r@ == s@,
{
    let n = s.unicode_len();
    let mut r: Vec<char> = Vec::new();
    for i in 0..n
        invariant
            n == s@.len(),
            r@ == s@.take(i as int),
    {
        r.push(s.get_char(i));
        proof {
            assert(s@.take(i as int).push(s@[i as int]) =~= s@.take(i + 1));
        }
    }
    proof {
        assert(s@.take(n as int) =~= s@);
    }
    r
}

// ---------------------------------------------------------------------------
// A verified insertion sort, generic over the element type. The exec
// comparator must answer exactly as the spec relation `leq` does on the
// elements' deep views, and `leq` must be total and transitive.
// ---------------------------------------------------------------------------

/// Inserting an element at a position bounded by its order keeps a
/// sequence sorted.
proof fn lemma_sorted_insert<V>(s: Seq<V>, x: V, j: int, leq: spec_fn(V, V) -> bool)
    requires
        sorted_by(s, leq),
        0 <= j <= s.len(),
        forall|k: int| 0 <= k < j ==> leq(s[k], x),
        j < s.len() ==> leq(x, s[j]),
        forall|a: V, b: V, c: V| #[trigger] leq(a, b) && #[trigger] leq(b, c) ==> leq(a, c),
    ensures
        sorted_by(s.insert(j, x), leq),
{
    let t = s.insert(j, x);
    assert forall|p: int, q: int| 0 <= p < q < t.len() implies leq(t[p], t[q]) by {
        if p < j && q == j {
            assert(t[p] == s[p] && t[q] == x);
        } else if p == j && q > j {
            assert(t[p] == x && t[q] == s[q - 1]);
            if j < s.len() {
                assert(leq(x, s[j]));
                if q - 1 > j {
                    assert(leq(s[j], s[q - 1]));
                }
            }
        } else if p < j && q > j {
            assert(t[p] == s[p] && t[q] == s[q - 1]);
        } else if p > j && q > j {
            assert(t[p] == s[p - 1] && t[q] == s[q - 1]);
        } else if p < j && q < j {
            assert(t[p] == s[p] && t[q] == s[q]);
        }
    }
}

/// An order on a type's deep views, decided by executable comparison.
/// `key_le` must be total and transitive; `le` decides it.
pub trait SortOrder: DeepView + Sized {
    /// The order the sorted collection is arranged by.
    spec fn key_le(a: Self::V, b: Self::V) -> bool;

    /// Decides `key_le` on the deep views of two elements.
    fn le(&self, other: &Self) -> (r: bool)
        ensures
            r == Self::key_le(self.deep_view(), other.deep_view()),
    ;

    /// Any two values are comparable.
    proof fn lemma_total(a: Self::V, b: Self::V)
        ensures
            Self::key_le(a, b) || Self::key_le(b, a),
    ;

    /// The order is transitive.
    proof fn lemma_trans(a: Self::V, b: Self::V, c: Self::V)
        requires
            Self::key_le(a, b),
            Self::key_le(b, c),
        ensures
            Self::key_le(a, c),
    ;
}

/// `s` is sorted by the element type's order.
pub open spec fn sorted_le<T: SortOrder>(s: Seq<T::V>) -> bool {
    forall|i: int, j: int| 0 <= i < j < s.len() ==> #[trigger] T::key_le(s[i], s[j])
}

/// Strings are ordered lexicographically by code point.
impl SortOrder for String {
    open spec fn key_le(a: Seq<char>, b: Seq<char>) -> bool {
        seq_char_le(a, b)
    }

    fn le(&self, other: &Self) -> (r: bool) {
        str_le(self.as_str(), other.as_str())
    }

    proof fn lemma_total(a: Seq<char>, b: Seq<char>) {
        lemma_seq_char_le_total(a, b);
    }

    proof fn lemma_trans(a: Seq<char>, b: Seq<char>, c: Seq<char>) {
        lemma_seq_char_le_trans(a, b, c);
    }
}

/// Sorts `v` by the element type's order: the result is a permutation of
/// the input (equal deep views, with multiplicity) sorted by `key_le`.
pub(crate) fn sort_by_order<T: SortOrder>(v: Vec<T>) -> (r: Vec<T>)
    ensures
        dv_seq(r@).to_multiset() == dv_seq(v@).to_multiset(),
        sorted_le::<T>(dv_seq(r@)),
{
    broadcast use vstd::seq_lib::group_to_multiset_ensures;
    broadcast use vstd::multiset::group_multiset_axioms;

    let ghost leq = |a: T::V, b: T::V| T::key_le(a, b);
    let ghost total = dv_seq(v@).to_multiset();
    let mut src = v;
    let mut out: Vec<T> = Vec::new();
    proof {
        assert(dv_seq(out@).to_multiset().add(dv_seq(src@).to_multiset()) =~= total);
    }
    while src.len() > 0
        invariant
            leq == (|a: T::V, b: T::V| T::key_le(a, b)),
            dv_seq(out@).to_multiset().add(dv_seq(src@).to_multiset()) == total,
            sorted_by(dv_seq(out@), leq),
        decreases src.len(),
    {
        let ghost src_prev = src@;
        let x = src.remove(0);
        let ghost xv = x.deep_view();
        proof {
            lemma_dv_remove(src_prev, 0);
            lemma_dv_index(src_prev, 0);
            assert(dv_seq(src_prev)[0] == xv);
            assert(dv_seq(src_prev).contains(xv));
            vstd::seq_lib::to_multiset_contains(dv_seq(src_prev), xv);
            assert(dv_seq(src_prev).to_multiset().count(xv) > 0);
            vstd::seq_lib::to_multiset_remove(dv_seq(src_prev), 0);
            assert(dv_seq(src@).to_multiset() == dv_seq(src_prev).to_multiset().remove(xv));
            assert(dv_seq(src_prev).to_multiset() =~= dv_seq(src@).to_multiset().insert(xv));
        }
        let ghost out_prev = out@;
        let mut j: usize = 0;
        loop
            invariant
                out@ == out_prev,
                j <= out@.len(),
                x.deep_view() == xv,
                forall|k: int| 0 <= k < j ==> #[trigger] T::key_le(dv_seq(out@)[k], xv),
            ensures
                out@ == out_prev,
                j <= out@.len(),
                forall|k: int| 0 <= k < j ==> #[trigger] T::key_le(dv_seq(out@)[k], xv),
                j < out@.len() ==> !T::key_le(dv_seq(out@)[j as int], xv),
            decreases out@.len() - j,
        {
            if j == out.len() {
                break ;
            }
            let xr = &out[j];
            let c = xr.le(&x);
            proof {
                lemma_dv_index(out@, j as int);
                assert(*xr == out@[j as int]);
                assert(c == T::key_le(xr.deep_view(), x.deep_view()));
                assert(xr.deep_view() == out@[j as int].deep_view());
                assert(out@[j as int].deep_view() == dv_seq(out@)[j as int]);
                assert(x.deep_view() == xv);
                assert(c == T::key_le(dv_seq(out@)[j as int], xv));
            }
            if !c {
                break ;
            }
            j += 1;
        }
        proof {
            if j < out@.len() {
                T::lemma_total(dv_seq(out@)[j as int], xv);
                assert(T::key_le(xv, dv_seq(out@)[j as int]));
            }
        }
        out.insert(j, x);
        proof {
            lemma_dv_insert(out_prev, j as int, x);
            vstd::seq_lib::to_multiset_insert(dv_seq(out_prev), j as int, xv);
            assert forall|a: T::V, b: T::V, c: T::V|
                #[trigger] leq(a, b) && #[trigger] leq(b, c) implies leq(a, c) by {
                T::lemma_trans(a, b, c);
            }
            assert forall|k: int| 0 <= k < j implies leq(dv_seq(out_prev)[k], xv) by {}
            lemma_sorted_insert(dv_seq(out_prev), xv, j as int, leq);
            assert(dv_seq(out@).to_multiset().add(dv_seq(src@).to_multiset()) =~= total);
        }
    }
    proof {
        assert(dv_seq(src@).to_multiset() =~= Multiset::empty());
        assert(dv_seq(out@).to_multiset() =~= total);
        let s = dv_seq(out@);
        assert forall|p: int, q: int| 0 <= p < q < s.len() implies T::key_le(s[p], s[q]) by {
            assert(leq(s[p], s[q]));
        }
        assert(sorted_le::<T>(s));
    }
    out
}

} // verus!
