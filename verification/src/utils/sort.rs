use vstd::prelude::*;

verus! {

broadcast use vstd::seq_lib::group_to_multiset_ensures;

/// A type whose values are ordered by an integer key.
pub trait SortKey {
    /// The key by which values are ordered.
    spec fn sort_key(&self) -> int;

    /// Whether `self` orders strictly before `other`.
    fn key_lt(&self, other: &Self) -> (r: bool)
        ensures
            r == (self.sort_key() < other.sort_key()),
    ;
}

impl SortKey for u32 {
    open spec fn sort_key(&self) -> int {
        *self as int
    }

    fn key_lt(&self, other: &Self) -> (r: bool) {
        *self < *other
    }
}

/// The keys of `s` never decrease.
pub open spec fn is_sorted_by_key<T: SortKey>(s: Seq<T>) -> bool {
    forall|i: int, j: int| 0 <= i < j < s.len() ==> (#[trigger] s[i]).sort_key() <= (#[trigger] s[j]).sort_key()
}

/// Sort the provided sequence by the key of its elements.
///
/// The result is ascending by key and holds the same elements, each as many
/// times as before.
pub fn sort_unstable_by<T: SortKey + Copy>(v: &mut Vec<T>)
    ensures
        final(v)@.to_multiset() == old(v)@.to_multiset(),
        is_sorted_by_key(final(v)@),
{
    let ghost input = v@;
    let mut out: Vec<T> = Vec::new();
    let mut i: usize = 0;
    while i < v.len()
        invariant
            v@ == input,
            i <= v.len(),
            is_sorted_by_key(out@),
            out@.to_multiset() == input.take(i as int).to_multiset(),
        decreases v.len() - i,
    {
        let x = v[i];
        // The insertion position: after every element whose key is not
        // greater than that of `x`.
        let mut p: usize = 0;
        while p < out.len() && !x.key_lt(&out[p])
            invariant
                is_sorted_by_key(out@),
                p <= out.len(),
                forall|k: int| 0 <= k < p ==> (#[trigger] out@[k]).sort_key() <= x.sort_key(),
            decreases out.len() - p,
        {
            p += 1;
        }
        let ghost old_out = out@;
        out.insert(p, x);
        proof {
            assert(old_out.insert(p as int, x) == old_out.subrange(0, p as int).push(x) + old_out.subrange(p as int, old_out.len() as int));
            vstd::seq_lib::lemma_multiset_commutative(old_out.subrange(0, p as int).push(x), old_out.subrange(p as int, old_out.len() as int));
            vstd::seq_lib::lemma_multiset_commutative(old_out.subrange(0, p as int), old_out.subrange(p as int, old_out.len() as int));
            assert(old_out.subrange(0, p as int) + old_out.subrange(p as int, old_out.len() as int) =~= old_out);
            assert(input.take(i as int + 1) =~= input.take(i as int).push(x));
            assert forall|a: int, b: int| 0 <= a < b < out.len() implies (#[trigger] out@[a]).sort_key()
                <= (#[trigger] out@[b]).sort_key() by {
                if b < p {
                    assert(out@[a] == old_out[a] && out@[b] == old_out[b]);
                } else if b == p {
                    assert(out@[a] == old_out[a]);
                } else if a == p {
                    assert(out@[b] == old_out[b - 1]);
                    if p < old_out.len() {
                        assert(old_out[p as int].sort_key() > x.sort_key());
                        assert(old_out[p as int].sort_key() <= old_out[b - 1].sort_key() || p == b - 1);
                    }
                } else if a < p {
                    assert(out@[a] == old_out[a] && out@[b] == old_out[b - 1]);
                } else {
                    assert(out@[a] == old_out[a - 1] && out@[b] == old_out[b - 1]);
                }
            }
        }
        i += 1;
    }
    proof {
        assert(input.take(input.len() as int) =~= input);
    }
    *v = out;
}

} // verus!
