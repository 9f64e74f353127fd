//! Byte-string prefix ranges: the exclusive end of the range that holds
//! exactly the keys sharing a given prefix.
use vstd::prelude::*;

verus! {

/// Every byte of `s` is `0xFF` (vacuously true of the empty string).
pub open spec fn all_ff(s: Seq<u8>) -> bool {
    forall|i: int| 0 <= i < s.len() ==> s[i] == 0xFFu8
}

/// The end of the prefix range of `s`: drop the trailing `0xFF` bytes and
/// increment the last remaining byte. Empty when no such byte is left,
/// which stands for "no upper bound".
pub open spec fn prefix_end(s: Seq<u8>) -> Seq<u8>
    decreases s.len(),
{
    if s.len() == 0 {
        Seq::empty()
    } else if s.last() < 0xFFu8 {
        s.drop_last().push((s.last() + 1) as u8)
    } else {
        prefix_end(s.drop_last())
    }
}

/// Lexicographic order on byte strings, as `Vec<u8>` compares: at the first
/// position where they differ `a` holds the smaller byte, or `a` is a proper
/// prefix of `b`.
pub open spec fn bytes_lt(a: Seq<u8>, b: Seq<u8>) -> bool {
    exists|i: int|
        0 <= i <= a.len() && i < b.len() && a.subrange(0, i) == b.subrange(0, i) && (i == a.len()
            || a[i] < b[i])
}

pub open spec fn bytes_le(a: Seq<u8>, b: Seq<u8>) -> bool {
    a == b || bytes_lt(a, b)
}

/// Where `p` is not all `0xFF`, its range end keeps the bytes before the
/// last byte `i` below `0xFF`, then holds that byte plus one.
proof fn lemma_prefix_end_shape(p: Seq<u8>) -> (i: int)
    requires
        !all_ff(p),
    ensures
        0 <= i < p.len(),
        p[i] < 0xFFu8,
        forall|j: int| i < j < p.len() ==> p[j] == 0xFFu8,
        prefix_end(p) == p.subrange(0, i).push((p[i] + 1) as u8),
    decreases p.len(),
{
    if p.last() < 0xFFu8 {
        assert(p.drop_last() == p.subrange(0, p.len() - 1));
        p.len() - 1
    } else {
        let q = p.drop_last();
        assert(!all_ff(q)) by {
            let j = choose|j: int| 0 <= j < p.len() && p[j] != 0xFFu8;
            assert(j < p.len() - 1);
            assert(q[j] == p[j]);
        }
        let i = lemma_prefix_end_shape(q);
        assert(q.subrange(0, i) == p.subrange(0, i));
        assert forall|j: int| i < j < p.len() implies p[j] == 0xFFu8 by {
            if j < q.len() {
                assert(q[j] == p[j]);
            }
        }
        i
    }
}

/// The first position below `n` at which `a` and `b` differ.
proof fn lemma_first_difference(a: Seq<u8>, b: Seq<u8>, n: int) -> (j: int)
    requires
        0 <= n <= a.len(),
        n <= b.len(),
        a.subrange(0, n) != b.subrange(0, n),
    ensures
        0 <= j < n,
        a[j] != b[j],
        a.subrange(0, j) == b.subrange(0, j),
    decreases n,
{
    if n == 0 {
        assert(a.subrange(0, 0) =~= b.subrange(0, 0));
    }
    assert(a.subrange(0, n) =~= a.subrange(0, n - 1).push(a[n - 1]));
    assert(b.subrange(0, n) =~= b.subrange(0, n - 1).push(b[n - 1]));
    if a.subrange(0, n - 1) == b.subrange(0, n - 1) {
        n - 1
    } else {
        lemma_first_difference(a, b, n - 1)
    }
}

/// Where `p` is not all `0xFF`, the half-open range `[p, prefix_end(p))`
/// holds exactly the byte strings that start with `p`: each of them lies in
/// it, and every other byte string lies below `p` or at or above the end.
pub proof fn lemma_prefix_range_exact(p: Seq<u8>, k: Seq<u8>)
    requires
        !all_ff(p),
    ensures
        p.is_prefix_of(k) ==> bytes_le(p, k) && bytes_lt(k, prefix_end(p)),
        !p.is_prefix_of(k) ==> bytes_lt(k, p) || bytes_le(prefix_end(p), k),
{
    let i = lemma_prefix_end_shape(p);
    let e = prefix_end(p);
    assert(e.len() == i + 1);
    assert(e.subrange(0, i) == p.subrange(0, i));
    if p.is_prefix_of(k) {
        assert(k.subrange(0, i) == p.subrange(0, i));
        assert(bytes_lt(k, e)) by {
            assert(k.subrange(0, i) == e.subrange(0, i));
        }
        if p != k {
            assert(p.len() < k.len()) by {
                assert(k.subrange(0, k.len() as int) =~= k);
            }
            assert(p.subrange(0, p.len() as int) == p);
            assert(bytes_lt(p, k));
        }
    } else {
        let m = if p.len() <= k.len() {
            p.len() as int
        } else {
            k.len() as int
        };
        if k.subrange(0, m) == p.subrange(0, m) {
            assert(k.len() < p.len()) by {
                if p.len() <= k.len() {
                    assert(p.subrange(0, p.len() as int) == p);
                }
            }
            assert(k.subrange(0, k.len() as int) == k);
            assert(bytes_lt(k, p));
        } else {
            let j = lemma_first_difference(k, p, m);
            if k[j] < p[j] {
                assert(bytes_lt(k, p));
            } else if j < i {
                assert(e.subrange(0, j) == p.subrange(0, j));
                assert(e[j] == p[j]);
                assert(bytes_lt(e, k));
            } else {
                assert(j == i);
                assert(e.subrange(0, i) == k.subrange(0, i));
                if k[i] != e[i] {
                    assert(bytes_lt(e, k));
                } else {
                    assert(e == k.subrange(0, i + 1));
                    if k.len() == i + 1 {
                        assert(k.subrange(0, i + 1) == k);
                    } else {
                        assert(e.subrange(0, e.len() as int) == e);
                        assert(bytes_lt(e, k));
                    }
                }
            }
        }
    }
}

/// No byte string is below itself, and of two byte strings at most one is
/// below the other.
pub proof fn lemma_bytes_lt_asymmetric(a: Seq<u8>, b: Seq<u8>)
    ensures
        !bytes_lt(a, a),
        bytes_lt(a, b) ==> !bytes_lt(b, a),
{
    if bytes_lt(a, b) && bytes_lt(b, a) {
        let i = choose|i: int|
            0 <= i <= a.len() && i < b.len() && a.subrange(0, i) == b.subrange(0, i) && (i
                == a.len() || a[i] < b[i]);
        let j = choose|j: int|
            0 <= j <= b.len() && j < a.len() && b.subrange(0, j) == a.subrange(0, j) && (j
                == b.len() || b[j] < a[j]);
        if i < j {
            assert(a.subrange(0, j)[i] == b.subrange(0, j)[i]);
        } else if j < i {
            assert(a.subrange(0, i)[j] == b.subrange(0, i)[j]);
        }
    }
}

/// Where `p` is not all `0xFF`, no byte string below `prefix_end(p)` is an
/// upper bound of the keys that start with `p`: the range end is the least
/// byte string above all of them.
pub proof fn lemma_prefix_end_least(p: Seq<u8>, b: Seq<u8>)
    requires
        !all_ff(p),
        bytes_lt(b, prefix_end(p)),
    ensures
        exists|k: Seq<u8>| p.is_prefix_of(k) && !bytes_lt(k, b),
{
    let e = prefix_end(p);
    lemma_prefix_range_exact(p, b);
    lemma_bytes_lt_asymmetric(b, b);
    lemma_bytes_lt_asymmetric(b, p);
    lemma_bytes_lt_asymmetric(b, e);
    if p.is_prefix_of(b) {
        assert(p.is_prefix_of(b) && !bytes_lt(b, b));
    } else {
        assert(p.is_prefix_of(p));
        assert(p.is_prefix_of(p) && !bytes_lt(p, b));
    }
}

/// Computes the exclusive end of the range of keys that start with `key`.
/// The result is empty when `key` holds only `0xFF` bytes (or nothing):
/// the range then has no upper bound.
pub fn get_prefix(key: Vec<u8>) -> (end: Vec<u8>)
    ensures
        end@ == prefix_end(key@),
        end@.len() == 0 <==> all_ff(key@),
{
    let mut end = key;
    let mut i: usize = end.len();
    assert(key@.subrange(0, i as int) == key@);
    while i > 0
        invariant
            i <= end.len(),
            end@ == key@,
            prefix_end(key@) == prefix_end(key@.subrange(0, i as int)),
            forall|j: int| i <= j < key@.len() ==> key@[j] == 0xFFu8,
        decreases i,
    {
        let b = end[i - 1];
        proof {
            let s = key@.subrange(0, i as int);
            assert(s.drop_last() =~= key@.subrange(0, i - 1));
        }
        if b < 0xFF {
            end.set(i - 1, b + 1);
            end.truncate(i);
            proof {
                let s = key@.subrange(0, i as int);
                assert(end@ == s.drop_last().push((s.last() + 1) as u8));
                assert(!all_ff(key@)) by {
                    assert(key@[i - 1] != 0xFFu8);
                }
            }
            return end;
        }
        i -= 1;
    }
    proof {
        assert(key@.subrange(0, 0) == Seq::<u8>::empty());
    }
    Vec::new()
}

} // verus!
