//! Big-endian interpretation of byte strings as unsigned integers, with the
//! comparison routines the scalar range check rests on.

use vstd::prelude::*;

verus! {

/// 256 raised to the power `n`.
pub open spec fn pow256(n: nat) -> nat
    decreases n,
{
    if n == 0 {
        1
    } else {
        256 * pow256((n - 1) as nat)
    }
}

/// The unsigned integer denoted by a byte string read big-endian.
pub open spec fn be_val(s: Seq<u8>) -> nat
    decreases s.len(),
{
    if s.len() == 0 {
        0nat
    } else {
        (s[0] as nat) * pow256((s.len() - 1) as nat) + be_val(s.drop_first())
    }
}

/// Powers of 256 are positive.
pub proof fn lemma_pow256_pos(n: nat)
    ensures
        pow256(n) >= 1,
    decreases n,
{
    if n > 0 {
        lemma_pow256_pos((n - 1) as nat);
    }
}

/// A byte string of length `n` denotes a value below `256^n`.
pub proof fn lemma_be_val_bound(s: Seq<u8>)
    ensures
        be_val(s) < pow256(s.len()),
    decreases s.len(),
{
    if s.len() == 0 {
    } else {
        let rest = s.drop_first();
        let p = pow256((s.len() - 1) as nat);
        lemma_be_val_bound(rest);
        lemma_pow256_pos((s.len() - 1) as nat);
        let d = s[0] as nat;
        assert(be_val(s) < d * p + p);
        assert(d * p + p == (d + 1) * p) by (nonlinear_arith);
        assert((d + 1) * p <= 256 * p) by (nonlinear_arith)
            requires
                d + 1 <= 256,
                p >= 1,
        ;
    }
}

/// If two equal-length byte strings agree before position `i` and the first
/// has the smaller byte there, it denotes the smaller value.
pub proof fn lemma_be_val_lt(a: Seq<u8>, b: Seq<u8>, i: int)
    requires
        a.len() == b.len(),
        0 <= i < a.len(),
        forall|k: int| 0 <= k < i ==> a[k] == b[k],
        a[i] < b[i],
    ensures
        be_val(a) < be_val(b),
    decreases i,
{
    let p = pow256((a.len() - 1) as nat);
    let ra = a.drop_first();
    let rb = b.drop_first();
    if i == 0 {
        lemma_be_val_bound(ra);
        lemma_pow256_pos((a.len() - 1) as nat);
        let da = a[0] as nat;
        let db = b[0] as nat;
        assert(be_val(a) < da * p + p);
        assert(da * p + p == (da + 1) * p) by (nonlinear_arith);
        assert((da + 1) * p <= db * p) by (nonlinear_arith)
            requires
                da + 1 <= db,
                p >= 1,
        ;
        assert(be_val(b) >= db * p);
    } else {
        assert(forall|k: int| 0 <= k < i - 1 ==> ra[k] == rb[k]);
        assert(ra[i - 1] < rb[i - 1]);
        lemma_be_val_lt(ra, rb, i - 1);
        assert(a[0] == b[0]);
    }
}

/// A byte string denotes zero exactly when every byte is zero.
pub proof fn lemma_be_val_zero(s: Seq<u8>)
    ensures
        (be_val(s) == 0) <==> (forall|i: int| 0 <= i < s.len() ==> s[i] == 0u8),
    decreases s.len(),
{
    if s.len() == 0 {
    } else {
        let rest = s.drop_first();
        lemma_be_val_zero(rest);
        lemma_pow256_pos((s.len() - 1) as nat);
        let p = pow256((s.len() - 1) as nat);
        let d = s[0] as nat;
        if d != 0 {
            assert(d * p >= 1 * p) by (nonlinear_arith)
                requires
                    d >= 1,
                    p >= 0,
            ;
            assert(be_val(s) != 0);
        } else {
            assert(d * p == 0) by (nonlinear_arith)
                requires
                    d == 0,
            ;
            assert(be_val(s) == be_val(rest));
            if be_val(s) == 0 {
                assert forall|i: int| 0 <= i < s.len() implies s[i] == 0u8 by {
                    if i > 0 {
                        assert(s[i] == rest[i - 1]);
                    }
                }
            } else {
                let w = choose|i: int| 0 <= i < rest.len() && rest[i] != 0u8;
                assert(s[w + 1] != 0u8);
            }
        }
    }
}

/// Whether every byte of `a` is zero, i.e. whether `a` denotes zero.
pub fn is_zero_bytes(a: &[u8]) -> (r: bool)
    ensures
        r == (be_val(a@) == 0),
{
    proof {
        lemma_be_val_zero(a@);
    }
    let n = a.len();
    let mut i: usize = 0;
    while i < n
        invariant
            n == a@.len(),
            i <= n,
            forall|k: int| 0 <= k < i ==> a@[k] == 0u8,
        decreases n - i,
    {
        if a[i] != 0 {
            proof {
                assert(a@[i as int] != 0u8);
                lemma_be_val_zero(a@);
            }
            return false;
        }
        i = i + 1;
    }
    true
}

/// Whether `a` denotes a strictly smaller value than `b`, for equal-length
/// byte strings.
pub fn lt_bytes(a: &[u8], b: &[u8]) -> (r: bool)
    requires
        a@.len() == b@.len(),
    ensures
        r == (be_val(a@) < be_val(b@)),
{
    let n = a.len();
    let mut i: usize = 0;
    while i < n
        invariant
            n == a@.len(),
            n == b@.len(),
            i <= n,
            forall|k: int| 0 <= k < i ==> a@[k] == b@[k],
        decreases n - i,
    {
        if a[i] < b[i] {
            proof {
                lemma_be_val_lt(a@, b@, i as int);
            }
            return true;
        }
        if a[i] > b[i] {
            proof {
                lemma_be_val_lt(b@, a@, i as int);
            }
            return false;
        }
        i = i + 1;
    }
    proof {
        assert(a@ =~= b@);
    }
    false
}

} // verus!
