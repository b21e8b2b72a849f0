//! Cyclic rotation of a few chosen cells of a fixed-size array, the one
//! mutation primitive every puzzle move is built from.

use vstd::prelude::*;

verus! {

/// `cycle3(s, i, j, k)` moves `s[j]` into cell `i`, `s[k]` into cell `j`,
/// and `s[i]` into cell `k`; every other cell keeps its value.
pub open spec fn cycle3<T>(s: Seq<T>, i: int, j: int, k: int) -> Seq<T> {
    s.update(i, s[j]).update(j, s[k]).update(k, s[i])
}

/// `cycle4(s, i, j, k, l)` moves `s[j]` into cell `i`, `s[k]` into cell `j`,
/// `s[l]` into cell `k`, and `s[i]` into cell `l`.
pub open spec fn cycle4<T>(s: Seq<T>, i: int, j: int, k: int, l: int) -> Seq<T> {
    s.update(i, s[j]).update(j, s[k]).update(k, s[l]).update(l, s[i])
}

/// Rotates three distinct cells of `a` one step, as `cycle3` describes.
pub fn rotate3<T: Copy, const N: usize>(a: &mut [T; N], i: usize, j: usize, k: usize)
    requires
        i < N,
        j < N,
        k < N,
        i != j,
        j != k,
        i != k,
    ensures
        final(a)@ == cycle3(old(a)@, i as int, j as int, k as int),
{
    let vi = a[i];
    let vj = a[j];
    let vk = a[k];
    a[i] = vj;
    a[j] = vk;
    a[k] = vi;
}

/// Rotates four distinct cells of `a` one step, as `cycle4` describes.
pub fn rotate4<T: Copy, const N: usize>(a: &mut [T; N], i: usize, j: usize, k: usize, l: usize)
    requires
        i < N,
        j < N,
        k < N,
        l < N,
        i != j,
        i != k,
        i != l,
        j != k,
        j != l,
        k != l,
    ensures
        final(a)@ == cycle4(old(a)@, i as int, j as int, k as int, l as int),
{
    let vi = a[i];
    let vj = a[j];
    let vk = a[k];
    let vl = a[l];
    a[i] = vj;
    a[j] = vk;
    a[k] = vl;
    a[l] = vi;
}

} // verus!
