//! Classifying one slice against another.

use vstd::prelude::*;
use vstd::std_specs::cmp::PartialEqSpec;

verus! {

/// How one slice relates to another.
#[derive(Debug, PartialEq)]
pub enum Comparison {
    /// The two slices hold equal elements in the same order.
    Equal,
    /// The first slice occurs as a contiguous run inside the second.
    Sublist,
    /// The second slice occurs as a contiguous run inside the first.
    Superlist,
    /// None of the above.
    Unequal,
}

/// The two sequences have the same length and equal elements at every
/// index, element equality taken from the type's own `==`.
pub open spec fn elems_match<T: PartialEqSpec>(a: Seq<T>, b: Seq<T>) -> bool {
    &&& a.len() == b.len()
    &&& forall|i: int| #![auto] 0 <= i < a.len() ==> a[i].eq_spec(&b[i])
}

/// `needle` occurs somewhere in `hay` as a contiguous run.
pub open spec fn contains_run<T: PartialEqSpec>(hay: Seq<T>, needle: Seq<T>) -> bool {
    exists|k: int|
        0 <= k <= hay.len() - needle.len() && #[trigger] elems_match(
            hay.subrange(k, k + needle.len()),
            needle,
        )
}

/// What [`sublist`] reports: `Equal` for equal-length slices with matching
/// elements, `Superlist`/`Sublist` when the shorter slice occurs as a
/// contiguous run inside the longer one (an empty slice occurs in every
/// slice), and `Unequal` otherwise.
pub open spec fn spec_sublist<T: PartialEqSpec>(a: Seq<T>, b: Seq<T>) -> Comparison {
    if a.len() == b.len() {
        if elems_match(a, b) {
            Comparison::Equal
        } else {
            Comparison::Unequal
        }
    } else if a.len() > b.len() {
        if contains_run(a, b) {
            Comparison::Superlist
        } else {
            Comparison::Unequal
        }
    } else {
        if contains_run(b, a) {
            Comparison::Sublist
        } else {
            Comparison::Unequal
        }
    }
}

/// Whether the elements of `hay` starting at offset `k` match `needle`
/// element for element.
fn window_matches<T: PartialEqSpec>(hay: &[T], needle: &[T], k: usize) -> (r: bool)
    requires
        k + needle@.len() <= hay@.len(),
    ensures
        T::obeys_eq_spec() ==> (r <==> elems_match(
            hay@.subrange(k as int, k + needle@.len()),
            needle@,
        )),
{
    let n = needle.len();
    let h = hay.len();
    let mut j: usize = 0;
    while j < n
        invariant
            n == needle@.len(),
            h == hay@.len(),
            k + n <= h,
            0 <= j <= n,
            T::obeys_eq_spec() ==> forall|jj: int|
                #![auto]
                0 <= jj < j ==> hay@[k + jj].eq_spec(&needle@[jj]),
        decreases n - j,
    {
        if !hay[k + j].eq(&needle[j]) {
            proof {
                if T::obeys_eq_spec() {
                    assert(hay@.subrange(k as int, k + needle@.len())[j as int] == hay@[k + j]);
                }
            }
            return false;
        }
        j += 1;
    }
    proof {
        if T::obeys_eq_spec() {
            let sub = hay@.subrange(k as int, k + needle@.len());
            assert forall|i: int| 0 <= i < sub.len() implies #[trigger] sub[i].eq_spec(
                &needle@[i],
            ) by {
                assert(sub[i] == hay@[k + i]);
            }
        }
    }
    true
}

/// Whether `needle` occurs anywhere in `hay` as a contiguous run.
fn find_run<T: PartialEqSpec>(hay: &[T], needle: &[T]) -> (r: bool)
    requires
        needle@.len() <= hay@.len(),
    ensures
        T::obeys_eq_spec() ==> (r <==> contains_run(hay@, needle@)),
{
    let n = needle.len();
    let h = hay.len();
    if n == 0 {
        proof {
            let z: int = 0;
            assert(elems_match(hay@.subrange(z, z + needle@.len()), needle@));
        }
        return true;
    }
    let end = h - n;
    let mut k: usize = 0;
    while k <= end
        invariant
            n == needle@.len(),
            h == hay@.len(),
            1 <= n <= h,
            end == h - n,
            0 <= k <= end + 1,
            T::obeys_eq_spec() ==> forall|kk: int|
                0 <= kk < k ==> !#[trigger] elems_match(hay@.subrange(kk, kk + n), needle@),
        decreases end + 1 - k,
    {
        if window_matches(hay, needle, k) {
            return true;
        }
        k += 1;
    }
    false
}

/// Report how `a` relates to `b` under contiguous containment.
///
/// Equal-length slices are `Equal` when they match element for element and
/// `Unequal` otherwise; when one slice is strictly longer, the result says
/// whether the shorter occurs inside it as a contiguous run (`Superlist`
/// when `a` is the longer one, `Sublist` when `b` is); otherwise the
/// slices are `Unequal`. An empty slice occurs in every slice.
pub fn sublist<T: PartialEqSpec>(a: &[T], b: &[T]) -> (r: Comparison)
    ensures
        T::obeys_eq_spec() ==> r == spec_sublist(a@, b@),
{
    if a.len() == b.len() {
        proof {
            assert(a@.subrange(0, b@.len() as int) =~= a@);
        }
        if window_matches(a, b, 0) {
            Comparison::Equal
        } else {
            Comparison::Unequal
        }
    } else if a.len() > b.len() {
        if find_run(a, b) {
            Comparison::Superlist
        } else {
            Comparison::Unequal
        }
    } else {
        if find_run(b, a) {
            Comparison::Sublist
        } else {
            Comparison::Unequal
        }
    }
}

/// Some element of `s` equals `x`, element equality taken from the type's
/// own `==`.
pub open spec fn seq_has<T: PartialEqSpec>(s: Seq<T>, x: T) -> bool {
    exists|j: int| #![auto] 0 <= j < s.len() && x.eq_spec(&s[j])
}

/// Every element of `a` also occurs somewhere in `b`; order and
/// multiplicity play no part.
pub open spec fn all_in<T: PartialEqSpec>(a: Seq<T>, b: Seq<T>) -> bool {
    forall|i: int| #![auto] 0 <= i < a.len() ==> seq_has(b, a[i])
}

/// What [`subset`] reports: `Equal` when every element of `a` also occurs
/// in `b`, and `Superlist` otherwise.
pub open spec fn spec_subset<T: PartialEqSpec>(a: Seq<T>, b: Seq<T>) -> Comparison {
    if all_in(a, b) {
        Comparison::Equal
    } else {
        Comparison::Superlist
    }
}

/// Whether some element of `hay` equals `*x`.
fn slice_has<T: PartialEqSpec>(hay: &[T], x: &T) -> (r: bool)
    ensures
        T::obeys_eq_spec() ==> (r <==> seq_has(hay@, *x)),
{
    let h = hay.len();
    let mut j: usize = 0;
    while j < h
        invariant
            h == hay@.len(),
            0 <= j <= h,
            T::obeys_eq_spec() ==> forall|jj: int| #![auto] 0 <= jj < j ==> !x.eq_spec(&hay@[jj]),
        decreases h - j,
    {
        if x.eq(&hay[j]) {
            return true;
        }
        j += 1;
    }
    false
}

/// Classify `a` against `b` by membership alone: `Equal` when every
/// element of `a` also occurs somewhere in `b` (order and multiplicity
/// ignored), and `Superlist` otherwise.
pub fn subset<T: Copy + PartialEqSpec + Eq + core::hash::Hash>(a: &[T], b: &[T]) -> (r: Comparison)
    ensures
        T::obeys_eq_spec() ==> r == spec_subset(a@, b@),
{
    let alen = a.len();
    let mut i: usize = 0;
    while i < alen
        invariant
            alen == a@.len(),
            0 <= i <= alen,
            T::obeys_eq_spec() ==> forall|ii: int| #![auto] 0 <= ii < i ==> seq_has(b@, a@[ii]),
        decreases alen - i,
    {
        if !slice_has(b, &a[i]) {
            return Comparison::Superlist;
        }
        i += 1;
    }
    Comparison::Equal
}

} // verus!
