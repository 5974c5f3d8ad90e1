//! Related grants: the grants filed under the same applicant key or the
//! same account key as a given grant.

use vstd::prelude::*;

verus! {

/// `s` with each run of equal neighbours cut down to its first element.
pub open spec fn dedup(s: Seq<u128>) -> Seq<u128>
    decreases s.len(),
{
    if s.len() == 0 {
        s
    } else {
        let d = dedup(s.drop_last());
        if d.len() > 0 && d.last() == s.last() {
            d
        } else {
            d.push(s.last())
        }
    }
}

/// `s` without the elements equal to `x`, in order.
pub open spec fn without(s: Seq<u128>, x: u128) -> Seq<u128>
    decreases s.len(),
{
    if s.len() == 0 {
        s
    } else if s.last() == x {
        without(s.drop_last(), x)
    } else {
        without(s.drop_last(), x).push(s.last())
    }
}

/// The related grants of grant `own`: the entries of both indices, one
/// after the other, neighbouring repeats dropped, `own` left out.
pub open spec fn related_of(first: Seq<u128>, second: Seq<u128>, own: u128) -> Seq<u128> {
    without(dedup(first + second), own)
}

/// Appends the entries of `from` to `to`.
fn extend(to: &mut Vec<u128>, from: &Vec<u128>)
    ensures
        final(to)@ == old(to)@ + from@,
{
    let mut i: usize = 0;
    while i < from.len()
        invariant
            i <= from@.len(),
            to@ == old(to)@ + from@.subrange(0, i as int),
        decreases from@.len() - i,
    {
        to.push(from[i]);
        assert(to@ =~= old(to)@ + from@.subrange(0, i + 1));
        i = i + 1;
    }
    assert(from@.subrange(0, from@.len() as int) =~= from@);
}

/// The related grants of grant `own`, given the index of its applicant key
/// and the index of its account key.
pub fn related_ids(first: &Vec<u128>, second: &Vec<u128>, own: u128) -> (r: Vec<u128>)
    ensures
        r@ == related_of(first@, second@, own),
{
    let mut all: Vec<u128> = Vec::new();
    extend(&mut all, first);
    extend(&mut all, second);
    assert(all@ =~= first@ + second@);
    let mut deduped: Vec<u128> = Vec::new();
    let mut i: usize = 0;
    while i < all.len()
        invariant
            i <= all@.len(),
            deduped@ == dedup(all@.subrange(0, i as int)),
        decreases all@.len() - i,
    {
        assert(all@.subrange(0, i + 1).drop_last() =~= all@.subrange(0, i as int));
        let x = all[i];
        let n = deduped.len();
        if n == 0 || deduped[n - 1] != x {
            deduped.push(x);
        }
        i = i + 1;
    }
    assert(all@.subrange(0, all@.len() as int) =~= all@);
    let mut r: Vec<u128> = Vec::new();
    let mut j: usize = 0;
    while j < deduped.len()
        invariant
            j <= deduped@.len(),
            r@ == without(deduped@.subrange(0, j as int), own),
        decreases deduped@.len() - j,
    {
        assert(deduped@.subrange(0, j + 1).drop_last() =~= deduped@.subrange(0, j as int));
        let x = deduped[j];
        if x != own {
            r.push(x);
        }
        j = j + 1;
    }
    assert(deduped@.subrange(0, deduped@.len() as int) =~= deduped@);
    r
}

} // verus!
