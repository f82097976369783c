//! Moving one element of an ordered sequence to another position.
use vstd::prelude::*;

verus! {

/// `s` with the element at `desde` taken out and put back in at `hasta`.
pub open spec fn movido<T>(s: Seq<T>, desde: int, hasta: int) -> Seq<T> {
    s.remove(desde).insert(hasta, s[desde])
}

/// Takes the element at `desde` out of `v` and puts it back in at `hasta`;
/// the elements between the two positions shift by one.
pub fn mover<T>(v: &mut Vec<T>, desde: usize, hasta: usize)
    requires
        desde < old(v).len(),
        hasta < old(v).len(),
    ensures
        final(v)@ == movido(old(v)@, desde as int, hasta as int),
{
    let x = v.remove(desde);
    v.insert(hasta, x);
}

/// Moving one element keeps the length and the elements, lands the moved
/// element at `hasta`, leaves every element outside the two positions where
/// it was, and shifts those in between by one towards `desde`.
pub proof fn lema_movido<T>(s: Seq<T>, desde: int, hasta: int)
    requires
        0 <= desde < s.len(),
        0 <= hasta < s.len(),
    ensures
        movido(s, desde, hasta).len() == s.len(),
        movido(s, desde, hasta)[hasta] == s[desde],
        movido(s, desde, hasta).to_multiset() == s.to_multiset(),
        forall|k: int|
            0 <= k < s.len() && k < desde && k < hasta ==> #[trigger] movido(s, desde, hasta)[k] == s[k],
        forall|k: int|
            0 <= k < s.len() && k > desde && k > hasta ==> #[trigger] movido(s, desde, hasta)[k] == s[k],
        forall|k: int| desde <= k < hasta ==> #[trigger] movido(s, desde, hasta)[k] == s[k + 1],
        forall|k: int| hasta < k <= desde ==> #[trigger] movido(s, desde, hasta)[k] == s[k - 1],
{
    broadcast use vstd::seq_lib::group_seq_properties;

    let r = s.remove(desde);
    s.to_multiset_ensures();
    r.to_multiset_ensures();
    r.insert(hasta, s[desde]).to_multiset_ensures();
    assert(s =~= s.subrange(0, desde).push(s[desde]) + s.subrange(desde + 1, s.len() as int));
    assert(r =~= s.subrange(0, desde) + s.subrange(desde + 1, s.len() as int));
    vstd::seq_lib::lemma_multiset_commutative(s.subrange(0, desde).push(s[desde]), s.subrange(desde + 1, s.len() as int));
    vstd::seq_lib::lemma_multiset_commutative(s.subrange(0, desde), s.subrange(desde + 1, s.len() as int));
}

/// The first position whose region holds the pointer, if any.
pub fn primer_objetivo(contiene: &Vec<bool>) -> (r: Option<usize>)
    ensures
        r matches Some(j) ==> j < contiene@.len() && contiene@[j as int] && forall|k: int|
            0 <= k < j ==> !#[trigger] contiene@[k],
        r is None ==> forall|k: int| 0 <= k < contiene@.len() ==> !#[trigger] contiene@[k],
{
    let mut i: usize = 0;
    while i < contiene.len()
        invariant
            i <= contiene@.len(),
            forall|k: int| 0 <= k < i ==> !#[trigger] contiene@[k],
        decreases contiene@.len() - i,
    {
        if contiene[i] {
            return Some(i);
        }
        i = i + 1;
    }
    None
}

} // verus!
