use vstd::prelude::*;

verus! {

/// `array_init::from_iter` on a vector: it takes items from the front until
/// the array is full, and gives no array where the items run out first. So
/// there is an array exactly when the vector holds at least `N` items, and it
/// holds the first `N` of them in their order.
#[verifier::external_body]
pub(crate) fn array_from_vec<V, const N: usize>(items: Vec<V>) -> (r: Option<[V; N]>)
    ensures
        r is Some <==> items@.len() >= N,
        r matches Some(a) ==> a@ == items@.subrange(0, N as int),
{
    array_init::from_iter(items)
}

/// `Vec::from` on an array: the vector holds the array's items in their
/// order.
#[verifier::external_body]
pub(crate) fn array_into_vec<V, const N: usize>(items: [V; N]) -> (r: Vec<V>)
    ensures
        r@ == items@,
{
    Vec::from(items)
}

/// The items of a vector from the last to the first.
pub(crate) fn turned<V>(items: Vec<V>) -> (r: Vec<V>)
    ensures
        r@ == items@.reverse(),
{
    let ghost all = items@;
    let mut rest = items;
    let mut out: Vec<V> = Vec::new();
    while rest.len() > 0
        invariant
            rest@.len() + out@.len() == all.len(),
            rest@ == all.subrange(0, rest@.len() as int),
            forall|j: int| 0 <= j < out@.len() ==> #[trigger] out@[j] == all[all.len() - 1 - j],
        decreases rest@.len(),
    {
        let ghost k = rest@.len() - 1;
        assert(rest@[k] == all[k]);
        out.push(rest.pop().unwrap());
    }
    assert(out@ =~= all.reverse());
    out
}

} // verus!
