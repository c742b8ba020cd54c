//! The bounded FIFO of timestamps, kept in `bounded_vec_deque::BoundedVecDeque`.

use bounded_vec_deque::BoundedVecDeque;
use vstd::prelude::*;

verus! {

#[verifier::external_type_specification]
#[verifier::external_body]
#[verifier::reject_recursive_types(T)]
pub struct ExBoundedVecDeque<T>(BoundedVecDeque<T>);

/// The timestamps a deque holds, front (oldest) first.
pub uninterp spec fn window_of(q: BoundedVecDeque<u64>) -> Seq<u64>;

/// The length limit a deque was made with.
pub uninterp spec fn max_len_of(q: BoundedVecDeque<u64>) -> nat;

/// Relies on `BoundedVecDeque::new`: an empty deque with length limit `max_len`.
/// It reserves room for `max_len` values through `VecDeque::with_capacity`,
/// which panics when that exceeds `isize::MAX` bytes.
#[verifier::external_body]
pub(crate) fn window_new(max_len: usize) -> (r: BoundedVecDeque<u64>)
    requires
        max_len * 8 <= isize::MAX,
    ensures
        window_of(r) == Seq::<u64>::empty(),
        max_len_of(r) == max_len,
{
    BoundedVecDeque::new(max_len)
}

/// Relies on `BoundedVecDeque::push_back`: with a limit of zero the value is
/// handed back; on a full deque the front is removed and handed back before the
/// value goes to the back; otherwise the value goes to the back.
#[verifier::external_body]
pub(crate) fn window_push_back(q: &mut BoundedVecDeque<u64>, value: u64) -> (r: Option<u64>)
    ensures
        max_len_of(*final(q)) == max_len_of(*old(q)),
        max_len_of(*old(q)) == 0 ==> r == Some(value) && window_of(*final(q)) == window_of(
            *old(q),
        ),
        max_len_of(*old(q)) > 0 && window_of(*old(q)).len() >= max_len_of(*old(q)) ==> r == Some(
            window_of(*old(q))[0],
        ) && window_of(*final(q)) == window_of(*old(q)).drop_first().push(value),
        max_len_of(*old(q)) > 0 && window_of(*old(q)).len() < max_len_of(*old(q)) ==> r.is_none()
            && window_of(*final(q)) == window_of(*old(q)).push(value),
{
    q.push_back(value)
}

/// Relies on `BoundedVecDeque::pop_front`: removes and hands back the front, if any.
#[verifier::external_body]
pub(crate) fn window_pop_front(q: &mut BoundedVecDeque<u64>) -> (r: Option<u64>)
    ensures
        max_len_of(*final(q)) == max_len_of(*old(q)),
        window_of(*old(q)).len() == 0 ==> r.is_none() && window_of(*final(q)) == window_of(
            *old(q),
        ),
        window_of(*old(q)).len() > 0 ==> r == Some(window_of(*old(q))[0]) && window_of(*final(q))
            == window_of(*old(q)).drop_first(),
{
    q.pop_front()
}

/// Relies on `VecDeque::len`, reached through `BoundedVecDeque`'s `Deref`: the
/// number of timestamps held.
#[verifier::external_body]
pub(crate) fn window_len(q: &BoundedVecDeque<u64>) -> (r: usize)
    ensures
        r == window_of(*q).len(),
{
    q.len()
}

} // verus!
