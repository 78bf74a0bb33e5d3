//! Finding one characteristic among those a peripheral offers.

use crate::error::RunError;
use vstd::prelude::*;

verus! {

/// `at` is the first position of `uuids` that holds `target`.
pub open spec fn is_first_position(uuids: Seq<u128>, target: u128, at: int) -> bool {
    &&& 0 <= at < uuids.len()
    &&& uuids[at] == target
    &&& forall|j: int| 0 <= j < at ==> uuids[j] != target
}

/// The first position of `uuids` that holds `target`, where there is one.
pub open spec fn resolution(uuids: Seq<u128>, target: u128) -> Option<int> {
    if uuids.contains(target) {
        Some(choose|at: int| is_first_position(uuids, target, at))
    } else {
        None
    }
}

/// Looks for the characteristic whose identifier is `target` among the
/// identifiers `uuids`, taken in the order in which the peripheral lists its
/// characteristics.
///
/// The answer is the position of the first entry equal to `target`. Where no
/// entry is equal to it the lookup fails with `CharacteristicNotFound`, and
/// no other characteristic is offered in its place.
pub fn find_characteristic(uuids: &Vec<u128>, target: u128) -> (found: Result<usize, RunError>)
    ensures
        match found {
            Ok(at) => is_first_position(uuids@, target, at as int) && resolution(uuids@, target)
                == Some(at as int),
            Err(reason) => reason == RunError::CharacteristicNotFound && !uuids@.contains(target)
                && resolution(uuids@, target) is None,
        },
{
    let mut at: usize = 0;
    while at < uuids.len()
        invariant
            at <= uuids.len(),
            forall|j: int| 0 <= j < at ==> uuids@[j] != target,
        decreases uuids.len() - at,
    {
        if uuids[at] == target {
            return Ok(at);
        }
        at += 1;
    }
    Err(RunError::CharacteristicNotFound)
}

/// Whether a lookup succeeds does not depend on the order in which the
/// characteristics are listed, and what it finds carries the identifier that
/// was asked for.
///
/// For two listings `a` and `b` of the same set of identifiers, `target` has
/// a first position in one exactly if it has one in the other, and every
/// first position, in either listing, holds `target`.
pub proof fn lemma_resolution_ignores_order(a: Seq<u128>, b: Seq<u128>, target: u128)
    requires
        a.to_set() == b.to_set(),
    ensures
        a.contains(target) <==> b.contains(target),
        (exists|i: int| is_first_position(a, target, i)) <==> (exists|j: int|
            is_first_position(b, target, j)),
        forall|i: int, j: int|
            is_first_position(a, target, i) && is_first_position(b, target, j) ==> a[i] == b[j],
{
    lemma_first_position_exists(a, target);
    lemma_first_position_exists(b, target);
    assert(b.contains(target) <==> b.to_set().contains(target));
}

/// `resolution` gives the one first position of `target`, and nothing where
/// the listing does not hold `target`.
pub proof fn lemma_resolution_is_first_position(uuids: Seq<u128>, target: u128)
    ensures
        match resolution(uuids, target) {
            Some(at) => is_first_position(uuids, target, at),
            None => !uuids.contains(target),
        },
        forall|at: int|
            is_first_position(uuids, target, at) ==> resolution(uuids, target) == Some(at),
{
    lemma_first_position_exists(uuids, target);
}

/// An identifier has a first position in a listing exactly if the listing
/// holds it.
proof fn lemma_first_position_exists(uuids: Seq<u128>, target: u128)
    ensures
        uuids.contains(target) <==> exists|at: int| is_first_position(uuids, target, at),
    decreases uuids.len(),
{
    if uuids.len() > 0 {
        let front = uuids.drop_last();
        lemma_first_position_exists(front, target);
        if front.contains(target) {
            let at = choose|at: int| is_first_position(front, target, at);
            assert forall|j: int| 0 <= j < at implies uuids[j] != target by {
                assert(front[j] == uuids[j]);
            }
            assert(is_first_position(uuids, target, at));
        } else if uuids.last() == target {
            assert forall|j: int| 0 <= j < uuids.len() - 1 implies uuids[j] != target by {
                assert(front[j] == uuids[j]);
            }
            assert(is_first_position(uuids, target, uuids.len() - 1));
        } else {
            assert forall|j: int| 0 <= j < uuids.len() implies uuids[j] != target by {
                if j < uuids.len() - 1 {
                    assert(front[j] == uuids[j]);
                }
            }
        }
    }
}

} // verus!
