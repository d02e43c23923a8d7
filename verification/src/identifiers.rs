//! Task identifiers: what marks an identifier as a random UUID, and how the
//! identifiers drawn for one plan are kept apart.
//!
//! Random draws coincide with a probability that is tiny but not zero. A
//! plan must not hold the same identifier twice, so a draw that repeats an
//! earlier one is moved to a free neighbour; draws that already differ are
//! taken as they come.

use vstd::prelude::*;

verus! {

/// What every version-4 (random) UUID has in common, on its 128-bit value
/// with the most significant byte first: the version field holds 4 and the
/// variant field holds the two bits `10`.
pub open spec fn is_random_uuid(id: u128) -> bool {
    id & 0x0000_0000_0000_f000_c000_0000_0000_0000u128
        == 0x0000_0000_0000_4000_8000_0000_0000_0000u128
}

/// `candidate` kept apart from the identifiers in `taken`: `candidate`
/// itself where it is not among them, else the first of its three nearest
/// neighbours (`candidate` with its lowest two bits changed) that is not.
pub open spec fn nudged(candidate: u128, taken: Seq<u128>) -> u128 {
    if !taken.contains(candidate) {
        candidate
    } else if !taken.contains(candidate ^ 1) {
        candidate ^ 1
    } else if !taken.contains(candidate ^ 2) {
        candidate ^ 2
    } else {
        candidate ^ 3
    }
}

/// The four identifiers of a plan, made from four draws: each draw in turn,
/// kept apart from the identifiers before it.
pub open spec fn spaced(drawn: Seq<u128>) -> Seq<u128> {
    let first = drawn[0];
    let second = nudged(drawn[1], seq![first]);
    let third = nudged(drawn[2], seq![first, second]);
    let fourth = nudged(drawn[3], seq![first, second, third]);
    seq![first, second, third, fourth]
}

/// Whether `id` is one of `taken`.
pub fn is_among(id: u128, taken: &Vec<u128>) -> (found: bool)
    ensures
        found == taken@.contains(id),
{
    let mut i: usize = 0;
    while i < taken.len()
        invariant
            i <= taken.len(),
            forall|k: int| 0 <= k < i ==> taken[k] != id,
        decreases taken.len() - i,
    {
        if taken[i] == id {
            return true;
        }
        i = i + 1;
    }
    false
}

/// `candidate` kept apart from the identifiers in `taken`.
pub fn nudge(candidate: u128, taken: &Vec<u128>) -> (id: u128)
    ensures
        id == nudged(candidate, taken@),
{
    if !is_among(candidate, taken) {
        candidate
    } else if !is_among(candidate ^ 1, taken) {
        candidate ^ 1
    } else if !is_among(candidate ^ 2, taken) {
        candidate ^ 2
    } else {
        candidate ^ 3
    }
}

/// The identifiers of a plan, from the four values drawn for it.
pub fn space_apart(drawn: &[u128; 4]) -> (ids: [u128; 4])
    ensures
        ids@ == spaced(drawn@),
{
    let first: u128 = drawn[0];
    let mut taken: Vec<u128> = Vec::new();
    taken.push(first);
    assert(taken@ =~= seq![first]);
    let second: u128 = nudge(drawn[1], &taken);
    taken.push(second);
    assert(taken@ =~= seq![first, second]);
    let third: u128 = nudge(drawn[2], &taken);
    taken.push(third);
    assert(taken@ =~= seq![first, second, third]);
    let fourth: u128 = nudge(drawn[3], &taken);
    let ids: [u128; 4] = [first, second, third, fourth];
    assert(ids@ =~= spaced(drawn@));
    ids
}

/// Changing the lowest two bits of an identifier gives four different
/// identifiers, and leaves the version and variant fields as they are.
proof fn lemma_neighbours(candidate: u128)
    ensures
        candidate != candidate ^ 1,
        candidate != candidate ^ 2,
        candidate != candidate ^ 3,
        candidate ^ 1 != candidate ^ 2,
        candidate ^ 1 != candidate ^ 3,
        candidate ^ 2 != candidate ^ 3,
        is_random_uuid(candidate) ==> is_random_uuid(candidate ^ 1) && is_random_uuid(candidate ^ 2)
            && is_random_uuid(candidate ^ 3),
{
    assert(candidate != candidate ^ 1 && candidate != candidate ^ 2 && candidate != candidate ^ 3
        && candidate ^ 1 != candidate ^ 2 && candidate ^ 1 != candidate ^ 3 && candidate ^ 2
        != candidate ^ 3) by (bit_vector);
    assert((candidate ^ 1) & 0x0000_0000_0000_f000_c000_0000_0000_0000u128 == candidate
        & 0x0000_0000_0000_f000_c000_0000_0000_0000u128) by (bit_vector);
    assert((candidate ^ 2) & 0x0000_0000_0000_f000_c000_0000_0000_0000u128 == candidate
        & 0x0000_0000_0000_f000_c000_0000_0000_0000u128) by (bit_vector);
    assert((candidate ^ 3) & 0x0000_0000_0000_f000_c000_0000_0000_0000u128 == candidate
        & 0x0000_0000_0000_f000_c000_0000_0000_0000u128) by (bit_vector);
}

/// With at most three identifiers taken, a nudged identifier is none of
/// them; it is the candidate itself where the candidate was free; and it is
/// a random UUID where the candidate was one.
pub proof fn law_nudged_is_free(candidate: u128, taken: Seq<u128>)
    requires
        taken.len() <= 3,
    ensures
        !taken.contains(nudged(candidate, taken)),
        !taken.contains(candidate) ==> nudged(candidate, taken) == candidate,
        is_random_uuid(candidate) ==> is_random_uuid(nudged(candidate, taken)),
{
    lemma_neighbours(candidate);
    if taken.contains(candidate) && taken.contains(candidate ^ 1) && taken.contains(candidate ^ 2)
        && taken.contains(candidate ^ 3) {
        // Four different identifiers cannot all be among three.
        let a = choose|i: int| 0 <= i < taken.len() && taken[i] == candidate;
        let b = choose|i: int| 0 <= i < taken.len() && taken[i] == candidate ^ 1;
        let c = choose|i: int| 0 <= i < taken.len() && taken[i] == candidate ^ 2;
        let d = choose|i: int| 0 <= i < taken.len() && taken[i] == candidate ^ 3;
        assert(a != b && a != c && a != d && b != c && b != d && c != d);
        assert(false);
    }
}

/// The identifiers of a plan differ pairwise, whatever was drawn.
pub proof fn law_spaced_ids_differ(drawn: Seq<u128>)
    requires
        drawn.len() == 4,
    ensures
        spaced(drawn).len() == 4,
        spaced(drawn).no_duplicates(),
{
    let first = drawn[0];
    let second = nudged(drawn[1], seq![first]);
    let third = nudged(drawn[2], seq![first, second]);
    let fourth = nudged(drawn[3], seq![first, second, third]);
    law_nudged_is_free(drawn[1], seq![first]);
    law_nudged_is_free(drawn[2], seq![first, second]);
    law_nudged_is_free(drawn[3], seq![first, second, third]);
    assert(seq![first][0] == first);
    assert(seq![first, second][0] == first && seq![first, second][1] == second);
    assert(seq![first, second, third][0] == first && seq![first, second, third][1] == second
        && seq![first, second, third][2] == third);
    assert(second != first);
    assert(third != first && third != second);
    assert(fourth != first && fourth != second && fourth != third);
}

/// Draws that already differ pairwise are the identifiers of the plan,
/// unchanged.
pub proof fn law_distinct_draws_are_kept(drawn: Seq<u128>)
    requires
        drawn.len() == 4,
        drawn.no_duplicates(),
    ensures
        spaced(drawn) == drawn,
{
    let first = drawn[0];
    assert(!seq![first].contains(drawn[1]));
    law_nudged_is_free(drawn[1], seq![first]);
    let second = drawn[1];
    assert(!seq![first, second].contains(drawn[2]));
    law_nudged_is_free(drawn[2], seq![first, second]);
    let third = drawn[2];
    assert(!seq![first, second, third].contains(drawn[3]));
    law_nudged_is_free(drawn[3], seq![first, second, third]);
    assert(spaced(drawn) =~= drawn);
}

/// Where every draw is a random UUID, so is every identifier of the plan.
pub proof fn law_spacing_keeps_uuids(drawn: Seq<u128>)
    requires
        drawn.len() == 4,
        forall|i: int| 0 <= i < 4 ==> is_random_uuid(#[trigger] drawn[i]),
    ensures
        forall|i: int| 0 <= i < 4 ==> is_random_uuid(#[trigger] spaced(drawn)[i]),
{
    let first = drawn[0];
    let second = nudged(drawn[1], seq![first]);
    let third = nudged(drawn[2], seq![first, second]);
    law_nudged_is_free(drawn[1], seq![first]);
    law_nudged_is_free(drawn[2], seq![first, second]);
    law_nudged_is_free(drawn[3], seq![first, second, third]);
}

} // verus!
