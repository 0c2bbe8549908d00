//! Grouping the registrations submitted under one SQL name into one function set.

use vstd::prelude::*;
use itertools::Itertools;

verus! {

/// Whether a grouping of the indices `0..names.len()` by name is right: the groups have distinct
/// names, every index is in exactly one group, the group of index `i` is named `names[i]`, and
/// the indices of a group come in increasing order.
pub open spec fn grouped_by_name(names: Seq<Seq<char>>, groups: Seq<(Seq<char>, Seq<usize>)>) -> bool {
    &&& forall|a: int, b: int| 0 <= a < b < groups.len() ==> (#[trigger] groups[a]).0 != (#[trigger] groups[b]).0
    &&& forall|g: int, k: int| 0 <= g < groups.len() && 0 <= k < groups[g].1.len()
        ==> (#[trigger] groups[g].1[k]) < names.len() && names[groups[g].1[k] as int] == groups[g].0
    &&& forall|g: int, k: int, l: int| 0 <= g < groups.len() && 0 <= k < l < groups[g].1.len()
        ==> #[trigger] groups[g].1[k] < #[trigger] groups[g].1[l]
    &&& forall|i: int| #![trigger names[i]] 0 <= i < names.len() ==> exists|g: int, k: int|
        0 <= g < groups.len() && 0 <= k < groups[g].1.len() && #[trigger] groups[g].1[k] == i
}

/// Groups the indices of `names` by name with `itertools` (`into_grouping_map_by` then
/// `GroupingMap::collect` into `Vec`s). Claimed, as the crate documents: one group per distinct
/// name, holding the indices with that name in their original order. The groups come out of a
/// `HashMap`, so their order is left open.
#[verifier::external_body]
fn group_indices(names: &[&str]) -> (groups: Vec<(String, Vec<usize>)>)
    ensures
        grouped_by_name(
            Seq::new(names@.len(), |i: int| names@[i]@),
            Seq::new(groups@.len(), |g: int| (groups@[g].0@, groups@[g].1@)),
        ),
{
    names
        .iter()
        .enumerate()
        .into_grouping_map_by(|(_, name)| **name)
        .collect::<Vec<(usize, &&str)>>()
        .into_iter()
        .map(|(name, items)| (name.to_owned(), items.into_iter().map(|(index, _)| index).collect()))
        .collect()
}

/// Groups the registrations submitted under the same SQL name, so that each name is registered
/// once as a function set holding all its overloads in submission order. The order of the groups
/// is not fixed.
pub fn overload_groups(names: &[&str]) -> (groups: Vec<(String, Vec<usize>)>)
    ensures
        grouped_by_name(
            Seq::new(names@.len(), |i: int| names@[i]@),
            Seq::new(groups@.len(), |g: int| (groups@[g].0@, groups@[g].1@)),
        ),
{
    group_indices(names)
}

} // verus!
