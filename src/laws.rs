//! Properties of group resolution that hold for every listing, stated over
//! the contract that `select_contact_group` meets.
use vstd::prelude::*;
use crate::error::Error;
use crate::model::{named, ContactGroup};
use crate::model::label;
use crate::resolve::{candidates, distances_to, first_least, match_count, resolution};

verus! {

/// When exactly one listed group carries the requested name, resolution
/// returns that group exactly as it was listed, and nothing else.
pub proof fn unique_match_is_returned_unchanged(
    name: Seq<char>,
    groups: Seq<ContactGroup>,
    k: int,
    r: Result<ContactGroup, Error>,
)
    requires
        0 <= k < groups.len(),
        named(groups[k], name),
        match_count(groups, name) == 1,
        resolution(name, groups, r),
    ensures
        r == Ok::<ContactGroup, Error>(groups[k]),
{
}

/// When two or more listed groups carry the requested name, resolution fails
/// and reports exactly how many do.
pub proof fn duplicate_names_are_counted(
    name: Seq<char>,
    groups: Seq<ContactGroup>,
    r: Result<ContactGroup, Error>,
)
    requires
        match_count(groups, name) >= 2,
        resolution(name, groups, r),
    ensures
        r matches Err(Error::NonUniqueContactGroupName { group_name: g, found }) && g@ == name
            && found as nat == match_count(groups, name),
{
}

/// A listing without any named group, the empty one among them, always ends
/// in `NoContactGroups`, never in a suggestion.
pub proof fn empty_listing_suggests_nothing(name: Seq<char>, r: Result<ContactGroup, Error>)
    requires
        resolution(name, Seq::empty(), r),
    ensures
        r == Err::<ContactGroup, Error>(Error::NoContactGroups),
        !(r matches Err(Error::NoContactGroupsFoundByName { .. })),
{
}

proof fn counted_match_exists(groups: Seq<ContactGroup>, name: Seq<char>)
    requires
        match_count(groups, name) > 0,
    ensures
        exists|k: int| 0 <= k < groups.len() && named(#[trigger] groups[k], name),
    decreases groups.len(),
{
    if !named(groups.last(), name) {
        counted_match_exists(groups.drop_last(), name);
        let k = choose|k: int| 0 <= k < groups.len() - 1 && named(#[trigger] groups.drop_last()[k], name);
        assert(groups[k] == groups.drop_last()[k]);
    } else {
        assert(named(groups[groups.len() - 1], name));
    }
}

proof fn candidates_are_named_listed_groups(groups: Seq<ContactGroup>)
    ensures
        forall|k: int|
            0 <= k < candidates(groups).len() ==> {
                &&& (#[trigger] candidates(groups)[k]).name is Some
                &&& exists|j: int| 0 <= j < groups.len() && groups[j] == candidates(groups)[k]
            },
    decreases groups.len(),
{
    if groups.len() > 0 {
        let rest = groups.drop_last();
        candidates_are_named_listed_groups(rest);
        assert forall|k: int| 0 <= k < candidates(groups).len() implies {
            &&& (#[trigger] candidates(groups)[k]).name is Some
            &&& exists|j: int| 0 <= j < groups.len() && groups[j] == candidates(groups)[k]
        } by {
            if k < candidates(rest).len() {
                assert(candidates(groups)[k] == candidates(rest)[k]);
                let j = choose|j: int| 0 <= j < rest.len() && rest[j] == candidates(rest)[k];
                assert(groups[j] == rest[j]);
            } else {
                assert(candidates(groups)[k] == groups[groups.len() - 1]);
            }
        }
    }
}

/// A suggested name is always the display name of a listed group that has
/// one: groups without a display name are never offered.
pub proof fn suggestion_is_a_listed_display_name(
    name: Seq<char>,
    groups: Seq<ContactGroup>,
    r: Result<ContactGroup, Error>,
)
    requires
        resolution(name, groups, r),
    ensures
        match r {
            Err(Error::NoContactGroupsFoundByName { closest, .. }) => exists|j: int|
                0 <= j < groups.len() && label(groups[j]) == closest@ && groups[j].name is Some,
            _ => true,
        },
{
    candidates_are_named_listed_groups(groups);
    if match_count(groups, name) > 0 {
        counted_match_exists(groups, name);
    }
    if let Err(Error::NoContactGroupsFoundByName { closest, .. }) = r {
        let pool = candidates(groups);
        let k = choose|k: int| first_least(distances_to(pool, name), k) && closest@ == label(pool[k]);
        let j = choose|j: int| 0 <= j < groups.len() && groups[j] == pool[k];
        assert(label(groups[j]) == closest@ && groups[j].name is Some);
    }
}

} // verus!
