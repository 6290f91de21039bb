//! Picks the one contact group whose display name matches a requested name,
//! or explains why there is none.
use vstd::prelude::*;
use crate::distance::{edit_distance, levenshtein};
use crate::error::Error;
use crate::model::{label, named, ContactGroup};

verus! {

/// How many of `groups` carry the display name `name`.
pub open spec fn match_count(groups: Seq<ContactGroup>, name: Seq<char>) -> nat
    decreases groups.len(),
{
    if groups.len() == 0 {
        0
    } else {
        match_count(groups.drop_last(), name) + if named(groups.last(), name) {
            1nat
        } else {
            0nat
        }
    }
}

/// The distance from each group's display name to `name`, in list order.
pub open spec fn distances_to(groups: Seq<ContactGroup>, name: Seq<char>) -> Seq<nat> {
    groups.map_values(|g: ContactGroup| edit_distance(label(g), name))
}

/// `k` holds a least value of `d`, and no earlier position does.
pub open spec fn first_least(d: Seq<nat>, k: int) -> bool {
    &&& 0 <= k < d.len()
    &&& forall|j: int| 0 <= j < d.len() ==> d[k] <= d[j]
    &&& forall|j: int| 0 <= j < k ==> d[k] < d[j]
}

/// The distances of `d` as natural numbers.
pub open spec fn as_nats(d: Seq<usize>) -> Seq<nat> {
    d.map_values(|x: usize| x as nat)
}

/// The position of the first least distance; `None` for an empty list.
pub fn closest_index(distances: &Vec<usize>) -> (r: Option<usize>)
    ensures
        r is None <==> distances@.len() == 0,
        r matches Some(k) ==> first_least(as_nats(distances@), k as int),
{
    if distances.len() == 0 {
        return None;
    }
    let mut best: usize = 0;
    let mut i: usize = 1;
    while i < distances.len()
        invariant
            0 <= best < i <= distances@.len(),
            forall|j: int| 0 <= j < i ==> distances@[best as int] <= distances@[j],
            forall|j: int| 0 <= j < best ==> distances@[best as int] < distances@[j],
        decreases distances@.len() - i,
    {
        if distances[i] < distances[best] {
            best = i;
        }
        i = i + 1;
    }
    Some(best)
}

/// The listed groups that carry a display name, in list order: the only
/// ones that can be resolved or suggested.
pub open spec fn candidates(groups: Seq<ContactGroup>) -> Seq<ContactGroup>
    decreases groups.len(),
{
    if groups.len() == 0 {
        Seq::empty()
    } else if groups.last().name is Some {
        candidates(groups.drop_last()).push(groups.last())
    } else {
        candidates(groups.drop_last())
    }
}

proof fn named_group_is_candidate(groups: Seq<ContactGroup>, k: int)
    requires
        0 <= k < groups.len(),
        groups[k].name is Some,
    ensures
        candidates(groups).len() > 0,
    decreases groups.len(),
{
    if k < groups.len() - 1 {
        named_group_is_candidate(groups.drop_last(), k);
    }
}

/// What a failed lookup of `name` reports: with no named group at all, that
/// no groups exist; otherwise the display name nearest to `name`, the first
/// one in list order among equally near.
pub open spec fn suggestion(name: Seq<char>, groups: Seq<ContactGroup>, r: Error) -> bool {
    let pool = candidates(groups);
    if pool.len() == 0 {
        r == Error::NoContactGroups
    } else {
        match r {
            Error::NoContactGroupsFoundByName { group_name: g, closest } => {
                &&& g@ == name
                &&& exists|k: int| first_least(distances_to(pool, name), k) && closest@ == label(pool[k])
            },
            _ => false,
        }
    }
}

/// The error for a name that no group carries: the nearest display name is
/// offered instead, or, when no group has a name, the error says that no
/// groups exist.
pub fn suggest_closest(group_name: &String, groups: &Vec<ContactGroup>) -> (r: Error)
    ensures
        suggestion(group_name@, groups@, r),
{
    let mut names: Vec<String> = Vec::new();
    let mut distances: Vec<usize> = Vec::new();
    let mut i: usize = 0;
    while i < groups.len()
        invariant
            i <= groups@.len(),
            names@.len() == candidates(groups@.subrange(0, i as int)).len(),
            distances@.len() == names@.len(),
            forall|j: int|
                0 <= j < names@.len() ==> #[trigger] names@[j]@ == label(
                    candidates(groups@.subrange(0, i as int))[j],
                ),
            forall|j: int|
                0 <= j < names@.len() ==> #[trigger] distances@[j] as nat == edit_distance(
                    label(candidates(groups@.subrange(0, i as int))[j]),
                    group_name@,
                ),
        decreases groups@.len() - i,
    {
        assert(groups@.subrange(0, i + 1).drop_last() =~= groups@.subrange(0, i as int));
        assert(groups@.subrange(0, i + 1).last() == groups@[i as int]);
        match &groups[i].name {
            Some(n) => {
                let d = levenshtein(n, group_name);
                names.push(n.clone());
                distances.push(d);
            },
            None => {},
        }
        i = i + 1;
    }
    assert(groups@.subrange(0, groups@.len() as int) =~= groups@);
    assert(as_nats(distances@) =~= distances_to(candidates(groups@), group_name@));
    match closest_index(&distances) {
        Some(k) => Error::NoContactGroupsFoundByName {
            group_name: group_name.clone(),
            closest: names[k].clone(),
        },
        None => Error::NoContactGroups,
    }
}

/// What resolving `name` against `groups` may give: a listing without any
/// named group has no groups to offer; a single exact match comes back as it
/// was listed; several exact matches are counted; with none, the nearest
/// display name is suggested.
pub open spec fn resolution(
    name: Seq<char>,
    groups: Seq<ContactGroup>,
    r: Result<ContactGroup, Error>,
) -> bool {
    &&& candidates(groups).len() == 0 ==> r == Err::<ContactGroup, Error>(Error::NoContactGroups)
    &&& match_count(groups, name) == 1 ==> forall|k: int|
        0 <= k < groups.len() && named(#[trigger] groups[k], name) ==> r == Ok::<
            ContactGroup,
            Error,
        >(groups[k])
    &&& match_count(groups, name) >= 2 ==> match r {
        Err(Error::NonUniqueContactGroupName { group_name: g, found }) => g@ == name && found as nat
            == match_count(groups, name),
        _ => false,
    }
    &&& match_count(groups, name) == 0 ==> match r {
        Err(e) => suggestion(name, groups, e),
        _ => false,
    }
}

/// Resolves `group_name` against the listed `groups`: the one group whose
/// display name equals it exactly, compared case for case, or the error that
/// says why there is no such single group.
pub fn select_contact_group(group_name: &String, groups: Vec<ContactGroup>) -> (r: Result<
    ContactGroup,
    Error,
>)
    ensures
        resolution(group_name@, groups@, r),
{
    if groups.len() == 0 {
        return Err(Error::NoContactGroups);
    }
    let mut found: usize = 0;
    let mut first: usize = 0;
    let mut i: usize = 0;
    while i < groups.len()
        invariant
            i <= groups@.len(),
            found as nat == match_count(groups@.subrange(0, i as int), group_name@),
            found <= i,
            found > 0 ==> first < i && named(groups@[first as int], group_name@),
            found == 0 ==> forall|j: int| 0 <= j < i ==> !named(#[trigger] groups@[j], group_name@),
            found == 1 ==> forall|j: int|
                0 <= j < i && named(#[trigger] groups@[j], group_name@) ==> j == first,
        decreases groups@.len() - i,
    {
        assert(groups@.subrange(0, i + 1).drop_last() =~= groups@.subrange(0, i as int));
        let hit = match &groups[i].name {
            Some(n) => n.eq(group_name),
            None => false,
        };
        assert(hit == named(groups@[i as int], group_name@));
        if hit {
            if found == 0 {
                first = i;
            }
            found = found + 1;
        }
        i = i + 1;
    }
    assert(groups@.subrange(0, groups@.len() as int) =~= groups@);
    if found > 0 {
        proof {
            named_group_is_candidate(groups@, first as int);
        }
    }
    if found == 0 {
        Err(suggest_closest(group_name, &groups))
    } else if found > 1 {
        Err(Error::NonUniqueContactGroupName { group_name: group_name.clone(), found })
    } else {
        let mut groups = groups;
        Ok(groups.remove(first))
    }
}

} // verus!
