//! The stages of looking up a group's members. Each stage takes what the
//! contacts service answered to the previous request and decides what to ask
//! for next, or why the lookup ends; the caller performs the requests.
use vstd::prelude::*;
use crate::error::Error;
use crate::extract::{extract, extracted};
use crate::members::{contact_groups_from_list, group_resource_name};
use crate::model::{ContactGroup, ContactKind, Person};
use crate::resolve::{resolution, select_contact_group};

verus! {

/// How many members a group's detail fetch asks for.
pub const MAX_MEMBERS: i32 = 100;

/// The person fields that member fetches ask for: only those that are
/// extracted.
pub const PERSON_FIELDS: &'static str = "emailAddresses,phoneNumbers";

/// After resolution gave `sel`: the resolved group's resource name, or the
/// error that ends the lookup.
pub open spec fn resource_name_after(name: Seq<char>, sel: Result<ContactGroup, Error>, r: Result<String, Error>) -> bool {
    match sel {
        Err(e) => r == Err::<String, Error>(e),
        Ok(g) => match g.resource_name {
            Some(n) => r == Ok::<String, Error>(n),
            None => match r {
                Err(Error::GetContactGroupResourceName { group_name: x }) => x@ == name,
                _ => false,
            },
        },
    }
}

/// The first stage, on the listing of all groups: the resource name of the
/// one group called `group_name`, whose detail is to be fetched next with at
/// most `MAX_MEMBERS` members.
pub fn group_to_fetch(
    group_name: &String,
    listing: Result<Option<Vec<ContactGroup>>, String>,
) -> (r: Result<String, Error>)
    ensures
        match listing {
            Err(c) => r == Err::<String, Error>(Error::GetContactGroups { cause: c }),
            Ok(None) => r == Err::<String, Error>(Error::NoContactGroups),
            Ok(Some(groups)) => exists|sel: Result<ContactGroup, Error>|
                resolution(group_name@, groups@, sel) && resource_name_after(group_name@, sel, r),
        },
{
    match contact_groups_from_list(listing) {
        Err(e) => Err(e),
        Ok(groups) => {
            let sel = select_contact_group(group_name, groups);
            let ghost picked = sel;
            let r = match sel {
                Err(e) => Err(e),
                Ok(g) => group_resource_name(group_name, &g),
            };
            assert(resource_name_after(group_name@, picked, r));
            r
        },
    }
}

/// A failure met while gathering the members of `group_name`, wrapped with
/// that name.
pub fn members_failure(group_name: &String, e: Error) -> (r: Error)
    ensures
        match r {
            Error::GetMembers { group_name: g, source } => g@ == group_name@ && *source == e,
            _ => false,
        },
{
    Error::GetMembers { group_name: group_name.clone(), source: Box::new(e) }
}

/// The last stage: the members' fields of the requested kind, or the failure
/// of the member lookup wrapped with the group's name and what was asked for.
pub fn group_details(group_name: &String, kind: ContactKind, members: Result<Vec<Person>, Error>) -> (r: Result<
    Vec<String>,
    Error,
>)
    ensures
        match members {
            Ok(people) => match r {
                Ok(v) => v@.map_values(|s: String| s@) == extracted(people@, kind),
                _ => false,
            },
            Err(e) => match (kind, r) {
                (ContactKind::Email, Err(Error::GetGroupEmails { group_name: g, source })) => g@
                    == group_name@ && *source == e,
                (ContactKind::Phone, Err(Error::GetGroupPhones { group_name: g, source })) => g@
                    == group_name@ && *source == e,
                _ => false,
            },
        },
{
    match members {
        Ok(people) => Ok(extract(&people, kind)),
        Err(e) => match kind {
            ContactKind::Email => Err(
                Error::GetGroupEmails { group_name: group_name.clone(), source: Box::new(e) },
            ),
            ContactKind::Phone => Err(
                Error::GetGroupPhones { group_name: group_name.clone(), source: Box::new(e) },
            ),
        },
    }
}

} // verus!
