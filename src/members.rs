//! Turns what the contacts service answered into groups and people, or into
//! the error that explains why it cannot be used.
use vstd::prelude::*;
use crate::error::Error;
use crate::model::{ContactGroup, Person};

verus! {

/// The listing of all groups: a transport failure is wrapped, and a reply
/// without a group list means that no groups exist.
pub fn contact_groups_from_list(reply: Result<Option<Vec<ContactGroup>>, String>) -> (r: Result<
    Vec<ContactGroup>,
    Error,
>)
    ensures
        match reply {
            Err(c) => r == Err::<Vec<ContactGroup>, Error>(Error::GetContactGroups { cause: c }),
            Ok(None) => r == Err::<Vec<ContactGroup>, Error>(Error::NoContactGroups),
            Ok(Some(v)) => r == Ok::<Vec<ContactGroup>, Error>(v),
        },
{
    match reply {
        Err(c) => Err(Error::GetContactGroups { cause: c }),
        Ok(None) => Err(Error::NoContactGroups),
        Ok(Some(v)) => Ok(v),
    }
}

/// The resource name under which a resolved group's detail is fetched.
pub fn group_resource_name(group_name: &String, group: &ContactGroup) -> (r: Result<String, Error>)
    ensures
        match group.resource_name {
            Some(n) => r == Ok::<String, Error>(n),
            None => match r {
                Err(Error::GetContactGroupResourceName { group_name: g }) => g@ == group_name@,
                _ => false,
            },
        },
{
    match &group.resource_name {
        Some(n) => Ok(n.clone()),
        None => Err(Error::GetContactGroupResourceName { group_name: group_name.clone() }),
    }
}

/// The detail fetch of a group: a transport failure is wrapped with the
/// group's name.
pub fn group_from_detail(group_name: &String, reply: Result<ContactGroup, String>) -> (r: Result<
    ContactGroup,
    Error,
>)
    ensures
        match reply {
            Ok(g) => r == Ok::<ContactGroup, Error>(g),
            Err(c) => match r {
                Err(Error::GetContactGroup { group_name: g, cause }) => g@ == group_name@ && cause
                    == c,
                _ => false,
            },
        },
{
    match reply {
        Ok(g) => Ok(g),
        Err(c) => Err(Error::GetContactGroup { group_name: group_name.clone(), cause: c }),
    }
}

/// The members' resource names of a fetched group, which must be present and
/// not empty.
pub fn member_resource_names(group_name: &String, group: ContactGroup) -> (r: Result<
    Vec<String>,
    Error,
>)
    ensures
        match group.member_resource_names {
            Some(v) if v@.len() > 0 => r == Ok::<Vec<String>, Error>(v),
            _ => match r {
                Err(Error::NoGroupMemberResourceNames { group_name: g }) => g@ == group_name@,
                _ => false,
            },
        },
{
    match group.member_resource_names {
        Some(v) => {
            if v.len() > 0 {
                Ok(v)
            } else {
                Err(Error::NoGroupMemberResourceNames { group_name: group_name.clone() })
            }
        },
        None => Err(Error::NoGroupMemberResourceNames { group_name: group_name.clone() }),
    }
}

/// A single person fetched by resource name: a transport failure is wrapped
/// with that name.
pub fn person_from_reply(resource_name: &String, reply: Result<Person, String>) -> (r: Result<
    Person,
    Error,
>)
    ensures
        match reply {
            Ok(p) => r == Ok::<Person, Error>(p),
            Err(c) => match r {
                Err(Error::GetPersonByResourceName { resource_name: n, cause }) => n@
                    == resource_name@ && cause == c,
                _ => false,
            },
        },
{
    match reply {
        Ok(p) => Ok(p),
        Err(c) => Err(
            Error::GetPersonByResourceName { resource_name: resource_name.clone(), cause: c },
        ),
    }
}

/// True when some entry of a batch reply holds no person.
pub open spec fn has_gap(entries: Seq<Option<Person>>) -> bool {
    exists|j: int| 0 <= j < entries.len() && entries[j] is None
}

/// The people of a batch reply, in the reply's order. The whole fetch fails
/// when the transport failed, when the reply has no entries list, or when any
/// entry holds no person: no partial list is ever handed back.
pub fn members_from_batch(
    group_name: &String,
    reply: Result<Option<Vec<Option<Person>>>, String>,
) -> (r: Result<Vec<Person>, Error>)
    ensures
        match reply {
            Err(c) => match r {
                Err(Error::GetContactGroupMembers { group_name: g, cause }) => g@ == group_name@
                    && cause == c,
                _ => false,
            },
            Ok(None) => match r {
                Err(Error::MissingContactGroupMembers { group_name: g }) => g@ == group_name@,
                _ => false,
            },
            Ok(Some(entries)) => if has_gap(entries@) {
                match r {
                    Err(Error::NonePersonInGroup { group_name: g }) => g@ == group_name@,
                    _ => false,
                }
            } else {
                match r {
                    Ok(people) => people@.len() == entries@.len() && forall|j: int|
                        0 <= j < entries@.len() ==> entries@[j] == Some(#[trigger] people@[j]),
                    _ => false,
                }
            },
        },
{
    match reply {
        Err(c) => Err(Error::GetContactGroupMembers { group_name: group_name.clone(), cause: c }),
        Ok(None) => Err(Error::MissingContactGroupMembers { group_name: group_name.clone() }),
        Ok(Some(entries)) => {
            let ghost all = entries@;
            let mut rest = entries;
            let mut people: Vec<Person> = Vec::new();
            while rest.len() > 0
                invariant
                    reply matches Ok(Some(e)) && e@ == all,
                    people@.len() + rest@.len() == all.len(),
                    rest@ == all.subrange(people@.len() as int, all.len() as int),
                    forall|j: int| 0 <= j < people@.len() ==> all[j] == Some(#[trigger] people@[j]),
                decreases rest@.len(),
            {
                let entry = rest.remove(0);
                match entry {
                    Some(p) => people.push(p),
                    None => {
                        assert(all[people@.len() as int] is None);
                        assert(has_gap(all));
                        return Err(Error::NonePersonInGroup { group_name: group_name.clone() });
                    },
                }
            }
            assert forall|j: int| 0 <= j < all.len() implies !(all[j] is None) by {
                assert(all[j] == Some(people@[j]));
            }
            Ok(people)
        },
    }
}

} // verus!
