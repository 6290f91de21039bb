//! Everything that can go wrong while looking up a group and its members.
use vstd::prelude::*;

verus! {

/// A failure, with the group or person it concerns. The variants that end a
/// remote call carry the transport's own message as `cause`; those raised
/// while unwinding carry the error they wrap as `source`.
#[derive(Debug, PartialEq, Eq)]
pub enum Error {
    GetContactGroups { cause: String },
    GetContactGroup { group_name: String, cause: String },
    GetContactGroupResourceName { group_name: String },
    NoContactGroups,
    NonUniqueContactGroupName { group_name: String, found: usize },
    NoContactGroupsFoundByName { group_name: String, closest: String },
    NoGroupMemberResourceNames { group_name: String },
    GetPersonByResourceName { resource_name: String, cause: String },
    GetContactGroupMembers { group_name: String, cause: String },
    GetGroupEmails { group_name: String, source: Box<Error> },
    GetGroupPhones { group_name: String, source: Box<Error> },
    NonePersonInGroup { group_name: String },
    GetMembers { group_name: String, source: Box<Error> },
    MissingContactGroupMembers { group_name: String },
}

} // verus!
