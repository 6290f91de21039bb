//! The records that the contacts service hands out, as plain values.
use vstd::prelude::*;

verus! {

/// One email address or phone number of a person.
#[derive(Clone, Debug, PartialEq, Eq)]
pub struct ContactField {
    pub value: Option<String>,
}

/// A person, with the two kinds of contact field that this library reads.
#[derive(Clone, Debug, PartialEq, Eq)]
pub struct Person {
    pub resource_name: Option<String>,
    pub email_addresses: Option<Vec<ContactField>>,
    pub phone_numbers: Option<Vec<ContactField>>,
}

/// A contact group. A listing leaves `member_resource_names` out; a detail
/// fetch fills it in.
#[derive(Clone, Debug, PartialEq, Eq)]
pub struct ContactGroup {
    pub resource_name: Option<String>,
    pub name: Option<String>,
    pub member_resource_names: Option<Vec<String>>,
}

/// Which contact field to extract from a group's members.
#[derive(Clone, Copy, Debug, PartialEq, Eq)]
pub enum ContactKind {
    Email,
    Phone,
}

/// True when the group carries a display name equal to `name`.
pub open spec fn named(g: ContactGroup, name: Seq<char>) -> bool {
    match g.name {
        Some(n) => n@ == name,
        None => false,
    }
}

/// The display name of a group, empty when it has none.
pub open spec fn label(g: ContactGroup) -> Seq<char> {
    match g.name {
        Some(n) => n@,
        None => Seq::empty(),
    }
}

} // verus!
