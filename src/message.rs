//! The text that describes an error, with the errors it wraps.
use vstd::prelude::*;
use crate::error::Error;

verus! {

/// The character of a decimal digit.
pub open spec fn digit_char(d: nat) -> char {
    seq!['0', '1', '2', '3', '4', '5', '6', '7', '8', '9'][d as int]
}

/// `n` written in decimal, without leading zeros.
pub open spec fn decimal(n: nat) -> Seq<char>
    decreases n,
{
    if n < 10 {
        seq![digit_char(n)]
    } else {
        decimal(n / 10) + seq![digit_char(n % 10)]
    }
}

fn digit_str(d: usize) -> (r: &'static str)
    requires
        d < 10,
    ensures
        r@ == seq![digit_char(d as nat)],
{
    proof {
        reveal_strlit("0");
        reveal_strlit("1");
        reveal_strlit("2");
        reveal_strlit("3");
        reveal_strlit("4");
        reveal_strlit("5");
        reveal_strlit("6");
        reveal_strlit("7");
        reveal_strlit("8");
        reveal_strlit("9");
    }
    let r = match d {
        0 => "0",
        1 => "1",
        2 => "2",
        3 => "3",
        4 => "4",
        5 => "5",
        6 => "6",
        7 => "7",
        8 => "8",
        _ => "9",
    };
    assert(r@ =~= seq![digit_char(d as nat)]);
    r
}

/// `n` written in decimal.
pub fn decimal_string(n: usize) -> (r: String)
    ensures
        r@ == decimal(n as nat),
{
    let mut m: usize = n;
    let mut out = String::new();
    while m >= 10
        invariant
            decimal(n as nat) == decimal(m as nat) + out@,
        decreases m,
    {
        let mut t = String::from_str(digit_str(m % 10));
        t.append(out.as_str());
        proof {
            assert(decimal(m as nat) == decimal((m / 10) as nat) + seq![digit_char((m % 10) as nat)]);
            assert(decimal(m as nat) + out@ =~= decimal((m / 10) as nat) + t@);
        }
        out = t;
        m = m / 10;
    }
    let mut t = String::from_str(digit_str(m));
    t.append(out.as_str());
    assert(decimal(m as nat) + out@ =~= t@);
    t
}

/// What an error says, followed by what the errors it wraps say.
pub open spec fn message_of(e: Error) -> Seq<char>
    decreases e,
{
    match e {
        Error::GetContactGroups { cause } => "Could not get contact groups: "@ + cause@,
        Error::GetContactGroup { group_name, cause } => "Could not get contact group '"@ + group_name@ + "': "@ + cause@,
        Error::GetContactGroupResourceName { group_name } => "No resource name for contact group '"@ + group_name@ + "' exists"@,
        Error::NoContactGroups => "No contact groups exist"@,
        Error::NonUniqueContactGroupName { group_name, found } => "Found "@ + decimal(found as nat) + " contact groups with the name '"@ + group_name@ + "', there can only be one"@,
        Error::NoContactGroupsFoundByName { group_name, closest } => "No groups were found with the name '"@ + group_name@ + "', did you mean '"@ + closest@ + "'?"@,
        Error::NoGroupMemberResourceNames { group_name } => "No members were found in the group '"@ + group_name@ + "'"@,
        Error::GetPersonByResourceName { resource_name, cause } => "Could not get person with resource name '"@ + resource_name@ + "': "@ + cause@,
        Error::GetContactGroupMembers { group_name, cause } => "Could not get group members for group '"@ + group_name@ + "': "@ + cause@,
        Error::GetGroupEmails { group_name, source } => "Could not get emails for group '"@ + group_name@ + "': "@ + message_of(*source),
        Error::GetGroupPhones { group_name, source } => "Could not get phones for group '"@ + group_name@ + "': "@ + message_of(*source),
        Error::NonePersonInGroup { group_name } => "Found a 'None' person in group '"@ + group_name@ + "'"@,
        Error::GetMembers { group_name, source } => "Could not get members in group '"@ + group_name@ + "': "@ + message_of(*source),
        Error::MissingContactGroupMembers { group_name } => "No contact group members were found for contact group '"@ + group_name@ + "'"@,
    }
}

impl Error {
    /// The description of this error and of the chain of errors it wraps.
    pub fn message(&self) -> (r: String)
        ensures
            r@ == message_of(*self),
        decreases self,
    {
        match self {
            Error::GetContactGroups { cause } => String::from_str("Could not get contact groups: ").concat(cause.as_str()),
            Error::GetContactGroup { group_name, cause } => String::from_str("Could not get contact group '").concat(group_name.as_str()).concat("': ").concat(cause.as_str()),
            Error::GetContactGroupResourceName { group_name } => String::from_str("No resource name for contact group '").concat(group_name.as_str()).concat("' exists"),
            Error::NoContactGroups => String::from_str("No contact groups exist"),
            Error::NonUniqueContactGroupName { group_name, found } => String::from_str("Found ").concat(decimal_string(*found).as_str()).concat(" contact groups with the name '").concat(group_name.as_str()).concat("', there can only be one"),
            Error::NoContactGroupsFoundByName { group_name, closest } => String::from_str("No groups were found with the name '").concat(group_name.as_str()).concat("', did you mean '").concat(closest.as_str()).concat("'?"),
            Error::NoGroupMemberResourceNames { group_name } => String::from_str("No members were found in the group '").concat(group_name.as_str()).concat("'"),
            Error::GetPersonByResourceName { resource_name, cause } => String::from_str("Could not get person with resource name '").concat(resource_name.as_str()).concat("': ").concat(cause.as_str()),
            Error::GetContactGroupMembers { group_name, cause } => String::from_str("Could not get group members for group '").concat(group_name.as_str()).concat("': ").concat(cause.as_str()),
            Error::GetGroupEmails { group_name, source } => String::from_str("Could not get emails for group '").concat(group_name.as_str()).concat("': ").concat(source.message().as_str()),
            Error::GetGroupPhones { group_name, source } => String::from_str("Could not get phones for group '").concat(group_name.as_str()).concat("': ").concat(source.message().as_str()),
            Error::NonePersonInGroup { group_name } => String::from_str("Found a 'None' person in group '").concat(group_name.as_str()).concat("'"),
            Error::GetMembers { group_name, source } => String::from_str("Could not get members in group '").concat(group_name.as_str()).concat("': ").concat(source.message().as_str()),
            Error::MissingContactGroupMembers { group_name } => String::from_str("No contact group members were found for contact group '").concat(group_name.as_str()).concat("'"),
        }
    }
}

} // verus!
