use enmass::extract::extract;
use enmass::greeting::{hello_world, hello_you};
use enmass::message::decimal_string;
use enmass::lookup::{group_details, group_to_fetch, members_failure, MAX_MEMBERS, PERSON_FIELDS};
use enmass::members::{
    contact_groups_from_list, group_from_detail, group_resource_name, member_resource_names,
    members_from_batch, person_from_reply,
};
use enmass::resolve::{closest_index, select_contact_group, suggest_closest};
use enmass::text::{join_details, strip_spaces};
use enmass::{ContactField, ContactGroup, ContactKind, Error, Person};

fn s(x: &str) -> String {
    x.to_string()
}

fn group(resource: Option<&str>, name: Option<&str>) -> ContactGroup {
    ContactGroup {
        resource_name: resource.map(s),
        name: name.map(s),
        member_resource_names: None,
    }
}

fn field(v: Option<&str>) -> ContactField {
    ContactField { value: v.map(s) }
}

fn person(id: &str, emails: Option<Vec<ContactField>>, phones: Option<Vec<ContactField>>) -> Person {
    Person {
        resource_name: Some(s(id)),
        email_addresses: emails,
        phone_numbers: phones,
    }
}

#[test]
fn it_works() {
    assert_eq!(2 + 2, 4);
}

#[test]
fn exact_match_comes_back_unchanged() {
    let wanted = ContactGroup {
        resource_name: Some(s("contactGroups/2")),
        name: Some(s("Family")),
        member_resource_names: Some(vec![s("people/1")]),
    };
    let groups = vec![group(Some("contactGroups/1"), Some("Friends")), wanted.clone(), group(Some("contactGroups/3"), Some("family"))];
    assert_eq!(select_contact_group(&s("Family"), groups), Ok(wanted));
}

#[test]
fn duplicate_names_are_counted() {
    let groups = vec![
        group(Some("a"), Some("Team")),
        group(Some("b"), Some("Other")),
        group(Some("c"), Some("Team")),
        group(Some("d"), Some("Team")),
    ];
    assert_eq!(
        select_contact_group(&s("Team"), groups),
        Err(Error::NonUniqueContactGroupName { group_name: s("Team"), found: 3 })
    );
}

#[test]
fn two_duplicates() {
    let groups = vec![group(Some("a"), Some("Team")), group(Some("b"), Some("Team"))];
    assert_eq!(
        select_contact_group(&s("Team"), groups),
        Err(Error::NonUniqueContactGroupName { group_name: s("Team"), found: 2 })
    );
}

#[test]
fn empty_listing_has_no_groups() {
    assert_eq!(select_contact_group(&s("Anything"), vec![]), Err(Error::NoContactGroups));
}

#[test]
fn nearest_name_is_suggested() {
    let groups = vec![group(Some("a"), Some("Friends")), group(Some("b"), Some("Frenemies"))];
    assert_eq!(
        select_contact_group(&s("Frend"), groups),
        Err(Error::NoContactGroupsFoundByName { group_name: s("Frend"), closest: s("Friends") })
    );
}

#[test]
fn nearest_name_not_first_in_list() {
    let groups = vec![group(Some("a"), Some("Frenemies")), group(Some("b"), Some("Friends"))];
    assert_eq!(
        suggest_closest(&s("Frend"), &groups),
        Error::NoContactGroupsFoundByName { group_name: s("Frend"), closest: s("Friends") }
    );
}

#[test]
fn equally_near_names_keep_list_order() {
    let groups = vec![group(Some("a"), Some("abd")), group(Some("b"), Some("abc")), group(Some("c"), Some("abe"))];
    assert_eq!(
        select_contact_group(&s("abx"), groups),
        Err(Error::NoContactGroupsFoundByName { group_name: s("abx"), closest: s("abd") })
    );
}

#[test]
fn matching_is_case_sensitive() {
    let groups = vec![group(Some("a"), Some("friends"))];
    assert_eq!(
        select_contact_group(&s("Friends"), groups),
        Err(Error::NoContactGroupsFoundByName { group_name: s("Friends"), closest: s("friends") })
    );
}

#[test]
fn unnamed_group_never_matches() {
    let groups = vec![group(Some("a"), None)];
    assert_eq!(select_contact_group(&s(""), groups), Err(Error::NoContactGroups));
    let groups = vec![group(Some("a"), None), group(Some("b"), None)];
    assert_eq!(select_contact_group(&s("x"), groups), Err(Error::NoContactGroups));
}

#[test]
fn unnamed_group_is_never_suggested() {
    let groups = vec![group(Some("a"), None), group(Some("b"), Some("Zebra")), group(Some("c"), None)];
    assert_eq!(
        select_contact_group(&s("x"), groups),
        Err(Error::NoContactGroupsFoundByName { group_name: s("x"), closest: s("Zebra") })
    );
}

#[test]
fn edit_distances() {
    assert_eq!(strsim::levenshtein("Frend", "Friends"), 2);
    assert_eq!(strsim::levenshtein("Frend", "Frenemies"), 5);
    assert_eq!(strsim::levenshtein("kitten", "sitting"), 3);
    assert_eq!(strsim::levenshtein("", "abc"), 3);
}

#[test]
fn closest_index_picks_first_least() {
    assert_eq!(closest_index(&vec![]), None);
    assert_eq!(closest_index(&vec![4, 2, 7, 2]), Some(1));
    assert_eq!(closest_index(&vec![0]), Some(0));
}

#[test]
fn emails_are_trimmed() {
    let people = vec![person("people/1", Some(vec![field(Some(" a@b.com "))]), None)];
    assert_eq!(extract(&people, ContactKind::Email), vec![s("a@b.com")]);
}

#[test]
fn phones_lose_their_spaces() {
    let people = vec![person("people/1", None, Some(vec![field(Some("555 123 456"))]))];
    assert_eq!(extract(&people, ContactKind::Phone), vec![s("555123456")]);
}

#[test]
fn phones_are_not_trimmed_otherwise() {
    let people = vec![person("people/1", None, Some(vec![field(Some("\t555 1\n"))]))];
    assert_eq!(extract(&people, ContactKind::Phone), vec![s("\t5551\n")]);
}

#[test]
fn missing_values_get_a_marker() {
    let people = vec![person("people/1", Some(vec![field(None)]), Some(vec![field(None)]))];
    assert_eq!(extract(&people, ContactKind::Email), vec![s("<missing>")]);
    assert_eq!(extract(&people, ContactKind::Phone), vec![s("<missing>")]);
}

#[test]
fn absent_lists_count_as_empty() {
    let people = vec![
        person("people/1", None, None),
        person("people/2", Some(vec![field(Some("x@y.z")), field(Some("x@y.z"))]), None),
        person("people/3", Some(vec![field(Some("w@y.z"))]), None),
    ];
    assert_eq!(extract(&people, ContactKind::Email), vec![s("x@y.z"), s("x@y.z"), s("w@y.z")]);
    assert_eq!(extract(&people, ContactKind::Phone), Vec::<String>::new());
    assert_eq!(extract(&vec![], ContactKind::Email), Vec::<String>::new());
}

#[test]
fn gap_in_batch_fails_whole_fetch() {
    let entries = vec![Some(person("people/1", None, None)), None, Some(person("people/3", None, None))];
    assert_eq!(
        members_from_batch(&s("Crew"), Ok(Some(entries))),
        Err(Error::NonePersonInGroup { group_name: s("Crew") })
    );
}

#[test]
fn single_gap_in_batch() {
    assert_eq!(
        members_from_batch(&s("Crew"), Ok(Some(vec![None]))),
        Err(Error::NonePersonInGroup { group_name: s("Crew") })
    );
}

#[test]
fn batch_keeps_reply_order() {
    let a = person("people/2", None, None);
    let b = person("people/1", None, None);
    assert_eq!(
        members_from_batch(&s("Crew"), Ok(Some(vec![Some(a.clone()), Some(b.clone())]))),
        Ok(vec![a, b])
    );
}

#[test]
fn batch_without_entries() {
    assert_eq!(
        members_from_batch(&s("Crew"), Ok(None)),
        Err(Error::MissingContactGroupMembers { group_name: s("Crew") })
    );
}

#[test]
fn batch_transport_failure() {
    assert_eq!(
        members_from_batch(&s("Crew"), Err(s("timed out"))),
        Err(Error::GetContactGroupMembers { group_name: s("Crew"), cause: s("timed out") })
    );
}

#[test]
fn listing_outcomes() {
    assert_eq!(contact_groups_from_list(Err(s("refused"))), Err(Error::GetContactGroups { cause: s("refused") }));
    assert_eq!(contact_groups_from_list(Ok(None)), Err(Error::NoContactGroups));
    let groups = vec![group(Some("a"), Some("A"))];
    assert_eq!(contact_groups_from_list(Ok(Some(groups.clone()))), Ok(groups));
}

#[test]
fn resource_name_is_needed() {
    assert_eq!(
        group_resource_name(&s("Crew"), &group(None, Some("Crew"))),
        Err(Error::GetContactGroupResourceName { group_name: s("Crew") })
    );
    assert_eq!(group_resource_name(&s("Crew"), &group(Some("contactGroups/9"), Some("Crew"))), Ok(s("contactGroups/9")));
}

#[test]
fn detail_failure_is_wrapped() {
    assert_eq!(
        group_from_detail(&s("Crew"), Err(s("404"))),
        Err(Error::GetContactGroup { group_name: s("Crew"), cause: s("404") })
    );
}

#[test]
fn member_names_must_be_present_and_not_empty() {
    let mut g = group(Some("a"), Some("Crew"));
    assert_eq!(
        member_resource_names(&s("Crew"), g.clone()),
        Err(Error::NoGroupMemberResourceNames { group_name: s("Crew") })
    );
    g.member_resource_names = Some(vec![]);
    assert_eq!(
        member_resource_names(&s("Crew"), g.clone()),
        Err(Error::NoGroupMemberResourceNames { group_name: s("Crew") })
    );
    g.member_resource_names = Some(vec![s("people/1"), s("people/2")]);
    assert_eq!(member_resource_names(&s("Crew"), g), Ok(vec![s("people/1"), s("people/2")]));
}

#[test]
fn single_person_fetch() {
    let p = person("people/5", None, None);
    assert_eq!(person_from_reply(&s("people/5"), Ok(p.clone())), Ok(p));
    assert_eq!(
        person_from_reply(&s("people/5"), Err(s("gone"))),
        Err(Error::GetPersonByResourceName { resource_name: s("people/5"), cause: s("gone") })
    );
}

#[test]
fn first_stage_outcomes() {
    assert_eq!(group_to_fetch(&s("Crew"), Err(s("down"))), Err(Error::GetContactGroups { cause: s("down") }));
    assert_eq!(group_to_fetch(&s("Crew"), Ok(None)), Err(Error::NoContactGroups));
    assert_eq!(group_to_fetch(&s("Crew"), Ok(Some(vec![]))), Err(Error::NoContactGroups));
    assert_eq!(
        group_to_fetch(&s("Crew"), Ok(Some(vec![group(None, Some("Crew"))]))),
        Err(Error::GetContactGroupResourceName { group_name: s("Crew") })
    );
    assert_eq!(
        group_to_fetch(&s("Crew"), Ok(Some(vec![group(Some("contactGroups/7"), Some("Crew"))]))),
        Ok(s("contactGroups/7"))
    );
}

#[test]
fn failures_are_chained() {
    let inner = Error::NoGroupMemberResourceNames { group_name: s("Crew") };
    let outer = members_failure(&s("Crew"), inner);
    assert_eq!(
        outer,
        Error::GetMembers {
            group_name: s("Crew"),
            source: Box::new(Error::NoGroupMemberResourceNames { group_name: s("Crew") }),
        }
    );
    assert_eq!(
        group_details(&s("Crew"), ContactKind::Email, Err(outer)),
        Err(Error::GetGroupEmails {
            group_name: s("Crew"),
            source: Box::new(Error::GetMembers {
                group_name: s("Crew"),
                source: Box::new(Error::NoGroupMemberResourceNames { group_name: s("Crew") }),
            }),
        })
    );
    assert_eq!(
        group_details(&s("Crew"), ContactKind::Phone, Err(Error::NoContactGroups)),
        Err(Error::GetGroupPhones { group_name: s("Crew"), source: Box::new(Error::NoContactGroups) })
    );
}

#[test]
fn join_with_semicolons() {
    assert_eq!(join_details(&vec![]), s(""));
    assert_eq!(join_details(&vec![s("one")]), s("one"));
    assert_eq!(join_details(&vec![s("a"), s(""), s("c")]), s("a;;c"));
}

#[test]
fn engineering_emails_end_to_end() {
    let name = s("Engineering");
    let listing = Ok(Some(vec![
        group(Some("contactGroups/1"), Some("Sales")),
        group(Some("contactGroups/2"), Some("Engineering")),
    ]));
    let resource_name = group_to_fetch(&name, listing).unwrap();
    assert_eq!(resource_name, s("contactGroups/2"));
    assert_eq!(MAX_MEMBERS, 100);
    assert_eq!(PERSON_FIELDS, "emailAddresses,phoneNumbers");
    let detail = ContactGroup {
        resource_name: Some(resource_name),
        name: Some(name.clone()),
        member_resource_names: Some(vec![s("people/a"), s("people/b")]),
    };
    let group = group_from_detail(&name, Ok(detail)).unwrap();
    let ids = member_resource_names(&name, group).unwrap();
    assert_eq!(ids.len(), 2);
    let batch = vec![
        Some(person("people/a", Some(vec![field(Some("alice@x.com"))]), None)),
        Some(person("people/b", Some(vec![field(Some(" bob@x.com"))]), None)),
    ];
    let members = members_from_batch(&name, Ok(Some(batch)));
    let emails = group_details(&name, ContactKind::Email, members).unwrap();
    assert_eq!(join_details(&emails), s("alice@x.com;bob@x.com"));
}

#[test]
fn greetings() {
    assert_eq!(hello_you(s("Ada")), s("hello, Ada"));
    assert_eq!(hello_world(), s("hello, world!"));
}

#[test]
fn decimals() {
    assert_eq!(decimal_string(0), s("0"));
    assert_eq!(decimal_string(7), s("7"));
    assert_eq!(decimal_string(10), s("10"));
    assert_eq!(decimal_string(305), s("305"));
    assert_eq!(decimal_string(usize::MAX), usize::MAX.to_string());
}

#[test]
fn messages() {
    assert_eq!(Error::NoContactGroups.message(), s("No contact groups exist"));
    assert_eq!(
        Error::NonUniqueContactGroupName { group_name: s("Team"), found: 12 }.message(),
        s("Found 12 contact groups with the name 'Team', there can only be one")
    );
    assert_eq!(
        Error::NoContactGroupsFoundByName { group_name: s("Frend"), closest: s("Friends") }.message(),
        s("No groups were found with the name 'Frend', did you mean 'Friends'?")
    );
    assert_eq!(
        Error::GetContactGroups { cause: s("refused") }.message(),
        s("Could not get contact groups: refused")
    );
}

#[test]
fn chained_message() {
    let e = Error::GetGroupEmails {
        group_name: s("Crew"),
        source: Box::new(Error::GetMembers {
            group_name: s("Crew"),
            source: Box::new(Error::GetContactGroup { group_name: s("Crew"), cause: s("404") }),
        }),
    };
    assert_eq!(
        e.message(),
        s("Could not get emails for group 'Crew': Could not get members in group 'Crew': Could not get contact group 'Crew': 404")
    );
}

#[test]
fn spaces_are_stripped() {
    assert_eq!(strip_spaces(&s("")), s(""));
    assert_eq!(strip_spaces(&s("   ")), s(""));
    assert_eq!(strip_spaces(&s(" +61 4é 12 ")), s("+614é12"));
}
