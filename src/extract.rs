//! Flattens the members' email addresses or phone numbers into one list.
use vstd::prelude::*;
use crate::model::{ContactField, ContactKind, Person};
use crate::text::{strip_spaces, trim, trimmed, without_spaces};

verus! {

/// What stands in for a contact field that carries no value.
pub open spec fn missing_value() -> Seq<char> {
    "<missing>"@
}

/// How a field is written out: an email address trimmed of surrounding
/// whitespace, a phone number with its spaces taken out, and a field without
/// a value as the stand-in.
pub open spec fn field_text(f: ContactField, kind: ContactKind) -> Seq<char> {
    match f.value {
        Some(v) => match kind {
            ContactKind::Email => trimmed(v@),
            ContactKind::Phone => without_spaces(v@),
        },
        None => missing_value(),
    }
}

/// The fields of one kind of a person; an absent list counts as empty.
pub open spec fn fields_of(p: Person, kind: ContactKind) -> Seq<ContactField> {
    let list = match kind {
        ContactKind::Email => p.email_addresses,
        ContactKind::Phone => p.phone_numbers,
    };
    match list {
        Some(v) => v@,
        None => Seq::empty(),
    }
}

/// The written-out fields of one person, in their order.
pub open spec fn person_texts(p: Person, kind: ContactKind) -> Seq<Seq<char>> {
    fields_of(p, kind).map_values(|f: ContactField| field_text(f, kind))
}

/// The written-out fields of every person, person by person.
pub open spec fn extracted(people: Seq<Person>, kind: ContactKind) -> Seq<Seq<char>>
    decreases people.len(),
{
    if people.len() == 0 {
        Seq::empty()
    } else {
        extracted(people.drop_last(), kind) + person_texts(people.last(), kind)
    }
}

fn text_of(f: &ContactField, kind: ContactKind) -> (r: String)
    ensures
        r@ == field_text(*f, kind),
{
    match &f.value {
        Some(v) => match kind {
            ContactKind::Email => trim(v),
            ContactKind::Phone => strip_spaces(v),
        },
        None => String::from_str("<missing>"),
    }
}

/// Every field of the given kind of every person, in person order and then in
/// each person's own order, with duplicates kept.
pub fn extract(people: &Vec<Person>, kind: ContactKind) -> (r: Vec<String>)
    ensures
        r@.map_values(|s: String| s@) == extracted(people@, kind),
{
    let mut out: Vec<String> = Vec::new();
    let mut i: usize = 0;
    while i < people.len()
        invariant
            i <= people@.len(),
            out@.map_values(|s: String| s@) == extracted(people@.subrange(0, i as int), kind),
        decreases people@.len() - i,
    {
        assert(people@.subrange(0, i + 1).drop_last() =~= people@.subrange(0, i as int));
        let person = &people[i];
        let list = match kind {
            ContactKind::Email => &person.email_addresses,
            ContactKind::Phone => &person.phone_numbers,
        };
        let ghost before = out@.map_values(|s: String| s@);
        match list {
            Some(fields) => {
                assert(fields@ == fields_of(*person, kind));
                let mut j: usize = 0;
                while j < fields.len()
                    invariant
                        i < people@.len(),
                        person == &people@[i as int],
                        j <= fields@.len(),
                        fields@ == fields_of(*person, kind),
                        out@.map_values(|s: String| s@) == before + fields@.subrange(
                            0,
                            j as int,
                        ).map_values(|f: ContactField| field_text(f, kind)),
                    decreases fields@.len() - j,
                {
                    let t = text_of(&fields[j], kind);
                    let ghost prev = out@;
                    out.push(t);
                    assert(out@.map_values(|s: String| s@) =~= prev.map_values(|s: String| s@).push(
                        t@,
                    ));
                    assert(fields@.subrange(0, j + 1).map_values(
                        |f: ContactField| field_text(f, kind),
                    ) =~= fields@.subrange(0, j as int).map_values(
                        |f: ContactField| field_text(f, kind),
                    ).push(field_text(fields@[j as int], kind)));
                    assert(out@.map_values(|s: String| s@) =~= before + fields@.subrange(
                        0,
                        j + 1,
                    ).map_values(|f: ContactField| field_text(f, kind)));
                    j = j + 1;
                }
                assert(fields@.subrange(0, fields@.len() as int) =~= fields@);
            },
            None => {
                assert(person_texts(*person, kind) =~= Seq::<Seq<char>>::empty());
                assert(before + person_texts(*person, kind) =~= before);
            },
        }
        i = i + 1;
    }
    assert(people@.subrange(0, people@.len() as int) =~= people@);
    out
}

} // verus!
