//! The string operations that extraction and output rest on.
use vstd::prelude::*;

verus! {

/// `s` with leading and trailing whitespace removed, as `str::trim` does it.
pub uninterp spec fn trimmed(s: Seq<char>) -> Seq<char>;

/// Relies on `str::trim`, whose result depends on the characters of `s`
/// alone.
#[verifier::external_body]
pub(crate) fn trim(s: &String) -> (r: String)
    ensures
        r@ == trimmed(s@),
{
    s.trim().to_string()
}

/// `s` with every space character left out.
pub open spec fn without_spaces(s: Seq<char>) -> Seq<char> {
    s.filter(|c: char| c != ' ')
}

/// `s` with its spaces taken out, every other character kept in order.
pub fn strip_spaces(s: &String) -> (r: String)
    ensures
        r@ == without_spaces(s@),
{
    let t = s.as_str();
    let n = t.unicode_len();
    let mut out = String::new();
    let mut i: usize = 0;
    while i < n
        invariant
            n == t@.len(),
            t@ == s@,
            i <= n,
            out@ == without_spaces(t@.subrange(0, i as int)),
        decreases n - i,
    {
        let c = t.get_char(i);
        proof {
            assert(t@.subrange(0, i + 1) =~= t@.subrange(0, i as int).push(c));
            t@.subrange(0, i as int).lemma_filter_push(c, |x: char| x != ' ');
        }
        if c != ' ' {
            out.append(t.substring_char(i, i + 1));
            assert(t@.subrange(i as int, i + 1) =~= seq![c]);
        }
        i = i + 1;
    }
    assert(t@.subrange(0, n as int) =~= t@);
    out
}

/// The items of `items` one after another, with `sep` between neighbours.
pub open spec fn joined(items: Seq<Seq<char>>, sep: Seq<char>) -> Seq<char>
    decreases items.len(),
{
    if items.len() == 0 {
        Seq::empty()
    } else if items.len() == 1 {
        items[0]
    } else {
        joined(items.drop_last(), sep) + sep + items.last()
    }
}

/// The characters of each string, in order.
pub open spec fn views(items: Seq<String>) -> Seq<Seq<char>> {
    items.map_values(|s: String| s@)
}

/// The values separated by semicolons, as a group's details are printed.
pub fn join_details(details: &Vec<String>) -> (r: String)
    ensures
        r@ == joined(views(details@), ";"@),
{
    let mut out = String::new();
    let mut i: usize = 0;
    while i < details.len()
        invariant
            i <= details@.len(),
            out@ == joined(views(details@.subrange(0, i as int)), ";"@),
        decreases details@.len() - i,
    {
        assert(views(details@.subrange(0, i + 1)).drop_last() =~= views(
            details@.subrange(0, i as int),
        ));
        if i > 0 {
            out.append(";");
        }
        out.append(details[i].as_str());
        i = i + 1;
    }
    assert(details@.subrange(0, details@.len() as int) =~= details@);
    out
}

} // verus!
