use vstd::prelude::*;

verus! {

/// The names of a listing, as sequences of characters.
pub open spec fn names_of(entries: Seq<String>) -> Seq<Seq<char>> {
    entries.map_values(|s: String| s@)
}

/// Whether `name` occurs in `entries`, found by a scan of the whole listing.
pub fn is_listed(entries: &Vec<String>, name: &str) -> (r: bool)
    ensures
        r == names_of(entries@).contains(name@),
{
    let target = String::from_str(name);
    let mut i: usize = 0;
    while i < entries.len()
        invariant
            0 <= i <= entries@.len(),
            target@ == name@,
            forall|j: int| 0 <= j < i ==> entries@[j]@ != name@,
        decreases entries@.len() - i,
    {
        if entries[i] == target {
            assert(names_of(entries@)[i as int] == name@);
            return true;
        }
        i = i + 1;
    }
    proof {
        if names_of(entries@).contains(name@) {
            let j = choose|j: int| 0 <= j < names_of(entries@).len() && names_of(entries@)[j] == name@;
            assert(entries@[j]@ == name@);
        }
    }
    false
}

} // verus!

verus! {

/// The name of one listing entry: the entry's name, or empty where the
/// remote listing gave none.
pub open spec fn name_or_empty(o: Option<String>) -> Seq<char> {
    match o {
        Some(s) => s@,
        None => Seq::empty(),
    }
}

/// The names of a remote listing, in the listing's order, with an absent
/// name read as the empty name.
pub fn listed_names(entries: &Vec<Option<String>>) -> (r: Vec<String>)
    ensures
        names_of(r@) == entries@.map_values(|o: Option<String>| name_or_empty(o)),
{
    let mut out: Vec<String> = Vec::new();
    let mut i: usize = 0;
    while i < entries.len()
        invariant
            0 <= i <= entries@.len(),
            out@.len() == i,
            forall|j: int| 0 <= j < i ==> out@[j]@ == name_or_empty(#[trigger] entries@[j]),
        decreases entries@.len() - i,
    {
        match &entries[i] {
            Some(s) => out.push(s.clone()),
            None => out.push(String::new()),
        }
        i = i + 1;
    }
    assert(names_of(out@) =~= entries@.map_values(|o: Option<String>| name_or_empty(o)));
    out
}

} // verus!
