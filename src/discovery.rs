use vstd::prelude::*;

verus! {

/// The first id of `current` that `initial` does not hold, if there is one.
pub open spec fn first_new(initial: Seq<u16>, current: Seq<u16>) -> Option<u16>
    decreases current.len(),
{
    if current.len() == 0 {
        None
    } else if !initial.contains(current[0]) {
        Some(current[0])
    } else {
        first_new(initial, current.drop_first())
    }
}

fn holds(ids: &Vec<u16>, id: u16) -> (r: bool)
    ensures
        r == ids@.contains(id),
{
    let mut i: usize = 0;
    while i < ids.len()
        invariant
            i <= ids@.len(),
            forall|j: int| 0 <= j < i ==> ids@[j] != id,
        decreases ids@.len() - i,
    {
        if ids[i] == id {
            return true;
        }
        i = i + 1;
    }
    false
}

/// Compares two scans of connected devices and picks the one that was plugged in
/// between them: the first product id of `current` missing from `initial`.
pub fn find_new_device(initial: &Vec<u16>, current: &Vec<u16>) -> (r: Option<u16>)
    ensures
        r == first_new(initial@, current@),
        r is None <==> forall|i: int| 0 <= i < current@.len() ==> initial@.contains(
            #[trigger] current@[i],
        ),
        r matches Some(id) ==> current@.contains(id) && !initial@.contains(id),
{
    let ghost c = current@;
    let mut i: usize = 0;
    assert(c.subrange(0, c.len() as int) == c);
    while i < current.len()
        invariant
            i <= c.len(),
            c == current@,
            forall|j: int| 0 <= j < i ==> initial@.contains(#[trigger] c[j]),
            first_new(initial@, c) == first_new(initial@, c.subrange(i as int, c.len() as int)),
        decreases c.len() - i,
    {
        assert(c.subrange(i as int, c.len() as int).drop_first() == c.subrange(i + 1, c.len() as int));
        let id = current[i];
        if !holds(initial, id) {
            assert(c.subrange(i as int, c.len() as int)[0] == id);
            return Some(id);
        }
        i = i + 1;
    }
    assert(c.subrange(i as int, c.len() as int).len() == 0);
    None
}

} // verus!
