//! Looking a zone name up among the names that are installed.

use vstd::prelude::*;

verus! {

/// Why a zone name is not served.
#[derive(Debug, Clone, Copy, PartialEq, Eq, Structural)]
pub enum LookupError {
    /// The name is not among the installed ones.
    NotFound,
}

/// Whether `location` is the name at `index` of `locations`.
pub open spec fn is_at(locations: Seq<String>, index: int, location: Seq<char>) -> bool {
    0 <= index < locations.len() && locations[index]@ == location
}

/// Where `location` stands first among `locations`, or `NotFound` where it
/// is none of them.
pub fn find_location(locations: &Vec<String>, location: &str) -> (place: Result<
    usize,
    LookupError,
>)
    ensures
        match place {
            Ok(index) => is_at(locations@, index as int, location@) && forall|j: int|
                0 <= j < index ==> !is_at(locations@, j, location@),
            Err(e) => e == LookupError::NotFound && forall|j: int|
                !is_at(locations@, j, location@),
        },
{
    let wanted = location.to_owned();
    let mut i: usize = 0;
    while i < locations.len()
        invariant
            i <= locations.len(),
            wanted@ == location@,
            forall|j: int| 0 <= j < i ==> !is_at(locations@, j, location@),
        decreases locations.len() - i,
    {
        if locations[i] == wanted {
            return Ok(i);
        }
        i = i + 1;
    }
    Err(LookupError::NotFound)
}

} // verus!
