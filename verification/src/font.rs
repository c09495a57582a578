//! Which font file is used.
use vstd::prelude::*;
use vstd::string::*;

verus! {

/// How many places are searched for a font.
pub const CANDIDATES: usize = 4;

/// The places searched for a font, in order.
pub open spec fn candidate_path(i: int) -> Seq<char> {
    if i == 0 {
        "/usr/share/fonts/truetype/dejavu/DejaVuSans.ttf"@
    } else if i == 1 {
        "/usr/share/fonts/truetype/liberation/LiberationSans-Regular.ttf"@
    } else if i == 2 {
        "/usr/share/fonts/TTF/DejaVuSans.ttf"@
    } else {
        "/usr/share/fonts/dejavu/DejaVuSans.ttf"@
    }
}

/// The first place, from `i` on, at which there is a file; the first place of all
/// where there is none.
pub open spec fn first_present(present: Seq<bool>, i: int) -> int
    decreases present.len() - i,
{
    if i >= present.len() {
        0
    } else if present[i] {
        i
    } else {
        first_present(present, i + 1)
    }
}

/// The place searched at index `i`.
pub fn candidate(i: usize) -> (path: &'static str)
    requires
        i < CANDIDATES,
    ensures
        path@ == candidate_path(i as int),
{
    match i {
        0 => "/usr/share/fonts/truetype/dejavu/DejaVuSans.ttf",
        1 => "/usr/share/fonts/truetype/liberation/LiberationSans-Regular.ttf",
        2 => "/usr/share/fonts/TTF/DejaVuSans.ttf",
        _ => "/usr/share/fonts/dejavu/DejaVuSans.ttf",
    }
}

/// The first place at which there is a file; the first place of all where there is
/// none.
fn search(present: &[bool; CANDIDATES]) -> (i: usize)
    ensures
        i < CANDIDATES,
        i == first_present(present@, 0),
{
    let mut i: usize = 0;
    while i < CANDIDATES
        invariant
            i <= CANDIDATES,
            first_present(present@, 0) == first_present(present@, i as int),
        decreases CANDIDATES - i,
    {
        if present[i] {
            return i;
        }
        i = i + 1;
    }
    0
}

/// The font file to use: the one that was asked for, or else the first place
/// searched at which there is a file, or else the first place searched, so that
/// loading it fails with a clear path. `present` tells at which places there is a
/// file.
pub fn find_font(wanted: Option<String>, present: &[bool; CANDIDATES]) -> (path: String)
    ensures
        path@ == match wanted {
            Some(wanted) => wanted@,
            None => candidate_path(first_present(present@, 0)),
        },
        wanted is None && present@[0] ==> path@
            == "/usr/share/fonts/truetype/dejavu/DejaVuSans.ttf"@,
        wanted is None && !present@[0] && present@[1] ==> path@
            == "/usr/share/fonts/truetype/liberation/LiberationSans-Regular.ttf"@,
        wanted is None && !present@[0] && !present@[1] && present@[2] ==> path@
            == "/usr/share/fonts/TTF/DejaVuSans.ttf"@,
        wanted is None && !present@[0] && !present@[1] && !present@[2] && present@[3] ==> path@
            == "/usr/share/fonts/dejavu/DejaVuSans.ttf"@,
        wanted is None && !present@[0] && !present@[1] && !present@[2] && !present@[3] ==> path@
            == "/usr/share/fonts/truetype/dejavu/DejaVuSans.ttf"@,
{
    proof {
        reveal_with_fuel(first_present, 5);
    }
    match wanted {
        Some(wanted) => wanted,
        None => String::from_str(candidate(search(present))),
    }
}

/// The font found is at the earliest place that has a file.
pub proof fn earliest_font_wins(present: Seq<bool>, i: int)
    requires
        0 <= i < present.len(),
        present[i],
        forall|k: int| 0 <= k < i ==> !#[trigger] present[k],
    ensures
        first_present(present, 0) == i,
{
    search_reaches(present, 0, i);
}

/// The search passes over places without a file.
proof fn search_reaches(present: Seq<bool>, from: int, i: int)
    requires
        0 <= from <= i < present.len(),
        present[i],
        forall|k: int| 0 <= k < i ==> !#[trigger] present[k],
    ensures
        first_present(present, from) == i,
    decreases i - from,
{
    if from < i {
        search_reaches(present, from + 1, i);
    }
}

/// Where no place has a file, the first place is named.
pub proof fn missing_fonts_name_the_first_place(present: Seq<bool>, from: int)
    requires
        0 <= from <= present.len(),
        forall|k: int| 0 <= k < present.len() ==> !#[trigger] present[k],
    ensures
        first_present(present, from) == 0,
    decreases present.len() - from,
{
    if from < present.len() {
        missing_fonts_name_the_first_place(present, from + 1);
    }
}

/// The places searched, in order.
pub proof fn places_in_order(i: int)
    ensures
        i == 0 ==> candidate_path(i) == "/usr/share/fonts/truetype/dejavu/DejaVuSans.ttf"@,
        i == 1 ==> candidate_path(i)
            == "/usr/share/fonts/truetype/liberation/LiberationSans-Regular.ttf"@,
        i == 2 ==> candidate_path(i) == "/usr/share/fonts/TTF/DejaVuSans.ttf"@,
        i == 3 ==> candidate_path(i) == "/usr/share/fonts/dejavu/DejaVuSans.ttf"@,
{
}

} // verus!
