//! The birds of the clock face: each hour of the dial has one.

use vstd::prelude::*;
use vstd::string::*;

verus! {

/// The name of the bird of the given hour of the twelve-hour dial; empty
/// for a number that is no hour of the dial.
pub open spec fn hour_name(hour12: u32) -> Seq<char> {
    match hour12 {
        1 => "Wren"@,
        2 => "Tanager"@,
        3 => "Northern Oriole"@,
        4 => "Ruby-crowned Kinglet"@,
        5 => "Tufted Titmouse"@,
        6 => "Altamira Oriole"@,
        7 => "Phoebe"@,
        8 => "Red Breasted Nuthatch"@,
        9 => "Mockingbird"@,
        10 => "Flycatcher"@,
        11 => "Vireo"@,
        12 => "Great Horned Owl"@,
        _ => ""@,
    }
}

/// The name that is written under the picture of the hour.
pub fn get_name_for_hour12(hour12: u32) -> (name: String)
    ensures
        name@ == hour_name(hour12),
{
    let name: &'static str = match hour12 {
        1 => "Wren",
        2 => "Tanager",
        3 => "Northern Oriole",
        4 => "Ruby-crowned Kinglet",
        5 => "Tufted Titmouse",
        6 => "Altamira Oriole",
        7 => "Phoebe",
        8 => "Red Breasted Nuthatch",
        9 => "Mockingbird",
        10 => "Flycatcher",
        11 => "Vireo",
        12 => "Great Horned Owl",
        _ => "",
    };
    String::from_str(name)
}

} // verus!
