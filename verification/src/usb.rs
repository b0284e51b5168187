//! Picking the display device out of what the bus enumerates.

use vstd::prelude::*;

verus! {

/// The two numbers by which a device on the bus says what it is.
#[derive(Clone, Copy, Debug, PartialEq, Eq, Structural)]
pub struct UsbId {
    pub vendor: u16,
    pub product: u16,
}

/// Position of the first device at or after `start` that carries `wanted`.
pub open spec fn first_match(devices: Seq<UsbId>, wanted: UsbId, start: int) -> Option<int>
    decreases devices.len() - start,
{
    if start < 0 || start >= devices.len() {
        None
    } else if devices[start] == wanted {
        Some(start)
    } else {
        first_match(devices, wanted, start + 1)
    }
}

/// What `first_match` finds is a device that carries `wanted`, and no device
/// between `start` and it does; where it finds none, there is none.
pub proof fn lemma_first_match(devices: Seq<UsbId>, wanted: UsbId, start: int)
    requires
        0 <= start,
    ensures
        match first_match(devices, wanted, start) {
            Some(i) => {
                &&& start <= i < devices.len()
                &&& devices[i] == wanted
                &&& forall|j: int| start <= j < i ==> devices[j] != wanted
            },
            None => forall|j: int| start <= j < devices.len() ==> devices[j] != wanted,
        },
    decreases devices.len() - start,
{
    if start < devices.len() && devices[start] != wanted {
        lemma_first_match(devices, wanted, start + 1);
    }
}

/// Finds the display among the enumerated devices: the position of the first
/// one whose vendor and product numbers are those wanted.
pub fn get_kindle(devices: &Vec<UsbId>, wanted: UsbId) -> (found: Option<usize>)
    ensures
        found is Some <==> first_match(devices@, wanted, 0) is Some,
        found is Some ==> found->0 == first_match(devices@, wanted, 0)->0,
        found is Some ==> found->0 < devices.len() && devices[found->0 as int] == wanted,
        found is Some ==> forall|j: int| 0 <= j < found->0 ==> devices[j] != wanted,
        found is None ==> forall|j: int| 0 <= j < devices.len() ==> devices[j] != wanted,
{
    let mut i: usize = 0;
    while i < devices.len()
        invariant
            i <= devices.len(),
            first_match(devices@, wanted, 0) == first_match(devices@, wanted, i as int),
        decreases devices.len() - i,
    {
        if devices[i].vendor == wanted.vendor && devices[i].product == wanted.product {
            proof {
                lemma_first_match(devices@, wanted, 0);
            }
            return Some(i);
        }
        i = i + 1;
    }
    proof {
        lemma_first_match(devices@, wanted, 0);
    }
    None
}

} // verus!
