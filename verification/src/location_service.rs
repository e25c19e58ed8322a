//! The availability of locations: which requests a call stands for, and the
//! answer for each.

use vstd::prelude::*;
use crate::dispatcher::{available, subject_of, Request, RequestOutcome};
use crate::location_router::{location_codes, LocationEntryView, LocationRouter};
use crate::lookup::is_last;

verus! {

/// The availability of one location: true, false, or unknown where it could
/// not be found out.
#[derive(Debug, PartialEq, Eq)]
pub struct LocationAvailable {
    pub location: String,
    pub is_available: Option<bool>,
    pub alias: String,
}

/// The locations that a call asks for.
#[derive(Debug, PartialEq, Eq)]
pub struct Locations {
    pub locations: Vec<String>,
}

/// The answer for one location: its code, its alias, and its availability.
/// The location is available when its read brought values and the first of
/// them, the value of the location's register, is the one that stands for
/// available; it is unavailable when the read brought values and the first
/// is another or none is there; and its availability is unknown where the
/// location could not be resolved or the device could not be read.
pub fn get_value(outcome: RequestOutcome) -> (answer: LocationAvailable)
    ensures
        answer.location == outcome.location_or_name,
        answer.alias == outcome.alias,
        answer.is_available == match outcome.result {
            Ok(values) => Some(available(values@)),
            Err(_) => None,
        },
{
    let is_available = outcome.availability();
    LocationAvailable { location: outcome.location_or_name, is_available, alias: outcome.alias }
}

/// The requests that a call for some locations stands for: one for each
/// code, in the order of the call.
pub fn locations(requested: &Locations) -> (requests: Vec<Request>)
    ensures
        requests@.len() == requested.locations@.len(),
        forall|i: int|
            0 <= i < requests@.len() ==> #[trigger] requests@[i] == Request::Location(
                requested.locations@[i],
            ),
{
    let mut requests: Vec<Request> = Vec::new();
    let mut i: usize = 0;
    while i < requested.locations.len()
        invariant
            i <= requested.locations.len(),
            requests@.len() == i,
            forall|k: int|
                0 <= k < i ==> #[trigger] requests@[k] == Request::Location(
                    requested.locations@[k],
                ),
        decreases requested.locations.len() - i,
    {
        requests.push(Request::Location(requested.locations[i].clone()));
        i = i + 1;
    }
    requests
}

/// The codes of the first `n` entries that stand for themselves, that is
/// which no later entry replaces, in the order of the table.
pub open spec fn known_codes(entries: Seq<LocationEntryView>, n: int) -> Seq<Seq<char>>
    decreases n,
{
    if n <= 0 {
        Seq::empty()
    } else if is_last(location_codes(entries), entries[n - 1].location_code, n - 1) {
        known_codes(entries, n - 1).push(entries[n - 1].location_code)
    } else {
        known_codes(entries, n - 1)
    }
}

/// The requests that a call for all locations stands for: one for each code
/// that the router knows, each code once, in the order of the table.
pub fn get_all_locations(router: &LocationRouter) -> (requests: Vec<Request>)
    ensures
        requests@.len() == known_codes(router.locations(), router.locations().len() as int).len(),
        forall|i: int|
            0 <= i < requests@.len() ==> (#[trigger] requests@[i]) is Location && subject_of(
                requests@[i],
            ) == known_codes(router.locations(), router.locations().len() as int)[i],
{
    let mut requests: Vec<Request> = Vec::new();
    let n = router.location_count();
    let ghost codes = location_codes(router.locations());
    let mut i: usize = 0;
    while i < n
        invariant
            n == router.locations().len(),
            codes == location_codes(router.locations()),
            i <= n,
            requests@.len() == known_codes(router.locations(), i as int).len(),
            forall|k: int|
                0 <= k < requests@.len() ==> (#[trigger] requests@[k]) is Location && subject_of(
                    requests@[k],
                ) == known_codes(router.locations(), i as int)[k],
        decreases n - i,
    {
        let entry = router.location_at(i);
        let mut replaced = false;
        let mut j: usize = i + 1;
        while j < n
            invariant
                n == router.locations().len(),
                codes == location_codes(router.locations()),
                i < j <= n,
                entry@.location_code == codes[i as int],
                replaced <==> exists|k: int| i < k < j && #[trigger] codes[k] == codes[i as int],
            decreases n - j,
        {
            proof {
                assert(codes[j as int] == router.locations()[j as int].location_code);
            }
            if router.location_at(j).location_code == entry.location_code {
                replaced = true;
            }
            j = j + 1;
        }
        proof {
            assert(replaced <==> !is_last(codes, codes[i as int], i as int));
        }
        if !replaced {
            requests.push(Request::Location(entry.location_code.clone()));
        }
        i = i + 1;
    }
    requests
}

} // verus!
