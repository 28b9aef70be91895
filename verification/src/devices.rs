//! Input-device resolution.
//!
//! A capture device is picked from the platform's list of input device
//! names: an exact match on the requested name wins, then a match with
//! surrounding whitespace trimmed on both sides, and a name that matches
//! nothing falls back to the system default rather than failing the
//! session.  Listing and opening the device itself is platform plumbing
//! outside the crate; this module decides which device to open.

use vstd::prelude::*;
use vstd::string::StringExecFns;
use crate::text::spec_trim;
use crate::text::str_eq;
use crate::text::trimmed;

verus! {

/// Which input device the session should open.
#[derive(Debug, PartialEq, Eq, Structural)]
pub enum DeviceChoice {
    Named(usize),
    SystemDefault,
}

/// Index of the first name in `ns` from `i` on that equals `q`.
pub open spec fn spec_first_match(ns: Seq<Seq<char>>, q: Seq<char>, i: int) -> Option<int>
    decreases ns.len() - i,
{
    if i < 0 || i >= ns.len() {
        None
    } else if ns[i] == q {
        Some(i)
    } else {
        spec_first_match(ns, q, i + 1)
    }
}

/// The views of a list of device names.
pub open spec fn spec_name_views(names: Seq<String>) -> Seq<Seq<char>> {
    names.map_values(|n: String| n@)
}

/// The device the match rules pick: the first exact match of the
/// requested name, else the first match with both sides trimmed, else
/// nothing, meaning the system default.  No request also means the
/// default.
pub open spec fn spec_resolve(ns: Seq<Seq<char>>, q: Option<Seq<char>>) -> Option<int> {
    match q {
        None => None,
        Some(qs) => match spec_first_match(ns, qs, 0) {
            Some(i) => Some(i),
            None => spec_first_match(ns.map_values(|n: Seq<char>| spec_trim(n)), spec_trim(qs), 0),
        },
    }
}

/// Resolve the requested device name against the platform's list of
/// input device names.  A name that matches nothing yields the system
/// default rather than an error.
pub fn resolve_input_device(names: &Vec<String>, requested: Option<&str>) -> (c: DeviceChoice)
    ensures
        requested is None ==> c == DeviceChoice::SystemDefault,
        requested matches Some(r) ==> match c {
            DeviceChoice::Named(j) => spec_resolve(spec_name_views(names@), Some(r@)) == Some(
                j as int,
            ) && j < names@.len(),
            DeviceChoice::SystemDefault => spec_resolve(spec_name_views(names@), Some(r@)) is None,
        },
{
    let q = match requested {
        Some(r) => r,
        None => {
            return DeviceChoice::SystemDefault;
        },
    };
    let ghost ns = spec_name_views(names@);
    let n = names.len();
    for i in 0..n
        invariant
            n == names@.len(),
            ns == spec_name_views(names@),
            requested == Some(q),
            spec_first_match(ns, q@, 0) == spec_first_match(ns, q@, i as int),
    {
        if str_eq(names[i].as_str(), q) {
            proof {
                assert(ns[i as int] == names@[i as int]@);
                assert(spec_first_match(ns, q@, i as int) == Some(i as int));
            }
            return DeviceChoice::Named(i);
        }
        proof {
            assert(ns[i as int] == names@[i as int]@);
        }
    }
    let ghost tns = ns.map_values(|m: Seq<char>| spec_trim(m));
    let tq = trimmed(q);
    for i in 0..n
        invariant
            n == names@.len(),
            ns == spec_name_views(names@),
            requested == Some(q),
            tns == ns.map_values(|m: Seq<char>| spec_trim(m)),
            tq@ == spec_trim(q@),
            spec_first_match(ns, q@, 0) is None,
            spec_first_match(tns, tq@, 0) == spec_first_match(tns, tq@, i as int),
    {
        let tn = trimmed(names[i].as_str());
        proof {
            assert(ns[i as int] == names@[i as int]@);
            assert(tns[i as int] == spec_trim(ns[i as int]));
        }
        if str_eq(tn.as_str(), tq.as_str()) {
            proof {
                assert(spec_first_match(tns, tq@, i as int) == Some(i as int));
            }
            return DeviceChoice::Named(i);
        }
    }
    DeviceChoice::SystemDefault
}

} // verus!
