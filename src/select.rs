use vstd::prelude::*;

verus! {

/// First-match selection: the first device that the registry reported for a
/// filter, or `None` when it reported none.
pub fn select_first<D>(devices: Vec<D>) -> (r: Option<D>)
    ensures
        devices@.len() == 0 ==> r.is_none(),
        devices@.len() > 0 ==> r == Some(devices@[0]),
{
    let mut devices = devices;
    if devices.len() == 0 {
        None
    } else {
        Some(devices.swap_remove(0))
    }
}

} // verus!
