//! Choosing a device among discovery candidates.
//!
//! Discovery enumerates HID devices with the keyboard's vendor id and
//! collects their product ids. Picking one arbitrarily among several
//! distinct candidates would talk to an unintended device, so a product
//! id is selected only when every candidate agrees on it; otherwise the
//! caller must disambiguate.

use vstd::prelude::*;

verus! {

/// The keyboard's USB vendor id.
pub const VENDOR_ID: u16 = 0x4fe;

/// Select the product id to open: `Some` exactly when there is at least
/// one candidate and all candidates are the same id.
pub fn select_product(ids: &Vec<u16>) -> (r: Option<u16>)
    ensures
        r is Some <==> (ids@.len() > 0 && forall|i: int|
            0 <= i < ids@.len() ==> #[trigger] ids@[i] == ids@[0]),
        r is Some ==> r->Some_0 == ids@[0],
{
    if ids.len() == 0 {
        return None;
    }
    let first: u16 = ids[0];
    let mut i: usize = 1;
    while i < ids.len()
        invariant
            1 <= i <= ids@.len(),
            first == ids@[0],
            forall|j: int| 0 <= j < i ==> #[trigger] ids@[j] == ids@[0],
        decreases ids@.len() - i,
    {
        if ids[i] != first {
            return None;
        }
        i = i + 1;
    }
    Some(first)
}

} // verus!
