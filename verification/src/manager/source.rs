//! Input devices on the bus: their object path.

use vstd::prelude::*;

use crate::text::{decimal, with_decimal};

verus! {

/// The bus path of source `index`.
pub open spec fn source_path(index: u32) -> Seq<char> {
    "/org/deepin/dde/Audio2/Source"@ + decimal(index as nat)
}

/// The bus path of source `index`.
pub fn path(index: u32) -> (p: String)
    ensures
        p@ == source_path(index),
{
    with_decimal("/org/deepin/dde/Audio2/Source", index)
}

} // verus!
