//! Commands for the MIFARE card family.

pub mod classic;

use vstd::prelude::*;

verus! {

/// Namespace placeholder for MIFARE card commands.
pub struct UemCommandsCardsMifare;

} // verus!
