//! Typed commands understood by the reader.
//!
//! The groups mirror the reader's own command taxonomy and are a naming
//! convenience only: reader-control commands live in [`reader`], card
//! activation commands in [`cards`], MIFARE Classic commands below them.
//! Every command function takes the transport it talks through as its first
//! argument.

pub mod cards;
pub mod reader;

use vstd::prelude::*;

verus! {

/// Namespace placeholder for the command groups in general.
pub struct UemCommands;

} // verus!
