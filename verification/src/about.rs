//! The about dialog carries no state of its own: it is a fixed
//! presentation of the program's identity, and its drawing is framework
//! work that lives with the front end. A unit type stands for it in the
//! model.

use vstd::prelude::*;

verus! {

/// The about dialog's (empty) model.
#[derive(Clone, Copy, Debug, PartialEq, Eq, Structural)]
pub struct AboutDialog {}

} // verus!
