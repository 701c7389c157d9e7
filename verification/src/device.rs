use vstd::prelude::*;

verus! {

/// A queue of the device, named by its family and by its index in that family.
///
/// Two values name the same queue exactly when both numbers agree.
#[derive(Clone, Copy, Debug, PartialEq, Eq, Hash, Structural)]
pub struct Queue {
    pub family: u32,
    pub index: u32,
}

} // verus!
