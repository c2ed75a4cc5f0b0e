//! Player identifiers.
use crate::wire::{be16, u16_to_be};
use vstd::prelude::*;

verus! {

/// Names one player for its lifetime; assigned outside the library.
#[derive(Copy, Clone, Debug, Default, Hash, PartialEq, Eq, Structural)]
pub struct Id(pub u16);

impl Id {
    /// The identifier's two bytes on the wire, most significant first.
    pub fn as_bytes(&self) -> (r: [u8; 2])
        ensures
            r@ == be16(self.0),
    {
        u16_to_be(self.0)
    }
}

} // verus!
