//! What the physics queries hand back.

use vstd::prelude::*;

verus! {

/// The identifier of a rigid body in the physics world: an index in its low
/// 24 bits, with all of them set where the identifier names no body.
#[allow(non_camel_case_types)]
#[derive(Clone, Copy, Debug, Hash, PartialEq, Eq, PartialOrd, Ord)]
pub struct hknpBodyId(pub u32);

impl hknpBodyId {
    /// The low 24 bits of the identifier.
    pub open spec fn low_bits(self) -> int {
        self.0 as int % 0x100_0000
    }

    /// The index of the body that the identifier names, if it names one.
    pub fn index(self) -> (index: Option<usize>)
        ensures
            index == if self.low_bits() != 0xff_ffff {
                Some(self.low_bits() as usize)
            } else {
                None
            },
    {
        let raw = self.0;
        let id = raw & 0xffffff;
        assert(id == raw % 0x100_0000) by (bit_vector)
            requires
                id == raw & 0xffffff,
        ;
        if id != 0xffffff {
            Some(id as usize)
        } else {
            None
        }
    }
}

} // verus!
