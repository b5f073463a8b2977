//! Two image buffers whose read and write roles swap every frame.
use vstd::prelude::*;

verus! {

/// Index of one of the two image buffers, in the arena the host allocated
/// at startup.
pub type ImageId = usize;

/// The number of image buffers in the pair.
pub const IMAGE_COUNT: usize = 2;

/// The slot-to-image mapping after one swap.
pub open spec fn swapped(m: (ImageId, ImageId)) -> (ImageId, ImageId) {
    (m.1, m.0)
}

/// A mapping is valid when it names both images of the pair, each once.
pub open spec fn valid_mapping(m: (ImageId, ImageId)) -> bool {
    (m.0 == 0 && m.1 == 1) || (m.0 == 1 && m.1 == 0)
}

/// Two logical slots, each naming one of the two image buffers. Slot 0 holds
/// the newest finished generation (the read role); slot 1 the storage that
/// the next generation overwrites (the write role).
pub struct DoubleBuffer {
    slot0: ImageId,
    slot1: ImageId,
}

impl View for DoubleBuffer {
    type V = (ImageId, ImageId);

    closed spec fn view(&self) -> (ImageId, ImageId) {
        (self.slot0, self.slot1)
    }
}

impl DoubleBuffer {
    #[verifier::type_invariant]
    spec fn well_formed(&self) -> bool {
        valid_mapping(self@)
    }

    /// Slot 0 names image 0 and slot 1 names image 1.
    pub fn new() -> (b: DoubleBuffer)
        ensures
            b@ == (0usize, 1usize),
    {
        DoubleBuffer { slot0: 0, slot1: 1 }
    }

    /// Exchanges the two slots; the images themselves stay where they are.
    pub fn swap(&mut self)
        ensures
            final(self)@ == swapped(old(self)@),
            valid_mapping(final(self)@),
    {
        proof {
            use_type_invariant(&*self);
        }
        *self = DoubleBuffer { slot0: self.slot1, slot1: self.slot0 };
    }

    /// The image that slot `slot` names.
    pub fn slot(&self, slot: usize) -> (r: ImageId)
        requires
            slot < IMAGE_COUNT,
        ensures
            r == (if slot == 0 { self@.0 } else { self@.1 }),
            r < IMAGE_COUNT,
    {
        proof {
            use_type_invariant(self);
        }
        if slot == 0 {
            self.slot0
        } else {
            self.slot1
        }
    }

    /// The image in the read role.
    pub fn read_image(&self) -> (r: ImageId)
        ensures
            r == self@.0,
            r < IMAGE_COUNT,
    {
        self.slot(0)
    }

    /// The image in the write role.
    pub fn write_image(&self) -> (r: ImageId)
        ensures
            r == self@.1,
            r < IMAGE_COUNT,
    {
        self.slot(1)
    }
}

/// Swapping twice restores the slot-to-image mapping exactly.
pub proof fn lemma_swap_involution(m: (ImageId, ImageId))
    ensures
        swapped(swapped(m)) == m,
{
}

/// A swap keeps a mapping valid.
pub proof fn lemma_swap_keeps_valid(m: (ImageId, ImageId))
    requires
        valid_mapping(m),
    ensures
        valid_mapping(swapped(m)),
{
}

} // verus!
