//! A set of up to sixteen small indices packed into one machine word.

use vstd::prelude::*;

verus! {

/// Whether bit `i` of `mask` is one. False for every `i` outside `0..16`.
pub open spec fn bit_is_set(mask: u16, i: int) -> bool {
    0 <= i < 16 && (mask >> (i as u16)) & 1u16 == 1u16
}

/// Sixteen flags, addressed by index `0..16`.
#[derive(Copy, Clone, PartialEq, Eq, Structural)]
pub struct BitFlag16 {
    mask: u16,
}

impl View for BitFlag16 {
    type V = Set<int>;

    /// The indices that are marked.
    closed spec fn view(&self) -> Set<int> {
        Set::new(|i: int| bit_is_set(self.mask, i))
    }
}

impl BitFlag16 {
    /// A flag set with nothing marked.
    pub fn new() -> (flags: Self)
        ensures
            flags@ == Set::<int>::empty(),
    {
        let flags = BitFlag16 { mask: 0 };
        proof {
            assert forall|i: int| !bit_is_set(0u16, i) by {
                if 0 <= i < 16 {
                    let s = i as u16;
                    assert((0u16 >> s) & 1u16 != 1u16) by (bit_vector);
                }
            }
            assert(flags@ =~= Set::<int>::empty());
        }
        flags
    }

    /// Marks `index`. Marking twice is the same as marking once.
    pub fn mark(&mut self, index: u16)
        requires
            index < Self::max(),
        ensures
            final(self)@ == old(self)@.insert(index as int),
    {
        let bit = self.indexToBit(index);
        let ghost before = self.mask;
        self.mask = self.mask | bit;
        proof {
            let after = self.mask;
            assert forall|i: int| bit_is_set(after, i) <==> (i == index || bit_is_set(before, i)) by {
                if 0 <= i < 16 {
                    let s = i as u16;
                    assert(((before | (1u16 << index)) >> s) & 1u16 == 1u16 <==> (s == index || (before
                        >> s) & 1u16 == 1u16)) by (bit_vector)
                        requires
                            s < 16,
                            index < 16,
                    ;
                }
            }
            assert(self@ =~= old(self)@.insert(index as int));
        }
    }

    /// Whether `index` has been marked.
    pub fn is_marked(&self, index: u16) -> (marked: bool)
        requires
            index < Self::max(),
        ensures
            marked == self@.contains(index as int),
    {
        let bit = self.indexToBit(index);
        let mask = self.mask & bit;
        let mask = mask >> index;
        proof {
            let m = self.mask;
            assert((((m & (1u16 << index)) >> index) == 1u16) <==> ((m >> index) & 1u16 == 1u16))
                by (bit_vector)
                requires
                    index < 16,
            ;
        }
        mask == 1
    }

    /// How many indices a flag set can hold: the valid ones are `0..max()`.
    #[verifier::when_used_as_spec(spec_max)]
    pub fn max() -> (n: u16)
        ensures
            n == 16,
    {
        16
    }

    pub open spec fn spec_max() -> u16 {
        16
    }

    #[allow(non_snake_case)]
    fn indexToBit(&self, index: u16) -> (bit: u16)
        requires
            index < 16,
        ensures
            bit == 1u16 << index,
    {
        0b1 << index
    }

    /// Only indices below `max()` are ever marked.
    pub proof fn lemma_marked_in_range(self, i: int)
        requires
            self@.contains(i),
        ensures
            0 <= i < Self::max(),
    {
    }
}

} // verus!
