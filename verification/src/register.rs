//! A single 32-bit register tagged with its architectural index. Writes to
//! the register with index 0 (`x0`) are silently dropped, so it always reads
//! as zero.

use vstd::prelude::*;

verus! {

pub struct Register {
    value: u32,
    register: u8,
}

impl Register {
    /// The current 32-bit value of the register.
    pub closed spec fn value_spec(&self) -> u32 {
        self.value
    }

    /// The architectural index the register was created with.
    pub closed spec fn index_spec(&self) -> u8 {
        self.register
    }

    pub fn new(value: u32, register: u8) -> (r: Self)
        ensures
            r.value_spec() == value,
            r.index_spec() == register,
    {
        Self { value, register }
    }

    /// Replaces the value, except on `x0`: the zero register never changes.
    pub fn set_value(&mut self, value: u32)
        ensures
            final(self).index_spec() == old(self).index_spec(),
            final(self).value_spec() == if old(self).index_spec() == 0 {
                old(self).value_spec()
            } else {
                value
            },
            old(self).index_spec() == 0 ==> *final(self) == *old(self),
    {
        if self.register != 0 {
            self.value = value
        }
    }

    pub fn get_value(&self) -> (r: u32)
        ensures
            r == self.value_spec(),
    {
        self.value
    }
}

} // verus!
