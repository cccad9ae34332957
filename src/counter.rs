use vstd::prelude::*;

verus! {

/// The number of distinct values a counter can hold.
pub const COUNTER_MODULUS: u64 = 0x1_0000_0000;

/// The value that follows `v`: `(v + 1) mod 2^32`.
pub open spec fn wrapping_succ(v: u32) -> u32 {
    ((v + 1) % (COUNTER_MODULUS as int)) as u32
}

/// A counter that holds one unsigned 32-bit value.
pub struct HelloCounter {
    value: u32,
}

impl View for HelloCounter {
    type V = u32;

    /// The value the counter currently holds.
    closed spec fn view(&self) -> u32 {
        self.value
    }
}

impl HelloCounter {
    /// Creates a counter that holds `init_value`; every value is accepted.
    pub fn new(init_value: u32) -> (r: Self)
        ensures
            r@ == init_value,
    {
        HelloCounter { value: init_value }
    }

    /// Returns the value the counter holds, without changing it.
    pub fn get(&self) -> (r: u32)
        ensures
            r == self@,
    {
        self.value
    }

    /// Replaces the value by `(value + 1) mod 2^32`: the largest value
    /// becomes 0.
    pub fn increment(&mut self)
        ensures
            final(self)@ == wrapping_succ(old(self)@),
    {
        self.value = self.value.wrapping_add(1);
    }
}

} // verus!
