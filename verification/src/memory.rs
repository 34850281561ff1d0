//! Useful tools to manage access to memory

use vstd::prelude::*;

verus! {

/// Unified interface for memory
///
/// A memory answers for a set of addresses. Loads and stores are only made at addresses it
/// contains, and a store changes at most the byte at its address.
pub trait Memory {
    /// Is the address within the memory bounds?
    spec fn spec_contains(&self, address: u16) -> bool;

    /// The byte at an address of the memory.
    spec fn spec_load(&self, address: u16) -> u8;

    /// Do stores change the memory? (They don't in read only memory.)
    spec fn spec_writable(&self) -> bool;

    /// Load a byte from memory
    fn load(&self, address: u16) -> (data: u8)
        requires
            self.spec_contains(address),
        ensures
            data == self.spec_load(address),
    ;

    /// Store a byte to memory
    fn store(&mut self, address: u16, data: u8)
        requires
            old(self).spec_contains(address),
        ensures
            final(self).spec_writable() == old(self).spec_writable(),
            forall|a: u16| #[trigger] final(self).spec_contains(a) == old(self).spec_contains(a),
            forall|a: u16|
                old(self).spec_contains(a) ==> #[trigger] final(self).spec_load(a) == if a == address
                    && old(self).spec_writable() {
                    data
                } else {
                    old(self).spec_load(a)
                },
    ;

    /// Check if the address is within the memory bounds
    fn contains(&self, address: u16) -> (inside: bool)
        ensures
            inside == self.spec_contains(address),
    ;
}

impl<const N: usize> Memory for [u8; N] {
    open spec fn spec_contains(&self, address: u16) -> bool {
        (address as int) < N
    }

    open spec fn spec_load(&self, address: u16) -> u8 {
        self@[address as int]
    }

    open spec fn spec_writable(&self) -> bool {
        true
    }

    fn load(&self, address: u16) -> (data: u8) {
        self[address as usize]
    }

    fn store(&mut self, address: u16, data: u8)
        ensures
            final(self)@ == old(self)@.update(address as int, data),
    {
        self[address as usize] = data;
        assert forall|a: u16| old(self).spec_contains(a) implies #[trigger] self.spec_load(a) == if a
            == address {
            data
        } else {
            old(self).spec_load(a)
        } by {
            if a != address {
                assert(a as int != address as int);
            }
        }
    }

    fn contains(&self, address: u16) -> (inside: bool) {
        (address as usize) < N
    }
}

impl Memory for [u8] {
    open spec fn spec_contains(&self, address: u16) -> bool {
        (address as int) < self@.len()
    }

    open spec fn spec_load(&self, address: u16) -> u8 {
        self@[address as int]
    }

    open spec fn spec_writable(&self) -> bool {
        true
    }

    fn load(&self, address: u16) -> (data: u8) {
        self[address as usize]
    }

    fn store(&mut self, address: u16, data: u8)
        ensures
            final(self)@ == old(self)@.update(address as int, data),
    {
        self[address as usize] = data;
        assert forall|a: u16| old(self).spec_contains(a) implies #[trigger] self.spec_load(a) == if a
            == address {
            data
        } else {
            old(self).spec_load(a)
        } by {
            if a != address {
                assert(a as int != address as int);
            }
        }
    }

    fn contains(&self, address: u16) -> (inside: bool) {
        (address as usize) < self.len()
    }
}

/// Read Only Memory
impl Memory for &[u8] {
    open spec fn spec_contains(&self, address: u16) -> bool {
        (address as int) < self@.len()
    }

    open spec fn spec_load(&self, address: u16) -> u8 {
        self@[address as int]
    }

    open spec fn spec_writable(&self) -> bool {
        false
    }

    fn load(&self, address: u16) -> (data: u8) {
        self[address as usize]
    }

    fn store(&mut self, _address: u16, _data: u8) {
        // Just ignore it
    }

    fn contains(&self, address: u16) -> (inside: bool) {
        (address as usize) < self.len()
    }
}

} // verus!
