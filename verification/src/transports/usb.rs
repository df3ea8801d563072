//! The interfaces of USB devices.

use std::collections::HashMap;

use vstd::prelude::*;

verus! {

/// What can be wrong with the use of an interface.
#[derive(Debug, Clone, Copy, PartialEq, Eq, Structural)]
pub enum UsbError {
    /// The interface was not claimed yet.
    UnclaimedInterface {
        /// The number of the interface.
        interface: u8,
    },
}

/// The interfaces that are claimed, by their numbers.
pub struct Interfaces<T> {
    interfaces: HashMap<u8, T>,
}

impl<T> View for Interfaces<T> {
    type V = Map<u8, T>;

    closed spec fn view(&self) -> Map<u8, T> {
        self.interfaces@
    }
}

impl<T> Interfaces<T> {
    /// No interface is claimed.
    pub fn new() -> (interfaces: Interfaces<T>)
        ensures
            interfaces@ == Map::<u8, T>::empty(),
    {
        Interfaces { interfaces: HashMap::new() }
    }

    /// Whether an interface is claimed. It is not claimed again.
    pub fn is_claimed(&self, interface: u8) -> (result: bool)
        ensures
            result == self@.contains_key(interface),
    {
        broadcast use vstd::std_specs::hash::group_hash_axioms;

        self.interfaces.contains_key(&interface)
    }

    /// Keeps an interface that was claimed.
    pub fn claim_interface(&mut self, interface: u8, claimed: T)
        ensures
            final(self)@ == old(self)@.insert(interface, claimed),
    {
        broadcast use vstd::std_specs::hash::group_hash_axioms;

        self.interfaces.insert(interface, claimed);
    }

    /// Lets an interface go.
    pub fn release_interface(&mut self, interface: u8)
        ensures
            final(self)@ == old(self)@.remove(interface),
    {
        broadcast use vstd::std_specs::hash::group_hash_axioms;

        self.interfaces.remove(&interface);
        proof {
            assert(self@ =~= old(self)@.remove(interface));
        }
    }

    /// The claimed interface of the given number.
    pub fn claimed(&self, interface: u8) -> (result: Result<&T, UsbError>)
        ensures
            match result {
                Ok(claimed) => self@.contains_key(interface) && self@[interface] == *claimed,
                Err(error) => !self@.contains_key(interface) && error
                    == (UsbError::UnclaimedInterface { interface }),
            },
    {
        broadcast use vstd::std_specs::hash::group_hash_axioms;

        match self.interfaces.get(&interface) {
            Some(claimed) => Ok(claimed),
            None => Err(UsbError::UnclaimedInterface { interface }),
        }
    }
}

/// The number of an endpoint or of an interface as a browser takes it: the lower
/// four bits of its address, without the direction.
pub fn endpoint_number(address: u8) -> (number: u8)
    ensures
        number == address % 16,
{
    proof {
        assert(address & 0b1111 == address % 16) by (bit_vector);
    }
    address & 0b1111
}

} // verus!
