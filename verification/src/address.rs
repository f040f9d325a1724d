//! Content addresses.

use vstd::prelude::*;

verus! {

/// The address of an entry or of an agent: the printable form of its hash.
#[derive(Debug, PartialEq, Eq)]
pub struct Address {
    pub hash: String,
}

impl View for Address {
    type V = Seq<char>;

    open spec fn view(&self) -> Seq<char> {
        self.hash@
    }
}

impl Address {
    /// Wraps the printable form of a hash.
    pub fn new(hash: String) -> (address: Address)
        ensures
            address.hash == hash,
            address@ == hash@,
    {
        Address { hash }
    }
}

impl Clone for Address {
    fn clone(&self) -> (copy: Address)
        ensures
            copy == *self,
    {
        Address { hash: self.hash.clone() }
    }
}

} // verus!
