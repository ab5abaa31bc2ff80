//! One record of the persisted chain sequence.
use vstd::prelude::*;

use crate::address::Address;

verus! {

/// A value in the chain sequence: which header sits at which index, in which
/// commit it was written, and whether it has been published.
#[derive(Debug)]
pub struct ChainSequenceItem {
    pub header_address: Address,
    /// The storage key, repeated in the value.
    pub index: u32,
    /// The commit group that wrote this item.
    pub tx_seq: u32,
    pub dht_transforms_complete: bool,
}

impl ChainSequenceItem {
    pub fn header_address(&self) -> (r: &Address)
        ensures
            *r == self.header_address,
    {
        &self.header_address
    }

    pub fn index(&self) -> (r: u32)
        ensures
            r == self.index,
    {
        self.index
    }

    pub fn tx_seq(&self) -> (r: u32)
        ensures
            r == self.tx_seq,
    {
        self.tx_seq
    }

    pub fn dht_transforms_complete(&self) -> (r: bool)
        ensures
            r == self.dht_transforms_complete,
    {
        self.dht_transforms_complete
    }
}

impl Clone for ChainSequenceItem {
    fn clone(&self) -> (r: Self)
        ensures
            r == *self,
    {
        ChainSequenceItem {
            header_address: self.header_address.clone(),
            index: self.index,
            tx_seq: self.tx_seq,
            dht_transforms_complete: self.dht_transforms_complete,
        }
    }
}

} // verus!
