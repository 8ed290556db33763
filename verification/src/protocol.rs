//! The one slot that says which protocol the next block runs, and how far
//! its content is resolved.

use vstd::prelude::*;
use crate::hash::BlockHash;

verus! {

/// A protocol whose content is known.
#[derive(Debug, Clone, Copy, PartialEq, Eq, Structural)]
pub struct SupportedProtocol {
    pub number: u8,
}

/// How far the content of the slot's protocol is resolved.
#[derive(Debug)]
pub enum SupportedProtocolState {
    Unresolved,
    Requesting(BlockHash),
    Ready(SupportedProtocol),
}

/// The slot: empty, or a protocol number with its resolution.
#[derive(Debug)]
pub struct NextProtocolSlot {
    pub slot: Option<(u8, SupportedProtocolState)>,
}

impl NextProtocolSlot {
    /// The slot's protocol number.
    pub open spec fn number(&self) -> Option<u8> {
        match self.slot {
            Some((n, _)) => Some(n),
            None => None,
        }
    }

    /// `proto` is the number that follows the slot's.
    pub open spec fn succeeded_by(&self, proto: u8) -> bool {
        match self.slot {
            Some((n, _)) => n + 1 == proto,
            None => false,
        }
    }

    /// The slot's protocol is resolved.
    pub open spec fn ready(&self) -> bool {
        match self.slot {
            Some((_, SupportedProtocolState::Ready(_))) => true,
            _ => false,
        }
    }

    /// A fetch keyed by `hash` is in flight.
    pub open spec fn requesting(&self, hash: Seq<u8>) -> bool {
        match self.slot {
            Some((_, SupportedProtocolState::Requesting(h))) => h@ == hash,
            _ => false,
        }
    }

    /// The slot takes `proto` as its next number.
    pub open spec fn can_set(&self, proto: u8) -> bool {
        self.slot.is_none() || self.succeeded_by(proto)
    }

    /// A fetch for `proto` may start.
    pub open spec fn can_query(&self, proto: u8) -> bool {
        match self.slot {
            None => true,
            Some((n, resolution)) => (n == proto && resolution is Unresolved) || n + 1 == proto,
        }
    }

    pub fn new() -> (slot: Self)
        ensures
            slot.slot.is_none(),
    {
        NextProtocolSlot { slot: None }
    }

    pub fn is_ready(&self) -> (yes: bool)
        ensures
            yes == self.ready(),
    {
        match &self.slot {
            Some((_, SupportedProtocolState::Ready(_))) => true,
            _ => false,
        }
    }

    pub fn is_requesting(&self, block_hash: &BlockHash) -> (yes: bool)
        ensures
            yes == self.requesting(block_hash@),
    {
        match &self.slot {
            Some((_, SupportedProtocolState::Requesting(h))) => h.same_as(block_hash),
            _ => false,
        }
    }

    pub fn accepts_set(&self, proto: u8) -> (yes: bool)
        ensures
            yes == self.can_set(proto),
    {
        match &self.slot {
            None => true,
            Some((n, _)) => *n < 255 && *n + 1 == proto,
        }
    }

    pub fn accepts_query(&self, proto: u8) -> (yes: bool)
        ensures
            yes == self.can_query(proto),
    {
        match &self.slot {
            None => true,
            Some((n, resolution)) => {
                let unresolved = match resolution {
                    SupportedProtocolState::Unresolved => true,
                    _ => false,
                };
                (*n == proto && unresolved) || (*n < 255 && *n + 1 == proto)
            },
        }
    }

    /// Takes `proto` as the next block's protocol, unresolved, where the
    /// slot is empty or `proto` follows its number; else changes nothing.
    pub fn set(&mut self, proto: u8) -> (accepted: bool)
        ensures
            accepted == old(self).can_set(proto),
            accepted ==> final(self).slot == Some((proto, SupportedProtocolState::Unresolved)),
            !accepted ==> *final(self) == *old(self),
    {
        if self.accepts_set(proto) {
            self.slot = Some((proto, SupportedProtocolState::Unresolved));
            true
        } else {
            false
        }
    }

    /// Starts the fetch of `proto`'s content, keyed by the block that
    /// declares it, where the guard for a query holds; else changes nothing.
    pub fn query(&mut self, proto: u8, block_hash: BlockHash) -> (accepted: bool)
        ensures
            accepted == old(self).can_query(proto),
            accepted ==> final(self).slot == Some((proto, SupportedProtocolState::Requesting(block_hash))),
            !accepted ==> *final(self) == *old(self),
    {
        if self.accepts_query(proto) {
            self.slot = Some((proto, SupportedProtocolState::Requesting(block_hash)));
            true
        } else {
            false
        }
    }

    /// Resolves the slot with the content fetched for `block_hash`, where
    /// that fetch is the one in flight; else changes nothing.
    pub fn resolve(&mut self, block_hash: &BlockHash, protocol: SupportedProtocol) -> (accepted: bool)
        ensures
            accepted == old(self).requesting(block_hash@),
            accepted ==> final(self).slot == Some((old(self).number().unwrap(), SupportedProtocolState::Ready(protocol))),
            !accepted ==> *final(self) == *old(self),
    {
        if self.is_requesting(block_hash) {
            let number: u8 = match &self.slot {
                Some((n, _)) => *n,
                None => 0,
            };
            self.slot = Some((number, SupportedProtocolState::Ready(protocol)));
            true
        } else {
            false
        }
    }
}

} // verus!
