use vstd::prelude::*;

verus! {

use crate::storage::StorageMap;

/// The nonce an account holds under a nonce map: the stored value, or zero
/// for an account that was never seen as a caller.
pub open spec fn spec_nonce(m: Map<Seq<char>, u32>, who: Seq<char>) -> u32 {
    if m.contains_key(who) {
        m[who]
    } else {
        0
    }
}

/// The height after one advance: one more, except at the top of the
/// representable range, where the height stalls rather than wrap.
pub open spec fn spec_next_block_number(n: u32) -> u32 {
    if n == u32::MAX {
        n
    } else {
        (n + 1) as u32
    }
}

/// The chain ledger: the current block height, and how many extrinsics each
/// account has submitted as a caller.
#[derive(Debug)]
pub struct Pallet {
    block_number: u32,
    nonce: StorageMap<u32>,
}

impl Pallet {
    pub closed spec fn spec_block_number(&self) -> u32 {
        self.block_number
    }

    pub closed spec fn spec_nonces(&self) -> Map<Seq<char>, u32> {
        self.nonce@
    }

    /// The nonces of any chain ledger form a finite map.
    pub proof fn lemma_nonces_finite(&self)
        ensures
            self.spec_nonces().dom().finite(),
    {
        self.nonce.lemma_view_finite();
    }

    pub fn new() -> (r: Self)
        ensures
            r.spec_block_number() == 0,
            r.spec_nonces() == Map::<Seq<char>, u32>::empty(),
    {
        Pallet { block_number: 0, nonce: StorageMap::new() }
    }

    pub fn block_number(&self) -> (r: u32)
        ensures
            r == self.spec_block_number(),
    {
        self.block_number
    }

    /// Advance the height by one. If the increment would overflow, nothing
    /// changes: the height silently stalls at the top of its range rather
    /// than raise an error.
    pub fn increase_block_number(&mut self)
        ensures
            final(self).spec_block_number() == spec_next_block_number(
                old(self).spec_block_number(),
            ),
            final(self).spec_nonces() == old(self).spec_nonces(),
    {
        if self.block_number.checked_add(1).is_some() {
            self.block_number = self.block_number + 1;
        }
    }

    /// Count one more extrinsic for `who`: an account never seen starts at
    /// zero and moves to one. The counter is bumped whether or not the
    /// extrinsic's own call later succeeds.
    pub fn increase_nonce(&mut self, who: &String)
        requires
            spec_nonce(old(self).spec_nonces(), who@) < u32::MAX,
        ensures
            final(self).spec_nonces() == old(self).spec_nonces().insert(
                who@,
                (spec_nonce(old(self).spec_nonces(), who@) + 1) as u32,
            ),
            final(self).spec_block_number() == old(self).spec_block_number(),
    {
        let current = self.get_nonce(who);
        self.nonce.insert(who, current + 1);
    }

    /// An account that never appeared as a caller has nonce zero.
    pub fn get_nonce(&self, who: &String) -> (r: u32)
        ensures
            r == spec_nonce(self.spec_nonces(), who@),
    {
        match self.nonce.get(who) {
            Some(n) => *n,
            None => 0,
        }
    }
}

} // verus!
