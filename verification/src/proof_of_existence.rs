use vstd::prelude::*;

verus! {

use crate::storage::StorageMap;
use crate::support::DispatchError;
use crate::support::DispatchResult;

/// What creating a claim does to a claim map: content already owned by
/// anyone — the caller included — is refused, and unclaimed content is bound
/// to the caller.
pub open spec fn spec_create_claim(
    m: Map<Seq<char>, Seq<char>>,
    caller: Seq<char>,
    claim: Seq<char>,
) -> Result<Map<Seq<char>, Seq<char>>, DispatchError> {
    if m.contains_key(claim) {
        Err(DispatchError::ClaimAlreadyExists)
    } else {
        Ok(m.insert(claim, caller))
    }
}

/// What revoking a claim does to a claim map: absent content is refused, so
/// is a caller that is not the recorded owner, and otherwise the binding is
/// removed.
pub open spec fn spec_revoke_claim(
    m: Map<Seq<char>, Seq<char>>,
    caller: Seq<char>,
    claim: Seq<char>,
) -> Result<Map<Seq<char>, Seq<char>>, DispatchError> {
    if !m.contains_key(claim) {
        Err(DispatchError::ClaimNotFound)
    } else if m[claim] != caller {
        Err(DispatchError::NotClaimOwner)
    } else {
        Ok(m.remove(claim))
    }
}

/// The call set of the proof-of-existence ledger.
pub enum Call {
    CreateClaim { claim: String },
    RevokeClaim { claim: String },
}

/// What dispatching a proof-of-existence call does to a claim map.
pub open spec fn spec_dispatch(
    m: Map<Seq<char>, Seq<char>>,
    caller: Seq<char>,
    call: Call,
) -> Result<Map<Seq<char>, Seq<char>>, DispatchError> {
    match call {
        Call::CreateClaim { claim } => spec_create_claim(m, caller, claim@),
        Call::RevokeClaim { claim } => spec_revoke_claim(m, caller, claim@),
    }
}

/// The claim ledger: a mapping from claimed content to the one account that
/// owns it. Content absent from the map is unclaimed.
#[derive(Debug)]
pub struct Pallet {
    claims: StorageMap<String>,
}

impl View for Pallet {
    type V = Map<Seq<char>, Seq<char>>;

    closed spec fn view(&self) -> Map<Seq<char>, Seq<char>> {
        self.claims@
    }
}

impl Pallet {
    pub fn new() -> (r: Self)
        ensures
            r@ == Map::<Seq<char>, Seq<char>>::empty(),
    {
        Pallet { claims: StorageMap::new() }
    }

    /// The owner of `claim`, or nothing for content never claimed (or
    /// claimed and since revoked).
    pub fn get_claim<'a>(&'a self, claim: &String) -> (r: Option<&'a String>)
        ensures
            match r {
                Some(owner) => self@.contains_key(claim@) && owner@ == self@[claim@],
                None => !self@.contains_key(claim@),
            },
    {
        self.claims.get(claim)
    }

    /// Bind `claim` to `caller` if nobody owns it yet.
    pub fn create_claim(&mut self, caller: String, claim: String) -> (r: DispatchResult)
        ensures
            match spec_create_claim(old(self)@, caller@, claim@) {
                Ok(m) => r is Ok && final(self)@ == m,
                Err(e) => r == Err::<(), DispatchError>(e) && final(self)@ == old(self)@,
            },
    {
        if self.get_claim(&claim).is_some() {
            Err(DispatchError::ClaimAlreadyExists)
        } else {
            self.claims.insert(&claim, caller);
            Ok(())
        }
    }

    /// Remove the binding of `claim`, which only its recorded owner may do.
    pub fn revoke_claim(&mut self, caller: String, claim: String) -> (r: DispatchResult)
        ensures
            match spec_revoke_claim(old(self)@, caller@, claim@) {
                Ok(m) => r is Ok && final(self)@ == m,
                Err(e) => r == Err::<(), DispatchError>(e) && final(self)@ == old(self)@,
            },
    {
        let owner = match self.get_claim(&claim) {
            Some(owner) => owner,
            None => {
                return Err(DispatchError::ClaimNotFound);
            },
        };
        if *owner != caller {
            return Err(DispatchError::NotClaimOwner);
        }
        self.claims.remove(&claim);
        Ok(())
    }

    /// Route a proof-of-existence call to the operation it names.
    pub fn dispatch(&mut self, caller: String, call: Call) -> (r: DispatchResult)
        ensures
            match spec_dispatch(old(self)@, caller@, call) {
                Ok(m) => r is Ok && final(self)@ == m,
                Err(e) => r == Err::<(), DispatchError>(e) && final(self)@ == old(self)@,
            },
    {
        match call {
            Call::CreateClaim { claim } => self.create_claim(caller, claim),
            Call::RevokeClaim { claim } => self.revoke_claim(caller, claim),
        }
    }
}

} // verus!
