use vstd::prelude::*;

verus! {

use crate::storage::StorageMap;
use crate::support::DispatchError;
use crate::support::DispatchResult;

/// The balance an account holds under a balance map: the stored value, or
/// zero for an account that was never written.
pub open spec fn spec_balance(m: Map<Seq<char>, u128>, who: Seq<char>) -> u128 {
    if m.contains_key(who) {
        m[who]
    } else {
        0
    }
}

/// What a transfer does to a balance map. The caller must hold at least
/// `amount`, and crediting the recipient must not overflow; both checks read
/// the balances as they stood before the transfer. A transfer to oneself that
/// passes both checks debits and credits the same snapshot and so changes
/// nothing.
pub open spec fn spec_transfer(
    m: Map<Seq<char>, u128>,
    caller: Seq<char>,
    to: Seq<char>,
    amount: u128,
) -> Result<Map<Seq<char>, u128>, DispatchError> {
    let caller_balance = spec_balance(m, caller);
    let to_balance = spec_balance(m, to);
    if caller_balance < amount {
        Err(DispatchError::InsufficientBalance)
    } else if to_balance + amount > u128::MAX {
        Err(DispatchError::BalanceOverflow)
    } else if caller == to {
        Ok(m)
    } else {
        Ok(
            m.insert(caller, (caller_balance - amount) as u128).insert(
                to,
                (to_balance + amount) as u128,
            ),
        )
    }
}

/// The total balance held across all accounts of a balance map.
pub open spec fn total_issuance(m: Map<Seq<char>, u128>) -> int
    decreases m.dom().len(),
    when m.dom().finite()
{
    if m.dom().len() == 0 {
        0
    } else {
        let k = m.dom().choose();
        m[k] + total_issuance(m.remove(k))
    }
}

/// Taking one account out of a balance map takes exactly its balance out of
/// the total.
pub proof fn lemma_total_issuance_remove(m: Map<Seq<char>, u128>, k: Seq<char>)
    requires
        m.dom().finite(),
        m.contains_key(k),
    ensures
        total_issuance(m) == total_issuance(m.remove(k)) + m[k],
    decreases m.dom().len(),
{
    let k0 = m.dom().choose();
    assert(m.dom().contains(k0));
    if k0 == k {
    } else {
        let m1 = m.remove(k0);
        let m2 = m.remove(k);
        lemma_total_issuance_remove(m1, k);
        lemma_total_issuance_remove(m2, k0);
        assert(m1.remove(k) =~= m2.remove(k0));
    }
}

/// Overwriting one account's balance moves the total by the difference
/// between the new balance and the one it held before.
pub proof fn lemma_total_issuance_insert(m: Map<Seq<char>, u128>, k: Seq<char>, v: u128)
    requires
        m.dom().finite(),
    ensures
        total_issuance(m.insert(k, v)) == total_issuance(m) - spec_balance(m, k) + v,
{
    let mi = m.insert(k, v);
    lemma_total_issuance_remove(mi, k);
    if m.contains_key(k) {
        lemma_total_issuance_remove(m, k);
        assert(mi.remove(k) =~= m.remove(k));
    } else {
        assert(mi.remove(k) =~= m);
    }
}

/// A successful transfer conserves the total balance across all accounts:
/// what the caller loses, the recipient gains.
pub proof fn lemma_transfer_preserves_total_issuance(
    m: Map<Seq<char>, u128>,
    caller: Seq<char>,
    to: Seq<char>,
    amount: u128,
)
    requires
        m.dom().finite(),
        spec_transfer(m, caller, to, amount) is Ok,
    ensures
        total_issuance(spec_transfer(m, caller, to, amount).unwrap()) == total_issuance(m),
        spec_transfer(m, caller, to, amount).unwrap().dom().finite(),
{
    if caller != to {
        let caller_balance = spec_balance(m, caller);
        let to_balance = spec_balance(m, to);
        let m1 = m.insert(caller, (caller_balance - amount) as u128);
        lemma_total_issuance_insert(m, caller, (caller_balance - amount) as u128);
        lemma_total_issuance_insert(m1, to, (to_balance + amount) as u128);
        assert(spec_balance(m1, to) == to_balance);
    }
}

/// A sequence of transfers applied in order, each seeing the balances the
/// previous ones left behind. A transfer that fails its checks leaves the
/// balances as they were.
pub open spec fn spec_apply_transfers(
    m: Map<Seq<char>, u128>,
    ops: Seq<(Seq<char>, Seq<char>, u128)>,
) -> Map<Seq<char>, u128>
    decreases ops.len(),
{
    if ops.len() == 0 {
        m
    } else {
        let prev = spec_apply_transfers(m, ops.drop_last());
        let op = ops.last();
        match spec_transfer(prev, op.0, op.1, op.2) {
            Ok(next) => next,
            Err(_) => prev,
        }
    }
}

/// For every sequence of transfers, the total balance across all accounts is
/// invariant: each successful transfer conserves it, and a failed transfer
/// changes no balance at all.
pub proof fn lemma_transfer_sequence_preserves_total_issuance(
    m: Map<Seq<char>, u128>,
    ops: Seq<(Seq<char>, Seq<char>, u128)>,
)
    requires
        m.dom().finite(),
    ensures
        spec_apply_transfers(m, ops).dom().finite(),
        total_issuance(spec_apply_transfers(m, ops)) == total_issuance(m),
    decreases ops.len(),
{
    if ops.len() > 0 {
        lemma_transfer_sequence_preserves_total_issuance(m, ops.drop_last());
        let prev = spec_apply_transfers(m, ops.drop_last());
        let op = ops.last();
        if spec_transfer(prev, op.0, op.1, op.2) is Ok {
            lemma_transfer_preserves_total_issuance(prev, op.0, op.1, op.2);
        }
    }
}

/// The call set of the balances ledger: the operations an extrinsic can
/// trigger on it.
pub enum Call {
    Transfer { to: String, amount: u128 },
}

/// What dispatching a balances call does to a balance map.
pub open spec fn spec_dispatch(
    m: Map<Seq<char>, u128>,
    caller: Seq<char>,
    call: Call,
) -> Result<Map<Seq<char>, u128>, DispatchError> {
    match call {
        Call::Transfer { to, amount } => spec_transfer(m, caller, to@, amount),
    }
}

/// The account ledger: a mapping from account to balance, with a guarded
/// transfer operation.
#[derive(Debug)]
pub struct Pallet {
    balances: StorageMap<u128>,
}

impl View for Pallet {
    type V = Map<Seq<char>, u128>;

    closed spec fn view(&self) -> Map<Seq<char>, u128> {
        self.balances@
    }
}

impl Pallet {
    pub fn new() -> (r: Self)
        ensures
            r@ == Map::<Seq<char>, u128>::empty(),
    {
        Pallet { balances: StorageMap::new() }
    }

    /// The balances of any ledger form a finite map.
    pub proof fn lemma_view_finite(&self)
        ensures
            self@.dom().finite(),
    {
        self.balances.lemma_view_finite();
    }

    /// An account that was never written holds balance zero.
    pub fn get_balance(&self, who: &String) -> (r: u128)
        ensures
            r == spec_balance(self@, who@),
    {
        match self.balances.get(who) {
            Some(b) => *b,
            None => 0,
        }
    }

    /// Unconditional overwrite, used to seed initial state; not reachable
    /// from dispatch.
    pub fn set_balance(&mut self, who: &String, amount: u128)
        ensures
            final(self)@ == old(self)@.insert(who@, amount),
    {
        self.balances.insert(who, amount);
    }

    /// Transfer `amount` from `caller` to `to`. Both balances are read
    /// before anything is written: a transfer that fails either check leaves
    /// every balance exactly as it was, and a successful one updates both
    /// entries at once and conserves the total issuance.
    pub fn transfer(&mut self, caller: String, to: String, amount: u128) -> (r: DispatchResult)
        ensures
            match spec_transfer(old(self)@, caller@, to@, amount) {
                Ok(m) => r is Ok && final(self)@ == m,
                Err(e) => r == Err::<(), DispatchError>(e) && final(self)@ == old(self)@,
            },
            r is Ok ==> total_issuance(final(self)@) == total_issuance(old(self)@),
    {
        let caller_balance = self.get_balance(&caller);
        let to_balance = self.get_balance(&to);
        let new_caller_balance = match caller_balance.checked_sub(amount) {
            Some(b) => b,
            None => {
                return Err(DispatchError::InsufficientBalance);
            },
        };
        let new_to_balance = match to_balance.checked_add(amount) {
            Some(b) => b,
            None => {
                return Err(DispatchError::BalanceOverflow);
            },
        };
        if caller == to {
            return Ok(());
        }
        self.set_balance(&caller, new_caller_balance);
        self.set_balance(&to, new_to_balance);
        proof {
            old(self).lemma_view_finite();
            lemma_transfer_preserves_total_issuance(old(self)@, caller@, to@, amount);
        }
        Ok(())
    }

    /// Route a balances call to the operation it names.
    pub fn dispatch(&mut self, caller: String, call: Call) -> (r: DispatchResult)
        ensures
            match spec_dispatch(old(self)@, caller@, call) {
                Ok(m) => r is Ok && final(self)@ == m,
                Err(e) => r == Err::<(), DispatchError>(e) && final(self)@ == old(self)@,
            },
    {
        match call {
            Call::Transfer { to, amount } => self.transfer(caller, to, amount),
        }
    }
}

} // verus!
