use vstd::prelude::*;

pub mod balances;
pub mod proof_of_existence;
pub mod storage;
pub mod support;
pub mod system;
pub mod utils;

verus! {

use crate::support::DispatchError;
use crate::support::DispatchResult;
use crate::utils::Block;
use crate::utils::ExtrinsicFailure;
use crate::utils::Extrinsic;
use crate::utils::RuntimeCall;

/// The mathematical state of the whole runtime: the chain height, and the
/// contents of the three ledgers.
#[verifier::ext_equal]
pub struct RuntimeView {
    pub block_number: u32,
    pub nonces: Map<Seq<char>, u32>,
    pub balances: Map<Seq<char>, u128>,
    pub claims: Map<Seq<char>, Seq<char>>,
}

/// The state once the chain height has been advanced by one.
pub open spec fn spec_advance_block_number(s: RuntimeView) -> RuntimeView {
    RuntimeView { block_number: system::spec_next_block_number(s.block_number), ..s }
}

/// The state once one more extrinsic has been counted against `who`.
pub open spec fn spec_bump_nonce(s: RuntimeView, who: Seq<char>) -> RuntimeView {
    RuntimeView {
        nonces: s.nonces.insert(who, (system::spec_nonce(s.nonces, who) + 1) as u32),
        ..s
    }
}

/// What routing one runtime call does to the state: the addressed ledger is
/// handed `(caller, inner call)` and the other components are untouched.
/// Routing itself changes nothing.
pub open spec fn spec_dispatch_call(s: RuntimeView, caller: Seq<char>, call: RuntimeCall) -> Result<
    RuntimeView,
    DispatchError,
> {
    match call {
        RuntimeCall::Balances(call) => match balances::spec_dispatch(s.balances, caller, call) {
            Ok(m) => Ok(RuntimeView { balances: m, ..s }),
            Err(e) => Err(e),
        },
        RuntimeCall::ProofOfExistence(call) => match proof_of_existence::spec_dispatch(
            s.claims,
            caller,
            call,
        ) {
            Ok(m) => Ok(RuntimeView { claims: m, ..s }),
            Err(e) => Err(e),
        },
    }
}

/// What executing one extrinsic does to the state: the caller's nonce is
/// counted first, whatever happens next; a failed dispatch then changes
/// nothing further.
pub open spec fn spec_apply_extrinsic(s: RuntimeView, e: Extrinsic) -> RuntimeView {
    let bumped = spec_bump_nonce(s, e.caller@);
    match spec_dispatch_call(bumped, e.caller@, e.call) {
        Ok(next) => next,
        Err(_) => bumped,
    }
}

/// The state after the first `n` extrinsics of `exts` have run, in order.
pub open spec fn spec_state_after(s: RuntimeView, exts: Seq<Extrinsic>, n: int) -> RuntimeView
    decreases n,
{
    if n <= 0 {
        s
    } else {
        spec_apply_extrinsic(spec_state_after(s, exts, n - 1), exts[n - 1])
    }
}

/// The failures recorded while the first `n` extrinsics ran: one entry per
/// failed dispatch, in execution order, under the executing block's height.
pub open spec fn spec_failures(
    s: RuntimeView,
    exts: Seq<Extrinsic>,
    n: int,
    block_number: u32,
) -> Seq<ExtrinsicFailure>
    decreases n,
{
    if n <= 0 {
        Seq::empty()
    } else {
        let prev = spec_failures(s, exts, n - 1, block_number);
        let bumped = spec_bump_nonce(spec_state_after(s, exts, n - 1), exts[n - 1].caller@);
        match spec_dispatch_call(bumped, exts[n - 1].caller@, exts[n - 1].call) {
            Ok(_) => prev,
            Err(e) => prev.push(
                ExtrinsicFailure { block_number, index: (n - 1) as usize, error: e },
            ),
        }
    }
}

/// Every nonce bumped by the first `n` extrinsics is still below the top of
/// the counter's range when its turn comes. This is forced by the machine
/// width of the nonce, not by the ledger rules.
pub open spec fn spec_nonces_in_range(s: RuntimeView, exts: Seq<Extrinsic>, n: int) -> bool {
    forall|i: int|
        0 <= i < n ==> system::spec_nonce(
            #[trigger] spec_state_after(s, exts, i).nonces,
            exts[i].caller@,
        ) < u32::MAX
}

/// How many of the first `n` extrinsics name `who` as their caller.
pub open spec fn spec_count_calls(exts: Seq<Extrinsic>, who: Seq<char>, n: int) -> int
    decreases n,
{
    if n <= 0 {
        0
    } else {
        spec_count_calls(exts, who, n - 1) + (if exts[n - 1].caller@ == who {
            1int
        } else {
            0int
        })
    }
}

/// After the first `n` extrinsics, an account's nonce has grown by exactly
/// the number of those extrinsics it called — however many of their
/// dispatches failed, since the count is taken before dispatch and a
/// dispatch touches no nonce.
pub proof fn lemma_nonce_counts_extrinsics(
    s: RuntimeView,
    exts: Seq<Extrinsic>,
    who: Seq<char>,
    n: int,
)
    requires
        0 <= n <= exts.len(),
        spec_nonces_in_range(s, exts, n),
    ensures
        system::spec_nonce(spec_state_after(s, exts, n).nonces, who) == system::spec_nonce(
            s.nonces,
            who,
        ) + spec_count_calls(exts, who, n),
    decreases n,
{
    if n > 0 {
        lemma_nonce_counts_extrinsics(s, exts, who, n - 1);
        let prev = spec_state_after(s, exts, n - 1);
        let e = exts[n - 1];
        let bumped = spec_bump_nonce(prev, e.caller@);
        assert(system::spec_nonce(prev.nonces, e.caller@) < u32::MAX);
        let routed = spec_dispatch_call(bumped, e.caller@, e.call);
        if routed is Ok {
            match e.call {
                RuntimeCall::Balances(_) => {
                    assert(routed.unwrap().nonces == bumped.nonces);
                },
                RuntimeCall::ProofOfExistence(_) => {
                    assert(routed.unwrap().nonces == bumped.nonces);
                },
            }
        }
    }
}

/// The runtime: the one owner of the three ledgers, and the block executor
/// over them.
#[derive(Debug)]
pub struct Runtime {
    pub system: system::Pallet,
    pub balances: balances::Pallet,
    pub proof_of_existence: proof_of_existence::Pallet,
}

impl View for Runtime {
    type V = RuntimeView;

    open spec fn view(&self) -> RuntimeView {
        RuntimeView {
            block_number: self.system.spec_block_number(),
            nonces: self.system.spec_nonces(),
            balances: self.balances@,
            claims: self.proof_of_existence@,
        }
    }
}

impl Runtime {
    /// A runtime whose ledgers are all empty, at height zero.
    pub fn new() -> (r: Self)
        ensures
            r@.block_number == 0,
            r@.nonces == Map::<Seq<char>, u32>::empty(),
            r@.balances == Map::<Seq<char>, u128>::empty(),
            r@.claims == Map::<Seq<char>, Seq<char>>::empty(),
    {
        Runtime {
            system: system::Pallet::new(),
            balances: balances::Pallet::new(),
            proof_of_existence: proof_of_existence::Pallet::new(),
        }
    }

    /// Route `(caller, runtime call)` to the ledger the call addresses.
    pub fn dispatch(&mut self, caller: String, runtime_call: RuntimeCall) -> (r: DispatchResult)
        ensures
            match spec_dispatch_call(old(self)@, caller@, runtime_call) {
                Ok(v) => r is Ok && final(self)@ == v,
                Err(e) => r == Err::<(), DispatchError>(e) && final(self)@ == old(self)@,
            },
    {
        match runtime_call {
            RuntimeCall::Balances(call) => self.balances.dispatch(caller, call),
            RuntimeCall::ProofOfExistence(call) => self.proof_of_existence.dispatch(caller, call),
        }
    }

    /// Execute one block. The chain height is advanced first; a header that
    /// does not match the advanced height rejects the whole block — leaving
    /// the height advanced — and no extrinsic of it runs. Otherwise every
    /// extrinsic runs in order: its caller's nonce is counted, its call is
    /// dispatched, and a failed dispatch is recorded and isolated — nothing
    /// is rolled back and the block's own result is still success. The
    /// recorded failures are returned to the caller.
    pub fn execute_block(&mut self, block: Block) -> (r: Result<Vec<ExtrinsicFailure>, DispatchError>)
        requires
            block.header.block_number == system::spec_next_block_number(old(self)@.block_number)
                ==> spec_nonces_in_range(
                spec_advance_block_number(old(self)@),
                block.extrinsics@,
                block.extrinsics@.len() as int,
            ),
        ensures
            ({
                let advanced = spec_advance_block_number(old(self)@);
                let exts = block.extrinsics@;
                if block.header.block_number != advanced.block_number {
                    &&& r == Err::<Vec<ExtrinsicFailure>, DispatchError>(
                        DispatchError::BlockNumberMismatch,
                    )
                    &&& final(self)@ == advanced
                } else {
                    &&& r is Ok
                    &&& final(self)@ == spec_state_after(advanced, exts, exts.len() as int)
                    &&& r.unwrap()@ == spec_failures(
                        advanced,
                        exts,
                        exts.len() as int,
                        block.header.block_number,
                    )
                }
            }),
    {
        self.system.increase_block_number();

        let block_number = block.header.block_number;
        if self.system.block_number() != block_number {
            return Err(DispatchError::BlockNumberMismatch);
        }

        let ghost advanced = spec_advance_block_number(old(self)@);
        let ghost all = block.extrinsics@;
        let mut extrinsics = block.extrinsics;
        let total = extrinsics.len();
        let mut failures: Vec<ExtrinsicFailure> = Vec::new();
        let mut i: usize = 0;
        while extrinsics.len() > 0
            invariant
                all.len() == total as int,
                i + extrinsics@.len() == all.len(),
                extrinsics@ == all.subrange(i as int, all.len() as int),
                self@ == spec_state_after(advanced, all, i as int),
                failures@ == spec_failures(advanced, all, i as int, block_number),
                spec_nonces_in_range(advanced, all, all.len() as int),
            decreases extrinsics@.len(),
        {
            let e = extrinsics.remove(0);
            proof {
                assert(e == all[i as int]);
                assert(extrinsics@ =~= all.subrange(i as int + 1, all.len() as int));
            }
            let caller = e.caller;
            let call = e.call;
            proof {
                assert(system::spec_nonce(
                    spec_state_after(advanced, all, i as int).nonces,
                    all[i as int].caller@,
                ) < u32::MAX);
            }
            self.system.increase_nonce(&caller);
            let outcome = self.dispatch(caller, call);
            if let Err(error) = outcome {
                failures.push(ExtrinsicFailure { block_number, index: i, error });
            }
            proof {
                assert(self@ == spec_state_after(advanced, all, i as int + 1));
                assert(failures@ == spec_failures(advanced, all, i as int + 1, block_number));
            }
            i = i + 1;
        }
        Ok(failures)
    }
}

} // verus!
