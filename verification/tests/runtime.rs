use ledger_runtime::balances;
use ledger_runtime::proof_of_existence;
use ledger_runtime::support::DispatchError;
use ledger_runtime::utils::Block;
use ledger_runtime::utils::Extrinsic;
use ledger_runtime::utils::ExtrinsicFailure;
use ledger_runtime::utils::Header;
use ledger_runtime::utils::RuntimeCall;
use ledger_runtime::Runtime;

fn transfer(caller: &str, to: &str, amount: u128) -> Extrinsic {
    Extrinsic {
        caller: String::from(caller),
        call: RuntimeCall::Balances(balances::Call::Transfer {
            to: String::from(to),
            amount,
        }),
    }
}

fn create_claim(caller: &str, claim: &str) -> Extrinsic {
    Extrinsic {
        caller: String::from(caller),
        call: RuntimeCall::ProofOfExistence(proof_of_existence::Call::CreateClaim {
            claim: String::from(claim),
        }),
    }
}

fn block(block_number: u32, extrinsics: Vec<Extrinsic>) -> Block {
    Block { header: Header { block_number }, extrinsics }
}

#[test]
fn never_written_defaults() {
    let runtime = Runtime::new();

    assert_eq!(runtime.system.block_number(), 0);
    assert_eq!(runtime.system.get_nonce(&String::from("Alice")), 0);
    assert_eq!(runtime.balances.get_balance(&String::from("Alice")), 0);
    assert_eq!(runtime.proof_of_existence.get_claim(&String::from("doc")), None);
}

#[test]
fn block_number_must_match() {
    let mut runtime = Runtime::new();

    // The height is advanced before the header is checked, so a mismatched
    // block still leaves the height incremented, and none of its extrinsics
    // runs.
    let r = runtime.execute_block(block(7, vec![transfer("Alice", "Bob", 10)]));
    assert_eq!(r, Err(DispatchError::BlockNumberMismatch));
    assert_eq!(runtime.system.block_number(), 1);
    assert_eq!(runtime.system.get_nonce(&String::from("Alice")), 0);

    // The next block must therefore declare height 2.
    let r = runtime.execute_block(block(2, Vec::new()));
    assert!(r.is_ok());
    assert_eq!(runtime.system.block_number(), 2);
}

#[test]
fn failed_extrinsics_are_isolated_and_reported() {
    let mut runtime = Runtime::new();
    runtime.balances.set_balance(&String::from("Alice"), 100);

    let b = block(
        1,
        vec![
            transfer("Alice", "Bob", 30),
            transfer("Alice", "Bob", 1000),
            create_claim("Bob", "doc"),
            create_claim("Charlie", "doc"),
        ],
    );
    let failures = runtime.execute_block(b).expect("the header height matches");

    // The two failures are reported in execution order with their indices,
    // and the successful extrinsics around them stand.
    assert_eq!(
        failures,
        vec![
            ExtrinsicFailure {
                block_number: 1,
                index: 1,
                error: DispatchError::InsufficientBalance,
            },
            ExtrinsicFailure {
                block_number: 1,
                index: 3,
                error: DispatchError::ClaimAlreadyExists,
            },
        ]
    );
    assert_eq!(runtime.balances.get_balance(&String::from("Alice")), 70);
    assert_eq!(runtime.balances.get_balance(&String::from("Bob")), 30);
    assert_eq!(
        runtime.proof_of_existence.get_claim(&String::from("doc")),
        Some(&String::from("Bob"))
    );

    // Every extrinsic counted against its caller's nonce, failed or not.
    assert_eq!(runtime.system.get_nonce(&String::from("Alice")), 2);
    assert_eq!(runtime.system.get_nonce(&String::from("Bob")), 1);
    assert_eq!(runtime.system.get_nonce(&String::from("Charlie")), 1);
}

#[test]
fn nonce_counts_callers_across_blocks() {
    let mut runtime = Runtime::new();
    runtime.balances.set_balance(&String::from("Alice"), 10);

    // Alice calls five extrinsics across two blocks; three of the dispatches
    // fail. Her nonce still counts all five.
    let r = runtime.execute_block(block(
        1,
        vec![
            transfer("Alice", "Bob", 4),
            transfer("Alice", "Bob", 1000),
            create_claim("Alice", "doc"),
        ],
    ));
    assert!(r.is_ok());
    let r = runtime.execute_block(block(
        2,
        vec![create_claim("Alice", "doc"), transfer("Alice", "Bob", 1000)],
    ));
    assert!(r.is_ok());

    assert_eq!(runtime.system.get_nonce(&String::from("Alice")), 5);
    assert_eq!(runtime.system.get_nonce(&String::from("Bob")), 0);
}

#[test]
fn end_to_end_two_blocks() {
    let mut runtime = Runtime::new();
    runtime.balances.set_balance(&String::from("Alice"), 100);

    let r = runtime.execute_block(block(
        1,
        vec![transfer("Alice", "Bob", 30), transfer("Alice", "Charlie", 20)],
    ));
    assert_eq!(r, Ok(Vec::new()));
    assert_eq!(runtime.balances.get_balance(&String::from("Alice")), 50);
    assert_eq!(runtime.balances.get_balance(&String::from("Bob")), 30);
    assert_eq!(runtime.balances.get_balance(&String::from("Charlie")), 20);

    let r = runtime.execute_block(block(2, vec![transfer("Alice", "Bob", 1000)]));
    assert_eq!(
        r,
        Ok(vec![ExtrinsicFailure {
            block_number: 2,
            index: 0,
            error: DispatchError::InsufficientBalance,
        }])
    );
    assert_eq!(runtime.balances.get_balance(&String::from("Alice")), 50);
    assert_eq!(runtime.balances.get_balance(&String::from("Bob")), 30);
    assert_eq!(runtime.system.get_nonce(&String::from("Alice")), 3);
}

#[test]
fn dispatch_routes_to_the_named_ledger() {
    let mut runtime = Runtime::new();
    runtime.balances.set_balance(&String::from("Alice"), 10);

    let r = runtime.dispatch(
        String::from("Alice"),
        RuntimeCall::Balances(balances::Call::Transfer {
            to: String::from("Bob"),
            amount: 10,
        }),
    );
    assert_eq!(r, Ok(()));
    assert_eq!(runtime.balances.get_balance(&String::from("Bob")), 10);

    let r = runtime.dispatch(
        String::from("Bob"),
        RuntimeCall::ProofOfExistence(proof_of_existence::Call::RevokeClaim {
            claim: String::from("doc"),
        }),
    );
    assert_eq!(r, Err(DispatchError::ClaimNotFound));

    // Dispatch itself does no nonce bookkeeping; only block execution does.
    assert_eq!(runtime.system.get_nonce(&String::from("Alice")), 0);
}
