use ledger_runtime::proof_of_existence::Pallet;
use ledger_runtime::support::DispatchError;

#[test]
fn basic_proof_of_existence() {
    let mut proof_of_existence = Pallet::new();

    let _ = proof_of_existence.create_claim(String::from("Alice"), String::from("my_documents"));

    assert_eq!(
        proof_of_existence.get_claim(&String::from("my_documents")),
        Some(&String::from("Alice"))
    );

    let _ = proof_of_existence.revoke_claim(String::from("Alice"), String::from("my_documents"));
    assert_eq!(proof_of_existence.get_claim(&String::from("my_documents")), None);

    let _ = proof_of_existence.create_claim(String::from("Bob"), String::from("my_documents"));

    let res = proof_of_existence.create_claim(String::from("Charlie"), String::from("my_documents"));

    assert_eq!(res, Err(DispatchError::ClaimAlreadyExists));

    let res02 = proof_of_existence.revoke_claim(String::from("Alice"), String::from("my_documents"));
    assert_eq!(res02, Err(DispatchError::NotClaimOwner));
}

#[test]
fn claim_lifecycle() {
    let mut poe = Pallet::new();

    assert_eq!(poe.create_claim(String::from("Alice"), String::from("doc")), Ok(()));
    assert_eq!(poe.get_claim(&String::from("doc")), Some(&String::from("Alice")));

    // A second claim of the same content fails, and the owner stays.
    assert_eq!(
        poe.create_claim(String::from("Bob"), String::from("doc")),
        Err(DispatchError::ClaimAlreadyExists)
    );
    assert_eq!(poe.get_claim(&String::from("doc")), Some(&String::from("Alice")));

    // Only the owner may revoke.
    assert_eq!(
        poe.revoke_claim(String::from("Bob"), String::from("doc")),
        Err(DispatchError::NotClaimOwner)
    );
    assert_eq!(poe.get_claim(&String::from("doc")), Some(&String::from("Alice")));

    assert_eq!(poe.revoke_claim(String::from("Alice"), String::from("doc")), Ok(()));
    assert_eq!(poe.get_claim(&String::from("doc")), None);
}

#[test]
fn revoke_absent_claim() {
    let mut poe = Pallet::new();

    assert_eq!(
        poe.revoke_claim(String::from("Alice"), String::from("nothing_here")),
        Err(DispatchError::ClaimNotFound)
    );
    assert_eq!(poe.get_claim(&String::from("nothing_here")), None);
}

#[test]
fn reclaim_after_revoke() {
    let mut poe = Pallet::new();

    assert_eq!(poe.create_claim(String::from("Alice"), String::from("doc")), Ok(()));
    assert_eq!(poe.revoke_claim(String::from("Alice"), String::from("doc")), Ok(()));
    // Revoked content is unclaimed again, so anyone may claim it anew.
    assert_eq!(poe.create_claim(String::from("Bob"), String::from("doc")), Ok(()));
    assert_eq!(poe.get_claim(&String::from("doc")), Some(&String::from("Bob")));
}

#[test]
fn claims_are_independent() {
    let mut poe = Pallet::new();

    assert_eq!(poe.create_claim(String::from("Alice"), String::from("first")), Ok(()));
    assert_eq!(poe.create_claim(String::from("Alice"), String::from("second")), Ok(()));
    assert_eq!(poe.get_claim(&String::from("first")), Some(&String::from("Alice")));
    assert_eq!(poe.get_claim(&String::from("second")), Some(&String::from("Alice")));

    assert_eq!(poe.revoke_claim(String::from("Alice"), String::from("first")), Ok(()));
    assert_eq!(poe.get_claim(&String::from("first")), None);
    assert_eq!(poe.get_claim(&String::from("second")), Some(&String::from("Alice")));
}
