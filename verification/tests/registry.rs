use document_registry::account::AccountId;
use document_registry::keystore::{check_signature, public_key_of};
use document_registry::policy::{AcceptAll, RequireNonEmpty};
use document_registry::registry::DocumentContract;

#[test]
fn upload_and_verify_signature() {
    // Initialize a contract instance with a mock owner account ID
    let mut contract = DocumentContract::new(AccountId::new([0x42; 32]), true, AcceptAll {});

    // Mock account ID for testing
    let sender = AccountId::new([0x43; 32]);

    // Mock document content for testing
    let document_content = Vec::from("Mock document content");

    // Upload a document to the contract
    assert!(contract.upload_document(sender, document_content.clone()).is_ok());

    // Verify the signature of the uploaded document
    let signature_valid = contract.verify_signature(sender);

    // Assert that the signature is valid
    assert!(signature_valid);
}

#[test]
fn upload_and_notify() {
    let alice = AccountId::new([0x01; 32]);
    let mut contract = DocumentContract::new(alice, false, AcceptAll {});

    // Mock document content for testing
    let document_content = Vec::from("Mock document content");

    // Upload a document to the contract
    assert!(contract.upload_document(alice, document_content.clone()).is_ok());

    // Notify payment methods contract about uploaded documents
    let event = contract.notify_payment_methods(alice, alice);
    assert_eq!(*event.sender.bytes(), [0x01; 32]);

    // Verify that the document is valid
    let document = contract.get_document(alice);
    assert_eq!(document.unwrap().is_valid, true);
}

#[test]
fn scenario_two_uploads_and_stale_content_check() {
    let owner = AccountId::new([0xAA; 32]);
    let caller = AccountId::new([0xBB; 32]);
    let mut contract = DocumentContract::new(owner, true, AcceptAll {});

    assert!(contract.upload_document(caller, Vec::from("hello")).is_ok());
    let doc = contract.get_document(caller).unwrap();
    assert_eq!(doc.content, Vec::from("hello"));
    assert_eq!(doc.is_valid, true);
    assert!(contract.verify_signature(caller));

    assert!(contract.upload_document(caller, Vec::from("bye")).is_ok());
    let doc = contract.get_document(caller).unwrap();
    assert_eq!(doc.content, Vec::from("bye"));
    assert!(contract.verify_signature(caller));

    // The stored signature covers "bye"; against the old content it must fail.
    let stale_content = Vec::from("hello");
    let pk = public_key_of(&owner, &caller);
    let sig = doc.signature.as_ref().unwrap();
    assert_eq!(sig.bytes().len(), 64);
    assert!(!check_signature(&pk, &stale_content, sig));
}

#[test]
fn overwrite_keeps_latest_and_spares_others() {
    let owner = AccountId::new([0x11; 32]);
    let first = AccountId::new([0x22; 32]);
    let second = AccountId::new([0x33; 32]);
    let mut contract = DocumentContract::new(owner, true, AcceptAll {});

    assert!(contract.upload_document(first, Vec::from("first version")).is_ok());
    assert!(contract.upload_document(second, Vec::from("second version")).is_ok());
    assert!(contract.upload_document(first, Vec::from("first replacement")).is_ok());

    assert_eq!(contract.get_document(first).unwrap().content, Vec::from("first replacement"));
    assert_eq!(contract.get_document(second).unwrap().content, Vec::from("second version"));
}

#[test]
fn verification_is_total_over_accounts() {
    let owner = AccountId::new([0x42; 32]);
    let unknown = AccountId::new([0x99; 32]);
    let contract: DocumentContract<AcceptAll> = DocumentContract::new(owner, true, AcceptAll {});

    // No record stored: verification reports false rather than failing.
    assert!(!contract.verify_signature(unknown));

    // A record without a signature (non-signing variant) also reports false.
    let mut unsigned = DocumentContract::new(owner, false, AcceptAll {});
    assert!(unsigned.upload_document(unknown, Vec::from("plain")).is_ok());
    assert!(!unsigned.verify_signature(unknown));
}

#[test]
fn rejected_document_is_still_stored() {
    let owner = AccountId::new([0x42; 32]);
    let caller = AccountId::new([0x55; 32]);
    let mut contract = DocumentContract::new(owner, true, RequireNonEmpty {});

    // An empty submission is rejected by the policy but stored, flagged invalid.
    assert!(contract.upload_document(caller, Vec::new()).is_ok());
    let doc = contract.get_document(caller).unwrap();
    assert_eq!(doc.is_valid, false);
    assert_eq!(doc.content, Vec::<u8>::new());

    // A non-empty submission is stored with the valid flag.
    assert!(contract.upload_document(caller, Vec::from("content")).is_ok());
    assert_eq!(contract.get_document(caller).unwrap().is_valid, true);
}

#[test]
fn notify_does_not_change_stored_state() {
    let owner = AccountId::new([0x42; 32]);
    let caller = AccountId::new([0x66; 32]);
    let peer = AccountId::new([0x77; 32]);
    let mut contract = DocumentContract::new(owner, true, AcceptAll {});

    assert!(contract.upload_document(caller, Vec::from("steady")).is_ok());

    for _ in 0..3 {
        let event = contract.notify_payment_methods(caller, peer);
        assert_eq!(*event.sender.bytes(), [0x66; 32]);
        assert_eq!(*event.other_contract.bytes(), [0x77; 32]);
    }

    assert_eq!(contract.get_document(caller).unwrap().content, Vec::from("steady"));
    assert!(contract.verify_signature(caller));
}

#[test]
fn signature_is_bound_to_the_owner_key() {
    let owner = AccountId::new([0x42; 32]);
    let other_owner = AccountId::new([0x43; 32]);
    let caller = AccountId::new([0x44; 32]);
    let mut contract = DocumentContract::new(owner, true, AcceptAll {});

    let content = Vec::from("owned content");
    assert!(contract.upload_document(caller, content.clone()).is_ok());
    let doc = contract.get_document(caller).unwrap();
    let sig = doc.signature.as_ref().unwrap();

    // Under the authority's own key the signature checks out ...
    assert!(check_signature(&public_key_of(&owner, &caller), &content, sig));
    // ... and under a different authority's key it does not.
    assert!(!check_signature(&public_key_of(&other_owner, &caller), &content, sig));
}
