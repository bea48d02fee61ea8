use rwz_pof::statement::{
    decide_statement, evaluate_statement, SignatureStatus, StatementError,
};
use rwz_pof::{create_signed_message, get_deterministic_signing_key, DealInfo, SignedMessage};

fn signed(index: u64, amount: u64, deal_id: &str, buyer: &str) -> SignedMessage {
    let key = get_deterministic_signing_key(index);
    create_signed_message(&key, amount, deal_id.to_string(), buyer.to_string()).unwrap()
}

fn unsigned(pubkey: u8, amount: u64, deal_id: &str, buyer: &str) -> SignedMessage {
    SignedMessage {
        pubkey: vec![pubkey; 33],
        message: DealInfo { amount, deal_id: deal_id.to_string(), buyer: buyer.to_string() },
        signature: vec![0; 64],
    }
}

#[test]
fn end_to_end_two_parties() {
    let lb1 = signed(0, 50, "DEAL123", "buyer123");
    let lb2 = signed(1, 30, "DEAL123", "buyer123");

    let (deal_info, verified_amount) = evaluate_statement(&lb1, &lb2, 60).unwrap();
    assert_eq!(deal_info.deal_id, "DEAL123");
    assert_eq!(deal_info.buyer, "buyer123");
    assert_eq!(deal_info.amount, 60);
    assert_eq!(verified_amount, 60);

    assert_eq!(evaluate_statement(&lb1, &lb2, 90).unwrap_err(), StatementError::InsufficientFunds);
}

#[test]
fn the_sum_itself_is_enough_and_is_not_disclosed() {
    let lb1 = signed(0, 50, "DEAL123", "buyer123");
    let lb2 = signed(1, 30, "DEAL123", "buyer123");
    let (deal_info, verified_amount) = evaluate_statement(&lb1, &lb2, 80).unwrap();
    assert_eq!((deal_info.amount, verified_amount), (80, 80));
    assert_eq!(evaluate_statement(&lb1, &lb2, 81).unwrap_err(), StatementError::InsufficientFunds);
    let (deal_info, verified_amount) = evaluate_statement(&lb1, &lb2, 0).unwrap();
    assert_eq!((deal_info.amount, verified_amount), (0, 0));
    let (deal_info, verified_amount) = evaluate_statement(&lb2, &lb1, 1).unwrap();
    assert_eq!((deal_info.amount, verified_amount), (1, 1));
}

#[test]
fn amounts_are_summed_without_wrapping() {
    let lb1 = signed(0, u64::MAX, "D", "B");
    let lb2 = signed(1, u64::MAX, "D", "B");
    let (deal_info, verified_amount) = evaluate_statement(&lb1, &lb2, u64::MAX).unwrap();
    assert_eq!((deal_info.amount, verified_amount), (u64::MAX, u64::MAX));
    let lb2 = signed(1, 1, "D", "B");
    assert!(evaluate_statement(&lb1, &lb2, u64::MAX).is_ok());
    let lb1 = signed(0, u64::MAX - 1, "D", "B");
    let lb2 = signed(1, 0, "D", "B");
    assert_eq!(
        evaluate_statement(&lb1, &lb2, u64::MAX).unwrap_err(),
        StatementError::InsufficientFunds
    );
}

#[test]
fn one_party_cannot_be_counted_twice() {
    let lb1 = signed(0, 50, "DEAL123", "buyer123");
    let again = signed(0, 30, "DEAL123", "buyer123");
    assert_eq!(evaluate_statement(&lb1, &again, 60).unwrap_err(), StatementError::DuplicateParty);
    assert_eq!(evaluate_statement(&lb1, &lb1, 0).unwrap_err(), StatementError::DuplicateParty);
    let other_terms = signed(0, u64::MAX, "OTHER", "someone");
    assert_eq!(
        evaluate_statement(&lb1, &other_terms, u64::MAX).unwrap_err(),
        StatementError::DuplicateParty
    );
}

#[test]
fn each_failed_check_has_its_error() {
    let lb1 = signed(0, 50, "DEAL123", "buyer123");
    let lb2 = signed(1, 30, "DEAL123", "buyer123");

    let stranger = signed(999, 30, "DEAL123", "buyer123");
    assert_eq!(evaluate_statement(&stranger, &lb2, 60).unwrap_err(), StatementError::UnknownParty);
    assert_eq!(evaluate_statement(&lb1, &stranger, 60).unwrap_err(), StatementError::UnknownParty);

    let mut forged = lb2.clone();
    forged.message.amount = 3000;
    assert_eq!(
        evaluate_statement(&lb1, &forged, 60).unwrap_err(),
        StatementError::SignatureInvalid
    );
    assert_eq!(
        evaluate_statement(&forged, &lb1, 60).unwrap_err(),
        StatementError::SignatureInvalid
    );

    let other_deal = signed(1, 30, "DEAL124", "buyer123");
    assert_eq!(evaluate_statement(&lb1, &other_deal, 60).unwrap_err(), StatementError::DealMismatch);

    let other_buyer = signed(1, 30, "DEAL123", "buyer124");
    assert_eq!(
        evaluate_statement(&lb1, &other_buyer, 60).unwrap_err(),
        StatementError::BuyerMismatch
    );

    assert_eq!(evaluate_statement(&lb1, &lb2, 81).unwrap_err(), StatementError::InsufficientFunds);
}

#[test]
fn the_first_failing_check_decides() {
    let lb1 = signed(0, 50, "DEAL123", "buyer123");
    // first commitment before second
    let stranger = signed(999, 1, "X", "Y");
    let mut forged = signed(1, 1, "X", "Y");
    forged.signature[5] ^= 0x10;
    assert_eq!(
        evaluate_statement(&stranger, &forged, u64::MAX).unwrap_err(),
        StatementError::UnknownParty
    );
    assert_eq!(
        evaluate_statement(&forged, &stranger, u64::MAX).unwrap_err(),
        StatementError::SignatureInvalid
    );
    // signatures before the duplicate check
    let mut forged_twin = lb1.clone();
    forged_twin.message.amount = 51;
    assert_eq!(
        evaluate_statement(&lb1, &forged_twin, 0).unwrap_err(),
        StatementError::SignatureInvalid
    );
    // deal before buyer before funds
    let all_wrong = signed(1, 1, "X", "Y");
    assert_eq!(
        evaluate_statement(&lb1, &all_wrong, u64::MAX).unwrap_err(),
        StatementError::DealMismatch
    );
    let buyer_and_funds = signed(1, 1, "DEAL123", "Y");
    assert_eq!(
        evaluate_statement(&lb1, &buyer_and_funds, u64::MAX).unwrap_err(),
        StatementError::BuyerMismatch
    );
}

#[test]
fn decision_follows_the_checks_it_is_given() {
    let a = unsigned(2, 50, "DEAL123", "buyer123");
    let b = unsigned(3, 30, "DEAL123", "buyer123");
    let valid = SignatureStatus::Valid;

    let (deal_info, verified_amount) = decide_statement(valid, valid, &a, &b, 60).unwrap();
    assert_eq!(deal_info.amount, 60);
    assert_eq!(deal_info.deal_id, "DEAL123");
    assert_eq!(deal_info.buyer, "buyer123");
    assert_eq!(verified_amount, 60);

    assert_eq!(
        decide_statement(SignatureStatus::UnknownParty, valid, &a, &b, 60).unwrap_err(),
        StatementError::UnknownParty
    );
    assert_eq!(
        decide_statement(SignatureStatus::SignatureInvalid, valid, &a, &b, 60).unwrap_err(),
        StatementError::SignatureInvalid
    );
    assert_eq!(
        decide_statement(valid, SignatureStatus::UnknownParty, &a, &b, 60).unwrap_err(),
        StatementError::UnknownParty
    );
    assert_eq!(
        decide_statement(valid, SignatureStatus::SignatureInvalid, &a, &b, 60).unwrap_err(),
        StatementError::SignatureInvalid
    );
    assert_eq!(
        decide_statement(
            SignatureStatus::SignatureInvalid,
            SignatureStatus::UnknownParty,
            &a,
            &b,
            60
        )
        .unwrap_err(),
        StatementError::SignatureInvalid
    );
    assert_eq!(
        decide_statement(valid, valid, &a, &a, 0).unwrap_err(),
        StatementError::DuplicateParty
    );
    assert_eq!(
        decide_statement(valid, valid, &a, &b, 81).unwrap_err(),
        StatementError::InsufficientFunds
    );
    let c = unsigned(3, 30, "DEAL123", "");
    assert_eq!(
        decide_statement(valid, valid, &a, &c, 60).unwrap_err(),
        StatementError::BuyerMismatch
    );
    let d = unsigned(3, 30, "", "buyer123");
    assert_eq!(
        decide_statement(valid, valid, &a, &d, 60).unwrap_err(),
        StatementError::DealMismatch
    );
}
