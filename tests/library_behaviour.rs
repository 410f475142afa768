use plutus::confidential::{AccessError, Confidential};
use plutus::ledger::{
    submission_outcome, LoanLedger, LoanRequest, Repayment, SubmissionOutcome, TransportError,
    ValidationError,
};
use plutus::manager::{loan_request_reply, FinancialManager};
use plutus::records::{FinancialData, FinancialRecordStore, IngestError, Transaction};
use plutus::text::decimal_text;

fn with_balance(balance: u128) -> FinancialManager {
    let mut m = FinancialManager::new();
    m.ingest(Ok(FinancialData { credit_history: vec![], bank_balance: balance })).unwrap();
    m
}

fn txn(amount: u128, date: u64, description: &str) -> Transaction {
    Transaction { amount, date, description: description.to_string() }
}

#[test]
fn decimal_writing_of_extremes() {
    assert_eq!(decimal_text(0), "0");
    assert_eq!(decimal_text(7), "7");
    assert_eq!(decimal_text(10), "10");
    assert_eq!(decimal_text(u128::MAX), u128::MAX.to_string());
}

#[test]
fn confidential_container_set_get_take() {
    let mut c: Confidential<u32> = Confidential::empty();
    assert_eq!(c.get(), Err(AccessError::NotInitialized));
    c.set(5);
    assert_eq!(c.get(), Ok(&5));
    c.set(9);
    assert_eq!(c.get(), Ok(&9));
    assert_eq!(c.take(), Ok(9));
    assert_eq!(c.get(), Err(AccessError::NotInitialized));
    assert_eq!(Confidential::sealed(3u8).get(), Ok(&3));
}

#[test]
fn views_fail_before_any_snapshot() {
    let mut m = FinancialManager::new();
    assert_eq!(m.view_bank_balance(), Err(AccessError::NotInitialized));
    assert_eq!(m.view_transaction_summary(), Err(AccessError::NotInitialized));
    assert_eq!(m.analyze_financials(1), Err(AccessError::NotInitialized));
    assert_eq!(m.view_financial_status(), Err(AccessError::NotInitialized));
    assert_eq!(m.view_loan_status(), Ok(String::new()));
    assert_eq!(m.track_repayments(), Ok("No repayments due.".to_string()));
}

#[test]
fn balance_is_written_verbatim() {
    assert_eq!(with_balance(0).view_bank_balance().unwrap(), "Current Bank Balance: 0");
    assert_eq!(
        with_balance(u128::MAX).view_bank_balance().unwrap(),
        format!("Current Bank Balance: {}", u128::MAX)
    );
}

#[test]
fn ingest_replaces_whole_snapshot() {
    let mut m = FinancialManager::new();
    m.ingest(Ok(FinancialData { credit_history: vec![txn(1, 2, "a")], bank_balance: 10 }))
        .unwrap();
    m.ingest(Ok(FinancialData { credit_history: vec![], bank_balance: 20 })).unwrap();
    assert_eq!(m.view_bank_balance().unwrap(), "Current Bank Balance: 20");
    assert_eq!(m.view_transaction_summary().unwrap(), "");
}

#[test]
fn failed_ingest_keeps_previous_snapshot() {
    let mut m = with_balance(42);
    assert_eq!(m.ingest(Err(IngestError::MalformedPayload)), Err(IngestError::MalformedPayload));
    assert_eq!(m.ingest(Err(IngestError::TransportFailure)), Err(IngestError::TransportFailure));
    assert_eq!(m.view_bank_balance().unwrap(), "Current Bank Balance: 42");

    let mut store = FinancialRecordStore::new();
    assert_eq!(store.ingest(Err(IngestError::MalformedPayload)), Err(IngestError::MalformedPayload));
    assert_eq!(store.balance(), Err(AccessError::NotInitialized));
}

#[test]
fn summary_keeps_insertion_order_and_fields() {
    let mut m = FinancialManager::new();
    let history = vec![txn(30, 300, "Zeta"), txn(10, 100, "Alpha"), txn(20, 200, "Mid, x")];
    m.ingest(Ok(FinancialData { credit_history: history, bank_balance: 0 })).unwrap();
    assert_eq!(
        m.view_transaction_summary().unwrap(),
        "Date: 300, Amount: 30, Description: Zeta\n\
         Date: 100, Amount: 10, Description: Alpha\n\
         Date: 200, Amount: 20, Description: Mid, x"
    );
}

#[test]
fn store_summary_and_affordability() {
    let mut store = FinancialRecordStore::new();
    store
        .ingest(Ok(FinancialData { credit_history: vec![txn(5, 6, "One")], bank_balance: 100 }))
        .unwrap();
    assert_eq!(store.balance(), Ok(100));
    assert_eq!(store.can_afford(100), Ok(true));
    assert_eq!(store.can_afford(101), Ok(false));
    assert_eq!(store.transaction_summary().unwrap(), "Date: 6, Amount: 5, Description: One");
    assert_eq!(store.snapshot().unwrap().bank_balance, 100);
}

#[test]
fn verdict_at_and_around_the_boundary() {
    let m = with_balance(1000);
    assert_eq!(m.analyze_financials(999).unwrap(), "You can afford this purchase!");
    assert_eq!(m.analyze_financials(1000).unwrap(), "You can afford this purchase!");
    assert_eq!(
        m.analyze_financials(1001).unwrap(),
        "Insufficient funds. Consider applying for a loan."
    );
    assert_eq!(with_balance(0).analyze_financials(0).unwrap(), "You can afford this purchase!");
}

#[test]
fn request_validation_errors() {
    let mut m = FinancialManager::new();
    assert_eq!(m.request_loan(0, 50_000, 30), Err(ValidationError::NonPositiveAmount));
    assert_eq!(m.request_loan(100, 1_000_001, 30), Err(ValidationError::InvalidRate));
    assert_eq!(m.request_loan(100, 50_000, 0), Err(ValidationError::NonPositiveDuration));
    assert_eq!(m.request_loan(0, 2_000_000, 0), Err(ValidationError::NonPositiveAmount));
    assert_eq!(m.view_loan_status().unwrap(), "");
}

#[test]
fn request_accepts_rate_bounds_and_appends_one_each() {
    let mut m = FinancialManager::new();
    let first = m.request_loan(1, 0, 1).unwrap();
    assert_eq!(first, LoanRequest { amount: 1, interest_rate: 0, duration: 1 });
    m.request_loan(u128::MAX, 1_000_000, u32::MAX).unwrap();
    m.request_loan(2000, 50_000, 30).unwrap();
    assert_eq!(
        m.view_loan_status().unwrap(),
        format!(
            "Loan Amount: 1, Interest Rate: 0, Duration: 1 days\n\
             Loan Amount: {}, Interest Rate: 1, Duration: {} days\n\
             Loan Amount: 2000, Interest Rate: 0.05, Duration: 30 days",
            u128::MAX,
            u32::MAX
        )
    );
}

#[test]
fn rate_is_written_as_shortest_fraction() {
    let mut ledger = LoanLedger::new();
    ledger.record_request(7, 123_456, 2).unwrap();
    ledger.record_request(7, 100_000, 2).unwrap();
    ledger.record_request(7, 1, 2).unwrap();
    assert_eq!(
        ledger.status_summary().unwrap(),
        "Loan Amount: 7, Interest Rate: 0.123456, Duration: 2 days\n\
         Loan Amount: 7, Interest Rate: 0.1, Duration: 2 days\n\
         Loan Amount: 7, Interest Rate: 0.000001, Duration: 2 days"
    );
    assert_eq!(ledger.requests().unwrap().len(), 3);
}

#[test]
fn submission_body_and_outcomes() {
    let req = LoanRequest { amount: 2000, interest_rate: 50_000, duration: 30 };
    assert_eq!(
        req.submission_body(),
        "{\"amount\": 2000, \"interest_rate\": 0.05, \"duration\": 30}"
    );
    assert_eq!(SubmissionOutcome::from_status(200), SubmissionOutcome::Accepted);
    assert_eq!(SubmissionOutcome::from_status(201), SubmissionOutcome::Rejected);
    assert_eq!(submission_outcome(Ok(500)), Ok(SubmissionOutcome::Rejected));
    assert_eq!(submission_outcome(Err(TransportError::Timeout)), Err(TransportError::Timeout));
    assert_eq!(SubmissionOutcome::Rejected.message(), "Loan request failed.");
    assert_eq!(loan_request_reply(Ok(404)).unwrap(), "Loan request failed.");
    assert_eq!(loan_request_reply(Err(TransportError::Network)), Err(TransportError::Network));
}

#[test]
fn request_stays_recorded_after_rejection() {
    let mut m = FinancialManager::new();
    m.request_loan(500, 10_000, 10).unwrap();
    assert_eq!(loan_request_reply(Ok(503)).unwrap(), "Loan request failed.");
    assert_eq!(
        m.view_loan_status().unwrap(),
        "Loan Amount: 500, Interest Rate: 0.01, Duration: 10 days"
    );
}

#[test]
fn next_due_is_first_stored_not_earliest() {
    let mut ledger = LoanLedger::new();
    assert_eq!(ledger.next_due_repayment(), Ok(None));
    ledger.record_repayment(Repayment { amount_due: 0, due_date: 1 });
    assert_eq!(ledger.next_due_repayment(), Ok(None));
    ledger.record_repayment(Repayment { amount_due: 300, due_date: 900 });
    ledger.record_repayment(Repayment { amount_due: 100, due_date: 50 });
    assert_eq!(
        ledger.next_due_repayment(),
        Ok(Some(Repayment { amount_due: 300, due_date: 900 }))
    );
    assert_eq!(ledger.repayments().unwrap().len(), 3);
}

#[test]
fn track_repayments_texts() {
    let mut m = FinancialManager::new();
    m.record_repayment(Repayment { amount_due: 0, due_date: 5 });
    assert_eq!(m.track_repayments().unwrap(), "No repayments due.");
    m.record_repayment(Repayment { amount_due: 250, due_date: 1700000000 });
    m.record_repayment(Repayment { amount_due: 10, due_date: 1 });
    assert_eq!(m.track_repayments().unwrap(), "Payment due: 250 before 1700000000");
}

#[test]
fn financial_status_digest() {
    let mut m = FinancialManager::new();
    m.ingest(Ok(FinancialData {
        credit_history: vec![txn(1, 1, "a"), txn(2, 2, "b")],
        bank_balance: 777,
    }))
    .unwrap();
    m.request_loan(10, 0, 5).unwrap();
    m.record_repayment(Repayment { amount_due: 1, due_date: 2 });
    m.record_repayment(Repayment { amount_due: 0, due_date: 3 });
    m.record_repayment(Repayment { amount_due: 4, due_date: 5 });
    assert_eq!(
        m.view_financial_status().unwrap(),
        "Bank Balance: 777\nCredit Transactions: 2\nOutstanding Loans: 1\nRepayments Due: 3"
    );
}
