//! The financial manager: owns one record store and one loan ledger for the
//! account, and renders every view that the account holder reads.
use vstd::prelude::*;
use crate::confidential::AccessError;
use crate::ledger::{
    first_due, loans_text, or_empty, outcome_of, outcome_text, submission_outcome, validation_error,
    LedgerView, LoanLedger, LoanRequest, Repayment, TransportError, ValidationError,
};
use crate::records::{
    transaction_line, transactions_text, FinancialData, Transaction, FinancialRecordStore, IngestError,
};
use crate::text::{decimal, joined, lemma_decimal_injective, lemma_joined_prefix, push_decimal};

verus! {

/// Everything the manager holds: the snapshot, if any, and the ledger.
pub struct AccountView {
    pub snapshot: Option<FinancialData>,
    pub ledger: LedgerView,
}

/// The account after a snapshot was taken in.
pub open spec fn ingested(a: AccountView, d: FinancialData) -> AccountView {
    AccountView { snapshot: Some(d), ledger: a.ledger }
}

/// A rendered result seen as characters.
pub open spec fn text_of<E>(r: Result<String, E>) -> Result<Seq<char>, E> {
    match r {
        Ok(s) => Ok(s@),
        Err(e) => Err(e),
    }
}

/// The balance view: a fixed prefix and the stored balance in decimal.
pub open spec fn balance_view(a: AccountView) -> Result<Seq<char>, AccessError> {
    match a.snapshot {
        Some(d) => Ok("Current Bank Balance: "@ + decimal(d.bank_balance as nat)),
        None => Err(AccessError::NotInitialized),
    }
}

/// The transaction summary of the stored snapshot.
pub open spec fn summary_view(a: AccountView) -> Result<Seq<char>, AccessError> {
    match a.snapshot {
        Some(d) => Ok(transactions_text(d.credit_history@)),
        None => Err(AccessError::NotInitialized),
    }
}

/// The verdict when the balance covers a purchase.
pub open spec fn affordable_text() -> Seq<char> {
    "You can afford this purchase!"@
}

/// The verdict when it does not.
pub open spec fn insufficient_text() -> Seq<char> {
    "Insufficient funds. Consider applying for a loan."@
}

/// The verdict on a purchase of `amount`.
pub open spec fn verdict_view(a: AccountView, amount: u128) -> Result<Seq<char>, AccessError> {
    match a.snapshot {
        Some(d) => Ok(
            if d.bank_balance >= amount {
                affordable_text()
            } else {
                insufficient_text()
            },
        ),
        None => Err(AccessError::NotInitialized),
    }
}

/// The status summary of the recorded loan requests.
pub open spec fn loan_status_view(a: AccountView) -> Result<Seq<char>, AccessError> {
    match a.ledger.requests {
        Some(s) => Ok(loans_text(s)),
        None => Err(AccessError::NotInitialized),
    }
}

/// The text for the next payment: the first one in stored order with something due.
pub open spec fn due_text(p: Option<Repayment>) -> Seq<char> {
    match p {
        Some(p) => "Payment due: "@ + decimal(p.amount_due as nat) + " before "@ + decimal(
            p.due_date as nat,
        ),
        None => "No repayments due."@,
    }
}

/// The repayment note for the stored obligations.
pub open spec fn repayments_view(a: AccountView) -> Result<Seq<char>, AccessError> {
    match a.ledger.repayments {
        Some(s) => Ok(due_text(first_due(s))),
        None => Err(AccessError::NotInitialized),
    }
}

/// Balance and the three counts; an error when any part cannot be read.
pub open spec fn status_view(a: AccountView) -> Result<Seq<char>, AccessError> {
    match (a.snapshot, a.ledger.requests, a.ledger.repayments) {
        (Some(d), Some(l), Some(p)) => Ok(
            "Bank Balance: "@ + decimal(d.bank_balance as nat) + "\nCredit Transactions: "@
                + decimal(d.credit_history@.len()) + "\nOutstanding Loans: "@ + decimal(l.len())
                + "\nRepayments Due: "@ + decimal(p.len()),
        ),
        _ => Err(AccessError::NotInitialized),
    }
}

/// The reply to a loan request from the venue's answer to its submission.
pub open spec fn reply_view(response: Result<u16, TransportError>) -> Result<
    Seq<char>,
    TransportError,
> {
    match response {
        Ok(status) => Ok(outcome_text(outcome_of(status))),
        Err(e) => Err(e),
    }
}

/// The reply to a loan request, from the lending venue's answer to the
/// submission of its body: a status code, or the transport failure.
pub fn loan_request_reply(response: Result<u16, TransportError>) -> (r: Result<
    String,
    TransportError,
>)
    ensures
        text_of(r) == reply_view(response),
{
    let outcome = submission_outcome(response)?;
    Ok(outcome.message())
}

/// The confidential state of one account and the operations on it.
pub struct FinancialManager {
    user_data: FinancialRecordStore,
    ledger: LoanLedger,
}

impl View for FinancialManager {
    type V = AccountView;

    closed spec fn view(&self) -> AccountView {
        AccountView { snapshot: self.user_data@, ledger: self.ledger@ }
    }
}

impl FinancialManager {
    /// An account with no snapshot yet and an empty ledger.
    pub fn new() -> (r: Self)
        ensures
            r@.snapshot == None::<FinancialData>,
            r@.ledger.requests == Some(Seq::<LoanRequest>::empty()),
            r@.ledger.repayments == Some(Seq::<Repayment>::empty()),
    {
        FinancialManager { user_data: FinancialRecordStore::new(), ledger: LoanLedger::new() }
    }

    /// Takes in the outcome of a fetch from the data provider: a snapshot
    /// replaces the stored one whole; a failure leaves everything as it was.
    pub fn ingest(&mut self, fetched: Result<FinancialData, IngestError>) -> (r: Result<
        (),
        IngestError,
    >)
        ensures
            match fetched {
                Ok(d) => r is Ok && final(self)@ == ingested(old(self)@, d),
                Err(e) => r == Err::<(), IngestError>(e) && final(self)@ == old(self)@,
            },
    {
        self.user_data.ingest(fetched)
    }

    /// One line per transaction, in stored order, every field verbatim.
    pub fn view_transaction_summary(&self) -> (r: Result<String, AccessError>)
        ensures
            text_of(r) == summary_view(self@),
    {
        self.user_data.transaction_summary()
    }

    /// The balance, written as it is stored.
    pub fn view_bank_balance(&self) -> (r: Result<String, AccessError>)
        ensures
            text_of(r) == balance_view(self@),
    {
        let b = self.user_data.balance()?;
        let mut out = String::from_str("Current Bank Balance: ");
        push_decimal(&mut out, b);
        Ok(out)
    }

    /// Whether the balance covers a purchase, as one of two fixed verdicts.
    pub fn analyze_financials(&self, purchase_amount: u128) -> (r: Result<String, AccessError>)
        ensures
            text_of(r) == verdict_view(self@, purchase_amount),
    {
        if self.user_data.can_afford(purchase_amount)? {
            Ok(String::from_str("You can afford this purchase!"))
        } else {
            Ok(String::from_str("Insufficient funds. Consider applying for a loan."))
        }
    }

    /// Records a loan request (the rate in millionths) when its parameters
    /// are valid. The caller then submits `submission_body` of the result
    /// and turns the venue's answer into a reply with `loan_request_reply`;
    /// the request stays recorded whatever the venue answers.
    pub fn request_loan(&mut self, amount: u128, interest_rate: u32, duration: u32) -> (r: Result<
        LoanRequest,
        ValidationError,
    >)
        ensures
            final(self)@.snapshot == old(self)@.snapshot,
            final(self)@.ledger.repayments == old(self)@.ledger.repayments,
            match validation_error(amount, interest_rate, duration) {
                Some(e) => r == Err::<LoanRequest, ValidationError>(e) && final(self)@ == old(
                    self,
                )@,
                None => {
                    let l = LoanRequest { amount, interest_rate, duration };
                    &&& r == Ok::<LoanRequest, ValidationError>(l)
                    &&& final(self)@.ledger.requests == Some(
                        or_empty(old(self)@.ledger.requests).push(l),
                    )
                },
            },
    {
        self.ledger.record_request(amount, interest_rate, duration)
    }

    /// Adds an obligation that came from the acceptance of a loan.
    pub fn record_repayment(&mut self, p: Repayment)
        ensures
            final(self)@.snapshot == old(self)@.snapshot,
            final(self)@.ledger.requests == old(self)@.ledger.requests,
            final(self)@.ledger.repayments == Some(
                or_empty(old(self)@.ledger.repayments).push(p),
            ),
    {
        self.ledger.record_repayment(p)
    }

    /// The first repayment in stored order with something due, or a note
    /// that nothing is due.
    pub fn track_repayments(&mut self) -> (r: Result<String, AccessError>)
        ensures
            final(self)@ == old(self)@,
            text_of(r) == repayments_view(old(self)@),
    {
        match self.ledger.next_due_repayment()? {
            Some(p) => {
                let mut out = String::from_str("Payment due: ");
                push_decimal(&mut out, p.amount_due);
                out.append(" before ");
                push_decimal(&mut out, p.due_date as u128);
                proof {
                    assert(out@ =~= due_text(Some(p)));
                }
                Ok(out)
            },
            None => Ok(String::from_str("No repayments due.")),
        }
    }

    /// One line per loan request, in insertion order.
    pub fn view_loan_status(&self) -> (r: Result<String, AccessError>)
        ensures
            text_of(r) == loan_status_view(self@),
    {
        self.ledger.status_summary()
    }

    /// Balance, transaction count, request count and repayment count; no
    /// partial summary when any part cannot be read.
    pub fn view_financial_status(&self) -> (r: Result<String, AccessError>)
        ensures
            text_of(r) == status_view(self@),
    {
        let d = self.user_data.snapshot()?;
        let l = self.ledger.requests()?;
        let p = self.ledger.repayments()?;
        let mut out = String::from_str("Bank Balance: ");
        push_decimal(&mut out, d.bank_balance);
        out.append("\nCredit Transactions: ");
        push_decimal(&mut out, d.credit_history.len() as u128);
        out.append("\nOutstanding Loans: ");
        push_decimal(&mut out, l.len() as u128);
        out.append("\nRepayments Due: ");
        push_decimal(&mut out, p.len() as u128);
        proof {
            assert(out@ =~= status_view(self@)->Ok_0);
        }
        Ok(out)
    }
}

/// After a snapshot with balance `B` is taken in, the balance view is the
/// fixed prefix followed by `B` in decimal, and no other balance gives that text.
pub proof fn lemma_balance_after_ingest(a: AccountView, d: FinancialData, other: u128)
    ensures
        balance_view(ingested(a, d)) == Ok::<Seq<char>, AccessError>(
            "Current Bank Balance: "@ + decimal(d.bank_balance as nat),
        ),
        balance_view(ingested(a, d)) == Ok::<Seq<char>, AccessError>(
            "Current Bank Balance: "@ + decimal(other as nat),
        ) ==> other == d.bank_balance,
{
    let prefix = "Current Bank Balance: "@;
    if prefix + decimal(d.bank_balance as nat) == prefix + decimal(other as nat) {
        assert(decimal(d.bank_balance as nat) =~= (prefix + decimal(d.bank_balance as nat)).skip(
            prefix.len() as int,
        ));
        assert(decimal(other as nat) =~= (prefix + decimal(other as nat)).skip(
            prefix.len() as int,
        ));
        lemma_decimal_injective(d.bank_balance as nat, other as nat);
    }
}

/// After a history is taken in, the summary has one line per transaction in
/// the order they were stored, each with date, amount and description
/// verbatim, and the lines of every leading part of the history come first.
pub proof fn lemma_summary_after_ingest(a: AccountView, d: FinancialData)
    ensures
        ({
            let h = d.credit_history@;
            let lines = h.map_values(|t: Transaction| transaction_line(t));
            &&& summary_view(ingested(a, d)) == Ok::<Seq<char>, AccessError>(joined(lines))
            &&& lines.len() == h.len()
            &&& forall|i: int|
                0 <= i < h.len() ==> #[trigger] lines[i] == "Date: "@ + decimal(h[i].date as nat)
                    + ", Amount: "@ + decimal(h[i].amount as nat) + ", Description: "@
                    + h[i].description@
            &&& forall|k: int|
                0 <= k <= h.len() ==> #[trigger] joined(lines).take(
                    joined(lines.take(k)).len() as int,
                ) == joined(lines.take(k))
        }),
{
    let h = d.credit_history@;
    let lines = h.map_values(|t: Transaction| transaction_line(t));
    assert forall|k: int| 0 <= k <= h.len() implies #[trigger] joined(lines).take(
        joined(lines.take(k)).len() as int,
    ) == joined(lines.take(k)) by {
        lemma_joined_prefix(lines, k);
    }
}

/// With a snapshot stored, the verdict is the affordable one exactly when the
/// balance covers the amount, equality included.
pub proof fn lemma_verdict(a: AccountView, amount: u128)
    requires
        a.snapshot is Some,
    ensures
        verdict_view(a, amount) is Ok,
        verdict_view(a, amount) == Ok::<Seq<char>, AccessError>(affordable_text()) <==> a.snapshot->Some_0.bank_balance
            >= amount,
{
    reveal_strlit("You can afford this purchase!");
    reveal_strlit("Insufficient funds. Consider applying for a loan.");
    assert(affordable_text().len() != insufficient_text().len());
}

} // verus!
