//! The loan ledger: loan requests and repayment obligations, each list kept
//! behind the confidentiality boundary. The two lists grow independently.
use vstd::prelude::*;
use crate::confidential::{AccessError, Confidential};
use crate::text::{decimal, joined, lemma_joined_push, push_decimal, push_ratio, ratio, RATIO_SCALE};

verus! {

/// A loan asked for by the account holder; never changed once recorded.
#[derive(Clone, Copy, Debug, PartialEq, Eq, Structural)]
pub struct LoanRequest {
    /// In minor units of the currency.
    pub amount: u128,
    /// A ratio in millionths: `50000` is 5%, `1000000` is 100%.
    pub interest_rate: u32,
    /// In days.
    pub duration: u32,
}

/// An obligation that arises from an accepted loan; settled when nothing is due.
#[derive(Clone, Copy, Debug, PartialEq, Eq, Structural)]
pub struct Repayment {
    /// In minor units of the currency.
    pub amount_due: u128,
    /// Seconds since the Unix epoch.
    pub due_date: u64,
}

/// Why loan parameters were refused.
#[derive(Clone, Copy, Debug, PartialEq, Eq, Structural)]
pub enum ValidationError {
    NonPositiveAmount,
    InvalidRate,
    NonPositiveDuration,
}

/// Why an external system could not be reached.
#[derive(Clone, Copy, Debug, PartialEq, Eq, Structural)]
pub enum TransportError {
    Network,
    Timeout,
}

/// What the lending venue answered to a submitted request.
#[derive(Clone, Copy, Debug, PartialEq, Eq, Structural)]
pub enum SubmissionOutcome {
    Accepted,
    Rejected,
}

/// The error, if any, that `record_request` gives for these parameters.
pub open spec fn validation_error(amount: u128, interest_rate: u32, duration: u32) -> Option<
    ValidationError,
> {
    if amount == 0 {
        Some(ValidationError::NonPositiveAmount)
    } else if interest_rate > RATIO_SCALE {
        Some(ValidationError::InvalidRate)
    } else if duration == 0 {
        Some(ValidationError::NonPositiveDuration)
    } else {
        None
    }
}

/// The lending venue's status code means acceptance only when it is 200.
pub open spec fn outcome_of(status: u16) -> SubmissionOutcome {
    if status == 200 {
        SubmissionOutcome::Accepted
    } else {
        SubmissionOutcome::Rejected
    }
}

/// `i` is the first position in `s` with something still due.
pub open spec fn is_first_due(s: Seq<Repayment>, i: int) -> bool {
    &&& 0 <= i < s.len()
    &&& s[i].amount_due > 0
    &&& forall|j: int| 0 <= j < i ==> s[j].amount_due == 0
}

/// The first repayment in stored order with something due, if any.
pub open spec fn first_due(s: Seq<Repayment>) -> Option<Repayment> {
    if exists|i: int| is_first_due(s, i) {
        Some(s[choose|i: int| is_first_due(s, i)])
    } else {
        None
    }
}

/// The text of one loan request in a status summary.
pub open spec fn loan_line(l: LoanRequest) -> Seq<char> {
    "Loan Amount: "@ + decimal(l.amount as nat) + ", Interest Rate: "@ + ratio(
        l.interest_rate as nat,
    ) + ", Duration: "@ + decimal(l.duration as nat) + " days"@
}

/// The status summary of the requests: one line each, in insertion order.
pub open spec fn loans_text(s: Seq<LoanRequest>) -> Seq<char> {
    joined(s.map_values(|l: LoanRequest| loan_line(l)))
}

/// The body that submits a request to the lending venue.
pub open spec fn submission_body_text(l: LoanRequest) -> Seq<char> {
    "{\"amount\": "@ + decimal(l.amount as nat) + ", \"interest_rate\": "@ + ratio(
        l.interest_rate as nat,
    ) + ", \"duration\": "@ + decimal(l.duration as nat) + "}"@
}

/// The text that tells the account holder how a submission went.
pub open spec fn outcome_text(o: SubmissionOutcome) -> Seq<char> {
    match o {
        SubmissionOutcome::Accepted => "Loan requested successfully!"@,
        SubmissionOutcome::Rejected => "Loan request failed."@,
    }
}

impl SubmissionOutcome {
    /// The outcome that a status code of the lending venue stands for.
    pub fn from_status(status: u16) -> (r: Self)
        ensures
            r == outcome_of(status),
    {
        if status == 200 {
            SubmissionOutcome::Accepted
        } else {
            SubmissionOutcome::Rejected
        }
    }

    /// The message for the account holder.
    pub fn message(&self) -> (r: String)
        ensures
            r@ == outcome_text(*self),
    {
        match self {
            SubmissionOutcome::Accepted => String::from_str("Loan requested successfully!"),
            SubmissionOutcome::Rejected => String::from_str("Loan request failed."),
        }
    }
}

/// The outcome of a submission from the venue's answer: a status code, or
/// the transport failure, which is handed back as it came.
pub fn submission_outcome(response: Result<u16, TransportError>) -> (r: Result<
    SubmissionOutcome,
    TransportError,
>)
    ensures
        match response {
            Ok(status) => r == Ok::<SubmissionOutcome, TransportError>(outcome_of(status)),
            Err(e) => r == Err::<SubmissionOutcome, TransportError>(e),
        },
{
    match response {
        Ok(status) => Ok(SubmissionOutcome::from_status(status)),
        Err(e) => Err(e),
    }
}

impl LoanRequest {
    /// The body that submits this request to the lending venue.
    pub fn submission_body(&self) -> (r: String)
        ensures
            r@ == submission_body_text(*self),
    {
        let mut out = String::new();
        out.append("{\"amount\": ");
        push_decimal(&mut out, self.amount);
        out.append(", \"interest_rate\": ");
        push_ratio(&mut out, self.interest_rate);
        out.append(", \"duration\": ");
        push_decimal(&mut out, self.duration as u128);
        out.append("}");
        proof {
            assert(out@ =~= submission_body_text(*self));
        }
        out
    }
}

/// Appends the status line of `l` to `out`.
pub fn push_loan_line(out: &mut String, l: &LoanRequest)
    ensures
        final(out)@ == old(out)@ + loan_line(*l),
{
    out.append("Loan Amount: ");
    push_decimal(out, l.amount);
    out.append(", Interest Rate: ");
    push_ratio(out, l.interest_rate);
    out.append(", Duration: ");
    push_decimal(out, l.duration as u128);
    out.append(" days");
    proof {
        assert(out@ =~= old(out)@ + loan_line(*l));
    }
}

/// Renders the requests, one line each, in insertion order.
pub fn render_loans(v: &Vec<LoanRequest>) -> (r: String)
    ensures
        r@ == loans_text(v@),
{
    let mut out = String::new();
    let mut i: usize = 0;
    while i < v.len()
        invariant
            i <= v.len(),
            out@ == joined(v@.subrange(0, i as int).map_values(|l: LoanRequest| loan_line(l))),
        decreases v.len() - i,
    {
        let ghost before = v@.subrange(0, i as int).map_values(|l: LoanRequest| loan_line(l));
        if i > 0 {
            out.append("\n");
        }
        push_loan_line(&mut out, &v[i]);
        proof {
            lemma_joined_push(before, loan_line(v@[i as int]));
            assert(v@.subrange(0, i + 1).map_values(|l: LoanRequest| loan_line(l)) =~= before.push(
                loan_line(v@[i as int]),
            ));
        }
        i += 1;
    }
    proof {
        assert(v@.subrange(0, v@.len() as int) =~= v@);
    }
    out
}

/// The first repayment of `v` in stored order with something due.
pub fn first_due_repayment(v: &Vec<Repayment>) -> (r: Option<Repayment>)
    ensures
        r == first_due(v@),
{
    let mut i: usize = 0;
    while i < v.len()
        invariant
            i <= v.len(),
            forall|j: int| 0 <= j < i ==> v@[j].amount_due == 0,
        decreases v.len() - i,
    {
        if v[i].amount_due > 0 {
            proof {
                assert(is_first_due(v@, i as int));
                let k = choose|k: int| is_first_due(v@, k);
                assert(k == i) by {
                    if k < i {
                        assert(v@[k].amount_due == 0);
                    } else if k > i {
                        assert(v@[i as int].amount_due == 0);
                    }
                }
            }
            return Some(v[i]);
        }
        i += 1;
    }
    proof {
        assert forall|k: int| !is_first_due(v@, k) by {
            if 0 <= k < v@.len() {
                assert(v@[k].amount_due == 0);
            }
        }
    }
    None
}

/// What a ledger holds: each list, if it was ever stored.
pub struct LedgerView {
    pub requests: Option<Seq<LoanRequest>>,
    pub repayments: Option<Seq<Repayment>>,
}

/// The contents of a confidential list, if it holds one.
pub open spec fn list_view<T>(o: Option<Vec<T>>) -> Option<Seq<T>> {
    match o {
        Some(v) => Some(v@),
        None => None,
    }
}

/// Loan requests and repayment obligations of one account.
pub struct LoanLedger {
    requests: Confidential<Vec<LoanRequest>>,
    repayments: Confidential<Vec<Repayment>>,
}

impl View for LoanLedger {
    type V = LedgerView;

    closed spec fn view(&self) -> LedgerView {
        LedgerView { requests: list_view(self.requests@), repayments: list_view(self.repayments@) }
    }
}

/// What a list holds, or nothing when it was never stored.
pub open spec fn or_empty<T>(o: Option<Seq<T>>) -> Seq<T> {
    match o {
        Some(s) => s,
        None => Seq::empty(),
    }
}

impl LoanLedger {
    /// A ledger with both lists stored and empty.
    pub fn new() -> (r: Self)
        ensures
            r@.requests == Some(Seq::<LoanRequest>::empty()),
            r@.repayments == Some(Seq::<Repayment>::empty()),
    {
        let r = LoanLedger {
            requests: Confidential::sealed(Vec::new()),
            repayments: Confidential::sealed(Vec::new()),
        };
        proof {
            assert(r@.requests->Some_0 =~= Seq::<LoanRequest>::empty());
            assert(r@.repayments->Some_0 =~= Seq::<Repayment>::empty());
        }
        r
    }

    /// Validates the parameters and, when they are valid, appends exactly one
    /// request and returns it; otherwise the ledger is left as it was.
    pub fn record_request(&mut self, amount: u128, interest_rate: u32, duration: u32) -> (r: Result<
        LoanRequest,
        ValidationError,
    >)
        ensures
            final(self)@.repayments == old(self)@.repayments,
            match validation_error(amount, interest_rate, duration) {
                Some(e) => r == Err::<LoanRequest, ValidationError>(e) && final(self)@ == old(
                    self,
                )@,
                None => {
                    let l = LoanRequest { amount, interest_rate, duration };
                    &&& r == Ok::<LoanRequest, ValidationError>(l)
                    &&& final(self)@.requests == Some(or_empty(old(self)@.requests).push(l))
                },
            },
    {
        if amount == 0 {
            return Err(ValidationError::NonPositiveAmount);
        }
        if interest_rate > RATIO_SCALE {
            return Err(ValidationError::InvalidRate);
        }
        if duration == 0 {
            return Err(ValidationError::NonPositiveDuration);
        }
        let l = LoanRequest { amount, interest_rate, duration };
        let mut list = match self.requests.take() {
            Ok(v) => v,
            Err(_) => Vec::new(),
        };
        list.push(l);
        self.requests.set(list);
        proof {
            assert(final(self)@.requests->Some_0 =~= or_empty(old(self)@.requests).push(l));
        }
        Ok(l)
    }

    /// Appends an obligation that came from the acceptance of a loan.
    pub fn record_repayment(&mut self, p: Repayment)
        ensures
            final(self)@.requests == old(self)@.requests,
            final(self)@.repayments == Some(or_empty(old(self)@.repayments).push(p)),
    {
        let mut list = match self.repayments.take() {
            Ok(v) => v,
            Err(_) => Vec::new(),
        };
        list.push(p);
        self.repayments.set(list);
        proof {
            assert(final(self)@.repayments->Some_0 =~= or_empty(old(self)@.repayments).push(p));
        }
    }

    /// The stored requests.
    pub fn requests(&self) -> (r: Result<&Vec<LoanRequest>, AccessError>)
        ensures
            match self@.requests {
                Some(s) => r is Ok && r->Ok_0@ == s,
                None => r == Err::<&Vec<LoanRequest>, AccessError>(AccessError::NotInitialized),
            },
    {
        self.requests.get()
    }

    /// The stored repayments.
    pub fn repayments(&self) -> (r: Result<&Vec<Repayment>, AccessError>)
        ensures
            match self@.repayments {
                Some(s) => r is Ok && r->Ok_0@ == s,
                None => r == Err::<&Vec<Repayment>, AccessError>(AccessError::NotInitialized),
            },
    {
        self.repayments.get()
    }

    /// The first stored repayment with something due; none when all are
    /// settled or there are none. Not the one due soonest.
    pub fn next_due_repayment(&self) -> (r: Result<Option<Repayment>, AccessError>)
        ensures
            match self@.repayments {
                Some(s) => r == Ok::<Option<Repayment>, AccessError>(first_due(s)),
                None => r == Err::<Option<Repayment>, AccessError>(AccessError::NotInitialized),
            },
    {
        let v = self.repayments()?;
        Ok(first_due_repayment(v))
    }

    /// All requests rendered in insertion order, one line each.
    pub fn status_summary(&self) -> (r: Result<String, AccessError>)
        ensures
            match self@.requests {
                Some(s) => r is Ok && r->Ok_0@ == loans_text(s),
                None => r == Err::<String, AccessError>(AccessError::NotInitialized),
            },
    {
        let v = self.requests()?;
        Ok(render_loans(v))
    }
}

/// Loan parameters are refused exactly when the amount is zero, the rate
/// lies above one whole, or the duration is zero.
pub proof fn lemma_validation(amount: u128, interest_rate: u32, duration: u32)
    ensures
        validation_error(amount, interest_rate, duration) is None <==> (amount > 0
            && interest_rate <= RATIO_SCALE && duration > 0),
{
}

/// Where anything is due, some position is the first with something due.
proof fn lemma_first_due_exists(s: Seq<Repayment>, i: int)
    requires
        0 <= i < s.len(),
        s[i].amount_due > 0,
    ensures
        exists|k: int| is_first_due(s, k),
    decreases i,
{
    if forall|j: int| 0 <= j < i ==> s[j].amount_due == 0 {
        assert(is_first_due(s, i));
    } else {
        let j = choose|j: int| 0 <= j < i && s[j].amount_due != 0;
        lemma_first_due_exists(s, j);
    }
}

/// The first-due repayment is the one at the single first position with
/// something due, whatever the due dates; there is none exactly when
/// everything stored is settled.
pub proof fn lemma_first_due(s: Seq<Repayment>)
    ensures
        forall|i: int, j: int| is_first_due(s, i) && is_first_due(s, j) ==> i == j,
        match first_due(s) {
            Some(p) => exists|i: int| is_first_due(s, i) && s[i] == p,
            None => forall|i: int| 0 <= i < s.len() ==> s[i].amount_due == 0,
        },
{
    assert forall|i: int, j: int| is_first_due(s, i) && is_first_due(s, j) implies i == j by {
        if i < j {
            assert(s[i].amount_due == 0);
        } else if j < i {
            assert(s[j].amount_due == 0);
        }
    }
    if first_due(s) is None {
        assert forall|i: int| 0 <= i < s.len() implies s[i].amount_due == 0 by {
            if s[i].amount_due > 0 {
                lemma_first_due_exists(s, i);
            }
        }
    }
}

} // verus!
