//! The financial record store: the account's latest snapshot, kept behind
//! the confidentiality boundary and replaced whole on each ingestion.
use vstd::prelude::*;
use crate::confidential::{AccessError, Confidential};
use crate::text::{decimal, joined, lemma_joined_push, push_decimal};

verus! {

/// One card transaction, as the data provider reports it.
#[derive(Clone, Debug)]
pub struct Transaction {
    /// In minor units of the currency.
    pub amount: u128,
    /// Seconds since the Unix epoch.
    pub date: u64,
    pub description: String,
}

/// Balance and transaction history of the account at one fetch.
#[derive(Clone, Debug)]
pub struct FinancialData {
    /// In order of insertion, which is the provider's chronological order.
    pub credit_history: Vec<Transaction>,
    /// In minor units of the currency.
    pub bank_balance: u128,
}

/// Why a fetched snapshot could not be taken in.
#[derive(Clone, Copy, Debug, PartialEq, Eq, Structural)]
pub enum IngestError {
    /// The provider's response does not describe a snapshot.
    MalformedPayload,
    /// The call to the provider itself failed.
    TransportFailure,
}

/// The text of one transaction in a summary; every field verbatim.
pub open spec fn transaction_line(t: Transaction) -> Seq<char> {
    "Date: "@ + decimal(t.date as nat) + ", Amount: "@ + decimal(t.amount as nat)
        + ", Description: "@ + t.description@
}

/// The summary of a history: one line per transaction, in stored order.
pub open spec fn transactions_text(h: Seq<Transaction>) -> Seq<char> {
    joined(h.map_values(|t: Transaction| transaction_line(t)))
}

/// Appends the line of `t` to `out`.
pub fn push_transaction_line(out: &mut String, t: &Transaction)
    ensures
        final(out)@ == old(out)@ + transaction_line(*t),
{
    out.append("Date: ");
    push_decimal(out, t.date as u128);
    out.append(", Amount: ");
    push_decimal(out, t.amount);
    out.append(", Description: ");
    out.append(t.description.as_str());
    proof {
        assert(out@ =~= old(out)@ + transaction_line(*t));
    }
}

/// Renders a whole history, one line per transaction.
pub fn render_transactions(h: &Vec<Transaction>) -> (r: String)
    ensures
        r@ == transactions_text(h@),
{
    let mut out = String::new();
    let mut i: usize = 0;
    while i < h.len()
        invariant
            i <= h.len(),
            out@ == joined(h@.subrange(0, i as int).map_values(|t: Transaction| transaction_line(t))),
        decreases h.len() - i,
    {
        let ghost before = h@.subrange(0, i as int).map_values(|t: Transaction| transaction_line(t));
        if i > 0 {
            out.append("\n");
        }
        push_transaction_line(&mut out, &h[i]);
        proof {
            lemma_joined_push(before, transaction_line(h@[i as int]));
            assert(h@.subrange(0, i + 1).map_values(|t: Transaction| transaction_line(t))
                =~= before.push(transaction_line(h@[i as int])));
        }
        i += 1;
    }
    proof {
        assert(h@.subrange(0, h@.len() as int) =~= h@);
    }
    out
}

/// Holds the latest snapshot, if one was ever taken in.
pub struct FinancialRecordStore {
    snapshot: Confidential<FinancialData>,
}

impl View for FinancialRecordStore {
    type V = Option<FinancialData>;

    closed spec fn view(&self) -> Option<FinancialData> {
        self.snapshot@
    }
}

impl FinancialRecordStore {
    /// A store that has taken in nothing yet.
    pub fn new() -> (r: Self)
        ensures
            r@ == None::<FinancialData>,
    {
        FinancialRecordStore { snapshot: Confidential::empty() }
    }

    /// Takes in the outcome of a fetch: a snapshot replaces the stored one
    /// whole; a failure is handed back and leaves the store as it was.
    pub fn ingest(&mut self, fetched: Result<FinancialData, IngestError>) -> (r: Result<
        (),
        IngestError,
    >)
        ensures
            match fetched {
                Ok(d) => r is Ok && final(self)@ == Some(d),
                Err(e) => r == Err::<(), IngestError>(e) && final(self)@ == old(self)@,
            },
    {
        match fetched {
            Ok(d) => {
                self.snapshot.set(d);
                Ok(())
            },
            Err(e) => Err(e),
        }
    }

    /// The current snapshot.
    pub fn snapshot(&self) -> (r: Result<&FinancialData, AccessError>)
        ensures
            match self@ {
                Some(d) => r == Ok::<&FinancialData, AccessError>(&d),
                None => r == Err::<&FinancialData, AccessError>(AccessError::NotInitialized),
            },
    {
        self.snapshot.get()
    }

    /// The current balance.
    pub fn balance(&self) -> (r: Result<u128, AccessError>)
        ensures
            match self@ {
                Some(d) => r == Ok::<u128, AccessError>(d.bank_balance),
                None => r == Err::<u128, AccessError>(AccessError::NotInitialized),
            },
    {
        let d = self.snapshot.get()?;
        Ok(d.bank_balance)
    }

    /// Whether the balance covers `amount`; equality counts as covered.
    pub fn can_afford(&self, amount: u128) -> (r: Result<bool, AccessError>)
        ensures
            match self@ {
                Some(d) => r == Ok::<bool, AccessError>(d.bank_balance >= amount),
                None => r == Err::<bool, AccessError>(AccessError::NotInitialized),
            },
    {
        let b = self.balance()?;
        Ok(b >= amount)
    }

    /// The stored transactions rendered in stored order.
    pub fn transaction_summary(&self) -> (r: Result<String, AccessError>)
        ensures
            match self@ {
                Some(d) => r is Ok && r->Ok_0@ == transactions_text(d.credit_history@),
                None => r == Err::<String, AccessError>(AccessError::NotInitialized),
            },
    {
        let d = self.snapshot.get()?;
        Ok(render_transactions(&d.credit_history))
    }
}

} // verus!
