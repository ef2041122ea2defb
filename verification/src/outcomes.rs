//! Translation of SDK outcomes into the engine-facing returns.
//!
//! Every operation absorbs its failures: an absent session or a failed SDK
//! call never raises a fault across the engine boundary but collapses to the
//! operation's sentinel (false, 0, an empty string, an empty list, or a
//! failure record).  The functions here take the outcome as a plain value —
//! `None` or `Err` standing for "no call was made or the call failed" — so
//! the collapse is verified for every outcome the SDK could produce.
//!
//! Unsigned SDK amounts are narrowed to the engine's signed 64-bit
//! convention by keeping the low 64 bits, as a plain narrowing conversion
//! would.

use vstd::prelude::*;

verus! {

/// The engine-side reading of an unsigned 64-bit SDK value: the same bits,
/// reinterpreted as a signed 64-bit value.
pub open spec fn wrap_i64(v: u64) -> i64 {
    if v <= i64::MAX as u64 {
        v as i64
    } else {
        (v as int - 0x1_0000_0000_0000_0000) as i64
    }
}

/// Narrows an unsigned SDK value to the engine's signed 64-bit convention.
pub fn narrow_u64_to_i64(v: u64) -> (r: i64)
    ensures
        r == wrap_i64(v),
{
    if v <= 0x7FFF_FFFF_FFFF_FFFFu64 {
        v as i64
    } else {
        let d: u64 = v - 0x8000_0000_0000_0000u64;
        (d as i64) + i64::MIN
    }
}

/// Collapses the balance query: the wallet's balance when the call went
/// through, 0 when no session was live or the call failed.
pub fn get_balance_result(outcome: Option<u64>) -> (r: i64)
    ensures
        outcome is None ==> r == 0,
        outcome matches Some(b) ==> r == wrap_i64(b),
{
    match outcome {
        Some(b) => narrow_u64_to_i64(b),
        None => 0,
    }
}

/// Collapses the queries that answer with a payment-request string (on-chain
/// address, invoice, alternate-rail address): the string when the call went
/// through, the empty string when no session was live or the call failed.
pub fn payment_request_result(outcome: Option<String>) -> (r: String)
    ensures
        outcome is None ==> r@.len() == 0,
        outcome matches Some(s) ==> r == s,
{
    match outcome {
        Some(s) => s,
        None => String::new(),
    }
}

/// Collapses the manual sync: true exactly when the call was made and went
/// through.
pub fn sync_wallet_result(outcome: Option<()>) -> (r: bool)
    ensures
        r == (outcome is Some),
{
    outcome.is_some()
}

/// The engine-facing answer to paying an invoice: either the payment's id
/// and amount, or the diagnostic text of whichever phase failed.
#[derive(Clone, Debug, PartialEq, Eq)]
pub enum PayInvoiceResult {
    Sent { payment_id: String, amount_sats: i64 },
    Failed { error: String },
}

impl PayInvoiceResult {
    /// The success flag the engine reads off the record.
    pub fn success(&self) -> (r: bool)
        ensures
            r == (self is Sent),
    {
        match self {
            PayInvoiceResult::Sent { .. } => true,
            PayInvoiceResult::Failed { .. } => false,
        }
    }
}

/// Builds the engine-facing payment record.  A sent payment carries its id
/// and its amount narrowed to the engine's signed convention; a failure (no
/// session, failed prepare, failed send) carries the diagnostic text.
pub fn pay_invoice_result(outcome: Result<(String, u64), String>) -> (r: PayInvoiceResult)
    ensures
        outcome matches Ok(p) ==> r == (PayInvoiceResult::Sent {
            payment_id: p.0,
            amount_sats: wrap_i64(p.1),
        }),
        outcome matches Err(e) ==> r == (PayInvoiceResult::Failed { error: e }),
{
    match outcome {
        Ok((payment_id, amount)) => PayInvoiceResult::Sent {
            payment_id,
            amount_sats: narrow_u64_to_i64(amount),
        },
        Err(error) => PayInvoiceResult::Failed { error },
    }
}

/// The engine-facing answer to claiming a deposit: either the resulting
/// payment's id, or the diagnostic text.
#[derive(Clone, Debug, PartialEq, Eq)]
pub enum ClaimDepositResult {
    Claimed { payment_id: String },
    Failed { error: String },
}

impl ClaimDepositResult {
    /// The success flag the engine reads off the record.
    pub fn success(&self) -> (r: bool)
        ensures
            r == (self is Claimed),
    {
        match self {
            ClaimDepositResult::Claimed { .. } => true,
            ClaimDepositResult::Failed { .. } => false,
        }
    }
}

/// Builds the engine-facing claim record from the claim call's outcome.
pub fn claim_deposit_result(outcome: Result<String, String>) -> (r: ClaimDepositResult)
    ensures
        outcome matches Ok(id) ==> r == (ClaimDepositResult::Claimed { payment_id: id }),
        outcome matches Err(e) ==> r == (ClaimDepositResult::Failed { error: e }),
{
    match outcome {
        Ok(payment_id) => ClaimDepositResult::Claimed { payment_id },
        Err(error) => ClaimDepositResult::Failed { error },
    }
}

/// One payment as the SDK reports it, already reduced to plain values (the
/// status, type and method fields as their display text).
#[derive(Clone, Debug, PartialEq, Eq)]
pub struct PaymentInfo {
    pub id: String,
    pub amount: u64,
    pub fees: u64,
    pub timestamp: u64,
    pub status: String,
    pub payment_type: String,
    pub method: String,
}

/// One payment as the engine reads it.
#[derive(Clone, Debug, PartialEq, Eq)]
pub struct PaymentRecord {
    pub id: String,
    pub amount: i64,
    pub fees: i64,
    pub timestamp: i64,
    pub status: String,
    pub payment_type: String,
    pub method: String,
}

/// The engine-facing record of one payment: every numeric field narrowed to
/// the engine's signed convention, everything else carried through.
pub open spec fn record_of(p: PaymentInfo) -> PaymentRecord {
    PaymentRecord {
        id: p.id,
        amount: wrap_i64(p.amount),
        fees: wrap_i64(p.fees),
        timestamp: wrap_i64(p.timestamp),
        status: p.status,
        payment_type: p.payment_type,
        method: p.method,
    }
}

/// Translates one reported payment into its engine-facing record.
pub fn payment_record(p: &PaymentInfo) -> (r: PaymentRecord)
    ensures
        r == record_of(*p),
{
    PaymentRecord {
        id: p.id.clone(),
        amount: narrow_u64_to_i64(p.amount),
        fees: narrow_u64_to_i64(p.fees),
        timestamp: narrow_u64_to_i64(p.timestamp),
        status: p.status.clone(),
        payment_type: p.payment_type.clone(),
        method: p.method.clone(),
    }
}

/// Collapses the payment history: every reported payment translated in
/// order when the call went through, an empty list when no session was live
/// or the call failed.  The empty list is indistinguishable from an empty
/// history by design.
pub fn list_payments_result(outcome: Option<Vec<PaymentInfo>>) -> (r: Vec<PaymentRecord>)
    ensures
        outcome is None ==> r@.len() == 0,
        outcome matches Some(ps) ==> r@.len() == ps@.len() && (forall|j: int|
            0 <= j < ps@.len() ==> r@[j] == record_of(ps@[j])),
{
    match outcome {
        None => Vec::new(),
        Some(ps) => {
            let mut out: Vec<PaymentRecord> = Vec::new();
            let mut i: usize = 0;
            while i < ps.len()
                invariant
                    i <= ps@.len(),
                    out@.len() == i,
                    forall|j: int| 0 <= j < i ==> out@[j] == record_of(ps@[j]),
                decreases ps@.len() - i,
            {
                out.push(payment_record(&ps[i]));
                i = i + 1;
            }
            out
        },
    }
}

/// One unclaimed on-chain deposit as the SDK reports it.
#[derive(Clone, Debug, PartialEq, Eq)]
pub struct DepositInfo {
    pub txid: String,
    pub vout: u32,
    pub amount_sats: u64,
}

/// One unclaimed deposit as the engine reads it.
#[derive(Clone, Debug, PartialEq, Eq)]
pub struct DepositRecord {
    pub txid: String,
    pub vout: u32,
    pub amount_sats: i64,
}

/// The engine-facing record of one deposit: the amount narrowed to the
/// engine's signed convention, the outpoint carried through.
pub open spec fn deposit_record_of(d: DepositInfo) -> DepositRecord {
    DepositRecord { txid: d.txid, vout: d.vout, amount_sats: wrap_i64(d.amount_sats) }
}

/// Translates one reported deposit into its engine-facing record.
pub fn deposit_record(d: &DepositInfo) -> (r: DepositRecord)
    ensures
        r == deposit_record_of(*d),
{
    DepositRecord {
        txid: d.txid.clone(),
        vout: d.vout,
        amount_sats: narrow_u64_to_i64(d.amount_sats),
    }
}

/// Collapses the deposit listing: every reported deposit translated in
/// order when the call went through, an empty list when no session was live
/// or the call failed.
pub fn list_unclaimed_deposits_result(outcome: Option<Vec<DepositInfo>>) -> (r: Vec<DepositRecord>)
    ensures
        outcome is None ==> r@.len() == 0,
        outcome matches Some(ds) ==> r@.len() == ds@.len() && (forall|j: int|
            0 <= j < ds@.len() ==> r@[j] == deposit_record_of(ds@[j])),
{
    match outcome {
        None => Vec::new(),
        Some(ds) => {
            let mut out: Vec<DepositRecord> = Vec::new();
            let mut i: usize = 0;
            while i < ds.len()
                invariant
                    i <= ds@.len(),
                    out@.len() == i,
                    forall|j: int| 0 <= j < i ==> out@[j] == deposit_record_of(ds@[j]),
                decreases ds@.len() - i,
            {
                out.push(deposit_record(&ds[i]));
                i = i + 1;
            }
            out
        },
    }
}

} // verus!
