//! The data model: the simulation request and response, the three
//! transaction-envelope shapes with their operations, and the fatal-error
//! taxonomy of the decode stages.

use vstd::prelude::*;
use vstd::string::StrSliceExecFns;
use vstd::string::StringExecFns;

verus! {

/// One operation of a transaction, reduced to what the dispatcher reads: the
/// contract invocation it performs, if any. `contract_address` carries the
/// target address rendered as text.
pub enum Operation {
    InvokeContract { contract_address: String },
    OtherHostFunction,
    Other,
}

/// A transaction: an ordered sequence of operations.
pub struct Transaction {
    pub operations: Vec<Operation>,
}

/// The inner transaction of a fee-bump envelope: the format constrains it to
/// the current-version shape, so by construction it cannot be a fee bump.
pub enum FeeBumpInnerTx {
    Tx(Transaction),
}

/// A transaction envelope: exactly three shapes.
pub enum TransactionEnvelope {
    Tx(Transaction),
    TxV0(Transaction),
    TxFeeBump(FeeBumpInnerTx),
}

/// Which of the three shapes an envelope has.
pub enum EnvelopeKind {
    Tx,
    TxV0,
    TxFeeBump,
}

pub open spec fn envelope_kind(env: TransactionEnvelope) -> EnvelopeKind {
    match env {
        TransactionEnvelope::Tx(_) => EnvelopeKind::Tx,
        TransactionEnvelope::TxV0(_) => EnvelopeKind::TxV0,
        TransactionEnvelope::TxFeeBump(_) => EnvelopeKind::TxFeeBump,
    }
}

pub open spec fn envelope_operations(env: TransactionEnvelope) -> Seq<Operation> {
    match env {
        TransactionEnvelope::Tx(tx) => tx.operations@,
        TransactionEnvelope::TxV0(tx) => tx.operations@,
        TransactionEnvelope::TxFeeBump(FeeBumpInnerTx::Tx(tx)) => tx.operations@,
    }
}

/// A parsed simulation request. `envelope_xdr` is base64 text encoding a
/// binary transaction envelope; `result_meta_xdr` is retained unparsed;
/// `ledger_entries` optionally maps base64 storage-key bytes to base64
/// storage-entry bytes (keys unique, order irrelevant).
pub struct SimulationRequest {
    pub envelope_xdr: String,
    pub result_meta_xdr: String,
    pub ledger_entries: Option<Vec<(String, String)>>,
}

/// The final report of one simulation run.
pub struct SimulationResponse {
    pub status: String,
    pub error: Option<String>,
    pub events: Vec<String>,
    pub logs: Vec<String>,
}

impl SimulationResponse {
    /// The response invariant: `status` is exactly "success" or "error",
    /// `error` is present if and only if the status is "error", and events
    /// and logs are only populated on the success path.
    pub open spec fn wf(self) -> bool {
        &&& self.status@ == "success"@ || self.status@ == "error"@
        &&& (self.status@ == "error"@ <==> self.error is Some)
        &&& (self.error is Some ==> self.events@.len() == 0 && self.logs@.len() == 0)
    }
}

/// The field a decode failure names.
pub enum XdrField {
    Envelope,
    LedgerKey,
    LedgerEntry,
}

/// A fatal pipeline error: a malformed request document, a base64 decode
/// failure on a named field, or a binary-format decode failure on a named
/// field. Each carries the underlying decoder's own message.
pub enum SimError {
    InvalidRequest(String),
    InvalidEncoding(XdrField, String),
    InvalidFormat(XdrField, String),
}

/// The fixed prefix of the message each error renders to.
pub open spec fn error_prefix(e: SimError) -> Seq<char> {
    match e {
        SimError::InvalidRequest(_) => "Invalid JSON: "@,
        SimError::InvalidEncoding(XdrField::Envelope, _) => "Failed to decode Envelope Base64: "@,
        SimError::InvalidEncoding(
            XdrField::LedgerKey,
            _,
        ) => "Failed to decode LedgerKey Base64: "@,
        SimError::InvalidEncoding(
            XdrField::LedgerEntry,
            _,
        ) => "Failed to decode LedgerEntry Base64: "@,
        SimError::InvalidFormat(XdrField::Envelope, _) => "Failed to parse Envelope XDR: "@,
        SimError::InvalidFormat(XdrField::LedgerKey, _) => "Failed to parse LedgerKey XDR: "@,
        SimError::InvalidFormat(XdrField::LedgerEntry, _) => "Failed to parse LedgerEntry XDR: "@,
    }
}

/// The underlying decoder message an error carries.
pub open spec fn error_detail(e: SimError) -> Seq<char> {
    match e {
        SimError::InvalidRequest(d) => d@,
        SimError::InvalidEncoding(_, d) => d@,
        SimError::InvalidFormat(_, d) => d@,
    }
}

/// The full message an error renders to: its fixed prefix, then the
/// underlying decoder's message.
pub open spec fn error_message(e: SimError) -> Seq<char> {
    error_prefix(e) + error_detail(e)
}

impl SimError {
    /// Renders the error as the message the response carries.
    pub fn message(&self) -> (r: String)
        ensures
            r@ == error_message(*self),
    {
        match self {
            SimError::InvalidRequest(d) => String::from_str("Invalid JSON: ").concat(d.as_str()),
            SimError::InvalidEncoding(XdrField::Envelope, d) => String::from_str(
                "Failed to decode Envelope Base64: ",
            ).concat(d.as_str()),
            SimError::InvalidEncoding(XdrField::LedgerKey, d) => String::from_str(
                "Failed to decode LedgerKey Base64: ",
            ).concat(d.as_str()),
            SimError::InvalidEncoding(XdrField::LedgerEntry, d) => String::from_str(
                "Failed to decode LedgerEntry Base64: ",
            ).concat(d.as_str()),
            SimError::InvalidFormat(XdrField::Envelope, d) => String::from_str(
                "Failed to parse Envelope XDR: ",
            ).concat(d.as_str()),
            SimError::InvalidFormat(XdrField::LedgerKey, d) => String::from_str(
                "Failed to parse LedgerKey XDR: ",
            ).concat(d.as_str()),
            SimError::InvalidFormat(XdrField::LedgerEntry, d) => String::from_str(
                "Failed to parse LedgerEntry XDR: ",
            ).concat(d.as_str()),
        }
    }
}

} // verus!
