//! The decode stages: base64 text to bytes, bytes to a transaction envelope,
//! and validation of the optional ledger snapshot. The external codecs stand
//! behind trusted wrappers; everything around them is verified.

use vstd::prelude::*;
use vstd::string::StrSliceExecFns;
use base64::Engine;
use soroban_env_host::xdr::FeeBumpTransactionInnerTx as XdrInnerTx;
use soroban_env_host::xdr::HostFunction as XdrHostFn;
use soroban_env_host::xdr::LedgerEntry as XdrLedgerEntry;
use soroban_env_host::xdr::LedgerKey as XdrLedgerKey;
use soroban_env_host::xdr::Limits;
use soroban_env_host::xdr::OperationBody as XdrOpBody;
use soroban_env_host::xdr::ReadXdr;
use soroban_env_host::xdr::TransactionEnvelope as XdrEnvelope;
use crate::model::EnvelopeKind;
use crate::model::FeeBumpInnerTx;
use crate::model::Operation;
use crate::model::SimError;
use crate::model::Transaction;
use crate::model::TransactionEnvelope;
use crate::model::XdrField;
use crate::model::envelope_kind;
use crate::model::envelope_operations;

verus! {

/// What standard base64 decoding yields on a character sequence: the decoded
/// bytes, or nothing when the text is not valid base64. The result depends on
/// the characters alone.
pub uninterp spec fn base64_decode_of(s: Seq<char>) -> Option<Seq<u8>>;

/// Relies on the base64 crate's `STANDARD` engine: standard-alphabet decoding
/// that depends on the characters alone.
#[verifier::external_body]
pub(crate) fn base64_decode(s: &str) -> (r: Result<Vec<u8>, String>)
    ensures
        (r is Ok) == (base64_decode_of(s@) is Some),
        r matches Ok(b) ==> base64_decode_of(s@) == Some(b@),
{
    match base64::engine::general_purpose::STANDARD.decode(s) {
        Ok(b) => Ok(b),
        Err(e) => Err(format!("{}", e)),
    }
}

/// What decoding a transaction envelope from bytes yields: the envelope's
/// shape and its operations (each reduced to the invocation it performs), or
/// nothing when the bytes do not decode. The result depends on the bytes
/// alone.
pub uninterp spec fn envelope_xdr_of(b: Seq<u8>) -> Option<(EnvelopeKind, Seq<Operation>)>;

/// Relies on `soroban_env_host::xdr::TransactionEnvelope::from_xdr` with no
/// size limits: which of the three envelope shapes the bytes decode to.
/// Decoding is a pure function of the bytes, so this wrapper and
/// `parse_envelope_operations` observe the one result `envelope_xdr_of`
/// names.
#[verifier::external_body]
fn parse_envelope_kind(b: &Vec<u8>) -> (r: Result<EnvelopeKind, String>)
    ensures
        (r is Ok) == (envelope_xdr_of(b@) is Some),
        r matches Ok(k) ==> envelope_xdr_of(b@) matches Some(m) && m.0 == k,
{
    match XdrEnvelope::from_xdr(b, Limits::none()) {
        Ok(XdrEnvelope::Tx(_)) => Ok(EnvelopeKind::Tx),
        Ok(XdrEnvelope::TxV0(_)) => Ok(EnvelopeKind::TxV0),
        Ok(XdrEnvelope::TxFeeBump(_)) => Ok(EnvelopeKind::TxFeeBump),
        Err(e) => Err(format!("{}", e)),
    }
}

/// Relies on `soroban_env_host::xdr::TransactionEnvelope::from_xdr` with no
/// size limits: the operations the decoded envelope carries, each reduced to
/// the host function it invokes (the contract address rendered as text).
/// Observes the same pure decode as `parse_envelope_kind`.
#[verifier::external_body]
fn parse_envelope_operations(b: &Vec<u8>) -> (r: Result<Vec<Operation>, String>)
    ensures
        (r is Ok) == (envelope_xdr_of(b@) is Some),
        r matches Ok(ops) ==> envelope_xdr_of(b@) matches Some(m) && m.1 == ops@,
{
    let env = XdrEnvelope::from_xdr(b, Limits::none()).map_err(|e| format!("{}", e))?;
    let ops = match &env {
        XdrEnvelope::Tx(e) => &e.tx.operations,
        XdrEnvelope::TxV0(e) => &e.tx.operations,
        XdrEnvelope::TxFeeBump(e) => { let XdrInnerTx::Tx(i) = &e.tx.inner_tx; &i.tx.operations },
    };
    Ok(ops.iter().map(|o| match &o.body {
        XdrOpBody::InvokeHostFunction(h) => match &h.host_function {
            XdrHostFn::InvokeContract(a) => Operation::InvokeContract { contract_address: format!("{:?}", a.contract_address) },
            _ => Operation::OtherHostFunction,
        },
        _ => Operation::Other,
    }).collect())
}

/// Decodes envelope bytes into the transaction-envelope model, preserving
/// the decoded shape and operations.
pub fn decode_envelope(bytes: &Vec<u8>) -> (r: Result<TransactionEnvelope, String>)
    ensures
        (r is Ok) == (envelope_xdr_of(bytes@) is Some),
        r matches Ok(env) ==> envelope_xdr_of(bytes@) matches Some(m) && envelope_kind(env) == m.0
            && envelope_operations(env) == m.1,
{
    match parse_envelope_kind(bytes) {
        Err(e) => Err(e),
        Ok(kind) => match parse_envelope_operations(bytes) {
            Err(e) => {
                // Both wrappers observe the one decode of the same bytes, so
                // this arm cannot be reached once the shape was decoded.
                proof {
                    assert(false);
                }
                Err(e)
            },
            Ok(ops) => {
                let tx = Transaction { operations: ops };
                Ok(
                    match kind {
                        EnvelopeKind::Tx => TransactionEnvelope::Tx(tx),
                        EnvelopeKind::TxV0 => TransactionEnvelope::TxV0(tx),
                        EnvelopeKind::TxFeeBump => TransactionEnvelope::TxFeeBump(
                            FeeBumpInnerTx::Tx(tx),
                        ),
                    },
                )
            },
        },
    }
}

/// Whether bytes decode as a ledger key. Depends on the bytes alone.
pub uninterp spec fn ledger_key_parses(b: Seq<u8>) -> bool;

/// Relies on `soroban_env_host::xdr::LedgerKey::from_xdr` with no size
/// limits: whether the bytes decode as a ledger key.
#[verifier::external_body]
fn parse_ledger_key(b: &Vec<u8>) -> (r: Result<(), String>)
    ensures
        (r is Ok) == ledger_key_parses(b@),
{
    match XdrLedgerKey::from_xdr(b, Limits::none()) {
        Ok(_) => Ok(()),
        Err(e) => Err(format!("{}", e)),
    }
}

/// Whether bytes decode as a ledger entry. Depends on the bytes alone.
pub uninterp spec fn ledger_entry_parses(b: Seq<u8>) -> bool;

/// Relies on `soroban_env_host::xdr::LedgerEntry::from_xdr` with no size
/// limits: whether the bytes decode as a ledger entry.
#[verifier::external_body]
fn parse_ledger_entry(b: &Vec<u8>) -> (r: Result<(), String>)
    ensures
        (r is Ok) == ledger_entry_parses(b@),
{
    match XdrLedgerEntry::from_xdr(b, Limits::none()) {
        Ok(_) => Ok(()),
        Err(e) => Err(format!("{}", e)),
    }
}

/// The first of the four validation steps a key/entry pair fails, if any:
/// key base64, key format, entry base64, entry format, in that order.
pub enum EntryFailure {
    KeyEncoding,
    KeyFormat,
    EntryEncoding,
    EntryFormat,
}

pub open spec fn pair_failure(key: Seq<char>, val: Seq<char>) -> Option<EntryFailure> {
    match base64_decode_of(key) {
        Option::None => Option::Some(EntryFailure::KeyEncoding),
        Option::Some(kb) => if !ledger_key_parses(kb) {
            Option::Some(EntryFailure::KeyFormat)
        } else {
            match base64_decode_of(val) {
                Option::None => Option::Some(EntryFailure::EntryEncoding),
                Option::Some(vb) => if !ledger_entry_parses(vb) {
                    Option::Some(EntryFailure::EntryFormat)
                } else {
                    Option::None
                },
            }
        },
    }
}

pub open spec fn pair_valid(key: Seq<char>, val: Seq<char>) -> bool {
    pair_failure(key, val) is None
}

/// Which error a given validation failure surfaces as.
pub open spec fn failure_error_matches(f: EntryFailure, e: SimError) -> bool {
    match f {
        EntryFailure::KeyEncoding => e matches SimError::InvalidEncoding(XdrField::LedgerKey, _),
        EntryFailure::KeyFormat => e matches SimError::InvalidFormat(XdrField::LedgerKey, _),
        EntryFailure::EntryEncoding => e matches SimError::InvalidEncoding(
            XdrField::LedgerEntry,
            _,
        ),
        EntryFailure::EntryFormat => e matches SimError::InvalidFormat(XdrField::LedgerEntry, _),
    }
}

/// The pair at index `i` is the first invalid one, and `e` reports its first
/// failing step.
pub open spec fn first_failure_at(entries: Seq<(String, String)>, i: int, e: SimError) -> bool {
    &&& 0 <= i < entries.len()
    &&& forall|j: int| 0 <= j < i ==> pair_valid(#[trigger] entries[j].0@, entries[j].1@)
    &&& match pair_failure(entries[i].0@, entries[i].1@) {
        Option::Some(f) => failure_error_matches(f, e),
        Option::None => false,
    }
}

/// Validates every key/entry pair of the ledger snapshot, fail-fast and in
/// sequence order; returns the count of validated pairs, or the error of the
/// first pair's first failing step.
pub fn load_ledger_entries(entries: &Vec<(String, String)>) -> (r: Result<usize, SimError>)
    ensures
        (r is Ok) <==> (forall|j: int|
            0 <= j < entries@.len() ==> pair_valid(#[trigger] entries@[j].0@, entries@[j].1@)),
        r matches Ok(n) ==> n == entries@.len(),
        r matches Err(e) ==> exists|i: int| #[trigger] first_failure_at(entries@, i, e),
{
    let mut i: usize = 0;
    while i < entries.len()
        invariant
            i <= entries@.len(),
            forall|j: int|
                0 <= j < i ==> pair_valid(#[trigger] entries@[j].0@, entries@[j].1@),
        decreases entries@.len() - i,
    {
        let key_bytes = match base64_decode(entries[i].0.as_str()) {
            Ok(b) => b,
            Err(d) => {
                let e = SimError::InvalidEncoding(XdrField::LedgerKey, d);
                proof {
                    assert(first_failure_at(entries@, i as int, e));
                }
                return Err(e);
            },
        };
        match parse_ledger_key(&key_bytes) {
            Ok(()) => (),
            Err(d) => {
                let e = SimError::InvalidFormat(XdrField::LedgerKey, d);
                proof {
                    assert(first_failure_at(entries@, i as int, e));
                }
                return Err(e);
            },
        };
        let entry_bytes = match base64_decode(entries[i].1.as_str()) {
            Ok(b) => b,
            Err(d) => {
                let e = SimError::InvalidEncoding(XdrField::LedgerEntry, d);
                proof {
                    assert(first_failure_at(entries@, i as int, e));
                }
                return Err(e);
            },
        };
        match parse_ledger_entry(&entry_bytes) {
            Ok(()) => (),
            Err(d) => {
                let e = SimError::InvalidFormat(XdrField::LedgerEntry, d);
                proof {
                    assert(first_failure_at(entries@, i as int, e));
                }
                return Err(e);
            },
        };
        i = i + 1;
    }
    Ok(i)
}

} // verus!
