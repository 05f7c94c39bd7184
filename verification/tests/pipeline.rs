use base64::Engine;
use soroban_env_host::xdr;
use soroban_env_host::xdr::WriteXdr;

use simulator::model::FeeBumpInnerTx;
use simulator::model::Operation;
use simulator::model::SimError;
use simulator::model::SimulationRequest;
use simulator::model::Transaction;
use simulator::model::TransactionEnvelope;
use simulator::model::XdrField;
use simulator::decode::decode_envelope;
use simulator::decode::load_ledger_entries;
use simulator::pipeline::dispatch_operations;
use simulator::pipeline::extract_operations;
use simulator::pipeline::simulate;

fn b64(bytes: &[u8]) -> String {
    base64::engine::general_purpose::STANDARD.encode(bytes)
}

fn invoke_contract_op() -> xdr::Operation {
    xdr::Operation {
        source_account: None,
        body: xdr::OperationBody::InvokeHostFunction(xdr::InvokeHostFunctionOp {
            host_function: xdr::HostFunction::InvokeContract(xdr::InvokeContractArgs {
                contract_address: xdr::ScAddress::Contract(xdr::ContractId(xdr::Hash([7u8; 32]))),
                function_name: "hello".try_into().unwrap(),
                args: vec![].try_into().unwrap(),
            }),
            auth: vec![].try_into().unwrap(),
        }),
    }
}

fn upload_wasm_op() -> xdr::Operation {
    xdr::Operation {
        source_account: None,
        body: xdr::OperationBody::InvokeHostFunction(xdr::InvokeHostFunctionOp {
            host_function: xdr::HostFunction::UploadContractWasm(
                vec![0u8; 4].try_into().unwrap(),
            ),
            auth: vec![].try_into().unwrap(),
        }),
    }
}

fn envelope_with(ops: Vec<xdr::Operation>) -> xdr::TransactionEnvelope {
    xdr::TransactionEnvelope::Tx(xdr::TransactionV1Envelope {
        tx: xdr::Transaction {
            source_account: xdr::MuxedAccount::Ed25519(xdr::Uint256([0u8; 32])),
            fee: 100,
            seq_num: xdr::SequenceNumber(1),
            cond: xdr::Preconditions::None,
            memo: xdr::Memo::None,
            operations: ops.try_into().unwrap(),
            ext: xdr::TransactionExt::V0,
        },
        signatures: vec![].try_into().unwrap(),
    })
}

fn envelope_b64(env: &xdr::TransactionEnvelope) -> String {
    b64(&env.to_xdr(xdr::Limits::none()).unwrap())
}

#[test]
fn fee_bump_envelope_decodes_to_its_shape() {
    let xdr::TransactionEnvelope::Tx(inner) = envelope_with(vec![invoke_contract_op()]) else {
        unreachable!();
    };
    let bump = xdr::TransactionEnvelope::TxFeeBump(xdr::FeeBumpTransactionEnvelope {
        tx: xdr::FeeBumpTransaction {
            fee_source: xdr::MuxedAccount::Ed25519(xdr::Uint256([2u8; 32])),
            fee: 200,
            inner_tx: xdr::FeeBumpTransactionInnerTx::Tx(inner),
            ext: xdr::FeeBumpTransactionExt::V0,
        },
        signatures: vec![].try_into().unwrap(),
    });
    let bytes = bump.to_xdr(xdr::Limits::none()).unwrap();
    let decoded = decode_envelope(&bytes).expect("must decode");
    match decoded {
        TransactionEnvelope::TxFeeBump(FeeBumpInnerTx::Tx(tx)) => {
            assert_eq!(tx.operations.len(), 1);
            assert!(matches!(tx.operations[0], Operation::InvokeContract { .. }));
        }
        _ => panic!("wrong envelope shape"),
    }
}

#[test]
fn dispatcher_keeps_operation_order() {
    let ops = vec![
        Operation::InvokeContract { contract_address: "first".to_string() },
        Operation::InvokeContract { contract_address: "second".to_string() },
    ];
    let logs = dispatch_operations(&ops);
    assert_eq!(
        logs,
        vec!["Invoking Contract: first".to_string(), "Invoking Contract: second".to_string()]
    );
}

#[test]
fn dispatcher_logs_invocations_and_skips() {
    let ops = vec![
        Operation::InvokeContract { contract_address: "Contract(abc)".to_string() },
        Operation::Other,
        Operation::OtherHostFunction,
    ];
    let env = TransactionEnvelope::Tx(Transaction { operations: ops });
    let logs = dispatch_operations(extract_operations(&env));
    assert_eq!(
        logs,
        vec![
            "Invoking Contract: Contract(abc)".to_string(),
            "Skipping non-InvokeContract Host Function".to_string(),
        ]
    );
}

#[test]
fn fee_bump_inner_operations_are_extracted() {
    let ops = vec![Operation::InvokeContract { contract_address: "a".to_string() }];
    let env = TransactionEnvelope::TxFeeBump(FeeBumpInnerTx::Tx(Transaction { operations: ops }));
    assert_eq!(extract_operations(&env).len(), 1);
    let env = TransactionEnvelope::TxV0(Transaction { operations: vec![] });
    assert_eq!(extract_operations(&env).len(), 0);
}

#[test]
fn undecodable_envelope_yields_error_response() {
    let req = SimulationRequest {
        envelope_xdr: "!!!not base64!!!".to_string(),
        result_meta_xdr: String::new(),
        ledger_entries: None,
    };
    let resp = simulate(&req);
    assert_eq!(resp.status, "error");
    let err = resp.error.expect("error must be present");
    assert!(err.starts_with("Failed to decode Envelope Base64: "));
    assert!(resp.events.is_empty());
    assert!(resp.logs.is_empty());
}

#[test]
fn unparsable_envelope_yields_error_response() {
    let req = SimulationRequest {
        envelope_xdr: b64(b"not an envelope at all"),
        result_meta_xdr: String::new(),
        ledger_entries: None,
    };
    let resp = simulate(&req);
    assert_eq!(resp.status, "error");
    let err = resp.error.expect("error must be present");
    assert!(err.starts_with("Failed to parse Envelope XDR: "));
    assert!(resp.events.is_empty());
    assert!(resp.logs.is_empty());
}

#[test]
fn simulation_reports_invocations() {
    let env = envelope_with(vec![invoke_contract_op(), upload_wasm_op()]);
    let req = SimulationRequest {
        envelope_xdr: envelope_b64(&env),
        result_meta_xdr: String::new(),
        ledger_entries: None,
    };
    let resp = simulate(&req);
    assert_eq!(resp.status, "success");
    assert!(resp.error.is_none());
    assert_eq!(resp.logs.len(), 3);
    assert_eq!(resp.logs[0], "Host Initialized. Loaded 0 Ledger Entries");
    assert!(resp.logs[1].starts_with("Invoking Contract: "));
    assert_eq!(resp.logs[2], "Skipping non-InvokeContract Host Function");
}

fn account_ledger_key_b64() -> String {
    let key = xdr::LedgerKey::Account(xdr::LedgerKeyAccount {
        account_id: xdr::AccountId(xdr::PublicKey::PublicKeyTypeEd25519(xdr::Uint256([1u8; 32]))),
    });
    b64(&key.to_xdr(xdr::Limits::none()).unwrap())
}

fn account_ledger_entry_b64() -> String {
    let entry = xdr::LedgerEntry {
        last_modified_ledger_seq: 0,
        data: xdr::LedgerEntryData::Account(xdr::AccountEntry {
            account_id: xdr::AccountId(xdr::PublicKey::PublicKeyTypeEd25519(xdr::Uint256(
                [1u8; 32],
            ))),
            balance: 5,
            seq_num: xdr::SequenceNumber(0),
            num_sub_entries: 0,
            inflation_dest: None,
            flags: 0,
            home_domain: Default::default(),
            thresholds: xdr::Thresholds([1, 0, 0, 0]),
            signers: vec![].try_into().unwrap(),
            ext: xdr::AccountEntryExt::V0,
        }),
        ext: xdr::LedgerEntryExt::V0,
    };
    b64(&entry.to_xdr(xdr::Limits::none()).unwrap())
}

#[test]
fn valid_snapshot_pairs_are_counted() {
    let entries = vec![(account_ledger_key_b64(), account_ledger_entry_b64())];
    assert_eq!(load_ledger_entries(&entries).map_err(|_| ()), Ok(1));

    let env = envelope_with(vec![invoke_contract_op()]);
    let req = SimulationRequest {
        envelope_xdr: envelope_b64(&env),
        result_meta_xdr: String::new(),
        ledger_entries: Some(entries),
    };
    let resp = simulate(&req);
    assert_eq!(resp.status, "success");
    assert_eq!(resp.logs[0], "Host Initialized. Loaded 1 Ledger Entries");
}

#[test]
fn invalid_snapshot_key_encoding_fails_fast() {
    let entries = vec![("%%%".to_string(), account_ledger_entry_b64())];
    let err = load_ledger_entries(&entries).expect_err("must fail");
    assert!(matches!(err, SimError::InvalidEncoding(XdrField::LedgerKey, _)));
    assert!(err.message().starts_with("Failed to decode LedgerKey Base64: "));
}

#[test]
fn invalid_snapshot_key_format_fails_fast() {
    let entries = vec![(b64(b"junk"), account_ledger_entry_b64())];
    let err = load_ledger_entries(&entries).expect_err("must fail");
    assert!(matches!(err, SimError::InvalidFormat(XdrField::LedgerKey, _)));
    assert!(err.message().starts_with("Failed to parse LedgerKey XDR: "));
}

#[test]
fn invalid_snapshot_entry_encoding_fails_fast() {
    let entries = vec![(account_ledger_key_b64(), "%%%".to_string())];
    let err = load_ledger_entries(&entries).expect_err("must fail");
    assert!(matches!(err, SimError::InvalidEncoding(XdrField::LedgerEntry, _)));
    assert!(err.message().starts_with("Failed to decode LedgerEntry Base64: "));
}

#[test]
fn invalid_snapshot_entry_format_fails_fast() {
    let entries = vec![(account_ledger_key_b64(), b64(b"junk"))];
    let err = load_ledger_entries(&entries).expect_err("must fail");
    assert!(matches!(err, SimError::InvalidFormat(XdrField::LedgerEntry, _)));
    assert!(err.message().starts_with("Failed to parse LedgerEntry XDR: "));
    let req = SimulationRequest {
        envelope_xdr: envelope_b64(&envelope_with(vec![invoke_contract_op()])),
        result_meta_xdr: String::new(),
        ledger_entries: Some(vec![(account_ledger_key_b64(), b64(b"junk"))]),
    };
    let resp = simulate(&req);
    assert_eq!(resp.status, "error");
    assert!(resp.error.unwrap().starts_with("Failed to parse LedgerEntry XDR: "));
    assert!(resp.logs.is_empty());
}
