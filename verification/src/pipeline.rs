//! The simulation pipeline: operation extraction over the three envelope
//! shapes, the invocation dispatcher, response assembly, and the fail-fast
//! end-to-end run over a parsed request.

use vstd::prelude::*;
use vstd::string::StrSliceExecFns;
use vstd::string::StringExecFns;
use crate::classify::classify_spec;
use crate::classify::decode_error;
use crate::classify::lower_of;
use crate::decode::base64_decode;
use crate::decode::base64_decode_of;
use crate::decode::decode_envelope;
use crate::decode::envelope_xdr_of;
use crate::decode::first_failure_at;
use crate::decode::load_ledger_entries;
use crate::decode::pair_valid;
use crate::engine::events_report;
use crate::engine::fresh_diagnostic_host;
use crate::engine::host_events;
use crate::model::FeeBumpInnerTx;
use crate::model::Operation;
use crate::model::SimError;
use crate::model::SimulationRequest;
use crate::model::SimulationResponse;
use crate::model::TransactionEnvelope;
use crate::model::XdrField;
use crate::model::envelope_operations;
use crate::model::error_detail;
use crate::model::error_message;
use crate::model::error_prefix;
use crate::text::dec_rep;
use crate::text::has_prefix;
use crate::text::lemma_prefix_of_concat;
use crate::text::usize_to_string;

verus! {

/// Returns the ordered operation sequence of an envelope: a pure, total
/// dispatch over the three shapes.
pub fn extract_operations(env: &TransactionEnvelope) -> (ops: &Vec<Operation>)
    ensures
        ops@ == envelope_operations(*env),
{
    match env {
        TransactionEnvelope::Tx(tx) => &tx.operations,
        TransactionEnvelope::TxV0(tx) => &tx.operations,
        TransactionEnvelope::TxFeeBump(FeeBumpInnerTx::Tx(tx)) => &tx.operations,
    }
}

/// The log lines one operation contributes: one line naming the invoked
/// contract, one line for a skipped non-invocation host function, and none
/// for any other operation kind.
pub open spec fn op_log(op: Operation) -> Seq<Seq<char>> {
    match op {
        Operation::InvokeContract { contract_address } => seq![
            "Invoking Contract: "@ + contract_address@,
        ],
        Operation::OtherHostFunction => seq!["Skipping non-InvokeContract Host Function"@],
        Operation::Other => seq![],
    }
}

/// The log lines of a whole operation sequence, in sequence order.
pub open spec fn dispatch_logs(ops: Seq<Operation>) -> Seq<Seq<char>>
    decreases ops.len(),
{
    if ops.len() == 0 {
        seq![]
    } else {
        op_log(ops[0]) + dispatch_logs(ops.skip(1))
    }
}

proof fn lemma_dispatch_logs_snoc(ops: Seq<Operation>, op: Operation)
    ensures
        dispatch_logs(ops.push(op)) == dispatch_logs(ops) + op_log(op),
    decreases ops.len(),
{
    if ops.len() == 0 {
        assert(ops.push(op)[0] == op);
        assert(ops.push(op).skip(1) =~= Seq::<Operation>::empty());
        assert(dispatch_logs(Seq::<Operation>::empty()) == Seq::<Seq<char>>::empty());
        assert(dispatch_logs(ops.push(op)) == op_log(op) + Seq::<Seq<char>>::empty());
        assert(dispatch_logs(ops.push(op)) =~= dispatch_logs(ops) + op_log(op));
    } else {
        lemma_dispatch_logs_snoc(ops.skip(1), op);
        assert(ops.push(op)[0] == ops[0]);
        assert(ops.push(op).skip(1) =~= ops.skip(1).push(op));
        assert(dispatch_logs(ops.push(op)) == op_log(ops[0]) + dispatch_logs(
            ops.skip(1).push(op),
        ));
        assert(dispatch_logs(ops.push(op)) =~= dispatch_logs(ops) + op_log(op));
    }
}

/// Walks the operations in order and produces the dispatcher's log lines:
/// contract invocations are named, other host functions are skipped with a
/// note, anything else is silently ignored.
pub fn dispatch_operations(ops: &Vec<Operation>) -> (logs: Vec<String>)
    ensures
        logs.deep_view() == dispatch_logs(ops@),
{
    let mut logs: Vec<String> = Vec::new();
    let mut i: usize = 0;
    while i < ops.len()
        invariant
            i <= ops@.len(),
            logs.deep_view() == dispatch_logs(ops@.take(i as int)),
        decreases ops@.len() - i,
    {
        let ghost pre = logs.deep_view();
        match &ops[i] {
            Operation::InvokeContract { contract_address } => {
                let line = String::from_str("Invoking Contract: ").concat(
                    contract_address.as_str(),
                );
                logs.push(line);
                proof {
                    assert(logs.deep_view() =~= pre + op_log(ops@[i as int]));
                }
            },
            Operation::OtherHostFunction => {
                logs.push(String::from_str("Skipping non-InvokeContract Host Function"));
                proof {
                    assert(logs.deep_view() =~= pre + op_log(ops@[i as int]));
                }
            },
            Operation::Other => {
                proof {
                    assert(logs.deep_view() =~= pre + op_log(ops@[i as int]));
                }
            },
        }
        proof {
            assert(ops@.take(i as int + 1) =~= ops@.take(i as int).push(ops@[i as int]));
            lemma_dispatch_logs_snoc(ops@.take(i as int), ops@[i as int]);
        }
        i = i + 1;
    }
    proof {
        assert(ops@.take(ops@.len() as int) =~= ops@);
    }
    logs
}

/// An error report: status "error", a message carrying the given prefix, and
/// no events or logs.
pub open spec fn reports_error(resp: SimulationResponse, prefix: Seq<char>) -> bool {
    &&& resp.status@ == "error"@
    &&& resp.error matches Some(m) && has_prefix(m@, prefix)
    &&& resp.events@.len() == 0
    &&& resp.logs@.len() == 0
}

/// Assembles the error report for a fatal pipeline error.
pub fn error_response(e: SimError) -> (resp: SimulationResponse)
    ensures
        resp.wf(),
        resp.error matches Some(m) && m@ == error_message(e),
        reports_error(resp, error_prefix(e)),
{
    let msg = e.message();
    let resp = SimulationResponse {
        status: String::from_str("error"),
        error: Some(msg),
        events: Vec::new(),
        logs: Vec::new(),
    };
    proof {
        lemma_prefix_of_concat(error_prefix(e), error_detail(e));
    }
    resp
}

/// Assembles the success report from the gathered events and logs.
pub fn success_response(events: Vec<String>, logs: Vec<String>) -> (resp: SimulationResponse)
    ensures
        resp.wf(),
        resp.status@ == "success"@,
        resp.error is None,
        resp.events@ == events@,
        resp.logs@ == logs@,
{
    let resp = SimulationResponse { status: String::from_str("success"), error: None, events, logs };
    proof {
        reveal_strlit("success");
        reveal_strlit("error");
        assert("success"@.len() == 7);
        assert("error"@.len() == 5);
        assert(resp.status@ != "error"@);
    }
    resp
}

/// The report for a contract invocation the engine refused: the engine's
/// message is classified and the simulation reports an error — a failed
/// invocation is not a successful simulation.
pub fn invocation_failure_response(msg: &str) -> (resp: SimulationResponse)
    ensures
        resp.wf(),
        resp.status@ == "error"@,
        resp.error matches Some(m) && m@ == classify_spec(lower_of(msg@), msg@),
        resp.events@.len() == 0,
        resp.logs@.len() == 0,
{
    SimulationResponse {
        status: String::from_str("error"),
        error: Some(decode_error(msg)),
        events: Vec::new(),
        logs: Vec::new(),
    }
}

/// The ledger snapshot of a request, as a sequence of key/entry pairs.
pub open spec fn request_entries(req: SimulationRequest) -> Seq<(String, String)> {
    match req.ledger_entries {
        Option::Some(v) => v@,
        Option::None => Seq::empty(),
    }
}

/// The initialization line the success report's logs start with.
pub open spec fn init_log(n: nat) -> Seq<char> {
    "Host Initialized. Loaded "@ + dec_rep(n) + " Ledger Entries"@
}

/// Runs the whole pipeline on a parsed request: decode the envelope
/// (fail-fast), construct a fresh engine, validate the ledger snapshot
/// (fail-fast), dispatch the operations, query diagnostic events
/// (best-effort), and assemble the report.
pub fn simulate(req: &SimulationRequest) -> (resp: SimulationResponse)
    ensures
        resp.wf(),
        base64_decode_of(req.envelope_xdr@) is None ==> reports_error(
            resp,
            "Failed to decode Envelope Base64: "@,
        ),
        base64_decode_of(req.envelope_xdr@) matches Some(b) && envelope_xdr_of(b) is None
            ==> reports_error(resp, "Failed to parse Envelope XDR: "@),
        base64_decode_of(req.envelope_xdr@) matches Some(b) && envelope_xdr_of(b) is Some && !(
        forall|j: int|
            0 <= j < request_entries(*req).len() ==> pair_valid(
                #[trigger] request_entries(*req)[j].0@,
                request_entries(*req)[j].1@,
            )) ==> exists|i: int, e: SimError|
            #[trigger] first_failure_at(request_entries(*req), i, e) && reports_error(
                resp,
                error_prefix(e),
            ),
        base64_decode_of(req.envelope_xdr@) matches Some(b) ==> (envelope_xdr_of(b) matches Some(
            m,
        ) ==> ((forall|j: int|
            0 <= j < request_entries(*req).len() ==> pair_valid(
                #[trigger] request_entries(*req)[j].0@,
                request_entries(*req)[j].1@,
            )) ==> resp.status@ == "success"@ && resp.error is None && resp.logs.deep_view()
            == seq![init_log(request_entries(*req).len())] + dispatch_logs(m.1))),
{
    let bytes = match base64_decode(req.envelope_xdr.as_str()) {
        Ok(b) => b,
        Err(d) => {
            return error_response(SimError::InvalidEncoding(XdrField::Envelope, d));
        },
    };
    let envelope = match decode_envelope(&bytes) {
        Ok(env) => env,
        Err(d) => {
            return error_response(SimError::InvalidFormat(XdrField::Envelope, d));
        },
    };
    let host = fresh_diagnostic_host();
    let count: usize = match &req.ledger_entries {
        Some(entries) => match load_ledger_entries(entries) {
            Ok(n) => {
                proof {
                    assert(request_entries(*req) == entries@);
                }
                n
            },
            Err(e) => {
                proof {
                    assert(request_entries(*req) == entries@);
                    let i = choose|i: int| #[trigger] first_failure_at(entries@, i, e);
                    assert(first_failure_at(request_entries(*req), i, e));
                    assert(!pair_valid(entries@[i].0@, entries@[i].1@));
                    assert(!(forall|j: int|
                        0 <= j < request_entries(*req).len() ==> pair_valid(
                            #[trigger] request_entries(*req)[j].0@,
                            request_entries(*req)[j].1@,
                        )));
                }
                return error_response(e);
            },
        },
        None => {
            proof {
                assert(request_entries(*req) =~= Seq::<(String, String)>::empty());
            }
            0
        },
    };
    let ops = extract_operations(&envelope);
    let mut invocation_logs = dispatch_operations(ops);
    let ghost inv_deep = invocation_logs.deep_view();
    let mut init = String::from_str("Host Initialized. Loaded ");
    init.append(usize_to_string(count).as_str());
    init.append(" Ledger Entries");
    let mut logs: Vec<String> = Vec::new();
    logs.push(init);
    logs.append(&mut invocation_logs);
    proof {
        assert(logs.deep_view() =~= seq![init_log(count as nat)] + inv_deep);
    }
    let events = events_report(host_events(&host));
    success_response(events, logs)
}

} // verus!
