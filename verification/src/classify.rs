//! The error classifier: turns a free-text failure message surfaced by the
//! execution engine into a human-readable category, by case-insensitive,
//! first-match-wins substring rules.

use vstd::prelude::*;
use vstd::string::StrSliceExecFns;
use vstd::string::StringExecFns;
use crate::text::contains_seq;
use crate::text::contains_substr;

verus! {

/// The lowercase folding of a character sequence, as `str::to_lowercase`
/// computes it. The folding depends on the characters alone.
pub uninterp spec fn lower_of(s: Seq<char>) -> Seq<char>;

/// Relies on `str::to_lowercase`: the result depends on the characters alone.
#[verifier::external_body]
fn lowercase(s: &str) -> (r: String)
    ensures
        r@ == lower_of(s@),
{
    s.to_lowercase()
}

/// The message names a trap raised by the contract bytecode interpreter.
pub open spec fn is_vm_trap(lower: Seq<char>) -> bool {
    contains_seq(lower, "wasm trap"@) || contains_seq(lower, "trapped"@)
}

/// The classification rules, over the lowercase folding `lower` of the
/// original message `orig`: VM-trap rules first (sub-classified in a fixed
/// order), then host-trap rules, then a generic fallback.
pub open spec fn classify_spec(lower: Seq<char>, orig: Seq<char>) -> Seq<char> {
    if is_vm_trap(lower) {
        if contains_seq(lower, "unreachable"@) {
            "VM Trap: Unreachable Instruction (Panic or invalid code path)"@
        } else if contains_seq(lower, "out of bounds"@) || contains_seq(lower, "memory access"@) {
            "VM Trap: Out of Bounds Access (Invalid memory read/write)"@
        } else if contains_seq(lower, "integer overflow"@) || contains_seq(
            lower,
            "arithmetic overflow"@,
        ) {
            "VM Trap: Integer Overflow"@
        } else if contains_seq(lower, "stack overflow"@) || contains_seq(
            lower,
            "call stack exhausted"@,
        ) {
            "VM Trap: Stack Overflow (Recursion limit exceeded)"@
        } else if contains_seq(lower, "divide by zero"@) {
            "VM Trap: Division by Zero"@
        } else {
            "VM Trap: Unknown Wasm Trap ("@ + orig + ")"@
        }
    } else if contains_seq(lower, "hosterror"@) || contains_seq(lower, "context"@) {
        "Host Trap: "@ + orig
    } else {
        "Execution Error: "@ + orig
    }
}

/// Applies the classification rules to an already-lowercased copy `lower` of
/// the message `orig`.
pub fn classify_folded(lower: &str, orig: &str) -> (r: String)
    ensures
        r@ == classify_spec(lower@, orig@),
{
    if contains_substr(lower, "wasm trap") || contains_substr(lower, "trapped") {
        if contains_substr(lower, "unreachable") {
            String::from_str("VM Trap: Unreachable Instruction (Panic or invalid code path)")
        } else if contains_substr(lower, "out of bounds") || contains_substr(
            lower,
            "memory access",
        ) {
            String::from_str("VM Trap: Out of Bounds Access (Invalid memory read/write)")
        } else if contains_substr(lower, "integer overflow") || contains_substr(
            lower,
            "arithmetic overflow",
        ) {
            String::from_str("VM Trap: Integer Overflow")
        } else if contains_substr(lower, "stack overflow") || contains_substr(
            lower,
            "call stack exhausted",
        ) {
            String::from_str("VM Trap: Stack Overflow (Recursion limit exceeded)")
        } else if contains_substr(lower, "divide by zero") {
            String::from_str("VM Trap: Division by Zero")
        } else {
            String::from_str("VM Trap: Unknown Wasm Trap (").concat(orig).concat(")")
        }
    } else if contains_substr(lower, "hosterror") || contains_substr(lower, "context") {
        String::from_str("Host Trap: ").concat(orig)
    } else {
        String::from_str("Execution Error: ").concat(orig)
    }
}

/// Decodes generic errors and WASM traps into human-readable messages,
/// differentiating VM-initiated traps from host-initiated ones.
pub fn decode_error(msg: &str) -> (r: String)
    ensures
        r@ == classify_spec(lower_of(msg@), msg@),
{
    let lower = lowercase(msg);
    classify_folded(lower.as_str(), msg)
}

/// Law: a trap message that names an out-of-bounds or memory access (and does
/// not name an unreachable instruction, whose rule takes precedence) always
/// classifies as an Out of Bounds Access, whatever else it contains.
pub proof fn lemma_trap_out_of_bounds(lower: Seq<char>, orig: Seq<char>)
    requires
        is_vm_trap(lower),
        contains_seq(lower, "out of bounds"@) || contains_seq(lower, "memory access"@),
        !contains_seq(lower, "unreachable"@),
    ensures
        classify_spec(lower, orig) == "VM Trap: Out of Bounds Access (Invalid memory read/write)"@,
{
}

/// Law: the unreachable-instruction rule precedes every later rule; a trap
/// message that contains both "unreachable" and "stack overflow" classifies
/// as an Unreachable Instruction.
pub proof fn lemma_unreachable_precedes_stack_overflow(lower: Seq<char>, orig: Seq<char>)
    requires
        is_vm_trap(lower),
        contains_seq(lower, "unreachable"@),
        contains_seq(lower, "stack overflow"@),
    ensures
        classify_spec(lower, orig)
            == "VM Trap: Unreachable Instruction (Panic or invalid code path)"@,
{
}

/// Law: a message that names a host error but no trap keyword classifies as a
/// Host Trap carrying the original message, never as a VM trap.
pub proof fn lemma_host_error_is_host_trap(lower: Seq<char>, orig: Seq<char>)
    requires
        contains_seq(lower, "hosterror"@),
        !contains_seq(lower, "wasm trap"@),
        !contains_seq(lower, "trapped"@),
    ensures
        classify_spec(lower, orig) == "Host Trap: "@ + orig,
{
}

/// Law: a message matching none of the known substrings classifies as a
/// generic Execution Error, preserving the original message verbatim after
/// the category prefix.
pub proof fn lemma_generic_execution_error(lower: Seq<char>, orig: Seq<char>)
    requires
        !contains_seq(lower, "wasm trap"@),
        !contains_seq(lower, "trapped"@),
        !contains_seq(lower, "hosterror"@),
        !contains_seq(lower, "context"@),
    ensures
        classify_spec(lower, orig) == "Execution Error: "@ + orig,
        classify_spec(lower, orig).skip(17) == orig,
{
    reveal_strlit("Execution Error: ");
    assert(("Execution Error: "@ + orig).skip(17) =~= orig);
}

/// Law: the classifier is a pure function of the message; any two
/// classifications of the same message are equal.
pub proof fn lemma_classifier_deterministic(
    lower: Seq<char>,
    orig: Seq<char>,
    r1: Seq<char>,
    r2: Seq<char>,
)
    requires
        r1 == classify_spec(lower, orig),
        r2 == classify_spec(lower, orig),
    ensures
        r1 == r2,
{
}

} // verus!
