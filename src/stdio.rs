use vstd::prelude::*;
use vstd::string::*;

use crate::error::WorkerError;
use crate::ids::WorkerId;
use crate::invocation::{CallingConvention, InvocationKey};
use crate::text::texts;

verus! {

#[verifier::external_type_specification]
#[verifier::external_body]
pub struct ExJsonValue(serde_json::Value);

#[verifier::external_type_specification]
#[verifier::external_body]
pub struct ExWasmValue(golem_wasm_rpc::Value);

/// The JSON document that a text holds, if it holds one.
pub uninterp spec fn json_parse(text: Seq<char>) -> Option<serde_json::Value>;

/// The compact JSON text of a value.
pub uninterp spec fn json_text_of(value: serde_json::Value) -> Seq<char>;

/// Whether a JSON value is null.
pub uninterp spec fn is_json_null(value: serde_json::Value) -> bool;

/// The text of a JSON value that is a string; `None` for every other value.
pub uninterp spec fn json_string_text(value: serde_json::Value) -> Option<Seq<char>>;

/// The text of a component-model value that is a string; `None` for every other
/// value.
pub uninterp spec fn string_payload_of(value: golem_wasm_rpc::Value) -> Option<Seq<char>>;

/// The text of an optional string.
pub open spec fn opt_text(o: Option<String>) -> Option<Seq<char>> {
    match o {
        Some(s) => Some(s@),
        None => None,
    }
}

/// Relies on serde_json::from_str: reads a text as one JSON document, or fails;
/// the outcome depends on the text alone.
#[verifier::external_body]
fn parse_json(text: &str) -> (r: Option<serde_json::Value>)
    ensures
        r == json_parse(text@),
{
    serde_json::from_str::<serde_json::Value>(text).ok()
}

/// Relies on serde_json's `Display` for `Value`: writes the value as compact JSON,
/// a text that depends on the value alone.
#[verifier::external_body]
fn json_to_text(value: &serde_json::Value) -> (r: String)
    ensures
        r@ == json_text_of(*value),
{
    value.to_string()
}

/// Relies on serde_json's `Value::Null`: the JSON null, which is no string.
#[verifier::external_body]
fn json_null() -> (r: serde_json::Value)
    ensures
        is_json_null(r),
        json_string_text(r) is None,
{
    serde_json::Value::Null
}

/// Relies on serde_json's `Value::String`: a JSON string that holds the text.
#[verifier::external_body]
fn json_string(text: String) -> (r: serde_json::Value)
    ensures
        json_string_text(r) == Some(text@),
        !is_json_null(r),
{
    serde_json::Value::String(text)
}

/// Relies on golem_wasm_rpc's `Value::String`: a component-model string value.
#[verifier::external_body]
fn wasm_string(text: String) -> (r: golem_wasm_rpc::Value)
    ensures
        string_payload_of(r) == Some(text@),
{
    golem_wasm_rpc::Value::String(text)
}

/// Relies on golem_wasm_rpc's `Value`: the text of a `Value::String`, `None` for
/// every other kind of value.
#[verifier::external_body]
fn wasm_string_payload(value: &golem_wasm_rpc::Value) -> (r: Option<String>)
    ensures
        opt_text(r) == string_payload_of(*value),
{
    match value {
        golem_wasm_rpc::Value::String(s) => Some(s.clone()),
        _ => None,
    }
}

/// The JSON value that a stdio result text stands for: null for no text, the
/// document that the text holds, or else the text itself as a JSON string.
pub open spec fn stands_for(text: Option<Seq<char>>, value: serde_json::Value) -> bool {
    match text {
        None => is_json_null(value),
        Some(t) => match json_parse(t) {
            Some(doc) => value == doc,
            None => json_string_text(value) == Some(t),
        },
    }
}

/// The text that a single string result carries: `None` for the empty string.
pub open spec fn result_text(payload: Seq<char>) -> Option<Seq<char>> {
    if payload.len() == 0 {
        None
    } else {
        Some(payload)
    }
}

/// The one message of the error for a result that breaks the stdio convention.
pub open spec fn stdio_result_message() -> Seq<char> {
    "Expecting a single string as the result value when using stdio calling convention"@
}

/// The error for a result that breaks the stdio convention.
pub open spec fn is_stdio_result_error(e: WorkerError) -> bool {
    e matches WorkerError::BadRequest { errors } && texts(errors@) == seq![stdio_result_message()]
}

/// The text that a stdio result carries: `None` for the empty text, which stands
/// for JSON null.
pub open spec fn stdio_text_spec(payloads: Seq<Option<String>>) -> Option<Option<Seq<char>>> {
    if payloads.len() == 1 && payloads[0] is Some {
        let s = payloads[0].unwrap()@;
        if s.len() == 0 {
            Some(None)
        } else {
            Some(Some(s))
        }
    } else {
        None
    }
}

fn stdio_result_error() -> (r: WorkerError)
    ensures
        is_stdio_result_error(r),
{
    let mut errors: Vec<String> = Vec::new();
    errors.push(
        String::from_str(
            "Expecting a single string as the result value when using stdio calling convention",
        ),
    );
    assert(texts(errors@) =~= seq![stdio_result_message()]);
    WorkerError::BadRequest { errors }
}

/// Reads the result of a stdio invocation, given as the string payload of each
/// result value (`None` for a value that is no string): there must be exactly one
/// value and it must be a string. The empty string stands for JSON null.
pub fn stdio_text(payloads: Vec<Option<String>>) -> (r: Result<Option<String>, WorkerError>)
    ensures
        r is Err <==> stdio_text_spec(payloads@) is None,
        r matches Err(e) ==> is_stdio_result_error(e),
        r matches Ok(t) ==> stdio_text_spec(payloads@) == Some(
            match t {
                None => None,
                Some(s) => Some(s@),
            },
        ),
{
    if payloads.len() != 1 {
        return Err(stdio_result_error());
    }
    let mut payloads = payloads;
    let ghost before = payloads@;
    match payloads.pop() {
        None => Err(stdio_result_error()),
        Some(None) => Err(stdio_result_error()),
        Some(Some(s)) => {
            assert(before[0] == Some(s));
            if s.as_str().unicode_len() == 0 {
                Ok(None)
            } else {
                Ok(Some(s))
            }
        },
    }
}

/// The string payload of each result value, in order.
pub fn string_payloads(values: &Vec<golem_wasm_rpc::Value>) -> (r: Vec<Option<String>>)
    ensures
        r@.len() == values@.len(),
        forall|i: int| 0 <= i < values@.len() ==> opt_text(#[trigger] r@[i]) == string_payload_of(values@[i]),
{
    let mut out: Vec<Option<String>> = Vec::new();
    let mut i: usize = 0;
    while i < values.len()
        invariant
            i <= values@.len(),
            out@.len() == i,
            forall|j: int| 0 <= j < i ==> opt_text(#[trigger] out@[j]) == string_payload_of(values@[j]),
        decreases values.len() - i,
    {
        out.push(wasm_string_payload(&values[i]));
        i = i + 1;
    }
    out
}

/// The JSON value that a stdio result text stands for: null for no text, the JSON
/// document that the text holds, or else the text itself as a JSON string.
pub fn json_of_stdio_text(text: Option<String>) -> (r: serde_json::Value)
    ensures
        stands_for(opt_text(text), r),
{
    match text {
        None => json_null(),
        Some(s) => match parse_json(s.as_str()) {
            Some(v) => v,
            None => json_string(s),
        },
    }
}

/// Decodes the result values of a stdio invocation into JSON.
pub fn decode_stdio_result(values: &Vec<golem_wasm_rpc::Value>) -> (r: Result<
    serde_json::Value,
    WorkerError,
>)
    ensures
        r is Ok <==> (values@.len() == 1 && string_payload_of(values@[0]) is Some),
        r matches Err(e) ==> is_stdio_result_error(e),
        r matches Ok(v) ==> stands_for(result_text(string_payload_of(values@[0]).unwrap()), v),
{
    match stdio_text(string_payloads(values)) {
        Ok(text) => Ok(json_of_stdio_text(text)),
        Err(e) => Err(e),
    }
}

/// The parameters of a stdio invocation: the JSON text of `params` as the one
/// string value.
pub fn stdio_params(params: &serde_json::Value) -> (r: Vec<golem_wasm_rpc::Value>)
    ensures
        r@.len() == 1,
        string_payload_of(r@[0]) == Some(json_text_of(*params)),
{
    let text = json_to_text(params);
    let mut out: Vec<golem_wasm_rpc::Value> = Vec::new();
    out.push(wasm_string(text));
    out
}

/// The text that went out as a stdio parameter comes back unchanged from a single
/// string result: an echo of a non-empty parameter text reads as that text.
pub proof fn stdio_echo_reads_back(payload: String)
    requires
        payload@.len() > 0,
    ensures
        stdio_text_spec(seq![Some(payload)]) == Some(Some(payload@)),
{
}

/// An invoke-and-await request as the control plane takes it.
pub struct InvokeAndAwaitRequest {
    pub worker_id: WorkerId,
    pub function: String,
    pub params: Vec<golem_wasm_rpc::Value>,
    pub invocation_key: InvocationKey,
    pub calling_convention: CallingConvention,
}

/// The request of a stdio invocation: the JSON text of `params` as the one string
/// parameter, under the stdio convention, or its event-loop form.
pub fn stdio_request(
    worker_id: WorkerId,
    invocation_key: InvocationKey,
    function: &str,
    params: &serde_json::Value,
    event_loop: bool,
) -> (r: InvokeAndAwaitRequest)
    ensures
        r.worker_id == worker_id,
        r.invocation_key == invocation_key,
        r.function@ == function@,
        r.params@.len() == 1,
        string_payload_of(r.params@[0]) == Some(json_text_of(*params)),
        r.calling_convention == (if event_loop {
            CallingConvention::StdioEventloop
        } else {
            CallingConvention::Stdio
        }),
{
    InvokeAndAwaitRequest {
        worker_id,
        function: String::from_str(function),
        params: stdio_params(params),
        invocation_key,
        calling_convention: if event_loop {
            CallingConvention::StdioEventloop
        } else {
            CallingConvention::Stdio
        },
    }
}

} // verus!
