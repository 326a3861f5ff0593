use vstd::prelude::*;
use vstd::string::StringExecFns;

use crate::escape::escape_json;
use crate::escape::json_escaped;

verus! {

/// The `result` field of a JSON-RPC reply: the hex balance string, when the
/// reply is a JSON object whose `result` field holds a string.
pub uninterp spec fn result_field(s: Seq<char>) -> Option<Seq<char>>;

/// The `error` field of a JSON-RPC reply: the error code and message, when
/// the reply is a JSON object whose `error` field holds an object with an
/// integer `code` and a string `message`.
pub uninterp spec fn error_field(s: Seq<char>) -> Option<(int, Seq<char>)>;

/// Relies on serde_json::from_str::<serde_json::Value> to parse the reply,
/// and on serde_json::Value::get, Value::as_str and Value::as_i64 to read
/// its `result` and `error` fields; all four depend on the text alone.
/// Text that is not valid JSON, or in which a field is absent or of another
/// shape, yields `None` for that field.
#[verifier::external_body]
fn reply_fields(text: &str) -> (r: (Option<String>, Option<(i64, String)>))
    ensures
        (r.0 is Some) == (result_field(text@) is Some),
        (r.0 matches Some(h) ==> result_field(text@) == Some(h@)),
        (r.1 is Some) == (error_field(text@) is Some),
        (r.1 matches Some(e) ==> error_field(text@) == Some((e.0 as int, e.1@))),
{
    let v: Option<serde_json::Value> = serde_json::from_str(text).ok();
    let result = v.as_ref().and_then(|v| v.get("result")).and_then(|r| r.as_str()).map(|s| s.to_string());
    let error = v.as_ref().and_then(|v| v.get("error")).and_then(
        |e| match (e.get("code").and_then(|c| c.as_i64()), e.get("message").and_then(|m| m.as_str())) {
            (Some(c), Some(m)) => Some((c, m.to_string())),
            _ => None,
        },
    );
    (result, error)
}

/// What a provider reply says, as plain values: a balance, a reported
/// error, or neither. Text that is not valid JSON counts as neither.
pub enum RpcResult {
    Balance { hex: String },
    Failure { code: i64, message: String },
    Empty,
}

/// The mathematical shape of an `RpcResult`.
pub enum RpcResultModel {
    Balance { hex: Seq<char> },
    Failure { code: int, message: Seq<char> },
    Empty,
}

impl View for RpcResult {
    type V = RpcResultModel;

    open spec fn view(&self) -> RpcResultModel {
        match self {
            RpcResult::Balance { hex } => RpcResultModel::Balance { hex: hex@ },
            RpcResult::Failure { code, message } => RpcResultModel::Failure {
                code: *code as int,
                message: message@,
            },
            RpcResult::Empty => RpcResultModel::Empty,
        }
    }
}

/// How a reply text is read: a present `result` field wins over a present
/// `error` field, and a reply with neither, the empty reply included, says
/// nothing.
pub open spec fn classified_reply(s: Seq<char>) -> RpcResultModel {
    match result_field(s) {
        Some(h) => RpcResultModel::Balance { hex: h },
        None => match error_field(s) {
            Some(e) => RpcResultModel::Failure { code: e.0, message: e.1 },
            None => RpcResultModel::Empty,
        },
    }
}

/// Reads a provider reply. The `result` field, when present, wins over the
/// `error` field; a reply with neither, malformed text included, is empty.
pub fn classify_reply(text: &str) -> (r: RpcResult)
    ensures
        r@ == classified_reply(text@),
{
    let (res, err) = reply_fields(text);
    match res {
        Some(hex) => RpcResult::Balance { hex },
        None => match err {
            Some((code, message)) => RpcResult::Failure { code, message },
            None => RpcResult::Empty,
        },
    }
}

/// The JSON-RPC request body that asks for the latest balance of `addr`:
/// method `eth_getBalance`, parameters the address and the `latest` block
/// tag, request identifier 1.
pub open spec fn balance_request_model(addr: Seq<char>) -> Seq<char> {
    "{\"jsonrpc\":\"2.0\",\"method\":\"eth_getBalance\",\"params\":[\""@ + json_escaped(addr)
        + "\",\"latest\"],\"id\":1}"@
}

/// Builds the JSON-RPC request body that asks for the latest balance of
/// `addr`. The address is escaped, so the body is valid JSON whatever the
/// address holds.
pub fn build_balance_request(addr: &str) -> (r: String)
    ensures
        r@ == balance_request_model(addr@),
{
    let mut out = String::from_str(
        "{\"jsonrpc\":\"2.0\",\"method\":\"eth_getBalance\",\"params\":[\"",
    );
    let escaped = escape_json(addr);
    out.append(escaped.as_str());
    out.append("\",\"latest\"],\"id\":1}");
    out
}

} // verus!
