use vstd::prelude::*;
use vstd::string::StringExecFns;

use crate::hex::parse_hex_wei;
use crate::hex::parsed_wei;
use crate::decimal::dec_int;
use crate::decimal::i64_to_dec;
use crate::rpc::classified_reply;
use crate::rpc::classify_reply;
use crate::rpc::RpcResult;
use crate::rpc::RpcResultModel;
use crate::THRESHOLD_WEI;
use crate::WEI_PER_TOKEN;
use crate::is_eligible;

verus! {

/// What the checker hands back: a human-readable message and the balance
/// that was determined, in wei. Zero wei when no balance was determined.
/// The caller reports the balance in whole token units as this wei count
/// divided by the scale factor of 10^18, and never computes it another way.
pub struct AirdropOutcome {
    pub message: String,
    pub balance_wei: u64,
}

/// The mathematical shape of an `AirdropOutcome`.
pub struct OutcomeModel {
    pub message: Seq<char>,
    pub balance_wei: u64,
}

impl View for AirdropOutcome {
    type V = OutcomeModel;

    open spec fn view(&self) -> OutcomeModel {
        OutcomeModel { message: self.message@, balance_wei: self.balance_wei }
    }
}

pub open spec fn granted_message() -> Seq<char> {
    "You are eligible for the airdrop!"@
}

pub open spec fn denied_message() -> Seq<char> {
    "Unfortunately you are not eligible for the airdrop."@
}

pub open spec fn unexpected_message() -> Seq<char> {
    "An unexpected error occurred."@
}

pub open spec fn transport_failed_message() -> Seq<char> {
    "API request failed"@
}

/// The message that reports a provider error, carrying its code and text.
pub open spec fn rpc_error_message(code: int, message: Seq<char>) -> Seq<char> {
    "Error: code = "@ + dec_int(code) + ", message = "@ + message
}

/// The outcome for a determined balance: the granted message exactly when
/// the balance reaches the threshold, and the balance itself in wei.
pub open spec fn balance_outcome(wei: u64) -> OutcomeModel {
    OutcomeModel {
        message: if wei >= THRESHOLD_WEI {
            granted_message()
        } else {
            denied_message()
        },
        balance_wei: wei,
    }
}

/// The outcome with no determined balance and the given message.
pub open spec fn failed_outcome(message: Seq<char>) -> OutcomeModel {
    OutcomeModel { message, balance_wei: 0 }
}

/// The outcome a classified reply produces. A balance string of another
/// shape than `0x` plus hexadecimal digits, or one whose value does not fit
/// in sixty-four bits, degrades to the unexpected-error outcome.
pub open spec fn reply_outcome(m: RpcResultModel) -> OutcomeModel {
    match m {
        RpcResultModel::Balance { hex } => match parsed_wei(hex) {
            Some(n) => if n <= u64::MAX {
                balance_outcome(n as u64)
            } else {
                failed_outcome(unexpected_message())
            },
            None => failed_outcome(unexpected_message()),
        },
        RpcResultModel::Failure { code, message } => failed_outcome(
            rpc_error_message(code, message),
        ),
        RpcResultModel::Empty => failed_outcome(unexpected_message()),
    }
}

/// The view of the checker's input: the reply text when the transport
/// delivered one, nothing when it failed.
pub open spec fn reply_view(reply: Option<&str>) -> Option<Seq<char>> {
    match reply {
        Some(t) => Some(t@),
        None => None,
    }
}

/// The outcome of one whole balance check, as a function of what the
/// transport delivered.
pub open spec fn checked_outcome(reply: Option<Seq<char>>) -> OutcomeModel {
    match reply {
        Some(s) => reply_outcome(classified_reply(s)),
        None => failed_outcome(transport_failed_message()),
    }
}

fn unexpected_outcome() -> (out: AirdropOutcome)
    ensures
        out@ == failed_outcome(unexpected_message()),
{
    AirdropOutcome { message: String::from_str("An unexpected error occurred."), balance_wei: 0 }
}

/// Turns a classified provider reply into the outcome reported to the user.
pub fn outcome_for(r: &RpcResult) -> (out: AirdropOutcome)
    ensures
        out@ == reply_outcome(r@),
{
    match r {
        RpcResult::Balance { hex } => match parse_hex_wei(hex.as_str()) {
            Some(wei) => {
                let message = if is_eligible(wei) {
                    String::from_str("You are eligible for the airdrop!")
                } else {
                    String::from_str("Unfortunately you are not eligible for the airdrop.")
                };
                AirdropOutcome { message, balance_wei: wei }
            },
            None => unexpected_outcome(),
        },
        RpcResult::Failure { code, message } => {
            let mut m = String::from_str("Error: code = ");
            let code_digits = i64_to_dec(*code);
            m.append(code_digits.as_str());
            m.append(", message = ");
            m.append(message.as_str());
            AirdropOutcome { message: m, balance_wei: 0 }
        },
        RpcResult::Empty => unexpected_outcome(),
    }
}

/// One whole balance check, from what the transport delivered to the
/// outcome reported to the user: `None` stands for a transport failure and
/// yields the request-failed outcome; a delivered reply text is read and
/// interpreted. Every input yields a populated outcome; nothing panics.
pub fn check_airdrop(reply: Option<&str>) -> (out: AirdropOutcome)
    ensures
        out@ == checked_outcome(reply_view(reply)),
{
    match reply {
        Some(text) => {
            let classified = classify_reply(text);
            outcome_for(&classified)
        },
        None => AirdropOutcome {
            message: String::from_str("API request failed"),
            balance_wei: 0,
        },
    }
}

/// For every reply that reports a balance written as `0x` plus hexadecimal
/// digits of value `n`, with `n` within sixty-four bits, the reported
/// balance is exactly `n` wei: `n / 10^18` whole token units, never a value
/// computed another way.
pub proof fn lemma_reported_balance_exact(hex: Seq<char>, n: nat)
    requires
        parsed_wei(hex) == Some(n),
        n <= u64::MAX,
    ensures
        reply_outcome(RpcResultModel::Balance { hex }).balance_wei == n,
{
}

/// The checker never leaves an outcome unpopulated: whatever the transport
/// delivered, the message has text in it.
pub proof fn lemma_outcome_always_populated(reply: Option<Seq<char>>)
    ensures
        checked_outcome(reply).message.len() > 0,
{
    reveal_strlit("You are eligible for the airdrop!");
    reveal_strlit("Unfortunately you are not eligible for the airdrop.");
    reveal_strlit("An unexpected error occurred.");
    reveal_strlit("API request failed");
    reveal_strlit("Error: code = ");
    if let Some(s) = reply {
        if let RpcResultModel::Failure { code, message } = classified_reply(s) {
            assert(rpc_error_message(code, message).len() >= "Error: code = "@.len());
        }
    }
}

/// The eligibility boundary is inclusive: a balance of at least one tenth
/// of a token, that is `10 * n >= 10^18` wei, yields the granted message,
/// and any balance below it the denied message.
pub proof fn lemma_threshold_inclusive(hex: Seq<char>, n: nat)
    requires
        parsed_wei(hex) == Some(n),
        n <= u64::MAX,
    ensures
        10 * THRESHOLD_WEI == WEI_PER_TOKEN,
        10 * n >= WEI_PER_TOKEN ==> reply_outcome(RpcResultModel::Balance { hex }).message
            == granted_message(),
        10 * n < WEI_PER_TOKEN ==> reply_outcome(RpcResultModel::Balance { hex }).message
            == denied_message(),
{
}

} // verus!
