use airdrop_checker::service::check_airdrop;
use airdrop_checker::THRESHOLD_WEI;
use airdrop_checker::WEI_PER_TOKEN;

fn balance_in_tokens(wei: u64) -> f64 {
    wei as f64 / 1e18
}

const GRANTED: &str = "You are eligible for the airdrop!";
const DENIED: &str = "Unfortunately you are not eligible for the airdrop.";
const UNEXPECTED: &str = "An unexpected error occurred.";

#[test]
fn ten_tokens_grant_eligibility() {
    // 0x8ac7230489e80000 is 10^19 wei, ten whole tokens.
    let out = check_airdrop(Some("{\"result\": \"0x8ac7230489e80000\"}"));
    assert_eq!(out.balance_wei, 10_000_000_000_000_000_000u64);
    assert_eq!(balance_in_tokens(out.balance_wei), 10.0);
    assert_eq!(out.message, GRANTED);
}

#[test]
fn zero_balance_is_denied() {
    let out = check_airdrop(Some("{\"result\": \"0x0\"}"));
    assert_eq!(out.balance_wei, 0);
    assert_eq!(balance_in_tokens(out.balance_wei), 0.0);
    assert_eq!(out.message, DENIED);
}

#[test]
fn provider_error_is_reported_with_code_and_message() {
    let out = check_airdrop(Some(
        "{\"error\": {\"code\": -32000, \"message\": \"invalid address\"}}",
    ));
    assert_eq!(out.balance_wei, 0);
    assert!(out.message.contains("-32000"));
    assert!(out.message.contains("invalid address"));
    assert_eq!(out.message, "Error: code = -32000, message = invalid address");
}

#[test]
fn transport_failure_is_reported() {
    let out = check_airdrop(None);
    assert_eq!(out.message, "API request failed");
    assert_eq!(out.balance_wei, 0);
}

#[test]
fn balance_exactly_at_threshold_is_granted() {
    // 10^17 wei is exactly one tenth of a token: 0x16345785d8a0000.
    let out = check_airdrop(Some("{\"result\": \"0x16345785d8a0000\"}"));
    assert_eq!(out.balance_wei, THRESHOLD_WEI);
    assert_eq!(out.balance_wei, 100_000_000_000_000_000);
    assert!(balance_in_tokens(out.balance_wei) >= 0.1);
    assert_eq!(out.message, GRANTED);
}

#[test]
fn balance_one_wei_below_threshold_is_denied() {
    let out = check_airdrop(Some("{\"result\": \"0x16345785d89ffff\"}"));
    assert_eq!(out.balance_wei, THRESHOLD_WEI - 1);
    assert_eq!(out.message, DENIED);
}

#[test]
fn scale_factor_is_ten_to_the_eighteenth() {
    assert_eq!(WEI_PER_TOKEN, 1_000_000_000_000_000_000);
    assert_eq!(THRESHOLD_WEI * 10, WEI_PER_TOKEN);
}

#[test]
fn reported_balance_is_exact_for_arbitrary_hex() {
    // 0x2386f26fc10000 is 10^16 wei, a hundredth of a token.
    let out = check_airdrop(Some("{\"result\": \"0x2386f26fc10000\"}"));
    assert_eq!(out.balance_wei, 10_000_000_000_000_000);
    assert_eq!(balance_in_tokens(out.balance_wei), 0.01);
    assert_eq!(out.message, DENIED);

    let out = check_airdrop(Some("{\"result\": \"0xde0b6b3a7640000\"}"));
    assert_eq!(out.balance_wei, 1_000_000_000_000_000_000);
    assert_eq!(balance_in_tokens(out.balance_wei), 1.0);
    assert_eq!(out.message, GRANTED);
}

#[test]
fn uppercase_hex_digits_are_read() {
    let out = check_airdrop(Some("{\"result\": \"0xDE0B6B3A7640000\"}"));
    assert_eq!(out.balance_wei, 1_000_000_000_000_000_000);
    assert_eq!(out.message, GRANTED);
}

#[test]
fn reply_with_extra_fields_is_read() {
    // A full JSON-RPC envelope around the result.
    let out = check_airdrop(Some(
        "{\"jsonrpc\": \"2.0\", \"id\": 1, \"result\": \"0x8ac7230489e80000\"}",
    ));
    assert_eq!(out.balance_wei, 10_000_000_000_000_000_000u64);
    assert_eq!(out.message, GRANTED);
}

#[test]
fn result_field_wins_over_error_field() {
    let out = check_airdrop(Some(
        "{\"result\": \"0x0\", \"error\": {\"code\": 1, \"message\": \"ignored\"}}",
    ));
    assert_eq!(out.message, DENIED);
    assert_eq!(out.balance_wei, 0);
}

#[test]
fn empty_reply_object_is_unexpected() {
    let out = check_airdrop(Some("{}"));
    assert_eq!(out.message, UNEXPECTED);
    assert_eq!(out.balance_wei, 0);
}

#[test]
fn malformed_json_is_unexpected() {
    let out = check_airdrop(Some("not json at all"));
    assert_eq!(out.message, UNEXPECTED);
    assert_eq!(out.balance_wei, 0);
}

#[test]
fn balance_without_hex_prefix_is_unexpected() {
    let out = check_airdrop(Some("{\"result\": \"123\"}"));
    assert_eq!(out.message, UNEXPECTED);
    assert_eq!(out.balance_wei, 0);
}

#[test]
fn bare_prefix_without_digits_is_unexpected() {
    let out = check_airdrop(Some("{\"result\": \"0x\"}"));
    assert_eq!(out.message, UNEXPECTED);
    assert_eq!(out.balance_wei, 0);
}

#[test]
fn non_hex_digits_are_unexpected() {
    let out = check_airdrop(Some("{\"result\": \"0x12g4\"}"));
    assert_eq!(out.message, UNEXPECTED);
    assert_eq!(out.balance_wei, 0);
}

#[test]
fn balance_beyond_sixty_four_bits_is_unexpected() {
    // 2^64 wei does not fit the checker's balance type.
    let out = check_airdrop(Some("{\"result\": \"0x10000000000000000\"}"));
    assert_eq!(out.message, UNEXPECTED);
    assert_eq!(out.balance_wei, 0);
}

#[test]
fn error_code_without_message_is_unexpected() {
    let out = check_airdrop(Some("{\"error\": {\"code\": -32000}}"));
    assert_eq!(out.message, UNEXPECTED);
    assert_eq!(out.balance_wei, 0);
}

#[test]
fn positive_error_code_is_formatted() {
    let out = check_airdrop(Some(
        "{\"error\": {\"code\": 3, \"message\": \"execution reverted\"}}",
    ));
    assert_eq!(out.message, "Error: code = 3, message = execution reverted");
    assert_eq!(out.balance_wei, 0);
}
