use airdrop_checker::page::index;
use airdrop_checker::page::rocket;
use airdrop_checker::rpc::build_balance_request;

#[test]
fn request_body_has_the_fixed_shape() {
    let body = build_balance_request("0xabc");
    assert_eq!(
        body,
        "{\"jsonrpc\":\"2.0\",\"method\":\"eth_getBalance\",\"params\":[\"0xabc\",\"latest\"],\"id\":1}",
    );
}

#[test]
fn request_body_is_json_with_the_given_address() {
    // Cross-check the built body with an independent JSON reader.
    let body = build_balance_request("0x1234567890abcdef");
    let v: serde_json::Value = serde_json::from_str(&body).unwrap();
    assert_eq!(v["jsonrpc"], "2.0");
    assert_eq!(v["method"], "eth_getBalance");
    assert_eq!(v["params"][0], "0x1234567890abcdef");
    assert_eq!(v["params"][1], "latest");
    assert_eq!(v["id"], 1);
}

#[test]
fn request_body_escapes_the_address() {
    let body = build_balance_request("a\"b\\c\nd");
    assert_eq!(
        body,
        "{\"jsonrpc\":\"2.0\",\"method\":\"eth_getBalance\",\"params\":[\"a\\\"b\\\\c\\u000ad\",\"latest\"],\"id\":1}",
    );
    let v: serde_json::Value = serde_json::from_str(&body).unwrap();
    assert_eq!(v["params"][0], "a\"b\\c\nd");
}

#[test]
fn form_page_posts_to_the_checker_route() {
    let page = index();
    assert!(page.contains("<form action=\"/check_airdrop\" method=\"post\">"));
    assert!(page.contains("name=\"address\""));
    assert!(page.contains("<title>ZkSync Testnet Airdrop Checker</title>"));
}

#[test]
fn routing_table_holds_the_two_routes() {
    let routes = rocket();
    assert_eq!(routes.len(), 2);
    assert_eq!(routes[0].method, "GET");
    assert_eq!(routes[0].path, "/");
    assert_eq!(routes[1].method, "POST");
    assert_eq!(routes[1].path, "/check_airdrop");
}
