use vstd::prelude::*;
use vstd::string::StringExecFns;

verus! {

/// The form page: a fixed HTML document whose form posts the address to the
/// balance checker's route.
pub open spec fn index_page() -> Seq<char> {
    "<html>\n    <head>\n        <title>ZkSync Testnet Airdrop Checker</title>\n    </head>\n    <body>\n        <h1>Airdrop Checker</h1>\n        <form action=\"/check_airdrop\" method=\"post\">\n            <label for=\"address\">Ethereum Address:</label>\n            <input type=\"text\" id=\"address\" name=\"address\">\n            <button type=\"submit\">Check Airdrop</button>\n        </form>\n    </body>\n</html>\n"@
}

/// Serves the form page. No parameters, no side effects, no failure modes.
pub fn index() -> (r: String)
    ensures
        r@ == index_page(),
{
    String::from_str(
        "<html>\n    <head>\n        <title>ZkSync Testnet Airdrop Checker</title>\n    </head>\n    <body>\n        <h1>Airdrop Checker</h1>\n        <form action=\"/check_airdrop\" method=\"post\">\n            <label for=\"address\">Ethereum Address:</label>\n            <input type=\"text\" id=\"address\" name=\"address\">\n            <button type=\"submit\">Check Airdrop</button>\n        </form>\n    </body>\n</html>\n",
    )
}

/// One route of the service: an HTTP method and a path.
pub struct Endpoint {
    pub method: String,
    pub path: String,
}

/// The service's routing table: the form page answers `GET` on the root,
/// and the balance checker answers `POST` on its own route, the same route
/// the form page's form posts to.
pub fn rocket() -> (r: Vec<Endpoint>)
    ensures
        r@.len() == 2,
        r@[0].method@ == "GET"@,
        r@[0].path@ == "/"@,
        r@[1].method@ == "POST"@,
        r@[1].path@ == "/check_airdrop"@,
{
    let mut routes: Vec<Endpoint> = Vec::new();
    routes.push(
        Endpoint { method: String::from_str("GET"), path: String::from_str("/") },
    );
    routes.push(
        Endpoint {
            method: String::from_str("POST"),
            path: String::from_str("/check_airdrop"),
        },
    );
    routes
}

/// The page's form posts to the checker's route: the page holds the form's
/// action on the checker's path, so a browser that submits the form reaches
/// the balance checker.
pub proof fn lemma_form_targets_checker()
    ensures
        exists|i: int|
            0 <= i && i + "action=\"/check_airdrop\""@.len() <= index_page().len()
                && #[trigger] index_page().subrange(
                i,
                i + "action=\"/check_airdrop\""@.len() as int,
            ) =~= "action=\"/check_airdrop\""@,
{
    reveal_strlit(
        "<html>\n    <head>\n        <title>ZkSync Testnet Airdrop Checker</title>\n    </head>\n    <body>\n        <h1>Airdrop Checker</h1>\n        <form action=\"/check_airdrop\" method=\"post\">\n            <label for=\"address\">Ethereum Address:</label>\n            <input type=\"text\" id=\"address\" name=\"address\">\n            <button type=\"submit\">Check Airdrop</button>\n        </form>\n    </body>\n</html>\n",
    );
    reveal_strlit("action=\"/check_airdrop\"");
    let needle = "action=\"/check_airdrop\""@;
    let start: int = 142;
    assert(index_page().subrange(start, start + needle.len() as int) =~= needle);
}

} // verus!
