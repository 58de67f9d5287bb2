//! The index page of the server.

use vstd::prelude::*;

verus! {

pub open spec fn spec_index_page(version: Seq<char>) -> Seq<char> {
    "<!DOCTYPE html>\n<html style=\"background-color:#282c34;color:#abb2bf;text-align:center;\">\n    <head><title>QMG TodoMVC (v"@
        + version
        + ")</title></head>\n    <body>\n        <h1>Quick Microservice GraphQL TodoMVC Server API (<code>v"@
        + version
        + "</code>)</h1>\n        <div>Visit the <a href=\"/api/graphql\" style=\"color:#61afef;\">GraphQL Playground</a></div>\n    </body>\n</html>\n"@
}

/// The index page for the server of version `version`, with a link to the
/// GraphQL playground.
pub fn index_page(version: &str) -> (r: String)
    ensures
        r@ == spec_index_page(version@),
{
    let mut r = String::from_str(
        "<!DOCTYPE html>\n<html style=\"background-color:#282c34;color:#abb2bf;text-align:center;\">\n    <head><title>QMG TodoMVC (v",
    );
    r.append(version);
    r.append(")</title></head>\n    <body>\n        <h1>Quick Microservice GraphQL TodoMVC Server API (<code>v");
    r.append(version);
    r.append(
        "</code>)</h1>\n        <div>Visit the <a href=\"/api/graphql\" style=\"color:#61afef;\">GraphQL Playground</a></div>\n    </body>\n</html>\n",
    );
    r
}

} // verus!
