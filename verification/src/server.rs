//! What the HTTP server of the juniper schema serves besides the GraphQL
//! endpoint itself: the GraphiQL page.
use vstd::prelude::*;
use crate::configuration::{address_text, ServerSettings};

verus! {

/// The HTML of the GraphiQL page that `juniper::http::graphiql::graphiql_source`
/// builds for a GraphQL endpoint URL and an optional subscriptions endpoint
/// URL.
pub uninterp spec fn graphiql_page(endpoint: Seq<char>, subscriptions: Option<Seq<char>>) -> Seq<char>;

/// The view of an optional string slice.
pub open spec fn opt_view(s: Option<&str>) -> Option<Seq<char>> {
    match s {
        Some(t) => Some(t@),
        None => None,
    }
}

/// `juniper::http::graphiql::graphiql_source`: the HTML of a GraphiQL page
/// that sends its queries to `graphql_endpoint_url` and, where given, its
/// subscriptions to `subscriptions_endpoint_url`. The page is a fixed
/// template with the two URLs filled in; its text is named
/// [`graphiql_page`] and not written out.
#[verifier::external_body]
fn graphiql_source(graphql_endpoint_url: &str, subscriptions_endpoint_url: Option<&str>) -> (r:
    String)
    ensures
        r@ == graphiql_page(graphql_endpoint_url@, opt_view(subscriptions_endpoint_url)),
{
    juniper::http::graphiql::graphiql_source(graphql_endpoint_url, subscriptions_endpoint_url)
}

/// The text of the URL of the GraphQL endpoint: `http://{host}:{port}/graphql`.
pub open spec fn graphql_url_text(host: Seq<char>, port: u16) -> Seq<char> {
    address_text(host, port) + "/graphql"@
}

/// The URL of the GraphQL endpoint of the server.
pub fn graphql_url(server: &ServerSettings) -> (r: String)
    ensures
        r@ == graphql_url_text(server.host@, server.port),
{
    let mut url = server.address();
    url.append("/graphql");
    url
}

/// The GraphiQL page of the server: one that sends its queries to the
/// server's GraphQL endpoint, without subscriptions.
pub fn graphiql(server: &ServerSettings) -> (r: String)
    ensures
        r@ == graphiql_page(graphql_url_text(server.host@, server.port), None),
{
    let url = graphql_url(server);
    graphiql_source(url.as_str(), None)
}

} // verus!
