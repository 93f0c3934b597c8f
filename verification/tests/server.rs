use cocktail_catalogue::configuration::ServerSettings;
use cocktail_catalogue::schema::query::Query;
use cocktail_catalogue::schema::subscription::Subscription;
use cocktail_catalogue::server::{graphiql, graphql_url};

#[test]
fn graphql_url_points_at_the_endpoint() {
    let server = ServerSettings { port: 8080, host: "127.0.0.1".to_string() };
    assert_eq!(graphql_url(&server), "http://127.0.0.1:8080/graphql");
}

#[test]
fn graphiql_page_sends_queries_to_the_endpoint() {
    let server = ServerSettings { port: 8080, host: "127.0.0.1".to_string() };
    let page = graphiql(&server);
    assert!(page.contains("<html>"));
    assert!(page.contains("var GRAPHQL_URL = 'http://127.0.0.1:8080/graphql';"));
    assert!(page.contains("var usingSubscriptions = false;"));
    assert_ne!(page, "http://127.0.0.1:8080/graphql");
}

#[test]
fn schema_api_version_is_package_version() {
    assert_eq!(Query::apiVersion(), "0.1.0");
}

#[test]
fn subscription_yields_nothing() {
    assert_eq!(Subscription::unimplemented(), None);
}
