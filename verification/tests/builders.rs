use printavo::auth::Auth;
use printavo::error::Error;
use printavo::params::Direction;
use printavo::{AuthState, Printavo, PrintavoBuilder, Version};

#[test]
fn a_list_builder_with_no_fields_set_serializes_to_an_empty_bag() {
    let client = Printavo::default();
    let handler = client.orders();
    let builder = handler.list();
    assert!(builder.query_params().is_empty());
}

#[test]
fn a_search_builder_with_no_fields_set_serializes_to_an_empty_bag() {
    let client = Printavo::default();
    let handler = client.orders();
    let builder = handler.search();
    assert!(builder.query_params().is_empty());
}

#[test]
fn set_list_fields_serialize_once_each_in_a_fixed_order() {
    let client = Printavo::default();
    let handler = client.orders();
    let builder = handler
        .list()
        .page(2)
        .per_page(10)
        .sort_column("created_at".to_string())
        .direction(Direction::Descending)
        .in_production_after("2024-01-02T03:04:05.000000000Z".to_string());
    assert_eq!(
        builder.query_params(),
        vec![
            ("page".to_string(), "2".to_string()),
            ("per_page".to_string(), "10".to_string()),
            ("sort_column".to_string(), "created_at".to_string()),
            ("direction".to_string(), "desc".to_string()),
            (
                "in_production_after".to_string(),
                "2024-01-02T03:04:05.000000000Z".to_string()
            ),
        ]
    );
}

#[test]
fn search_fields_serialize_once_each_in_a_fixed_order() {
    let client = Printavo::default();
    let handler = client.orders();
    let builder = handler.search().page(3).query("mug".to_string());
    assert_eq!(
        builder.query_params(),
        vec![
            ("page".to_string(), "3".to_string()),
            ("query".to_string(), "mug".to_string()),
        ]
    );
}

#[test]
fn routes_name_the_version_and_the_order() {
    let client = Printavo::default();
    let handler = client.orders();
    assert_eq!(handler.list().route(), "api/v1/orders");
    assert_eq!(handler.search().route(), "api/v1/orders/search");
    let builder = handler.add_payment(
        77,
        serde_json::Value::from(12.5_f64),
        "2024-01-02T03:04:05Z".to_string(),
    );
    assert_eq!(builder.route(), "api/v1/orders/77/add_payment");
}

#[test]
fn add_payment_body_omits_unset_fields() {
    let client = Printavo::default();
    let handler = client.orders();
    let builder = handler.add_payment(
        77,
        serde_json::Value::from(12.5_f64),
        "2024-01-02T03:04:05Z".to_string(),
    );
    assert_eq!(
        builder.body_text(),
        "{\"book\":{\"amount\":12.5,\"formatted_transaction_date\":\"2024-01-02T03:04:05Z\"}}"
    );
    let builder = handler
        .add_payment(
            77,
            serde_json::Value::from(12.5_f64),
            "2024-01-02T03:04:05Z".to_string(),
        )
        .book_category_id(3)
        .name("cash".to_string())
        .user_generated(true);
    assert_eq!(
        builder.body_text(),
        "{\"book\":{\"amount\":12.5,\"book_category_id\":3,\"formatted_transaction_date\":\"2024-01-02T03:04:05Z\",\"name\":\"cash\",\"user_generated\":true}}"
    );
}

#[test]
fn builder_with_token_auth_resolves_the_credential() {
    let client = PrintavoBuilder::new()
        .token_auth(
            "user@example.com".to_string(),
            "SECRET-REDACTED".to_string(),
        )
        .build()
        .unwrap_or_else(|_| panic!("build cannot fail"));
    match client.auth_state {
        AuthState::TokenAuth { email, token } => {
            assert_eq!(email, "user@example.com");
            assert_eq!(token, "SECRET-REDACTED");
        }
        AuthState::Anonymous => panic!("expected token auth"),
    }
}

#[test]
fn builder_defaults_resolve_to_an_anonymous_v1_client() {
    let client = Printavo::builder()
        .build()
        .unwrap_or_else(|_| panic!("build cannot fail"));
    assert!(matches!(client.auth_state, AuthState::Anonymous));
    assert_eq!(client.base_url.as_str(), "https://www.printavo.com/");
    assert!(matches!(client.version, Version::V1));
    assert!(client.default_headers.is_empty());
}

#[test]
fn builder_base_url_override_is_kept() {
    let client = PrintavoBuilder::new()
        .base_url("https://example.com")
        .unwrap_or_else(|_| panic!("a valid URL parses"))
        .build()
        .unwrap_or_else(|_| panic!("build cannot fail"));
    assert_eq!(client.base_url.as_str(), "https://example.com/");
}

#[test]
fn builder_rejects_an_invalid_base_url() {
    match PrintavoBuilder::new().base_url("not a url") {
        Err(Error::Url { .. }) => {}
        _ => panic!("expected a URL construction error"),
    }
}

#[test]
fn builder_headers_become_the_default_headers() {
    let client = PrintavoBuilder::new()
        .add_header("x-tenant".to_string(), "acme".to_string())
        .build()
        .unwrap_or_else(|_| panic!("build cannot fail"));
    assert_eq!(
        client.default_headers,
        vec![("x-tenant".to_string(), "acme".to_string())]
    );
}

#[test]
fn absolute_url_joins_the_route_onto_the_base() {
    let client = Printavo::default();
    let url = client
        .absolute_url("api/v1/orders")
        .unwrap_or_else(|_| panic!("the route joins"));
    assert_eq!(url.as_str(), "https://www.printavo.com/api/v1/orders");
}

#[test]
fn prepare_get_resolves_the_route_and_keeps_the_parameters() {
    let client = Printavo::default();
    let query = vec![("page".to_string(), "2".to_string())];
    let req = client
        .prepare_get("api/v1/orders", query.clone())
        .unwrap_or_else(|_| panic!("the route joins"));
    assert_eq!(req.url, "https://www.printavo.com/api/v1/orders");
    assert_eq!(req.query, query);
    assert!(req.body.is_none());
}

#[test]
fn prepare_post_carries_the_body() {
    let client = Printavo::default();
    let req = client
        .prepare_post("api/v1/orders/77/add_payment", Some("{}".to_string()))
        .unwrap_or_else(|_| panic!("the route joins"));
    assert_eq!(
        req.url,
        "https://www.printavo.com/api/v1/orders/77/add_payment"
    );
    assert_eq!(req.body, Some("{}".to_string()));
}

#[test]
fn decimal_rendering_handles_zero_and_the_largest_page() {
    let client = Printavo::default();
    let handler = client.orders();
    let builder = handler.list().page(0).per_page(255);
    assert_eq!(
        builder.query_params(),
        vec![
            ("page".to_string(), "0".to_string()),
            ("per_page".to_string(), "255".to_string()),
        ]
    );
    let builder = handler.list().page(u32::MAX);
    assert_eq!(
        builder.query_params(),
        vec![("page".to_string(), "4294967295".to_string())]
    );
}

#[test]
fn defaults_are_anonymous_and_v1() {
    assert!(matches!(Auth::default(), Auth::Anonymous));
    assert!(matches!(Version::default(), Version::V1));
    assert_eq!(Direction::Ascending.query_value(), "asc");
    assert_eq!(Direction::Descending.query_value(), "desc");
}
