use printavo::error::Error;
use printavo::from_response::{decode_page_orders, decode_payment, FromResponse};
use printavo::orders::{Order, Payment};
use printavo::page::{Page, PageMeta};
use printavo::request::Response;

#[test]
fn decode_error_path_identifies_the_failing_array_element_field() {
    let body = "{\"data\":[{\"id\":\"not-a-number\"}],\"meta\":{\"page\":1,\"per_page\":10,\"total_count\":1,\"total_pages\":1}}";
    match decode_page_orders(body) {
        Err(Error::Json { path, message }) => {
            assert_eq!(path, "data[0].id");
            assert_eq!(message, "expected an unsigned integer");
        }
        _ => panic!("expected a decode error at data[0].id"),
    }
}

#[test]
fn pagination_round_trip_preserves_items_and_meta() {
    let mut body = String::from(
        "{\"meta\":{\"page\":2,\"per_page\":10,\"total_count\":25,\"total_pages\":3},\"data\":[",
    );
    for i in 0..10 {
        if i > 0 {
            body.push(',');
        }
        body.push_str(&format!("{{\"id\":{},\"order_total\":{}.5}}", i + 100, i));
    }
    body.push_str("]}");
    let page: Page<Order> = decode_page_orders(&body).unwrap_or_else(|e| {
        panic!("decode failed: {}", e.describe());
    });
    assert_eq!(
        page.meta,
        PageMeta {
            page: 2,
            per_page: 10,
            total_count: 25,
            total_pages: 3
        }
    );
    let items = page.into_items();
    assert_eq!(items.len(), 10);
    for (i, order) in items.iter().enumerate() {
        assert_eq!(order.id as usize, i + 100);
        assert_eq!(order.order_total, format!("{}.5", i));
    }
}

#[test]
fn decode_rejects_a_body_that_is_not_json() {
    match decode_page_orders("not json") {
        Err(Error::Json { path, .. }) => assert_eq!(path, "."),
        _ => panic!("expected a decode error at the document root"),
    }
}

#[test]
fn decode_reports_a_missing_meta_member() {
    match decode_page_orders("{\"data\":[]}") {
        Err(Error::Json { path, message }) => {
            assert_eq!(path, "meta");
            assert_eq!(message, "missing field");
        }
        _ => panic!("expected a decode error at meta"),
    }
}

#[test]
fn decode_reports_a_per_page_out_of_range() {
    let body =
        "{\"meta\":{\"page\":1,\"per_page\":300,\"total_count\":0,\"total_pages\":0},\"data\":[]}";
    match decode_page_orders(body) {
        Err(Error::Json { path, message }) => {
            assert_eq!(path, "meta.per_page");
            assert_eq!(message, "number out of range");
        }
        _ => panic!("expected a decode error at meta.per_page"),
    }
}

#[test]
fn decode_reports_data_that_is_not_an_array() {
    let body =
        "{\"meta\":{\"page\":1,\"per_page\":10,\"total_count\":0,\"total_pages\":0},\"data\":7}";
    match decode_page_orders(body) {
        Err(Error::Json { path, message }) => {
            assert_eq!(path, "data");
            assert_eq!(message, "expected an array");
        }
        _ => panic!("expected a decode error at data"),
    }
}

#[test]
fn decode_payment_reads_every_field() {
    let body = "{\"id\":5,\"order_id\":77,\"transaction_date\":\"2024-01-02T03:04:05Z\",\"name\":\"cash\",\"amount\":12.5,\"created_at\":\"2024-01-02T03:04:06Z\",\"updated_at\":\"2024-01-02T03:04:07Z\"}";
    let p = decode_payment(body).unwrap_or_else(|e| panic!("decode failed: {}", e.describe()));
    assert_eq!(p.id, 5);
    assert_eq!(p.order_id, 77);
    assert_eq!(p.transaction_date, "2024-01-02T03:04:05Z");
    assert_eq!(p.name, Some("cash".to_string()));
    assert_eq!(p.amount, "12.5");
    assert_eq!(p.created_at, "2024-01-02T03:04:06Z");
    assert_eq!(p.updated_at, "2024-01-02T03:04:07Z");
}

#[test]
fn decode_payment_accepts_a_null_or_absent_name() {
    let body = "{\"id\":5,\"order_id\":77,\"transaction_date\":\"t\",\"name\":null,\"amount\":3,\"created_at\":\"c\",\"updated_at\":\"u\"}";
    let p = decode_payment(body).unwrap_or_else(|e| panic!("decode failed: {}", e.describe()));
    assert_eq!(p.name, None);
    let body = "{\"id\":5,\"order_id\":77,\"transaction_date\":\"t\",\"amount\":3,\"created_at\":\"c\",\"updated_at\":\"u\"}";
    let p = decode_payment(body).unwrap_or_else(|e| panic!("decode failed: {}", e.describe()));
    assert_eq!(p.name, None);
}

#[test]
fn decode_payment_reports_a_missing_amount() {
    let body = "{\"id\":5,\"order_id\":77,\"transaction_date\":\"t\",\"created_at\":\"c\",\"updated_at\":\"u\"}";
    match decode_payment(body) {
        Err(Error::Json { path, message }) => {
            assert_eq!(path, "amount");
            assert_eq!(message, "missing field");
        }
        _ => panic!("expected a decode error at amount"),
    }
}

#[test]
fn from_response_decodes_a_page_and_a_payment() {
    let resp = Response {
        status: 200,
        body: "{\"meta\":{\"page\":1,\"per_page\":2,\"total_count\":1,\"total_pages\":1},\"data\":[{\"id\":9,\"order_total\":80}]}"
        .to_string(),
    };
    let page: Page<Order> = FromResponse::from_response(&resp).unwrap_or_else(|e| {
        panic!("decode failed: {}", e.describe());
    });
    assert_eq!(page.items().len(), 1);
    assert_eq!(page.items()[0].id, 9);
    assert_eq!(page.items()[0].order_total, "80");

    let resp = Response {
        status: 200,
        body: "{\"id\":5,\"order_id\":77,\"transaction_date\":\"t\",\"amount\":3,\"created_at\":\"c\",\"updated_at\":\"u\"}"
        .to_string(),
    };
    let payment: Payment = FromResponse::from_response(&resp).unwrap_or_else(|e| {
        panic!("decode failed: {}", e.describe());
    });
    assert_eq!(payment.id, 5);
}
