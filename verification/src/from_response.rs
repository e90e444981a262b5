//! The response decoder: from a completed HTTP response to a typed value,
//! or a decode error carrying the exact path at which decoding failed.
//!
//! The body is parsed as one JSON document; the envelope is then read field
//! by field, and the first field that does not have the expected shape is
//! reported with its dotted/bracketed path (for instance `data[0].id`).

use vstd::prelude::*;

use crate::error::Error;
use crate::error::ErrorModel;
use crate::json::Jv;
use crate::json::json_as_array;
use crate::json::json_as_str;
use crate::json::json_as_u64;
use crate::json::json_get;
use crate::json::json_is_null;
use crate::json::json_is_number;
use crate::json::json_is_object;
use crate::json::json_of;
use crate::json::json_to_text;
use crate::json::parse_json;
use crate::json::parsed_json;
use crate::orders::Order;
use crate::orders::OrderModel;
use crate::orders::Payment;
use crate::orders::PaymentModel;
use crate::page::Page;
use crate::page::PageMeta;
use crate::request::Response;
use crate::text::push_str;
use crate::text::spec_dec;
use crate::text::u64_to_dec;

verus! {

/// A decode failure at the spec level: the path at which decoding failed,
/// and the message.
pub struct Fail {
    pub path: Seq<char>,
    pub message: Seq<char>,
}

/// Reading an unsigned integer of at most `max` out of the field `key`.
pub open spec fn spec_uint_at(m: Map<Seq<char>, Jv>, key: Seq<char>, path: Seq<char>, max: u64) -> Result<
    u64,
    Fail,
> {
    if !m.contains_key(key) {
        Err(Fail { path, message: "missing field"@ })
    } else {
        match m[key] {
            Jv::Num { int_val: Some(n), .. } => if n <= max {
                Ok(n)
            } else {
                Err(Fail { path, message: "number out of range"@ })
            },
            _ => Err(Fail { path, message: "expected an unsigned integer"@ }),
        }
    }
}

/// Reading a number's printed text out of the field `key`.
pub open spec fn spec_number_at(m: Map<Seq<char>, Jv>, key: Seq<char>, path: Seq<char>) -> Result<
    Seq<char>,
    Fail,
> {
    if !m.contains_key(key) {
        Err(Fail { path, message: "missing field"@ })
    } else {
        match m[key] {
            Jv::Num { printed, .. } => Ok(printed),
            _ => Err(Fail { path, message: "expected a number"@ }),
        }
    }
}

/// Reading a string out of the field `key`.
pub open spec fn spec_string_at(m: Map<Seq<char>, Jv>, key: Seq<char>, path: Seq<char>) -> Result<
    Seq<char>,
    Fail,
> {
    if !m.contains_key(key) {
        Err(Fail { path, message: "missing field"@ })
    } else {
        match m[key] {
            Jv::Str(s) => Ok(s),
            _ => Err(Fail { path, message: "expected a string"@ }),
        }
    }
}

/// Reading an optional string out of the field `key`: an absent field and a
/// JSON null both mean "not there".
pub open spec fn spec_opt_string_at(m: Map<Seq<char>, Jv>, key: Seq<char>, path: Seq<char>) -> Result<
    Option<Seq<char>>,
    Fail,
> {
    if !m.contains_key(key) {
        Ok(None)
    } else {
        match m[key] {
            Jv::Null => Ok(None),
            Jv::Str(s) => Ok(Some(s)),
            _ => Err(Fail { path, message: "expected a string or null"@ }),
        }
    }
}

/// Decoding the `meta` member of the envelope.
pub open spec fn spec_decode_meta(j: Jv) -> Result<PageMeta, Fail> {
    match j {
        Jv::Obj(m) => match spec_uint_at(m, "page"@, "meta.page"@, u32::MAX as u64) {
            Err(e) => Err(e),
            Ok(page) => match spec_uint_at(m, "per_page"@, "meta.per_page"@, u8::MAX as u64) {
                Err(e) => Err(e),
                Ok(per_page) => match spec_uint_at(
                    m,
                    "total_count"@,
                    "meta.total_count"@,
                    u32::MAX as u64,
                ) {
                    Err(e) => Err(e),
                    Ok(total_count) => match spec_uint_at(
                        m,
                        "total_pages"@,
                        "meta.total_pages"@,
                        u32::MAX as u64,
                    ) {
                        Err(e) => Err(e),
                        Ok(total_pages) => Ok(
                            PageMeta {
                                page: page as u32,
                                per_page: per_page as u8,
                                total_count: total_count as u32,
                                total_pages: total_pages as u32,
                            },
                        ),
                    },
                },
            },
        },
        _ => Err(Fail { path: "meta"@, message: "expected an object"@ }),
    }
}

/// The path of a field of the order at index `idx` of the `data` array.
pub open spec fn spec_order_path(idx: nat, field: Seq<char>) -> Seq<char> {
    "data["@ + spec_dec(idx) + "]."@ + field
}

/// Decoding one order out of the `data` array.
pub open spec fn spec_decode_order(j: Jv, idx: nat) -> Result<OrderModel, Fail> {
    match j {
        Jv::Obj(m) => match spec_uint_at(m, "id"@, spec_order_path(idx, "id"@), u32::MAX as u64) {
            Err(e) => Err(e),
            Ok(id) => match spec_number_at(m, "order_total"@, spec_order_path(idx, "order_total"@)) {
                Err(e) => Err(e),
                Ok(total) => Ok(OrderModel { id: id as u32, order_total: total }),
            },
        },
        _ => Err(
            Fail { path: "data["@ + spec_dec(idx) + "]"@, message: "expected an object"@ },
        ),
    }
}

/// Decoding the orders of the `data` array from index `i` on: the first
/// failure wins, else every order in server order.
pub open spec fn spec_decode_orders_from(items: Seq<Jv>, i: int) -> Result<Seq<OrderModel>, Fail>
    decreases items.len() - i,
{
    if i < 0 || i >= items.len() {
        Ok(Seq::empty())
    } else {
        match spec_decode_order(items[i], i as nat) {
            Err(e) => Err(e),
            Ok(o) => match spec_decode_orders_from(items, i + 1) {
                Err(e) => Err(e),
                Ok(rest) => Ok(seq![o] + rest),
            },
        }
    }
}

/// Decoding a whole page of orders out of a parsed document.
pub open spec fn spec_decode_page_orders(j: Jv) -> Result<
    (PageMeta, Seq<OrderModel>),
    Fail,
> {
    match j {
        Jv::Obj(m) => if !m.contains_key("meta"@) {
            Err(Fail { path: "meta"@, message: "missing field"@ })
        } else {
            match spec_decode_meta(m["meta"@]) {
                Err(e) => Err(e),
                Ok(meta) => if !m.contains_key("data"@) {
                    Err(Fail { path: "data"@, message: "missing field"@ })
                } else {
                    match m["data"@] {
                        Jv::Arr(items) => match spec_decode_orders_from(items, 0) {
                            Err(e) => Err(e),
                            Ok(orders) => Ok((meta, orders)),
                        },
                        _ => Err(Fail { path: "data"@, message: "expected an array"@ }),
                    }
                },
            }
        },
        _ => Err(Fail { path: "."@, message: "expected an object"@ }),
    }
}

/// Decoding a payment out of a parsed document.
pub open spec fn spec_decode_payment(j: Jv) -> Result<PaymentModel, Fail> {
    match j {
        Jv::Obj(m) => match spec_uint_at(m, "id"@, "id"@, u32::MAX as u64) {
            Err(e) => Err(e),
            Ok(id) => match spec_uint_at(m, "order_id"@, "order_id"@, u32::MAX as u64) {
                Err(e) => Err(e),
                Ok(order_id) => match spec_string_at(m, "transaction_date"@, "transaction_date"@) {
                    Err(e) => Err(e),
                    Ok(transaction_date) => match spec_opt_string_at(m, "name"@, "name"@) {
                        Err(e) => Err(e),
                        Ok(name) => match spec_number_at(m, "amount"@, "amount"@) {
                            Err(e) => Err(e),
                            Ok(amount) => match spec_string_at(m, "created_at"@, "created_at"@) {
                                Err(e) => Err(e),
                                Ok(created_at) => match spec_string_at(
                                    m,
                                    "updated_at"@,
                                    "updated_at"@,
                                ) {
                                    Err(e) => Err(e),
                                    Ok(updated_at) => Ok(
                                        PaymentModel {
                                            id: id as u32,
                                            order_id: order_id as u32,
                                            transaction_date,
                                            name,
                                            amount,
                                            created_at,
                                            updated_at,
                                        },
                                    ),
                                },
                            },
                        },
                    },
                },
            },
        },
        _ => Err(Fail { path: "."@, message: "expected an object"@ }),
    }
}

fn fail(path: String, message: &str) -> (e: Error)
    ensures
        e@ == (ErrorModel::Json { path: path@, message: message@ }),
{
    Error::Json { path, message: message.to_owned() }
}

fn uint_field(v: &serde_json::Value, key: &str, path: String, max: u64) -> (r: Result<u64, Error>)
    requires
        json_of(*v) is Obj,
    ensures
        match spec_uint_at(json_of(*v)->Obj_0, key@, path@, max) {
            Ok(n) => r matches Ok(g) && g == n,
            Err(f) => r matches Err(e) && e@ == (ErrorModel::Json {
                path: f.path,
                message: f.message,
            }),
        },
{
    match json_get(v, key) {
        None => Err(fail(path, "missing field")),
        Some(f) => match json_as_u64(f) {
            None => Err(fail(path, "expected an unsigned integer")),
            Some(n) => if n <= max {
                Ok(n)
            } else {
                Err(fail(path, "number out of range"))
            },
        },
    }
}

fn number_field(v: &serde_json::Value, key: &str, path: String) -> (r: Result<String, Error>)
    requires
        json_of(*v) is Obj,
    ensures
        match spec_number_at(json_of(*v)->Obj_0, key@, path@) {
            Ok(t) => r matches Ok(s) && s@ == t,
            Err(f) => r matches Err(e) && e@ == (ErrorModel::Json {
                path: f.path,
                message: f.message,
            }),
        },
{
    match json_get(v, key) {
        None => Err(fail(path, "missing field")),
        Some(f) => if json_is_number(f) {
            Ok(json_to_text(f))
        } else {
            Err(fail(path, "expected a number"))
        },
    }
}

fn string_field(v: &serde_json::Value, key: &str, path: String) -> (r: Result<String, Error>)
    requires
        json_of(*v) is Obj,
    ensures
        match spec_string_at(json_of(*v)->Obj_0, key@, path@) {
            Ok(t) => r matches Ok(s) && s@ == t,
            Err(f) => r matches Err(e) && e@ == (ErrorModel::Json {
                path: f.path,
                message: f.message,
            }),
        },
{
    match json_get(v, key) {
        None => Err(fail(path, "missing field")),
        Some(f) => match json_as_str(f) {
            Some(s) => Ok(s.to_owned()),
            None => Err(fail(path, "expected a string")),
        },
    }
}

fn opt_string_field(v: &serde_json::Value, key: &str, path: String) -> (r: Result<
    Option<String>,
    Error,
>)
    requires
        json_of(*v) is Obj,
    ensures
        match spec_opt_string_at(json_of(*v)->Obj_0, key@, path@) {
            Ok(t) => r matches Ok(s) && crate::request::opt_model(s) == t,
            Err(f) => r matches Err(e) && e@ == (ErrorModel::Json {
                path: f.path,
                message: f.message,
            }),
        },
{
    match json_get(v, key) {
        None => Ok(None),
        Some(f) => if json_is_null(f) {
            Ok(None)
        } else {
            match json_as_str(f) {
                Some(s) => Ok(Some(s.to_owned())),
                None => Err(fail(path, "expected a string or null")),
            }
        },
    }
}

fn decode_meta(v: &serde_json::Value) -> (r: Result<PageMeta, Error>)
    ensures
        match spec_decode_meta(json_of(*v)) {
            Ok(meta) => r matches Ok(m) && m == meta,
            Err(f) => r matches Err(e) && e@ == (ErrorModel::Json {
                path: f.path,
                message: f.message,
            }),
        },
{
    if !json_is_object(v) {
        return Err(fail("meta".to_owned(), "expected an object"));
    }
    let page = match uint_field(v, "page", "meta.page".to_owned(), 4294967295u64) {
        Ok(n) => n,
        Err(e) => return Err(e),
    };
    let per_page = match uint_field(v, "per_page", "meta.per_page".to_owned(), 255u64) {
        Ok(n) => n,
        Err(e) => return Err(e),
    };
    let total_count = match uint_field(v, "total_count", "meta.total_count".to_owned(), 4294967295u64) {
        Ok(n) => n,
        Err(e) => return Err(e),
    };
    let total_pages = match uint_field(v, "total_pages", "meta.total_pages".to_owned(), 4294967295u64) {
        Ok(n) => n,
        Err(e) => return Err(e),
    };
    Ok(
        PageMeta {
            page: page as u32,
            per_page: per_page as u8,
            total_count: total_count as u32,
            total_pages: total_pages as u32,
        },
    )
}

fn order_field_path(idx: u64, field: &str) -> (s: String)
    ensures
        s@ == spec_order_path(idx as nat, field@),
{
    let mut s = String::new();
    push_str(&mut s, "data[");
    let n = u64_to_dec(idx);
    push_str(&mut s, n.as_str());
    push_str(&mut s, "].");
    push_str(&mut s, field);
    proof {
        assert(s@ =~= spec_order_path(idx as nat, field@));
    }
    s
}

fn decode_order(v: &serde_json::Value, idx: u64) -> (r: Result<Order, Error>)
    ensures
        match spec_decode_order(json_of(*v), idx as nat) {
            Ok(o) => r matches Ok(g) && g@ == o,
            Err(f) => r matches Err(e) && e@ == (ErrorModel::Json {
                path: f.path,
                message: f.message,
            }),
        },
{
    if !json_is_object(v) {
        let mut p = String::new();
        push_str(&mut p, "data[");
        let n = u64_to_dec(idx);
        push_str(&mut p, n.as_str());
        push_str(&mut p, "]");
        proof {
            assert(p@ =~= "data["@ + spec_dec(idx as nat) + "]"@);
        }
        return Err(fail(p, "expected an object"));
    }
    let id = match uint_field(v, "id", order_field_path(idx, "id"), 4294967295u64) {
        Ok(n) => n,
        Err(e) => return Err(e),
    };
    let total = match number_field(v, "order_total", order_field_path(idx, "order_total")) {
        Ok(t) => t,
        Err(e) => return Err(e),
    };
    Ok(Order { id: id as u32, order_total: total })
}

fn decode_orders_from(
    arr: &Vec<serde_json::Value>,
    i: usize,
    Ghost(items): Ghost<Seq<Jv>>,
) -> (r: Result<Vec<Order>, Error>)
    requires
        arr@.len() == items.len(),
        forall|k: int| 0 <= k < items.len() ==> json_of(arr@[k]) == items[k],
        i <= arr@.len(),
    ensures
        match spec_decode_orders_from(items, i as int) {
            Ok(os) => r matches Ok(v) && v@.len() == os.len() && (forall|k: int|
                0 <= k < os.len() ==> v@[k]@ == os[k]),
            Err(f) => r matches Err(e) && e@ == (ErrorModel::Json {
                path: f.path,
                message: f.message,
            }),
        },
    decreases arr@.len() - i,
{
    if i == arr.len() {
        Ok(Vec::new())
    } else {
        match decode_order(&arr[i], i as u64) {
            Err(e) => Err(e),
            Ok(o) => match decode_orders_from(arr, i + 1, Ghost(items)) {
                Err(e) => Err(e),
                Ok(mut rest) => {
                    rest.insert(0, o);
                    proof {
                        let os = spec_decode_orders_from(items, i as int)->Ok_0;
                        let tail = spec_decode_orders_from(items, i + 1)->Ok_0;
                        assert(os =~= seq![spec_decode_order(items[i as int], i as nat)->Ok_0]
                            + tail);
                    }
                    Ok(rest)
                },
            },
        }
    }
}

/// Decode one page of orders out of a response body.  On success the page's
/// metadata and items are exactly what the document holds, in server order;
/// on failure the error carries the exact path at which decoding failed.
pub fn decode_page_orders(body: &str) -> (r: Result<Page<Order>, Error>)
    ensures
        parsed_json(body@) is None ==> (r matches Err(e) && e@ matches ErrorModel::Json {
            path,
            message,
        } && path == "."@),
        parsed_json(body@) matches Some(j) ==> match spec_decode_page_orders(j) {
            Ok(pm) => r matches Ok(p) && p.meta == pm.0 && p.data@.len() == pm.1.len() && (
            forall|k: int| 0 <= k < pm.1.len() ==> p.data@[k]@ == pm.1[k]),
            Err(f) => r matches Err(e) && e@ == (ErrorModel::Json {
                path: f.path,
                message: f.message,
            }),
        },
{
    let v = match parse_json(body) {
        Ok(v) => v,
        Err(message) => return Err(Error::Json { path: ".".to_owned(), message }),
    };
    if !json_is_object(&v) {
        return Err(fail(".".to_owned(), "expected an object"));
    }
    let meta_v = match json_get(&v, "meta") {
        Some(mv) => mv,
        None => return Err(fail("meta".to_owned(), "missing field")),
    };
    let meta = match decode_meta(meta_v) {
        Ok(m) => m,
        Err(e) => return Err(e),
    };
    let data_v = match json_get(&v, "data") {
        Some(dv) => dv,
        None => return Err(fail("data".to_owned(), "missing field")),
    };
    let arr = match json_as_array(data_v) {
        Some(a) => a,
        None => return Err(fail("data".to_owned(), "expected an array")),
    };
    let ghost items = json_of(*data_v)->Arr_0;
    let data = match decode_orders_from(arr, 0, Ghost(items)) {
        Ok(d) => d,
        Err(e) => return Err(e),
    };
    Ok(Page { meta, data })
}

/// Decode one payment out of a response body.  On success every field is
/// exactly what the document holds; on failure the error carries the exact
/// path at which decoding failed.
pub fn decode_payment(body: &str) -> (r: Result<Payment, Error>)
    ensures
        parsed_json(body@) is None ==> (r matches Err(e) && e@ matches ErrorModel::Json {
            path,
            message,
        } && path == "."@),
        parsed_json(body@) matches Some(j) ==> match spec_decode_payment(j) {
            Ok(pm) => r matches Ok(p) && p@ == pm,
            Err(f) => r matches Err(e) && e@ == (ErrorModel::Json {
                path: f.path,
                message: f.message,
            }),
        },
{
    let v = match parse_json(body) {
        Ok(v) => v,
        Err(message) => return Err(Error::Json { path: ".".to_owned(), message }),
    };
    if !json_is_object(&v) {
        return Err(fail(".".to_owned(), "expected an object"));
    }
    let id = match uint_field(&v, "id", "id".to_owned(), 4294967295u64) {
        Ok(n) => n,
        Err(e) => return Err(e),
    };
    let order_id = match uint_field(&v, "order_id", "order_id".to_owned(), 4294967295u64) {
        Ok(n) => n,
        Err(e) => return Err(e),
    };
    let transaction_date = match string_field(&v, "transaction_date", "transaction_date".to_owned()) {
        Ok(s) => s,
        Err(e) => return Err(e),
    };
    let name = match opt_string_field(&v, "name", "name".to_owned()) {
        Ok(s) => s,
        Err(e) => return Err(e),
    };
    let amount = match number_field(&v, "amount", "amount".to_owned()) {
        Ok(s) => s,
        Err(e) => return Err(e),
    };
    let created_at = match string_field(&v, "created_at", "created_at".to_owned()) {
        Ok(s) => s,
        Err(e) => return Err(e),
    };
    let updated_at = match string_field(&v, "updated_at", "updated_at".to_owned()) {
        Ok(s) => s,
        Err(e) => return Err(e),
    };
    Ok(
        Payment {
            id: id as u32,
            order_id: order_id as u32,
            transaction_date,
            name,
            amount,
            created_at,
            updated_at,
        },
    )
}

/// A type that can be decoded from a completed HTTP response.
pub trait FromResponse: Sized {
    /// Decode the response body into `Self`, or report a decode error with
    /// the exact path inside the document at which decoding failed.
    fn from_response(response: &Response) -> Result<Self, Error>;
}

impl FromResponse for Page<Order> {
    fn from_response(response: &Response) -> Result<Self, Error> {
        decode_page_orders(response.body.as_str())
    }
}

impl FromResponse for Payment {
    fn from_response(response: &Response) -> Result<Self, Error> {
        decode_payment(response.body.as_str())
    }
}

} // verus!
