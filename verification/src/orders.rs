//! Handler and fluent builders for Printavo's orders API.
//!
//! Each builder accumulates optional parameters; a field left unset is
//! omitted from the outgoing parameter bag entirely — never serialized as
//! null or empty.  The builders produce a route and a parameter bag (or a
//! JSON body); sending them is the transport shell's job.

use vstd::prelude::*;

use crate::Printavo;
use crate::json::Jv;
use crate::json::clone_value;
use crate::json::json_bool;
use crate::json::json_map_insert;
use crate::json::json_map_new;
use crate::json::json_object;
use crate::json::json_of;
use crate::json::json_string;
use crate::json::json_text;
use crate::json::json_to_text;
use crate::json::json_u32;
use crate::params::Direction;
use crate::text::push_str;
use crate::text::spec_dec;
use crate::text::u64_to_dec;

verus! {

/// One order, as the list and search endpoints return it.  The order total
/// is kept as the decimal text of the JSON number the server sent.
pub struct Order {
    pub id: u32,
    pub order_total: String,
}

/// Mathematical model of an order.
pub struct OrderModel {
    pub id: u32,
    pub order_total: Seq<char>,
}

impl View for Order {
    type V = OrderModel;

    open spec fn view(&self) -> OrderModel {
        OrderModel { id: self.id, order_total: self.order_total@ }
    }
}

/// One payment, as the add-payment endpoint returns it.  Timestamps are
/// kept as the ISO-8601 text the server sent; the amount is kept as the
/// decimal text of the JSON number.
pub struct Payment {
    pub id: u32,
    pub order_id: u32,
    pub transaction_date: String,
    pub name: Option<String>,
    pub amount: String,
    pub created_at: String,
    pub updated_at: String,
}

/// Mathematical model of a payment.
pub struct PaymentModel {
    pub id: u32,
    pub order_id: u32,
    pub transaction_date: Seq<char>,
    pub name: Option<Seq<char>>,
    pub amount: Seq<char>,
    pub created_at: Seq<char>,
    pub updated_at: Seq<char>,
}

impl View for Payment {
    type V = PaymentModel;

    open spec fn view(&self) -> PaymentModel {
        PaymentModel {
            id: self.id,
            order_id: self.order_id,
            transaction_date: self.transaction_date@,
            name: crate::request::opt_model(self.name),
            amount: self.amount@,
            created_at: self.created_at@,
            updated_at: self.updated_at@,
        }
    }
}

/// Handler for Printavo's orders API, created with [`Printavo::orders`].
pub struct OrdersHandler<'p> {
    pub printavo: &'p Printavo,
}

impl<'p> OrdersHandler<'p> {
    pub(crate) fn new(printavo: &'p Printavo) -> (h: Self)
        ensures
            h.printavo == printavo,
    {
        OrdersHandler { printavo }
    }

    /// A builder for the list endpoint, with every parameter unset.
    pub fn list(&self) -> (b: ListOrdersBuilder<'p, '_>)
        ensures
            b.handler == self,
            b.page is None,
            b.per_page is None,
            b.sort_column is None,
            b.direction is None,
            b.in_production_after is None,
            b.in_production_before is None,
    {
        ListOrdersBuilder {
            handler: self,
            page: None,
            per_page: None,
            sort_column: None,
            direction: None,
            in_production_after: None,
            in_production_before: None,
        }
    }

    /// A builder for the search endpoint, with every parameter unset.
    pub fn search(&self) -> (b: SearchOrdersBuilder<'p, '_>)
        ensures
            b.handler == self,
            b.page is None,
            b.per_page is None,
            b.query is None,
    {
        SearchOrdersBuilder { handler: self, page: None, per_page: None, query: None }
    }

    /// A builder for the add-payment endpoint.  The amount is a JSON number
    /// value; the transaction date is already-formatted text.
    pub fn add_payment(
        &self,
        id: u32,
        amount: serde_json::Value,
        formatted_transaction_date: String,
    ) -> (b: AddPaymentToOrderBuilder<'p, '_>)
        ensures
            b.handler == self,
            b.id == id,
            json_of(b.book.amount) == json_of(amount),
            b.book.formatted_transaction_date@ == formatted_transaction_date@,
            b.book.book_category_id is None,
            b.book.name is None,
            b.book.user_generated is None,
    {
        AddPaymentToOrderBuilder {
            handler: self,
            id,
            book: AddPaymentBook::new(amount, formatted_transaction_date),
        }
    }
}

/// An optional query parameter: one pair when the value is set, nothing at
/// all when it is unset.
pub open spec fn spec_opt_param(key: Seq<char>, value: Option<Seq<char>>) -> Seq<
    (Seq<char>, Seq<char>),
> {
    match value {
        Some(v) => seq![(key, v)],
        None => Seq::empty(),
    }
}

/// Fluent parameter collector for the list endpoint.
pub struct ListOrdersBuilder<'p, 'b> {
    pub handler: &'b OrdersHandler<'p>,
    pub page: Option<u32>,
    pub per_page: Option<u8>,
    pub sort_column: Option<String>,
    pub direction: Option<Direction>,
    pub in_production_after: Option<String>,
    pub in_production_before: Option<String>,
}

impl<'p, 'b> ListOrdersBuilder<'p, 'b> {
    /// The parameter bag this builder serializes to: set fields in a fixed
    /// order, unset fields omitted entirely.
    pub open spec fn spec_query_params(self) -> Seq<(Seq<char>, Seq<char>)> {
        spec_opt_param(
            "page"@,
            match self.page {
                Some(p) => Some(spec_dec(p as nat)),
                None => None,
            },
        ) + spec_opt_param(
            "per_page"@,
            match self.per_page {
                Some(p) => Some(spec_dec(p as nat)),
                None => None,
            },
        ) + spec_opt_param(
            "sort_column"@,
            match self.sort_column {
                Some(s) => Some(s@),
                None => None,
            },
        ) + spec_opt_param(
            "direction"@,
            match self.direction {
                Some(d) => Some(d.spec_query_value()),
                None => None,
            },
        ) + spec_opt_param(
            "in_production_after"@,
            match self.in_production_after {
                Some(s) => Some(s@),
                None => None,
            },
        ) + spec_opt_param(
            "in_production_before"@,
            match self.in_production_before {
                Some(s) => Some(s@),
                None => None,
            },
        )
    }

    pub fn page(self, page: u32) -> (b: Self)
        ensures
            b == (Self { page: Some(page), ..self }),
    {
        Self { page: Some(page), ..self }
    }

    pub fn per_page(self, per_page: u8) -> (b: Self)
        ensures
            b == (Self { per_page: Some(per_page), ..self }),
    {
        Self { per_page: Some(per_page), ..self }
    }

    pub fn sort_column(self, sort_column: String) -> (b: Self)
        ensures
            b == (Self { sort_column: Some(sort_column), ..self }),
    {
        Self { sort_column: Some(sort_column), ..self }
    }

    pub fn direction(self, direction: Direction) -> (b: Self)
        ensures
            b == (Self { direction: Some(direction), ..self }),
    {
        Self { direction: Some(direction), ..self }
    }

    /// The lower in-production bound, as extended ISO-8601 text.
    pub fn in_production_after(self, in_production_after: String) -> (b: Self)
        ensures
            b == (Self { in_production_after: Some(in_production_after), ..self }),
    {
        Self { in_production_after: Some(in_production_after), ..self }
    }

    /// The upper in-production bound, as extended ISO-8601 text.
    pub fn in_production_before(self, in_production_before: String) -> (b: Self)
        ensures
            b == (Self { in_production_before: Some(in_production_before), ..self }),
    {
        Self { in_production_before: Some(in_production_before), ..self }
    }

    /// The route of the list endpoint under this client's API version.
    pub fn route(&self) -> (s: String)
        ensures
            s@ == "api/"@ + self.handler.printavo.version.spec_path_segment() + "/orders"@,
    {
        let mut s = String::new();
        push_str(&mut s, "api/");
        push_str(&mut s, self.handler.printavo.version.path_segment());
        push_str(&mut s, "/orders");
        s
    }

    /// The accumulated parameter bag: every set field exactly once, in a
    /// fixed order; no entry at all for an unset field.
    pub fn query_params(&self) -> (q: Vec<(String, String)>)
        ensures
            crate::request::pairs_model(q@) == self.spec_query_params(),
            self.page is None && self.per_page is None && self.sort_column is None
                && self.direction is None && self.in_production_after is None
                && self.in_production_before is None ==> q@.len() == 0,
    {
        let mut q: Vec<(String, String)> = Vec::new();
        if let Some(p) = self.page {
            q.push(("page".to_owned(), u64_to_dec(p as u64)));
        }
        if let Some(p) = self.per_page {
            q.push(("per_page".to_owned(), u64_to_dec(p as u64)));
        }
        if let Some(s) = &self.sort_column {
            q.push(("sort_column".to_owned(), s.clone()));
        }
        if let Some(d) = &self.direction {
            q.push(("direction".to_owned(), d.query_value().to_owned()));
        }
        if let Some(s) = &self.in_production_after {
            q.push(("in_production_after".to_owned(), s.clone()));
        }
        if let Some(s) = &self.in_production_before {
            q.push(("in_production_before".to_owned(), s.clone()));
        }
        proof {
            assert(crate::request::pairs_model(q@) =~= self.spec_query_params());
        }
        q
    }
}

/// Fluent parameter collector for the search endpoint.
pub struct SearchOrdersBuilder<'p, 'b> {
    pub handler: &'b OrdersHandler<'p>,
    pub page: Option<u32>,
    pub per_page: Option<u8>,
    pub query: Option<String>,
}

impl<'p, 'b> SearchOrdersBuilder<'p, 'b> {
    /// The parameter bag this builder serializes to.
    pub open spec fn spec_query_params(self) -> Seq<(Seq<char>, Seq<char>)> {
        spec_opt_param(
            "page"@,
            match self.page {
                Some(p) => Some(spec_dec(p as nat)),
                None => None,
            },
        ) + spec_opt_param(
            "per_page"@,
            match self.per_page {
                Some(p) => Some(spec_dec(p as nat)),
                None => None,
            },
        ) + spec_opt_param(
            "query"@,
            match self.query {
                Some(s) => Some(s@),
                None => None,
            },
        )
    }

    pub fn page(self, page: u32) -> (b: Self)
        ensures
            b == (Self { page: Some(page), ..self }),
    {
        Self { page: Some(page), ..self }
    }

    pub fn per_page(self, per_page: u8) -> (b: Self)
        ensures
            b == (Self { per_page: Some(per_page), ..self }),
    {
        Self { per_page: Some(per_page), ..self }
    }

    pub fn query(self, query: String) -> (b: Self)
        ensures
            b == (Self { query: Some(query), ..self }),
    {
        Self { query: Some(query), ..self }
    }

    /// The route of the search endpoint under this client's API version.
    pub fn route(&self) -> (s: String)
        ensures
            s@ == "api/"@ + self.handler.printavo.version.spec_path_segment() + "/orders/search"@,
    {
        let mut s = String::new();
        push_str(&mut s, "api/");
        push_str(&mut s, self.handler.printavo.version.path_segment());
        push_str(&mut s, "/orders/search");
        s
    }

    /// The accumulated parameter bag: every set field exactly once, in a
    /// fixed order; no entry at all for an unset field.
    pub fn query_params(&self) -> (q: Vec<(String, String)>)
        ensures
            crate::request::pairs_model(q@) == self.spec_query_params(),
            self.page is None && self.per_page is None && self.query is None ==> q@.len() == 0,
    {
        let mut q: Vec<(String, String)> = Vec::new();
        if let Some(p) = self.page {
            q.push(("page".to_owned(), u64_to_dec(p as u64)));
        }
        if let Some(p) = self.per_page {
            q.push(("per_page".to_owned(), u64_to_dec(p as u64)));
        }
        if let Some(s) = &self.query {
            q.push(("query".to_owned(), s.clone()));
        }
        proof {
            assert(crate::request::pairs_model(q@) =~= self.spec_query_params());
        }
        q
    }
}

/// The JSON body of an add-payment call: a `book` member whose fields are
/// the payment's data, with unset optional fields omitted entirely.
pub struct AddPaymentBook {
    pub amount: serde_json::Value,
    pub formatted_transaction_date: String,
    pub book_category_id: Option<u32>,
    pub name: Option<String>,
    pub user_generated: Option<bool>,
}

impl AddPaymentBook {
    /// A book with only the two required fields set.
    pub fn new(amount: serde_json::Value, formatted_transaction_date: String) -> (b: Self)
        ensures
            json_of(b.amount) == json_of(amount),
            b.formatted_transaction_date@ == formatted_transaction_date@,
            b.book_category_id is None,
            b.name is None,
            b.user_generated is None,
    {
        AddPaymentBook {
            amount,
            formatted_transaction_date,
            book_category_id: None,
            name: None,
            user_generated: None,
        }
    }

    /// The JSON object this book serializes to: the required fields, and
    /// each optional field only when it is set.
    pub open spec fn spec_obj(self) -> Map<Seq<char>, Jv> {
        let m = Map::<Seq<char>, Jv>::empty().insert("amount"@, json_of(self.amount)).insert(
            "formatted_transaction_date"@,
            Jv::Str(self.formatted_transaction_date@),
        );
        let m = match self.book_category_id {
            Some(n) => m.insert(
                "book_category_id"@,
                Jv::Num { printed: spec_dec(n as nat), int_val: Some(n as u64) },
            ),
            None => m,
        };
        let m = match self.name {
            Some(s) => m.insert("name"@, Jv::Str(s@)),
            None => m,
        };
        match self.user_generated {
            Some(b) => m.insert("user_generated"@, Jv::Bool(b)),
            None => m,
        }
    }

    /// Build the JSON object value for this book.
    pub fn to_value(&self) -> (v: serde_json::Value)
        ensures
            json_of(v) == Jv::Obj(self.spec_obj()),
    {
        let mut m = json_map_new();
        json_map_insert(&mut m, "amount", clone_value(&self.amount));
        json_map_insert(
            &mut m,
            "formatted_transaction_date",
            json_string(self.formatted_transaction_date.as_str()),
        );
        if let Some(n) = self.book_category_id {
            json_map_insert(&mut m, "book_category_id", json_u32(n));
        }
        if let Some(s) = &self.name {
            json_map_insert(&mut m, "name", json_string(s.as_str()));
        }
        if let Some(b) = self.user_generated {
            json_map_insert(&mut m, "user_generated", json_bool(b));
        }
        proof {
            assert(crate::json::map_of(m) =~= self.spec_obj());
        }
        json_object(m)
    }
}

/// Fluent collector for the add-payment endpoint.
pub struct AddPaymentToOrderBuilder<'p, 'b> {
    pub handler: &'b OrdersHandler<'p>,
    pub id: u32,
    pub book: AddPaymentBook,
}

impl<'p, 'b> AddPaymentToOrderBuilder<'p, 'b> {
    pub fn book_category_id(self, book_category_id: u32) -> (b: Self)
        ensures
            b.book.book_category_id == Some(book_category_id),
            b.handler == self.handler,
            b.id == self.id,
            json_of(b.book.amount) == json_of(self.book.amount),
            b.book.formatted_transaction_date == self.book.formatted_transaction_date,
            b.book.name == self.book.name,
            b.book.user_generated == self.book.user_generated,
    {
        Self {
            handler: self.handler,
            id: self.id,
            book: AddPaymentBook { book_category_id: Some(book_category_id), ..self.book },
        }
    }

    pub fn name(self, name: String) -> (b: Self)
        ensures
            b.book.name == Some(name),
            b.handler == self.handler,
            b.id == self.id,
            json_of(b.book.amount) == json_of(self.book.amount),
            b.book.formatted_transaction_date == self.book.formatted_transaction_date,
            b.book.book_category_id == self.book.book_category_id,
            b.book.user_generated == self.book.user_generated,
    {
        Self {
            handler: self.handler,
            id: self.id,
            book: AddPaymentBook { name: Some(name), ..self.book },
        }
    }

    pub fn user_generated(self, user_generated: bool) -> (b: Self)
        ensures
            b.book.user_generated == Some(user_generated),
            b.handler == self.handler,
            b.id == self.id,
            json_of(b.book.amount) == json_of(self.book.amount),
            b.book.formatted_transaction_date == self.book.formatted_transaction_date,
            b.book.book_category_id == self.book.book_category_id,
            b.book.name == self.book.name,
    {
        Self {
            handler: self.handler,
            id: self.id,
            book: AddPaymentBook { user_generated: Some(user_generated), ..self.book },
        }
    }

    /// The JSON body this call sends: `{"book": {...}}`.
    pub open spec fn spec_body_obj(self) -> Map<Seq<char>, Jv> {
        Map::<Seq<char>, Jv>::empty().insert("book"@, Jv::Obj(self.book.spec_obj()))
    }

    /// The serialized JSON body text of this call.
    pub fn body_text(&self) -> (s: String)
        ensures
            s@ == json_text(Jv::Obj(self.spec_body_obj())),
    {
        let mut m = json_map_new();
        json_map_insert(&mut m, "book", self.book.to_value());
        let v = json_object(m);
        proof {
            assert(crate::json::map_of(m) =~= self.spec_body_obj());
        }
        json_to_text(&v)
    }

    /// The route of the add-payment endpoint for this order under this
    /// client's API version.
    pub fn route(&self) -> (s: String)
        ensures
            s@ == "api/"@ + self.handler.printavo.version.spec_path_segment() + "/orders/"@
                + spec_dec(self.id as nat) + "/add_payment"@,
    {
        let mut s = String::new();
        push_str(&mut s, "api/");
        push_str(&mut s, self.handler.printavo.version.path_segment());
        push_str(&mut s, "/orders/");
        let id_text = u64_to_dec(self.id as u64);
        push_str(&mut s, id_text.as_str());
        push_str(&mut s, "/add_payment");
        s
    }
}

} // verus!
