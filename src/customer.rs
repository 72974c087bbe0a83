//! The customer operations: the request each one sends, and the outcome
//! that a response to it stands for.

use vstd::prelude::*;

use crate::client::{request_of, Client, ClientView, Method, Request, RequestView};
use crate::error::{decode_message, Error, ErrorKind};
use crate::json::{
    json_member, json_members, json_nullable, json_object, json_quoted, json_string_field, members_view, object_text,
    quote, string_field,
};

verus! {

/// A new customer to be created.
pub struct NewCustomer<'a> {
    pub name: &'a str,
    pub cpf: &'a str,
    pub status: &'a str,
    pub phone: &'a str,
    pub email: &'a str,
    pub username: &'a str,
    pub password: &'a str,
    pub zipcode: &'a str,
    pub product: &'a str,
    pub address: &'a str,
    pub city: &'a str,
    pub complement: Option<&'a str>,
    pub number: &'a str,
    pub state: &'a str,
}

/// A partial update of a customer: a field left `None` stays as it is.
pub struct UpdateCustomer<'a> {
    pub email: Option<&'a str>,
    pub username: Option<&'a str>,
}

/// A customer created by the service, known by its identifier.
#[derive(Clone, Debug)]
pub struct Customer {
    pub id: String,
}

/// The view of an optional string.
pub open spec fn opt_view(v: Option<&str>) -> Option<Seq<char>> {
    match v {
        Some(s) => Some(s@),
        None => None,
    }
}

/// The view of an optional owned string.
pub open spec fn opt_string_view(v: Option<String>) -> Option<Seq<char>> {
    match v {
        Some(s) => Some(s@),
        None => None,
    }
}

/// The path of the customer collection.
pub open spec fn customers_path() -> Seq<char> {
    "/alpha/reseller/customer"@
}

/// The path of customer `id`, followed by `suffix`.
pub open spec fn customer_path(id: Seq<char>, suffix: Seq<char>) -> Seq<char> {
    customers_path() + "/"@ + id + suffix
}

/// The members of the body that creates customer `n`, in wire order.
pub open spec fn new_customer_members(n: NewCustomer) -> Seq<(Seq<char>, Seq<char>)> {
    seq![
        ("name"@, json_quoted(n.name@)),
        ("cpf"@, json_quoted(n.cpf@)),
        ("status"@, json_quoted(n.status@)),
        ("phone"@, json_quoted(n.phone@)),
        ("email"@, json_quoted(n.email@)),
        ("username"@, json_quoted(n.username@)),
        ("password"@, json_quoted(n.password@)),
        ("zipcode"@, json_quoted(n.zipcode@)),
        ("product"@, json_quoted(n.product@)),
        ("address"@, json_quoted(n.address@)),
        ("city"@, json_quoted(n.city@)),
        ("complement"@, json_nullable(opt_view(n.complement))),
        ("number"@, json_quoted(n.number@)),
        ("state"@, json_quoted(n.state@)),
    ]
}

/// The request that creates customer `n`.
pub open spec fn create_request(c: ClientView, n: NewCustomer) -> RequestView {
    request_of(c, Method::Post, customers_path(), json_object(new_customer_members(n)))
}

/// The request that sets the email and username of customer `id`; an absent
/// field is sent as `null`.
pub open spec fn update_request(
    c: ClientView,
    id: Seq<char>,
    username: Option<Seq<char>>,
    email: Option<Seq<char>>,
) -> RequestView {
    request_of(
        c,
        Method::Put,
        customer_path(id, Seq::empty()),
        json_object(seq![("username"@, json_nullable(username)), ("email"@, json_nullable(email))]),
    )
}

/// The request that sets the password of customer `id`.
pub open spec fn password_request(c: ClientView, id: Seq<char>, password: Seq<char>) -> RequestView {
    request_of(
        c,
        Method::Post,
        customer_path(id, "/changepassword"@),
        json_object(seq![("password"@, json_quoted(password))]),
    )
}

/// The request that sets the product of customer `id`.
pub open spec fn product_request(c: ClientView, id: Seq<char>, product: Seq<char>) -> RequestView {
    request_of(
        c,
        Method::Put,
        customer_path(id, "/order"@),
        json_object(seq![("idProduct"@, json_quoted(product))]),
    )
}

/// The request that sets the status of customer `id`.
pub open spec fn status_request(c: ClientView, id: Seq<char>, status: Seq<char>) -> RequestView {
    request_of(
        c,
        Method::Put,
        customer_path(id, "/status"@),
        json_object(seq![("status"@, json_quoted(status))]),
    )
}

/// An HTTP status that stands for success.
pub open spec fn is_success(status: u16) -> bool {
    200 <= status < 300
}

/// `e` is the error that a failure response with `body` stands for: the
/// service's message where the body is `{"message": <string>}`, else a
/// decode error.
pub open spec fn error_of_body(body: Seq<u8>, e: Error) -> bool {
    error_of_message(json_string_field(body, "message"@), e)
}

/// `e` is the error of a failure response whose body carries `message`
/// under the key `message`: the service's error where there is one, else a
/// decode error.
pub open spec fn error_of_message(message: Option<Seq<char>>, e: Error) -> bool {
    match message {
        Some(m) => e.kind == ErrorKind::Api && e.message@ == m,
        None => e.kind == ErrorKind::Decode && e.message@ == decode_message(),
    }
}

/// `r` is the outcome of a creation whose response has `body`: the body
/// decides, the created shape `{"_id": <string>}` first, then the error shape.
pub open spec fn create_outcome(body: Seq<u8>, r: Result<Customer, Error>) -> bool {
    match json_string_field(body, "_id"@) {
        Some(id) => r is Ok && r->Ok_0.id@ == id,
        None => r is Err && error_of_body(body, r->Err_0),
    }
}

/// `r` is the outcome of an update whose response has `status` and `body`:
/// any status in [200, 300) is success, whatever the body.
pub open spec fn update_outcome(status: u16, body: Seq<u8>, r: Result<(), Error>) -> bool {
    if is_success(status) {
        r is Ok
    } else {
        r is Err && error_of_body(body, r->Err_0)
    }
}

/// The JSON text of a value that may be absent.
fn nullable(v: Option<&str>) -> (r: String)
    ensures
        r@ == json_nullable(opt_view(v)),
{
    match v {
        Some(s) => quote(s),
        None => String::from_str("null"),
    }
}

/// The path of customer `id`, followed by `suffix`.
fn customer_path_text(id: &str, suffix: &str) -> (r: String)
    ensures
        r@ == customer_path(id@, suffix@),
{
    let mut path = String::from_str("/alpha/reseller/customer");
    path.append("/");
    path.append(id);
    path.append(suffix);
    path
}

/// The error of a failure response whose body carries `message` under the
/// key `message`.
pub fn error_from_message(message: Option<String>) -> (e: Error)
    ensures
        error_of_message(opt_string_view(message), e),
{
    match message {
        Some(m) => Error::api(m),
        None => Error::decode(),
    }
}

/// The outcome of a creation whose response body carries `id` under the key
/// `_id` and `message` under the key `message`.
pub fn create_result(id: Option<String>, message: Option<String>) -> (r: Result<Customer, Error>)
    ensures
        match id {
            Some(i) => r is Ok && r->Ok_0.id@ == i@,
            None => r is Err && error_of_message(opt_string_view(message), r->Err_0),
        },
{
    match id {
        Some(id) => Ok(Customer { id }),
        None => Err(error_from_message(message)),
    }
}

/// The outcome of an update whose response has `status` and whose body
/// carries `message` under the key `message`.
pub fn update_result(status: u16, message: Option<String>) -> (r: Result<(), Error>)
    ensures
        is_success(status) ==> r is Ok,
        !is_success(status) ==> r is Err && error_of_message(opt_string_view(message), r->Err_0),
{
    if 200 <= status && status < 300 {
        Ok(())
    } else {
        Err(error_from_message(message))
    }
}

/// The outcome of a creation whose response has `body`.
pub fn read_create_response(body: &[u8]) -> (r: Result<Customer, Error>)
    ensures
        create_outcome(body@, r),
{
    create_result(string_field(body, "_id"), string_field(body, "message"))
}

/// The outcome of an update whose response has `status` and `body`.
pub fn read_update_response(status: u16, body: &[u8]) -> (r: Result<(), Error>)
    ensures
        update_outcome(status, body@, r),
{
    update_result(status, string_field(body, "message"))
}

impl Client {
    /// The request that creates customer `body`.
    pub fn create_customer_request(&self, body: &NewCustomer) -> (r: Request)
        ensures
            r@ == create_request(self@, *body),
    {
        let members = vec![
            ("name", quote(body.name)),
            ("cpf", quote(body.cpf)),
            ("status", quote(body.status)),
            ("phone", quote(body.phone)),
            ("email", quote(body.email)),
            ("username", quote(body.username)),
            ("password", quote(body.password)),
            ("zipcode", quote(body.zipcode)),
            ("product", quote(body.product)),
            ("address", quote(body.address)),
            ("city", quote(body.city)),
            ("complement", nullable(body.complement)),
            ("number", quote(body.number)),
            ("state", quote(body.state)),
        ];
        assert(members_view(members@) =~= new_customer_members(*body));
        self.request(Method::Post, "/alpha/reseller/customer", object_text(&members))
    }

    /// The request that updates the email and username of customer
    /// `customer_id`.
    pub fn update_customer_request(&self, customer_id: &str, dto: &UpdateCustomer) -> (r: Request)
        ensures
            r@ == update_request(self@, customer_id@, opt_view(dto.username), opt_view(dto.email)),
    {
        let members = vec![("username", nullable(dto.username)), ("email", nullable(dto.email))];
        let ghost m = seq![
            ("username"@, json_nullable(opt_view(dto.username))),
            ("email"@, json_nullable(opt_view(dto.email))),
        ];
        assert(members_view(members@) =~= m);
        let path = customer_path_text(customer_id, "");
        proof {
            reveal_strlit("");
        }
        assert(""@ =~= Seq::<char>::empty());
        self.request(Method::Put, path.as_str(), object_text(&members))
    }

    /// The request that sets the password of customer `customer_id`.
    pub fn update_customer_password_request(&self, customer_id: &str, password: &str) -> (r: Request)
        ensures
            r@ == password_request(self@, customer_id@, password@),
    {
        let members = vec![("password", quote(password))];
        let ghost m = seq![("password"@, json_quoted(password@))];
        assert(members_view(members@) =~= m);
        let path = customer_path_text(customer_id, "/changepassword");
        self.request(Method::Post, path.as_str(), object_text(&members))
    }

    /// The request that sets the product of customer `customer_id`.
    pub fn update_customer_product_request(&self, customer_id: &str, product_id: &str) -> (r: Request)
        ensures
            r@ == product_request(self@, customer_id@, product_id@),
    {
        let members = vec![("idProduct", quote(product_id))];
        let ghost m = seq![("idProduct"@, json_quoted(product_id@))];
        assert(members_view(members@) =~= m);
        let path = customer_path_text(customer_id, "/order");
        self.request(Method::Put, path.as_str(), object_text(&members))
    }

    /// The request that sets the status of customer `customer_id`.
    pub fn update_customer_status_request(&self, customer_id: &str, status: &str) -> (r: Request)
        ensures
            r@ == status_request(self@, customer_id@, status@),
    {
        let members = vec![("status", quote(status))];
        let ghost m = seq![("status"@, json_quoted(status@))];
        assert(members_view(members@) =~= m);
        let path = customer_path_text(customer_id, "/status");
        self.request(Method::Put, path.as_str(), object_text(&members))
    }
}

/// A creation response whose body carries `{"_id": id}` yields the customer
/// `id`, whatever customer was sent.
pub proof fn law_created_customer_id(body: Seq<u8>, id: Seq<char>, r: Result<Customer, Error>)
    requires
        json_string_field(body, "_id"@) == Some(id),
        create_outcome(body, r),
    ensures
        r is Ok,
        r->Ok_0.id@ == id,
{
}

/// Every update succeeds on a status in [200, 300), whatever the body holds.
pub proof fn law_update_success_status(status: u16, body: Seq<u8>, r: Result<(), Error>)
    requires
        200 <= status < 300,
        update_outcome(status, body, r),
    ensures
        r is Ok,
{
}

/// A failure response whose body is `{"message": m}` yields the service's
/// error with message `m`: for an update on a status outside [200, 300), and
/// for a creation, whose body carries no `_id`.
pub proof fn law_error_message(
    status: u16,
    body: Seq<u8>,
    m: Seq<char>,
    updated: Result<(), Error>,
    created: Result<Customer, Error>,
)
    requires
        !(200 <= status < 300),
        json_string_field(body, "message"@) == Some(m),
        json_string_field(body, "_id"@) is None,
        update_outcome(status, body, updated),
        create_outcome(body, created),
    ensures
        updated is Err,
        updated->Err_0.kind == ErrorKind::Api,
        updated->Err_0.message@ == m,
        created is Err,
        created->Err_0.kind == ErrorKind::Api,
        created->Err_0.message@ == m,
{
}

/// A creation response whose body has neither the created shape nor the
/// error shape is a decode error, never a customer.
pub proof fn law_create_decode_error(body: Seq<u8>, r: Result<Customer, Error>)
    requires
        json_string_field(body, "_id"@) is None,
        json_string_field(body, "message"@) is None,
        create_outcome(body, r),
    ensures
        r is Err,
        r->Err_0.kind == ErrorKind::Decode,
{
}

/// Setting the same status twice sends the same request twice, and each
/// success response gives its own success: nothing of the first call
/// changes the second.
pub proof fn law_status_update_repeats(
    c: ClientView,
    id: Seq<char>,
    status: Seq<char>,
    first: RequestView,
    second: RequestView,
    code1: u16,
    body1: Seq<u8>,
    r1: Result<(), Error>,
    code2: u16,
    body2: Seq<u8>,
    r2: Result<(), Error>,
)
    requires
        first == status_request(c, id, status),
        second == status_request(c, id, status),
        200 <= code1 < 300,
        200 <= code2 < 300,
        update_outcome(code1, body1, r1),
        update_outcome(code2, body2, r2),
    ensures
        first == second,
        r1 is Ok,
        r2 is Ok,
{
}

/// An update that sets only the email sends `{"username":null,"email":<e>}`
/// with PUT to the customer's path.
pub proof fn law_partial_update_body(c: ClientView, id: Seq<char>, e: Seq<char>)
    ensures
        update_request(c, id, None, Some(e)).method == Method::Put,
        update_request(c, id, None, Some(e)).url == c.api_url + customer_path(id, Seq::empty()),
        update_request(c, id, None, Some(e)).body
            == "{\"username\":null,\"email\":"@ + json_quoted(e) + "}"@,
{
    let m = seq![("username"@, json_nullable(None)), ("email"@, json_nullable(Some(e)))];
    assert(m.drop_last() =~= seq![("username"@, json_nullable(None))]);
    reveal_strlit("{\"username\":null,\"email\":");
    reveal_strlit("{");
    reveal_strlit("}");
    reveal_strlit(",");
    reveal_strlit("\"");
    reveal_strlit("\":");
    reveal_strlit("null");
    reveal_strlit("username");
    reveal_strlit("email");
    let head = seq![("username"@, json_nullable(None))];
    assert(json_members(head) == json_member("username"@, "null"@));
    assert(json_members(m) == json_members(head) + ","@ + json_member("email"@, json_quoted(e)));
    assert(json_object(m) =~= "{\"username\":null,\"email\":"@ + json_quoted(e) + "}"@);
}

} // verus!
