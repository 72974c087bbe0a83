use ittv_sdk::{
    create_result, error_from_message, read_create_response, read_update_response, update_result,
    Client, Error, ErrorKind, Method, NewCustomer, UpdateCustomer,
};

fn full_customer(complement: Option<&str>) -> NewCustomer<'_> {
    NewCustomer {
        name: "John Doe",
        cpf: "123",
        status: "active",
        phone: "555",
        email: "john@example.com",
        username: "john",
        password: "secret",
        zipcode: "01000",
        product: "p1",
        address: "Main St",
        city: "Sao Paulo",
        complement,
        number: "10",
        state: "SP",
    }
}

fn api_error(r: Result<(), Error>) -> (ErrorKind, String) {
    let e = r.unwrap_err();
    (e.kind, e.message)
}

#[test]
fn create_customer_end_to_end() {
    let client = Client::with_base_url("T", "https://mock");
    let request = client.create_customer_request(&full_customer(None));
    assert_eq!(request.method, Method::Post);
    assert_eq!(request.url, "https://mock/alpha/reseller/customer");
    assert_eq!(request.authorization, "Bearer T");
    assert_eq!(
        request.body,
        concat_body(&[
            "\"name\":\"John Doe\"",
            "\"cpf\":\"123\"",
            "\"status\":\"active\"",
            "\"phone\":\"555\"",
            "\"email\":\"john@example.com\"",
            "\"username\":\"john\"",
            "\"password\":\"secret\"",
            "\"zipcode\":\"01000\"",
            "\"product\":\"p1\"",
            "\"address\":\"Main St\"",
            "\"city\":\"Sao Paulo\"",
            "\"complement\":null",
            "\"number\":\"10\"",
            "\"state\":\"SP\"",
        ])
    );
    let customer = read_create_response(br#"{"_id":"abc123"}"#).unwrap();
    assert_eq!(customer.id, "abc123");
}

fn concat_body(members: &[&str]) -> String {
    format!("{{{}}}", members.join(","))
}

#[test]
fn create_customer_with_complement() {
    let client = Client::with_base_url("T", "https://mock");
    let request = client.create_customer_request(&full_customer(Some("Apt 4")));
    assert!(request.body.contains("\"complement\":\"Apt 4\""));
    assert!(request.body.starts_with("{\"name\":\"John Doe\","));
    assert!(request.body.ends_with(",\"state\":\"SP\"}"));
}

#[test]
fn created_customer_id_is_taken_from_body() {
    for id in ["X", "d6ac4ff04d11", ""] {
        let body = format!("{{\"_id\":\"{}\"}}", id);
        let customer = read_create_response(body.as_bytes()).unwrap();
        assert_eq!(customer.id, id);
    }
    let customer = read_create_response(br#"{"_id":"a1","name":"John"}"#).unwrap();
    assert_eq!(customer.id, "a1");
}

#[test]
fn create_error_body_gives_api_error() {
    let e = read_create_response(br#"{"message":"duplicate customer"}"#).unwrap_err();
    assert_eq!(e.kind, ErrorKind::Api);
    assert_eq!(e.message, "duplicate customer");
}

#[test]
fn create_unknown_body_gives_decode_error() {
    for body in [&b"{\"foo\":1}"[..], b"not json", b"", b"{\"_id\":5}", b"[1,2]"] {
        let e = read_create_response(body).unwrap_err();
        assert_eq!(e.kind, ErrorKind::Decode);
        assert!(!e.message.is_empty());
    }
}

#[test]
fn update_success_status_ignores_body() {
    for status in [200u16, 201, 204, 299] {
        assert!(read_update_response(status, b"").is_ok());
        assert!(read_update_response(status, b"garbage").is_ok());
        assert!(read_update_response(status, br#"{"message":"ignored"}"#).is_ok());
    }
}

#[test]
fn update_failure_status_gives_api_error() {
    for status in [100u16, 199, 300, 400, 404, 500] {
        let (kind, message) = api_error(read_update_response(status, br#"{"message":"M"}"#));
        assert_eq!(kind, ErrorKind::Api);
        assert_eq!(message, "M");
    }
}

#[test]
fn update_failure_with_unreadable_body_gives_decode_error() {
    let (kind, _) = api_error(read_update_response(500, b"<html>oops</html>"));
    assert_eq!(kind, ErrorKind::Decode);
    let (kind, _) = api_error(read_update_response(400, br#"{"message":3}"#));
    assert_eq!(kind, ErrorKind::Decode);
}

#[test]
fn update_product_not_found() {
    let client = Client::with_base_url("T", "https://mock");
    let request = client.update_customer_product_request("cust1", "prod9");
    assert_eq!(request.method, Method::Put);
    assert_eq!(request.url, "https://mock/alpha/reseller/customer/cust1/order");
    assert_eq!(request.authorization, "Bearer T");
    assert_eq!(request.body, r#"{"idProduct":"prod9"}"#);
    let (kind, message) = api_error(read_update_response(404, br#"{"message":"not found"}"#));
    assert_eq!(kind, ErrorKind::Api);
    assert_eq!(message, "not found");
}

#[test]
fn update_status_twice_succeeds_twice() {
    let client = Client::with_base_url("T", "https://mock");
    let first = client.update_customer_status_request("c1", "active");
    let second = client.update_customer_status_request("c1", "active");
    assert_eq!(first.method, Method::Put);
    assert_eq!(first.url, "https://mock/alpha/reseller/customer/c1/status");
    assert_eq!(first.body, r#"{"status":"active"}"#);
    assert_eq!(first.url, second.url);
    assert_eq!(first.body, second.body);
    assert_eq!(first.authorization, second.authorization);
    assert!(read_update_response(200, b"").is_ok());
    assert!(read_update_response(200, b"").is_ok());
}

#[test]
fn partial_update_sends_null_username() {
    let client = Client::with_base_url("T", "https://mock");
    let dto = UpdateCustomer { email: Some("new@email.com"), username: None };
    let request = client.update_customer_request("d6ac4ff04d11", &dto);
    assert_eq!(request.method, Method::Put);
    assert_eq!(request.url, "https://mock/alpha/reseller/customer/d6ac4ff04d11");
    assert_eq!(request.body, r#"{"username":null,"email":"new@email.com"}"#);
}

#[test]
fn update_with_both_fields() {
    let client = Client::new("key");
    let dto = UpdateCustomer { email: None, username: None };
    let request = client.update_customer_request("id", &dto);
    assert_eq!(request.body, r#"{"username":null,"email":null}"#);
    let dto = UpdateCustomer { email: Some("e"), username: Some("u") };
    let request = client.update_customer_request("id", &dto);
    assert_eq!(request.body, r#"{"username":"u","email":"e"}"#);
}

#[test]
fn password_is_escaped() {
    let client = Client::with_base_url("T", "https://mock");
    let request = client.update_customer_password_request("11696d8558ce", "pa\"ss\\w0rd!");
    assert_eq!(request.method, Method::Post);
    assert_eq!(
        request.url,
        "https://mock/alpha/reseller/customer/11696d8558ce/changepassword"
    );
    assert_eq!(request.body, r#"{"password":"pa\"ss\\w0rd!"}"#);
}

#[test]
fn default_endpoint() {
    let client = Client::new("your_api_key");
    let request = client.update_customer_status_request("c", "s");
    assert_eq!(
        request.url,
        "https://api-resellers.ittv.com.br/alpha/reseller/customer/c/status"
    );
    assert_eq!(request.authorization, "Bearer your_api_key");
}

#[test]
fn outcome_from_fields() {
    let customer = create_result(Some("abc".to_string()), Some("m".to_string())).unwrap();
    assert_eq!(customer.id, "abc");
    let e = create_result(None, Some("bad".to_string())).unwrap_err();
    assert_eq!((e.kind, e.message.as_str()), (ErrorKind::Api, "bad"));
    let e = create_result(None, None).unwrap_err();
    assert_eq!(e.kind, ErrorKind::Decode);
    assert!(update_result(250, None).is_ok());
    let e = update_result(300, None).unwrap_err();
    assert_eq!(e.kind, ErrorKind::Decode);
    let e = update_result(199, Some("early".to_string())).unwrap_err();
    assert_eq!((e.kind, e.message.as_str()), (ErrorKind::Api, "early"));
    let e = error_from_message(Some("x".to_string()));
    assert_eq!((e.kind, e.message.as_str()), (ErrorKind::Api, "x"));
}

#[test]
fn error_constructors() {
    let e = Error::transport("connection refused".to_string());
    assert_eq!(e.kind, ErrorKind::Transport);
    assert_eq!(e.message, "connection refused");
    let e = Error::api("m".to_string());
    assert_eq!(e.kind, ErrorKind::Api);
    let e = Error::decode();
    assert_eq!(e.kind, ErrorKind::Decode);
}
