//! A client library for the ITTV reseller API.
//!
//! The library decides everything about a call that does not need the
//! network: the request to send (method, URL, bearer header, JSON body) and
//! the outcome that a received response stands for. Sending the request is
//! left to the caller.

mod client;
mod customer;
mod error;
mod json;

pub use crate::client::{Client, ClientView, Method, Request, RequestView};
pub use crate::customer::{
    create_result, error_from_message, read_create_response, read_update_response, update_result,
    Customer, NewCustomer, UpdateCustomer,
};
pub use crate::error::{Error, ErrorKind};
