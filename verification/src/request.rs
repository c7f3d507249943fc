//! A request and a response of the protocol, as plain data.

use std::collections::HashMap;
use vstd::prelude::*;

verus! {

/// A request as it came over the wire.
#[derive(Debug)]
pub struct Request {
    pub method: String,
    pub url: String,
    pub content_length: usize,
    pub http_version: String,
    pub headers: HashMap<String, String>,
    pub body: Vec<u8>,
}

/// A response as it goes over the wire.
pub struct Response {
    pub content_length: usize,
    pub http_version: String,
    pub headers: HashMap<String, String>,
    pub body: String,
    pub status_code: usize,
    pub status_msg: &'static str,
}

} // verus!
