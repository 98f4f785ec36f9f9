//! A rendered page before it is sent: the template to render, the values
//! handed to it, and the HTTP status.

use vstd::prelude::*;
use std::collections::BTreeMap;

verus! {

/// `serde_json::Value`, carried opaquely as the data of a template.
#[verifier::external_type_specification]
#[verifier::external_body]
pub struct ExJsonValue(serde_json::Value);

/// An HTTP status, by its numeric code.
#[derive(PartialEq, Eq, Structural, Debug, Clone, Copy)]
pub struct Status {
    pub code: u16,
}

/// A response: the template to render with `data`, and the status to send.
pub struct Response {
    pub data: BTreeMap<String, serde_json::Value>,
    pub template: String,
    pub status: Status,
}

} // verus!
