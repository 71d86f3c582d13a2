//! The error types of std and of the HTTP stack that the classification
//! receives, declared to Verus as opaque types.

use vstd::prelude::*;
use hyper::Error as HyperError;
use reqwest::Error as ReqwestError;

verus! {

/// `std::io::Error`, opaque.
#[verifier::external_type_specification]
#[verifier::external_body]
pub struct ExIoError(std::io::Error);

/// `hyper::Error`, opaque.
#[verifier::external_type_specification]
#[verifier::external_body]
pub struct ExHyperError(HyperError);

/// `reqwest::Error`, opaque.
#[verifier::external_type_specification]
#[verifier::external_body]
pub struct ExReqwestError(ReqwestError);

} // verus!
