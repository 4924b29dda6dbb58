use vstd::prelude::*;

verus! {

/// The envelope every response travels in: a payload on success, a message
/// on failure, or both.
#[derive(Debug, Clone, PartialEq)]
pub struct ApiResponse<T> {
    pub data: Option<T>,
    pub message: Option<String>,
}

/// The payload of responses that carry none.
#[derive(Debug, Clone, Copy, PartialEq)]
pub struct EmptyResponseModel;

} // verus!
