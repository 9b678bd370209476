//! The uniform envelope every API reply is wrapped in.
use vstd::prelude::*;

use crate::outside::now_millis;

verus! {

/// A reply: whether the request succeeded, its payload if any, a message, and
/// the instant (milliseconds since the Unix epoch) the reply was made.
#[derive(Debug, Clone)]
pub struct ApiResponse<T> {
    pub success: bool,
    pub data: Option<T>,
    pub message: String,
    pub timestamp: i64,
}

impl<T> ApiResponse<T> {
    /// A successful reply carrying `data`, stamped with the current time.
    pub fn success(data: T) -> (r: ApiResponse<T>)
        ensures
            r.success,
            r.data == Some(data),
            r.message@ == "Success"@,
    {
        ApiResponse {
            success: true,
            data: Some(data),
            message: String::from_str("Success"),
            timestamp: now_millis(),
        }
    }

    /// A failed reply with no payload, carrying `message`, stamped with the current time.
    pub fn error(message: String) -> (r: ApiResponse<T>)
        ensures
            !r.success,
            r.data is None,
            r.message == message,
    {
        ApiResponse { success: false, data: None, message, timestamp: now_millis() }
    }
}

} // verus!
