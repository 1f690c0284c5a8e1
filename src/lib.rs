//! The `/changes` resource of a notification-service API client: the query
//! string of a listing, the records a listing returns, and the unwrapping of
//! the response envelope into a typed result.

pub mod changes;
pub mod query;
pub mod response;
