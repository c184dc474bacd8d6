//! Request-side logic of a small web application framework: the request
//! value handed to middleware, the path of a request with its query string
//! cut off, the lookup of route parameters, and the server value.

pub mod path;
pub mod request;
pub mod router;
pub mod server;
pub mod text;
