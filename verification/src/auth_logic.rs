//! What the service knows of its users: the claims of a session token and
//! the requests by which a user signs up and logs in.

pub mod jwt_functions;
pub mod models;
