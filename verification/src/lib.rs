//! The rules of a small web service: a visit counter kept in each client's
//! session, and a user-creation endpoint that answers with the record it made.
//!
//! Every function here works on plain values and states what it returns. The
//! server around it (routing, cookies, the session store, JSON bodies) belongs
//! to the program that links this library.

pub mod counter;
pub mod decimal;
pub mod session;
pub mod user;
