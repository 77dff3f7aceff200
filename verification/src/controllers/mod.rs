//! What the portal decides on the requests that reach it. Reading the
//! request, the records and the answer of the outside systems is the
//! caller's part, and so is carrying the decision out.

pub mod admin_controller;
pub mod approver_controller;
pub mod client_controller;
pub mod user_controller;
