//! Resolves a contact group by name, checks what the contacts service sends
//! back about it, and extracts the members' email addresses or phone numbers.
pub mod model;
pub mod error;
pub mod distance;
pub mod resolve;
pub mod members;
pub mod text;
pub mod extract;
pub mod greeting;
pub mod lookup;
pub mod laws;
pub mod message;

pub use error::Error;
pub use model::{ContactField, ContactGroup, ContactKind, Person};
